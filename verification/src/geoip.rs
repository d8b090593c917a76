//! Geo-location data and the rules that block requests by country.

pub mod block;
pub mod geoblock;
pub mod resolver;
