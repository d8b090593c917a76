//! Reasons for which access to a project is denied.

use vstd::prelude::*;
use vstd::string::*;

verus! {

#[derive(Debug, Clone, Copy, PartialEq, Eq, Structural)]
pub enum AccessError {
    KeyInvalid,
    OriginNotAllowed,
    ProjectInactive,
}

impl AccessError {
    pub open spec fn text(self) -> Seq<char> {
        match self {
            AccessError::KeyInvalid => "invalid key"@,
            AccessError::OriginNotAllowed => "origin not allowed"@,
            AccessError::ProjectInactive => "project is inactive"@,
        }
    }

    pub fn to_string(&self) -> (s: String)
        ensures
            s@ == self.text(),
    {
        match self {
            AccessError::KeyInvalid => String::from_str("invalid key"),
            AccessError::OriginNotAllowed => String::from_str("origin not allowed"),
            AccessError::ProjectInactive => String::from_str("project is inactive"),
        }
    }
}

} // verus!
