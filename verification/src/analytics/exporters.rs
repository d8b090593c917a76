//! Naming of exported batches.

use vstd::prelude::*;
use vstd::string::*;
use crate::text::{decimal, padded_two, signed_decimal, signed_text, two_digits};

verus! {

/// Where exported data goes: the parts of the object key that do not change
/// from one export to the next.
#[derive(Debug, Clone, PartialEq, Eq)]
pub struct ExportName {
    /// Key prefix (i.e. directory).
    pub export_prefix: String,
    /// Key base name.
    pub export_name: String,
    /// Node address added as a suffix to the key.
    pub node_addr: String,
    /// Key file extension.
    pub file_extension: String,
}

/// A calendar day and the milliseconds since the Unix epoch.
#[derive(Debug, Clone, Copy, PartialEq, Eq, Structural)]
pub struct ExportTime {
    pub year: i32,
    pub month: u32,
    pub day: u32,
    pub timestamp: i64,
}

impl ExportName {
    /// The object key of a batch exported at `time`:
    /// `<prefix>/dt=<year>-<month>-<day>/<name>_<timestamp>_<node>.<extension>`
    /// with month and day written in at least two digits.
    pub open spec fn key_spec(self, time: ExportTime) -> Seq<char> {
        self.export_prefix@ + "/dt="@ + signed_decimal(time.year as int) + "-"@ + padded_two(
            decimal(time.month as nat),
        ) + "-"@ + padded_two(decimal(time.day as nat)) + "/"@ + self.export_name@ + "_"@
            + signed_decimal(time.timestamp as int) + "_"@ + self.node_addr@ + "."@
            + self.file_extension@
    }

    pub fn key(&self, time: ExportTime) -> (key: String)
        ensures
            key@ == self.key_spec(time),
    {
        let mut key = self.export_prefix.clone();
        key.append("/dt=");
        key.append(signed_text(time.year as i64).as_str());
        key.append("-");
        key.append(two_digits(time.month as u64).as_str());
        key.append("-");
        key.append(two_digits(time.day as u64).as_str());
        key.append("/");
        key.append(self.export_name.as_str());
        key.append("_");
        key.append(signed_text(time.timestamp).as_str());
        key.append("_");
        key.append(self.node_addr.as_str());
        key.append(".");
        key.append(self.file_extension.as_str());
        key
    }
}

} // verus!
