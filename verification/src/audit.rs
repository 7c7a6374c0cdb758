//! The line that is logged for each stamp.

use vstd::prelude::*;
use vstd::string::*;
use crate::decimal::{decimal_string, to_decimal};

verus! {

/// The text of the line that is logged when `file_hash` is stamped at
/// `timestamp`.
pub open spec fn audit_text(file_hash: Seq<char>, timestamp: u64) -> Seq<char> {
    "Stamping file '"@ + file_hash + "' at '"@ + decimal_string(timestamp as nat) + "'"@
}

/// Writes the line that is logged when `file_hash` is stamped at `timestamp`.
pub fn audit_line(file_hash: &str, timestamp: u64) -> (line: String)
    ensures
        line@ == audit_text(file_hash@, timestamp),
{
    let mut line = String::from_str("Stamping file '");
    line.append(file_hash);
    line.append("' at '");
    let digits = to_decimal(timestamp);
    line.append(digits.as_str());
    line.append("'");
    line
}

} // verus!
