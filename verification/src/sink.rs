//! The output sink's fixed names and its one decision.
//!
//! The rendered document always goes to standard output; it goes to the
//! output file only when the operator confirms. A cancelled or failed
//! confirmation prompt counts as "no", like every other prompt fallback.

use vstd::prelude::*;

verus! {

/// Whether the record is to be written to the output file: only an
/// explicit "yes" writes; "no", a cancelled prompt and a failed prompt
/// (`None`) do not.
pub fn should_write(confirm: Option<bool>) -> (r: bool)
    ensures
        r == (confirm == Some(true)),
{
    match confirm {
        Option::Some(true) => true,
        Option::Some(false) => false,
        Option::None => false,
    }
}

/// The fixed name of the output file in the working directory.
pub fn output_file_name() -> (r: &'static str)
    ensures
        r@ == "details.json"@,
{
    "details.json"
}

/// The line reported on standard output after a successful write.
pub fn written_message() -> (r: &'static str)
    ensures
        r@ == "Written to ./details.json"@,
{
    "Written to ./details.json"
}

} // verus!
