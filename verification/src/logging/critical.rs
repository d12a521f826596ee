//! Failures that somebody has to look at: each is kept in a file of its
//! own, named after the time at which it was reported.

use crate::utils::clock::local_now_rfc3339;
use crate::utils::text::{digits_of, digits_only};
use vstd::prelude::*;
use vstd::string::StringExecFns;

verus! {

/// The directory that holds the files, below the working directory.
pub const DIRECTORY: &'static str = "errors";

/// The name of the file for a failure that was reported at the date and
/// time `stamp`: the digits of the stamp.
pub fn file_name_at(stamp: &str) -> (name: String)
    ensures
        name@ == digits_of(stamp@),
{
    digits_only(stamp)
}

/// The name of the file for a failure that is reported now: the digits of
/// the local date and time.
pub fn file_name() -> (name: String)
    ensures
        exists|stamp: Seq<char>| name@ == digits_of(stamp),
{
    let stamp = local_now_rfc3339();
    file_name_at(stamp.as_str())
}

/// What is appended to the file: the failure, and three line ends that set
/// it off from the next.
pub fn entry(err: &str) -> (text: String)
    ensures
        text@ == err@ + "\n\n\n"@,
{
    let mut text = String::from_str(err);
    text.append("\n\n\n");
    text
}

} // verus!
