//! Where a puzzle input is written.

use crate::text::{append_decimal, decimal, decimal_two_digits};
use vstd::prelude::*;
use vstd::string::*;

verus! {

/// The directory that receives the inputs: the one given with the command,
/// else the configured one, else `inputs`.
pub open spec fn output_directory_spec(
    explicit: Option<String>,
    configured: Option<String>,
) -> Seq<char> {
    match explicit {
        Some(dir) => dir@,
        None => match configured {
            Some(dir) => dir@,
            None => "inputs"@,
        },
    }
}

/// The name of the file of one puzzle: the year, a dot, and the day in at
/// least two digits.
pub open spec fn output_file_name_spec(year: u16, day: u8) -> Seq<char> {
    decimal(year as nat) + seq!['.'] + decimal_two_digits(day as nat)
}

/// A file name below a directory. A separator is put between the two unless
/// the directory is empty or ends in one.
pub open spec fn join_spec(directory: Seq<char>, name: Seq<char>) -> Seq<char> {
    if directory.len() == 0 || directory.last() == '/' {
        directory + name
    } else {
        directory + seq!['/'] + name
    }
}

/// The directory that receives the inputs, by the three tiers.
pub fn output_directory(explicit: Option<String>, configured: Option<String>) -> (r: String)
    ensures
        r@ == output_directory_spec(explicit, configured),
{
    match explicit {
        Some(dir) => dir,
        None => match configured {
            Some(dir) => dir,
            None => String::from_str("inputs"),
        },
    }
}

/// The name of the file of the puzzle of `day` in `year`.
pub fn output_file_name(year: u16, day: u8) -> (r: String)
    ensures
        r@ == output_file_name_spec(year, day),
{
    proof {
        reveal_strlit(".");
        reveal_strlit("0");
    }
    let mut out = String::new();
    append_decimal(&mut out, year);
    out.append(".");
    if day < 10 {
        out.append("0");
    }
    append_decimal(&mut out, day as u16);
    assert(out@ =~= output_file_name_spec(year, day));
    out
}

/// The path of the file of one puzzle below `directory`.
pub fn output_path(directory: &str, year: u16, day: u8) -> (r: String)
    ensures
        r@ == join_spec(directory@, output_file_name_spec(year, day)),
{
    proof {
        reveal_strlit("/");
    }
    let name = output_file_name(year, day);
    let n: usize = directory.unicode_len();
    let mut out = String::from_str(directory);
    if n > 0 && directory.get_char(n - 1) != '/' {
        out.append("/");
    }
    out.append(name.as_str());
    assert(out@ =~= join_spec(directory@, output_file_name_spec(year, day)));
    out
}

} // verus!
