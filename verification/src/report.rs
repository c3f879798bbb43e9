//! Lines of text for the user, and their output.
use std::io::Write;
use vstd::prelude::*;
use vstd::string::*;

verus! {

/// Writes `line` and a line break to the standard output of the process through
/// `writeln!` on `std::io::stdout()`, as `println!` does. Nothing is promised of the
/// output, and a failed write is not reported.
#[verifier::external_body]
pub fn print_line(line: &str) {
    let _ = writeln!(std::io::stdout(), "{}", line);
}

/// `prefix` followed by `rest`.
pub fn joined(prefix: &str, rest: &str) -> (r: String)
    ensures
        r@ == prefix@ + rest@,
{
    let mut out = prefix.to_owned();
    out.append(rest);
    out
}

} // verus!
