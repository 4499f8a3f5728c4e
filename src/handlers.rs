//! The text and outcomes that the built-in commands produce.
use vstd::prelude::*;
use crate::session::{Outcome, Severity};
use crate::text::{dec_int, format_int};

verus! {

/// `x + y = sum`, on a line of its own.
pub open spec fn add_text(x: int, y: int) -> Seq<char> {
    dec_int(x) + " + "@ + dec_int(y) + " = "@ + dec_int(x + y) + "\n"@
}

/// `x - y = difference`, on a line of its own.
pub open spec fn sub_text(x: int, y: int) -> Seq<char> {
    dec_int(x) + " - "@ + dec_int(y) + " = "@ + dec_int(x - y) + "\n"@
}

/// ` x x+1 ... y`: each integer from `x` to `y` after a space.
pub open spec fn count_items(x: int, y: int) -> Seq<char>
    decreases y - x + 1,
{
    if y < x {
        seq![]
    } else {
        count_items(x, y - 1) + " "@ + dec_int(y)
    }
}

/// Adds two integers and shows the sum.
pub fn add_line(x: i32, y: i32) -> (r: String)
    ensures
        r@ == add_text(x as int, y as int),
{
    let s = (x as i64) + (y as i64);
    let a = format_int(x as i64);
    let b = format_int(y as i64);
    let c = format_int(s);
    a.concat(" + ").concat(b.as_str()).concat(" = ").concat(c.as_str()).concat("\n")
}

/// Subtracts `y` from `x` and shows the difference.
pub fn sub_line(x: i32, y: i32) -> (r: String)
    ensures
        r@ == sub_text(x as int, y as int),
{
    let s = (x as i64) - (y as i64);
    let a = format_int(x as i64);
    let b = format_int(y as i64);
    let c = format_int(s);
    a.concat(" - ").concat(b.as_str()).concat(" = ").concat(c.as_str()).concat("\n")
}

/// Counts from `x` to `y`, both included, on one line.
pub fn count_line(x: i32, y: i32) -> (r: String)
    ensures
        r@ == count_items(x as int, y as int) + "\n"@,
{
    let mut out = String::new();
    let mut i: i64 = x as i64;
    while i <= y as i64
        invariant
            x as int <= i,
            i <= y as int + 1 || i == x as int,
            out@ == count_items(x as int, i - 1),
        decreases y as int + 1 - i,
    {
        let d = format_int(i);
        out = out.concat(" ").concat(d.as_str());
        i = i + 1;
    }
    if (y as i64) < (x as i64) {
        assert(out@ == count_items(x as int, y as int));
    }
    out.concat("\n")
}

/// Whether `p` appears in `t` as a run of consecutive characters.
pub open spec fn occurs_in(p: Seq<char>, t: Seq<char>) -> bool {
    exists|i: int| 0 <= i <= t.len() - p.len() && #[trigger] t.subrange(i, i + p.len()) == p
}

/// A regular expression made of letters, digits and `/` alone, which only
/// matches itself.
pub open spec fn literal_pattern(p: Seq<char>) -> bool {
    p.len() > 0 && forall|i: int|
        0 <= i < p.len() ==> (('a' <= #[trigger] p[i] && p[i] <= 'z') || ('A' <= p[i] && p[i]
            <= 'Z') || ('0' <= p[i] && p[i] <= '9') || p[i] == '/')
}

/// Relies on regex::Regex::new and Regex::is_match: a short pattern of
/// letters, digits and `/` compiles, and matches a text exactly where it occurs in it.
#[verifier::external_body]
fn regex_is_match(pattern: &str, text: &str) -> (r: bool)
    requires
        literal_pattern(pattern@),
        pattern@.len() <= 64,
    ensures
        r == occurs_in(pattern@, text@),
{
    match regex::Regex::new(pattern) {
        Ok(re) => re.is_match(text),
        Err(_) => false,
    }
}

/// `path is a File` when the path holds a `/`, else `path is a Directory`.
pub open spec fn file_kind_text(path: Seq<char>) -> Seq<char> {
    if occurs_in("/"@, path) {
        path + " is a File\n"@
    } else {
        path + " is a Directory\n"@
    }
}

/// Tells a file from a directory by the shape of its path.
pub fn file_kind_line(path: &String) -> (r: String)
    ensures
        r@ == file_kind_text(path@),
{
    proof {
        reveal_strlit("/");
    }
    if regex_is_match("/", path.as_str()) {
        path.clone().concat(" is a File\n")
    } else {
        path.clone().concat(" is a Directory\n")
    }
}

/// The outcome of a spin of the cylinder after `nanos` nanoseconds.
pub open spec fn roulette_severity(nanos: nat) -> Severity {
    if nanos % 6 == 0 {
        Severity::Critical("Bang!"@)
    } else if nanos % 6 <= 2 {
        Severity::Recoverable("Blank cartridge?"@)
    } else {
        Severity::Completed
    }
}

/// Spins the cylinder: one chamber in six is critical, two are recoverable.
pub fn roulette_outcome(nanos: u128) -> (r: Outcome)
    ensures
        r@ == roulette_severity(nanos as nat),
{
    let cylinder = nanos % 6;
    if cylinder == 0 {
        Outcome::CriticalFailure("Bang!".to_owned())
    } else if cylinder <= 2 {
        Outcome::RecoverableFailure("Blank cartridge?".to_owned())
    } else {
        Outcome::Completed
    }
}

} // verus!
