//! Checks made when the program starts.
use vstd::prelude::*;

verus! {

#[verifier::external_type_specification]
#[verifier::external_body]
pub struct ExIoError(std::io::Error);

/// The message of an I/O error, as its `Display` shows it.
pub uninterp spec fn io_error_text(e: std::io::Error) -> Seq<char>;

/// Whether an I/O error is of kind `ErrorKind::Other`.
pub uninterp spec fn io_error_is_other(e: std::io::Error) -> bool;

/// Relies on std::io::Error::new: an error of kind `Other` whose message is
/// `description`.
#[verifier::external_body]
fn other_io_error(description: String) -> (r: std::io::Error)
    ensures
        io_error_text(r) == description@,
        io_error_is_other(r),
{
    std::io::Error::new(std::io::ErrorKind::Other, description)
}

/// Always fails, with an I/O error of kind `Other` whose message is `description`.
pub fn may_throw(description: String) -> (r: Result<(), std::io::Error>)
    ensures
        r matches Err(e) && io_error_text(e) == description@ && io_error_is_other(e),
{
    Err(other_io_error(description))
}

/// Whether the program was started with no argument besides its own name.
pub fn check_args_count(args: &Vec<String>) -> (r: bool)
    ensures
        r == (args@.len() == 1),
{
    args.len() == 1
}

} // verus!
