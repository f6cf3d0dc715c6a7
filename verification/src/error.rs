//! Why a listing stops early, and how that is reported.

use vstd::prelude::*;
use vstd::std_specs::convert::FromSpecImpl;

verus! {

/// Why a listing stopped early.
#[derive(Clone, Copy, Debug)]
pub enum DumpError {
    /// A section of a container could not be read.
    Section(object::Error),
    /// The debugging information is malformed, or one of its strings is not text.
    Dwarf(gimli::Error),
}

/// The `Debug` form of a container reader's error.
pub uninterp spec fn object_error_text(e: object::Error) -> Seq<char>;

/// The `Debug` form of a DWARF reader's error.
pub uninterp spec fn gimli_error_text(e: gimli::Error) -> Seq<char>;

/// How an error is shown: the `Debug` form of the reader's error inside it.
pub open spec fn debug_text(e: DumpError) -> Seq<char> {
    match e {
        DumpError::Section(e) => object_error_text(e),
        DumpError::Dwarf(e) => gimli_error_text(e),
    }
}

/// Formats an `object::Error` with its `Debug` implementation. Trusted: the
/// text depends on the error alone.
#[verifier::external_body]
pub(crate) fn object_error_string(e: &object::Error) -> (r: String)
    ensures
        r@ == object_error_text(*e),
{
    format!("{:?}", e)
}

/// Formats a `gimli::Error` with its `Debug` implementation. Trusted: the
/// text depends on the error alone.
#[verifier::external_body]
pub(crate) fn gimli_error_string(e: &gimli::Error) -> (r: String)
    ensures
        r@ == gimli_error_text(*e),
{
    format!("{:?}", e)
}

/// The line that reports an error which ended a listing.
pub open spec fn fatal_text(e: DumpError) -> Seq<char> {
    "fatal: "@ + debug_text(e) + "\n"@
}

/// Writes the line that reports `e`.
pub fn push_fatal(out: &mut String, e: &DumpError)
    ensures
        final(out)@ == old(out)@ + fatal_text(*e),
{
    out.append("fatal: ");
    let shown = match e {
        DumpError::Section(e) => object_error_string(e),
        DumpError::Dwarf(e) => gimli_error_string(e),
    };
    out.append(shown.as_str());
    out.append("\n");
    assert(out@ =~= old(out)@ + fatal_text(*e));
}

impl From<gimli::Error> for DumpError {
    fn from(e: gimli::Error) -> (r: DumpError) {
        DumpError::Dwarf(e)
    }
}

impl FromSpecImpl<gimli::Error> for DumpError {
    open spec fn obeys_from_spec() -> bool {
        true
    }

    open spec fn from_spec(e: gimli::Error) -> DumpError {
        DumpError::Dwarf(e)
    }
}

} // verus!
