//! One compilation unit as the listing reads it, and the lines it is written as.

use vstd::prelude::*;
use vstd::string::StringSliceAdditionalSpecFns;
use crate::debug_info::{bad_utf8, slice_to_str, text_error};

verus! {

/// What the listing reads of a compilation unit, as mathematical values.
pub struct UnitModel {
    /// Where the unit starts in its `.debug_info` section.
    pub offset: nat,
    /// The bytes of the `DW_AT_name` attribute.
    pub name: Option<Seq<u8>>,
    /// The bytes of the `DW_AT_comp_dir` attribute.
    pub comp_dir: Option<Seq<u8>>,
    /// The split-DWARF identifier.
    pub dwo_id: Option<u64>,
}

/// What the listing reads of a compilation unit. The strings are raw bytes of
/// the section they were found in: they need not be text.
#[derive(Clone, Copy, Debug)]
pub struct UnitRecord<'a> {
    pub offset: usize,
    pub name: Option<&'a [u8]>,
    pub comp_dir: Option<&'a [u8]>,
    pub dwo_id: Option<u64>,
}

/// The bytes behind an optional slice.
pub open spec fn bytes_of(slice: Option<&[u8]>) -> Option<Seq<u8>> {
    match slice {
        Some(s) => Some(s@),
        None => None,
    }
}

impl<'a> View for UnitRecord<'a> {
    type V = UnitModel;

    open spec fn view(&self) -> UnitModel {
        UnitModel {
            offset: self.offset as nat,
            name: bytes_of(self.name),
            comp_dir: bytes_of(self.comp_dir),
            dwo_id: self.dwo_id,
        }
    }
}

/// The text that bytes spell: defined where they are well-formed UTF-8.
pub open spec fn text_of(bytes: Seq<u8>) -> Option<Seq<char>> {
    if vstd::utf8::valid_utf8(bytes) {
        Some(vstd::utf8::decode_utf8(bytes))
    } else {
        None
    }
}

/// The path under which the toolchain's own sources are compiled.
pub open spec fn toolchain_prefix() -> Seq<u8> {
    "/emsdk/emscripten".spec_bytes()
}

/// Whether a unit with this compilation directory is listed: it has one, and
/// the directory does not begin with the toolchain's path.
pub open spec fn is_listed(comp_dir: Option<Seq<u8>>) -> bool {
    match comp_dir {
        Some(dir) => !toolchain_prefix().is_prefix_of(dir),
        None => false,
    }
}

/// The line that names a unit, or `None` where the name is not text.
pub open spec fn name_line(name: Option<Seq<u8>>) -> Option<Seq<char>> {
    match name {
        Some(bytes) => match text_of(bytes) {
            Some(text) => Some(text + "\n"@),
            None => None,
        },
        None => Some("<no name>"@ + "\n"@),
    }
}

/// The line that gives a unit's compilation directory: nothing for a unit
/// without one, and `None` where the directory is not text.
pub open spec fn comp_dir_line(comp_dir: Option<Seq<u8>>) -> Option<Seq<char>> {
    match comp_dir {
        Some(bytes) => match text_of(bytes) {
            Some(text) => Some("    comp dir: "@ + text + "\n"@),
            None => None,
        },
        None => Some(Seq::empty()),
    }
}

/// Whether both strings of a unit, as far as it has them, are text.
pub open spec fn unit_is_text(unit: UnitModel) -> bool {
    name_line(unit.name) is Some && comp_dir_line(unit.comp_dir) is Some
}

/// The reader's error for the first string of a unit that is not text.
pub open spec fn unit_text_error(unit: UnitModel) -> gimli::Error {
    match unit.name {
        Some(name) => if text_of(name) is None {
            text_error(name)
        } else {
            match unit.comp_dir {
                Some(dir) => text_error(dir),
                None => text_error(name),
            }
        },
        None => match unit.comp_dir {
            Some(dir) => text_error(dir),
            None => text_error(Seq::empty()),
        },
    }
}

/// What `dump_unit` writes for a unit: its two lines, or as much of them as
/// precedes the first string that is not text.
pub open spec fn unit_lines(unit: UnitModel) -> Seq<char> {
    match name_line(unit.name) {
        Some(name) => match comp_dir_line(unit.comp_dir) {
            Some(dir) => name + dir,
            None => name,
        },
        None => Seq::empty(),
    }
}

/// Whether `bytes` begins with `prefix`.
pub fn starts_with(bytes: &[u8], prefix: &[u8]) -> (r: bool)
    ensures
        r == prefix@.is_prefix_of(bytes@),
{
    if prefix.len() > bytes.len() {
        return false;
    }
    let mut i: usize = 0;
    while i < prefix.len()
        invariant
            i <= prefix.len() <= bytes.len(),
            forall|j: int| 0 <= j < i ==> bytes@[j] == prefix@[j],
        decreases prefix.len() - i,
    {
        if bytes[i] != prefix[i] {
            assert(bytes@.subrange(0, prefix@.len() as int)[i as int] != prefix@[i as int]);
            return false;
        }
        i = i + 1;
    }
    assert(prefix@ =~= bytes@.subrange(0, prefix@.len() as int));
    true
}

/// Decides whether a unit with this compilation directory is listed.
pub fn listed(comp_dir: Option<&[u8]>) -> (r: bool)
    ensures
        r == is_listed(bytes_of(comp_dir)),
{
    match comp_dir {
        Some(dir) => !starts_with(dir, "/emsdk/emscripten".as_bytes()),
        None => false,
    }
}

/// Writes a unit's name, or a placeholder for a unit without one, and then
/// its compilation directory if it has one, each on a line of its own. Stops
/// at the first string that is not well-formed UTF-8 and returns the reader's
/// error for it; what was written before stays in `out`.
pub fn dump_unit(out: &mut String, unit: &UnitRecord) -> (r: Result<(), gimli::Error>)
    ensures
        final(out)@ == old(out)@ + unit_lines(unit@),
        r is Ok <==> unit_is_text(unit@),
        r matches Err(e) ==> e == unit_text_error(unit@) && bad_utf8(e),
{
    match unit.name {
        Some(name) => match slice_to_str(name) {
            Ok(text) => {
                out.append(text);
                out.append("\n");
            },
            Err(e) => {
                assert(old(out)@ + unit_lines(unit@) =~= old(out)@);
                return Err(e);
            },
        },
        None => {
            out.append("<no name>");
            out.append("\n");
        },
    }
    assert(out@ =~= old(out)@ + name_line(unit@.name).unwrap());
    match unit.comp_dir {
        Some(dir) => match slice_to_str(dir) {
            Ok(text) => {
                out.append("    comp dir: ");
                out.append(text);
                out.append("\n");
            },
            Err(e) => {
                return Err(e);
            },
        },
        None => {},
    }
    assert(out@ =~= old(out)@ + unit_lines(unit@));
    Ok(())
}

} // verus!
