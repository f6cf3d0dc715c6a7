//! The object container that holds the sections. Reading it is `object`'s
//! work; the items marked as trusted say what is believed of it.

use vstd::prelude::*;
use std::borrow::Cow;
use object::{Object, ObjectSection};
use crate::error::DumpError;

verus! {

/// `object::Error`, the container reader's error.
#[verifier::external_type_specification]
#[verifier::external_body]
pub struct ExObjectError(object::Error);

/// A parsed container, borrowing the bytes it was parsed from. It holds an
/// `object::File`, of which the verifier sees nothing: `contents` stands for
/// what the listing reads of it.
#[verifier::external_body]
pub struct Container<'a> {
    file: object::File<'a>,
}

/// How a container stores a section.
pub enum Stored {
    /// As it is: these are its bytes.
    Plain(Seq<u8>),
    /// Compressed: these are its bytes after decompression.
    Packed(Seq<u8>),
    /// So that its bytes cannot be had: it does not lie within the file, or
    /// it is marked as compressed and cannot be decompressed.
    Broken,
}

impl Stored {
    /// The bytes of the section, where they can be had.
    pub open spec fn bytes(self) -> Option<Seq<u8>> {
        match self {
            Stored::Plain(bytes) => Some(bytes),
            Stored::Packed(bytes) => Some(bytes),
            Stored::Broken => None,
        }
    }
}

/// What a container holds, as far as the listing reads it.
pub struct ContainerModel {
    /// Whether the container's format stores its numbers least significant
    /// byte first.
    pub little_endian: bool,
    /// The sections that the container gives out, by the name they are
    /// asked for under.
    pub sections: Map<Seq<char>, Stored>,
}

/// What a container holds.
pub uninterp spec fn contents(object: &Container) -> ContainerModel;

/// What parsing makes of a file's bytes: `None` where they are no container
/// in a format that the reader knows.
pub uninterp spec fn parsed(data: Seq<u8>) -> Option<ContainerModel>;

impl<'a> View for Container<'a> {
    type V = ContainerModel;

    open spec fn view(&self) -> ContainerModel {
        contents(self)
    }
}

/// Whether the container is little-endian.
pub open spec fn little_endian(object: &Container) -> bool {
    object@.little_endian
}

/// The sections of the container.
pub open spec fn sections(object: &Container) -> Map<Seq<char>, Stored> {
    object@.sections
}

/// Whether loading the section called `name` cannot fail: the container
/// has no such section, or stores it plain.
pub open spec fn loads_for_sure(object: &Container, name: Seq<char>) -> bool {
    sections(object).dom().contains(name) ==> sections(object)[name] is Plain
}

/// Calls `object::File::parse`. Trusted: what comes of it depends on the
/// bytes alone.
#[verifier::external_body]
pub(crate) fn parse_file<'a>(data: &'a [u8]) -> (r: Result<Container<'a>, object::Error>)
    ensures
        r is Ok <==> parsed(data@) is Some,
        r matches Ok(object) ==> parsed(data@) == Some(contents(&object)),
{
    object::File::parse(data).map(|file| Container { file })
}

/// Calls `object::Object::is_little_endian`. Trusted: the answer depends on
/// the container alone.
#[verifier::external_body]
pub(crate) fn file_is_little_endian(object: &Container) -> (r: bool)
    ensures
        r == contents(object).little_endian,
{
    object.file.is_little_endian()
}

/// Calls `object::Object::section_by_name` and, on the section it finds,
/// `object::ObjectSection::uncompressed_data`. Trusted: whether a section is
/// found, and how it is stored, depends on the container and the name alone,
/// and so do the bytes that come out of it. A section that is stored plain
/// is handed out as it is, without fail. An error comes of a section whose
/// bytes cannot be had, and may come of a compressed one that could be
/// decompressed, where the memory for it is not to be had.
#[verifier::external_body]
pub(crate) fn section_data<'a>(object: &Container<'a>, name: &str) -> (r: Option<
    Result<Cow<'a, [u8]>, object::Error>,
>)
    ensures
        r is Some <==> contents(object).sections.dom().contains(name@),
        r matches Some(Ok(data)) ==> contents(object).sections[name@].bytes() == Some(data@),
        r matches Some(Err(_)) ==> !(contents(object).sections[name@] is Plain),
{
    object.file.section_by_name(name).map(|section| section.uncompressed_data())
}

/// The bytes that stand for a section: its own after decompression, and none
/// at all for a section that is not there. `None` where the section's bytes
/// cannot be decompressed.
pub open spec fn section_bytes(object: &Container, name: Seq<char>) -> Option<Seq<u8>> {
    if sections(object).dom().contains(name) {
        sections(object)[name].bytes()
    } else {
        Some(Seq::empty())
    }
}

impl<'a> Container<'a> {
    /// Parses `data` as an object container of any format that the reader
    /// knows. Whether that succeeds, and what the container then holds, is
    /// the reader's decision, and the same for the same bytes.
    pub fn parse(data: &'a [u8]) -> (r: Result<Container<'a>, object::Error>)
        ensures
            r is Ok <==> parsed(data@) is Some,
            r matches Ok(object) ==> parsed(data@) == Some(object@),
    {
        parse_file(data)
    }

    /// Whether the container is little-endian.
    pub fn is_little_endian(&self) -> (r: bool)
        ensures
            r == little_endian(self),
    {
        file_is_little_endian(self)
    }
}

/// Loads the section called `name`: its bytes after decompression, or an
/// empty buffer for a section that the container does not have. Never fails
/// on a section that is not there or is stored plain, and always on one
/// whose bytes cannot be had.
pub fn load_section<'a>(object: &Container<'a>, name: &str) -> (r: Result<
    Cow<'a, [u8]>,
    DumpError,
>)
    ensures
        match r {
            Ok(data) => section_bytes(object, name@) == Some(data@),
            Err(e) => !loads_for_sure(object, name@) && e is Section,
        },
{
    match section_data(object, name) {
        Some(Ok(data)) => Ok(data),
        Some(Err(e)) => Err(DumpError::Section(e)),
        None => {
            let empty: &[u8] = &[];
            assert(empty@ =~= Seq::<u8>::empty());
            Ok(Cow::Borrowed(empty))
        },
    }
}

} // verus!
