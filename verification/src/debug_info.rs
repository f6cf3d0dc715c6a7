//! The DWARF reader. Parsing is `gimli`'s work: the items marked as trusted
//! are a thin layer over it, and each doc comment says what is believed.

use vstd::prelude::*;
use std::borrow::Cow;
use crate::container::{load_section, loads_for_sure, section_bytes, sections, Container};
use crate::error::DumpError;
use crate::unit::{UnitModel, UnitRecord};

verus! {

/// `gimli::Error`, the reader's error. Nothing is known of its variants here.
#[verifier::external_type_specification]
#[verifier::external_body]
pub struct ExGimliError(gimli::Error);

/// `gimli::SectionId`, which tells the DWARF sections apart.
#[verifier::external_type_specification]
#[verifier::external_body]
pub struct ExSectionId(gimli::SectionId);

/// `gimli::DwarfSections`, the loaded sections of a module.
#[verifier::external_type_specification]
#[verifier::external_body]
#[verifier::reject_recursive_types(T)]
pub struct ExDwarfSections<T>(gimli::DwarfSections<T>);

/// `gimli::DwarfPackageSections`, the loaded sections of a package.
#[verifier::external_type_specification]
#[verifier::external_body]
#[verifier::reject_recursive_types(T)]
pub struct ExDwarfPackageSections<T>(gimli::DwarfPackageSections<T>);

/// The byte order in which the sections are read.
#[derive(Clone, Copy, Debug, PartialEq, Eq)]
pub enum Endian {
    Little,
    Big,
}

/// The debugging information of a module, or of one unit of a package: a
/// `gimli::Dwarf` over borrowed sections.
#[verifier::external_body]
pub struct DebugInfo<'s> {
    dwarf: gimli::Dwarf<gimli::EndianSlice<'s, gimli::RunTimeEndian>>,
}

/// A package of split units, found by their identifiers: a
/// `gimli::DwarfPackage` over borrowed sections.
#[verifier::external_body]
pub struct Package<'s> {
    package: gimli::DwarfPackage<gimli::EndianSlice<'s, gimli::RunTimeEndian>>,
}

/// A cursor over the unit headers of a `.debug_info` section: a
/// `gimli::DebugInfoUnitHeadersIter`.
#[verifier::external_body]
pub struct UnitHeaders<'s> {
    iter: gimli::DebugInfoUnitHeadersIter<gimli::EndianSlice<'s, gimli::RunTimeEndian>>,
}

/// The header of one unit: a `gimli::UnitHeader`.
#[verifier::external_body]
pub struct UnitHeader<'s> {
    header: gimli::UnitHeader<gimli::EndianSlice<'s, gimli::RunTimeEndian>>,
}

/// What debugging information is made of: the bytes of its sections, by the
/// names they go by in a module, the byte order they are read in, and
/// whether it is that of a split unit.
pub struct DwarfModel {
    pub sections: Map<Seq<char>, Seq<u8>>,
    pub endian: Endian,
    pub split: bool,
}

impl DwarfModel {
    /// The bytes of the `.debug_info` section.
    pub open spec fn info(self) -> Seq<u8> {
        self.sections[".debug_info"@]
    }
}

/// What a package is made of: the bytes of its sections, by the names they
/// go by in a package, and the byte order they are read in.
pub struct PackageModel {
    pub sections: Map<Seq<char>, Seq<u8>>,
    pub endian: Endian,
}

/// Where a cursor stands: the bytes of the section that it has not read
/// yet, how many it has read, and the byte order it reads in.
pub struct CursorModel {
    pub unread: Seq<u8>,
    pub position: nat,
    pub endian: Endian,
}

/// What a header holds: the bytes of its unit, the length field included,
/// the offset of the unit in its section, and the byte order of the unit.
pub struct HeaderModel {
    pub bytes: Seq<u8>,
    pub offset: nat,
    pub endian: Endian,
}

/// The names under which the sections of a module are asked for.
pub open spec fn module_section_names() -> Set<Seq<char>> {
    set![
        ".debug_abbrev"@,
        ".debug_addr"@,
        ".debug_aranges"@,
        ".debug_info"@,
        ".debug_line"@,
        ".debug_line_str"@,
        ".debug_macinfo"@,
        ".debug_macro"@,
        ".debug_names"@,
        ".debug_str"@,
        ".debug_str_offsets"@,
        ".debug_types"@,
        ".debug_loc"@,
        ".debug_loclists"@,
        ".debug_ranges"@,
        ".debug_rnglists"@,
    ]
}

/// The names under which the sections of a package are asked for.
pub open spec fn package_section_names() -> Set<Seq<char>> {
    set![
        ".debug_cu_index"@,
        ".debug_tu_index"@,
        ".debug_abbrev.dwo"@,
        ".debug_info.dwo"@,
        ".debug_line.dwo"@,
        ".debug_macinfo.dwo"@,
        ".debug_macro.dwo"@,
        ".debug_str.dwo"@,
        ".debug_str_offsets.dwo"@,
        ".debug_loc.dwo"@,
        ".debug_loclists.dwo"@,
        ".debug_rnglists.dwo"@,
        ".debug_types.dwo"@,
    ]
}

/// Whether each of the named sections of a container can be decompressed,
/// as far as the container has it.
pub open spec fn loadable(object: &Container, names: Set<Seq<char>>) -> bool {
    forall|name: Seq<char>| names.contains(name) ==> (#[trigger] section_bytes(object, name)) is Some
}

/// Whether none of the named sections of a container can fail to load: the
/// container stores plain what it has of them.
pub open spec fn stored_plain(object: &Container, names: Set<Seq<char>>) -> bool {
    forall|name: Seq<char>| names.contains(name) ==> #[trigger] loads_for_sure(object, name)
}

/// Whether the container holds a section under one of the names.
pub open spec fn holds_one_of(object: &Container, names: Set<Seq<char>>) -> bool {
    exists|name: Seq<char>| names.contains(name) && #[trigger] sections(object).dom().contains(name)
}

/// The bytes that stand for each of the named sections of a container.
pub open spec fn named_sections(object: &Container, names: Set<Seq<char>>) -> Map<
    Seq<char>,
    Seq<u8>,
> {
    Map::new(
        |name: Seq<char>| names.contains(name),
        |name: Seq<char>| section_bytes(object, name).unwrap(),
    )
}

/// The bytes that were loaded for a module, by the names of their sections.
pub uninterp spec fn loaded(sections: &gimli::DwarfSections<Cow<[u8]>>) -> Map<Seq<char>, Seq<u8>>;

/// The bytes that were loaded for a package, by the names of their sections.
pub uninterp spec fn loaded_package(sections: &gimli::DwarfPackageSections<Cow<[u8]>>) -> Map<
    Seq<char>,
    Seq<u8>,
>;

/// What debugging information is made of.
pub uninterp spec fn dwarf_model(dwarf: &DebugInfo) -> DwarfModel;

/// What a package is made of.
pub uninterp spec fn package_model(package: &Package) -> PackageModel;

/// Where a cursor stands.
pub uninterp spec fn cursor(headers: &UnitHeaders) -> CursorModel;

/// What a header holds.
pub uninterp spec fn header_model(header: &UnitHeader) -> HeaderModel;

/// How many bytes the header and the unit at the front of `pending` take,
/// read in the given byte order; `None` where the reader finds no
/// well-formed header there.
pub uninterp spec fn header_length(pending: Seq<u8>, endian: Endian) -> Option<nat>;

/// What the reader makes of the unit behind a header, with the sections of
/// the debugging information it belongs to: what the listing reads of the
/// unit, or `None` where the unit is malformed.
pub uninterp spec fn unit_of(dwarf: DwarfModel, header: HeaderModel) -> Option<UnitModel>;

/// Whether the indices of a package with these sections are well-formed.
pub uninterp spec fn package_parses(sections: Map<Seq<char>, Seq<u8>>, endian: Endian) -> bool;

/// What a package gives under an identifier: `None` where the search fails,
/// `Some(None)` where the index holds no unit under the identifier, and
/// otherwise the debugging information of the split unit, for which the
/// debugging information `parent` stands in where a split unit has none.
pub uninterp spec fn find_split(package: PackageModel, id: u64, parent: DwarfModel) -> Option<
    Option<DwarfModel>,
>;

/// The reader's error for bytes that are not text.
pub uninterp spec fn text_error(bytes: Seq<u8>) -> gimli::Error;

/// Whether an error is the reader's `BadUtf8`.
pub uninterp spec fn bad_utf8(e: gimli::Error) -> bool;

/// The bytes that were loaded as the `.debug_info` section of a module.
pub open spec fn loaded_info(sections: &gimli::DwarfSections<Cow<[u8]>>) -> Seq<u8> {
    loaded(sections)[".debug_info"@]
}

/// The bytes of the `.debug_info` section that debugging information reads.
pub open spec fn info_bytes(dwarf: &DebugInfo) -> Seq<u8> {
    dwarf_model(dwarf).info()
}

/// The bytes of the section that a cursor has not read yet.
pub open spec fn unread(headers: &UnitHeaders) -> Seq<u8> {
    cursor(headers).unread
}

/// How many bytes of the section a cursor has read: the offset of the next
/// header.
pub open spec fn position(headers: &UnitHeaders) -> nat {
    cursor(headers).position
}

/// The offset in its section at which a header was read.
pub open spec fn header_offset(header: &UnitHeader) -> nat {
    header_model(header).offset
}

/// The identifiers under which a package's index finds a unit.
pub uninterp spec fn package_ids(package: &Package) -> Set<u64>;

/// The name that a section goes by in a module.
pub uninterp spec fn module_name(id: gimli::SectionId) -> Seq<char>;

/// The name that a section goes by in a package, for the sections that a
/// package can hold.
pub uninterp spec fn package_name(id: gimli::SectionId) -> Option<Seq<char>>;

/// `gimli::SectionId::name`: the name of a section in a module. Trusted: it
/// depends on the section alone.
pub assume_specification[ gimli::SectionId::name ](id: gimli::SectionId) -> (r: &'static str)
    ensures
        r@ == module_name(id),
;

/// `gimli::SectionId::dwo_name`: the name of a section in a package, for the
/// sections that a package can hold. Trusted: it depends on the section
/// alone.
pub assume_specification[ gimli::SectionId::dwo_name ](id: gimli::SectionId) -> (r: Option<
    &'static str,
>)
    ensures
        r is Some <==> package_name(id) is Some,
        r matches Some(name) ==> package_name(id) == Some(name@),
;

/// Loads the section of a module that `id` stands for: what `load_section`
/// gives under the name that the section goes by in a module.
pub(crate) fn load_module_section<'a>(object: &Container<'a>, id: gimli::SectionId) -> (r: Result<
    Cow<'a, [u8]>,
    DumpError,
>)
    ensures
        match r {
            Ok(data) => section_bytes(object, module_name(id)) == Some(data@),
            Err(e) => !loads_for_sure(object, module_name(id)) && e is Section,
        },
{
    load_section(object, id.name())
}

/// Loads the section of a package that `id` stands for: what `load_section`
/// gives under the name that the section goes by in a package. A section
/// that packages do not hold is empty, whatever the container holds.
pub(crate) fn load_package_section<'a>(object: &Container<'a>, id: gimli::SectionId) -> (r: Result<
    Cow<'a, [u8]>,
    DumpError,
>)
    ensures
        match (package_name(id), r) {
            (Some(name), Ok(data)) => section_bytes(object, name) == Some(data@),
            (Some(name), Err(e)) => !loads_for_sure(object, name) && e is Section,
            (None, Ok(data)) => data@ == Seq::<u8>::empty(),
            (None, Err(_)) => false,
        },
{
    match id.dwo_name() {
        Some(name) => load_section(object, name),
        None => {
            let empty: &[u8] = &[];
            assert(empty@ =~= Seq::<u8>::empty());
            Ok(Cow::Borrowed(empty))
        },
    }
}

/// Calls `gimli::DwarfSections::load`, which asks for each section of a
/// module in turn, under the names listed above, and stops at the first that
/// fails. Trusted: it succeeds only where each of them was loaded, and then
/// holds what was loaded; an error is one that loading a section gave, and
/// so comes of a section that the container holds and does not store plain.
#[verifier::external_body]
pub(crate) fn load_sections<'a>(object: &Container<'a>) -> (r: Result<
    gimli::DwarfSections<Cow<'a, [u8]>>,
    DumpError,
>)
    ensures
        r is Ok ==> loadable(object, module_section_names()),
        r matches Ok(sections) ==> loaded(&sections) == named_sections(
            object,
            module_section_names(),
        ),
        r matches Err(e) ==> e is Section && holds_one_of(object, module_section_names())
            && !stored_plain(object, module_section_names()),
{
    gimli::DwarfSections::load(|id| load_module_section(object, id))
}

/// Calls `gimli::DwarfPackageSections::load`, which asks for each section of
/// a package in turn, under the names listed above, and stops at the first
/// that fails. Trusted: it succeeds only where each of them was loaded, and
/// then holds what was loaded; an error is one that loading a section gave,
/// and so comes of a section that the container holds and does not store
/// plain.
#[verifier::external_body]
pub(crate) fn load_package_sections<'a>(object: &Container<'a>) -> (r: Result<
    gimli::DwarfPackageSections<Cow<'a, [u8]>>,
    DumpError,
>)
    ensures
        r is Ok ==> loadable(object, package_section_names()),
        r matches Ok(sections) ==> loaded_package(&sections) == named_sections(
            object,
            package_section_names(),
        ),
        r matches Err(e) ==> e is Section && holds_one_of(object, package_section_names())
            && !stored_plain(object, package_section_names()),
{
    gimli::DwarfPackageSections::load(|id| load_package_section(object, id))
}

/// Calls `gimli::DwarfSections::borrow` with a reader of the given byte order
/// over each section. Trusted: the result reads the bytes that were loaded,
/// in that byte order, and is no split unit's.
#[verifier::external_body]
pub(crate) fn borrow_sections<'s, 'a>(
    sections: &'s gimli::DwarfSections<Cow<'a, [u8]>>,
    endian: Endian,
) -> (r: DebugInfo<'s>)
    ensures
        dwarf_model(&r) == (DwarfModel { sections: loaded(sections), endian, split: false }),
{
    let endian = match endian {
        Endian::Little => gimli::RunTimeEndian::Little,
        Endian::Big => gimli::RunTimeEndian::Big,
    };
    DebugInfo { dwarf: sections.borrow(|section| gimli::EndianSlice::new(Cow::as_ref(section), endian)) }
}

/// Calls `gimli::DwarfPackageSections::borrow` with a reader of the given
/// byte order over each section, and an empty reader for what a package
/// lacks. It parses the package's indices, and fails where they are
/// malformed. Trusted: whether they are depends on the bytes and the byte
/// order alone, and the package reads the bytes that were loaded.
#[verifier::external_body]
pub(crate) fn borrow_package<'s, 'a>(
    sections: &'s gimli::DwarfPackageSections<Cow<'a, [u8]>>,
    endian: Endian,
) -> (r: Result<Package<'s>, gimli::Error>)
    ensures
        r is Ok <==> package_parses(loaded_package(sections), endian),
        r matches Ok(package) ==> package_model(&package) == (PackageModel {
            sections: loaded_package(sections),
            endian,
        }),
{
    let endian = match endian {
        Endian::Little => gimli::RunTimeEndian::Little,
        Endian::Big => gimli::RunTimeEndian::Big,
    };
    sections.borrow(
        |section| gimli::EndianSlice::new(Cow::as_ref(section), endian),
        gimli::EndianSlice::new(&[], endian),
    ).map(|package| Package { package })
}

/// Calls `gimli::Dwarf::units`. Trusted: the cursor stands at the start of
/// the `.debug_info` section, with all of it left to read.
#[verifier::external_body]
pub(crate) fn units<'s>(dwarf: &DebugInfo<'s>) -> (r: UnitHeaders<'s>)
    ensures
        cursor(&r) == (CursorModel {
            unread: dwarf_model(dwarf).info(),
            position: 0,
            endian: dwarf_model(dwarf).endian,
        }),
{
    UnitHeaders { iter: dwarf.dwarf.units() }
}

/// Calls `gimli::DebugInfoUnitHeadersIter::next`. Trusted, as its source
/// shows: with nothing left to read it returns no header and stays as it is.
/// Otherwise it reads a header from the front of what is left; whether it
/// finds one, and how many bytes header and unit take, depends on those
/// bytes and the byte order alone. The header that it returns holds the
/// bytes it took, at the cursor's position, and the cursor has then moved on
/// behind them; they are at least one. After an error nothing is left.
#[verifier::external_body]
pub(crate) fn next_header<'s>(headers: &mut UnitHeaders<'s>) -> (r: Result<
    Option<UnitHeader<'s>>,
    gimli::Error,
>)
    ensures
        r matches Ok(None) <==> cursor(old(headers)).unread.len() == 0,
        r matches Ok(None) ==> cursor(final(headers)) == cursor(old(headers)),
        cursor(old(headers)).unread.len() > 0 ==> (r is Err <==> header_length(
            cursor(old(headers)).unread,
            cursor(old(headers)).endian,
        ) is None),
        r matches Ok(Some(header)) ==> {
            let before = cursor(old(headers));
            let read = before.unread.len() - cursor(final(headers)).unread.len();
            &&& read > 0
            &&& header_length(before.unread, before.endian) == Some(read as nat)
            &&& cursor(final(headers)) == (CursorModel {
                unread: before.unread.skip(read),
                position: before.position + read as nat,
                endian: before.endian,
            })
            &&& header_model(&header) == (HeaderModel {
                bytes: before.unread.take(read),
                offset: before.position,
                endian: before.endian,
            })
        },
        r is Err ==> cursor(final(headers)).unread.len() == 0,
{
    Ok(headers.iter.next()?.map(|header| UnitHeader { header }))
}

/// Calls `gimli::Dwarf::unit`, which parses the unit behind a header, and
/// copies out what the listing reads of it: the offset of the header in its
/// section, the two strings as the bytes they are stored as, and the
/// split-DWARF identifier. Trusted: whether the unit is well-formed, and
/// what is copied out of it, depends on what the debugging information is
/// made of and on what the header holds; the unit keeps the header it was
/// made from, so that the offset is the header's.
#[verifier::external_body]
pub(crate) fn parse_unit<'s>(dwarf: &DebugInfo<'s>, header: UnitHeader<'s>) -> (r: Result<
    UnitRecord<'s>,
    gimli::Error,
>)
    ensures
        r is Ok <==> unit_of(dwarf_model(dwarf), header_model(&header)) is Some,
        r matches Ok(unit) ==> unit_of(dwarf_model(dwarf), header_model(&header)) == Some(unit@)
            && unit.offset == header_model(&header).offset,
{
    dwarf.dwarf.unit(header.header).map(|unit| UnitRecord {
        offset: unit.header.offset().0,
        name: unit.name.map(|name| name.slice()),
        comp_dir: unit.comp_dir.map(|dir| dir.slice()),
        dwo_id: unit.dwo_id.map(|id| id.0),
    })
}

/// Calls `gimli::DwarfPackage::find_cu`: the sections of the split unit that
/// the package's index holds under `id`, or `None` where it holds none.
/// Trusted, as its source shows: whether the index finds a unit under an
/// identifier depends on the package and the identifier alone; where it
/// finds none the call returns `None`, and where it finds one the call
/// returns its sections or fails on them. What is returned is made of the
/// package's sections and, for what a split unit lacks, of those of
/// `parent`, and depends on what the two are made of and on the identifier
/// alone. The two are to be read in one byte order.
#[verifier::external_body]
pub(crate) fn find_cu<'s>(package: &Package<'s>, id: u64, parent: &DebugInfo<'s>) -> (r: Result<
    Option<DebugInfo<'s>>,
    gimli::Error,
>)
    requires
        package_model(package).endian == dwarf_model(parent).endian,
    ensures
        r matches Ok(None) <==> !package_ids(package).contains(id),
        match r {
            Ok(Some(dwo)) => find_split(package_model(package), id, dwarf_model(parent)) == Some(
                Some(dwarf_model(&dwo)),
            ) && dwarf_model(&dwo).endian == dwarf_model(parent).endian,
            Ok(None) => find_split(package_model(package), id, dwarf_model(parent)) == Some(
                None::<DwarfModel>,
            ),
            Err(_) => find_split(package_model(package), id, dwarf_model(parent)) is None,
        },
{
    Ok(package.package.find_cu(gimli::DwoId(id), &parent.dwarf)?.map(|dwarf| DebugInfo { dwarf }))
}

/// Calls `gimli::EndianSlice::to_string`, which runs `str::from_utf8` over
/// the slice; the byte order of the slice plays no part in it. Trusted: the
/// call succeeds exactly on well-formed UTF-8 and then returns the text that
/// the bytes encode; otherwise it returns the reader's `BadUtf8`.
#[verifier::external_body]
pub(crate) fn slice_to_str<'a>(bytes: &'a [u8]) -> (r: Result<&'a str, gimli::Error>)
    ensures
        r is Ok <==> vstd::utf8::valid_utf8(bytes@),
        r matches Ok(text) ==> text@ == vstd::utf8::decode_utf8(bytes@),
        r matches Err(e) ==> e == text_error(bytes@) && bad_utf8(e),
{
    gimli::EndianSlice::new(bytes, gimli::LittleEndian).to_string()
}

} // verus!
