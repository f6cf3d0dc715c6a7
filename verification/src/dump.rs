//! The listing: which units are written, what is written for each, and what
//! a run over a whole module leaves behind.

use vstd::prelude::*;
use crate::container::{little_endian, section_bytes, Container};
use crate::debug_info::{
    bad_utf8, borrow_package, borrow_sections, cursor, dwarf_model, find_cu, find_split,
    header_length, holds_one_of, info_bytes, load_package_sections, load_sections, loadable,
    module_section_names, named_sections, next_header, package_ids, package_model,
    package_parses, package_section_names, parse_unit, position, stored_plain, unit_of, units,
    unread, DebugInfo, DwarfModel, Endian, HeaderModel, Package, PackageModel,
};
use crate::error::{fatal_text, push_fatal, DumpError};
use crate::hex::{hex_digits, push_hex};
use crate::unit::{
    dump_unit, is_listed, listed, unit_is_text, unit_lines, unit_text_error, UnitModel, UnitRecord,
};

verus! {

/// What a run wrote, and why it stopped if it stopped early. The text is
/// kept also when the run failed: it is what had been written by then.
#[derive(Debug)]
pub struct Dump {
    pub text: String,
    pub failure: Option<DumpError>,
}

impl Dump {
    /// Whether the run failed because a section could not be loaded.
    pub open spec fn failed_to_load(self) -> bool {
        self.failure matches Some(DumpError::Section(_))
    }

    /// Everything that a run prints: the listing, and after it the line that
    /// reports the error if the run failed.
    pub open spec fn output_text(self) -> Seq<char> {
        match self.failure {
            Some(e) => self.text@ + fatal_text(e),
            None => self.text@,
        }
    }

    /// Everything that a run prints.
    pub fn output(&self) -> (r: String)
        ensures
            r@ == self.output_text(),
    {
        let mut r = String::new();
        r.append(self.text.as_str());
        assert(r@ =~= self.text@);
        match &self.failure {
            Some(e) => push_fatal(&mut r, e),
            None => {},
        }
        r
    }

    /// The status with which a run ends: 0 after a full listing, 1 after a
    /// failure.
    pub fn exit_code(&self) -> (code: i32)
        ensures
            code == if self.failure is None {
                0i32
            } else {
                1i32
            },
    {
        match self.failure {
            Some(_) => 1,
            None => 0,
        }
    }
}

/// What became of the search for a unit's split unit.
pub enum SplitOutcome {
    /// The package was not asked.
    NotTried,
    /// The package holds no unit under the identifier.
    Absent,
    /// The package holds this unit under the identifier.
    Found(UnitModel),
    /// The package could not be read.
    Failed,
}

/// One unit that a run has read, with what the package gave for it.
pub struct Visit {
    pub unit: UnitModel,
    pub split: SplitOutcome,
}

/// The start of a unit's header line, up to the name.
pub open spec fn unit_prefix(offset: nat) -> Seq<char> {
    "Unit at <.debug_info+0x"@ + hex_digits(offset) + ">: "@
}

/// The start of a split unit's header line, up to the name.
pub open spec fn split_prefix(id: u64) -> Seq<char> {
    "DWO Unit ID "@ + hex_digits(id as nat) + ", name: "@
}

/// The block of a unit of the module.
pub open spec fn unit_block(unit: UnitModel) -> Seq<char> {
    unit_prefix(unit.offset) + unit_lines(unit)
}

/// The block of a split unit, found under `id`.
pub open spec fn split_block(id: u64, split: UnitModel) -> Seq<char> {
    split_prefix(id) + unit_lines(split)
}

impl Visit {
    /// Whether the package is asked for the unit's split unit: the unit is
    /// listed and was written in full, there is a package, and the unit
    /// carries an identifier.
    pub open spec fn lookup_due(self, has_package: bool) -> bool {
        is_listed(self.unit.comp_dir) && unit_is_text(self.unit) && has_package
            && self.unit.dwo_id is Some
    }

    /// The package was asked exactly where that was due, and a split unit
    /// that it gave is the first unit of its section.
    pub open spec fn consistent(self, has_package: bool) -> bool {
        &&& self.split is NotTried <==> !self.lookup_due(has_package)
        &&& self.split matches SplitOutcome::Found(split) ==> split.offset == 0
    }

    /// What is written after the unit's own block.
    pub open spec fn split_text(self) -> Seq<char> {
        match (self.unit.dwo_id, self.split) {
            (Some(id), SplitOutcome::Found(split)) => split_block(id, split),
            _ => Seq::empty(),
        }
    }

    /// What is written for the unit.
    pub open spec fn text(self) -> Seq<char> {
        if is_listed(self.unit.comp_dir) {
            unit_block(self.unit) + self.split_text()
        } else {
            Seq::empty()
        }
    }

    /// Whether the run goes on after the unit.
    pub open spec fn done(self) -> bool {
        is_listed(self.unit.comp_dir) ==> unit_is_text(self.unit) && match self.split {
            SplitOutcome::NotTried => true,
            SplitOutcome::Absent => true,
            SplitOutcome::Found(split) => unit_is_text(split),
            SplitOutcome::Failed => false,
        }
    }
}

/// What is written for a sequence of units: the text of each, in order.
pub open spec fn listing(visits: Seq<Visit>) -> Seq<char>
    decreases visits.len(),
{
    if visits.len() == 0 {
        Seq::empty()
    } else {
        listing(visits.drop_last()) + visits.last().text()
    }
}

/// Whether the units lie one behind the other in their section, the first
/// at its start.
pub open spec fn in_section_order(visits: Seq<Visit>) -> bool {
    &&& visits.len() > 0 ==> visits[0].unit.offset == 0
    &&& forall|i: int, j: int|
        0 <= i < j < visits.len() ==> (#[trigger] visits[i]).unit.offset < (
        #[trigger] visits[j]).unit.offset
}

/// Whether the units lie in a section of the given bytes: each starts
/// inside it.
pub open spec fn within(visits: Seq<Visit>, info: Seq<u8>) -> bool {
    forall|i: int| 0 <= i < visits.len() ==> (#[trigger] visits[i]).unit.offset < info.len()
}

/// Whether a run could load every section it asks for: those of the module
/// and, with a package, those of the package.
pub open spec fn sections_load(object: &Container, dwp_object: Option<&Container>) -> bool {
    &&& loadable(object, module_section_names())
    &&& dwp_object matches Some(package) ==> loadable(package, package_section_names())
}

/// Whether no section that a run asks for can fail to load: the module and,
/// with a package, the package store plain what they have of them.
pub open spec fn sections_load_for_sure(object: &Container, dwp_object: Option<&Container>) -> bool {
    &&& stored_plain(object, module_section_names())
    &&& dwp_object matches Some(package) ==> stored_plain(package, package_section_names())
}

/// What the units `visits` that a run over `object` read say of what it
/// left in `out`. That they are the units which the module holds is not
/// said here but by `reads`.
///
/// The text is the listing of the units. Their offsets begin at 0, grow
/// from each to the next and lie within the module's `.debug_info` section,
/// and a run that did not fail has read a unit if the section holds
/// anything. The package was asked where that was due. A unit after which
/// the run does not go on is the last one, and the run then failed. A run
/// that cannot load a section fails for that reason, a run whose containers
/// store their sections plain never does, and a run that fails for that
/// reason has read no unit.
pub open spec fn explains(
    visits: Seq<Visit>,
    object: &Container,
    dwp_object: Option<&Container>,
    out: Dump,
) -> bool {
    &&& out.text@ == listing(visits)
    &&& in_section_order(visits)
    &&& match section_bytes(object, ".debug_info"@) {
        Some(info) => within(visits, info) && (out.failure is None && info.len() > 0
            ==> visits.len() > 0),
        None => true,
    }
    &&& forall|i: int|
        0 <= i < visits.len() ==> (#[trigger] visits[i]).consistent(dwp_object is Some)
    &&& forall|i: int| 0 <= i < visits.len() - 1 ==> (#[trigger] visits[i]).done()
    &&& out.failure is None ==> forall|i: int|
        0 <= i < visits.len() ==> (#[trigger] visits[i]).done()
    &&& !sections_load(object, dwp_object) ==> out.failed_to_load()
    &&& out.failed_to_load() ==> !sections_load_for_sure(object, dwp_object)
    &&& out.failed_to_load() ==> visits.len() == 0
}

/// The unit that the reader makes of debugging information at an offset of
/// its `.debug_info` section, and how many bytes header and unit take there.
/// `None` where the section ends at the offset or before, and where header
/// or unit is malformed.
pub open spec fn unit_at(dwarf: DwarfModel, at: nat) -> Option<(UnitModel, nat)> {
    let pending = dwarf.info().skip(at as int);
    if at < dwarf.info().len() {
        match header_length(pending, dwarf.endian) {
            Some(length) => if 0 < length <= pending.len() {
                match unit_of(
                    dwarf,
                    HeaderModel {
                        bytes: pending.take(length as int),
                        offset: at,
                        endian: dwarf.endian,
                    },
                ) {
                    Some(unit) => Some((unit, length)),
                    None => None,
                }
            } else {
                None
            },
            None => None,
        }
    } else {
        None
    }
}

/// Where the unit of number `k` begins, counted from 0, each unit beginning
/// where the one before it ends. `None` where one of the units before it
/// cannot be read.
pub open spec fn start_of(dwarf: DwarfModel, k: nat) -> Option<nat>
    decreases k,
{
    if k == 0 {
        Some(0nat)
    } else {
        match start_of(dwarf, (k - 1) as nat) {
            Some(at) => match unit_at(dwarf, at) {
                Some((_, length)) => Some(at + length),
                None => None,
            },
            None => None,
        }
    }
}

/// What a package gives for an identifier: the first unit of the split
/// unit's sections where its index holds the identifier, nothing where it
/// holds none or the sections hold no unit, and a failure where the search
/// fails or that unit is malformed.
pub open spec fn split_outcome(package: PackageModel, id: u64, parent: DwarfModel) -> SplitOutcome {
    match find_split(package, id, parent) {
        Some(Some(dwo)) => if dwo.info().len() == 0 {
            SplitOutcome::Absent
        } else {
            match unit_at(dwo, 0) {
                Some((unit, _)) => SplitOutcome::Found(unit),
                None => SplitOutcome::Failed,
            }
        },
        Some(None) => SplitOutcome::Absent,
        None => SplitOutcome::Failed,
    }
}

/// What becomes of the search for the split unit of a unit of `dwarf`: the
/// package is asked where that is due, and gives what it holds.
pub open spec fn due_split(dwarf: DwarfModel, package: Option<PackageModel>, unit: UnitModel) -> SplitOutcome {
    match (package, unit.dwo_id) {
        (Some(package), Some(id)) => if is_listed(unit.comp_dir) && unit_is_text(unit) {
            split_outcome(package, id, dwarf)
        } else {
            SplitOutcome::NotTried
        },
        _ => SplitOutcome::NotTried,
    }
}

/// Whether `e` is the error with which a run stops at a unit after which it
/// does not go on: the reader's error for the first string that is not
/// text, of the unit or else of its split unit, or the error of a search
/// that failed.
pub open spec fn stops_with(visit: Visit, e: DumpError) -> bool {
    if !unit_is_text(visit.unit) {
        e == DumpError::Dwarf(unit_text_error(visit.unit))
    } else {
        match visit.split {
            SplitOutcome::Found(split) => e == DumpError::Dwarf(unit_text_error(split)),
            _ => e is Dwarf,
        }
    }
}

/// Whether the visit of number `i` is that of the unit of number `i` of
/// `dwarf`, with what `package` gives for it.
pub open spec fn reads_unit(
    visits: Seq<Visit>,
    dwarf: DwarfModel,
    package: Option<PackageModel>,
    i: int,
) -> bool {
    &&& start_of(dwarf, i as nat) == Some(visits[i].unit.offset)
    &&& match unit_at(dwarf, visits[i].unit.offset) {
        Some((unit, _)) => unit == visits[i].unit,
        None => false,
    }
    &&& visits[i].split == due_split(dwarf, package, visits[i].unit)
}

/// Whether a run over `dwarf` that read `visits` and ended with `failure`
/// read what is there: the visits are those of the units of `dwarf` from
/// the first on, none left out, each with what `package` gives for it. A run
/// that did not fail has read them up to the end of the section. A run that
/// failed stopped at its last unit, with the error of that unit, or went on
/// behind it and found a header or a unit there that the reader rejects.
pub open spec fn run_reads(
    visits: Seq<Visit>,
    dwarf: DwarfModel,
    package: Option<PackageModel>,
    failure: Option<DumpError>,
) -> bool {
    &&& forall|i: int| 0 <= i < visits.len() ==> #[trigger] reads_unit(visits, dwarf, package, i)
    &&& match failure {
        None => start_of(dwarf, visits.len()) == Some(dwarf.info().len()),
        Some(e) => e is Dwarf && if visits.len() > 0 && !visits.last().done() {
            stops_with(visits.last(), e)
        } else {
            match start_of(dwarf, visits.len()) {
                Some(at) => at < dwarf.info().len() && unit_at(dwarf, at) is None,
                None => false,
            }
        },
    }
}

/// The debugging information that is made of a module's sections.
pub open spec fn module_model(object: &Container, endian: Endian) -> DwarfModel {
    DwarfModel { sections: named_sections(object, module_section_names()), endian, split: false }
}

/// The package that is made of a container's sections.
pub open spec fn package_of(object: &Container, endian: Endian) -> PackageModel {
    PackageModel { sections: named_sections(object, package_section_names()), endian }
}

/// Whether a run over `object` that read `visits` and left `out` read what
/// the containers hold, in the byte order `endian`.
///
/// A run fails to load a section only of a container that holds one of the
/// sections asked for. Otherwise, with a package whose indices are
/// malformed, it fails before it reads a unit; and in every other case it
/// reads the units of the module from the first on, as `run_reads` says.
pub open spec fn reads(
    visits: Seq<Visit>,
    object: &Container,
    dwp_object: Option<&Container>,
    endian: Endian,
    out: Dump,
) -> bool {
    if out.failed_to_load() {
        holds_one_of(object, module_section_names()) || match dwp_object {
            Some(package) => holds_one_of(package, package_section_names()),
            None => false,
        }
    } else {
        match dwp_object {
            Some(package) => if package_parses(
                named_sections(package, package_section_names()),
                endian,
            ) {
                run_reads(
                    visits,
                    module_model(object, endian),
                    Some(package_of(package, endian)),
                    out.failure,
                )
            } else {
                visits.len() == 0 && out.failure is Some
            },
            None => run_reads(visits, module_model(object, endian), None, out.failure),
        }
    }
}

/// What a package is made of, if there is one.
pub open spec fn package_view(package: Option<&Package>) -> Option<PackageModel> {
    match package {
        Some(package) => Some(package_model(package)),
        None => None,
    }
}

/// Whether a package, if there is one, is read in the byte order of `dwarf`.
pub open spec fn same_order(dwarf: &DebugInfo, package: Option<&Package>) -> bool {
    match package {
        Some(package) => package_model(package).endian == dwarf_model(dwarf).endian,
        None => true,
    }
}

/// The failure that a result stands for.
pub open spec fn failure_of(r: Result<(), DumpError>) -> Option<DumpError> {
    match r {
        Ok(_) => None,
        Err(e) => Some(e),
    }
}

/// Writes the block of a unit of the module: the header line with the
/// unit's offset and name, then the line of its compilation directory.
pub fn write_unit(out: &mut String, unit: &UnitRecord) -> (r: Result<(), gimli::Error>)
    ensures
        final(out)@ == old(out)@ + unit_block(unit@),
        r is Ok <==> unit_is_text(unit@),
        r matches Err(e) ==> e == unit_text_error(unit@) && bad_utf8(e),
{
    out.append("Unit at <.debug_info+0x");
    push_hex(out, unit.offset as u64);
    out.append(">: ");
    assert(out@ =~= old(out)@ + unit_prefix(unit@.offset));
    let r = dump_unit(out, unit);
    assert(out@ =~= old(out)@ + unit_block(unit@));
    r
}

/// Writes the block of a split unit that was found under `id`.
pub fn write_split(out: &mut String, id: u64, split: &UnitRecord) -> (r: Result<(), gimli::Error>)
    ensures
        final(out)@ == old(out)@ + split_block(id, split@),
        r is Ok <==> unit_is_text(split@),
        r matches Err(e) ==> e == unit_text_error(split@) && bad_utf8(e),
{
    out.append("DWO Unit ID ");
    push_hex(out, id);
    out.append(", name: ");
    assert(out@ =~= old(out)@ + split_prefix(id));
    let r = dump_unit(out, split);
    assert(out@ =~= old(out)@ + split_block(id, split@));
    r
}

/// Asks the package for the unit under `id` and reads the first unit of what
/// it gives. `None` where the package holds nothing under `id`, or something
/// without a unit in it. An identifier that the package does not hold is no
/// failure; a unit that is returned was found under the identifier, at the
/// start of its section.
fn resolve_split<'s>(package: &Package<'s>, id: u64, parent: &DebugInfo<'s>) -> (r: Result<
    Option<UnitRecord<'s>>,
    gimli::Error,
>)
    requires
        package_model(package).endian == dwarf_model(parent).endian,
    ensures
        outcome_of(r) == split_outcome(package_model(package), id, dwarf_model(parent)),
        !package_ids(package).contains(id) ==> r matches Ok(None),
        r matches Ok(Some(split)) ==> package_ids(package).contains(id) && split@.offset == 0,
{
    let dwo = match find_cu(package, id, parent) {
        Ok(Some(dwo)) => dwo,
        Ok(None) => return Ok(None),
        Err(e) => return Err(e),
    };
    let ghost model = dwarf_model(&dwo);
    assert(model.info().skip(0) =~= model.info());
    let mut headers = units(&dwo);
    let header = match next_header(&mut headers) {
        Ok(Some(header)) => header,
        Ok(None) => return Ok(None),
        Err(e) => return Err(e),
    };
    match parse_unit(&dwo, header) {
        Ok(unit) => Ok(Some(unit)),
        Err(e) => Err(e),
    }
}

/// Begins the listing of a unit that was read from the module: writes its
/// block if it is listed, and nothing otherwise. Returns the identifier
/// under which the package is to be asked for the split unit, if it is to be
/// asked: the block was written in full, there is a package, and the unit
/// carries an identifier. Fails where a string of a listed unit is not text.
pub fn start_unit(out: &mut String, unit: &UnitRecord, has_package: bool) -> (r: Result<
    Option<u64>,
    gimli::Error,
>)
    ensures
        final(out)@ == old(out)@ + if is_listed(unit@.comp_dir) {
            unit_block(unit@)
        } else {
            Seq::<char>::empty()
        },
        r is Err <==> is_listed(unit@.comp_dir) && !unit_is_text(unit@),
        r matches Err(e) ==> e == unit_text_error(unit@) && bad_utf8(e),
        r matches Ok(lookup) ==> lookup == if is_listed(unit@.comp_dir) && has_package {
            unit@.dwo_id
        } else {
            None
        },
{
    if !listed(unit.comp_dir) {
        assert(out@ =~= old(out)@ + Seq::<char>::empty());
        return Ok(None);
    }
    write_unit(out, unit)?;
    if has_package {
        Ok(unit.dwo_id)
    } else {
        Ok(None)
    }
}

/// What a search for a split unit amounts to.
pub open spec fn outcome_of(found: Result<Option<UnitRecord>, gimli::Error>) -> SplitOutcome {
    match found {
        Ok(Some(split)) => SplitOutcome::Found(split@),
        Ok(None) => SplitOutcome::Absent,
        Err(_) => SplitOutcome::Failed,
    }
}

/// Ends the listing of a unit for which the package was asked under `id`,
/// and gave `found`: writes the block of the split unit that was found, and
/// nothing where the package holds none. Fails where the search failed, with
/// its error, and where a string of the split unit is not text.
pub fn add_split_unit(
    out: &mut String,
    id: u64,
    found: Result<Option<UnitRecord>, gimli::Error>,
) -> (r: Result<(), DumpError>)
    ensures
        final(out)@ == old(out)@ + match found {
            Ok(Some(split)) => split_block(id, split@),
            _ => Seq::<char>::empty(),
        },
        r is Ok <==> match found {
            Ok(Some(split)) => unit_is_text(split@),
            Ok(None) => true,
            Err(_) => false,
        },
        r matches Err(e) ==> e is Dwarf,
        found matches Err(cause) ==> r == Err::<(), DumpError>(DumpError::Dwarf(cause)),
        found matches Ok(Some(split)) ==> (r matches Err(e) ==> e == DumpError::Dwarf(
            unit_text_error(split@),
        )),
{
    match found {
        Ok(Some(split)) => match write_split(out, id, &split) {
            Ok(()) => Ok(()),
            Err(e) => Err(DumpError::from(e)),
        },
        Ok(None) => {
            assert(out@ =~= old(out)@ + Seq::<char>::empty());
            Ok(())
        },
        Err(e) => {
            assert(out@ =~= old(out)@ + Seq::<char>::empty());
            Err(DumpError::from(e))
        },
    }
}

/// Lists one unit that was read from the module.
fn list_unit<'s>(
    out: &mut String,
    dwarf: &DebugInfo<'s>,
    package: Option<&Package<'s>>,
    unit: &UnitRecord,
) -> (r: (Result<(), DumpError>, Ghost<SplitOutcome>))
    requires
        same_order(dwarf, package),
    ensures
        ({
            let visit = Visit { unit: unit@, split: r.1@ };
            &&& final(out)@ == old(out)@ + visit.text()
            &&& visit.consistent(package is Some)
            &&& r.0 is Ok <==> visit.done()
            &&& r.0 matches Err(e) ==> e is Dwarf && stops_with(visit, e)
            &&& r.1@ == due_split(dwarf_model(dwarf), package_view(package), unit@)
        }),
{
    let lookup = match start_unit(out, unit, package.is_some()) {
        Ok(lookup) => lookup,
        Err(e) => {
            assert(out@ =~= old(out)@ + (unit_block(unit@) + Seq::<char>::empty()));
            return (Err(DumpError::from(e)), Ghost(SplitOutcome::NotTried));
        },
    };
    let (package, id) = match (package, lookup) {
        (Some(package), Some(id)) => (package, id),
        _ => {
            proof {
                if is_listed(unit@.comp_dir) {
                    assert(out@ =~= old(out)@ + (unit_block(unit@) + Seq::<char>::empty()));
                }
            }
            return (Ok(()), Ghost(SplitOutcome::NotTried));
        },
    };
    let found = resolve_split(package, id, dwarf);
    let r = add_split_unit(out, id, found);
    proof {
        let visit = Visit { unit: unit@, split: outcome_of(found) };
        assert(out@ =~= old(out)@ + (unit_block(unit@) + visit.split_text()));
    }
    (r, Ghost(outcome_of(found)))
}

/// Lists the units of `dwarf` in the order in which they lie in its
/// `.debug_info` section, until none is left or one fails.
fn list_units<'s>(out: &mut String, dwarf: &DebugInfo<'s>, package: Option<&Package<'s>>) -> (r: (
    Result<(), DumpError>,
    Ghost<Seq<Visit>>,
))
    requires
        same_order(dwarf, package),
    ensures
        final(out)@ == old(out)@ + listing(r.1@),
        in_section_order(r.1@),
        within(r.1@, info_bytes(dwarf)),
        r.0 is Ok && info_bytes(dwarf).len() > 0 ==> r.1@.len() > 0,
        forall|i: int| 0 <= i < r.1@.len() ==> (#[trigger] r.1@[i]).consistent(package is Some),
        forall|i: int| 0 <= i < r.1@.len() - 1 ==> (#[trigger] r.1@[i]).done(),
        r.0 is Ok ==> forall|i: int| 0 <= i < r.1@.len() ==> (#[trigger] r.1@[i]).done(),
        r.0 matches Err(e) ==> e is Dwarf,
        run_reads(r.1@, dwarf_model(dwarf), package_view(package), failure_of(r.0)),
{
    let ghost model = dwarf_model(dwarf);
    let ghost held = package_view(package);
    let mut headers = units(dwarf);
    let ghost mut visits = Seq::<Visit>::empty();
    assert(out@ =~= old(out)@ + listing(visits));
    assert(model.info().skip(0) =~= model.info());
    loop
        invariant
            same_order(dwarf, package),
            model == dwarf_model(dwarf),
            held == package_view(package),
            out@ == old(out)@ + listing(visits),
            in_section_order(visits),
            position(&headers) + unread(&headers).len() == info_bytes(dwarf).len(),
            cursor(&headers).endian == model.endian,
            cursor(&headers).unread == model.info().skip(position(&headers) as int),
            start_of(model, visits.len()) == Some(position(&headers)),
            visits.len() == 0 ==> position(&headers) == 0,
            forall|i: int| 0 <= i < visits.len() ==> (#[trigger] visits[i]).unit.offset < position(&headers),
            forall|i: int| 0 <= i < visits.len() ==> (#[trigger] visits[i]).consistent(package is Some),
            forall|i: int| 0 <= i < visits.len() ==> (#[trigger] visits[i]).done(),
            forall|i: int| 0 <= i < visits.len() ==> #[trigger] reads_unit(visits, model, held, i),
        decreases unread(&headers).len(),
    {
        let ghost at = position(&headers);
        let ghost pending = unread(&headers);
        let header = match next_header(&mut headers) {
            Ok(Some(header)) => header,
            Ok(None) => return (Ok(()), Ghost(visits)),
            Err(e) => {
                assert(unit_at(model, at) is None);
                return (Err(DumpError::from(e)), Ghost(visits));
            },
        };
        let ghost length = (pending.len() - unread(&headers).len()) as nat;
        assert(unread(&headers) =~= model.info().skip(position(&headers) as int));
        let unit = match parse_unit(dwarf, header) {
            Ok(unit) => unit,
            Err(e) => {
                assert(unit_at(model, at) is None);
                return (Err(DumpError::from(e)), Ghost(visits));
            },
        };
        assert(unit_at(model, at) == Some((unit@, length)));
        let ghost before = visits;
        let (r, split) = list_unit(out, dwarf, package, &unit);
        proof {
            let visit = Visit { unit: unit@, split: split@ };
            visits = before.push(visit);
            assert(visits.drop_last() =~= before);
            assert(out@ =~= old(out)@ + listing(visits));
            assert(start_of(model, visits.len()) == Some(at + length));
            assert forall|i: int| 0 <= i < visits.len() implies #[trigger] reads_unit(
                visits,
                model,
                held,
                i,
            ) by {
                if i < before.len() {
                    assert(reads_unit(before, model, held, i));
                    assert(visits[i] == before[i]);
                }
            }
        }
        if let Err(e) = r {
            return (Err(e), Ghost(visits));
        }
    }
}

/// Lists the compilation units of the little-endian module `object`: loads
/// its DWARF sections and, if there is one, those of the package
/// `dwp_object`, reads them in the byte order `endian`, and writes a block
/// for every unit that has a compilation directory outside the toolchain's
/// path, followed by the block of the split unit that the package holds for
/// it.
///
/// The run stops at the first section that cannot be loaded, at malformed
/// debugging information and at a string that is not text. Nothing has been
/// written when a section fails to load. What is written, and whether the
/// run fails, follows from what the containers hold: the units read are
/// those of the module, from the first on and up to the end or to the one
/// at which the run fails.
pub fn dump_file(object: &Container, dwp_object: Option<&Container>, endian: Endian) -> (out: Dump)
    requires
        little_endian(object),
    ensures
        exists|visits: Seq<Visit>| #[trigger]
            explains(visits, object, dwp_object, out) && reads(
                visits,
                object,
                dwp_object,
                endian,
                out,
            ),
{
    let mut text = String::new();
    let ghost none = Seq::<Visit>::empty();
    let dwarf_sections = match load_sections(object) {
        Ok(sections) => sections,
        Err(e) => {
            let out = Dump { text, failure: Some(e) };
            assert(explains(none, object, dwp_object, out));
            assert(reads(none, object, dwp_object, endian, out));
            return out;
        },
    };
    let dwp_sections = match dwp_object {
        Some(package_object) => match load_package_sections(package_object) {
            Ok(sections) => Some(sections),
            Err(e) => {
                let out = Dump { text, failure: Some(e) };
                assert(explains(none, object, dwp_object, out));
                assert(reads(none, object, dwp_object, endian, out));
                return out;
            },
        },
        None => None,
    };
    let dwarf = borrow_sections(&dwarf_sections, endian);
    assert(dwarf_model(&dwarf) == module_model(object, endian));
    let dwp = match &dwp_sections {
        Some(sections) => match borrow_package(sections, endian) {
            Ok(package) => Some(package),
            Err(e) => {
                let out = Dump { text, failure: Some(DumpError::from(e)) };
                assert(explains(none, object, dwp_object, out));
                assert(reads(none, object, dwp_object, endian, out));
                return out;
            },
        },
        None => None,
    };
    let (r, visits) = list_units(&mut text, &dwarf, dwp.as_ref());
    let failure = match r {
        Ok(()) => None,
        Err(e) => Some(e),
    };
    let out = Dump { text, failure };
    assert(out.text@ =~= listing(visits@));
    assert(explains(visits@, object, dwp_object, out));
    assert(reads(visits@, object, dwp_object, endian, out));
    out
}

/// Whether `out` is what `dump_module` gives for a module: nothing for one
/// that is not little-endian, and otherwise what a run in little-endian
/// byte order leaves.
pub open spec fn is_module_dump(
    object: &Container,
    dwp_object: Option<&Container>,
    out: Option<Dump>,
) -> bool {
    match out {
        Some(dump) => little_endian(object) && exists|visits: Seq<Visit>| #[trigger]
            explains(visits, object, dwp_object, dump) && reads(
                visits,
                object,
                dwp_object,
                Endian::Little,
                dump,
            ),
        None => !little_endian(object),
    }
}

/// Lists the compilation units of a little-endian module, as `dump_file`
/// does in little-endian byte order. A module of another byte order is
/// turned away before any of its sections is loaded.
pub fn dump_module(object: &Container, dwp_object: Option<&Container>) -> (out: Option<Dump>)
    ensures
        out is Some <==> little_endian(object),
        is_module_dump(object, dwp_object, out),
{
    if !object.is_little_endian() {
        return None;
    }
    Some(dump_file(object, dwp_object, Endian::Little))
}

} // verus!
