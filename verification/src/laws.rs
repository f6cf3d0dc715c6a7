//! What holds of every listing, proved from the definitions in `dump` and `unit`.

use vstd::prelude::*;
use crate::container::{little_endian, section_bytes, sections, Container};
use crate::debug_info::{named_sections, package_parses};
use crate::dump::package_of;
use crate::error::DumpError;
use crate::debug_info::{
    holds_one_of, module_section_names, package_section_names, DwarfModel, Endian, PackageModel,
};
use crate::dump::{
    due_split, explains, is_module_dump, listing, module_model, reads, reads_unit, run_reads,
    sections_load, sections_load_for_sure, split_block, start_of, unit_at, unit_block, Dump,
    SplitOutcome, Visit,
};
use crate::hex::{hex_digit, hex_digits};
use crate::unit::{
    is_listed, text_of, toolchain_prefix, unit_is_text, unit_text_error, UnitModel,
};

verus! {

/// A unit without a compilation directory leaves no trace in the listing,
/// and the run goes on after it.
pub proof fn unit_without_comp_dir_is_silent(visit: Visit)
    requires
        visit.unit.comp_dir is None,
    ensures
        visit.text() == Seq::<char>::empty(),
        visit.done(),
{
}

/// A unit whose compilation directory begins with the toolchain's path
/// leaves no trace in the listing, whatever else it holds and whatever the
/// package would give for it.
pub proof fn toolchain_unit_is_silent(visit: Visit, dir: Seq<u8>)
    requires
        visit.unit.comp_dir == Some(dir),
        toolchain_prefix().is_prefix_of(dir),
    ensures
        visit.text() == Seq::<char>::empty(),
        visit.done(),
{
}

/// The name that a unit is written under: its own, or the placeholder.
pub open spec fn shown_name(unit: UnitModel) -> Seq<char> {
    match unit.name {
        Some(bytes) => vstd::utf8::decode_utf8(bytes),
        None => "<no name>"@,
    }
}

/// The block of a listed unit whose strings are text is its header line,
/// with the offset in hexadecimal and the name or the placeholder, and then
/// the line of its compilation directory.
pub proof fn listed_unit_block_is_header_and_directory(unit: UnitModel, dir: Seq<u8>)
    requires
        unit.comp_dir == Some(dir),
        is_listed(unit.comp_dir),
        unit_is_text(unit),
    ensures
        unit_block(unit) == "Unit at <.debug_info+0x"@ + hex_digits(unit.offset) + ">: "@
            + shown_name(unit) + "\n"@ + "    comp dir: "@ + vstd::utf8::decode_utf8(dir) + "\n"@,
{
    let head = "Unit at <.debug_info+0x"@ + hex_digits(unit.offset) + ">: "@;
    let name = shown_name(unit) + "\n"@;
    let line = "    comp dir: "@ + vstd::utf8::decode_utf8(dir) + "\n"@;
    assert(unit_block(unit) == head + (name + line));
    assert(head + (name + line) =~= head + shown_name(unit) + "\n"@ + "    comp dir: "@
        + vstd::utf8::decode_utf8(dir) + "\n"@);
}

/// How many line ends a text holds.
pub open spec fn line_ends(text: Seq<char>) -> nat
    decreases text.len(),
{
    if text.len() == 0 {
        0
    } else {
        line_ends(text.drop_last()) + if text.last() == '\n' {
            1nat
        } else {
            0nat
        }
    }
}

/// Line ends add up over texts written one after the other.
pub proof fn line_ends_add_up(a: Seq<char>, b: Seq<char>)
    ensures
        line_ends(a + b) == line_ends(a) + line_ends(b),
    decreases b.len(),
{
    if b.len() == 0 {
        assert(a + b =~= a);
    } else {
        line_ends_add_up(a, b.drop_last());
        assert((a + b).drop_last() =~= a + b.drop_last());
        assert((a + b).last() == b.last());
    }
}

/// Hexadecimal notation holds no line end.
pub proof fn hex_digits_hold_no_line_end(n: nat)
    ensures
        line_ends(hex_digits(n)) == 0,
    decreases n,
{
    if n < 16 {
        assert(hex_digits(n).drop_last() =~= Seq::<char>::empty());
        assert(hex_digits(n).last() == hex_digit(n));
        assert(line_ends(hex_digits(n).drop_last()) == 0);
    } else {
        hex_digits_hold_no_line_end(n / 16);
        assert(hex_digits(n).drop_last() =~= hex_digits(n / 16));
        assert(hex_digits(n).last() == hex_digit(n % 16));
    }
}

/// A listed unit whose name and compilation directory are text within a
/// line takes exactly two lines: the header line and the directory line.
pub proof fn listed_unit_block_ends_two_lines(unit: UnitModel, dir: Seq<u8>)
    requires
        unit.comp_dir == Some(dir),
        is_listed(unit.comp_dir),
        unit_is_text(unit),
        line_ends(shown_name(unit)) == 0,
        line_ends(vstd::utf8::decode_utf8(dir)) == 0,
    ensures
        line_ends(unit_block(unit)) == 2,
{
    listed_unit_block_is_header_and_directory(unit, dir);
    let a = "Unit at <.debug_info+0x"@;
    let b = hex_digits(unit.offset);
    let c = ">: "@;
    let d = shown_name(unit);
    let e = "\n"@;
    let f = "    comp dir: "@;
    let g = vstd::utf8::decode_utf8(dir);
    reveal_strlit("Unit at <.debug_info+0x");
    reveal_strlit(">: ");
    reveal_strlit("\n");
    reveal_strlit("    comp dir: ");
    assert(line_ends(a) == 0) by {
        reveal_with_fuel(line_ends, 24);
    }
    assert(line_ends(c) == 0) by {
        reveal_with_fuel(line_ends, 4);
    }
    assert(line_ends(e) == 1) by {
        reveal_with_fuel(line_ends, 2);
    }
    assert(line_ends(f) == 0) by {
        reveal_with_fuel(line_ends, 15);
    }
    hex_digits_hold_no_line_end(unit.offset);
    line_ends_add_up(a, b);
    line_ends_add_up(a + b, c);
    line_ends_add_up(a + b + c, d);
    line_ends_add_up(a + b + c + d, e);
    line_ends_add_up(a + b + c + d + e, f);
    line_ends_add_up(a + b + c + d + e + f, g);
    line_ends_add_up(a + b + c + d + e + f + g, e);
}

/// Without a package no unit is looked up: every listed unit is written as
/// its own block and nothing else, and the run goes on after each unit
/// whose strings are text.
pub proof fn without_package_no_lookup(visit: Visit)
    requires
        visit.consistent(false),
    ensures
        visit.split is NotTried,
        visit.text() == if is_listed(visit.unit.comp_dir) {
            unit_block(visit.unit)
        } else {
            Seq::<char>::empty()
        },
        visit.done() <==> (is_listed(visit.unit.comp_dir) ==> unit_is_text(visit.unit)),
{
    assert(unit_block(visit.unit) + Seq::<char>::empty() =~= unit_block(visit.unit));
}

/// A run without a package asks a package about none of the units it reads.
pub proof fn run_without_package_never_looks_up(visits: Seq<Visit>, object: &Container, out: Dump)
    requires
        explains(visits, object, None, out),
    ensures
        forall|i: int| 0 <= i < visits.len() ==> (#[trigger] visits[i]).split is NotTried,
{
    assert forall|i: int| 0 <= i < visits.len() implies (#[trigger] visits[i]).split is NotTried by {
        assert(visits[i].consistent(false));
    }
}

/// A run that cannot load one of the sections it asks for fails for that
/// reason, before it has written anything.
pub proof fn section_failure_comes_before_any_output(
    visits: Seq<Visit>,
    object: &Container,
    dwp_object: Option<&Container>,
    out: Dump,
)
    requires
        explains(visits, object, dwp_object, out),
        !sections_load(object, dwp_object),
    ensures
        out.failed_to_load(),
        out.text@ == Seq::<char>::empty(),
{
}

/// A module without bytes in its `.debug_info` section has no unit to list.
pub proof fn module_without_debug_info_lists_nothing(
    visits: Seq<Visit>,
    object: &Container,
    dwp_object: Option<&Container>,
    out: Dump,
)
    requires
        explains(visits, object, dwp_object, out),
        section_bytes(object, ".debug_info"@) == Some(Seq::<u8>::empty()),
    ensures
        visits.len() == 0,
        out.text@ == Seq::<char>::empty(),
{
    if visits.len() > 0 {
        assert(visits[0].unit.offset < 0);
    }
}

/// The block of a split unit that the package holds follows the block of
/// its unit at once.
pub proof fn found_split_unit_follows(visit: Visit, id: u64, split: UnitModel)
    requires
        is_listed(visit.unit.comp_dir),
        visit.unit.dwo_id == Some(id),
        visit.split == SplitOutcome::Found(split),
    ensures
        visit.text() == unit_block(visit.unit) + split_block(id, split),
        visit.done() <==> unit_is_text(visit.unit) && unit_is_text(split),
{
}

/// Where the package holds no unit under the identifier, the unit's own
/// block is all that is written, and the run goes on.
pub proof fn absent_split_unit_is_silent(visit: Visit)
    requires
        is_listed(visit.unit.comp_dir),
        unit_is_text(visit.unit),
        visit.split is Absent,
    ensures
        visit.text() == unit_block(visit.unit),
        visit.done(),
{
    assert(unit_block(visit.unit) + Seq::<char>::empty() =~= unit_block(visit.unit));
}

/// The listing of units read one after the other is the listing of the
/// first ones followed by the listing of the rest.
pub proof fn listing_in_order(first: Seq<Visit>, rest: Seq<Visit>)
    ensures
        listing(first + rest) == listing(first) + listing(rest),
    decreases rest.len(),
{
    if rest.len() == 0 {
        assert(first + rest =~= first);
        assert(listing(first) + listing(rest) =~= listing(first));
    } else {
        listing_in_order(first, rest.drop_last());
        assert((first + rest).drop_last() =~= first + rest.drop_last());
        assert((first + rest).last() == rest.last());
        assert(listing(first) + listing(rest.drop_last()) + rest.last().text() =~= listing(first)
            + (listing(rest.drop_last()) + rest.last().text()));
    }
}

/// Whether a unit that was read is one that the listing shows.
pub open spec fn shown(visit: Visit) -> bool {
    is_listed(visit.unit.comp_dir)
}

/// The listing is that of the listed units alone, in the order in which
/// they were read: a unit that is left out changes nothing around it.
pub proof fn listing_skips_unlisted_units(visits: Seq<Visit>)
    ensures
        listing(visits) == listing(visits.filter(|v: Visit| shown(v))),
    decreases visits.len(),
{
    reveal(Seq::filter);
    if visits.len() > 0 {
        listing_skips_unlisted_units(visits.drop_last());
        let kept = visits.drop_last().filter(|v: Visit| shown(v));
        if shown(visits.last()) {
            assert(visits.filter(|v: Visit| shown(v)) == kept.push(visits.last()));
            assert(kept.push(visits.last()).drop_last() =~= kept);
        } else {
            assert(visits.filter(|v: Visit| shown(v)) == kept);
            assert(listing(visits.drop_last()) + visits.last().text() =~= listing(
                visits.drop_last(),
            ));
        }
    }
}

/// Whether a run that read `visits` stopped where it had to: only its last
/// unit may be one after which it does not go on, and none where it did not
/// fail.
pub open spec fn stops_at_last(visits: Seq<Visit>, failure: Option<DumpError>) -> bool {
    &&& forall|i: int| 0 <= i < visits.len() - 1 ==> (#[trigger] visits[i]).done()
    &&& failure is None ==> forall|i: int| 0 <= i < visits.len() ==> (#[trigger] visits[i]).done()
}

/// The units that a run reads are those that the debugging information
/// holds: every visit is that of the unit found at its offset, with what
/// the package gives for it, and the visits before it are those of the
/// units before it.
pub proof fn visits_are_the_units_held(
    visits: Seq<Visit>,
    dwarf: DwarfModel,
    package: Option<PackageModel>,
    failure: Option<DumpError>,
    i: int,
)
    requires
        run_reads(visits, dwarf, package, failure),
        0 <= i < visits.len(),
    ensures
        start_of(dwarf, i as nat) == Some(visits[i].unit.offset),
        unit_at(dwarf, visits[i].unit.offset) is Some,
        unit_at(dwarf, visits[i].unit.offset).unwrap().0 == visits[i].unit,
        visits[i].split == due_split(dwarf, package, visits[i].unit),
{
    assert(reads_unit(visits, dwarf, package, i));
}

/// What a run reads, and whether it fails, follows from what the debugging
/// information and the package hold: two runs over the same read the same
/// units, and either both fail or neither does.
pub proof fn run_is_determined(
    first: Seq<Visit>,
    second: Seq<Visit>,
    dwarf: DwarfModel,
    package: Option<PackageModel>,
    first_failure: Option<DumpError>,
    second_failure: Option<DumpError>,
)
    requires
        run_reads(first, dwarf, package, first_failure),
        run_reads(second, dwarf, package, second_failure),
        stops_at_last(first, first_failure),
        stops_at_last(second, second_failure),
    ensures
        first == second,
        first_failure is None <==> second_failure is None,
{
    assert forall|i: int| 0 <= i < first.len() && i < second.len() implies first[i]
        == second[i] by {
        assert(reads_unit(first, dwarf, package, i));
        assert(reads_unit(second, dwarf, package, i));
    }
    run_reads_to_its_stop(first, second, dwarf, package, first_failure);
    run_reads_to_its_stop(second, first, dwarf, package, second_failure);
    assert(first =~= second);
}

/// A run that has stopped has not stopped short of a unit that another run
/// over the same went on to read.
proof fn run_reads_to_its_stop(
    short: Seq<Visit>,
    long: Seq<Visit>,
    dwarf: DwarfModel,
    package: Option<PackageModel>,
    failure: Option<DumpError>,
)
    requires
        run_reads(short, dwarf, package, failure),
        stops_at_last(short, failure),
        forall|i: int| 0 <= i < long.len() ==> #[trigger] reads_unit(long, dwarf, package, i),
        forall|i: int| 0 <= i < long.len() - 1 ==> (#[trigger] long[i]).done(),
    ensures
        long.len() <= short.len(),
{
    let n = short.len() as int;
    if n < long.len() {
        assert(reads_unit(long, dwarf, package, n));
        if n > 0 {
            assert(reads_unit(long, dwarf, package, n - 1));
            assert(reads_unit(short, dwarf, package, n - 1));
            assert(short[n - 1] == long[n - 1]);
            assert(long[n - 1].done());
            assert(short.last() == short[n - 1]);
        }
    }
}

/// Behind a place where no unit can be read, none begins.
pub proof fn no_unit_begins_behind_a_gap(dwarf: DwarfModel, n: nat, k: nat)
    requires
        start_of(dwarf, n) is None || unit_at(dwarf, start_of(dwarf, n).unwrap()) is None,
        n < k,
    ensures
        start_of(dwarf, k) is None,
    decreases k,
{
    if k > n + 1 {
        no_unit_begins_behind_a_gap(dwarf, n, (k - 1) as nat);
    }
}

/// A run that did not fail has left out no unit of the debugging
/// information: every unit that begins inside the section, each beginning
/// where the one before it ends, has its visit, at its own number.
pub proof fn successful_run_leaves_no_unit_out(
    visits: Seq<Visit>,
    dwarf: DwarfModel,
    package: Option<PackageModel>,
    k: nat,
)
    requires
        run_reads(visits, dwarf, package, None),
        start_of(dwarf, k) matches Some(at) && at < dwarf.info().len(),
    ensures
        k < visits.len(),
        start_of(dwarf, k) == Some(visits[k as int].unit.offset),
{
    if k > visits.len() {
        no_unit_begins_behind_a_gap(dwarf, visits.len(), k);
    }
    assert(reads_unit(visits, dwarf, package, k as int));
}

/// The text of a run holds the text of each unit it read, behind that of
/// the units before it and before that of the units behind it.
pub proof fn listing_holds_each_unit_in_its_place(visits: Seq<Visit>, i: int)
    requires
        0 <= i < visits.len(),
    ensures
        listing(visits) == listing(visits.take(i)) + visits[i].text() + listing(
            visits.skip(i + 1),
        ),
{
    let head = visits.take(i + 1);
    assert(visits =~= head + visits.skip(i + 1));
    listing_in_order(head, visits.skip(i + 1));
    assert(head.drop_last() =~= visits.take(i));
    assert(head.last() == visits[i]);
}

/// A module that is not little-endian is turned away: no run is made over
/// it, so that none of its sections is loaded and nothing is written.
pub proof fn other_byte_order_is_turned_away(
    object: &Container,
    dwp_object: Option<&Container>,
    out: Option<Dump>,
)
    requires
        is_module_dump(object, dwp_object, out),
        !little_endian(object),
    ensures
        out is None,
{
}

/// Before a unit that begins somewhere, every unit can be read.
pub proof fn units_before_can_be_read(dwarf: DwarfModel, n: nat, k: nat)
    requires
        start_of(dwarf, n) is Some,
        k < n,
    ensures
        start_of(dwarf, k) is Some,
        unit_at(dwarf, start_of(dwarf, k).unwrap()) is Some,
{
    if start_of(dwarf, k) is None || unit_at(dwarf, start_of(dwarf, k).unwrap()) is None {
        no_unit_begins_behind_a_gap(dwarf, k, n);
    }
}

/// Whether the unit of number `k` can be read and, if it is listed, is text.
pub open spec fn unit_is_sound(dwarf: DwarfModel, k: nat) -> bool {
    match start_of(dwarf, k) {
        Some(at) => match unit_at(dwarf, at) {
            Some((unit, _)) => is_listed(unit.comp_dir) ==> unit_is_text(unit),
            None => false,
        },
        None => false,
    }
}

/// Whether debugging information holds `n` units up to the end of its
/// section, each of which can be read and, if it is listed, is text.
pub open spec fn holds_sound_units(dwarf: DwarfModel, n: nat) -> bool {
    &&& start_of(dwarf, n) == Some(dwarf.info().len())
    &&& forall|k: nat| k < n ==> #[trigger] unit_is_sound(dwarf, k)
}

/// Without a package, a run over a module that stores its sections plain
/// and whose units can all be read and are text succeeds: it has read every
/// unit, asked for no split unit, and written the block of each listed unit
/// and nothing else, in the order of the section.
pub proof fn sound_module_without_package_is_listed_in_full(
    visits: Seq<Visit>,
    object: &Container,
    endian: Endian,
    out: Dump,
    n: nat,
)
    requires
        explains(visits, object, None, out),
        reads(visits, object, None, endian, out),
        sections_load_for_sure(object, None),
        holds_sound_units(module_model(object, endian), n),
    ensures
        out.failure is None,
        visits.len() == n,
        out.text@ == listing(visits),
        forall|i: int|
            0 <= i < n ==> {
                &&& start_of(module_model(object, endian), i as nat) == Some(
                    (#[trigger] visits[i]).unit.offset,
                )
                &&& visits[i].split is NotTried
                &&& visits[i].text() == if is_listed(visits[i].unit.comp_dir) {
                    unit_block(visits[i].unit)
                } else {
                    Seq::<char>::empty()
                }
            },
{
    let dwarf = module_model(object, endian);
    assert(run_reads(visits, dwarf, None, out.failure));
    if visits.len() > n {
        assert(reads_unit(visits, dwarf, None, n as int));
    }
    assert forall|i: int| 0 <= i < visits.len() implies (#[trigger] visits[i]).done()
        && visits[i].split is NotTried by {
        assert(reads_unit(visits, dwarf, None, i));
        assert(unit_is_sound(dwarf, i as nat));
    }
    if visits.len() < n {
        units_before_can_be_read(dwarf, n, visits.len());
        if out.failure is None {
            no_unit_begins_behind_a_gap(dwarf, visits.len(), n);
        }
    }
    assert forall|i: int| 0 <= i < n implies {
        &&& start_of(dwarf, i as nat) == Some((#[trigger] visits[i]).unit.offset)
        &&& visits[i].split is NotTried
        &&& visits[i].text() == if is_listed(visits[i].unit.comp_dir) {
            unit_block(visits[i].unit)
        } else {
            Seq::<char>::empty()
        }
    } by {
        assert(reads_unit(visits, dwarf, None, i));
        assert(unit_block(visits[i].unit) + Seq::<char>::empty() =~= unit_block(visits[i].unit));
    }
}

/// Without a package, a run over a module that stores its sections plain
/// stops at the first unit that cannot be read: it fails, not for a section,
/// and has read the units before it and no other, whose blocks stay.
pub proof fn run_stops_at_the_unit_that_cannot_be_read(
    visits: Seq<Visit>,
    object: &Container,
    endian: Endian,
    out: Dump,
    k: nat,
)
    requires
        explains(visits, object, None, out),
        reads(visits, object, None, endian, out),
        sections_load_for_sure(object, None),
        forall|j: nat| j < k ==> #[trigger] unit_is_sound(module_model(object, endian), j),
        start_of(module_model(object, endian), k) matches Some(at) && at < module_model(
            object,
            endian,
        ).info().len() && unit_at(module_model(object, endian), at) is None,
    ensures
        out.failure matches Some(DumpError::Dwarf(_)),
        visits.len() == k,
        out.text@ == listing(visits),
        forall|i: int|
            0 <= i < k ==> start_of(module_model(object, endian), i as nat) == Some(
                (#[trigger] visits[i]).unit.offset,
            ),
{
    let dwarf = module_model(object, endian);
    assert(run_reads(visits, dwarf, None, out.failure));
    if visits.len() > k {
        assert(reads_unit(visits, dwarf, None, k as int));
    }
    assert forall|i: int| 0 <= i < visits.len() implies (#[trigger] visits[i]).done() by {
        assert(reads_unit(visits, dwarf, None, i));
        assert(unit_is_sound(dwarf, i as nat));
    }
    if visits.len() < k {
        assert(unit_is_sound(dwarf, visits.len()));
        if out.failure is None {
            no_unit_begins_behind_a_gap(dwarf, visits.len(), k);
        }
    }
    assert forall|i: int| 0 <= i < k implies start_of(dwarf, i as nat) == Some(
        (#[trigger] visits[i]).unit.offset,
    ) by {
        assert(reads_unit(visits, dwarf, None, i));
    }
}

/// Without a package, a run over a module that stores its sections plain
/// stops at the first listed unit that is not text: it fails with the
/// reader's error for the string, behind the blocks of the units before it
/// and what was written of the unit itself.
pub proof fn run_stops_at_the_unit_that_is_not_text(
    visits: Seq<Visit>,
    object: &Container,
    endian: Endian,
    out: Dump,
    k: nat,
    unit: UnitModel,
)
    requires
        explains(visits, object, None, out),
        reads(visits, object, None, endian, out),
        sections_load_for_sure(object, None),
        forall|j: nat| j < k ==> #[trigger] unit_is_sound(module_model(object, endian), j),
        start_of(module_model(object, endian), k) matches Some(at) && (unit_at(
            module_model(object, endian),
            at,
        ) matches Some((found, _)) && found == unit),
        is_listed(unit.comp_dir),
        !unit_is_text(unit),
    ensures
        out.failure == Some(DumpError::Dwarf(unit_text_error(unit))),
        visits.len() == k + 1,
        visits[k as int].unit == unit,
        out.text@ == listing(visits.take(k as int)) + unit_block(unit),
{
    let dwarf = module_model(object, endian);
    assert(run_reads(visits, dwarf, None, out.failure));
    if visits.len() > k {
        assert(reads_unit(visits, dwarf, None, k as int));
        assert(!visits[k as int].done());
    }
    assert forall|i: int| 0 <= i < visits.len() && i < k implies (#[trigger] visits[i]).done() by {
        assert(reads_unit(visits, dwarf, None, i));
        assert(unit_is_sound(dwarf, i as nat));
    }
    if visits.len() < k {
        assert(unit_is_sound(dwarf, visits.len()));
        if out.failure is None {
            no_unit_begins_behind_a_gap(dwarf, visits.len(), k);
        }
    }
    assert(visits.len() == k + 1);
    assert(visits.last() == visits[k as int]);
    assert(visits.drop_last() =~= visits.take(k as int));
    assert(unit_block(unit) + Seq::<char>::empty() =~= unit_block(unit));
}

/// A run over a module that read all its units, each of them text as far as
/// it is listed, and found what the package was asked for, has not failed;
/// and a run that has not failed has read the units up to the end.
pub proof fn run_succeeds_exactly_when_all_is_read(
    visits: Seq<Visit>,
    dwarf: DwarfModel,
    package: Option<PackageModel>,
    failure: Option<DumpError>,
)
    requires
        run_reads(visits, dwarf, package, failure),
        stops_at_last(visits, failure),
    ensures
        failure is None <==> start_of(dwarf, visits.len()) == Some(dwarf.info().len()) && (
        forall|i: int| 0 <= i < visits.len() ==> (#[trigger] visits[i]).done()),
{
}

/// A little-endian module that holds none of the DWARF sections is listed
/// without a failure and without a line, where there is no package.
pub proof fn module_without_sections_succeeds(
    visits: Seq<Visit>,
    object: &Container,
    endian: Endian,
    out: Dump,
)
    requires
        explains(visits, object, None, out),
        reads(visits, object, None, endian, out),
        !holds_one_of(object, module_section_names()),
    ensures
        out.failure is None,
        out.text@ == Seq::<char>::empty(),
{
    let dwarf = module_model(object, endian);
    assert(!sections(object).dom().contains(".debug_info"@)) by {
        assert(module_section_names().contains(".debug_info"@));
    }
    assert(dwarf.info() =~= Seq::<u8>::empty());
    if visits.len() > 0 {
        assert(reads_unit(visits, dwarf, None, 0));
    }
}

/// What a run over a module writes follows from what the containers hold
/// and the byte order: two runs that loaded their sections wrote the same
/// text, and either both failed or neither did.
pub proof fn listing_is_determined(
    first: Seq<Visit>,
    second: Seq<Visit>,
    object: &Container,
    dwp_object: Option<&Container>,
    endian: Endian,
    first_out: Dump,
    second_out: Dump,
)
    requires
        explains(first, object, dwp_object, first_out),
        reads(first, object, dwp_object, endian, first_out),
        explains(second, object, dwp_object, second_out),
        reads(second, object, dwp_object, endian, second_out),
        !first_out.failed_to_load(),
        !second_out.failed_to_load(),
    ensures
        first_out.text@ == second_out.text@,
        first_out.failure is None <==> second_out.failure is None,
{
    let dwarf = module_model(object, endian);
    assert(stops_at_last(first, first_out.failure));
    assert(stops_at_last(second, second_out.failure));
    match dwp_object {
        Some(package) => {
            if package_parses(named_sections(package, package_section_names()), endian) {
                run_is_determined(
                    first,
                    second,
                    dwarf,
                    Some(package_of(package, endian)),
                    first_out.failure,
                    second_out.failure,
                );
            } else {
                assert(first =~= second);
            }
        },
        None => {
            run_is_determined(first, second, dwarf, None, first_out.failure, second_out.failure);
        },
    }
}

} // verus!
