use dwarf_units::container::{load_section, Container};
use dwarf_units::debug_info::Endian;
use dwarf_units::dump::{dump_file, dump_module};
use dwarf_units::error::DumpError;

fn uleb(mut n: usize) -> Vec<u8> {
    let mut out = Vec::new();
    loop {
        let byte = (n & 0x7f) as u8;
        n >>= 7;
        if n == 0 {
            out.push(byte);
            return out;
        }
        out.push(byte | 0x80);
    }
}

/// A WebAssembly module that holds the given custom sections and nothing else.
fn wasm(sections: &[(&str, Vec<u8>)]) -> Vec<u8> {
    let mut out = vec![0x00, 0x61, 0x73, 0x6d, 0x01, 0x00, 0x00, 0x00];
    for (name, payload) in sections {
        let mut body = uleb(name.len());
        body.extend_from_slice(name.as_bytes());
        body.extend_from_slice(payload);
        out.push(0);
        out.extend(uleb(body.len()));
        out.extend(body);
    }
    out
}

/// Abbreviations for a compile unit with no children: 1 has a name and a
/// compilation directory, 2 a name, 3 a compilation directory, 4 neither.
fn abbrevs() -> Vec<u8> {
    vec![
        1, 0x11, 0, 0x03, 0x08, 0x1b, 0x08, 0, 0, //
        2, 0x11, 0, 0x03, 0x08, 0, 0, //
        3, 0x11, 0, 0x1b, 0x08, 0, 0, //
        4, 0x11, 0, 0, 0, //
        0,
    ]
}

const COMPILE: u8 = 1;
const SKELETON: u8 = 4;
const SPLIT_COMPILE: u8 = 5;

/// A DWARF 5 unit of one entry.
fn unit(kind: u8, dwo_id: u64, name: Option<&[u8]>, comp_dir: Option<&[u8]>) -> Vec<u8> {
    let mut body: Vec<u8> = vec![5, 0, kind, 4, 0, 0, 0, 0];
    if kind != COMPILE {
        body.extend_from_slice(&dwo_id.to_le_bytes());
    }
    body.push(match (name, comp_dir) {
        (Some(_), Some(_)) => 1,
        (Some(_), None) => 2,
        (None, Some(_)) => 3,
        (None, None) => 4,
    });
    if let Some(name) = name {
        body.extend_from_slice(name);
        body.push(0);
    }
    if let Some(comp_dir) = comp_dir {
        body.extend_from_slice(comp_dir);
        body.push(0);
    }
    let mut out = (body.len() as u32).to_le_bytes().to_vec();
    out.extend(body);
    out
}

fn module(units: &[Vec<u8>]) -> Vec<u8> {
    wasm(&[(".debug_abbrev", abbrevs()), (".debug_info", units.concat())])
}

/// A package that holds `split` under `id`.
fn package(id: u64, split: Vec<u8>) -> Vec<u8> {
    let slot = (id & 1) as u64;
    let mut index: Vec<u8> = vec![5, 0, 0, 0];
    index.extend_from_slice(&2u32.to_le_bytes());
    index.extend_from_slice(&1u32.to_le_bytes());
    index.extend_from_slice(&2u32.to_le_bytes());
    for i in 0..2u64 {
        index.extend_from_slice(&(if i == slot { id } else { 0 }).to_le_bytes());
    }
    for i in 0..2u64 {
        index.extend_from_slice(&(if i == slot { 1u32 } else { 0u32 }).to_le_bytes());
    }
    index.extend_from_slice(&1u32.to_le_bytes());
    index.extend_from_slice(&3u32.to_le_bytes());
    index.extend_from_slice(&0u32.to_le_bytes());
    index.extend_from_slice(&0u32.to_le_bytes());
    index.extend_from_slice(&(split.len() as u32).to_le_bytes());
    index.extend_from_slice(&(abbrevs().len() as u32).to_le_bytes());
    wasm(&[
        (".debug_cu_index", index),
        (".debug_abbrev.dwo", abbrevs()),
        (".debug_info.dwo", split),
    ])
}

/// A 32-bit ELF file without sections, in the given byte order.
fn bare_elf(big_endian: bool) -> Vec<u8> {
    let half = |n: u16| if big_endian { n.to_be_bytes() } else { n.to_le_bytes() };
    let word = |n: u32| if big_endian { n.to_be_bytes() } else { n.to_le_bytes() };
    let mut out = vec![0x7f, b'E', b'L', b'F', 1, if big_endian { 2 } else { 1 }, 1, 0];
    out.extend_from_slice(&[0; 8]);
    out.extend_from_slice(&half(1));
    out.extend_from_slice(&half(3));
    out.extend_from_slice(&word(1));
    out.extend_from_slice(&word(0));
    out.extend_from_slice(&word(0));
    out.extend_from_slice(&word(0));
    out.extend_from_slice(&word(0));
    out.extend_from_slice(&half(52));
    out.extend_from_slice(&half(0));
    out.extend_from_slice(&half(0));
    out.extend_from_slice(&half(40));
    out.extend_from_slice(&half(0));
    out.extend_from_slice(&half(0));
    out
}

/// A little-endian 32-bit ELF file with one section of the given name, which
/// marks it as compressed, and with bytes in it that are no compressed data.
fn elf_with_broken_section(section: &str) -> Vec<u8> {
    elf_with_section(section, b"ABCDEFGHIJKLMNOP")
}

/// The bytes of `data` as a section that is compressed in the GNU manner: a
/// header with the length, then a zlib stream of one stored block.
fn gnu_compressed(data: &[u8]) -> Vec<u8> {
    let mut out = b"ZLIB".to_vec();
    out.extend_from_slice(&(data.len() as u64).to_be_bytes());
    out.extend_from_slice(&[0x78, 0x01, 0x01]);
    out.extend_from_slice(&(data.len() as u16).to_le_bytes());
    out.extend_from_slice(&(!(data.len() as u16)).to_le_bytes());
    out.extend_from_slice(data);
    let (mut a, mut b) = (1u32, 0u32);
    for byte in data {
        a = (a + *byte as u32) % 65521;
        b = (b + a) % 65521;
    }
    out.extend_from_slice(&((b << 16) | a).to_be_bytes());
    out
}

/// A little-endian 32-bit ELF file with one section of the given name and
/// bytes.
fn elf_with_section(section: &str, data: &[u8]) -> Vec<u8> {
    let mut names = b"\0.shstrtab\0".to_vec();
    names.extend_from_slice(section.as_bytes());
    names.push(0);
    let names = &names[..];
    let names_at = 52u32;
    let data_at = names_at + names.len() as u32;
    let mut headers_at = data_at + data.len() as u32;
    while headers_at % 4 != 0 {
        headers_at += 1;
    }
    let mut out = vec![0x7f, b'E', b'L', b'F', 1, 1, 1, 0];
    out.extend_from_slice(&[0; 8]);
    out.extend_from_slice(&1u16.to_le_bytes());
    out.extend_from_slice(&3u16.to_le_bytes());
    out.extend_from_slice(&1u32.to_le_bytes());
    out.extend_from_slice(&0u32.to_le_bytes());
    out.extend_from_slice(&0u32.to_le_bytes());
    out.extend_from_slice(&headers_at.to_le_bytes());
    out.extend_from_slice(&0u32.to_le_bytes());
    out.extend_from_slice(&52u16.to_le_bytes());
    out.extend_from_slice(&0u16.to_le_bytes());
    out.extend_from_slice(&0u16.to_le_bytes());
    out.extend_from_slice(&40u16.to_le_bytes());
    out.extend_from_slice(&3u16.to_le_bytes());
    out.extend_from_slice(&1u16.to_le_bytes());
    out.extend_from_slice(names);
    out.extend_from_slice(data);
    while out.len() < headers_at as usize {
        out.push(0);
    }
    let header = |name: u32, kind: u32, at: u32, size: u32| {
        let mut h = Vec::new();
        for field in [name, kind, 0, 0, at, size, 0, 0, 1, 0] {
            h.extend_from_slice(&field.to_le_bytes());
        }
        h
    };
    out.extend(header(0, 0, 0, 0));
    out.extend(header(1, 3, names_at, names.len() as u32));
    out.extend(header(11, 1, data_at, data.len() as u32));
    out
}

fn listing_of(module: &[u8], package: Option<&[u8]>) -> (String, Option<DumpError>) {
    let object = Container::parse(module).expect("the module parses");
    let dwp = package.map(|bytes| Container::parse(bytes).expect("the package parses"));
    let out = dump_file(&object, dwp.as_ref(), Endian::Little);
    (out.text, out.failure)
}

#[test]
fn parse_rejects_what_is_no_container() {
    assert!(Container::parse(b"").is_err());
    assert!(Container::parse(b"not an object file").is_err());
}

#[test]
fn wasm_module_is_little_endian() {
    let bytes = module(&[]);
    let object = Container::parse(&bytes).expect("the module parses");
    assert!(object.is_little_endian());
}

#[test]
fn big_endian_elf_is_not_little_endian() {
    let bytes = bare_elf(true);
    let object = Container::parse(&bytes).expect("the file parses");
    assert!(!object.is_little_endian());
    let bytes = bare_elf(false);
    let object = Container::parse(&bytes).expect("the file parses");
    assert!(object.is_little_endian());
}

#[test]
fn big_endian_module_is_turned_away() {
    let bytes = bare_elf(true);
    let object = Container::parse(&bytes).expect("the file parses");
    assert!(dump_module(&object, None).is_none());
    let dwp_bytes = package(2, unit(SPLIT_COMPILE, 2, Some(b"s.c"), None));
    let dwp = Container::parse(&dwp_bytes).expect("the package parses");
    assert!(dump_module(&object, Some(&dwp)).is_none());
}

#[test]
fn little_endian_module_is_listed() {
    let bytes = module(&[unit(COMPILE, 0, Some(b"a.c"), Some(b"/src"))]);
    let object = Container::parse(&bytes).expect("the module parses");
    let out = dump_module(&object, None).expect("the module is little-endian");
    assert_eq!(out.text, "Unit at <.debug_info+0x0>: a.c\n    comp dir: /src\n");
    assert!(out.failure.is_none());
    let bytes = bare_elf(false);
    let object = Container::parse(&bytes).expect("the file parses");
    let out = dump_module(&object, None).expect("the file is little-endian");
    assert_eq!(out.text, "");
    assert!(out.failure.is_none());
}

#[test]
fn load_section_gives_the_bytes_of_a_section() {
    let bytes = wasm(&[(".debug_str", b"hello\0".to_vec()), (".debug_line", vec![1, 2, 3])]);
    let object = Container::parse(&bytes).expect("the module parses");
    assert_eq!(&*load_section(&object, ".debug_str").unwrap(), b"hello\0");
    assert_eq!(&*load_section(&object, ".debug_line").unwrap(), &[1u8, 2, 3]);
}

#[test]
fn load_section_gives_nothing_for_a_missing_section() {
    let bytes = wasm(&[(".debug_str", b"hello\0".to_vec())]);
    let object = Container::parse(&bytes).expect("the module parses");
    assert!(load_section(&object, ".debug_info").unwrap().is_empty());
    assert!(load_section(&object, "").unwrap().is_empty());
}

#[test]
fn load_section_gives_an_empty_section_as_it_is() {
    let bytes = wasm(&[(".debug_info", Vec::new())]);
    let object = Container::parse(&bytes).expect("the module parses");
    assert!(load_section(&object, ".debug_info").unwrap().is_empty());
}

#[test]
fn load_section_fails_on_a_section_that_cannot_be_decompressed() {
    let bytes = elf_with_broken_section(".zdebug_info");
    let object = Container::parse(&bytes).expect("the file parses");
    assert!(matches!(load_section(&object, ".debug_info"), Err(DumpError::Section(_))));
    assert!(load_section(&object, ".debug_abbrev").unwrap().is_empty());
}

#[test]
fn module_without_debug_info_lists_nothing() {
    let (text, failure) = listing_of(&wasm(&[("notes", b"no debugging information".to_vec())]), None);
    assert_eq!(text, "");
    assert!(failure.is_none());
}

#[test]
fn one_unit_takes_two_lines() {
    let bytes = module(&[unit(COMPILE, 0, Some(b"main.c"), Some(b"/home/user/project"))]);
    let (text, failure) = listing_of(&bytes, None);
    assert_eq!(text, "Unit at <.debug_info+0x0>: main.c\n    comp dir: /home/user/project\n");
    assert!(failure.is_none());
    assert_eq!(text.lines().count(), 2);
}

#[test]
fn unit_without_name_gets_the_placeholder() {
    let bytes = module(&[unit(COMPILE, 0, None, Some(b"/src"))]);
    let (text, failure) = listing_of(&bytes, None);
    assert_eq!(text, "Unit at <.debug_info+0x0>: <no name>\n    comp dir: /src\n");
    assert!(failure.is_none());
}

#[test]
fn unit_without_comp_dir_is_skipped() {
    let bytes = module(&[
        unit(COMPILE, 0, Some(b"nodir.c"), None),
        unit(COMPILE, 0, None, None),
    ]);
    let (text, failure) = listing_of(&bytes, None);
    assert_eq!(text, "");
    assert!(failure.is_none());
}

#[test]
fn toolchain_unit_is_skipped() {
    let bytes = module(&[
        unit(COMPILE, 0, Some(b"libc.c"), Some(b"/emsdk/emscripten")),
        unit(SKELETON, 9, Some(b"dlmalloc.c"), Some(b"/emsdk/emscripten/system/lib")),
    ]);
    let (text, failure) = listing_of(&bytes, None);
    assert_eq!(text, "");
    assert!(failure.is_none());
}

#[test]
fn three_units_with_the_second_from_the_toolchain() {
    let a = unit(COMPILE, 0, Some(b"a.c"), Some(b"/home/user/a"));
    let b = unit(COMPILE, 0, Some(b"b.c"), Some(b"/emsdk/emscripten/cache"));
    let c = unit(COMPILE, 0, Some(b"c.c"), Some(b"/home/user/c"));
    let third = a.len() + b.len();
    let (text, failure) = listing_of(&module(&[a, b, c]), None);
    assert_eq!(
        text,
        format!(
            "Unit at <.debug_info+0x0>: a.c\n    comp dir: /home/user/a\n\
             Unit at <.debug_info+0x{:x}>: c.c\n    comp dir: /home/user/c\n",
            third
        )
    );
    assert!(failure.is_none());
    assert_eq!(text.matches("Unit at ").count(), 2);
    assert_eq!(text.lines().count(), 4);
    assert!(!text.contains("b.c"));
}

#[test]
fn offsets_are_written_in_hex() {
    let a = unit(COMPILE, 0, Some(b"first.c"), Some(b"/w"));
    let b = unit(COMPILE, 0, Some(b"second.c"), Some(b"/w"));
    assert_eq!(a.len(), 0x18);
    assert_eq!(a.len() + b.len(), 0x31);
    let c = unit(COMPILE, 0, Some(b"third.c"), Some(b"/w"));
    let (text, failure) = listing_of(&module(&[a, b, c]), None);
    assert_eq!(
        text,
        "Unit at <.debug_info+0x0>: first.c\n    comp dir: /w\n\
         Unit at <.debug_info+0x18>: second.c\n    comp dir: /w\n\
         Unit at <.debug_info+0x31>: third.c\n    comp dir: /w\n"
    );
    assert!(failure.is_none());
}

#[test]
fn without_package_no_split_unit_is_looked_up() {
    let bytes = module(&[
        unit(SKELETON, 0x1234abcd, Some(b"skel.c"), Some(b"/work")),
        unit(COMPILE, 0, Some(b"plain.c"), Some(b"/work")),
    ]);
    let (text, failure) = listing_of(&bytes, None);
    assert_eq!(
        text,
        "Unit at <.debug_info+0x0>: skel.c\n    comp dir: /work\n\
         Unit at <.debug_info+0x22>: plain.c\n    comp dir: /work\n"
    );
    assert!(failure.is_none());
}

#[test]
fn split_unit_follows_its_unit() {
    let bytes = module(&[
        unit(SKELETON, 0x1234abcd, Some(b"skel.c"), Some(b"/work")),
        unit(COMPILE, 0, Some(b"plain.c"), Some(b"/work")),
    ]);
    let dwp = package(0x1234abcd, unit(SPLIT_COMPILE, 0x1234abcd, Some(b"split.c"), Some(b"/work/dwo")));
    let (text, failure) = listing_of(&bytes, Some(&dwp));
    assert_eq!(
        text,
        "Unit at <.debug_info+0x0>: skel.c\n    comp dir: /work\n\
         DWO Unit ID 1234abcd, name: split.c\n    comp dir: /work/dwo\n\
         Unit at <.debug_info+0x22>: plain.c\n    comp dir: /work\n"
    );
    assert!(failure.is_none());
}

#[test]
fn split_unit_without_comp_dir_takes_one_line() {
    let bytes = module(&[unit(SKELETON, 0x11, Some(b"skel.c"), Some(b"/work"))]);
    let dwp = package(0x11, unit(SPLIT_COMPILE, 0x11, Some(b"split.c"), None));
    let (text, failure) = listing_of(&bytes, Some(&dwp));
    assert_eq!(
        text,
        "Unit at <.debug_info+0x0>: skel.c\n    comp dir: /work\n\
         DWO Unit ID 11, name: split.c\n"
    );
    assert!(failure.is_none());
}

#[test]
fn identifier_missing_from_the_package_is_passed_over() {
    let bytes = module(&[
        unit(SKELETON, 0x77, Some(b"skel.c"), Some(b"/work")),
        unit(COMPILE, 0, Some(b"plain.c"), Some(b"/work")),
    ]);
    let dwp = package(0x1234abcd, unit(SPLIT_COMPILE, 0x1234abcd, Some(b"split.c"), Some(b"/work/dwo")));
    let (text, failure) = listing_of(&bytes, Some(&dwp));
    assert_eq!(
        text,
        "Unit at <.debug_info+0x0>: skel.c\n    comp dir: /work\n\
         Unit at <.debug_info+0x22>: plain.c\n    comp dir: /work\n"
    );
    assert!(failure.is_none());
}

#[test]
fn empty_package_holds_no_split_unit() {
    let bytes = module(&[unit(SKELETON, 0x77, Some(b"skel.c"), Some(b"/work"))]);
    let dwp = wasm(&[("notes", b"no split units".to_vec())]);
    let (text, failure) = listing_of(&bytes, Some(&dwp));
    assert_eq!(text, "Unit at <.debug_info+0x0>: skel.c\n    comp dir: /work\n");
    assert!(failure.is_none());
}

#[test]
fn toolchain_unit_is_not_looked_up() {
    let bytes = module(&[unit(SKELETON, 0x1234abcd, Some(b"libc.c"), Some(b"/emsdk/emscripten/x"))]);
    let dwp = package(0x1234abcd, unit(SPLIT_COMPILE, 0x1234abcd, Some(b"split.c"), Some(b"/work/dwo")));
    let (text, failure) = listing_of(&bytes, Some(&dwp));
    assert_eq!(text, "");
    assert!(failure.is_none());
}

#[test]
fn package_with_malformed_index_fails_before_any_output() {
    let bytes = module(&[unit(COMPILE, 0, Some(b"a.c"), Some(b"/src"))]);
    let dwp = wasm(&[(".debug_cu_index", vec![9, 0, 0, 0, 0, 0, 0, 0])]);
    let (text, failure) = listing_of(&bytes, Some(&dwp));
    assert_eq!(text, "");
    assert!(matches!(failure, Some(DumpError::Dwarf(gimli::Error::UnknownVersion(9)))));
}

#[test]
fn truncated_unit_stops_the_listing() {
    let a = unit(COMPILE, 0, Some(b"a.c"), Some(b"/src"));
    let mut b = unit(COMPILE, 0, Some(b"b.c"), Some(b"/src"));
    b.truncate(6);
    let (text, failure) = listing_of(&module(&[a, b]), None);
    assert_eq!(text, "Unit at <.debug_info+0x0>: a.c\n    comp dir: /src\n");
    assert!(matches!(failure, Some(DumpError::Dwarf(_))));
}

#[test]
fn unit_of_unknown_version_stops_the_listing() {
    let a = unit(COMPILE, 0, Some(b"a.c"), Some(b"/src"));
    let mut b = unit(COMPILE, 0, Some(b"b.c"), Some(b"/src"));
    b[4] = 77;
    let c = unit(COMPILE, 0, Some(b"c.c"), Some(b"/src"));
    let (text, failure) = listing_of(&module(&[a, b, c]), None);
    assert_eq!(text, "Unit at <.debug_info+0x0>: a.c\n    comp dir: /src\n");
    assert!(matches!(failure, Some(DumpError::Dwarf(gimli::Error::UnknownVersion(77)))));
}

#[test]
fn name_that_is_not_text_stops_the_listing_after_the_header() {
    let a = unit(COMPILE, 0, Some(b"a.c"), Some(b"/src"));
    let b = unit(COMPILE, 0, Some(&[0xff, 0xfe]), Some(b"/src"));
    let c = unit(COMPILE, 0, Some(b"c.c"), Some(b"/src"));
    let second = a.len();
    let (text, failure) = listing_of(&module(&[a, b, c]), None);
    assert_eq!(
        text,
        format!(
            "Unit at <.debug_info+0x0>: a.c\n    comp dir: /src\nUnit at <.debug_info+0x{:x}>: ",
            second
        )
    );
    assert!(matches!(failure, Some(DumpError::Dwarf(gimli::Error::BadUtf8))));
}

#[test]
fn comp_dir_that_is_not_text_stops_the_listing_after_the_name() {
    let a = unit(COMPILE, 0, Some(b"a.c"), Some(&[0x2f, 0xc0, 0x2f]));
    let (text, failure) = listing_of(&module(&[a]), None);
    assert_eq!(text, "Unit at <.debug_info+0x0>: a.c\n");
    assert!(matches!(failure, Some(DumpError::Dwarf(gimli::Error::BadUtf8))));
}

#[test]
fn skipped_unit_need_not_be_text() {
    let a = unit(COMPILE, 0, Some(&[0xff]), None);
    let b = unit(COMPILE, 0, Some(&[0xff]), Some(b"/emsdk/emscripten/\xff"));
    let c = unit(COMPILE, 0, Some(b"c.c"), Some(b"/src"));
    let third = a.len() + b.len();
    let (text, failure) = listing_of(&module(&[a, b, c]), None);
    assert_eq!(text, format!("Unit at <.debug_info+0x{:x}>: c.c\n    comp dir: /src\n", third));
    assert!(failure.is_none());
}

#[test]
fn section_that_cannot_be_loaded_fails_before_any_output() {
    let bytes = elf_with_broken_section(".zdebug_info");
    let object = Container::parse(&bytes).expect("the file parses");
    let out = dump_file(&object, None, Endian::Little);
    assert_eq!(out.text, "");
    assert!(matches!(out.failure, Some(DumpError::Section(_))));
}

#[test]
fn package_section_that_cannot_be_loaded_fails_before_any_output() {
    let bytes = module(&[unit(COMPILE, 0, Some(b"a.c"), Some(b"/src"))]);
    let object = Container::parse(&bytes).expect("the module parses");
    let dwp_bytes = elf_with_broken_section(".zdebug_info.dwo");
    let dwp = Container::parse(&dwp_bytes).expect("the file parses");
    let out = dump_file(&object, Some(&dwp), Endian::Little);
    assert_eq!(out.text, "");
    assert!(matches!(out.failure, Some(DumpError::Section(_))));
    let other_bytes = elf_with_broken_section(".zdebug_info");
    let other = Container::parse(&other_bytes).expect("the file parses");
    let out = dump_file(&object, Some(&other), Endian::Little);
    assert_eq!(out.text, "Unit at <.debug_info+0x0>: a.c\n    comp dir: /src\n");
    assert!(out.failure.is_none());
}

#[test]
fn full_listing_is_printed_as_it_is_and_ends_with_status_zero() {
    let bytes = module(&[unit(COMPILE, 0, Some(b"a.c"), Some(b"/src"))]);
    let object = Container::parse(&bytes).expect("the module parses");
    let out = dump_file(&object, None, Endian::Little);
    assert_eq!(out.output(), "Unit at <.debug_info+0x0>: a.c\n    comp dir: /src\n");
    assert_eq!(out.exit_code(), 0);
}

#[test]
fn failure_is_reported_after_what_was_written_and_ends_with_status_one() {
    let a = unit(COMPILE, 0, Some(b"a.c"), Some(b"/src"));
    let b = unit(COMPILE, 0, Some(&[0xff]), Some(b"/src"));
    let second = a.len();
    let object_bytes = module(&[a, b]);
    let object = Container::parse(&object_bytes).expect("the module parses");
    let out = dump_file(&object, None, Endian::Little);
    assert_eq!(
        out.output(),
        format!(
            "Unit at <.debug_info+0x0>: a.c\n    comp dir: /src\n\
             Unit at <.debug_info+0x{:x}>: fatal: BadUtf8\n",
            second
        )
    );
    assert_eq!(out.exit_code(), 1);
}

#[test]
fn section_failure_is_reported_with_the_cause() {
    let bytes = elf_with_broken_section(".zdebug_info");
    let object = Container::parse(&bytes).expect("the file parses");
    let cause = match load_section(&object, ".debug_info") {
        Err(DumpError::Section(cause)) => cause,
        _ => panic!("the section loads"),
    };
    let out = dump_file(&object, None, Endian::Little);
    assert_eq!(out.output(), format!("fatal: {:?}\n", cause));
    assert!(out.output().starts_with("fatal: Error(\""));
    assert_eq!(out.exit_code(), 1);
}

#[test]
fn sections_are_read_in_the_byte_order_given() {
    let bytes = module(&[unit(COMPILE, 0, Some(b"a.c"), Some(b"/src"))]);
    let object = Container::parse(&bytes).expect("the module parses");
    let out = dump_file(&object, None, Endian::Big);
    assert_eq!(out.text, "");
    assert!(matches!(out.failure, Some(DumpError::Dwarf(_))));
    let out = dump_file(&object, None, Endian::Little);
    assert_eq!(out.text, "Unit at <.debug_info+0x0>: a.c\n    comp dir: /src\n");
    assert!(out.failure.is_none());
}

#[test]
fn parsing_the_same_bytes_gives_the_same_container() {
    let bytes = wasm(&[(".debug_str", b"one\0two\0".to_vec())]);
    let first = Container::parse(&bytes).expect("the module parses");
    let second = Container::parse(&bytes).expect("the module parses");
    assert_eq!(first.is_little_endian(), second.is_little_endian());
    assert_eq!(
        load_section(&first, ".debug_str").unwrap(),
        load_section(&second, ".debug_str").unwrap()
    );
}

#[test]
fn two_runs_over_the_same_containers_write_the_same() {
    let bytes = module(&[
        unit(SKELETON, 0x1234abcd, Some(b"skel.c"), Some(b"/work")),
        unit(COMPILE, 0, Some(b"lib.c"), Some(b"/emsdk/emscripten/lib")),
        unit(COMPILE, 0, Some(b"x\xffy"), Some(b"/work")),
    ]);
    let dwp = package(0x1234abcd, unit(SPLIT_COMPILE, 0x1234abcd, Some(b"split.c"), Some(b"/work/dwo")));
    let (first_text, first_failure) = listing_of(&bytes, Some(&dwp));
    let (second_text, second_failure) = listing_of(&bytes.clone(), Some(&dwp.clone()));
    assert_eq!(first_text, second_text);
    assert_eq!(first_failure.is_some(), second_failure.is_some());
    assert!(matches!(first_failure, Some(DumpError::Dwarf(gimli::Error::BadUtf8))));
    assert!(matches!(second_failure, Some(DumpError::Dwarf(gimli::Error::BadUtf8))));
}

#[test]
fn module_with_none_of_the_sections_succeeds() {
    let bytes = wasm(&[("name-of-no-debug-section", vec![1, 2, 3, 4, 5, 6, 7, 8])]);
    let object = Container::parse(&bytes).expect("the module parses");
    let out = dump_file(&object, None, Endian::Little);
    assert!(out.failure.is_none());
    assert_eq!(out.text, "");
    assert_eq!(out.exit_code(), 0);
}

#[test]
fn every_unit_is_read_and_none_twice() {
    let units: Vec<Vec<u8>> = (0..20u8)
        .map(|i| unit(COMPILE, 0, Some(&[b'a' + i, b'.', b'c']), Some(b"/src")))
        .collect();
    let (text, failure) = listing_of(&module(&units), None);
    assert!(failure.is_none());
    assert_eq!(text.matches("Unit at <.debug_info+0x").count(), 20);
    let mut expected = String::new();
    let mut at = 0usize;
    for (i, bytes) in units.iter().enumerate() {
        expected.push_str(&format!(
            "Unit at <.debug_info+0x{:x}>: {}.c\n    comp dir: /src\n",
            at,
            (b'a' + i as u8) as char
        ));
        at += bytes.len();
    }
    assert_eq!(text, expected);
}

#[test]
fn compressed_section_is_loaded_decompressed() {
    let bytes = elf_with_section(".zdebug_str", &gnu_compressed(b"hello\0world\0"));
    let object = Container::parse(&bytes).expect("the file parses");
    assert_eq!(&*load_section(&object, ".debug_str").unwrap(), b"hello\0world\0");
    let plain = elf_with_section(".debug_str", b"hello\0world\0");
    let object = Container::parse(&plain).expect("the file parses");
    assert_eq!(&*load_section(&object, ".debug_str").unwrap(), b"hello\0world\0");
}

#[test]
fn compressed_debug_info_is_decompressed_before_it_is_read() {
    let info = unit(COMPILE, 0, Some(b"z.c"), Some(b"/packed"));
    let bytes = elf_with_section(".zdebug_info", &gnu_compressed(&info));
    let object = Container::parse(&bytes).expect("the file parses");
    assert_eq!(&*load_section(&object, ".debug_info").unwrap(), &info[..]);
    let out = dump_file(&object, None, Endian::Little);
    assert_eq!(out.text, "");
    assert!(matches!(out.failure, Some(DumpError::Dwarf(_))));
}
