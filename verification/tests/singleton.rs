use fxr_reloader::pattern::Pattern;
use fxr_reloader::protocol::{LookupError, SectionLookupError, SingletonMapError};
use fxr_reloader::section::{
    code_module_name, get_game_module, get_section, match_instruction_pattern, module_name, Section,
    SectionRange, CODE_MODULE_NAME_COUNT, MODULE_NAME_COUNT,
};
use fxr_reloader::singleton::{
    build_singleton_table, get_instance, lookup_instance, DLRFLocatable, InstanceStep, NameRequest,
    SingletonLocator, NULL_CHECK_PATTERN,
};
use fxr_reloader::eldenring::CSSfx;
use fxr_reloader::table::SingletonMap;

const TEXT_START: usize = 0x14000_1000;
const DATA: SectionRange = SectionRange { start: 0x14400_0000, end: 0x14500_0000 };

fn displacement(from: usize, to: usize) -> [u8; 4] {
    ((to as i64 - from as i64) as i32).to_le_bytes()
}

/// The idiom at `at`, naming the three addresses.
fn null_check(text: &mut Vec<u8>, at: usize, slot: usize, metadata: usize, accessor: usize) {
    let base = TEXT_START + at;
    let mut code = vec![0x48, 0x8b, 0x05];
    code.extend_from_slice(&displacement(base + 7, slot));
    code.extend_from_slice(&[0x48, 0x85, 0xc0, 0x75, 0x2e, 0x48, 0x8d, 0x0d]);
    code.extend_from_slice(&displacement(base + 19, metadata));
    code.push(0xe8);
    code.extend_from_slice(&displacement(base + 24, accessor));
    assert_eq!(code.len(), 24);
    text[at..at + 24].copy_from_slice(&code);
}

fn build(text: &Section, names: &[(usize, &[u8])]) -> (SingletonLocator, Vec<NameRequest>) {
    let mut locator = build_singleton_table(Ok(text), Ok(DATA));
    let mut asked = Vec::new();
    while let Some(request) = locator.pending() {
        asked.push(request);
        let name = names
            .iter()
            .find(|(metadata, _)| *metadata == request.metadata)
            .map(|(_, name)| name.to_vec())
            .unwrap();
        locator = locator.supply(name);
    }
    (locator, asked)
}

fn table_of(locator: &SingletonLocator) -> &SingletonMap {
    match locator {
        SingletonLocator::Ready(table) => table,
        other => panic!("not ready: {:?}", matches!(other, SingletonLocator::Failed(_))),
    }
}

struct WorldChrMan;

impl DLRFLocatable for WorldChrMan {
    fn name() -> &'static str {
        "WorldChrMan"
    }
}

#[test]
fn the_idioms_compile() {
    let pattern = Pattern::from_bit_pattern(NULL_CHECK_PATTERN).unwrap();
    assert_eq!(pattern.len(), 24);
    assert_eq!(pattern.capture_count(), 3);
    let allocator = Pattern::from_bit_pattern(fxr_reloader::idioms::GET_ALLOCATOR_PATTERN).unwrap();
    assert_eq!(allocator.len(), 28);
    assert_eq!(allocator.capture_count(), 1);
    let offsets = Pattern::from_bit_pattern(fxr_reloader::idioms::PATCH_OFFSETS_PATTERN).unwrap();
    assert_eq!(offsets.len(), 54);
    assert_eq!(offsets.capture_count(), 0);
    let prepare = Pattern::from_bit_pattern(fxr_reloader::idioms::WTF_FXR_PATTERN).unwrap();
    assert_eq!(prepare.len(), 44);
    assert_eq!(prepare.capture_count(), 0);
}

#[test]
fn builds_the_table_from_the_null_checks() {
    let mut code = vec![0x90u8; 0x200];
    null_check(&mut code, 0x10, 0x14400_0100, 0x14400_2000, TEXT_START + 0x180);
    null_check(&mut code, 0x80, 0x14400_0108, 0x14400_2040, TEXT_START + 0x180);
    let text = Section::new(TEXT_START, &code).unwrap();
    let (locator, asked) = build(&text, &[(0x14400_2000, b"CSSfx"), (0x14400_2040, b"WorldChrMan")]);
    assert_eq!(
        asked,
        vec![
            NameRequest { accessor: TEXT_START + 0x180, metadata: 0x14400_2000 },
            NameRequest { accessor: TEXT_START + 0x180, metadata: 0x14400_2040 },
        ]
    );
    let table = table_of(&locator);
    assert_eq!(table.len(), 2);
    assert_eq!(table.get("CSSfx"), Some(0x14400_0100));
    assert_eq!(table.get("WorldChrMan"), Some(0x14400_0108));
    assert_eq!(table.get("CSFade"), None);
}

#[test]
fn candidates_with_implausible_addresses_are_left_out() {
    let mut code = vec![0x90u8; 0x200];
    // the slot lies in the code
    null_check(&mut code, 0x00, TEXT_START + 0x40, 0x14400_2000, TEXT_START + 0x180);
    // the metadata lies behind the data section
    null_check(&mut code, 0x20, 0x14400_0100, DATA.end, TEXT_START + 0x180);
    // the accessor lies in the data section
    null_check(&mut code, 0x40, 0x14400_0100, 0x14400_2000, 0x14400_3000);
    // all three are plausible; the slot is the first byte of the data section
    null_check(&mut code, 0x60, DATA.start, DATA.end - 1, TEXT_START);
    let text = Section::new(TEXT_START, &code).unwrap();
    let (locator, asked) = build(&text, &[(DATA.end - 1, b"CSFade")]);
    assert_eq!(asked, vec![NameRequest { accessor: TEXT_START, metadata: DATA.end - 1 }]);
    let table = table_of(&locator);
    assert_eq!(table.len(), 1);
    assert_eq!(table.get("CSFade"), Some(DATA.start));
}

#[test]
fn a_name_that_is_not_text_is_passed_over() {
    let mut code = vec![0x90u8; 0x100];
    null_check(&mut code, 0x00, 0x14400_0100, 0x14400_2000, TEXT_START + 0x80);
    null_check(&mut code, 0x20, 0x14400_0108, 0x14400_2040, TEXT_START + 0x80);
    null_check(&mut code, 0x40, 0x14400_0110, 0x14400_2080, TEXT_START + 0x80);
    let text = Section::new(TEXT_START, &code).unwrap();
    let (locator, asked) = build(
        &text,
        &[(0x14400_2000, b"CSSfx"), (0x14400_2040, &[0xff, 0xfe, 0x41]), (0x14400_2080, b"CSFade")],
    );
    assert_eq!(asked.len(), 3);
    let table = table_of(&locator);
    assert_eq!(table.len(), 2);
    assert_eq!(table.get("CSSfx"), Some(0x14400_0100));
    assert_eq!(table.get("CSFade"), Some(0x14400_0110));
}

#[test]
fn a_later_entry_of_the_same_name_wins() {
    let mut code = vec![0x90u8; 0x100];
    null_check(&mut code, 0x00, 0x14400_0100, 0x14400_2000, TEXT_START + 0x80);
    null_check(&mut code, 0x20, 0x14400_0108, 0x14400_2040, TEXT_START + 0x80);
    let text = Section::new(TEXT_START, &code).unwrap();
    let (locator, _) = build(&text, &[(0x14400_2000, b"CSSfx"), (0x14400_2040, b"CSSfx")]);
    let table = table_of(&locator);
    assert_eq!(table.len(), 1);
    assert_eq!(table.get("CSSfx"), Some(0x14400_0108));
}

#[test]
fn code_without_the_idiom_gives_an_empty_table() {
    let text = Section::new(TEXT_START, &[0xcc; 64]).unwrap();
    let locator = SingletonLocator::new().begin(Ok(&text), Ok(DATA));
    assert_eq!(locator.pending(), None);
    assert_eq!(table_of(&locator).len(), 0);
}

#[test]
fn a_missing_section_fails_the_build() {
    let text = Section::new(TEXT_START, &[0xcc; 64]).unwrap();
    let no_text = SingletonLocator::new().begin(Err(SectionLookupError::NoGameBase), Ok(DATA));
    assert!(matches!(
        &no_text,
        SingletonLocator::Failed(SingletonMapError::Section(name, SectionLookupError::NoGameBase))
            if name == ".text"
    ));
    let no_data = SingletonLocator::new().begin(Ok(&text), Err(SectionLookupError::SectionNotFound));
    assert!(matches!(
        &no_data,
        SingletonLocator::Failed(SingletonMapError::Section(name, SectionLookupError::SectionNotFound))
            if name == ".data"
    ));
    let neither = SingletonLocator::new()
        .begin(Err(SectionLookupError::SectionNotFound), Err(SectionLookupError::NoGameBase));
    assert!(matches!(
        &neither,
        SingletonLocator::Failed(SingletonMapError::Section(name, SectionLookupError::SectionNotFound))
            if name == ".text"
    ));
    assert_eq!(no_text.pending(), None);
    assert_eq!(
        get_instance::<CSSfx>(&no_text, None),
        InstanceStep::Done(Err(LookupError::SingletonMapCreation(SingletonMapError::Section(
            ".text".to_string(),
            SectionLookupError::NoGameBase
        ))))
    );
}

#[test]
fn the_table_is_built_once() {
    let mut code = vec![0x90u8; 0x100];
    null_check(&mut code, 0x00, 0x14400_0100, 0x14400_2000, TEXT_START + 0x80);
    let text = Section::new(TEXT_START, &code).unwrap();
    let (locator, _) = build(&text, &[(0x14400_2000, b"CSSfx")]);
    let other = Section::new(TEXT_START, &[0xcc; 16]).unwrap();
    let again = locator.begin(Ok(&other), Err(SectionLookupError::NoGameBase));
    assert_eq!(table_of(&again).get("CSSfx"), Some(0x14400_0100));
    let still = again.supply(b"CSFade".to_vec());
    assert_eq!(table_of(&still).len(), 1);

    let failed = SingletonLocator::new().begin(Err(SectionLookupError::NoGameBase), Ok(DATA));
    let failed = failed.begin(Ok(&text), Ok(DATA));
    assert!(matches!(failed, SingletonLocator::Failed(_)));
}

#[test]
fn building_twice_gives_the_same_table() {
    let mut code = vec![0x90u8; 0x100];
    null_check(&mut code, 0x08, 0x14400_0100, 0x14400_2000, TEXT_START + 0x80);
    null_check(&mut code, 0x30, 0x14400_0108, 0x14400_2040, TEXT_START + 0x80);
    let text = Section::new(TEXT_START, &code).unwrap();
    let names: [(usize, &[u8]); 2] = [(0x14400_2000, b"CSSfx"), (0x14400_2040, b"WorldChrMan")];
    let (first, _) = build(&text, &names);
    let (second, _) = build(&text, &names);
    for name in ["CSSfx", "WorldChrMan", "CSFade"] {
        assert_eq!(table_of(&first).get(name), table_of(&second).get(name));
    }
    assert_eq!(table_of(&first).len(), table_of(&second).len());
}

#[test]
fn get_instance_of_an_unknown_name_is_not_found() {
    let mut table = SingletonMap::new();
    table.insert("CSSfx".to_string(), 0x14400_0100);
    let locator = SingletonLocator::Ready(table);
    assert_eq!(
        get_instance::<WorldChrMan>(&locator, None),
        InstanceStep::Done(Err(LookupError::NotFound))
    );
    assert_eq!(
        get_instance::<WorldChrMan>(&locator, Some(0)),
        InstanceStep::Done(Err(LookupError::NotFound))
    );
    assert_eq!(
        get_instance::<WorldChrMan>(&locator, Some(0x7ff0_0000)),
        InstanceStep::Done(Err(LookupError::NotFound))
    );
}

#[test]
fn get_instance_reads_the_slot_and_tells_absence_from_presence() {
    let mut table = SingletonMap::new();
    table.insert("CSSfx".to_string(), 0x14400_0100);
    table.insert("WorldChrMan".to_string(), 0x14400_0108);
    let locator = SingletonLocator::Ready(table);
    assert_eq!(get_instance::<CSSfx>(&locator, None), InstanceStep::ReadSlot { slot: 0x14400_0100 });
    assert_eq!(
        get_instance::<WorldChrMan>(&locator, None),
        InstanceStep::ReadSlot { slot: 0x14400_0108 }
    );
    assert_eq!(get_instance::<WorldChrMan>(&locator, Some(0)), InstanceStep::Done(Ok(None)));
    assert_eq!(
        get_instance::<CSSfx>(&locator, Some(0x7ff4_1200_0040)),
        InstanceStep::Done(Ok(Some(0x7ff4_1200_0040)))
    );
}

#[test]
fn an_instance_is_looked_up_by_any_name() {
    let mut table = SingletonMap::new();
    table.insert("CSFade".to_string(), 0x14400_0200);
    let locator = SingletonLocator::Ready(table);
    assert_eq!(lookup_instance(&locator, "CSFade", None), InstanceStep::ReadSlot { slot: 0x14400_0200 });
    assert_eq!(lookup_instance(&locator, "CSFade", Some(0)), InstanceStep::Done(Ok(None)));
    assert_eq!(lookup_instance(&locator, "CSFade", Some(9)), InstanceStep::Done(Ok(Some(9))));
    assert_eq!(
        lookup_instance(&locator, "csfade", Some(9)),
        InstanceStep::Done(Err(LookupError::NotFound))
    );
}

#[test]
fn get_instance_asks_for_the_table_first() {
    assert_eq!(get_instance::<CSSfx>(&SingletonLocator::new(), None), InstanceStep::BuildTable);
    let mut code = vec![0x90u8; 0x100];
    null_check(&mut code, 0x00, 0x14400_0100, 0x14400_2000, TEXT_START + 0x80);
    let text = Section::new(TEXT_START, &code).unwrap();
    let building = SingletonLocator::new().begin(Ok(&text), Ok(DATA));
    assert!(building.pending().is_some());
    assert_eq!(get_instance::<CSSfx>(&building, Some(1)), InstanceStep::BuildTable);
}

#[test]
fn the_table_overwrites_and_counts() {
    let mut table = SingletonMap::new();
    assert_eq!(table.len(), 0);
    assert_eq!(table.get(""), None);
    table.insert("A".to_string(), 1);
    table.insert("B".to_string(), 2);
    table.insert("A".to_string(), 3);
    table.insert("".to_string(), 4);
    assert_eq!(table.len(), 3);
    assert_eq!(table.get("A"), Some(3));
    assert_eq!(table.get("B"), Some(2));
    assert_eq!(table.get(""), Some(4));
    assert_eq!(table.get("a"), None);
}

#[test]
fn sections_end_inside_the_address_space() {
    assert!(Section::new(usize::MAX, &[0]).is_none());
    let last = Section::new(usize::MAX - 1, &[0]).unwrap();
    assert_eq!(last.range(), SectionRange { start: usize::MAX - 1, end: usize::MAX });
    assert_eq!(last.bytes(), &[0u8]);
    let empty = Section::new(usize::MAX, &[0u8; 0]).unwrap();
    assert_eq!(empty.range(), SectionRange { start: usize::MAX, end: usize::MAX });
    assert!(!empty.range().contains(usize::MAX));
    assert!(DATA.contains(DATA.start));
    assert!(!DATA.contains(DATA.end));
}

#[test]
fn the_first_loaded_module_is_the_game() {
    assert_eq!(get_game_module(&[true, true, true]), Some("eldenring.exe"));
    assert_eq!(get_game_module(&[false, true, true]), Some("armoredcore6.exe"));
    assert_eq!(get_game_module(&[false, false, true]), Some("start_protected_game.exe"));
    assert_eq!(get_game_module(&[false, false, false]), None);
    assert_eq!(get_game_module(&[false, false, false, true]), None);
    assert_eq!(get_game_module(&[]), None);
}

#[test]
fn a_section_needs_a_module_and_a_lookup() {
    let text = Section::new(TEXT_START, &[0xcc; 4]).unwrap();
    assert_eq!(get_section(None, Some(&text)).err(), Some(SectionLookupError::NoGameBase));
    assert_eq!(get_section(None, None).err(), Some(SectionLookupError::NoGameBase));
    assert_eq!(
        get_section(Some("eldenring.exe"), None).err(),
        Some(SectionLookupError::SectionNotFound)
    );
    assert_eq!(
        get_section(Some("eldenring.exe"), Some(&text)).ok().map(|s| s.range()),
        Some(text.range())
    );
}

#[test]
fn matches_in_a_section_are_addresses() {
    let text = Section::new(0x1000, &[0x00, 0xe8, 0x10, 0x20, 0x30, 0x40, 0xc3]).unwrap();
    let found = match_instruction_pattern(&text, "11101000 [........ ........ ........ ........]")
        .unwrap()
        .unwrap();
    assert_eq!(found.location, 0x1001);
    assert_eq!(found.captures[0].location, 0x1002);
    assert_eq!(found.captures[0].bytes, vec![0x10, 0x20, 0x30, 0x40]);
    assert_eq!(match_instruction_pattern(&text, "11111111"), Ok(None));
    assert!(match_instruction_pattern(&text, "1111111").is_err());
}

#[test]
fn the_modules_that_may_hold_the_code() {
    let code: Vec<&str> = (0..CODE_MODULE_NAME_COUNT).map(code_module_name).collect();
    assert_eq!(code, vec!["eldenring.exe", "armoredcore6.exe", "sekiro.exe", "start_protected_game.exe"]);
    let game: Vec<&str> = (0..MODULE_NAME_COUNT).map(module_name).collect();
    assert_eq!(game, vec!["eldenring.exe", "armoredcore6.exe", "start_protected_game.exe"]);
}
