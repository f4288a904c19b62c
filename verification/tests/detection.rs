use fxr_reloader::detection::{
    detect_running_game, find_text_section, game_with_product_name, select_product_name, Language,
    PeHeader, PeSection, RunningGame, VersionInfo, VersionLookup, VersionString, VirtualRange,
    PRODUCT_NAME_ELDENRING,
};
use fxr_reloader::eldenring::{EldenRingFxrPatcher, PatchStage, PatchState, PatchStep};
use fxr_reloader::fxr::{get_offsets_for_game, patch_fxr_definition, GameOffsets};
use fxr_reloader::game::{make_patcher, FxrPatcher, GamePatcher};
use fxr_reloader::protocol::{
    GameDetectionError, LookupError, PatchFxrError, SectionLookupError, SingletonMapError,
    AGENT_DLL_NAME,
};
use fxr_reloader::section::Section;
use fxr_reloader::singleton::SingletonLocator;
use fxr_reloader::table::SingletonMap;
use fxr_reloader::target::TargetRequest;
use fxr_reloader::util::{get_module_handle, SymbolLookupError};

const ENGLISH: Language = Language { lang_id: 0x0409, charset_id: 0x04b0 };
const JAPANESE: Language = Language { lang_id: 0x0411, charset_id: 0x04b0 };

fn section(name: &[u8], start: u32, end: u32) -> PeSection {
    PeSection { name: name.to_vec(), virtual_start: start, virtual_end: end }
}

fn string(language: Language, key: &str, value: &str) -> VersionString {
    VersionString { language, key: key.to_string(), value: value.to_string() }
}

fn header(strings: Vec<VersionString>) -> PeHeader {
    PeHeader {
        sections: vec![section(b".text", 0x1000, 0x2000), section(b".data", 0x3000, 0x4000)],
        version: VersionLookup::Found(VersionInfo { translation: vec![ENGLISH, JAPANESE], strings }),
    }
}

#[test]
fn elden_ring_is_told_by_its_product_name() {
    let header = header(vec![
        string(ENGLISH, "CompanyName", "FromSoftware, Inc."),
        string(ENGLISH, "ProductName", "ELDEN RING™"),
        string(ENGLISH, "ProductVersion", "1.12.0"),
    ]);
    assert_eq!(select_product_name(&header), Ok("ELDEN RING™".to_string()));
    assert_eq!(detect_running_game(Some(&header)), Ok(RunningGame::EldenRing));
    assert_eq!(game_with_product_name(PRODUCT_NAME_ELDENRING.to_string()), Ok(RunningGame::EldenRing));
}

#[test]
fn another_product_is_not_recognized() {
    let header = header(vec![string(ENGLISH, "ProductName", "ARMORED CORE™ VI FIRES OF RUBICON™")]);
    assert_eq!(
        detect_running_game(Some(&header)),
        Err(GameDetectionError::UnknownProductName("ARMORED CORE™ VI FIRES OF RUBICON™".to_string()))
    );
    assert_eq!(
        game_with_product_name("ELDEN RING".to_string()),
        Err(GameDetectionError::UnknownProductName("ELDEN RING".to_string()))
    );
    assert_eq!(
        game_with_product_name(String::new()),
        Err(GameDetectionError::UnknownProductName(String::new()))
    );
}

#[test]
fn the_product_name_is_that_of_the_first_language() {
    let header = header(vec![
        string(JAPANESE, "ProductName", "エルデンリング"),
        string(ENGLISH, "ProductName", "ELDEN RING™"),
        string(JAPANESE, "ProductName", "ELDEN RING"),
    ]);
    assert_eq!(select_product_name(&header), Ok("ELDEN RING™".to_string()));
    let other_charset = Language { lang_id: 0x0409, charset_id: 0x04e4 };
    let header = PeHeader {
        sections: vec![section(b".text", 0, 1)],
        version: VersionLookup::Found(VersionInfo {
            translation: vec![other_charset],
            strings: vec![string(ENGLISH, "ProductName", "ELDEN RING™")],
        }),
    };
    assert_eq!(select_product_name(&header), Err(GameDetectionError::MissingProductName));
}

#[test]
fn of_several_product_names_the_last_counts() {
    let header = header(vec![
        string(ENGLISH, "ProductName", "first"),
        string(ENGLISH, "productname", "lower case"),
        string(ENGLISH, "ProductName", "second"),
        string(ENGLISH, "ProductNames", "longer key"),
    ]);
    assert_eq!(select_product_name(&header), Ok("second".to_string()));
}

#[test]
fn each_missing_part_of_the_header_is_an_error_of_its_own() {
    assert_eq!(detect_running_game(None), Err(GameDetectionError::NoMainModuleHandle));
    let mut no_text = header(vec![string(ENGLISH, "ProductName", "ELDEN RING™")]);
    no_text.sections = vec![section(b".tex", 0, 1), section(b".text2", 0, 1), section(b".TEXT", 0, 1)];
    assert_eq!(find_text_section(&no_text), Err(GameDetectionError::MissingTextSection));
    assert_eq!(detect_running_game(Some(&no_text)), Err(GameDetectionError::MissingTextSection));
    no_text.version = VersionLookup::NoResources;
    assert_eq!(detect_running_game(Some(&no_text)), Err(GameDetectionError::MissingTextSection));

    let mut header = header(vec![string(ENGLISH, "ProductVersion", "1.12.0")]);
    assert_eq!(detect_running_game(Some(&header)), Err(GameDetectionError::MissingProductName));
    header.version = VersionLookup::Found(VersionInfo {
        translation: vec![],
        strings: vec![string(ENGLISH, "ProductName", "ELDEN RING™")],
    });
    assert_eq!(detect_running_game(Some(&header)), Err(GameDetectionError::MissingPEStringsLanguage));
    header.version = VersionLookup::NoVersionInfo;
    assert_eq!(detect_running_game(Some(&header)), Err(GameDetectionError::MissingPEVersionInfo));
    header.version = VersionLookup::NoResources;
    assert_eq!(detect_running_game(Some(&header)), Err(GameDetectionError::MissingPEResources));
}

#[test]
fn the_first_text_section_is_found() {
    let header = PeHeader {
        sections: vec![
            section(b".rdata", 0x100, 0x200),
            section(b".text", 0x1000, 0x2000),
            section(b".text", 0x5000, 0x6000),
        ],
        version: VersionLookup::NoResources,
    };
    assert_eq!(find_text_section(&header), Ok(VirtualRange { start: 0x1000, end: 0x2000 }));
    let empty = PeHeader { sections: vec![], version: VersionLookup::NoResources };
    assert_eq!(find_text_section(&empty), Err(GameDetectionError::MissingTextSection));
}

#[test]
fn the_offsets_of_known_builds() {
    assert_eq!(
        get_offsets_for_game("eldenring.exe"),
        Some(GameOffsets {
            sfx_imp: 0x3d839b8,
            wtf_fxr: 0x2124770,
            patch_offsets: 0x20fb660,
            get_allocator: 0x20b70d0
        })
    );
    assert_eq!(
        get_offsets_for_game("sekiro.exe"),
        Some(GameOffsets {
            sfx_imp: 0x3d99ce8,
            wtf_fxr: 0x24d5fb0,
            patch_offsets: 0x24d1270,
            get_allocator: 0x4069c0
        })
    );
    assert_eq!(get_offsets_for_game("armoredcore6.exe"), None);
    assert_eq!(get_offsets_for_game("ELDENRING.EXE"), None);
    assert_eq!(get_offsets_for_game(""), None);
}

#[test]
fn a_patch_by_known_offsets_begins_at_the_slot_of_the_manager() {
    let base = 0x7ff6_0000_0000;
    let mut payload = vec![0u8; 32];
    payload[0xc] = 0x2a;
    let (patcher, step) = patch_fxr_definition("eldenring.exe", base, &payload).unwrap();
    assert_eq!(
        patcher,
        EldenRingFxrPatcher {
            patch_fxr_offset: base + 0x20fb660,
            prepare_fxr: base + 0x2124770,
            fxr_allocator_getter: base + 0x20b70d0,
        }
    );
    assert_eq!(
        step,
        PatchStep::Pending {
            state: PatchState { fxr_id: 42, size: 32, stage: PatchStage::Instance },
            request: TargetRequest::ReadPointer { address: base + 0x3d839b8 },
        }
    );
    let (_, step) = patch_fxr_definition("sekiro.exe", base, &payload[..15]).unwrap();
    assert_eq!(step, PatchStep::Done(Err(PatchFxrError::InvalidFxr)));
    assert_eq!(patch_fxr_definition("darksouls3.exe", base, &payload), None);
}

#[test]
fn the_patcher_of_a_game_is_that_of_its_code() {
    let text = Section::new(0x14000_1000, &[0x90; 0x100]).unwrap();
    assert_eq!(
        make_patcher(RunningGame::EldenRing, &text),
        Err(PatchFxrError::InstructionPattern("get_allocator_call".to_string()))
    );
    let entry_points =
        EldenRingFxrPatcher { patch_fxr_offset: 0x10, prepare_fxr: 0x20, fxr_allocator_getter: 0x30 };
    let patcher = GamePatcher::EldenRing(entry_points);
    let mut table = SingletonMap::new();
    table.insert("CSSfx".to_string(), 0x1000);
    let locator = SingletonLocator::Ready(table);
    let payload = [0u8; 16];
    assert_eq!(patcher.patch(&locator, &payload), entry_points.patch(&locator, &payload));
    let state = PatchState { fxr_id: 0, size: 16, stage: PatchStage::Allocator { wrapper: 0x40 } };
    assert_eq!(patcher.resume(state, 0x50), entry_points.resume(state, 0x50));
    assert_eq!(
        patcher.resume(state, 0x50),
        PatchStep::Pending {
            state: PatchState {
                fxr_id: 0,
                size: 16,
                stage: PatchStage::DispatchTable { wrapper: 0x40, allocator: 0x50 }
            },
            request: TargetRequest::ReadPointer { address: 0x50 },
        }
    );
}

#[test]
fn a_module_without_a_handle_is_not_found() {
    assert_eq!(get_module_handle(Some(0x14000_0000)), Ok(0x14000_0000));
    assert_eq!(get_module_handle(None), Err(SymbolLookupError::ModuleNotFound));
}

#[test]
fn errors_in_words() {
    assert_eq!(SectionLookupError::NoGameBase.message(), "Failed to locate game base.");
    assert_eq!(SectionLookupError::SectionNotFound.message(), "Failed to locate game section.");
    assert_eq!(SingletonMapError::Pattern.message(), "Error parsing pattern.");
    assert_eq!(SingletonMapError::MalformedName.message(), "Failed to parse singleton name.");
    let section = SingletonMapError::Section(".text".to_string(), SectionLookupError::NoGameBase);
    assert_eq!(section.message(), "Failed to locate section .text - Failed to locate game base..");
    assert_eq!(LookupError::NotFound.message(), "Singleton was not found.");
    assert_eq!(
        LookupError::SingletonMapCreation(SingletonMapError::Pattern).message(),
        "Could init initialize the singleton map Error parsing pattern.."
    );
    assert_eq!(
        PatchFxrError::CSSfxSingletonMissing(LookupError::NotFound).message(),
        "Could not locate CSSfx singleton. Singleton was not found."
    );
    assert_eq!(PatchFxrError::CSSfxInstanceMissing.message(), "Could not locate CSSfx instance");
    assert_eq!(
        PatchFxrError::InvalidFxr.message(),
        "Failed parsing the supplier FXR. Can't read FXR ID."
    );
    assert_eq!(
        PatchFxrError::InstructionPattern("wtf_fxr".to_string()).message(),
        "Could not match pattern instructions. wtf_fxr"
    );
    assert_eq!(
        PatchFxrError::GameDetectionError(GameDetectionError::UnknownProductName("X".to_string()))
            .message(),
        "Could not acquire game parameters. Did not recognize game for product name X."
    );
    assert_eq!(
        GameDetectionError::NoMainModuleHandle.message(),
        "Failed acquiring the games module handle."
    );
    assert_eq!(GameDetectionError::MissingPEResources.message(), "Failed acquiring PE resources.");
    assert_eq!(GameDetectionError::MissingPEVersionInfo.message(), "Failed acquiring PE version info.");
    assert_eq!(
        GameDetectionError::MissingPEStringsLanguage.message(),
        "Failed acquiring PE language for strings."
    );
    assert_eq!(
        GameDetectionError::MissingProductName.message(),
        "Failed acquiring product name from PE header. Cannot determine what game we're running."
    );
    assert_eq!(GameDetectionError::MissingTextSection.message(), "Failed to find the .text section.");
}

#[test]
fn errors_convert_into_patch_errors() {
    assert_eq!(
        PatchFxrError::from(LookupError::NotFound),
        PatchFxrError::CSSfxSingletonMissing(LookupError::NotFound)
    );
    assert_eq!(
        PatchFxrError::from(GameDetectionError::MissingTextSection),
        PatchFxrError::GameDetectionError(GameDetectionError::MissingTextSection)
    );
    let copy = SingletonMapError::Section(".data".to_string(), SectionLookupError::SectionNotFound);
    assert_eq!(copy.duplicate(), copy);
    assert_eq!(AGENT_DLL_NAME, "fxr_reloader_agent");
}
