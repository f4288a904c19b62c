//! Telling which game the agent runs in, from the header of the main
//! module.

use crate::protocol::{GameDetectionError, GameDetectionErrorModel};
use vstd::prelude::*;

verus! {

/// The product name in the version information of Elden Ring.
pub const PRODUCT_NAME_ELDENRING: &'static str = "ELDEN RING™";

/// The games that can be patched.
#[derive(Debug, Clone, Copy, PartialEq, Eq)]
pub enum RunningGame {
    EldenRing,
}

/// A section of a module as its header describes it: the name, without
/// padding, and the addresses relative to the base of the module.
#[derive(Debug, Clone, PartialEq, Eq)]
pub struct PeSection {
    pub name: Vec<u8>,
    pub virtual_start: u32,
    pub virtual_end: u32,
}

/// A language and a character set.
#[derive(Debug, Clone, Copy, PartialEq, Eq)]
pub struct Language {
    pub lang_id: u16,
    pub charset_id: u16,
}

/// One string of the version information: the language of its table, its
/// key and its value.
#[derive(Debug, Clone, PartialEq, Eq)]
pub struct VersionString {
    pub language: Language,
    pub key: String,
    pub value: String,
}

/// The version information of a module: the languages in the order of its
/// translation table, and the strings in the order of their tables.
#[derive(Debug, Clone, PartialEq, Eq)]
pub struct VersionInfo {
    pub translation: Vec<Language>,
    pub strings: Vec<VersionString>,
}

/// What the resources of a module hold of version information.
#[derive(Debug, Clone, PartialEq, Eq)]
pub enum VersionLookup {
    /// The module has no resources.
    NoResources,
    /// The resources hold no version information.
    NoVersionInfo,
    Found(VersionInfo),
}

/// What the detection reads of the header of a module.
#[derive(Debug, Clone, PartialEq, Eq)]
pub struct PeHeader {
    pub sections: Vec<PeSection>,
    pub version: VersionLookup,
}

/// The addresses of a section relative to the base of its module.
#[derive(Debug, Clone, Copy, PartialEq, Eq)]
pub struct VirtualRange {
    pub start: u32,
    pub end: u32,
}

/// The name of the section that holds the code.
pub open spec fn is_text_name(name: Seq<u8>) -> bool {
    name == seq![0x2eu8, 0x74u8, 0x65u8, 0x78u8, 0x74u8]
}

/// The string is the product name in the given language.
pub open spec fn is_product_name(string: VersionString, language: Language) -> bool {
    string.language == language && string.key@ == "ProductName"@
}

/// The value of the last of the first `n` strings that is the product name
/// in the given language.
pub open spec fn last_product_name(strings: Seq<VersionString>, language: Language, n: nat) -> Option<
    Seq<char>,
>
    decreases n,
{
    if n == 0 {
        None
    } else if is_product_name(strings[n - 1], language) {
        Some(strings[n - 1].value@)
    } else {
        last_product_name(strings, language, (n - 1) as nat)
    }
}

/// The product name that the version information of a module gives, in the
/// first language of its translation table.
pub open spec fn product_name_of(version: VersionLookup) -> Result<
    Seq<char>,
    GameDetectionErrorModel,
> {
    match version {
        VersionLookup::NoResources => Err(GameDetectionErrorModel::MissingPEResources),
        VersionLookup::NoVersionInfo => Err(GameDetectionErrorModel::MissingPEVersionInfo),
        VersionLookup::Found(info) => if info.translation@.len() == 0 {
            Err(GameDetectionErrorModel::MissingPEStringsLanguage)
        } else {
            match last_product_name(info.strings@, info.translation@[0], info.strings@.len()) {
                Some(name) => Ok(name),
                None => Err(GameDetectionErrorModel::MissingProductName),
            }
        },
    }
}

/// The game with the given product name.
pub open spec fn game_named(product_name: Seq<char>) -> Result<
    RunningGame,
    GameDetectionErrorModel,
> {
    if product_name == PRODUCT_NAME_ELDENRING@ {
        Ok(RunningGame::EldenRing)
    } else {
        Err(GameDetectionErrorModel::UnknownProductName(product_name))
    }
}

/// Whether one of the sections is of the name `.text`.
pub open spec fn has_text_section(sections: Seq<PeSection>) -> bool {
    exists|i: int| 0 <= i < sections.len() && is_text_name((#[trigger] sections[i]).name@)
}

/// The game that a header tells of: the module must have a handle, a
/// section of code and a product name, and the product name must be that of
/// a game that can be patched.
pub open spec fn detected(header: Option<&PeHeader>) -> Result<
    RunningGame,
    GameDetectionErrorModel,
> {
    match header {
        None => Err(GameDetectionErrorModel::NoMainModuleHandle),
        Some(header) => if !has_text_section(header.sections@) {
            Err(GameDetectionErrorModel::MissingTextSection)
        } else {
            match product_name_of(header.version) {
                Err(error) => Err(error),
                Ok(name) => game_named(name),
            }
        },
    }
}

fn is_text(name: &Vec<u8>) -> (text: bool)
    ensures
        text == is_text_name(name@),
{
    let text = name.len() == 5 && name[0] == 0x2e && name[1] == 0x74 && name[2] == 0x65
        && name[3] == 0x78 && name[4] == 0x74;
    proof {
        if text {
            assert(name@ =~= seq![0x2eu8, 0x74u8, 0x65u8, 0x78u8, 0x74u8]);
        }
    }
    text
}

/// The first section of the name `.text`.
pub fn find_text_section(header: &PeHeader) -> (range: Result<VirtualRange, GameDetectionError>)
    ensures
        match range {
            Ok(range) => exists|i: int|
                {
                    &&& 0 <= i < header.sections@.len()
                    &&& is_text_name((#[trigger] header.sections@[i]).name@)
                    &&& forall|j: int| 0 <= j < i ==> !is_text_name(header.sections@[j].name@)
                    &&& range.start == header.sections@[i].virtual_start
                    &&& range.end == header.sections@[i].virtual_end
                },
            Err(error) => error@ == GameDetectionErrorModel::MissingTextSection && !has_text_section(
                header.sections@,
            ),
        },
{
    let mut i: usize = 0;
    while i < header.sections.len()
        invariant
            i <= header.sections@.len(),
            forall|j: int| 0 <= j < i ==> !is_text_name((#[trigger] header.sections@[j]).name@),
        decreases header.sections@.len() - i,
    {
        let section = &header.sections[i];
        if is_text(&section.name) {
            return Ok(VirtualRange { start: section.virtual_start, end: section.virtual_end });
        }
        i = i + 1;
    }
    Err(GameDetectionError::MissingTextSection)
}

/// The product name of the module, in the first language of its
/// translation table. Of several strings of that key the last one counts.
pub fn select_product_name(header: &PeHeader) -> (name: Result<String, GameDetectionError>)
    ensures
        match product_name_of(header.version) {
            Ok(expected) => name is Ok && name->Ok_0@ == expected,
            Err(error) => name is Err && name->Err_0@ == error,
        },
{
    let info = match &header.version {
        VersionLookup::NoResources => { return Err(GameDetectionError::MissingPEResources); },
        VersionLookup::NoVersionInfo => { return Err(GameDetectionError::MissingPEVersionInfo); },
        VersionLookup::Found(info) => info,
    };
    if info.translation.len() == 0 {
        return Err(GameDetectionError::MissingPEStringsLanguage);
    }
    let language = info.translation[0];
    let key = "ProductName".to_owned();
    let mut product_name: Option<String> = None;
    let mut i: usize = 0;
    while i < info.strings.len()
        invariant
            i <= info.strings@.len(),
            key@ == "ProductName"@,
            match last_product_name(info.strings@, language, i as nat) {
                Some(expected) => product_name is Some && product_name->0@ == expected,
                None => product_name is None,
            },
        decreases info.strings@.len() - i,
    {
        let string = &info.strings[i];
        if string.language.lang_id == language.lang_id && string.language.charset_id
            == language.charset_id && string.key == key {
            product_name = Some(string.value.clone());
        }
        i = i + 1;
    }
    match product_name {
        Some(name) => Ok(name),
        None => Err(GameDetectionError::MissingProductName),
    }
}

/// The game with the given product name.
pub fn game_with_product_name(product_name: String) -> (game: Result<
    RunningGame,
    GameDetectionError,
>)
    ensures
        match game_named(product_name@) {
            Ok(expected) => game == Ok::<RunningGame, GameDetectionError>(expected),
            Err(error) => game is Err && game->Err_0@ == error,
        },
{
    if product_name == PRODUCT_NAME_ELDENRING.to_owned() {
        Ok(RunningGame::EldenRing)
    } else {
        Err(GameDetectionError::UnknownProductName(product_name))
    }
}

/// Tells which game the module is, from what its header holds; `None`
/// stands for a main module without a handle.
pub fn detect_running_game(header: Option<&PeHeader>) -> (game: Result<
    RunningGame,
    GameDetectionError,
>)
    ensures
        match detected(header) {
            Ok(expected) => game == Ok::<RunningGame, GameDetectionError>(expected),
            Err(error) => game is Err && game->Err_0@ == error,
        },
{
    let header = match header {
        Some(header) => header,
        None => { return Err(GameDetectionError::NoMainModuleHandle); },
    };
    match find_text_section(header) {
        Ok(_) => {},
        Err(error) => { return Err(error); },
    }
    let product_name = match select_product_name(header) {
        Ok(name) => name,
        Err(error) => { return Err(error); },
    };
    game_with_product_name(product_name)
}

} // verus!
