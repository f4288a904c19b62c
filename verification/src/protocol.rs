//! The results that cross the boundary between the agent inside the game
//! and the front end that asked for a patch.

use vstd::prelude::*;
use vstd::std_specs::convert::FromSpecImpl;
use vstd::string::StringExecFns;

verus! {

/// The file name, without its extension, of the agent that is loaded into
/// the game.
pub const AGENT_DLL_NAME: &'static str = "fxr_reloader_agent";

/// Why a section of the game's module could not be had.
#[derive(Debug, Clone, Copy, PartialEq, Eq)]
pub enum SectionLookupError {
    /// None of the recognized modules is loaded.
    NoGameBase,
    /// The module has no section of that name.
    SectionNotFound,
}

/// Why the table of singletons could not be built.
#[derive(Debug, Clone, PartialEq, Eq)]
pub enum SingletonMapError {
    /// The pattern of the null check did not compile.
    Pattern,
    /// The named section could not be had.
    Section(String, SectionLookupError),
    /// A name was not valid text. The build of the table passes such a name
    /// over and goes on; it does not fail with this.
    MalformedName,
}

/// Why an instance could not be looked up.
#[derive(Debug, Clone, PartialEq, Eq)]
pub enum LookupError {
    /// The table holds no singleton of that name.
    NotFound,
    /// The table could not be built.
    SingletonMapCreation(SingletonMapError),
}

/// Why the running game could not be told.
#[derive(Debug, Clone, PartialEq, Eq)]
pub enum GameDetectionError {
    NoMainModuleHandle,
    MissingPEResources,
    MissingPEVersionInfo,
    MissingPEStringsLanguage,
    MissingProductName,
    /// The product name is that of no supported game.
    UnknownProductName(String),
    MissingTextSection,
}

/// Why a definition could not be patched.
#[derive(Debug, Clone, PartialEq, Eq)]
pub enum PatchFxrError {
    /// The effects manager could not be looked up.
    CSSfxSingletonMissing(LookupError),
    /// The effects manager is known, but no instance of it is alive.
    CSSfxInstanceMissing,
    /// The payload is too short to hold an identifier.
    InvalidFxr,
    GameDetectionError(GameDetectionError),
    /// The named idiom was not found in the game's code.
    InstructionPattern(String),
}

/// `SingletonMapError`, with its text as a sequence of characters.
pub enum SingletonMapErrorModel {
    Pattern,
    Section(Seq<char>, SectionLookupError),
    MalformedName,
}

/// `LookupError`, with its text as a sequence of characters.
pub enum LookupErrorModel {
    NotFound,
    SingletonMapCreation(SingletonMapErrorModel),
}

/// `GameDetectionError`, with its text as a sequence of characters.
pub enum GameDetectionErrorModel {
    NoMainModuleHandle,
    MissingPEResources,
    MissingPEVersionInfo,
    MissingPEStringsLanguage,
    MissingProductName,
    UnknownProductName(Seq<char>),
    MissingTextSection,
}

/// `PatchFxrError`, with its text as a sequence of characters.
pub enum PatchFxrErrorModel {
    CSSfxSingletonMissing(LookupErrorModel),
    CSSfxInstanceMissing,
    InvalidFxr,
    GameDetectionError(GameDetectionErrorModel),
    InstructionPattern(Seq<char>),
}

impl View for SingletonMapError {
    type V = SingletonMapErrorModel;

    open spec fn view(&self) -> SingletonMapErrorModel {
        match self {
            SingletonMapError::Pattern => SingletonMapErrorModel::Pattern,
            SingletonMapError::Section(name, error) => SingletonMapErrorModel::Section(
                name@,
                *error,
            ),
            SingletonMapError::MalformedName => SingletonMapErrorModel::MalformedName,
        }
    }
}

impl View for LookupError {
    type V = LookupErrorModel;

    open spec fn view(&self) -> LookupErrorModel {
        match self {
            LookupError::NotFound => LookupErrorModel::NotFound,
            LookupError::SingletonMapCreation(error) => LookupErrorModel::SingletonMapCreation(
                error@,
            ),
        }
    }
}

impl View for GameDetectionError {
    type V = GameDetectionErrorModel;

    open spec fn view(&self) -> GameDetectionErrorModel {
        match self {
            GameDetectionError::NoMainModuleHandle => GameDetectionErrorModel::NoMainModuleHandle,
            GameDetectionError::MissingPEResources => GameDetectionErrorModel::MissingPEResources,
            GameDetectionError::MissingPEVersionInfo => GameDetectionErrorModel::MissingPEVersionInfo,
            GameDetectionError::MissingPEStringsLanguage => GameDetectionErrorModel::MissingPEStringsLanguage,
            GameDetectionError::MissingProductName => GameDetectionErrorModel::MissingProductName,
            GameDetectionError::UnknownProductName(name) => GameDetectionErrorModel::UnknownProductName(
                name@,
            ),
            GameDetectionError::MissingTextSection => GameDetectionErrorModel::MissingTextSection,
        }
    }
}

impl View for PatchFxrError {
    type V = PatchFxrErrorModel;

    open spec fn view(&self) -> PatchFxrErrorModel {
        match self {
            PatchFxrError::CSSfxSingletonMissing(error) => PatchFxrErrorModel::CSSfxSingletonMissing(
                error@,
            ),
            PatchFxrError::CSSfxInstanceMissing => PatchFxrErrorModel::CSSfxInstanceMissing,
            PatchFxrError::InvalidFxr => PatchFxrErrorModel::InvalidFxr,
            PatchFxrError::GameDetectionError(error) => PatchFxrErrorModel::GameDetectionError(
                error@,
            ),
            PatchFxrError::InstructionPattern(name) => PatchFxrErrorModel::InstructionPattern(
                name@,
            ),
        }
    }
}

impl SingletonMapError {
    /// A copy of the error.
    pub fn duplicate(&self) -> (copy: SingletonMapError)
        ensures
            copy@ == self@,
    {
        match self {
            SingletonMapError::Pattern => SingletonMapError::Pattern,
            SingletonMapError::Section(name, error) => SingletonMapError::Section(
                name.clone(),
                *error,
            ),
            SingletonMapError::MalformedName => SingletonMapError::MalformedName,
        }
    }
}

impl SectionLookupError {
    /// The error in words.
    pub open spec fn message_spec(self) -> Seq<char> {
        match self {
            SectionLookupError::NoGameBase => "Failed to locate game base."@,
            SectionLookupError::SectionNotFound => "Failed to locate game section."@,
        }
    }

    /// The error in words.
    pub fn message(&self) -> (text: String)
        ensures
            text@ == self.message_spec(),
    {
        match self {
            SectionLookupError::NoGameBase => "Failed to locate game base.".to_owned(),
            SectionLookupError::SectionNotFound => "Failed to locate game section.".to_owned(),
        }
    }
}

impl SingletonMapErrorModel {
    /// The error in words.
    pub open spec fn message(self) -> Seq<char> {
        match self {
            SingletonMapErrorModel::Pattern => "Error parsing pattern."@,
            SingletonMapErrorModel::Section(name, error) => "Failed to locate section "@ + name
                + " - "@ + error.message_spec() + "."@,
            SingletonMapErrorModel::MalformedName => "Failed to parse singleton name."@,
        }
    }
}

impl SingletonMapError {
    /// The error in words.
    pub fn message(&self) -> (text: String)
        ensures
            text@ == self@.message(),
    {
        match self {
            SingletonMapError::Pattern => "Error parsing pattern.".to_owned(),
            SingletonMapError::Section(name, error) => {
                let mut text = "Failed to locate section ".to_owned();
                text.append(name.as_str());
                text.append(" - ");
                text.append(error.message().as_str());
                text.append(".");
                text
            },
            SingletonMapError::MalformedName => "Failed to parse singleton name.".to_owned(),
        }
    }
}

impl LookupErrorModel {
    /// The error in words.
    pub open spec fn message(self) -> Seq<char> {
        match self {
            LookupErrorModel::NotFound => "Singleton was not found."@,
            LookupErrorModel::SingletonMapCreation(error) => "Could init initialize the singleton map "@
                + error.message() + "."@,
        }
    }
}

impl LookupError {
    /// The error in words.
    pub fn message(&self) -> (text: String)
        ensures
            text@ == self@.message(),
    {
        match self {
            LookupError::NotFound => "Singleton was not found.".to_owned(),
            LookupError::SingletonMapCreation(error) => {
                let mut text = "Could init initialize the singleton map ".to_owned();
                text.append(error.message().as_str());
                text.append(".");
                text
            },
        }
    }
}

impl GameDetectionErrorModel {
    /// The error in words.
    pub open spec fn message(self) -> Seq<char> {
        match self {
            GameDetectionErrorModel::NoMainModuleHandle => "Failed acquiring the games module handle."@,
            GameDetectionErrorModel::MissingPEResources => "Failed acquiring PE resources."@,
            GameDetectionErrorModel::MissingPEVersionInfo => "Failed acquiring PE version info."@,
            GameDetectionErrorModel::MissingPEStringsLanguage => "Failed acquiring PE language for strings."@,
            GameDetectionErrorModel::MissingProductName => "Failed acquiring product name from PE header. Cannot determine what game we're running."@,
            GameDetectionErrorModel::UnknownProductName(name) => "Did not recognize game for product name "@
                + name + "."@,
            GameDetectionErrorModel::MissingTextSection => "Failed to find the .text section."@,
        }
    }
}

impl GameDetectionError {
    /// The error in words.
    pub fn message(&self) -> (text: String)
        ensures
            text@ == self@.message(),
    {
        match self {
            GameDetectionError::NoMainModuleHandle => "Failed acquiring the games module handle.".to_owned(),
            GameDetectionError::MissingPEResources => "Failed acquiring PE resources.".to_owned(),
            GameDetectionError::MissingPEVersionInfo => "Failed acquiring PE version info.".to_owned(),
            GameDetectionError::MissingPEStringsLanguage => "Failed acquiring PE language for strings.".to_owned(),
            GameDetectionError::MissingProductName => "Failed acquiring product name from PE header. Cannot determine what game we're running.".to_owned(),
            GameDetectionError::UnknownProductName(name) => {
                let mut text = "Did not recognize game for product name ".to_owned();
                text.append(name.as_str());
                text.append(".");
                text
            },
            GameDetectionError::MissingTextSection => "Failed to find the .text section.".to_owned(),
        }
    }
}

impl PatchFxrErrorModel {
    /// The error in words.
    pub open spec fn message(self) -> Seq<char> {
        match self {
            PatchFxrErrorModel::CSSfxSingletonMissing(error) => "Could not locate CSSfx singleton. "@
                + error.message(),
            PatchFxrErrorModel::CSSfxInstanceMissing => "Could not locate CSSfx instance"@,
            PatchFxrErrorModel::InvalidFxr => "Failed parsing the supplier FXR. Can't read FXR ID."@,
            PatchFxrErrorModel::GameDetectionError(error) => "Could not acquire game parameters. "@
                + error.message(),
            PatchFxrErrorModel::InstructionPattern(name) => "Could not match pattern instructions. "@
                + name,
        }
    }
}

impl PatchFxrError {
    /// The error in words.
    pub fn message(&self) -> (text: String)
        ensures
            text@ == self@.message(),
    {
        match self {
            PatchFxrError::CSSfxSingletonMissing(error) => {
                let mut text = "Could not locate CSSfx singleton. ".to_owned();
                text.append(error.message().as_str());
                text
            },
            PatchFxrError::CSSfxInstanceMissing => "Could not locate CSSfx instance".to_owned(),
            PatchFxrError::InvalidFxr => "Failed parsing the supplier FXR. Can't read FXR ID.".to_owned(),
            PatchFxrError::GameDetectionError(error) => {
                let mut text = "Could not acquire game parameters. ".to_owned();
                text.append(error.message().as_str());
                text
            },
            PatchFxrError::InstructionPattern(name) => {
                let mut text = "Could not match pattern instructions. ".to_owned();
                text.append(name.as_str());
                text
            },
        }
    }
}

impl From<LookupError> for PatchFxrError {
    fn from(error: LookupError) -> (converted: PatchFxrError) {
        PatchFxrError::CSSfxSingletonMissing(error)
    }
}

impl FromSpecImpl<LookupError> for PatchFxrError {
    open spec fn obeys_from_spec() -> bool {
        true
    }

    open spec fn from_spec(error: LookupError) -> PatchFxrError {
        PatchFxrError::CSSfxSingletonMissing(error)
    }
}

impl From<GameDetectionError> for PatchFxrError {
    fn from(error: GameDetectionError) -> (converted: PatchFxrError) {
        PatchFxrError::GameDetectionError(error)
    }
}

impl FromSpecImpl<GameDetectionError> for PatchFxrError {
    open spec fn obeys_from_spec() -> bool {
        true
    }

    open spec fn from_spec(error: GameDetectionError) -> PatchFxrError {
        PatchFxrError::GameDetectionError(error)
    }
}

/// The result of a patch, as a value that can be compared.
pub open spec fn patch_result_view(result: Result<(), PatchFxrError>) -> Result<
    (),
    PatchFxrErrorModel,
> {
    match result {
        Ok(()) => Ok(()),
        Err(error) => Err(error@),
    }
}

} // verus!
