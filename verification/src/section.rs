//! The sections of the game's module: where they lie, what they hold, and
//! the search for an idiom in the code.

use crate::pattern::{parse_bit_pattern, Pattern, PatternModel, PatternSyntaxError};
use crate::protocol::SectionLookupError;
use crate::scanner::{
    first_match_of, result_view, scan, CaptureModel, MatchModel, PatternCapture, PatternResult,
};
use vstd::prelude::*;
use vstd::string::StringSliceAdditionalSpecFns;

verus! {

/// The number of file names under which the game's module may be loaded.
pub const MODULE_NAME_COUNT: usize = 3;

/// The file names under which the game's module may be loaded, in the order
/// in which they are tried.
pub fn module_name(index: usize) -> (name: &'static str)
    requires
        index < MODULE_NAME_COUNT,
    ensures
        name@ == module_name_spec(index as int),
{
    if index == 0 {
        "eldenring.exe"
    } else if index == 1 {
        "armoredcore6.exe"
    } else {
        "start_protected_game.exe"
    }
}

/// The file names under which the game's module may be loaded, by their
/// place in the order in which they are tried.
pub open spec fn module_name_spec(index: int) -> Seq<char> {
    if index == 0 {
        "eldenring.exe"@
    } else if index == 1 {
        "armoredcore6.exe"@
    } else {
        "start_protected_game.exe"@
    }
}

/// The first of the module names of which `loaded` says that such a module
/// is loaded: `loaded` holds one answer for each name, in their order.
pub fn get_game_module(loaded: &[bool]) -> (module: Option<&'static str>)
    ensures
        match module {
            Some(name) => exists|i: int|
                {
                    &&& 0 <= i < MODULE_NAME_COUNT
                    &&& i < loaded@.len()
                    &&& #[trigger] loaded@[i]
                    &&& name@ == module_name_spec(i)
                    &&& forall|j: int| 0 <= j < i ==> !loaded@[j]
                },
            None => forall|i: int| 0 <= i < MODULE_NAME_COUNT && i < loaded@.len() ==> !loaded@[i],
        },
{
    let mut i: usize = 0;
    while i < MODULE_NAME_COUNT && i < loaded.len()
        invariant
            i <= MODULE_NAME_COUNT,
            i <= loaded@.len(),
            forall|j: int| 0 <= j < i ==> !loaded@[j],
        decreases MODULE_NAME_COUNT - i,
    {
        if loaded[i] {
            return Some(module_name(i));
        }
        i = i + 1;
    }
    None
}

/// The number of file names under which a module that holds the code of a
/// game may be loaded.
pub const CODE_MODULE_NAME_COUNT: usize = 4;

/// The file names under which a module that holds the code of a game may be
/// loaded, in the order in which they are tried.
pub fn code_module_name(index: usize) -> (name: &'static str)
    requires
        index < CODE_MODULE_NAME_COUNT,
    ensures
        name@ == code_module_name_spec(index as int),
{
    if index == 0 {
        "eldenring.exe"
    } else if index == 1 {
        "armoredcore6.exe"
    } else if index == 2 {
        "sekiro.exe"
    } else {
        "start_protected_game.exe"
    }
}

/// The file names under which a module that holds the code of a game may be
/// loaded, by their place in the order in which they are tried.
pub open spec fn code_module_name_spec(index: int) -> Seq<char> {
    if index == 0 {
        "eldenring.exe"@
    } else if index == 1 {
        "armoredcore6.exe"@
    } else if index == 2 {
        "sekiro.exe"@
    } else {
        "start_protected_game.exe"@
    }
}

/// The addresses from `start` up to, but without, `end`.
#[derive(Debug, Clone, Copy, PartialEq, Eq)]
pub struct SectionRange {
    pub start: usize,
    pub end: usize,
}

impl SectionRange {
    /// Whether the address lies in the range.
    pub open spec fn holds(self, address: int) -> bool {
        self.start <= address < self.end
    }

    /// Whether the address lies in the range.
    pub fn contains(&self, address: usize) -> (inside: bool)
        ensures
            inside == self.holds(address as int),
    {
        self.start <= address && address < self.end
    }
}

/// A section of the game's module: the address of its first byte, and its
/// bytes.
pub struct Section<'a> {
    start: usize,
    bytes: &'a [u8],
}

/// A section, with its bytes as a sequence.
pub struct SectionModel {
    pub start: int,
    pub bytes: Seq<u8>,
}

impl SectionModel {
    /// The address behind the last byte of the section.
    pub open spec fn end(self) -> int {
        self.start + self.bytes.len()
    }

    /// The addresses that the section occupies.
    pub open spec fn range(self) -> SectionRange {
        SectionRange { start: self.start as usize, end: self.end() as usize }
    }
}

impl<'a> View for Section<'a> {
    type V = SectionModel;

    closed spec fn view(&self) -> SectionModel {
        SectionModel { start: self.start as int, bytes: self.bytes@ }
    }
}

impl<'a> Section<'a> {
    /// The section ends inside the address space.
    #[verifier::type_invariant]
    pub closed spec fn inv(self) -> bool {
        self@.end() <= usize::MAX
    }

    /// Every section ends inside the address space.
    pub proof fn lemma_inside_address_space(self)
        requires
            self.inv(),
        ensures
            0 <= self@.start,
            self@.end() <= usize::MAX,
    {
    }

    /// The section of the given bytes at the given address; `None` where it
    /// would reach beyond the address space.
    pub fn new(start: usize, bytes: &'a [u8]) -> (section: Option<Section<'a>>)
        ensures
            match section {
                Some(s) => s@ == (SectionModel { start: start as int, bytes: bytes@ }) && start
                    + bytes@.len() <= usize::MAX,
                None => start + bytes@.len() > usize::MAX,
            },
    {
        if bytes.len() > usize::MAX - start {
            None
        } else {
            Some(Section { start, bytes })
        }
    }

    /// The addresses that the section occupies.
    pub fn range(&self) -> (range: SectionRange)
        ensures
            range == self@.range(),
            range.start == self@.start,
            range.end == self@.end(),
    {
        proof {
            use_type_invariant(self);
        }
        SectionRange { start: self.start, end: self.start + self.bytes.len() }
    }

    /// The bytes of the section.
    pub fn bytes(&self) -> (bytes: &'a [u8])
        ensures
            bytes@ == self@.bytes,
    {
        self.bytes
    }
}

/// The section that a lookup found, or why there is none: no module of the
/// game is loaded, or the module that is loaded has no such section.
pub fn get_section<'a, 'b>(module: Option<&str>, found: Option<&'b Section<'a>>) -> (section:
    Result<&'b Section<'a>, SectionLookupError>)
    ensures
        module is None ==> section == Err::<&Section, SectionLookupError>(
            SectionLookupError::NoGameBase,
        ),
        module is Some && found is None ==> section == Err::<&Section, SectionLookupError>(
            SectionLookupError::SectionNotFound,
        ),
        module is Some && found is Some ==> section == Ok::<&Section, SectionLookupError>(found->0),
{
    match module {
        None => Err(SectionLookupError::NoGameBase),
        Some(_) => match found {
            None => Err(SectionLookupError::SectionNotFound),
            Some(section) => Ok(section),
        },
    }
}

/// The match with every location moved up by `base`.
pub open spec fn rebase(m: MatchModel, base: int) -> MatchModel {
    MatchModel {
        location: m.location + base,
        captures: Seq::new(
            m.captures.len(),
            |k: int|
                CaptureModel {
                    location: m.captures[k].location + base,
                    bytes: m.captures[k].bytes,
                },
        ),
    }
}

/// What was found, with every location moved up by `base`.
pub open spec fn rebase_found(found: Option<MatchModel>, base: int) -> Option<MatchModel> {
    match found {
        Some(m) => Some(rebase(m, base)),
        None => None,
    }
}

/// The first match of a compiled pattern in a section, with addresses in
/// place of offsets.
pub open spec fn located(p: PatternModel, section: SectionModel) -> Option<MatchModel> {
    rebase_found(first_match_of(p, section.bytes), section.start)
}

/// The first match of the idiom that a pattern text declares, where the text
/// compiles and the idiom stands in the section.
#[verifier::opaque]
pub open spec fn located_idiom(pattern: Seq<u8>, section: SectionModel) -> Option<MatchModel> {
    match parse_bit_pattern(pattern) {
        Some(p) => located(p, section),
        None => None,
    }
}

/// Looks for the first place in the code at which the idiom stands. The
/// locations of the match are addresses.
pub fn match_instruction_pattern(text: &Section, pattern: &str) -> (found: Result<
    Option<PatternResult>,
    PatternSyntaxError,
>)
    ensures
        match parse_bit_pattern(pattern.spec_bytes()) {
            Some(p) => found is Ok && result_view(found->Ok_0) == located(p, text@),
            None => found is Err,
        },
{
    let compiled = match Pattern::from_bit_pattern(pattern) {
        Ok(compiled) => compiled,
        Err(error) => { return Err(error); },
    };
    proof {
        use_type_invariant(text);
        use_type_invariant(&compiled);
        compiled.lemma_well_formed();
    }
    match scan(text.bytes(), &compiled) {
        None => Ok(None),
        Some(result) => {
            let base = text.range().start;
            let ghost relative = result@;
            let ghost model = compiled@;
            let PatternResult { location, captures: relative_captures } = result;
            let count = relative_captures.len();
            let mut captures: Vec<PatternCapture> = Vec::new();
            let mut k: usize = 0;
            while k < count
                invariant
                    count == relative_captures@.len(),
                    k <= count,
                    captures@.len() == k,
                    model.well_formed(),
                    relative.captures.len() == count,
                    forall|j: int|
                        0 <= j < count ==> (#[trigger] relative_captures@[j])@
                            == relative.captures[j],
                    relative == crate::scanner::match_at(model, text@.bytes, relative.location),
                    relative.location + model.len() <= text@.bytes.len(),
                    0 <= relative.location,
                    base == text@.start,
                    text@.end() <= usize::MAX,
                    forall|j: int|
                        0 <= j < k ==> (#[trigger] captures@[j])@ == (CaptureModel {
                            location: relative.captures[j].location + base,
                            bytes: relative.captures[j].bytes,
                        }),
                decreases count - k,
            {
                let capture = &relative_captures[k];
                assert(capture@ == relative.captures[k as int]);
                assert(0 <= model.captures[k as int].0 < model.captures[k as int].1
                    <= model.len());
                captures.push(
                    PatternCapture {
                        location: base + capture.location,
                        bytes: capture.bytes.clone(),
                    },
                );
                k = k + 1;
            }
            let rebased = PatternResult { location: base + location, captures };
            proof {
                assert(rebased@.captures =~= rebase(relative, text@.start).captures);
            }
            Ok(Some(rebased))
        },
    }
}

/// Looks for the first place in the code at which the idiom stands, and
/// finds none where the pattern text does not compile.
pub fn find_idiom(text: &Section, pattern: &str) -> (found: Option<PatternResult>)
    ensures
        result_view(found) == located_idiom(pattern.spec_bytes(), text@),
{
    reveal(located_idiom);
    match match_instruction_pattern(text, pattern) {
        Ok(found) => found,
        Err(_) => None,
    }
}

} // verus!
