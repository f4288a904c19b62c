//! Finding the game's singletons.
//!
//! Before the game first uses a singleton it checks the slot that holds the
//! pointer to the instance, and where the slot is empty it fetches the name
//! of the class for a report. That idiom names three things: the slot, the
//! metadata of the class, and the function that gives the name of a class
//! from its metadata. Each place in the code where the idiom stands and
//! names plausible addresses yields one entry of the table.

use crate::pattern::{parse_bit_pattern, Pattern, PatternModel};
use crate::protocol::{
    LookupError, LookupErrorModel, SectionLookupError, SingletonMapError, SingletonMapErrorModel,
};
use crate::resolver::{resolve_relative, resolved_address, wrap_address};
use crate::scanner::{match_at, scan_all, scan_offsets, MatchModel, PatternResult};
use crate::section::{Section, SectionModel, SectionRange};
use crate::table::SingletonMap;
use vstd::prelude::*;
use vstd::string::StringSliceAdditionalSpecFns;
use vstd::utf8::{decode_utf8, valid_utf8};

verus! {

/// The null check before the first use of a singleton: load the slot, test
/// it, jump if it is set, load the address of the class metadata, call the
/// function that names the class.
pub const NULL_CHECK_PATTERN: &'static str =
    "01001... 10001011 00...101 [........ ........ ........ ........] \
    01001... 10000101 11...... \
    01110101 ........ \
    01001... 10001101 00001101 [........ ........ ........ ........] \
    11101000 [........ ........ ........ ........]";

/// From the start of the idiom to the end of the instruction that loads the
/// slot.
pub const STATIC_INSTRUCTION_END: usize = 7;

/// From the start of the idiom to the end of the instruction that loads the
/// metadata.
pub const METADATA_INSTRUCTION_END: usize = 19;

/// From the start of the idiom to the end of the call.
pub const ACCESSOR_INSTRUCTION_END: usize = 24;

/// A type of which the game holds one instance at most.
pub trait DLRFLocatable {
    /// The name under which the game's own reflection data knows the class.
    fn name() -> &'static str;
}

/// One place in the code where the idiom stands and names plausible
/// addresses.
#[derive(Debug, Clone, Copy, PartialEq, Eq)]
pub struct SingletonCandidate {
    /// The slot that holds the pointer to the instance.
    pub static_address: usize,
    /// The metadata of the class.
    pub metadata_address: usize,
    /// The function that gives the name of a class from its metadata.
    pub name_accessor: usize,
}

/// What the host is asked to do for a candidate: call `accessor` with
/// `metadata` as its one argument, and hand back the bytes of the text that
/// the returned pointer leads to, up to its terminator.
#[derive(Debug, Clone, Copy, PartialEq, Eq)]
pub struct NameRequest {
    pub accessor: usize,
    pub metadata: usize,
}

/// The candidate that a match of the idiom at an offset of the code yields:
/// its three captures resolve, the slot and the metadata lie in the data
/// section, and the accessor lies in the code.
pub open spec fn candidate_of(m: MatchModel, text: SectionRange, data: SectionRange) -> Option<
    SingletonCandidate,
> {
    let base = text.start + m.location;
    if m.captures.len() < 3 {
        None
    } else {
        let slot = resolved_address(
            m.captures[0].bytes,
            wrap_address(base + STATIC_INSTRUCTION_END),
        );
        let metadata = resolved_address(
            m.captures[1].bytes,
            wrap_address(base + METADATA_INSTRUCTION_END),
        );
        let accessor = resolved_address(
            m.captures[2].bytes,
            wrap_address(base + ACCESSOR_INSTRUCTION_END),
        );
        if slot is Some && metadata is Some && accessor is Some && data.holds(slot->0)
            && data.holds(metadata->0) && text.holds(accessor->0) {
            Some(
                SingletonCandidate {
                    static_address: slot->0 as usize,
                    metadata_address: metadata->0 as usize,
                    name_accessor: accessor->0 as usize,
                },
            )
        } else {
            None
        }
    }
}

/// The candidates that the matches at `offsets` yield, in their order.
pub open spec fn candidates_among(
    p: PatternModel,
    text: SectionModel,
    data: SectionRange,
    offsets: Seq<int>,
) -> Seq<SingletonCandidate>
    decreases offsets.len(),
{
    if offsets.len() == 0 {
        Seq::empty()
    } else {
        let earlier = candidates_among(p, text, data, offsets.drop_last());
        match candidate_of(match_at(p, text.bytes, offsets.last()), text.range(), data) {
            Some(candidate) => earlier.push(candidate),
            None => earlier,
        }
    }
}

/// The candidates of a code section: those of the places where the idiom
/// stands, scanning forward and going on behind each match.
pub open spec fn candidates_in(p: PatternModel, text: SectionModel, data: SectionRange) -> Seq<
    SingletonCandidate,
> {
    candidates_among(p, text, data, scan_offsets(p, text.bytes))
}

fn candidate(result: &PatternResult, text: SectionRange, data: SectionRange) -> (found: Option<
    SingletonCandidate,
>)
    requires
        text.start + result.location <= usize::MAX,
    ensures
        found == candidate_of(result@, text, data),
{
    if result.captures.len() < 3 {
        return None;
    }
    let base = text.start + result.location;
    let slot = resolve_relative(&result.captures[0], base.wrapping_add(STATIC_INSTRUCTION_END));
    let metadata = resolve_relative(
        &result.captures[1],
        base.wrapping_add(METADATA_INSTRUCTION_END),
    );
    let accessor = resolve_relative(
        &result.captures[2],
        base.wrapping_add(ACCESSOR_INSTRUCTION_END),
    );
    match (slot, metadata, accessor) {
        (Some(slot), Some(metadata), Some(accessor)) => {
            if data.contains(slot) && data.contains(metadata) && text.contains(accessor) {
                Some(
                    SingletonCandidate {
                        static_address: slot,
                        metadata_address: metadata,
                        name_accessor: accessor,
                    },
                )
            } else {
                None
            }
        },
        _ => None,
    }
}

/// The candidates that a compiled pattern of the idiom yields in the code.
fn collect_candidates(pattern: &Pattern, text: &Section, data: SectionRange) -> (found: Vec<
    SingletonCandidate,
>)
    ensures
        found@ == candidates_in(pattern@, text@, data),
{
    proof {
        use_type_invariant(text);
        text.lemma_inside_address_space();
    }
    let matches = scan_all(text.bytes(), pattern);
    let range = text.range();
    let ghost offsets = scan_offsets(pattern@, text@.bytes);
    let mut found: Vec<SingletonCandidate> = Vec::new();
    let mut i: usize = 0;
    while i < matches.len()
        invariant
            i <= matches@.len(),
            offsets == scan_offsets(pattern@, text@.bytes),
            offsets == crate::scanner::locations(matches@),
            crate::scanner::covers_matches(pattern@, text@.bytes, offsets),
            forall|k: int|
                0 <= k < matches@.len() ==> (#[trigger] matches@[k])@ == match_at(
                    pattern@,
                    text@.bytes,
                    matches@[k].location as int,
                ),
            range == text@.range(),
            range.start == text@.start,
            range.end == text@.end(),
            text@.end() <= usize::MAX,
            found@ == candidates_among(pattern@, text@, data, offsets.take(i as int)),
        decreases matches@.len() - i,
    {
        let result = &matches[i];
        proof {
            assert(offsets[i as int] == result.location);
            assert(crate::scanner::holds_at(
                crate::scanner::matches_of(pattern@, text@.bytes),
                offsets,
                i as int,
            ));
            assert(crate::scanner::matches_at(pattern@, text@.bytes, offsets[i as int]));
            assert(offsets.take(i + 1).drop_last() =~= offsets.take(i as int));
        }
        match candidate(result, range, data) {
            Some(c) => {
                found.push(c);
            },
            None => {},
        }
        i = i + 1;
    }
    assert(offsets.take(i as int) =~= offsets);
    found
}

/// A table under construction: the candidates, how many of them have been
/// dealt with, and the entries so far. At least one candidate is left.
pub struct TableBuilder {
    candidates: Vec<SingletonCandidate>,
    next: usize,
    table: SingletonMap,
}

impl TableBuilder {
    /// A candidate is left.
    #[verifier::type_invariant]
    pub closed spec fn inv(self) -> bool {
        self.next < self.candidates@.len()
    }

    /// The candidates of the build.
    pub closed spec fn candidates(self) -> Seq<SingletonCandidate> {
        self.candidates@
    }

    /// How many candidates have been dealt with.
    pub closed spec fn next(self) -> int {
        self.next as int
    }

    /// The entries so far.
    pub closed spec fn table(self) -> Map<Seq<char>, usize> {
        self.table@
    }
}

/// The state of the search for the game's singletons. The table is built
/// once: a locator that is ready or has failed stays as it is.
pub enum SingletonLocator {
    /// Nothing has been done yet.
    Uninitialized,
    /// The code has been scanned; the names of the candidates are being
    /// fetched.
    Building(TableBuilder),
    /// The table is complete.
    Ready(SingletonMap),
    /// The table could not be built.
    Failed(SingletonMapError),
}

/// The state of the search, with the table as a map.
pub enum LocatorModel {
    Uninitialized,
    Building { candidates: Seq<SingletonCandidate>, next: int, table: Map<Seq<char>, usize> },
    Ready(Map<Seq<char>, usize>),
    Failed(SingletonMapErrorModel),
}

impl View for SingletonLocator {
    type V = LocatorModel;

    open spec fn view(&self) -> LocatorModel {
        match self {
            SingletonLocator::Uninitialized => LocatorModel::Uninitialized,
            SingletonLocator::Building(builder) => LocatorModel::Building {
                candidates: builder.candidates(),
                next: builder.next(),
                table: builder.table(),
            },
            SingletonLocator::Ready(table) => LocatorModel::Ready(table@),
            SingletonLocator::Failed(error) => LocatorModel::Failed(error@),
        }
    }
}

/// The table after one more name: a name that is valid text enters the
/// table with the slot of its candidate, in the place of an earlier entry of
/// that name if there is one; a name that is not valid text is passed over.
pub open spec fn record(
    table: Map<Seq<char>, usize>,
    candidate: SingletonCandidate,
    name: Seq<u8>,
) -> Map<Seq<char>, usize> {
    if valid_utf8(name) {
        table.insert(decode_utf8(name), candidate.static_address)
    } else {
        table
    }
}

/// The state in which a build with the given candidates starts.
pub open spec fn start_with(candidates: Seq<SingletonCandidate>) -> LocatorModel {
    if candidates.len() == 0 {
        LocatorModel::Ready(Map::empty())
    } else {
        LocatorModel::Building { candidates, next: 0, table: Map::empty() }
    }
}

/// The state after `begin`: a locator that has begun stays as it is; a
/// section that could not be had, the code first, or an idiom that does not
/// compile, fails the build; else the candidates of the code are up for
/// their names.
pub open spec fn begin_spec(
    before: LocatorModel,
    text: Result<SectionModel, SectionLookupError>,
    data: Result<SectionRange, SectionLookupError>,
) -> LocatorModel {
    if !(before is Uninitialized) {
        before
    } else {
        match (text, data) {
            (Err(error), _) => LocatorModel::Failed(
                SingletonMapErrorModel::Section(".text"@, error),
            ),
            (Ok(_), Err(error)) => LocatorModel::Failed(
                SingletonMapErrorModel::Section(".data"@, error),
            ),
            (Ok(text), Ok(data)) => match parse_bit_pattern(NULL_CHECK_PATTERN.spec_bytes()) {
                None => LocatorModel::Failed(SingletonMapErrorModel::Pattern),
                Some(p) => start_with(candidates_in(p, text, data)),
            },
        }
    }
}

/// The state after one name has been supplied.
pub open spec fn supply_spec(before: LocatorModel, name: Seq<u8>) -> LocatorModel {
    match before {
        LocatorModel::Building { candidates, next, table } => {
            let table = record(table, candidates[next], name);
            if next + 1 < candidates.len() {
                LocatorModel::Building { candidates, next: next + 1, table }
            } else {
                LocatorModel::Ready(table)
            }
        },
        _ => before,
    }
}

/// The request that is pending in a state, if one is.
pub open spec fn pending_spec(state: LocatorModel) -> Option<NameRequest> {
    match state {
        LocatorModel::Building { candidates, next, table } => Some(
            NameRequest {
                accessor: candidates[next].name_accessor,
                metadata: candidates[next].metadata_address,
            },
        ),
        _ => None,
    }
}

/// The request for the name of a candidate.
pub open spec fn request_for(candidate: SingletonCandidate) -> NameRequest {
    NameRequest { accessor: candidate.name_accessor, metadata: candidate.metadata_address }
}

/// The build is over.
pub open spec fn is_built(state: LocatorModel) -> bool {
    state is Ready || state is Failed
}

/// The state after the game has answered up to `n` requests; `names` is
/// what its accessors give for each request.
pub open spec fn supplied(
    state: LocatorModel,
    names: spec_fn(NameRequest) -> Seq<u8>,
    n: nat,
) -> LocatorModel
    decreases n,
{
    if n == 0 {
        state
    } else {
        match pending_spec(state) {
            Some(request) => supplied(supply_spec(state, names(request)), names, (n - 1) as nat),
            None => state,
        }
    }
}

/// The table after the first `n` candidates have been recorded under the
/// names that the game gives for them.
pub open spec fn table_after(
    candidates: Seq<SingletonCandidate>,
    names: spec_fn(NameRequest) -> Seq<u8>,
    n: nat,
) -> Map<Seq<char>, usize>
    decreases n,
{
    if n == 0 {
        Map::empty()
    } else {
        record(
            table_after(candidates, names, (n - 1) as nat),
            candidates[n - 1],
            names(request_for(candidates[n - 1])),
        )
    }
}

/// A build with the given candidates is over after one answer for each of
/// them, and the table holds what the candidates and their names give, a
/// later candidate before an earlier one of the same name.
pub proof fn lemma_build_completes(
    candidates: Seq<SingletonCandidate>,
    names: spec_fn(NameRequest) -> Seq<u8>,
)
    ensures
        supplied(start_with(candidates), names, candidates.len()) == LocatorModel::Ready(
            table_after(candidates, names, candidates.len()),
        ),
{
    if candidates.len() > 0 {
        lemma_build_goes_on(candidates, names, 0);
    }
}

proof fn lemma_build_goes_on(
    candidates: Seq<SingletonCandidate>,
    names: spec_fn(NameRequest) -> Seq<u8>,
    done: nat,
)
    requires
        done < candidates.len(),
    ensures
        supplied(
            LocatorModel::Building {
                candidates,
                next: done as int,
                table: table_after(candidates, names, done),
            },
            names,
            (candidates.len() - done) as nat,
        ) == LocatorModel::Ready(table_after(candidates, names, candidates.len())),
    decreases candidates.len() - done,
{
    let state = LocatorModel::Building {
        candidates,
        next: done as int,
        table: table_after(candidates, names, done),
    };
    let after = supply_spec(state, names(request_for(candidates[done as int])));
    assert(pending_spec(state) == Some(request_for(candidates[done as int])));
    if done + 1 < candidates.len() {
        assert(after == LocatorModel::Building {
            candidates,
            next: (done + 1) as int,
            table: table_after(candidates, names, done + 1),
        });
        lemma_build_goes_on(candidates, names, done + 1);
    } else {
        assert(after == LocatorModel::Ready(table_after(candidates, names, candidates.len())));
        assert(supplied(after, names, 0) == after);
    }
}

/// A build that is over stays as it is, whatever else is supplied.
pub proof fn lemma_built_stays(
    state: LocatorModel,
    names: spec_fn(NameRequest) -> Seq<u8>,
    n: nat,
    name: Seq<u8>,
    text: Result<SectionModel, SectionLookupError>,
    data: Result<SectionRange, SectionLookupError>,
)
    requires
        is_built(state),
    ensures
        supplied(state, names, n) == state,
        supply_spec(state, name) == state,
        begin_spec(state, text, data) == state,
        pending_spec(state) is None,
{
    if n > 0 {
        assert(supplied(state, names, n) == state);
    }
}

proof fn lemma_supplied_splits(
    state: LocatorModel,
    names: spec_fn(NameRequest) -> Seq<u8>,
    a: nat,
    b: nat,
)
    ensures
        supplied(state, names, a + b) == supplied(supplied(state, names, a), names, b),
    decreases a,
{
    if a > 0 {
        match pending_spec(state) {
            Some(request) => {
                lemma_supplied_splits(
                    supply_spec(state, names(request)),
                    names,
                    (a - 1) as nat,
                    b,
                );
            },
            None => {
                lemma_no_request_stays(state, names, b);
                lemma_no_request_stays(state, names, a + b);
            },
        }
    }
}

proof fn lemma_no_request_stays(
    state: LocatorModel,
    names: spec_fn(NameRequest) -> Seq<u8>,
    n: nat,
)
    requires
        pending_spec(state) is None,
    ensures
        supplied(state, names, n) == state,
{
}

/// Building the table twice from the same image of the game gives the same
/// result: two builds that begin with the same sections and get the same
/// names end in the same state, whichever number of answers each of them
/// was given once it was over.
pub proof fn lemma_build_is_repeatable(
    text: Result<SectionModel, SectionLookupError>,
    data: Result<SectionRange, SectionLookupError>,
    names: spec_fn(NameRequest) -> Seq<u8>,
    first: nat,
    second: nat,
)
    requires
        is_built(supplied(begin_spec(LocatorModel::Uninitialized, text, data), names, first)),
        is_built(supplied(begin_spec(LocatorModel::Uninitialized, text, data), names, second)),
    ensures
        supplied(begin_spec(LocatorModel::Uninitialized, text, data), names, first) == supplied(
            begin_spec(LocatorModel::Uninitialized, text, data),
            names,
            second,
        ),
{
    let start = begin_spec(LocatorModel::Uninitialized, text, data);
    if first <= second {
        lemma_supplied_splits(start, names, first, (second - first) as nat);
        lemma_no_request_stays(supplied(start, names, first), names, (second - first) as nat);
    } else {
        lemma_supplied_splits(start, names, second, (first - second) as nat);
        lemma_no_request_stays(supplied(start, names, second), names, (first - second) as nat);
    }
}

/// A section as its lookup gave it, as a value that can be compared.
pub open spec fn section_view(section: Result<&Section, SectionLookupError>) -> Result<
    SectionModel,
    SectionLookupError,
> {
    match section {
        Ok(s) => Ok(s@),
        Err(e) => Err(e),
    }
}

/// `String::from_utf8` of the standard library: the text that the bytes
/// encode where they are valid UTF-8, and nothing where they are not.
#[verifier::external_body]
fn string_from_utf8(bytes: Vec<u8>) -> (text: Option<String>)
    ensures
        text is Some <==> valid_utf8(bytes@),
        text is Some ==> text->0@ == decode_utf8(bytes@),
{
    String::from_utf8(bytes).ok()
}

impl SingletonLocator {
    /// A locator that has done nothing yet.
    pub fn new() -> (locator: SingletonLocator)
        ensures
            locator@ == LocatorModel::Uninitialized,
    {
        SingletonLocator::Uninitialized
    }

    /// Begins the build with the code and data sections as their lookup gave
    /// them.
    pub fn begin(
        self,
        text: Result<&Section, SectionLookupError>,
        data: Result<SectionRange, SectionLookupError>,
    ) -> (locator: SingletonLocator)
        ensures
            locator@ == begin_spec(self@, section_view(text), data),
    {
        match self {
            SingletonLocator::Uninitialized => {},
            _ => { return self; },
        }
        let text = match text {
            Ok(text) => text,
            Err(error) => {
                return SingletonLocator::Failed(
                    SingletonMapError::Section(".text".to_owned(), error),
                );
            },
        };
        let data = match data {
            Ok(data) => data,
            Err(error) => {
                return SingletonLocator::Failed(
                    SingletonMapError::Section(".data".to_owned(), error),
                );
            },
        };
        let pattern = match Pattern::from_bit_pattern(NULL_CHECK_PATTERN) {
            Ok(pattern) => pattern,
            Err(_) => { return SingletonLocator::Failed(SingletonMapError::Pattern); },
        };
        let candidates = collect_candidates(&pattern, text, data);
        if candidates.len() == 0 {
            SingletonLocator::Ready(SingletonMap::new())
        } else {
            SingletonLocator::Building(
                TableBuilder { candidates, next: 0, table: SingletonMap::new() },
            )
        }
    }

    /// What the host is asked to do next, while the table is being built.
    pub fn pending(&self) -> (request: Option<NameRequest>)
        ensures
            request == pending_spec(self@),
    {
        match self {
            SingletonLocator::Building(builder) => {
                proof {
                    use_type_invariant(builder);
                }
                let candidate = builder.candidates[builder.next];
                Some(
                    NameRequest {
                        accessor: candidate.name_accessor,
                        metadata: candidate.metadata_address,
                    },
                )
            },
            _ => None,
        }
    }

    /// Takes the name that the pending request gave, and goes on to the next
    /// candidate, or finishes the table after the last one.
    pub fn supply(self, name: Vec<u8>) -> (locator: SingletonLocator)
        ensures
            locator@ == supply_spec(self@, name@),
    {
        match self {
            SingletonLocator::Building(builder) => {
                proof {
                    use_type_invariant(&builder);
                }
                let TableBuilder { candidates, next, mut table } = builder;
                let count = candidates.len();
                let candidate = candidates[next];
                match string_from_utf8(name) {
                    Some(text) => {
                        table.insert(text, candidate.static_address);
                    },
                    None => {},
                }
                if next + 1 < count {
                    SingletonLocator::Building(TableBuilder { candidates, next: next + 1, table })
                } else {
                    SingletonLocator::Ready(table)
                }
            },
            other => other,
        }
    }
}

/// Begins the build of the table of singletons: scans the code for the
/// null checks and keeps the candidates whose addresses are plausible. The
/// build goes on with the names of the candidates, which the host fetches
/// one by one as `pending` asks for them and hands to `supply`.
pub fn build_singleton_table(
    text: Result<&Section, SectionLookupError>,
    data: Result<SectionRange, SectionLookupError>,
) -> (locator: SingletonLocator)
    ensures
        locator@ == begin_spec(LocatorModel::Uninitialized, section_view(text), data),
{
    SingletonLocator::new().begin(text, data)
}

/// What a lookup of an instance answers.
#[derive(Debug, PartialEq, Eq)]
pub enum InstanceStep {
    /// The table has not been built: the host must drive the locator until
    /// it is ready or has failed, and ask again.
    BuildTable,
    /// The host must read the pointer that the slot holds, and ask again
    /// with that pointer.
    ReadSlot { slot: usize },
    /// The lookup is over: the instance, nothing where no instance is alive,
    /// or why the lookup failed.
    Done(Result<Option<usize>, LookupError>),
}

/// What a lookup answers, as a value that can be compared.
pub enum InstanceStepModel {
    BuildTable,
    ReadSlot { slot: usize },
    Done(Result<Option<usize>, LookupErrorModel>),
}

impl View for InstanceStep {
    type V = InstanceStepModel;

    open spec fn view(&self) -> InstanceStepModel {
        match self {
            InstanceStep::BuildTable => InstanceStepModel::BuildTable,
            InstanceStep::ReadSlot { slot } => InstanceStepModel::ReadSlot { slot: *slot },
            InstanceStep::Done(Ok(instance)) => InstanceStepModel::Done(Ok(*instance)),
            InstanceStep::Done(Err(error)) => InstanceStepModel::Done(Err(error@)),
        }
    }
}

/// The instance that the pointer in a slot stands for: none where the
/// pointer is null.
pub open spec fn instance_of(slot_value: usize) -> Option<usize> {
    if slot_value == 0 {
        None
    } else {
        Some(slot_value)
    }
}

/// What a lookup of the singleton `name` answers, given the state of the
/// locator and, once it has been read, the pointer that the slot holds.
pub open spec fn instance_step(
    locator: LocatorModel,
    name: Seq<char>,
    slot_value: Option<usize>,
) -> InstanceStepModel {
    match locator {
        LocatorModel::Failed(error) => InstanceStepModel::Done(
            Err(LookupErrorModel::SingletonMapCreation(error)),
        ),
        LocatorModel::Ready(table) => if !table.dom().contains(name) {
            InstanceStepModel::Done(Err(LookupErrorModel::NotFound))
        } else {
            match slot_value {
                None => InstanceStepModel::ReadSlot { slot: table[name] },
                Some(value) => InstanceStepModel::Done(Ok(instance_of(value))),
            }
        },
        _ => InstanceStepModel::BuildTable,
    }
}

/// A name that the table lacks is not found, whatever the slot may hold. A
/// name that the table holds is never not found: where its slot holds null
/// there is no instance, and that is no error.
pub proof fn lemma_unknown_and_absent_differ(
    table: Map<Seq<char>, usize>,
    name: Seq<char>,
    slot_value: Option<usize>,
)
    ensures
        !table.dom().contains(name) ==> instance_step(LocatorModel::Ready(table), name, slot_value)
            == InstanceStepModel::Done(Err(LookupErrorModel::NotFound)),
        table.dom().contains(name) ==> instance_step(LocatorModel::Ready(table), name, Some(0))
            == InstanceStepModel::Done(Ok(None)),
        table.dom().contains(name) ==> instance_step(LocatorModel::Ready(table), name, slot_value)
            != InstanceStepModel::Done(Err(LookupErrorModel::NotFound)),
        table.dom().contains(name) && slot_value is Some && slot_value->0 != 0 ==> instance_step(
            LocatorModel::Ready(table),
            name,
            slot_value,
        ) == InstanceStepModel::Done(Ok(slot_value)),
{
}

/// The instance that a pointer read from a slot stands for.
pub fn instance_from_slot(slot_value: usize) -> (instance: Option<usize>)
    ensures
        instance == instance_of(slot_value),
{
    if slot_value == 0 {
        None
    } else {
        Some(slot_value)
    }
}

/// Looks up the instance of the singleton of the given name. Asked without
/// a slot value, it names the slot to read; asked with the pointer that the
/// slot holds, it gives the instance.
pub fn lookup_instance(locator: &SingletonLocator, name: &str, slot_value: Option<usize>) -> (step:
    InstanceStep)
    ensures
        step@ == instance_step(locator@, name@, slot_value),
{
    match locator {
        SingletonLocator::Failed(error) => InstanceStep::Done(
            Err(LookupError::SingletonMapCreation(error.duplicate())),
        ),
        SingletonLocator::Ready(table) => match table.get(name) {
            None => InstanceStep::Done(Err(LookupError::NotFound)),
            Some(slot) => match slot_value {
                None => InstanceStep::ReadSlot { slot },
                Some(value) => InstanceStep::Done(Ok(instance_from_slot(value))),
            },
        },
        _ => InstanceStep::BuildTable,
    }
}

/// Looks up the instance of a singleton by the name that its type gives.
pub fn get_instance<T: DLRFLocatable>(locator: &SingletonLocator, slot_value: Option<usize>) -> (step:
    InstanceStep)
    ensures
        exists|name: &'static str|
            call_ensures(T::name, (), name) && step@ == instance_step(
                locator@,
                name@,
                slot_value,
            ),
{
    lookup_instance(locator, T::name(), slot_value)
}

} // verus!
