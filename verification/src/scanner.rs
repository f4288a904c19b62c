//! Sliding a compiled pattern over a region of bytes.

use crate::pattern::{CaptureGroup, Pattern, PatternModel};
use vstd::prelude::*;

verus! {

/// The bytes of one capture of a match, and where they start.
#[derive(Debug, Clone, PartialEq, Eq)]
pub struct PatternCapture {
    pub location: usize,
    pub bytes: Vec<u8>,
}

/// One match: where it starts, and its captures in the order in which the
/// pattern declares them.
#[derive(Debug, Clone, PartialEq, Eq)]
pub struct PatternResult {
    pub location: usize,
    pub captures: Vec<PatternCapture>,
}

/// A capture, with its bytes as a sequence.
pub struct CaptureModel {
    pub location: int,
    pub bytes: Seq<u8>,
}

/// A match, with its captures as a sequence.
pub struct MatchModel {
    pub location: int,
    pub captures: Seq<CaptureModel>,
}

impl View for PatternCapture {
    type V = CaptureModel;

    open spec fn view(&self) -> CaptureModel {
        CaptureModel { location: self.location as int, bytes: self.bytes@ }
    }
}

impl View for PatternResult {
    type V = MatchModel;

    open spec fn view(&self) -> MatchModel {
        MatchModel {
            location: self.location as int,
            captures: Seq::new(self.captures@.len(), |k: int| self.captures@[k]@),
        }
    }
}

/// A byte meets a descriptor when its fixed bits have the declared values.
pub open spec fn byte_matches(value: u8, mask: u8, byte: u8) -> bool {
    byte & mask == value
}

/// The pattern matches the region at `offset`: the region holds all of the
/// pattern's bytes from there on, and each meets its descriptor.
pub open spec fn matches_at(p: PatternModel, region: Seq<u8>, offset: int) -> bool {
    &&& 0 <= offset
    &&& offset + p.len() <= region.len()
    &&& forall|i: int|
        0 <= i < p.len() ==> byte_matches(p.values[i], #[trigger] p.masks[i], region[offset + i])
}

/// The match of the pattern at `offset`: each capture starts where its span
/// starts and holds the region's bytes of that span.
pub open spec fn match_at(p: PatternModel, region: Seq<u8>, offset: int) -> MatchModel {
    MatchModel {
        location: offset,
        captures: Seq::new(
            p.captures.len(),
            |k: int|
                CaptureModel {
                    location: offset + p.captures[k].0,
                    bytes: region.subrange(offset + p.captures[k].0, offset + p.captures[k].1),
                },
        ),
    }
}

/// The offsets are matches, one after the other without overlap, and they
/// leave no match out of account: each match starts inside the `length`
/// bytes that one of them occupies.
pub open spec fn covers(is_match: spec_fn(int) -> bool, length: int, offsets: Seq<int>) -> bool {
    &&& forall|k: int| 0 <= k < offsets.len() ==> #[trigger] holds_at(is_match, offsets, k)
    &&& forall|j: int, k: int|
        0 <= j < k < offsets.len() ==> (#[trigger] offsets[j]) + length <= (#[trigger] offsets[k])
    &&& forall|o: int| #[trigger]
        is_match(o) ==> exists|k: int|
            0 <= k < offsets.len() && (#[trigger] offsets[k]) <= o < offsets[k] + length
}

/// The predicate holds of the offset with index `k`.
pub open spec fn holds_at(is_match: spec_fn(int) -> bool, offsets: Seq<int>, k: int) -> bool {
    is_match(offsets[k])
}

/// Whether the pattern matches the region, as a predicate of the offset.
pub open spec fn matches_of(p: PatternModel, region: Seq<u8>) -> spec_fn(int) -> bool {
    |o: int| matches_at(p, region, o)
}

/// The matches at `offsets` cover the matches of the pattern in the region.
pub open spec fn covers_matches(p: PatternModel, region: Seq<u8>, offsets: Seq<int>) -> bool {
    covers(matches_of(p, region), p.len(), offsets)
}

/// The offsets that cover the matches of the pattern in the region. There is
/// one such sequence and no other: see `lemma_covering_offsets_are_unique`.
pub open spec fn scan_offsets(p: PatternModel, region: Seq<u8>) -> Seq<int> {
    choose|offsets: Seq<int>| covers_matches(p, region, offsets)
}

/// What a scan for the first match may answer: the match at the least offset
/// at which the pattern matches, or nothing where it matches nowhere.
pub open spec fn first_match(p: PatternModel, region: Seq<u8>, found: Option<MatchModel>) -> bool {
    match found {
        Some(m) => {
            &&& matches_at(p, region, m.location)
            &&& forall|o: int| o < m.location ==> !matches_at(p, region, o)
            &&& m == match_at(p, region, m.location)
        },
        None => forall|o: int| !matches_at(p, region, o),
    }
}

/// Whether the pattern matches the region anywhere.
pub open spec fn has_match(p: PatternModel, region: Seq<u8>) -> bool {
    exists|o: int| matches_at(p, region, o)
}

/// The least offset at which the pattern matches the region.
pub open spec fn first_offset(p: PatternModel, region: Seq<u8>) -> int {
    choose|o: int| matches_at(p, region, o) && forall|x: int| x < o ==> !matches_at(p, region, x)
}

/// The first match of the pattern in the region, if it matches anywhere.
pub open spec fn first_match_of(p: PatternModel, region: Seq<u8>) -> Option<MatchModel> {
    if has_match(p, region) {
        Some(match_at(p, region, first_offset(p, region)))
    } else {
        None
    }
}

/// A scan for the first match has one answer and no other.
pub proof fn lemma_first_match_is_unique(
    p: PatternModel,
    region: Seq<u8>,
    found: Option<MatchModel>,
)
    requires
        first_match(p, region, found),
    ensures
        found == first_match_of(p, region),
{
    match found {
        Some(m) => {
            assert(matches_at(p, region, m.location));
            let o = first_offset(p, region);
            assert(matches_at(p, region, o) && forall|x: int| x < o ==> !matches_at(p, region, x));
            assert(o == m.location);
        },
        None => {},
    }
}

/// What a scan found, as a value that can be compared.
pub open spec fn result_view(found: Option<PatternResult>) -> Option<MatchModel> {
    match found {
        Some(result) => Some(result@),
        None => None,
    }
}

/// The offsets at which the matches start.
pub open spec fn locations(results: Seq<PatternResult>) -> Seq<int> {
    Seq::new(results.len(), |k: int| results[k].location as int)
}

fn copy_range(region: &[u8], start: usize, end: usize) -> (bytes: Vec<u8>)
    requires
        start <= end <= region@.len(),
    ensures
        bytes@ == region@.subrange(start as int, end as int),
{
    let mut bytes: Vec<u8> = Vec::new();
    let mut i: usize = start;
    while i < end
        invariant
            start <= i <= end <= region@.len(),
            bytes@ == region@.subrange(start as int, i as int),
        decreases end - i,
    {
        bytes.push(region[i]);
        i = i + 1;
    }
    bytes
}

/// Whether the pattern matches the region at `offset`.
pub fn matches_here(region: &[u8], pattern: &Pattern, offset: usize) -> (matched: bool)
    ensures
        matched == matches_at(pattern@, region@, offset as int),
{
    proof {
        use_type_invariant(pattern);
        pattern.lemma_well_formed();
    }
    let length = pattern.len();
    if offset > region.len() || region.len() - offset < length {
        return false;
    }
    let mut i: usize = 0;
    while i < length
        invariant
            pattern@.well_formed(),
            length == pattern@.len(),
            i <= length,
            offset + length <= region@.len() <= usize::MAX,
            forall|j: int|
                0 <= j < i ==> byte_matches(
                    pattern@.values[j],
                    #[trigger] pattern@.masks[j],
                    region@[offset + j],
                ),
        decreases length - i,
    {
        let (value, mask) = pattern.byte(i).unwrap();
        if region[offset + i] & mask != value {
            return false;
        }
        i = i + 1;
    }
    true
}

/// The match at `offset`, with its captures cut out of the region.
fn extract(region: &[u8], pattern: &Pattern, offset: usize) -> (result: PatternResult)
    requires
        offset + pattern@.len() <= region@.len() <= usize::MAX,
    ensures
        result@ == match_at(pattern@, region@, offset as int),
        result.location == offset,
{
    proof {
        use_type_invariant(pattern);
        pattern.lemma_well_formed();
    }
    let count = pattern.capture_count();
    let mut captures: Vec<PatternCapture> = Vec::new();
    let mut k: usize = 0;
    while k < count
        invariant
            pattern@.well_formed(),
            offset + pattern@.len() <= region@.len() <= usize::MAX,
            count == pattern@.captures.len(),
            k <= count,
            captures@.len() == k,
            forall|j: int|
                0 <= j < k ==> (#[trigger] captures@[j])@ == match_at(
                    pattern@,
                    region@,
                    offset as int,
                ).captures[j],
        decreases count - k,
    {
        let group: CaptureGroup = pattern.capture_group(k).unwrap();
        assert(0 <= pattern@.captures[k as int].0 < pattern@.captures[k as int].1
            <= pattern@.len());
        let bytes = copy_range(region, offset + group.start, offset + group.end);
        captures.push(PatternCapture { location: offset + group.start, bytes });
        k = k + 1;
    }
    let result = PatternResult { location: offset, captures };
    assert(result@.captures =~= match_at(pattern@, region@, offset as int).captures);
    result
}

/// The first match of the pattern in the region, scanning forward from the
/// start; `None` where the pattern matches nowhere.
pub fn scan(region: &[u8], pattern: &Pattern) -> (found: Option<PatternResult>)
    ensures
        first_match(pattern@, region@, result_view(found)),
        result_view(found) == first_match_of(pattern@, region@),
{
    let found = scan_forward(region, pattern);
    proof {
        lemma_first_match_is_unique(pattern@, region@, result_view(found));
    }
    found
}

fn scan_forward(region: &[u8], pattern: &Pattern) -> (found: Option<PatternResult>)
    ensures
        first_match(pattern@, region@, result_view(found)),
{
    proof {
        use_type_invariant(pattern);
        pattern.lemma_well_formed();
    }
    let length = pattern.len();
    if region.len() < length {
        return None;
    }
    let last = region.len() - length;
    let mut offset: usize = 0;
    while offset <= last
        invariant
            length == pattern@.len(),
            length >= 1,
            last + length == region@.len() <= usize::MAX,
            offset <= last + 1,
            forall|o: int| o < offset ==> !matches_at(pattern@, region@, o),
        decreases last + 1 - offset,
    {
        if matches_here(region, pattern, offset) {
            return Some(extract(region, pattern, offset));
        }
        offset = offset + 1;
    }
    None
}

/// Every match of the pattern in the region, scanning forward from the start
/// and going on behind each match, so that no two of them overlap.
pub fn scan_all(region: &[u8], pattern: &Pattern) -> (found: Vec<PatternResult>)
    ensures
        covers_matches(pattern@, region@, locations(found@)),
        locations(found@) == scan_offsets(pattern@, region@),
        forall|k: int|
            0 <= k < found@.len() ==> (#[trigger] found@[k])@ == match_at(
                pattern@,
                region@,
                found@[k].location as int,
            ),
{
    proof {
        use_type_invariant(pattern);
        pattern.lemma_well_formed();
    }
    let mut found: Vec<PatternResult> = Vec::new();
    let length = pattern.len();
    if region.len() < length {
        proof {
            assert forall|o: int| #[trigger] matches_of(pattern@, region@)(o) implies false by {
                assert(!matches_at(pattern@, region@, o));
            }
            lemma_covering_offsets_are_unique(
                pattern@,
                region@,
                locations(found@),
                scan_offsets(pattern@, region@),
            );
        }
        return found;
    }
    let last = region.len() - length;
    let mut offset: usize = 0;
    while offset <= last
        invariant
            length == pattern@.len(),
            length >= 1,
            last + length == region@.len() <= usize::MAX,
            forall|k: int|
                0 <= k < found@.len() ==> {
                    &&& matches_at(pattern@, region@, (#[trigger] found@[k]).location as int)
                    &&& found@[k]@ == match_at(pattern@, region@, found@[k].location as int)
                    &&& found@[k].location + length <= offset
                },
            forall|j: int, k: int|
                0 <= j < k < found@.len() ==> (#[trigger] found@[j]).location + length <= (
                #[trigger] found@[k]).location,
            forall|o: int|
                o < offset && #[trigger] matches_at(pattern@, region@, o) ==> exists|k: int|
                    0 <= k < found@.len() && (#[trigger] found@[k]).location <= o
                        < found@[k].location + length,
        decreases region@.len() - offset,
    {
        if matches_here(region, pattern, offset) {
            let result = extract(region, pattern, offset);
            let ghost before = found@;
            found.push(result);
            proof {
                assert(found@[before.len() as int].location == offset);
                assert forall|o: int|
                    o < offset + length && #[trigger] matches_at(pattern@, region@, o) implies exists|
                    k: int,
                |
                    0 <= k < found@.len() && (#[trigger] found@[k]).location <= o
                        < found@[k].location + length by {
                    if o < offset {
                        let k = choose|k: int|
                            0 <= k < before.len() && (#[trigger] before[k]).location <= o
                                < before[k].location + length;
                        assert(found@[k] == before[k]);
                    } else {
                        assert(found@[before.len() as int].location <= o);
                    }
                }
            }
            offset = offset + length;
        } else {
            offset = offset + 1;
        }
    }
    proof {
        let offsets = locations(found@);
        let is_match = matches_of(pattern@, region@);
        assert forall|o: int| #[trigger] is_match(o) implies exists|k: int|
            0 <= k < offsets.len() && (#[trigger] offsets[k]) <= o < offsets[k] + pattern@.len() by {
            assert(matches_at(pattern@, region@, o));
            let k = choose|k: int|
                0 <= k < found@.len() && (#[trigger] found@[k]).location <= o < found@[k].location
                    + length;
            assert(offsets[k] == found@[k].location);
        }
        assert forall|k: int| 0 <= k < offsets.len() implies #[trigger] holds_at(
            is_match,
            offsets,
            k,
        ) by {
            assert(matches_at(pattern@, region@, found@[k].location as int));
        }
        lemma_covering_offsets_are_unique(
            pattern@,
            region@,
            offsets,
            scan_offsets(pattern@, region@),
        );
    }
    found
}

/// Two scans of one region for one pattern that both cover its matches
/// report the same offsets: the contract of `scan_all` leaves no choice.
pub proof fn lemma_covering_offsets_are_unique(
    p: PatternModel,
    region: Seq<u8>,
    a: Seq<int>,
    b: Seq<int>,
)
    requires
        covers_matches(p, region, a),
        covers_matches(p, region, b),
    ensures
        a == b,
{
    let is_match = matches_of(p, region);
    lemma_common_prefix(is_match, p.len(), a, b, a.len());
    lemma_common_prefix(is_match, p.len(), b, a, b.len());
    assert(a =~= b);
}

proof fn lemma_common_prefix(
    is_match: spec_fn(int) -> bool,
    length: int,
    a: Seq<int>,
    b: Seq<int>,
    n: nat,
)
    requires
        covers(is_match, length, a),
        covers(is_match, length, b),
        length >= 0,
        n <= a.len(),
    ensures
        n <= b.len(),
        forall|k: int| 0 <= k < n ==> a[k] == b[k],
    decreases n,
{
    if n > 0 {
        lemma_common_prefix(is_match, length, a, b, (n - 1) as nat);
        let k = n - 1;
        assert(holds_at(is_match, a, k));
        let m = choose|m: int| 0 <= m < b.len() && (#[trigger] b[m]) <= a[k] < b[m] + length;
        if m < k {
            assert(a[m] == b[m]);
            assert(a[m] + length <= a[k]);
        }
        assert(holds_at(is_match, b, k));
        let j = choose|j: int| 0 <= j < a.len() && (#[trigger] a[j]) <= b[k] < a[j] + length;
        if j < k {
            assert(a[j] == b[j]);
            assert(b[j] + length <= b[k]);
        }
        if k < m {
            assert(b[k] + length <= b[m]);
        }
        if k < j {
            assert(a[k] + length <= a[j]);
        }
    }
}

/// Where no two matches of the region overlap, a scan that covers the
/// matches reports every offset at which the pattern matches, and no other.
pub proof fn lemma_scan_all_reports_every_match(
    p: PatternModel,
    region: Seq<u8>,
    offsets: Seq<int>,
    o: int,
)
    requires
        covers_matches(p, region, offsets),
        forall|x: int, y: int|
            x < y && #[trigger] matches_at(p, region, x) && #[trigger] matches_at(p, region, y)
                ==> x + p.len() <= y,
    ensures
        offsets.contains(o) <==> matches_at(p, region, o),
{
    let is_match = matches_of(p, region);
    if matches_at(p, region, o) {
        assert(is_match(o));
        let k = choose|k: int|
            0 <= k < offsets.len() && (#[trigger] offsets[k]) <= o < offsets[k] + p.len();
        assert(holds_at(is_match, offsets, k));
        assert(matches_at(p, region, offsets[k]));
        assert(offsets[k] == o);
    }
    if offsets.contains(o) {
        let k = choose|k: int| 0 <= k < offsets.len() && offsets[k] == o;
        assert(holds_at(is_match, offsets, k));
    }
}

/// Bytes that meet the pattern, embedded in a region at an offset before
/// which the pattern does not match, come back as the first match, and each
/// capture holds exactly the embedded bytes of its span.
pub proof fn lemma_capture_round_trip(
    p: PatternModel,
    before: Seq<u8>,
    embedded: Seq<u8>,
    after: Seq<u8>,
    found: Option<MatchModel>,
    k: int,
)
    requires
        p.well_formed(),
        matches_at(p, embedded, 0),
        embedded.len() == p.len(),
        forall|o: int| o < before.len() ==> !matches_at(p, before + embedded + after, o),
        first_match(p, before + embedded + after, found),
        0 <= k < p.captures.len(),
    ensures
        found is Some,
        found->0.location == before.len(),
        found->0.captures.len() == p.captures.len(),
        found->0.captures[k].location == before.len() + p.captures[k].0,
        found->0.captures[k].bytes == embedded.subrange(p.captures[k].0, p.captures[k].1),
{
    let region = before + embedded + after;
    let at = before.len() as int;
    assert forall|i: int| 0 <= i < p.len() implies byte_matches(
        p.values[i],
        #[trigger] p.masks[i],
        region[at + i],
    ) by {
        assert(region[at + i] == embedded[0 + i]);
    }
    assert(matches_at(p, region, at));
    assert(region.subrange(at + p.captures[k].0, at + p.captures[k].1) =~= embedded.subrange(
        p.captures[k].0,
        p.captures[k].1,
    ));
}

/// Whether bit `i` of `byte` is set; bit 0 is the least significant.
pub open spec fn bit_is_set(byte: u8, i: u8) -> bool {
    (byte >> i) & 1 == 1
}

/// Bit `i` of the byte has the declared value where the descriptor fixes it.
pub open spec fn bit_agrees(value: u8, mask: u8, byte: u8, i: u8) -> bool {
    bit_is_set(mask, i) ==> (bit_is_set(byte, i) <==> bit_is_set(value, i))
}

/// A byte meets a descriptor exactly when each bit that the descriptor fixes
/// has the declared value; the bits that it leaves open do not count.
pub proof fn lemma_byte_matches_bit_by_bit(value: u8, mask: u8, byte: u8)
    requires
        value & !mask == 0,
    ensures
        byte_matches(value, mask, byte) <==> forall|i: u8| i < 8 ==> bit_agrees(value, mask, byte, i),
{
    assert(value & !mask == 0 ==> (byte & mask == value <==> {
        &&& ((mask >> 0u8) & 1 == 1 ==> ((byte >> 0u8) & 1 == 1 <==> (value >> 0u8) & 1 == 1))
        &&& ((mask >> 1u8) & 1 == 1 ==> ((byte >> 1u8) & 1 == 1 <==> (value >> 1u8) & 1 == 1))
        &&& ((mask >> 2u8) & 1 == 1 ==> ((byte >> 2u8) & 1 == 1 <==> (value >> 2u8) & 1 == 1))
        &&& ((mask >> 3u8) & 1 == 1 ==> ((byte >> 3u8) & 1 == 1 <==> (value >> 3u8) & 1 == 1))
        &&& ((mask >> 4u8) & 1 == 1 ==> ((byte >> 4u8) & 1 == 1 <==> (value >> 4u8) & 1 == 1))
        &&& ((mask >> 5u8) & 1 == 1 ==> ((byte >> 5u8) & 1 == 1 <==> (value >> 5u8) & 1 == 1))
        &&& ((mask >> 6u8) & 1 == 1 ==> ((byte >> 6u8) & 1 == 1 <==> (value >> 6u8) & 1 == 1))
        &&& ((mask >> 7u8) & 1 == 1 ==> ((byte >> 7u8) & 1 == 1 <==> (value >> 7u8) & 1 == 1))
    })) by (bit_vector);
    if byte_matches(value, mask, byte) {
        assert forall|i: u8| i < 8 implies bit_agrees(value, mask, byte, i) by {
            assert(i == 0 || i == 1 || i == 2 || i == 3 || i == 4 || i == 5 || i == 6 || i == 7);
        }
    }
    if forall|i: u8| i < 8 ==> bit_agrees(value, mask, byte, i) {
        assert(bit_agrees(value, mask, byte, 0));
        assert(bit_agrees(value, mask, byte, 1));
        assert(bit_agrees(value, mask, byte, 2));
        assert(bit_agrees(value, mask, byte, 3));
        assert(bit_agrees(value, mask, byte, 4));
        assert(bit_agrees(value, mask, byte, 5));
        assert(bit_agrees(value, mask, byte, 6));
        assert(bit_agrees(value, mask, byte, 7));
    }
}

} // verus!
