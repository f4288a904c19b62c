//! What a patch does on every image of the game's memory.
//!
//! While a patch looks for its node it only reads. This module runs a patch
//! against an image that answers its reads, up to the first request that is
//! not a read, and shows where such a run ends.

use crate::eldenring::{
    EldenRingFxrPatcher, FxrDefinitionIterator, PatchState, PatchStepModel,
    ALLOCATE_SLOT, CONTAINER_LIST_HEAD, FXR_ALIGNMENT, FXR_HEADER_LENGTH, FXR_ID_OFFSET, NODE_ID,
    NODE_NEXT, NODE_WRAPPER, RESOURCE_MANAGER_CONTAINER, SCENE_CTRL_RESOURCE_MANAGER,
    SFX_SCENE_CTRL, WRAPPER_FXR,
};
use crate::protocol::PatchFxrErrorModel;
use crate::resolver::le_u32;
use crate::singleton::LocatorModel;
use crate::target::{field_address, TargetImage, TargetRequest};
use vstd::prelude::*;

verus! {

/// No read is pending: the patch is over, or asks for the table, or asks
/// for something that is not a read.
pub open spec fn settled(step: PatchStepModel) -> bool {
    !(step matches PatchStepModel::Pending { request, .. } && request.is_read())
}

/// The step after the image has answered the read that is pending; a step
/// that is settled stays.
pub open spec fn advance(
    patcher: EldenRingFxrPatcher,
    image: TargetImage,
    step: PatchStepModel,
) -> PatchStepModel {
    match step {
        PatchStepModel::Pending { state, request } => if request.is_read() {
            patcher.resume_spec(state, image.reply(request))
        } else {
            step
        },
        _ => step,
    }
}

/// The step after the image has answered up to `reads` reads.
pub open spec fn run(
    patcher: EldenRingFxrPatcher,
    image: TargetImage,
    step: PatchStepModel,
    reads: nat,
) -> PatchStepModel
    decreases reads,
{
    if reads == 0 {
        step
    } else {
        run(patcher, image, advance(patcher, image, step), (reads - 1) as nat)
    }
}

/// The requests that the image has answered in a run of up to `reads`
/// reads, in their order.
pub open spec fn answered(
    patcher: EldenRingFxrPatcher,
    image: TargetImage,
    step: PatchStepModel,
    reads: nat,
) -> Seq<TargetRequest>
    decreases reads,
{
    if reads == 0 || settled(step) {
        Seq::empty()
    } else {
        seq![step->request] + answered(
            patcher,
            image,
            advance(patcher, image, step),
            (reads - 1) as nat,
        )
    }
}

/// A run asks the game for nothing but reads: it writes nothing, copies
/// nothing and calls nothing.
pub proof fn lemma_run_only_reads(
    patcher: EldenRingFxrPatcher,
    image: TargetImage,
    step: PatchStepModel,
    reads: nat,
    i: int,
)
    requires
        0 <= i < answered(patcher, image, step, reads).len(),
    ensures
        answered(patcher, image, step, reads)[i].is_read(),
    decreases reads,
{
    if i > 0 {
        lemma_run_only_reads(
            patcher,
            image,
            advance(patcher, image, step),
            (reads - 1) as nat,
            i - 1,
        );
    }
}

/// The address of the list and of its nodes: the list itself is number 0,
/// and each further one is what the one before holds as its next.
pub open spec fn node_at(image: TargetImage, container: usize, k: nat) -> usize
    decreases k,
{
    if k == 0 {
        container
    } else {
        (image.pointer_at)(field_address(node_at(image, container, (k - 1) as nat), NODE_NEXT))
    }
}

/// The list is circular and has `n` nodes: the last of them, or the list
/// itself where it has none, holds the list as its next.
pub open spec fn is_circular(image: TargetImage, container: usize, n: nat) -> bool {
    &&& node_at(image, container, n + 1) == container
    &&& forall|k: nat| 1 <= k <= n ==> #[trigger] node_at(image, container, k) != container
}

/// The node has a wrapper and the given identifier.
pub open spec fn holds_definition(image: TargetImage, node: usize, fxr_id: u32) -> bool {
    &&& (image.pointer_at)(field_address(node, NODE_WRAPPER)) != 0
    &&& (image.word_at)(field_address(node, NODE_ID)) == fxr_id
}

/// The step of a patch that is about to read the next of node number `k`.
pub open spec fn at_node(
    image: TargetImage,
    container: usize,
    fxr_id: u32,
    size: usize,
    k: nat,
) -> PatchStepModel {
    EldenRingFxrPatcher::walk(
        fxr_id,
        size,
        FxrDefinitionIterator::Node { container, current: node_at(image, container, k) },
    )
}

/// A settled step stays as it is.
pub proof fn lemma_settled_stays(
    patcher: EldenRingFxrPatcher,
    image: TargetImage,
    step: PatchStepModel,
    reads: nat,
)
    requires
        settled(step),
    ensures
        run(patcher, image, step, reads) == step,
    decreases reads,
{
    if reads > 0 {
        lemma_settled_stays(patcher, image, step, (reads - 1) as nat);
    }
}

/// A run of `a + b` reads is a run of `a` reads and then one of `b`.
pub proof fn lemma_run_splits(
    patcher: EldenRingFxrPatcher,
    image: TargetImage,
    step: PatchStepModel,
    a: nat,
    b: nat,
)
    ensures
        run(patcher, image, step, a + b) == run(patcher, image, run(patcher, image, step, a), b),
    decreases a,
{
    if a > 0 {
        lemma_run_splits(patcher, image, advance(patcher, image, step), (a - 1) as nat, b);
    }
}

/// A run that has settled has settled for every greater number of reads.
pub proof fn lemma_settled_run_stays(
    patcher: EldenRingFxrPatcher,
    image: TargetImage,
    step: PatchStepModel,
    reads: nat,
    more: nat,
)
    requires
        settled(run(patcher, image, step, reads)),
        reads <= more,
    ensures
        run(patcher, image, step, more) == run(patcher, image, step, reads),
{
    lemma_run_splits(patcher, image, step, reads, (more - reads) as nat);
    lemma_settled_stays(
        patcher,
        image,
        run(patcher, image, step, reads),
        (more - reads) as nat,
    );
}

/// From a node of the list the patch needs at most three reads to reach
/// the next node, or to settle. The result is the number of reads.
proof fn lemma_one_node(
    patcher: EldenRingFxrPatcher,
    image: TargetImage,
    container: usize,
    fxr_id: u32,
    size: usize,
    n: nat,
    k: nat,
) -> (reads: nat)
    requires
        is_circular(image, container, n),
        k <= n,
    ensures
        1 <= reads <= 3,
        k == n ==> reads == 1,
        k == n ==> run(patcher, image, at_node(image, container, fxr_id, size, k), reads)
            == PatchStepModel::Done(Ok(())),
        k < n && holds_definition(image, node_at(image, container, k + 1), fxr_id) ==> settled(
            run(patcher, image, at_node(image, container, fxr_id, size, k), reads),
        ) && !(run(patcher, image, at_node(image, container, fxr_id, size, k), reads)
            is Done),
        k < n && !holds_definition(image, node_at(image, container, k + 1), fxr_id) ==> run(
            patcher,
            image,
            at_node(image, container, fxr_id, size, k),
            reads,
        ) == at_node(image, container, fxr_id, size, k + 1),
{
    let start = at_node(image, container, fxr_id, size, k);
    let next = node_at(image, container, k + 1);
    let first = advance(patcher, image, start);
    let second = advance(patcher, image, first);
    let third = advance(patcher, image, second);
    assert(run(patcher, image, start, 1) == first) by {
        assert(run(patcher, image, first, 0) == first);
    }
    assert(run(patcher, image, start, 2) == second) by {
        assert(run(patcher, image, second, 0) == second);
        assert(run(patcher, image, first, 1) == second);
    }
    assert(run(patcher, image, start, 3) == third) by {
        assert(run(patcher, image, third, 0) == third);
        assert(run(patcher, image, second, 1) == third);
        assert(run(patcher, image, first, 2) == third);
    }
    assert(next == (image.pointer_at)(field_address(node_at(image, container, k), NODE_NEXT)));
    if k < n {
        assert(node_at(image, container, (k + 1) as nat) != container);
        let wrapper = (image.pointer_at)(field_address(next, NODE_WRAPPER));
        if wrapper != 0 {
            let id = (image.word_at)(field_address(next, NODE_ID));
            assert(image.reply(TargetRequest::ReadU32 { address: field_address(next, NODE_ID) })
                == id);
            3
        } else {
            2
        }
    } else {
        1
    }
}

/// A list whose nexts lead back to the list itself is circular: the first
/// return closes it.
pub proof fn lemma_first_return_closes(image: TargetImage, container: usize, m: nat) -> (n: nat)
    requires
        node_at(image, container, m + 1) == container,
    ensures
        n <= m,
        is_circular(image, container, n),
    decreases m,
{
    if forall|k: nat| 1 <= k <= m ==> #[trigger] node_at(image, container, k) != container {
        m
    } else {
        let k = choose|k: nat| 1 <= k <= m && #[trigger] node_at(image, container, k) == container;
        lemma_first_return_closes(image, container, (k - 1) as nat)
    }
}

/// The walk over a list comes to an end whenever the nexts, from the list
/// itself on, lead back to the list: where the next after `m` steps is the
/// list, no read is pending after three reads for each step and one more.
/// That holds of a list without nodes, which is its own next, too.
pub proof fn lemma_walk_terminates(
    patcher: EldenRingFxrPatcher,
    image: TargetImage,
    container: usize,
    fxr_id: u32,
    size: usize,
    m: nat,
)
    requires
        node_at(image, container, m + 1) == container,
    ensures
        settled(run(patcher, image, at_node(image, container, fxr_id, size, 0), 3 * m + 1)),
{
    let n = lemma_first_return_closes(image, container, m);
    lemma_walk_settles_from(patcher, image, container, fxr_id, size, n, 0);
    lemma_settled_run_stays(
        patcher,
        image,
        at_node(image, container, fxr_id, size, 0),
        3 * n + 1,
        3 * m + 1,
    );
}

proof fn lemma_walk_settles_from(
    patcher: EldenRingFxrPatcher,
    image: TargetImage,
    container: usize,
    fxr_id: u32,
    size: usize,
    n: nat,
    k: nat,
)
    requires
        is_circular(image, container, n),
        k <= n,
    ensures
        settled(
            run(
                patcher,
                image,
                at_node(image, container, fxr_id, size, k),
                (3 * (n - k) + 1) as nat,
            ),
        ),
    decreases n - k,
{
    let start = at_node(image, container, fxr_id, size, k);
    let budget = (3 * (n - k) + 1) as nat;
    let reads = lemma_one_node(patcher, image, container, fxr_id, size, n, k);
    if k == n || holds_definition(image, node_at(image, container, k + 1), fxr_id) {
        lemma_settled_run_stays(patcher, image, start, reads, budget);
    } else {
        let rest = (3 * (n - k - 1) + 1) as nat;
        lemma_walk_settles_from(patcher, image, container, fxr_id, size, n, k + 1);
        lemma_run_splits(patcher, image, start, reads, rest);
        lemma_settled_run_stays(patcher, image, start, reads + rest, budget);
    }
}

/// Where no node of a circular list holds a definition with the identifier
/// of the payload, the walk ends the patch with success, and on the way the
/// patch has asked for nothing but reads: nothing in the game was written,
/// and none of its functions was called.
pub proof fn lemma_unknown_identifier_ends_the_walk(
    patcher: EldenRingFxrPatcher,
    image: TargetImage,
    container: usize,
    fxr_id: u32,
    size: usize,
    n: nat,
)
    requires
        is_circular(image, container, n),
        forall|k: nat|
            1 <= k <= n ==> !holds_definition(image, #[trigger] node_at(image, container, k), fxr_id),
    ensures
        run(patcher, image, at_node(image, container, fxr_id, size, 0), 3 * n + 1)
            == PatchStepModel::Done(Ok(())),
{
    lemma_unknown_identifier_from(patcher, image, container, fxr_id, size, n, 0);
}

proof fn lemma_unknown_identifier_from(
    patcher: EldenRingFxrPatcher,
    image: TargetImage,
    container: usize,
    fxr_id: u32,
    size: usize,
    n: nat,
    k: nat,
)
    requires
        is_circular(image, container, n),
        k <= n,
        forall|j: nat|
            1 <= j <= n ==> !holds_definition(image, #[trigger] node_at(image, container, j), fxr_id),
    ensures
        run(
            patcher,
            image,
            at_node(image, container, fxr_id, size, k),
            (3 * (n - k) + 1) as nat,
        ) == PatchStepModel::Done(Ok(())),
    decreases n - k,
{
    let start = at_node(image, container, fxr_id, size, k);
    let budget = (3 * (n - k) + 1) as nat;
    let reads = lemma_one_node(patcher, image, container, fxr_id, size, n, k);
    if k == n {
        lemma_settled_run_stays(patcher, image, start, reads, budget);
    } else {
        assert(!holds_definition(image, node_at(image, container, k + 1), fxr_id));
        let rest = (3 * (n - k - 1) + 1) as nat;
        lemma_unknown_identifier_from(patcher, image, container, fxr_id, size, n, k + 1);
        lemma_run_splits(patcher, image, start, reads, rest);
        lemma_settled_run_stays(patcher, image, start, reads + rest, budget);
    }
}

/// The list that the effects manager at `sfx` leads to.
pub open spec fn list_of(image: TargetImage, sfx: usize) -> usize {
    let scene_ctrl = (image.pointer_at)(field_address(sfx, SFX_SCENE_CTRL));
    let manager = (image.pointer_at)(field_address(scene_ctrl, SCENE_CTRL_RESOURCE_MANAGER));
    let resources = (image.pointer_at)(field_address(manager, RESOURCE_MANAGER_CONTAINER));
    (image.pointer_at)(field_address(resources, CONTAINER_LIST_HEAD))
}

/// The identifier that a payload carries in its header.
pub open spec fn payload_id(payload: Seq<u8>) -> u32 {
    le_u32(payload.subrange(FXR_ID_OFFSET as int, FXR_ID_OFFSET + 4)) as u32
}

/// A patch whose identifier is that of no definition in the list changes
/// nothing. Given a table that knows the effects manager, an instance of
/// it that is alive, and a circular list of `n` nodes none of which holds a
/// definition with the identifier of the payload, the patch ends with
/// success after reads alone.
pub proof fn lemma_patch_of_unknown_identifier_is_a_no_op(
    patcher: EldenRingFxrPatcher,
    table: Map<Seq<char>, usize>,
    image: TargetImage,
    payload: Seq<u8>,
    n: nat,
)
    requires
        FXR_HEADER_LENGTH <= payload.len() <= usize::MAX,
        table.dom().contains("CSSfx"@),
        (image.pointer_at)(table["CSSfx"@]) != 0,
        is_circular(image, list_of(image, (image.pointer_at)(table["CSSfx"@])), n),
        forall|k: nat|
            1 <= k <= n ==> !holds_definition(
                image,
                #[trigger] node_at(image, list_of(image, (image.pointer_at)(table["CSSfx"@])), k),
                payload_id(payload),
            ),
    ensures
        run(
            patcher,
            image,
            EldenRingFxrPatcher::begin_spec(LocatorModel::Ready(table), payload),
            3 * n + 6,
        ) == PatchStepModel::Done(Ok(())),
{
    let sfx = (image.pointer_at)(table["CSSfx"@]);
    let container = list_of(image, sfx);
    let fxr_id = payload_id(payload);
    let size = payload.len() as usize;
    let start = EldenRingFxrPatcher::begin_spec(LocatorModel::Ready(table), payload);
    let s1 = advance(patcher, image, start);
    let s2 = advance(patcher, image, s1);
    let s3 = advance(patcher, image, s2);
    let s4 = advance(patcher, image, s3);
    let s5 = advance(patcher, image, s4);
    assert(s5 == at_node(image, container, fxr_id, size, 0));
    assert(run(patcher, image, start, 5) == s5) by {
        assert(run(patcher, image, s5, 0) == s5);
        assert(run(patcher, image, s4, 1) == s5);
        assert(run(patcher, image, s3, 2) == s5);
        assert(run(patcher, image, s2, 3) == s5);
        assert(run(patcher, image, s1, 4) == s5);
    }
    lemma_run_splits(patcher, image, start, 5, 3 * n + 1);
    lemma_unknown_identifier_ends_the_walk(patcher, image, container, fxr_id, size, n);
}

/// What is done to the node that holds the definition with the identifier
/// of the payload, whatever the game answers: the allocator is fetched, its
/// allocating function is read from its dispatch table and called with the
/// allocator, the length of the payload and the alignment, the payload is
/// copied into the new memory, the function that patches offsets is called
/// with the new memory three times over, the function that prepares it is
/// called with the new memory, the wrapper of the node is made to point to
/// the new memory, and the patch is over.
pub proof fn lemma_patch_sequence(
    patcher: EldenRingFxrPatcher,
    state: PatchState,
    allocator: usize,
    dispatch_table: usize,
    allocate: usize,
    allocation: usize,
    copied: usize,
    patched: usize,
    prepared: usize,
    written: usize,
)
    requires
        state.stage is Id,
    ensures
        ({
            let wrapper = state.stage->Id_wrapper;
            let found = patcher.resume_spec(state, state.fxr_id as usize);
            let fetched = patcher.resume_spec(found->state, allocator);
            let read_table = patcher.resume_spec(fetched->state, dispatch_table);
            let read_function = patcher.resume_spec(read_table->state, allocate);
            let allocated = patcher.resume_spec(read_function->state, allocation);
            let copy = patcher.resume_spec(allocated->state, copied);
            let patch = patcher.resume_spec(copy->state, patched);
            let prepare = patcher.resume_spec(patch->state, prepared);
            let swap = patcher.resume_spec(prepare->state, written);
            &&& found is Pending && found->request == (TargetRequest::CallNoArgs {
                function: patcher.fxr_allocator_getter,
            })
            &&& fetched is Pending && fetched->request == (TargetRequest::ReadPointer {
                address: allocator,
            })
            &&& read_table is Pending && read_table->request == (TargetRequest::ReadPointer {
                address: field_address(dispatch_table, ALLOCATE_SLOT),
            })
            &&& read_function is Pending && read_function->request
                == (TargetRequest::CallThreeArgs {
                function: allocate,
                first: allocator,
                second: state.size,
                third: FXR_ALIGNMENT,
            })
            &&& allocated is Pending && allocated->request == (TargetRequest::CopyPayload {
                destination: allocation,
                length: state.size,
            })
            &&& copy is Pending && copy->request == (TargetRequest::CallThreeArgs {
                function: patcher.patch_fxr_offset,
                first: allocation,
                second: allocation,
                third: allocation,
            })
            &&& patch is Pending && patch->request == (TargetRequest::CallOneArg {
                function: patcher.prepare_fxr,
                argument: allocation,
            })
            &&& prepare is Pending && prepare->request == (TargetRequest::WritePointer {
                address: field_address(wrapper, WRAPPER_FXR),
                value: allocation,
            })
            &&& swap == PatchStepModel::Done(Ok(()))
        }),
{
}

/// A payload that is shorter than its header is refused whatever the state
/// of the locator, and nothing is asked of the game.
pub proof fn lemma_short_payload_is_refused(locator: LocatorModel, payload: Seq<u8>)
    requires
        payload.len() < FXR_HEADER_LENGTH,
    ensures
        EldenRingFxrPatcher::begin_spec(locator, payload) == PatchStepModel::Done(
            Err(PatchFxrErrorModel::InvalidFxr),
        ),
{
}

} // verus!
