//! Replacing an effect definition in the memory of Elden Ring.
//!
//! The effects manager of the game owns a circular list of definitions. The
//! patcher looks for the node of the definition with the identifier of the
//! payload, has the game allocate memory of its own for the payload and
//! prepare it, and lets the node's wrapper point to the new memory.
//!
//! The patcher decides; the host acts. Each step takes the reply to the
//! request before and gives the next request, or the result.

use crate::idioms::{GET_ALLOCATOR_PATTERN, PATCH_OFFSETS_PATTERN, WTF_FXR_PATTERN};
use crate::protocol::{LookupErrorModel, PatchFxrError, PatchFxrErrorModel};
use crate::resolver::{le_u32, read_u32_le, resolve_relative, resolved_address, wrap_address};
use crate::scanner::MatchModel;
use crate::section::{find_idiom, located_idiom, Section, SectionModel};
use crate::singleton::{
    get_instance, instance_from_slot, instance_of, DLRFLocatable, InstanceStep, LocatorModel,
    SingletonLocator,
};
use crate::target::{field, field_address, TargetRequest};
use vstd::prelude::*;
use vstd::string::StringSliceAdditionalSpecFns;

verus! {

/// The least length of a payload: its header.
pub const FXR_HEADER_LENGTH: usize = 0x10;

/// Where in the header the identifier of the definition stands.
pub const FXR_ID_OFFSET: usize = 0xc;

/// The alignment that is asked of the game's allocator.
pub const FXR_ALIGNMENT: usize = 0x10;

/// Where in the dispatch table of the allocator its allocating function
/// stands.
pub const ALLOCATE_SLOT: usize = 0x50;

/// Where the effects manager holds the pointer to its scene control.
pub const SFX_SCENE_CTRL: usize = 0x60;

/// Where the scene control holds the pointer to the graphics resource
/// manager.
pub const SCENE_CTRL_RESOURCE_MANAGER: usize = 0x28;

/// Where the graphics resource manager holds the pointer to its resource
/// container.
pub const RESOURCE_MANAGER_CONTAINER: usize = 0x160;

/// Where the resource container holds the pointer to the list of
/// definitions.
pub const CONTAINER_LIST_HEAD: usize = 0x20;

/// Where a node holds the pointer to the next node.
pub const NODE_NEXT: usize = 0x0;

/// Where a node holds the identifier of its definition.
pub const NODE_ID: usize = 0x10;

/// Where a node holds the pointer to the wrapper of its definition.
pub const NODE_WRAPPER: usize = 0x18;

/// Where a wrapper holds the pointer to the definition.
pub const WRAPPER_FXR: usize = 0x0;

/// The effects manager of the game, by the address of its instance.
#[derive(Debug, Clone, Copy, PartialEq, Eq)]
pub struct CSSfx {
    pub address: usize,
}

/// The wrapper of a definition, by its address. It holds the pointer to the
/// definition; a patch replaces that pointer and nothing else.
#[derive(Debug, Clone, Copy, PartialEq, Eq)]
pub struct FxrWrapper {
    pub address: usize,
}

/// A node of the list of definitions, by its address.
#[derive(Debug, Clone, Copy, PartialEq, Eq)]
pub struct FxrListNode {
    pub address: usize,
}

impl FxrWrapper {
    /// The address at which the wrapper holds the pointer to the definition.
    pub fn fxr_slot(&self) -> (slot: usize)
        ensures
            slot == field_address(self.address, WRAPPER_FXR),
    {
        field(self.address, WRAPPER_FXR)
    }
}

impl FxrListNode {
    /// The address at which the node holds the pointer to the next node.
    pub fn next_slot(&self) -> (slot: usize)
        ensures
            slot == field_address(self.address, NODE_NEXT),
    {
        field(self.address, NODE_NEXT)
    }

    /// The address at which the node holds its identifier.
    pub fn id_slot(&self) -> (slot: usize)
        ensures
            slot == field_address(self.address, NODE_ID),
    {
        field(self.address, NODE_ID)
    }

    /// The address at which the node holds the pointer to its wrapper.
    pub fn wrapper_slot(&self) -> (slot: usize)
        ensures
            slot == field_address(self.address, NODE_WRAPPER),
    {
        field(self.address, NODE_WRAPPER)
    }
}

impl DLRFLocatable for CSSfx {
    fn name() -> (name: &'static str)
        ensures
            name@ == "CSSfx"@,
    {
        "CSSfx"
    }
}

/// A walk over the list of definitions. It first follows the pointers that
/// lead from the effects manager to the list, then goes from node to node.
/// Each variant holds the structure whose field is read next.
#[derive(Debug, Clone, Copy, PartialEq, Eq)]
pub enum FxrDefinitionIterator {
    SceneCtrl { sfx: usize },
    ResourceManager { scene_ctrl: usize },
    ResourceContainer { manager: usize },
    ListContainer { resources: usize },
    /// The walk is inside the list, at `current`: the list itself at first,
    /// later the node that was handed out last.
    Node { container: usize, current: usize },
}

/// What a walk gives for a reply.
#[derive(Debug, Clone, Copy, PartialEq, Eq)]
pub enum IterStep {
    /// The walk needs another read before it reaches a node.
    Continue(FxrDefinitionIterator),
    /// The walk has reached a node.
    Yield(FxrDefinitionIterator, FxrListNode),
    /// The walk is back at the list itself: there are no more nodes.
    End,
}

impl FxrDefinitionIterator {
    /// The address that the walk reads next.
    pub open spec fn read_address(self) -> usize {
        match self {
            FxrDefinitionIterator::SceneCtrl { sfx } => field_address(sfx, SFX_SCENE_CTRL),
            FxrDefinitionIterator::ResourceManager { scene_ctrl } => field_address(
                scene_ctrl,
                SCENE_CTRL_RESOURCE_MANAGER,
            ),
            FxrDefinitionIterator::ResourceContainer { manager } => field_address(
                manager,
                RESOURCE_MANAGER_CONTAINER,
            ),
            FxrDefinitionIterator::ListContainer { resources } => field_address(
                resources,
                CONTAINER_LIST_HEAD,
            ),
            FxrDefinitionIterator::Node { container, current } => field_address(
                current,
                NODE_NEXT,
            ),
        }
    }

    /// Where the walk goes on the pointer that was read. Inside the list the
    /// pointer is the next node, unless it is the address of the list
    /// itself, which ends the walk.
    pub open spec fn next_spec(self, reply: usize) -> IterStep {
        match self {
            FxrDefinitionIterator::SceneCtrl { sfx } => IterStep::Continue(
                FxrDefinitionIterator::ResourceManager { scene_ctrl: reply },
            ),
            FxrDefinitionIterator::ResourceManager { scene_ctrl } => IterStep::Continue(
                FxrDefinitionIterator::ResourceContainer { manager: reply },
            ),
            FxrDefinitionIterator::ResourceContainer { manager } => IterStep::Continue(
                FxrDefinitionIterator::ListContainer { resources: reply },
            ),
            FxrDefinitionIterator::ListContainer { resources } => IterStep::Continue(
                FxrDefinitionIterator::Node { container: reply, current: reply },
            ),
            FxrDefinitionIterator::Node { container, current } => if reply == container {
                IterStep::End
            } else {
                IterStep::Yield(
                    FxrDefinitionIterator::Node { container, current: reply },
                    FxrListNode { address: reply },
                )
            },
        }
    }

    /// The read that the walk needs next.
    pub fn request(&self) -> (request: TargetRequest)
        ensures
            request == (TargetRequest::ReadPointer { address: self.read_address() }),
    {
        let address = match self {
            FxrDefinitionIterator::SceneCtrl { sfx } => field(*sfx, SFX_SCENE_CTRL),
            FxrDefinitionIterator::ResourceManager { scene_ctrl } => field(
                *scene_ctrl,
                SCENE_CTRL_RESOURCE_MANAGER,
            ),
            FxrDefinitionIterator::ResourceContainer { manager } => field(
                *manager,
                RESOURCE_MANAGER_CONTAINER,
            ),
            FxrDefinitionIterator::ListContainer { resources } => field(
                *resources,
                CONTAINER_LIST_HEAD,
            ),
            FxrDefinitionIterator::Node { container, current } => FxrListNode {
                address: *current,
            }.next_slot(),
        };
        TargetRequest::ReadPointer { address }
    }

    /// Takes the pointer that was read and goes on.
    pub fn next(self, reply: usize) -> (step: IterStep)
        ensures
            step == self.next_spec(reply),
    {
        match self {
            FxrDefinitionIterator::SceneCtrl { sfx } => IterStep::Continue(
                FxrDefinitionIterator::ResourceManager { scene_ctrl: reply },
            ),
            FxrDefinitionIterator::ResourceManager { scene_ctrl } => IterStep::Continue(
                FxrDefinitionIterator::ResourceContainer { manager: reply },
            ),
            FxrDefinitionIterator::ResourceContainer { manager } => IterStep::Continue(
                FxrDefinitionIterator::ListContainer { resources: reply },
            ),
            FxrDefinitionIterator::ListContainer { resources } => IterStep::Continue(
                FxrDefinitionIterator::Node { container: reply, current: reply },
            ),
            FxrDefinitionIterator::Node { container, current } => {
                if reply == container {
                    IterStep::End
                } else {
                    IterStep::Yield(
                        FxrDefinitionIterator::Node { container, current: reply },
                        FxrListNode { address: reply },
                    )
                }
            },
        }
    }
}

impl CSSfx {
    /// A walk over the definitions that the effects manager holds.
    pub fn fxr_definition_iter(&self) -> (iterator: FxrDefinitionIterator)
        ensures
            iterator == (FxrDefinitionIterator::SceneCtrl { sfx: self.address }),
    {
        FxrDefinitionIterator::SceneCtrl { sfx: self.address }
    }
}

/// The entry points of the game that a patch calls.
#[derive(Debug, Clone, Copy, PartialEq, Eq)]
pub struct EldenRingFxrPatcher {
    /// Turns the offsets inside a definition into pointers.
    pub patch_fxr_offset: usize,
    /// Prepares a definition for use.
    pub prepare_fxr: usize,
    /// Gives the allocator for definitions.
    pub fxr_allocator_getter: usize,
}

/// Where a patch stands: what it is waiting for.
#[derive(Debug, Clone, Copy, PartialEq, Eq)]
pub enum PatchStage {
    /// The pointer to the instance of the effects manager.
    Instance,
    /// A pointer on the way to the next node.
    Walk { iterator: FxrDefinitionIterator },
    /// The pointer to the wrapper of `node`.
    Wrapper { iterator: FxrDefinitionIterator, node: usize },
    /// The identifier of `node`.
    Id { iterator: FxrDefinitionIterator, node: usize, wrapper: usize },
    /// The allocator.
    Allocator { wrapper: usize },
    /// The dispatch table of the allocator.
    DispatchTable { wrapper: usize, allocator: usize },
    /// The allocating function.
    AllocateFunction { wrapper: usize, allocator: usize },
    /// The new memory.
    Allocation { wrapper: usize },
    /// The end of the copy.
    Copy { wrapper: usize, allocation: usize },
    /// The return of the function that patches the offsets.
    OffsetPatch { wrapper: usize, allocation: usize },
    /// The return of the function that prepares the definition.
    Prepare { wrapper: usize, allocation: usize },
    /// The end of the write to the wrapper.
    Swap,
}

/// A patch under way: the identifier and the length of the payload, and
/// what the patch is waiting for.
#[derive(Debug, Clone, Copy, PartialEq, Eq)]
pub struct PatchState {
    pub fxr_id: u32,
    pub size: usize,
    pub stage: PatchStage,
}

/// What a patch says after each step.
#[derive(Debug, PartialEq, Eq)]
pub enum PatchStep {
    /// The table of singletons has not been built: the host must drive the
    /// locator until it is ready or has failed, and begin again.
    BuildTable,
    /// The host must do what `request` says and resume the patch in `state`
    /// with the reply.
    Pending { state: PatchState, request: TargetRequest },
    /// The patch is over.
    Done(Result<(), PatchFxrError>),
}

/// What a patch says after each step, as a value that can be compared.
pub enum PatchStepModel {
    BuildTable,
    Pending { state: PatchState, request: TargetRequest },
    Done(Result<(), PatchFxrErrorModel>),
}

impl View for PatchStep {
    type V = PatchStepModel;

    open spec fn view(&self) -> PatchStepModel {
        match self {
            PatchStep::BuildTable => PatchStepModel::BuildTable,
            PatchStep::Pending { state, request } => PatchStepModel::Pending {
                state: *state,
                request: *request,
            },
            PatchStep::Done(Ok(())) => PatchStepModel::Done(Ok(())),
            PatchStep::Done(Err(error)) => PatchStepModel::Done(Err(error@)),
        }
    }
}

/// The entry points that the idioms name in the code of the game: the
/// allocator getter is the target of the captured call, the two others
/// start where their idioms stand. Each idiom that does not stand in the
/// code is an error of its own.
pub open spec fn locate_entry_points(text: SectionModel) -> Result<
    EldenRingFxrPatcher,
    PatchFxrErrorModel,
> {
    match located_idiom(GET_ALLOCATOR_PATTERN.spec_bytes(), text) {
        None => Err(PatchFxrErrorModel::InstructionPattern("get_allocator_call"@)),
        Some(call) => match call_target(call) {
            None => Err(PatchFxrErrorModel::InstructionPattern("get_allocator"@)),
            Some(getter) => match located_idiom(PATCH_OFFSETS_PATTERN.spec_bytes(), text) {
                None => Err(PatchFxrErrorModel::InstructionPattern("patch_fxr"@)),
                Some(patch) => match located_idiom(WTF_FXR_PATTERN.spec_bytes(), text) {
                    None => Err(PatchFxrErrorModel::InstructionPattern("wtf_fxr"@)),
                    Some(prepare) => Ok(
                        EldenRingFxrPatcher {
                            patch_fxr_offset: start_of(patch),
                            prepare_fxr: start_of(prepare),
                            fxr_allocator_getter: getter as usize,
                        },
                    ),
                },
            },
        },
    }
}

/// The address at which a match starts.
pub open spec fn start_of(m: MatchModel) -> usize {
    m.location as usize
}

/// The target of a call whose displacement is the first capture of the
/// match: the displacement counts from the end of its four bytes.
pub open spec fn call_target(m: MatchModel) -> Option<int> {
    if m.captures.len() == 0 {
        None
    } else {
        resolved_address(m.captures[0].bytes, wrap_address(m.captures[0].location + 4))
    }
}

impl EldenRingFxrPatcher {
    /// Finds the entry points in the code of the game.
    pub fn new(text: &Section) -> (patcher: Result<EldenRingFxrPatcher, PatchFxrError>)
        ensures
            match locate_entry_points(text@) {
                Ok(expected) => patcher == Ok::<EldenRingFxrPatcher, PatchFxrError>(expected),
                Err(error) => patcher is Err && patcher->Err_0@ == error,
            },
    {
        let call = match find_idiom(text, GET_ALLOCATOR_PATTERN) {
            Some(call) => call,
            None => {
                return Err(PatchFxrError::InstructionPattern("get_allocator_call".to_owned()));
            },
        };
        if call.captures.len() == 0 {
            return Err(PatchFxrError::InstructionPattern("get_allocator".to_owned()));
        }
        let capture = &call.captures[0];
        assert(capture@ == call@.captures[0]);
        let getter = match resolve_relative(capture, capture.location.wrapping_add(4)) {
            Some(getter) => getter,
            None => {
                return Err(PatchFxrError::InstructionPattern("get_allocator".to_owned()));
            },
        };
        let patch = match find_idiom(text, PATCH_OFFSETS_PATTERN) {
            Some(patch) => patch,
            None => { return Err(PatchFxrError::InstructionPattern("patch_fxr".to_owned())); },
        };
        let prepare = match find_idiom(text, WTF_FXR_PATTERN) {
            Some(prepare) => prepare,
            None => { return Err(PatchFxrError::InstructionPattern("wtf_fxr".to_owned())); },
        };
        Ok(
            EldenRingFxrPatcher {
                patch_fxr_offset: patch.location,
                prepare_fxr: prepare.location,
                fxr_allocator_getter: getter,
            },
        )
    }

    /// The step that goes on with a walk.
    pub open spec fn walk(fxr_id: u32, size: usize, iterator: FxrDefinitionIterator) -> PatchStepModel {
        PatchStepModel::Pending {
            state: PatchState { fxr_id, size, stage: PatchStage::Walk { iterator } },
            request: TargetRequest::ReadPointer { address: iterator.read_address() },
        }
    }

    /// The first step of a patch. A payload that is shorter than its header
    /// is refused before anything else is looked at. Then the slot of the
    /// effects manager is looked up in the table, and the pointer in it is
    /// asked for; a table that is not there yet is asked for first.
    pub open spec fn begin_spec(locator: LocatorModel, payload: Seq<u8>) -> PatchStepModel {
        if payload.len() < FXR_HEADER_LENGTH {
            PatchStepModel::Done(Err(PatchFxrErrorModel::InvalidFxr))
        } else {
            match locator {
                LocatorModel::Failed(error) => PatchStepModel::Done(
                    Err(
                        PatchFxrErrorModel::CSSfxSingletonMissing(
                            LookupErrorModel::SingletonMapCreation(error),
                        ),
                    ),
                ),
                LocatorModel::Ready(table) => if table.dom().contains("CSSfx"@) {
                    PatchStepModel::Pending {
                        state: PatchState {
                            fxr_id: le_u32(
                                payload.subrange(FXR_ID_OFFSET as int, FXR_ID_OFFSET + 4),
                            ) as u32,
                            size: payload.len() as usize,
                            stage: PatchStage::Instance,
                        },
                        request: TargetRequest::ReadPointer { address: table["CSSfx"@] },
                    }
                } else {
                    PatchStepModel::Done(
                        Err(PatchFxrErrorModel::CSSfxSingletonMissing(LookupErrorModel::NotFound)),
                    )
                },
                _ => PatchStepModel::BuildTable,
            }
        }
    }

    /// The step that follows on a reply.
    ///
    /// While the patch walks the list it reads, of each node, the pointer to
    /// the wrapper and, where that is set, the identifier. Nodes without a
    /// wrapper are passed over. The first node with the identifier of the
    /// payload is patched: the allocator is fetched, its allocating function
    /// is read from its dispatch table and called for memory of the length
    /// of the payload, the payload is copied there, the offsets in the copy
    /// are patched, the copy is prepared, and the wrapper is made to point
    /// to the copy. Where the walk ends without such a node, the patch is
    /// over and nothing was changed.
    pub open spec fn resume_spec(self, state: PatchState, reply: usize) -> PatchStepModel {
        let fxr_id = state.fxr_id;
        let size = state.size;
        let pending = |stage: PatchStage, request: TargetRequest|
            PatchStepModel::Pending { state: PatchState { fxr_id, size, stage }, request };
        match state.stage {
            PatchStage::Instance => match instance_of(reply) {
                None => PatchStepModel::Done(Err(PatchFxrErrorModel::CSSfxInstanceMissing)),
                Some(instance) => Self::walk(
                    fxr_id,
                    size,
                    FxrDefinitionIterator::SceneCtrl { sfx: instance },
                ),
            },
            PatchStage::Walk { iterator } => match iterator.next_spec(reply) {
                IterStep::Continue(iterator) => Self::walk(fxr_id, size, iterator),
                IterStep::Yield(iterator, node) => pending(
                    PatchStage::Wrapper { iterator, node: node.address },
                    TargetRequest::ReadPointer {
                        address: field_address(node.address, NODE_WRAPPER),
                    },
                ),
                IterStep::End => PatchStepModel::Done(Ok(())),
            },
            PatchStage::Wrapper { iterator, node } => if reply == 0 {
                Self::walk(fxr_id, size, iterator)
            } else {
                pending(
                    PatchStage::Id { iterator, node, wrapper: reply },
                    TargetRequest::ReadU32 { address: field_address(node, NODE_ID) },
                )
            },
            PatchStage::Id { iterator, node, wrapper } => if reply == fxr_id {
                pending(
                    PatchStage::Allocator { wrapper },
                    TargetRequest::CallNoArgs { function: self.fxr_allocator_getter },
                )
            } else {
                Self::walk(fxr_id, size, iterator)
            },
            PatchStage::Allocator { wrapper } => pending(
                PatchStage::DispatchTable { wrapper, allocator: reply },
                TargetRequest::ReadPointer { address: reply },
            ),
            PatchStage::DispatchTable { wrapper, allocator } => pending(
                PatchStage::AllocateFunction { wrapper, allocator },
                TargetRequest::ReadPointer { address: field_address(reply, ALLOCATE_SLOT) },
            ),
            PatchStage::AllocateFunction { wrapper, allocator } => pending(
                PatchStage::Allocation { wrapper },
                TargetRequest::CallThreeArgs {
                    function: reply,
                    first: allocator,
                    second: size,
                    third: FXR_ALIGNMENT,
                },
            ),
            PatchStage::Allocation { wrapper } => pending(
                PatchStage::Copy { wrapper, allocation: reply },
                TargetRequest::CopyPayload { destination: reply, length: size },
            ),
            PatchStage::Copy { wrapper, allocation } => pending(
                PatchStage::OffsetPatch { wrapper, allocation },
                TargetRequest::CallThreeArgs {
                    function: self.patch_fxr_offset,
                    first: allocation,
                    second: allocation,
                    third: allocation,
                },
            ),
            PatchStage::OffsetPatch { wrapper, allocation } => pending(
                PatchStage::Prepare { wrapper, allocation },
                TargetRequest::CallOneArg { function: self.prepare_fxr, argument: allocation },
            ),
            PatchStage::Prepare { wrapper, allocation } => pending(
                PatchStage::Swap,
                TargetRequest::WritePointer {
                    address: field_address(wrapper, WRAPPER_FXR),
                    value: allocation,
                },
            ),
            PatchStage::Swap => PatchStepModel::Done(Ok(())),
        }
    }

    /// Begins the patch of the definition that the payload replaces.
    pub fn begin(&self, locator: &SingletonLocator, fxr_bytes: &[u8]) -> (step: PatchStep)
        ensures
            step@ == Self::begin_spec(locator@, fxr_bytes@),
    {
        if fxr_bytes.len() < FXR_HEADER_LENGTH {
            return PatchStep::Done(Err(PatchFxrError::InvalidFxr));
        }
        let fxr_id = match read_u32_le(fxr_bytes, FXR_ID_OFFSET) {
            Some(id) => id,
            None => { return PatchStep::Done(Err(PatchFxrError::InvalidFxr)); },
        };
        match get_instance::<CSSfx>(locator, None) {
            InstanceStep::BuildTable => PatchStep::BuildTable,
            InstanceStep::ReadSlot { slot } => PatchStep::Pending {
                state: PatchState {
                    fxr_id,
                    size: fxr_bytes.len(),
                    stage: PatchStage::Instance,
                },
                request: TargetRequest::ReadPointer { address: slot },
            },
            InstanceStep::Done(Err(error)) => PatchStep::Done(
                Err(PatchFxrError::CSSfxSingletonMissing(error)),
            ),
            InstanceStep::Done(Ok(_)) => PatchStep::Done(
                Err(PatchFxrError::CSSfxInstanceMissing),
            ),
        }
    }

    fn walk_on(fxr_id: u32, size: usize, iterator: FxrDefinitionIterator) -> (step: PatchStep)
        ensures
            step@ == Self::walk(fxr_id, size, iterator),
    {
        PatchStep::Pending {
            state: PatchState { fxr_id, size, stage: PatchStage::Walk { iterator } },
            request: iterator.request(),
        }
    }

    /// Goes on with a patch on the reply to its last request.
    pub fn step(&self, state: PatchState, reply: usize) -> (step: PatchStep)
        ensures
            step@ == self.resume_spec(state, reply),
    {
        let fxr_id = state.fxr_id;
        let size = state.size;
        match state.stage {
            PatchStage::Instance => match instance_from_slot(reply) {
                None => PatchStep::Done(Err(PatchFxrError::CSSfxInstanceMissing)),
                Some(instance) => Self::walk_on(
                    fxr_id,
                    size,
                    CSSfx { address: instance }.fxr_definition_iter(),
                ),
            },
            PatchStage::Walk { iterator } => match iterator.next(reply) {
                IterStep::Continue(iterator) => Self::walk_on(fxr_id, size, iterator),
                IterStep::Yield(iterator, node) => PatchStep::Pending {
                    state: PatchState {
                        fxr_id,
                        size,
                        stage: PatchStage::Wrapper { iterator, node: node.address },
                    },
                    request: TargetRequest::ReadPointer { address: node.wrapper_slot() },
                },
                IterStep::End => PatchStep::Done(Ok(())),
            },
            PatchStage::Wrapper { iterator, node } => {
                if reply == 0 {
                    Self::walk_on(fxr_id, size, iterator)
                } else {
                    PatchStep::Pending {
                        state: PatchState {
                            fxr_id,
                            size,
                            stage: PatchStage::Id { iterator, node, wrapper: reply },
                        },
                        request: TargetRequest::ReadU32 {
                            address: FxrListNode { address: node }.id_slot(),
                        },
                    }
                }
            },
            PatchStage::Id { iterator, node, wrapper } => {
                if reply as u64 == fxr_id as u64 {
                    PatchStep::Pending {
                        state: PatchState { fxr_id, size, stage: PatchStage::Allocator { wrapper } },
                        request: TargetRequest::CallNoArgs { function: self.fxr_allocator_getter },
                    }
                } else {
                    Self::walk_on(fxr_id, size, iterator)
                }
            },
            PatchStage::Allocator { wrapper } => PatchStep::Pending {
                state: PatchState {
                    fxr_id,
                    size,
                    stage: PatchStage::DispatchTable { wrapper, allocator: reply },
                },
                request: TargetRequest::ReadPointer { address: reply },
            },
            PatchStage::DispatchTable { wrapper, allocator } => PatchStep::Pending {
                state: PatchState {
                    fxr_id,
                    size,
                    stage: PatchStage::AllocateFunction { wrapper, allocator },
                },
                request: TargetRequest::ReadPointer { address: field(reply, ALLOCATE_SLOT) },
            },
            PatchStage::AllocateFunction { wrapper, allocator } => PatchStep::Pending {
                state: PatchState { fxr_id, size, stage: PatchStage::Allocation { wrapper } },
                request: TargetRequest::CallThreeArgs {
                    function: reply,
                    first: allocator,
                    second: size,
                    third: FXR_ALIGNMENT,
                },
            },
            PatchStage::Allocation { wrapper } => PatchStep::Pending {
                state: PatchState {
                    fxr_id,
                    size,
                    stage: PatchStage::Copy { wrapper, allocation: reply },
                },
                request: TargetRequest::CopyPayload { destination: reply, length: size },
            },
            PatchStage::Copy { wrapper, allocation } => PatchStep::Pending {
                state: PatchState {
                    fxr_id,
                    size,
                    stage: PatchStage::OffsetPatch { wrapper, allocation },
                },
                request: TargetRequest::CallThreeArgs {
                    function: self.patch_fxr_offset,
                    first: allocation,
                    second: allocation,
                    third: allocation,
                },
            },
            PatchStage::OffsetPatch { wrapper, allocation } => PatchStep::Pending {
                state: PatchState {
                    fxr_id,
                    size,
                    stage: PatchStage::Prepare { wrapper, allocation },
                },
                request: TargetRequest::CallOneArg {
                    function: self.prepare_fxr,
                    argument: allocation,
                },
            },
            PatchStage::Prepare { wrapper, allocation } => PatchStep::Pending {
                state: PatchState { fxr_id, size, stage: PatchStage::Swap },
                request: TargetRequest::WritePointer {
                    address: FxrWrapper { address: wrapper }.fxr_slot(),
                    value: allocation,
                },
            },
            PatchStage::Swap => PatchStep::Done(Ok(())),
        }
    }
}

} // verus!
