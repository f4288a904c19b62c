//! Patching by the addresses that are known of particular builds of the
//! games, for use where the idioms of a build are not known.

use crate::eldenring::{
    EldenRingFxrPatcher, PatchStage, PatchState, PatchStep, PatchStepModel, FXR_HEADER_LENGTH,
    FXR_ID_OFFSET,
};
use crate::protocol::{PatchFxrError, PatchFxrErrorModel};
use crate::resolver::{le_u32, read_u32_le};
use crate::target::{field, field_address, TargetRequest};
use vstd::prelude::*;

verus! {

/// Where a build keeps what a patch needs, counted from the base of its
/// module.
#[derive(Debug, Clone, Copy, PartialEq, Eq)]
pub struct GameOffsets {
    /// The slot that holds the pointer to the effects manager.
    pub sfx_imp: usize,
    /// The function that prepares a definition.
    pub wtf_fxr: usize,
    /// The function that patches the offsets of a definition.
    pub patch_offsets: usize,
    /// The function that gives the allocator for definitions.
    pub get_allocator: usize,
}

/// The offsets of the builds that are known, by the file name of the game.
pub open spec fn offsets_for(game: Seq<char>) -> Option<GameOffsets> {
    if game == "eldenring.exe"@ {
        Some(
            GameOffsets {
                sfx_imp: 0x3d839b8,
                wtf_fxr: 0x2124770,
                patch_offsets: 0x20fb660,
                get_allocator: 0x20b70d0,
            },
        )
    } else if game == "sekiro.exe"@ {
        Some(
            GameOffsets {
                sfx_imp: 0x3d99ce8,
                wtf_fxr: 0x24d5fb0,
                patch_offsets: 0x24d1270,
                get_allocator: 0x4069c0,
            },
        )
    } else {
        None
    }
}

/// The offsets of Elden Ring 1.12.0 and of Sekiro 1.06.0, by the file name
/// of the game; of other games none are known.
pub fn get_offsets_for_game(game: &str) -> (offsets: Option<GameOffsets>)
    ensures
        offsets == offsets_for(game@),
{
    let name = game.to_owned();
    if name == "eldenring.exe".to_owned() {
        Some(
            GameOffsets {
                sfx_imp: 0x3d839b8,
                wtf_fxr: 0x2124770,
                patch_offsets: 0x20fb660,
                get_allocator: 0x20b70d0,
            },
        )
    } else if name == "sekiro.exe".to_owned() {
        Some(
            GameOffsets {
                sfx_imp: 0x3d99ce8,
                wtf_fxr: 0x24d5fb0,
                patch_offsets: 0x24d1270,
                get_allocator: 0x4069c0,
            },
        )
    } else {
        None
    }
}

/// The entry points of a build whose module is loaded at `game_base`.
pub open spec fn entry_points_at(game_base: usize, offsets: GameOffsets) -> EldenRingFxrPatcher {
    EldenRingFxrPatcher {
        patch_fxr_offset: field_address(game_base, offsets.patch_offsets),
        prepare_fxr: field_address(game_base, offsets.wtf_fxr),
        fxr_allocator_getter: field_address(game_base, offsets.get_allocator),
    }
}

/// How a patch by known offsets begins: the payload must hold its header,
/// and the first thing to read is the slot of the effects manager.
pub open spec fn begin_at(game_base: usize, offsets: GameOffsets, payload: Seq<u8>) -> PatchStepModel {
    if payload.len() < FXR_HEADER_LENGTH {
        PatchStepModel::Done(Err(PatchFxrErrorModel::InvalidFxr))
    } else {
        PatchStepModel::Pending {
            state: PatchState {
                fxr_id: le_u32(payload.subrange(FXR_ID_OFFSET as int, FXR_ID_OFFSET + 4)) as u32,
                size: payload.len() as usize,
                stage: PatchStage::Instance,
            },
            request: TargetRequest::ReadPointer {
                address: field_address(game_base, offsets.sfx_imp),
            },
        }
    }
}

/// Begins the patch of a definition in a game of which a build is known by
/// its offsets. The result is the patcher with which the patch goes on, and
/// its first step; there is none for a game that is not known.
pub fn patch_fxr_definition(module_name: &str, game_base: usize, input_fxr: &[u8]) -> (session:
    Option<(EldenRingFxrPatcher, PatchStep)>)
    ensures
        match offsets_for(module_name@) {
            None => session is None,
            Some(offsets) => session matches Some((patcher, step)) && patcher == entry_points_at(
                game_base,
                offsets,
            ) && step@ == begin_at(game_base, offsets, input_fxr@),
        },
{
    let offsets = match get_offsets_for_game(module_name) {
        Some(offsets) => offsets,
        None => { return None; },
    };
    let patcher = EldenRingFxrPatcher {
        patch_fxr_offset: field(game_base, offsets.patch_offsets),
        prepare_fxr: field(game_base, offsets.wtf_fxr),
        fxr_allocator_getter: field(game_base, offsets.get_allocator),
    };
    let step = match read_u32_le(input_fxr, FXR_ID_OFFSET) {
        None => PatchStep::Done(Err(PatchFxrError::InvalidFxr)),
        Some(fxr_id) => PatchStep::Pending {
            state: PatchState { fxr_id, size: input_fxr.len(), stage: PatchStage::Instance },
            request: TargetRequest::ReadPointer { address: field(game_base, offsets.sfx_imp) },
        },
    };
    Some((patcher, step))
}

} // verus!
