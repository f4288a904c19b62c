//! One patcher for each game that can be patched.

use crate::detection::RunningGame;
use crate::eldenring::{
    locate_entry_points, EldenRingFxrPatcher, PatchState, PatchStep, PatchStepModel,
};
use crate::protocol::PatchFxrError;
use crate::section::Section;
use crate::singleton::SingletonLocator;
use vstd::prelude::*;

verus! {

/// What can replace a definition in the memory of a game, step by step.
pub trait FxrPatcher {
    /// Begins the patch of the definition that the payload replaces.
    fn patch(&self, locator: &SingletonLocator, fxr: &[u8]) -> PatchStep;

    /// Goes on with a patch on the reply to its last request.
    fn resume(&self, state: PatchState, reply: usize) -> PatchStep;
}

/// The patcher of the game that runs.
#[derive(Debug, Clone, Copy, PartialEq, Eq)]
pub enum GamePatcher {
    EldenRing(EldenRingFxrPatcher),
}

impl GamePatcher {
    /// The first step of a patch.
    pub open spec fn begin_spec(self, locator: crate::singleton::LocatorModel, payload: Seq<u8>) -> PatchStepModel {
        match self {
            GamePatcher::EldenRing(patcher) => EldenRingFxrPatcher::begin_spec(locator, payload),
        }
    }

    /// The step that follows on a reply.
    pub open spec fn resume_spec(self, state: PatchState, reply: usize) -> PatchStepModel {
        match self {
            GamePatcher::EldenRing(patcher) => patcher.resume_spec(state, reply),
        }
    }
}

impl FxrPatcher for EldenRingFxrPatcher {
    fn patch(&self, locator: &SingletonLocator, fxr: &[u8]) -> (step: PatchStep)
        ensures
            step@ == EldenRingFxrPatcher::begin_spec(locator@, fxr@),
    {
        self.begin(locator, fxr)
    }

    fn resume(&self, state: PatchState, reply: usize) -> (step: PatchStep)
        ensures
            step@ == self.resume_spec(state, reply),
    {
        self.step(state, reply)
    }
}

impl FxrPatcher for GamePatcher {
    fn patch(&self, locator: &SingletonLocator, fxr: &[u8]) -> (step: PatchStep)
        ensures
            step@ == self.begin_spec(locator@, fxr@),
    {
        match self {
            GamePatcher::EldenRing(patcher) => patcher.begin(locator, fxr),
        }
    }

    fn resume(&self, state: PatchState, reply: usize) -> (step: PatchStep)
        ensures
            step@ == self.resume_spec(state, reply),
    {
        match self {
            GamePatcher::EldenRing(patcher) => patcher.step(state, reply),
        }
    }
}

/// The patcher for the game, with its entry points found in the code.
pub fn make_patcher(game: RunningGame, text: &Section) -> (patcher: Result<
    GamePatcher,
    PatchFxrError,
>)
    ensures
        match locate_entry_points(text@) {
            Ok(expected) => patcher == Ok::<GamePatcher, PatchFxrError>(
                GamePatcher::EldenRing(expected),
            ),
            Err(error) => patcher is Err && patcher->Err_0@ == error,
        },
{
    match game {
        RunningGame::EldenRing => match EldenRingFxrPatcher::new(text) {
            Ok(patcher) => Ok(GamePatcher::EldenRing(patcher)),
            Err(error) => Err(error),
        },
    }
}

} // verus!
