use std::collections::HashMap;

use fxr_reloader::eldenring::{
    CSSfx, EldenRingFxrPatcher, FxrDefinitionIterator, FxrListNode, FxrWrapper, IterStep,
    PatchStage, PatchState, PatchStep,
};
use fxr_reloader::game::FxrPatcher;
use fxr_reloader::idioms::{GET_ALLOCATOR_PATTERN, PATCH_OFFSETS_PATTERN, WTF_FXR_PATTERN};
use fxr_reloader::protocol::{LookupError, PatchFxrError, SectionLookupError, SingletonMapError};
use fxr_reloader::section::Section;
use fxr_reloader::singleton::SingletonLocator;
use fxr_reloader::table::SingletonMap;
use fxr_reloader::target::{field, TargetRequest};

const PATCHER: EldenRingFxrPatcher = EldenRingFxrPatcher {
    patch_fxr_offset: 0x1420f_bf20,
    prepare_fxr: 0x14212_5030,
    fxr_allocator_getter: 0x1420b_7990,
};

const SLOT: usize = 0x1443d_39b8;
const SFX: usize = 0x7ff4_1000_0000;
const SCENE_CTRL: usize = 0x7ff4_1000_1000;
const MANAGER: usize = 0x7ff4_1000_2000;
const RESOURCES: usize = 0x7ff4_1000_3000;
const LIST: usize = 0x7ff4_1000_4000;
const ALLOCATOR: usize = 0x7ff4_2000_0000;
const DISPATCH: usize = 0x1442a_0000;
const ALLOCATE: usize = 0x1420c_1230;
const HEAP: usize = 0x7ff4_3000_0000;

const PAYLOAD: [u8; 20] = [
    0x00, 0x00, 0x00, 0x00, 0x00, 0x00, 0x00, 0x00, 0x00, 0x00, 0x00, 0x00, 0x2a, 0x00, 0x00, 0x00,
    0xff, 0xff, 0xff, 0xff,
];

/// A stand-in for the game: what its memory holds, and what was done to it.
struct Game {
    pointers: HashMap<usize, usize>,
    words: HashMap<usize, u32>,
    blocks: HashMap<usize, Vec<u8>>,
    allocated: Vec<(usize, usize, usize)>,
    asked: Vec<TargetRequest>,
}

impl Game {
    /// A game whose effects manager is alive and holds the given nodes:
    /// address, identifier, wrapper.
    fn with_list(nodes: &[(usize, u32, usize)]) -> Game {
        let mut pointers = HashMap::new();
        let mut words = HashMap::new();
        pointers.insert(SLOT, SFX);
        pointers.insert(SFX + 0x60, SCENE_CTRL);
        pointers.insert(SCENE_CTRL + 0x28, MANAGER);
        pointers.insert(MANAGER + 0x160, RESOURCES);
        pointers.insert(RESOURCES + 0x20, LIST);
        let mut previous = LIST;
        for (address, id, wrapper) in nodes {
            pointers.insert(previous, *address);
            pointers.insert(address + 0x8, previous);
            words.insert(address + 0x10, *id);
            pointers.insert(address + 0x18, *wrapper);
            if *wrapper != 0 {
                pointers.insert(*wrapper, 0x7ff4_5000_0000 + *id as usize);
            }
            previous = *address;
        }
        pointers.insert(previous, LIST);
        pointers.insert(LIST + 0x8, previous);
        pointers.insert(ALLOCATOR, DISPATCH);
        pointers.insert(DISPATCH + 0x50, ALLOCATE);
        Game { pointers, words, blocks: HashMap::new(), allocated: Vec::new(), asked: Vec::new() }
    }

    fn perform(&mut self, request: TargetRequest, payload: &[u8]) -> usize {
        self.asked.push(request);
        match request {
            TargetRequest::ReadPointer { address } => self.pointers[&address],
            TargetRequest::ReadU32 { address } => self.words[&address] as usize,
            TargetRequest::CallNoArgs { function } => {
                assert_eq!(function, PATCHER.fxr_allocator_getter);
                ALLOCATOR
            }
            TargetRequest::CallThreeArgs { function, first, second, third } if function == ALLOCATE => {
                self.allocated.push((first, second, third));
                let block = HEAP + 0x100 * self.allocated.len();
                self.blocks.insert(block, vec![0xcd; second]);
                block
            }
            TargetRequest::CallThreeArgs { function, .. } => {
                assert_eq!(function, PATCHER.patch_fxr_offset);
                0x55
            }
            TargetRequest::CallOneArg { function, .. } => {
                assert_eq!(function, PATCHER.prepare_fxr);
                0x66
            }
            TargetRequest::CopyPayload { destination, length } => {
                self.blocks.get_mut(&destination).unwrap()[..length].copy_from_slice(&payload[..length]);
                0
            }
            TargetRequest::WritePointer { address, value } => {
                self.pointers.insert(address, value);
                0
            }
        }
    }

    fn run(&mut self, locator: &SingletonLocator, payload: &[u8]) -> Result<(), PatchFxrError> {
        let mut step = PATCHER.patch(locator, payload);
        loop {
            match step {
                PatchStep::Done(result) => return result,
                PatchStep::Pending { state, request } => {
                    let reply = self.perform(request, payload);
                    step = PATCHER.resume(state, reply);
                }
                PatchStep::BuildTable => panic!("the table is built"),
            }
        }
    }

    fn only_read(&self) -> bool {
        self.asked.iter().all(|request| request.reads_only())
    }
}

fn locator() -> SingletonLocator {
    let mut table = SingletonMap::new();
    table.insert("CSSfx".to_string(), SLOT);
    SingletonLocator::Ready(table)
}

const NODE_A: usize = 0x7ff4_1100_0000;
const NODE_B: usize = 0x7ff4_1100_0040;
const NODE_C: usize = 0x7ff4_1100_0080;
const WRAPPER_A: usize = 0x7ff4_1200_0000;
const WRAPPER_B: usize = 0x7ff4_1200_0010;
const WRAPPER_C: usize = 0x7ff4_1200_0020;

#[test]
fn end_to_end_patch_of_one_of_two_nodes() {
    let mut game = Game::with_list(&[(NODE_A, 42, WRAPPER_A), (NODE_B, 7, WRAPPER_B)]);
    let before_b = game.pointers[&WRAPPER_B];
    assert_eq!(game.run(&locator(), &PAYLOAD), Ok(()));
    let block = HEAP + 0x100;
    assert_eq!(game.allocated, vec![(ALLOCATOR, 20, 0x10)]);
    assert_eq!(game.blocks[&block], PAYLOAD.to_vec());
    assert_eq!(game.pointers[&WRAPPER_A], block);
    assert_eq!(game.pointers[&WRAPPER_B], before_b);
    assert_eq!(game.pointers[&(NODE_A + 0x18)], WRAPPER_A);
    assert_eq!(game.pointers[&(NODE_B + 0x18)], WRAPPER_B);
    assert_eq!(
        game.asked,
        vec![
            TargetRequest::ReadPointer { address: SLOT },
            TargetRequest::ReadPointer { address: SFX + 0x60 },
            TargetRequest::ReadPointer { address: SCENE_CTRL + 0x28 },
            TargetRequest::ReadPointer { address: MANAGER + 0x160 },
            TargetRequest::ReadPointer { address: RESOURCES + 0x20 },
            TargetRequest::ReadPointer { address: LIST },
            TargetRequest::ReadPointer { address: NODE_A + 0x18 },
            TargetRequest::ReadU32 { address: NODE_A + 0x10 },
            TargetRequest::CallNoArgs { function: PATCHER.fxr_allocator_getter },
            TargetRequest::ReadPointer { address: ALLOCATOR },
            TargetRequest::ReadPointer { address: DISPATCH + 0x50 },
            TargetRequest::CallThreeArgs { function: ALLOCATE, first: ALLOCATOR, second: 20, third: 0x10 },
            TargetRequest::CopyPayload { destination: block, length: 20 },
            TargetRequest::CallThreeArgs {
                function: PATCHER.patch_fxr_offset,
                first: block,
                second: block,
                third: block
            },
            TargetRequest::CallOneArg { function: PATCHER.prepare_fxr, argument: block },
            TargetRequest::WritePointer { address: WRAPPER_A, value: block },
        ]
    );
}

#[test]
fn a_short_payload_is_refused_before_anything_is_looked_up() {
    let payload = [0x2a; 10];
    assert_eq!(PATCHER.patch(&locator(), &payload), PatchStep::Done(Err(PatchFxrError::InvalidFxr)));
    assert_eq!(
        PATCHER.patch(&SingletonLocator::new(), &payload),
        PatchStep::Done(Err(PatchFxrError::InvalidFxr))
    );
    let failed = SingletonLocator::Failed(SingletonMapError::Pattern);
    assert_eq!(PATCHER.patch(&failed, &payload), PatchStep::Done(Err(PatchFxrError::InvalidFxr)));
    assert_eq!(PATCHER.patch(&locator(), &[]), PatchStep::Done(Err(PatchFxrError::InvalidFxr)));
    assert_eq!(
        PATCHER.patch(&locator(), &PAYLOAD[..15]),
        PatchStep::Done(Err(PatchFxrError::InvalidFxr))
    );
    let mut game = Game::with_list(&[(NODE_A, 42, WRAPPER_A)]);
    assert_eq!(game.run(&locator(), &payload), Err(PatchFxrError::InvalidFxr));
    assert!(game.asked.is_empty());
}

#[test]
fn a_payload_of_the_length_of_its_header_is_taken() {
    let step = PATCHER.patch(&locator(), &PAYLOAD[..16]);
    assert_eq!(
        step,
        PatchStep::Pending {
            state: PatchState { fxr_id: 42, size: 16, stage: PatchStage::Instance },
            request: TargetRequest::ReadPointer { address: SLOT },
        }
    );
}

#[test]
fn the_identifier_is_read_least_significant_byte_first() {
    let mut payload = [0u8; 16];
    payload[0xc..].copy_from_slice(&[0x78, 0x56, 0x34, 0x12]);
    match PATCHER.patch(&locator(), &payload) {
        PatchStep::Pending { state, .. } => assert_eq!(state.fxr_id, 0x1234_5678),
        other => panic!("{:?}", other),
    }
}

#[test]
fn the_walk_ends_on_an_empty_list() {
    let mut game = Game::with_list(&[]);
    assert_eq!(game.pointers[&LIST], LIST);
    let before = game.pointers.clone();
    assert_eq!(game.run(&locator(), &PAYLOAD), Ok(()));
    assert_eq!(game.asked.len(), 6);
    assert_eq!(game.asked[5], TargetRequest::ReadPointer { address: LIST });
    assert!(game.only_read());
    assert_eq!(game.pointers, before);
}

#[test]
fn an_unknown_identifier_changes_nothing() {
    let mut game =
        Game::with_list(&[(NODE_A, 41, WRAPPER_A), (NODE_B, 43, WRAPPER_B), (NODE_C, 0x2a00, WRAPPER_C)]);
    let before = game.pointers.clone();
    assert_eq!(game.run(&locator(), &PAYLOAD), Ok(()));
    assert!(game.only_read());
    assert_eq!(game.pointers, before);
    assert!(game.allocated.is_empty());
    assert!(game.blocks.is_empty());
    // the slot, four pointers to the list, its head, then three reads for each node
    assert_eq!(game.asked.len(), 6 + 3 * 3);
}

#[test]
fn a_node_without_a_wrapper_is_passed_over() {
    let mut game = Game::with_list(&[(NODE_A, 42, 0), (NODE_B, 42, WRAPPER_B), (NODE_C, 42, WRAPPER_C)]);
    let before_c = game.pointers[&WRAPPER_C];
    assert_eq!(game.run(&locator(), &PAYLOAD), Ok(()));
    assert!(!game.asked.contains(&TargetRequest::ReadU32 { address: NODE_A + 0x10 }));
    assert_eq!(game.pointers[&WRAPPER_B], HEAP + 0x100);
    assert_eq!(game.pointers[&WRAPPER_C], before_c);
    assert_eq!(game.pointers[&(NODE_A + 0x18)], 0);
    assert_eq!(game.allocated.len(), 1);
}

#[test]
fn the_last_node_of_a_list_is_found() {
    let mut game = Game::with_list(&[(NODE_A, 1, WRAPPER_A), (NODE_B, 2, 0), (NODE_C, 42, WRAPPER_C)]);
    assert_eq!(game.run(&locator(), &PAYLOAD), Ok(()));
    assert_eq!(game.pointers[&WRAPPER_C], HEAP + 0x100);
    assert_eq!(game.blocks[&(HEAP + 0x100)], PAYLOAD.to_vec());
}

#[test]
fn a_manager_without_an_instance_is_reported() {
    let mut game = Game::with_list(&[(NODE_A, 42, WRAPPER_A)]);
    game.pointers.insert(SLOT, 0);
    assert_eq!(game.run(&locator(), &PAYLOAD), Err(PatchFxrError::CSSfxInstanceMissing));
    assert_eq!(game.asked, vec![TargetRequest::ReadPointer { address: SLOT }]);
}

#[test]
fn a_table_without_the_manager_is_reported() {
    let mut table = SingletonMap::new();
    table.insert("CSFade".to_string(), SLOT);
    let mut game = Game::with_list(&[(NODE_A, 42, WRAPPER_A)]);
    assert_eq!(
        game.run(&SingletonLocator::Ready(table), &PAYLOAD),
        Err(PatchFxrError::CSSfxSingletonMissing(LookupError::NotFound))
    );
    assert!(game.asked.is_empty());
}

#[test]
fn a_table_that_could_not_be_built_is_reported() {
    let error = SingletonMapError::Section(".data".to_string(), SectionLookupError::SectionNotFound);
    let mut game = Game::with_list(&[(NODE_A, 42, WRAPPER_A)]);
    assert_eq!(
        game.run(&SingletonLocator::Failed(error.clone()), &PAYLOAD),
        Err(PatchFxrError::CSSfxSingletonMissing(LookupError::SingletonMapCreation(error)))
    );
    assert!(game.asked.is_empty());
}

#[test]
fn a_patch_asks_for_the_table_where_there_is_none() {
    assert_eq!(PATCHER.patch(&SingletonLocator::new(), &PAYLOAD), PatchStep::BuildTable);
}

#[test]
fn the_walk_follows_the_pointers_to_the_list() {
    let sfx = CSSfx { address: SFX };
    let walk = sfx.fxr_definition_iter();
    assert_eq!(walk, FxrDefinitionIterator::SceneCtrl { sfx: SFX });
    assert_eq!(walk.request(), TargetRequest::ReadPointer { address: SFX + 0x60 });
    let walk = match walk.next(SCENE_CTRL) {
        IterStep::Continue(walk) => walk,
        other => panic!("{:?}", other),
    };
    assert_eq!(walk.request(), TargetRequest::ReadPointer { address: SCENE_CTRL + 0x28 });
    let walk = match walk.next(MANAGER) {
        IterStep::Continue(walk) => walk,
        other => panic!("{:?}", other),
    };
    assert_eq!(walk.request(), TargetRequest::ReadPointer { address: MANAGER + 0x160 });
    let walk = match walk.next(RESOURCES) {
        IterStep::Continue(walk) => walk,
        other => panic!("{:?}", other),
    };
    assert_eq!(walk.request(), TargetRequest::ReadPointer { address: RESOURCES + 0x20 });
    let walk = match walk.next(LIST) {
        IterStep::Continue(walk) => walk,
        other => panic!("{:?}", other),
    };
    assert_eq!(walk, FxrDefinitionIterator::Node { container: LIST, current: LIST });
    assert_eq!(walk.request(), TargetRequest::ReadPointer { address: LIST });
    let walk = match walk.next(NODE_A) {
        IterStep::Yield(walk, node) => {
            assert_eq!(node, FxrListNode { address: NODE_A });
            walk
        }
        other => panic!("{:?}", other),
    };
    assert_eq!(walk.request(), TargetRequest::ReadPointer { address: NODE_A });
    assert_eq!(walk.next(LIST), IterStep::End);
}

#[test]
fn the_fields_of_nodes_and_wrappers() {
    let node = FxrListNode { address: NODE_A };
    assert_eq!(node.next_slot(), NODE_A);
    assert_eq!(node.id_slot(), NODE_A + 0x10);
    assert_eq!(node.wrapper_slot(), NODE_A + 0x18);
    assert_eq!(FxrWrapper { address: WRAPPER_A }.fxr_slot(), WRAPPER_A);
    assert_eq!(field(usize::MAX, 0x18), 0x17);
}

fn code_of(pattern: &str) -> Vec<u8> {
    let compiled = fxr_reloader::pattern::Pattern::from_bit_pattern(pattern).unwrap();
    (0..compiled.len()).map(|i| compiled.byte(i).unwrap().0).collect()
}

fn put(text: &mut Vec<u8>, at: usize, code: &[u8]) {
    text[at..at + code.len()].copy_from_slice(code);
}

#[test]
fn the_entry_points_are_found_by_their_idioms() {
    let base = 0x14000_1000;
    let mut code = vec![0x90u8; 0x400];
    put(&mut code, 0x40, &code_of(PATCH_OFFSETS_PATTERN));
    put(&mut code, 0x100, &code_of(WTF_FXR_PATTERN));
    let mut call = code_of(GET_ALLOCATOR_PATTERN);
    // the call stands at 0x200 + 23; its displacement leads back to 0x20
    let end_of_call = base + 0x200 + 28;
    let displacement = ((base + 0x20) as i64 - end_of_call as i64) as i32;
    call[24..].copy_from_slice(&displacement.to_le_bytes());
    put(&mut code, 0x200, &call);
    let text = Section::new(base, &code).unwrap();
    assert_eq!(
        EldenRingFxrPatcher::new(&text),
        Ok(EldenRingFxrPatcher {
            patch_fxr_offset: base + 0x40,
            prepare_fxr: base + 0x100,
            fxr_allocator_getter: base + 0x20,
        })
    );
}

#[test]
fn each_missing_idiom_is_named() {
    let base = 0x14000_1000;
    let empty = Section::new(base, &[0x90u8; 0x400]).unwrap();
    assert_eq!(
        EldenRingFxrPatcher::new(&empty),
        Err(PatchFxrError::InstructionPattern("get_allocator_call".to_string()))
    );
    let mut code = vec![0x90u8; 0x400];
    put(&mut code, 0x200, &code_of(GET_ALLOCATOR_PATTERN));
    let first_code = code.clone();
    let only_call = Section::new(base, &first_code).unwrap();
    assert_eq!(
        EldenRingFxrPatcher::new(&only_call),
        Err(PatchFxrError::InstructionPattern("patch_fxr".to_string()))
    );
    put(&mut code, 0x40, &code_of(PATCH_OFFSETS_PATTERN));
    let without_prepare = Section::new(base, &code).unwrap();
    assert_eq!(
        EldenRingFxrPatcher::new(&without_prepare),
        Err(PatchFxrError::InstructionPattern("wtf_fxr".to_string()))
    );
}
