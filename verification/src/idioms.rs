//! The idioms by which the entry points of the game are found again in
//! every build: the first instructions of each function, with the bits that
//! vary from build to build left open.

use vstd::prelude::*;

verus! {

/// The function that turns the offsets inside a definition into pointers.
/// It spills its three arguments, clears 0x100 bytes of stack, and loads the
/// first argument twice.
pub const PATCH_OFFSETS_PATTERN: &'static str =
    "01001... 10001001 01000100 ..100100 00011000 \
    01001... 10001001 01010100 ..100100 00010000 \
    01001... 10001001 01001100 ..100100 00001000 \
    01010111 \
    01001... 10000001 11101100 00000000 00000001 00000000 00000000 \
    01001... 10001011 11111100 \
    10111001 01000000 00000000 00000000 00000000 \
    10111000 11001100 11001100 11001100 11001100 \
    11110011 10101011 \
    01001... 10001011 10001100 ..100100 00010000 00000001 00000000 00000000 \
    01001... 10001011 10000100 ..100100 00010000 00000001 00000000 00000000";

/// The function that prepares a definition for use. It spills its argument,
/// clears 0x130 bytes of stack, and loads the argument twice.
pub const WTF_FXR_PATTERN: &'static str =
    "01001... 10001001 01001100 ..100100 00001000 \
    01010111 \
    01001... 10000001 11101100 00110000 00000001 00000000 00000000 \
    01001... 10001011 11111100 \
    10111001 01001100 00000000 00000000 00000000 \
    10111000 11001100 11001100 11001100 11001100 \
    11110011 10101011 \
    01001... 10001011 10001100 ..100100 01000000 00000001 00000000 00000000 \
    01001... 10001011 10000100 ..100100 01000000 00000001 00000000 00000000";

/// The call of the function that gives the allocator for definitions, behind
/// a check of the version of a definition. The capture is the displacement
/// of the call.
pub const GET_ALLOCATOR_PATTERN: &'static str =
    "01001... 10001011 01000100 ..100100 00101000 \
    10001011 01000000 00000100 \
    11000001 11101000 00010000 \
    10000011 11111000 00000101 \
    01110100 ........ \
    00110011 11000000 \
    11101001 ........ ........ ........ ........ \
    11101000 [........ ........ ........ ........]";

} // verus!
