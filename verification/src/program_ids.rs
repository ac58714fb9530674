//! Identities of the programs this library speaks of, as key bytes.

use vstd::prelude::*;

verus! {

/// The arena program itself, owner of every record described here.
pub const ID: [u8; 32] = [
    111, 142, 102, 73, 243, 230, 166, 134, 97, 25, 203, 217, 235, 150, 31, 92,
    6, 214, 57, 58, 184, 7, 106, 51, 191, 17, 31, 159, 219, 72, 241, 89,
];

/// The token metadata registry.
pub const MPL_TOKEN_METADATA_ID: [u8; 32] = [
    11, 112, 101, 177, 227, 209, 124, 69, 56, 157, 82, 127, 107, 4, 195, 205,
    88, 184, 108, 115, 26, 160, 253, 181, 73, 182, 209, 188, 3, 248, 41, 70,
];

/// The delegation program of the external execution domain.
pub const DELEGATION_PROGRAM_ID: [u8; 32] = [
    181, 183, 0, 225, 242, 87, 58, 192, 204, 6, 34, 1, 52, 74, 207, 151,
    184, 53, 6, 235, 140, 229, 25, 152, 204, 98, 126, 24, 147, 128, 167, 62,
];

/// The system program.
pub const SYSTEM_PROGRAM_ID: [u8; 32] = [
    0, 0, 0, 0, 0, 0, 0, 0, 0, 0, 0, 0, 0, 0, 0, 0,
    0, 0, 0, 0, 0, 0, 0, 0, 0, 0, 0, 0, 0, 0, 0, 0,
];

} // verus!
