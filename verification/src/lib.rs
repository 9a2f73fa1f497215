//! Plain-value data types and helpers of Apple's CoreAudio family of
//! frameworks: four-character codes, stream format identifiers and flags,
//! channel labels and layout tags, and the small computations the framework
//! headers define over them.
#![allow(non_snake_case)]
#![allow(non_upper_case_globals)]

use vstd::prelude::*;

pub mod base_types;
pub mod session_types;

verus! {

/// A four-character code: four ASCII bytes read as one big-endian
/// 32-bit integer.
pub type OSType = u32;

/// The result code of the classic Apple API surface.
pub type OSStatus = i32;

} // verus!
