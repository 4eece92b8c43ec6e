//! The bits of the modifiers of a semantic token.
use vstd::prelude::*;

verus! {

pub const DECLARATION: u32 = 1;

pub const DEFINITION: u32 = 2;

pub const READONLY: u32 = 4;

pub const DEFAULT_LIBRARY: u32 = 8;

pub const MODIFICATION: u32 = 16;

} // verus!
