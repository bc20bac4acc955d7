//! Node capability bits a BLE node advertises.

use vstd::prelude::*;

verus! {

pub const LEAF_ONLY: u8 = 0x01;
pub const HAS_TUN: u8 = 0x02;
pub const HAS_INTERNET: u8 = 0x04;

} // verus!
