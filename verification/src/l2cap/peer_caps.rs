//! Link capability bits exchanged with a BLE peer.

use vstd::prelude::*;

verus! {

pub const LEGACY_CENTRAL_ONLY: u8 = 0x01;
pub const PREFER_OUTBOUND: u8 = 0x02;
pub const PREFER_L2CAP: u8 = 0x04;
pub const CAN_CENTRAL: u8 = 0x08;
pub const CAN_PERIPHERAL: u8 = 0x10;
pub const L2CAP_SUPPORTED: u8 = 0x20;
pub const GATT_SUPPORTED: u8 = 0x40;

/// What an ESP32 advertises: both roles, L2CAP supported and preferred.
pub const ESP32_DEFAULT: u8 = CAN_CENTRAL | CAN_PERIPHERAL | L2CAP_SUPPORTED | PREFER_L2CAP;

/// What the Linux daemon advertises: both roles, L2CAP and GATT, L2CAP preferred.
pub const FIPS_LINUX_DEFAULT: u8 = L2CAP_SUPPORTED | CAN_CENTRAL | CAN_PERIPHERAL | GATT_SUPPORTED
    | PREFER_L2CAP;

} // verus!
