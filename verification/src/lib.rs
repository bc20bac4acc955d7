//! Verified core of a minimal FIPS leaf node: link framing and the
//! decisions of the handshake and the established link, the FSP session
//! pacing, the transport-neutral service layer with its router, client and
//! demo service, link metrics bookkeeping, the ESP-NOW routing table, the BLE
//! L2CAP wire helpers and the STM32 board's status logic.

pub mod board;
pub mod bytes;
pub mod client;
pub mod demo;
pub mod error;
pub mod framing;
pub mod fsp_app;
pub mod fsp_session;
pub mod handshake;
pub mod harness;
pub mod keylog;
pub mod l2cap;
pub mod mmp;
pub mod node;
pub mod peer_table;
pub mod router;
pub mod scripted;
pub mod service;
pub mod steady;
pub mod text;
pub mod throughput;
pub mod time;
