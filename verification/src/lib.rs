//! Driver core for a SparkFun SerLCD-compatible serial LCD controller.
//!
//! The controller speaks a two-tier byte protocol over an I2C bus: plain
//! setting commands framed with `0x7C`, special cursor/positioning commands
//! framed with `254`, and un-prefixed bytes that the display shows as text.
//! This crate encodes those frames, drives them through a [`transport::Transport`]
//! port, and proves the exact byte sequences that each operation emits.

pub mod lcd;
pub mod protocol;
pub mod transport;

pub use lcd::LcdConn;
pub use protocol::map_range;
pub use transport::MockTransport;
pub use transport::Transport;
pub use transport::TransportError;
