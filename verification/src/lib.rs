//! Verified core of a bridge daemon for a dual-probe USB HID thermometer.
//!
//! The library holds everything with protocol state or numeric semantics:
//! the command/response handshake with the device (firmware validation, the
//! mandatory warm-up read, the dual-buffer sample read), the big-endian
//! signed fixed-point decoding of each sample, device discovery over an
//! enumerated device list, and the per-cycle publish decisions of the
//! acquisition loop. All I/O (HID reads and writes, broker publishes,
//! logging, timers) lives outside the library and hands it plain values.

pub mod discovery;
pub mod protocol;
pub mod publishing;
