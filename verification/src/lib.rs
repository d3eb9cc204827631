//! Host-side driver logic for an Arduino-based switch deck on a serial line:
//! device identification, frame and packet decoding, and the decisions of the
//! connection lifecycle.

pub mod device;
