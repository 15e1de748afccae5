use vstd::prelude::*;

verus! {

/// Mask of the 11 identifier bits of a standard frame.
pub const SFF_MASK: u32 = 0x0000_07FF;

/// Mask of the 29 identifier bits of an extended frame.
pub const EFF_MASK: u32 = 0x1FFF_FFFF;

/// The most data bytes a classic CAN frame carries.
pub const CAN_FRAME_MAX_SIZE: usize = 8;

/// The most data bytes a CAN-FD frame carries.
pub const CANFD_FRAME_MAX_SIZE: usize = 64;

/// The byte that fills unused frame bytes under the 2016 revision.
pub const DEFAULT_PADDING: u8 = 0xAA;

/// The byte that fills unused frame bytes under the 2004 revision.
pub const DEFAULT_PADDING_2004: u8 = 0x00;

/// The longest message that a 12-bit length field announces.
pub const ISO_TP_MAX_LENGTH_2004: usize = 0xFFF;

/// The longest message that a 32-bit length field announces.
pub const ISO_TP_MAX_LENGTH_2016: usize = 0xFFFF_FFFF;

/// The sequence number of the first consecutive frame of a message.
pub const CONSECUTIVE_SEQUENCE_START: u8 = 1;

/// Separation time of the flow control frame sent where the caller gives none, in milliseconds.
pub const DEFAULT_ST_MIN: u8 = 10;

} // verus!
