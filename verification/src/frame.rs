use vstd::prelude::*;
use crate::identifier::Id;

verus! {

/// Which way a frame went.
#[derive(Debug, Clone, Copy, PartialEq, Eq, Structural)]
pub enum Direct {
    Transmit,
    Receive,
}

impl Default for Direct {
    fn default() -> (r: Self)
        ensures
            r == Direct::Transmit,
    {
        Direct::Transmit
    }
}

/// The word that a log of frames writes for a direction.
pub open spec fn spec_direct(way: Direct) -> Seq<char> {
    match way {
        Direct::Transmit => "Tx"@,
        Direct::Receive => "Rx"@,
    }
}

#[inline]
pub fn direct(way: Direct) -> (r: &'static str)
    ensures
        r@ == spec_direct(way),
{
    match way {
        Direct::Transmit => "Tx",
        Direct::Receive => "Rx",
    }
}

/// A frame of a CAN device. `T` names the channel it belongs to.
pub trait Frame<T: std::fmt::Display> {
    fn new(id: impl Into<Id>, data: &[u8]) -> Option<Self> where Self: Sized;

    fn new_remote(id: impl Into<Id>, len: usize) -> Option<Self> where Self: Sized;

    fn timestamp(&self) -> u64;

    fn set_timestamp(&mut self, value: Option<u64>) -> &mut Self where Self: Sized;

    fn id(&self, extended: bool) -> Id;

    fn is_can_fd(&self) -> bool;

    fn set_can_fd(&mut self, value: bool) -> &mut Self where Self: Sized;

    fn is_remote(&self) -> bool;

    fn is_extended(&self) -> bool;

    fn direct(&self) -> Direct;

    fn set_direct(&mut self, direct: Direct) -> &mut Self where Self: Sized;

    fn is_bitrate_switch(&self) -> bool;

    fn set_bitrate_switch(&mut self, value: bool) -> &mut Self where Self: Sized;

    fn is_error_frame(&self) -> bool;

    fn set_error_frame(&mut self, value: bool) -> &mut Self where Self: Sized;

    /// Error state indicator.
    fn is_esi(&self) -> bool;

    /// Sets the error state indicator.
    fn set_esi(&mut self, value: bool) -> &mut Self where Self: Sized;

    fn channel(&self) -> T;

    fn set_channel(&mut self, value: T) -> &mut Self where Self: Sized;

    fn data(&self) -> &[u8];

    fn dlc(&self) -> usize;

    fn length(&self) -> usize;
}

} // verus!
