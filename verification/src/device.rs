use vstd::prelude::*;
use crate::identifier::Id;

verus! {

/// What a device calls when frames went out or came in.
pub trait CanListener<F, Channel: Eq>: Send {
    /// Called when a frame went out.
    fn on_frame_transmitted(&mut self, id: Id, channel: Channel);

    /// Called when frames came in.
    fn on_frame_received(&mut self, frames: &Vec<F>, channel: Channel);
}

} // verus!
