use vstd::prelude::*;
use crate::isotp::error::{ErrorView, IsoTpError};

verus! {

/// What a channel tells its listeners.
#[derive(Debug, PartialEq, Eq)]
pub enum IsoTpEvent {
    /// The receiver asked the sender to hold.
    Wait,
    /// A first frame came and was answered.
    FirstFrameReceived,
    /// A whole message came.
    DataReceived(Vec<u8>),
    /// Something went wrong on the channel.
    ErrorOccurred(IsoTpError),
}

/// The mathematical value of an [`IsoTpEvent`].
pub enum EventView {
    Wait,
    FirstFrameReceived,
    DataReceived(Seq<u8>),
    ErrorOccurred(ErrorView),
}

impl View for IsoTpEvent {
    type V = EventView;

    open spec fn view(&self) -> EventView {
        match *self {
            IsoTpEvent::Wait => EventView::Wait,
            IsoTpEvent::FirstFrameReceived => EventView::FirstFrameReceived,
            IsoTpEvent::DataReceived(data) => EventView::DataReceived(data@),
            IsoTpEvent::ErrorOccurred(e) => EventView::ErrorOccurred(e@),
        }
    }
}

impl Clone for IsoTpEvent {
    fn clone(&self) -> (r: Self)
        ensures
            r@ == self@,
    {
        match self {
            IsoTpEvent::Wait => IsoTpEvent::Wait,
            IsoTpEvent::FirstFrameReceived => IsoTpEvent::FirstFrameReceived,
            IsoTpEvent::DataReceived(data) => IsoTpEvent::DataReceived(data.clone()),
            IsoTpEvent::ErrorOccurred(e) => IsoTpEvent::ErrorOccurred(e.clone()),
        }
    }
}

/// The values of a sequence of events, one by one.
pub open spec fn event_views(events: Seq<IsoTpEvent>) -> Seq<EventView> {
    Seq::new(events.len(), |i: int| events[i]@)
}

} // verus!
