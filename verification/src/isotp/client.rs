use std::collections::HashMap;
use vstd::prelude::*;
use vstd::std_specs::hash::*;
use crate::identifier::Id;
use crate::isotp::context::{ContextView, IsoTpContext, spec_blocking_flags, spec_request_flags};
use crate::isotp::error::{ErrorView, IsoTpError};
use crate::isotp::event::{IsoTpEvent, event_views};
use crate::isotp::frame::{
    Address, CanIsoTpFrame, FlowControlContext, FrameType, PduView, frame_views,
};
use crate::isotp::listener::{ReceivedFrame, received_views, spec_reassembly_flags};
use crate::isotp::standard::Profile;
use crate::isotp::state::IsoTpState;
use crate::isotp::util::{spec_encode, spec_from_data};

verus! {

broadcast use vstd::std_specs::hash::group_hash_axioms;

/// One frame to hand to the device: where it goes, what kind of frame of the
/// protocol it carries, whether it is the last of its message, and its bytes.
#[derive(Debug, PartialEq, Eq)]
pub struct Transmission {
    pub id: Id,
    pub frame_type: FrameType,
    pub last: bool,
    pub data: Vec<u8>,
}

/// The mathematical value of a [`Transmission`].
pub struct TransmissionView {
    pub id: Id,
    pub frame_type: FrameType,
    pub last: bool,
    pub data: Seq<u8>,
}

impl View for Transmission {
    type V = TransmissionView;

    open spec fn view(&self) -> TransmissionView {
        TransmissionView {
            id: self.id,
            frame_type: self.frame_type,
            last: self.last,
            data: self.data@,
        }
    }
}

impl Clone for Transmission {
    fn clone(&self) -> (r: Self)
        ensures
            r@ == self@,
    {
        Transmission {
            id: self.id,
            frame_type: self.frame_type,
            last: self.last,
            data: self.data.clone(),
        }
    }
}

/// The values of a sequence of transmissions, one by one.
pub open spec fn transmission_views(frames: Seq<Transmission>) -> Seq<TransmissionView> {
    Seq::new(frames.len(), |i: int| frames[i]@)
}

/// The frames of the device that carry `pdus` to the identifier `can_id`,
/// in their order, padded with the profile's padding byte.
pub open spec fn spec_transmissions(profile: Profile, can_id: u32, pdus: Seq<PduView>) -> Seq<
    TransmissionView,
> {
    Seq::new(
        pdus.len(),
        |i: int|
            TransmissionView {
                id: Id::spec_from_bits(can_id, false),
                frame_type: pdus[i].frame_type(),
                last: i + 1 == pdus.len(),
                data: spec_encode(profile, pdus[i], profile.spec_default_padding()),
            },
    )
}

/// What a sender that is about to hand a frame to the device must do.
#[derive(Debug, Clone, Copy, PartialEq, Eq, Structural)]
pub enum WriteWait {
    /// Hand the frame over.
    Proceed,
    /// Let some time pass and ask again.
    Wait,
    /// Give up: the channel is in the error state.
    Abort,
}

/// The flags that a channel takes on when a frame of the given kind goes
/// out: after a single frame and after the last consecutive frame it sends
/// and waits for an answer, which is a single or a first frame; after a
/// first frame it sends and waits for flow control; after another
/// consecutive frame it sends and waits for data; after a flow control frame
/// it sends.
pub open spec fn spec_write_flags(frame_type: FrameType, last: bool) -> IsoTpState {
    match frame_type {
        FrameType::Single => spec_request_flags(),
        FrameType::First => IsoTpState::spec_sending().spec_union(IsoTpState::spec_wait_flow_ctrl()),
        FrameType::Consecutive => if last {
            spec_request_flags()
        } else {
            spec_reassembly_flags()
        },
        FrameType::FlowControl => IsoTpState::spec_sending(),
    }
}

/// The text of the error for a channel that is not registered.
pub open spec fn spec_unknown_channel() -> Seq<char> {
    "channel is not registered"@
}

impl ContextView {
    /// What a sender must do before the next frame: give up where the
    /// channel is in the error state; wait where waiting is switched on and
    /// the channel still sends, or waits for flow control, or is busy, or has
    /// a response pending; go on otherwise.
    pub open spec fn write_wait(self) -> WriteWait {
        if self.state.error {
            WriteWait::Abort
        } else if self.write_waiting && self.state.spec_intersects(spec_blocking_flags()) {
            WriteWait::Wait
        } else {
            WriteWait::Proceed
        }
    }

    /// The microseconds to let pass before a frame of the given kind goes
    /// out: the separation time before a consecutive frame, none otherwise.
    pub open spec fn pacing(self, frame_type: FrameType) -> u32 {
        if frame_type == FrameType::Consecutive {
            self.st_min
        } else {
            0
        }
    }

    /// The context when a frame of the given kind goes out.
    pub open spec fn on_frame_writing(self, frame_type: FrameType, last: bool) -> ContextView {
        self.state_add(spec_write_flags(frame_type, last))
    }

    /// The context when the device refused a frame: the channel is in the
    /// error state and the listeners are told of a device error.
    pub open spec fn on_send_failed(self) -> ContextView {
        self.state_add(IsoTpState::spec_error())
    }
}

impl IsoTpContext {
    pub fn write_wait(&self) -> (r: WriteWait)
        ensures
            r == self@.write_wait(),
    {
        let state = self.state();
        if state.error {
            WriteWait::Abort
        } else if self.write_waiting() && state.intersects(
            IsoTpState::sending().union(IsoTpState::response_pending()).union(
                IsoTpState::wait_flow_ctrl(),
            ).union(IsoTpState::wait_busy()),
        ) {
            WriteWait::Wait
        } else {
            WriteWait::Proceed
        }
    }

    pub fn pacing(&self, frame_type: FrameType) -> (r: u32)
        ensures
            r == self@.pacing(frame_type),
    {
        match frame_type {
            FrameType::Consecutive => self.st_min(),
            _ => 0,
        }
    }

    pub fn on_frame_writing(&mut self, frame_type: FrameType, last: bool)
        ensures
            final(self)@ == old(self)@.on_frame_writing(frame_type, last),
            old(self)@.is_valid() ==> final(self)@.is_valid(),
    {
        let request = IsoTpState::sending().union(IsoTpState::wait_single()).union(
            IsoTpState::wait_first(),
        );
        let flags = match frame_type {
            FrameType::Single => request,
            FrameType::First => IsoTpState::sending().union(IsoTpState::wait_flow_ctrl()),
            FrameType::Consecutive => if last {
                request
            } else {
                IsoTpState::sending().union(IsoTpState::wait_data())
            },
            FrameType::FlowControl => IsoTpState::sending(),
        };
        self.state_add(flags);
    }

    pub fn on_send_failed(&mut self)
        ensures
            final(self)@ == old(self)@.on_send_failed(),
            old(self)@.is_valid() ==> final(self)@.is_valid(),
    {
        self.state_add(IsoTpState::error());
    }
}

/// Turns frames of the protocol into frames for the device, addressed to
/// `can_id`.
pub fn to_transmissions(profile: Profile, can_id: u32, frames: &Vec<CanIsoTpFrame>) -> (r: Vec<
    Transmission,
>)
    ensures
        transmission_views(r@) == spec_transmissions(profile, can_id, frame_views(frames@)),
{
    let mut result: Vec<Transmission> = Vec::new();
    let mut i: usize = 0;
    while i < frames.len()
        invariant
            i <= frames.len(),
            result.len() == i,
            forall|k: int|
                0 <= k < i ==> (#[trigger] result@[k])@ == spec_transmissions(
                    profile,
                    can_id,
                    frame_views(frames@),
                )[k],
        decreases frames.len() - i,
    {
        let frame = frames[i].clone();
        let frame_type = frame.frame_type();
        let data = frame.encode(profile, None);
        result.push(
            Transmission { id: Id::from_bits(can_id, false), frame_type, last: i + 1 == frames.len(), data },
        );
        i = i + 1;
    }
    assert(transmission_views(result@) =~= spec_transmissions(
        profile,
        can_id,
        frame_views(frames@),
    ));
    result
}

/// The channels of one device, each with its context, and the wire profile
/// they share.
pub struct CanIsoTp {
    profile: Profile,
    contexts: HashMap<u64, IsoTpContext>,
}

/// Every context is valid.
pub open spec fn spec_all_valid(contexts: Map<u64, ContextView>) -> bool {
    forall|channel: u64| #[trigger]
        contexts.contains_key(channel) ==> contexts[channel].is_valid()
}

/// What a write on a channel hands to the device, or why it hands nothing.
///
/// The channel must be registered. The payload is cut into frames, with the
/// default flow control frame, and the frames are addressed to the identifier
/// that the channel sends to, or to the one for all nodes where `functional`
/// holds.
pub open spec fn spec_write(
    contexts: Map<u64, ContextView>,
    profile: Profile,
    channel: u64,
    functional: bool,
    data: Seq<u8>,
) -> Result<Seq<TransmissionView>, ErrorView> {
    if !contexts.contains_key(channel) {
        Err(ErrorView::ContextError(spec_unknown_channel()))
    } else {
        match spec_from_data(profile, data, Seq::empty()) {
            Ok(pdus) => Ok(
                spec_transmissions(
                    profile,
                    if functional {
                        contexts[channel].address.fid
                    } else {
                        contexts[channel].address.tx_id
                    },
                    pdus,
                ),
            ),
            Err(e) => Err(e),
        }
    }
}

/// The value of what a write returns.
pub open spec fn transmissions_result_view(r: Result<Vec<Transmission>, IsoTpError>) -> Result<
    Seq<TransmissionView>,
    ErrorView,
> {
    match r {
        Ok(frames) => Ok(transmission_views(frames@)),
        Err(e) => Err(e@),
    }
}

/// The value of what a handler of a registered channel returns: it has
/// handled the frame, or failed.
pub open spec fn handled(r: Result<(), ErrorView>) -> Result<bool, ErrorView> {
    match r {
        Ok(_) => Ok(true),
        Err(e) => Err(e),
    }
}

/// The value of what a handler of a channel returns.
pub open spec fn bool_result_view(r: Result<bool, IsoTpError>) -> Result<bool, ErrorView> {
    match r {
        Ok(done) => Ok(done),
        Err(e) => Err(e@),
    }
}

impl View for CanIsoTp {
    type V = Map<u64, ContextView>;

    closed spec fn view(&self) -> Map<u64, ContextView> {
        Map::new(|c: u64| self.contexts@.contains_key(c), |c: u64| self.contexts@[c]@)
    }
}

impl CanIsoTp {
    /// The wire profile of the channels.
    pub closed spec fn spec_profile(&self) -> Profile {
        self.profile
    }

    fn unknown_channel() -> (r: IsoTpError)
        ensures
            r@ == ErrorView::ContextError(spec_unknown_channel()),
    {
        IsoTpError::ContextError("channel is not registered".to_owned())
    }

    /// No channels yet.
    pub fn new(profile: Profile) -> (r: Self)
        ensures
            r@ == Map::<u64, ContextView>::empty(),
            r.spec_profile() == profile,
    {
        let r = Self { profile, contexts: HashMap::new() };
        assert(r@ =~= Map::<u64, ContextView>::empty());
        r
    }

    #[verifier::when_used_as_spec(spec_profile)]
    pub fn profile(&self) -> (r: Profile)
        ensures
            r == self.spec_profile(),
    {
        self.profile
    }

    /// Takes the context of a channel out, to put it back changed.
    fn take(&mut self, channel: u64) -> (r: Option<IsoTpContext>)
        ensures
            final(self).spec_profile() == old(self).spec_profile(),
            spec_all_valid(old(self)@) ==> spec_all_valid(final(self)@),
            final(self)@ == old(self)@.remove(channel),
            match r {
                Some(context) => old(self)@.contains_key(channel) && context@ == old(self)@[channel],
                None => !old(self)@.contains_key(channel),
            },
    {
        let r = self.contexts.remove(&channel);
        assert(self@ =~= old(self)@.remove(channel));
        r
    }

    fn put(&mut self, channel: u64, context: IsoTpContext)
        ensures
            final(self).spec_profile() == old(self).spec_profile(),
            spec_all_valid(old(self)@) && context@.is_valid() ==> spec_all_valid(final(self)@),
            final(self)@ == old(self)@.insert(channel, context@),
    {
        self.contexts.insert(channel, context);
        assert(self@ =~= old(self)@.insert(channel, context@));
    }

    /// Registers a channel, with a new context. A channel of that number
    /// that was registered before starts anew.
    pub fn add_channel(&mut self, channel: u64, address: Address)
        ensures
            final(self).spec_profile() == old(self).spec_profile(),
            spec_all_valid(old(self)@) ==> spec_all_valid(final(self)@),
            final(self)@ == old(self)@.insert(channel, ContextView::new(address)),
    {
        self.put(channel, IsoTpContext::new(address));
    }

    /// Removes a channel and its context. Tells whether there was one.
    pub fn remove_channel(&mut self, channel: u64) -> (r: bool)
        ensures
            final(self).spec_profile() == old(self).spec_profile(),
            spec_all_valid(old(self)@) ==> spec_all_valid(final(self)@),
            final(self)@ == old(self)@.remove(channel),
            r == old(self)@.contains_key(channel),
    {
        self.take(channel).is_some()
    }

    /// Whether the channel is registered.
    pub fn has_channel(&self, channel: u64) -> (r: bool)
        ensures
            r == self@.contains_key(channel),
    {
        self.contexts.contains_key(&channel)
    }

    /// Puts a channel back at the start. Tells whether there is such a
    /// channel; where there is none, nothing changes.
    pub fn reset_channel(&mut self, channel: u64) -> (r: bool)
        ensures
            final(self).spec_profile() == old(self).spec_profile(),
            spec_all_valid(old(self)@) ==> spec_all_valid(final(self)@),
            r == old(self)@.contains_key(channel),
            r ==> final(self)@ == old(self)@.insert(channel, old(self)@[channel].reset()),
            !r ==> final(self)@ == old(self)@,
    {
        match self.take(channel) {
            Some(mut context) => {
                context.reset();
                self.put(channel, context);
                assert(self@ =~= old(self)@.insert(channel, old(self)@[channel].reset()));
                true
            },
            None => {
                assert(self@ =~= old(self)@);
                false
            },
        }
    }

    /// Adds flags to a channel. Tells whether there is such a channel;
    /// where there is none, nothing changes.
    pub fn state_add(&mut self, channel: u64, flags: IsoTpState) -> (r: bool)
        ensures
            final(self).spec_profile() == old(self).spec_profile(),
            spec_all_valid(old(self)@) ==> spec_all_valid(final(self)@),
            r == old(self)@.contains_key(channel),
            r ==> final(self)@ == old(self)@.insert(channel, old(self)@[channel].state_add(flags)),
            !r ==> final(self)@ == old(self)@,
    {
        match self.take(channel) {
            Some(mut context) => {
                context.state_add(flags);
                self.put(channel, context);
                assert(self@ =~= old(self)@.insert(channel, old(self)@[channel].state_add(flags)));
                true
            },
            None => {
                assert(self@ =~= old(self)@);
                false
            },
        }
    }

    /// Removes flags from a channel. Tells whether there is such a
    /// channel; where there is none, nothing changes.
    pub fn state_remove(&mut self, channel: u64, flags: IsoTpState) -> (r: bool)
        ensures
            final(self).spec_profile() == old(self).spec_profile(),
            spec_all_valid(old(self)@) ==> spec_all_valid(final(self)@),
            r == old(self)@.contains_key(channel),
            r ==> final(self)@ == old(self)@.insert(
                channel,
                old(self)@[channel].state_remove(flags),
            ),
            !r ==> final(self)@ == old(self)@,
    {
        match self.take(channel) {
            Some(mut context) => {
                context.state_remove(flags);
                self.put(channel, context);
                assert(self@ =~= old(self)@.insert(
                    channel,
                    old(self)@[channel].state_remove(flags),
                ));
                true
            },
            None => {
                assert(self@ =~= old(self)@);
                false
            },
        }
    }

    /// Switches on or off that a sender on a channel is held back while
    /// the channel is busy. Tells whether there is such a channel; where
    /// there is none, nothing changes.
    pub fn set_write_waiting(&mut self, channel: u64, flag: bool) -> (r: bool)
        ensures
            final(self).spec_profile() == old(self).spec_profile(),
            spec_all_valid(old(self)@) ==> spec_all_valid(final(self)@),
            r == old(self)@.contains_key(channel),
            r ==> final(self)@ == old(self)@.insert(
                channel,
                ContextView { write_waiting: flag, ..old(self)@[channel] },
            ),
            !r ==> final(self)@ == old(self)@,
    {
        match self.take(channel) {
            Some(mut context) => {
                context.set_write_waiting(flag);
                self.put(channel, context);
                assert(self@ =~= old(self)@.insert(
                    channel,
                    ContextView { write_waiting: flag, ..old(self)@[channel] },
                ));
                true
            },
            None => {
                assert(self@ =~= old(self)@);
                false
            },
        }
    }

    /// The flags of a channel, where there is such a channel.
    pub fn state(&self, channel: u64) -> (r: Option<IsoTpState>)
        ensures
            r == if self@.contains_key(channel) {
                Some(self@[channel].state)
            } else {
                None
            },
    {
        match self.contexts.get(&channel) {
            Some(context) => Some(context.state()),
            None => None,
        }
    }

    /// The address of a channel, where there is such a channel.
    pub fn address(&self, channel: u64) -> (r: Option<Address>)
        ensures
            r == if self@.contains_key(channel) {
                Some(self@[channel].address)
            } else {
                None
            },
    {
        match self.contexts.get(&channel) {
            Some(context) => Some(context.address()),
            None => None,
        }
    }

    /// Takes the events of a channel that wait for the listeners, oldest
    /// first. A channel that is not registered has none.
    pub fn take_events(&mut self, channel: u64) -> (r: Vec<IsoTpEvent>)
        ensures
            final(self).spec_profile() == old(self).spec_profile(),
            spec_all_valid(old(self)@) ==> spec_all_valid(final(self)@),
            old(self)@.contains_key(channel) ==> event_views(r@) == old(self)@[channel].events
                && final(self)@ == old(self)@.insert(
                channel,
                ContextView { events: Seq::empty(), ..old(self)@[channel] },
            ),
            !old(self)@.contains_key(channel) ==> r@.len() == 0 && final(self)@ == old(self)@,
    {
        match self.take(channel) {
            Some(mut context) => {
                let events = context.take_events();
                self.put(channel, context);
                assert(self@ =~= old(self)@.insert(
                    channel,
                    ContextView { events: Seq::empty(), ..old(self)@[channel] },
                ));
                events
            },
            None => {
                assert(self@ =~= old(self)@);
                Vec::new()
            },
        }
    }

    /// The frames to hand to the device, in their order, to write `data`
    /// on a channel. Nothing changes: the state of the channel moves on as
    /// each frame goes out (see [`CanIsoTp::on_frame_writing`]).
    pub fn write(&self, channel: u64, functional: bool, data: &[u8]) -> (r: Result<
        Vec<Transmission>,
        IsoTpError,
    >)
        ensures
            transmissions_result_view(r) == spec_write(
                self@,
                self.spec_profile(),
                channel,
                functional,
                data@,
            ),
    {
        let address = match self.address(channel) {
            Some(address) => address,
            None => {
                return Err(Self::unknown_channel());
            },
        };
        let frames = match CanIsoTpFrame::from_data(self.profile, data, Vec::new()) {
            Ok(frames) => frames,
            Err(e) => {
                return Err(e);
            },
        };
        let can_id = if functional {
            address.fid
        } else {
            address.tx_id
        };
        Ok(to_transmissions(self.profile, can_id, &frames))
    }

    /// What a sender on a channel must do before the next frame.
    pub fn write_wait(&self, channel: u64) -> (r: Result<WriteWait, IsoTpError>)
        ensures
            match r {
                Ok(wait) => self@.contains_key(channel) && wait == self@[channel].write_wait(),
                Err(e) => !self@.contains_key(channel) && e@ == ErrorView::ContextError(
                    spec_unknown_channel(),
                ),
            },
    {
        match self.contexts.get(&channel) {
            Some(context) => Ok(context.write_wait()),
            None => Err(Self::unknown_channel()),
        }
    }

    /// The microseconds to let pass on a channel before a frame of the
    /// given kind goes out.
    pub fn pacing(&self, channel: u64, frame_type: FrameType) -> (r: Result<u32, IsoTpError>)
        ensures
            match r {
                Ok(us) => self@.contains_key(channel) && us == self@[channel].pacing(frame_type),
                Err(e) => !self@.contains_key(channel) && e@ == ErrorView::ContextError(
                    spec_unknown_channel(),
                ),
            },
    {
        match self.contexts.get(&channel) {
            Some(context) => Ok(context.pacing(frame_type)),
            None => Err(Self::unknown_channel()),
        }
    }

    /// Moves the state of a channel on as a frame of the given kind goes
    /// out. Tells whether there is such a channel; where there is none,
    /// nothing changes.
    pub fn on_frame_writing(&mut self, channel: u64, frame_type: FrameType, last: bool) -> (r: bool)
        ensures
            final(self).spec_profile() == old(self).spec_profile(),
            spec_all_valid(old(self)@) ==> spec_all_valid(final(self)@),
            r == old(self)@.contains_key(channel),
            r ==> final(self)@ == old(self)@.insert(
                channel,
                old(self)@[channel].on_frame_writing(frame_type, last),
            ),
            !r ==> final(self)@ == old(self)@,
    {
        match self.take(channel) {
            Some(mut context) => {
                context.on_frame_writing(frame_type, last);
                self.put(channel, context);
                assert(self@ =~= old(self)@.insert(
                    channel,
                    old(self)@[channel].on_frame_writing(frame_type, last),
                ));
                true
            },
            None => {
                assert(self@ =~= old(self)@);
                false
            },
        }
    }

    /// Puts a channel in the error state after the device refused a frame.
    /// Tells whether there is such a channel; where there is none, nothing
    /// changes.
    pub fn on_send_failed(&mut self, channel: u64) -> (r: bool)
        ensures
            final(self).spec_profile() == old(self).spec_profile(),
            spec_all_valid(old(self)@) ==> spec_all_valid(final(self)@),
            r == old(self)@.contains_key(channel),
            r ==> final(self)@ == old(self)@.insert(channel, old(self)@[channel].on_send_failed()),
            !r ==> final(self)@ == old(self)@,
    {
        self.state_add(channel, IsoTpState::error())
    }

    /// Hands a single frame to a channel. A channel that is not registered changes nothing and gives
    /// `Ok(false)`.
    pub fn on_single_frame(&mut self, channel: u64, data: Vec<u8>) -> (r: Result<bool, IsoTpError>)
        ensures
            final(self).spec_profile() == old(self).spec_profile(),
            spec_all_valid(old(self)@) ==> spec_all_valid(final(self)@),
            old(self)@.contains_key(channel) ==> final(self)@ == old(self)@.insert(
                channel,
                old(self)@[channel].on_single_frame(data@).0,
            ) && bool_result_view(r) == handled(old(self)@[channel].on_single_frame(data@).1),
            !old(self)@.contains_key(channel) ==> final(self)@ == old(self)@ && r == Ok::<
                bool,
                IsoTpError,
            >(false),
    {
        match self.take(channel) {
            Some(mut context) => {
                let result = context.on_single_frame(data);
                self.put(channel, context);
                assert(self@ =~= old(self)@.insert(
                    channel,
                    old(self)@[channel].on_single_frame(data@).0,
                ));
                match result {
                    Ok(_) => Ok(true),
                    Err(e) => Err(e),
                }
            },
            None => {
                assert(self@ =~= old(self)@);
                Ok(false)
            },
        }
    }

    /// Hands a first frame to a channel. A channel that is not registered changes nothing and gives
    /// `Ok(false)`.
    pub fn on_first_frame(&mut self, channel: u64, length: u32, data: Vec<u8>) -> (r: Result<bool, IsoTpError>)
        ensures
            final(self).spec_profile() == old(self).spec_profile(),
            spec_all_valid(old(self)@) ==> spec_all_valid(final(self)@),
            old(self)@.contains_key(channel) ==> final(self)@ == old(self)@.insert(
                channel,
                old(self)@[channel].on_first_frame(length, data@).0,
            ) && bool_result_view(r) == handled(old(self)@[channel].on_first_frame(length, data@).1),
            !old(self)@.contains_key(channel) ==> final(self)@ == old(self)@ && r == Ok::<
                bool,
                IsoTpError,
            >(false),
    {
        match self.take(channel) {
            Some(mut context) => {
                let result = context.on_first_frame(length, data);
                self.put(channel, context);
                assert(self@ =~= old(self)@.insert(
                    channel,
                    old(self)@[channel].on_first_frame(length, data@).0,
                ));
                match result {
                    Ok(_) => Ok(true),
                    Err(e) => Err(e),
                }
            },
            None => {
                assert(self@ =~= old(self)@);
                Ok(false)
            },
        }
    }

    /// Hands a consecutive frame to a channel. A channel that is not registered changes nothing and gives
    /// `Ok(false)`.
    pub fn on_consecutive_frame(&mut self, channel: u64, sequence: u8, data: Vec<u8>) -> (r: Result<bool, IsoTpError>)
        ensures
            final(self).spec_profile() == old(self).spec_profile(),
            spec_all_valid(old(self)@) ==> spec_all_valid(final(self)@),
            old(self)@.contains_key(channel) ==> final(self)@ == old(self)@.insert(
                channel,
                old(self)@[channel].on_consecutive_frame(sequence, data@).0,
            ) && bool_result_view(r) == handled(old(self)@[channel].on_consecutive_frame(sequence, data@).1),
            !old(self)@.contains_key(channel) ==> final(self)@ == old(self)@ && r == Ok::<
                bool,
                IsoTpError,
            >(false),
    {
        match self.take(channel) {
            Some(mut context) => {
                let result = context.on_consecutive_frame(sequence, data);
                self.put(channel, context);
                assert(self@ =~= old(self)@.insert(
                    channel,
                    old(self)@[channel].on_consecutive_frame(sequence, data@).0,
                ));
                match result {
                    Ok(_) => Ok(true),
                    Err(e) => Err(e),
                }
            },
            None => {
                assert(self@ =~= old(self)@);
                Ok(false)
            },
        }
    }

    /// Hands a flow control frame to a channel. A channel that is not registered changes nothing and gives
    /// `Ok(false)`.
    pub fn on_flow_ctrl_frame(&mut self, channel: u64, ctx: FlowControlContext) -> (r: Result<bool, IsoTpError>)
        ensures
            final(self).spec_profile() == old(self).spec_profile(),
            spec_all_valid(old(self)@) ==> spec_all_valid(final(self)@),
            old(self)@.contains_key(channel) ==> final(self)@ == old(self)@.insert(
                channel,
                old(self)@[channel].on_flow_ctrl_frame(ctx).0,
            ) && bool_result_view(r) == handled(old(self)@[channel].on_flow_ctrl_frame(ctx).1),
            !old(self)@.contains_key(channel) ==> final(self)@ == old(self)@ && r == Ok::<
                bool,
                IsoTpError,
            >(false),
    {
        match self.take(channel) {
            Some(mut context) => {
                let result = context.on_flow_ctrl_frame(ctx);
                self.put(channel, context);
                assert(self@ =~= old(self)@.insert(
                    channel,
                    old(self)@[channel].on_flow_ctrl_frame(ctx).0,
                ));
                match result {
                    Ok(_) => Ok(true),
                    Err(e) => Err(e),
                }
            },
            None => {
                assert(self@ =~= old(self)@);
                Ok(false)
            },
        }
    }

    /// Takes the report that a frame with identifier `id` went out on a
    /// channel. A channel that is not registered changes nothing.
    pub fn on_frame_transmitted(&mut self, channel: u64, id: u32)
        ensures
            final(self).spec_profile() == old(self).spec_profile(),
            spec_all_valid(old(self)@) ==> spec_all_valid(final(self)@),
            old(self)@.contains_key(channel) ==> final(self)@ == old(self)@.insert(
                channel,
                old(self)@[channel].on_frame_transmitted(id),
            ),
            !old(self)@.contains_key(channel) ==> final(self)@ == old(self)@,
    {
        match self.take(channel) {
            Some(mut context) => {
                context.on_frame_transmitted(id);
                self.put(channel, context);
                assert(self@ =~= old(self)@.insert(
                    channel,
                    old(self)@[channel].on_frame_transmitted(id),
                ));
            },
            None => {
                assert(self@ =~= old(self)@);
            },
        }
    }

    /// Takes a batch of frames that the device received on a channel.
    /// Returns the frames to hand to the device in answer, addressed to the
    /// identifier that the channel sends to. A channel that is not
    /// registered changes nothing and answers nothing.
    pub fn on_frame_received(&mut self, channel: u64, frames: &Vec<ReceivedFrame>) -> (r: Vec<
        Transmission,
    >)
        ensures
            final(self).spec_profile() == old(self).spec_profile(),
            spec_all_valid(old(self)@) ==> spec_all_valid(final(self)@),
            old(self)@.contains_key(channel) ==> {
                let (context, replies) = old(self)@[channel].on_frame_received(
                    old(self).spec_profile(),
                    received_views(frames@),
                );
                &&& final(self)@ == old(self)@.insert(channel, context)
                &&& transmission_views(r@) == spec_transmissions(
                    old(self).spec_profile(),
                    context.address.tx_id,
                    replies,
                )
            },
            !old(self)@.contains_key(channel) ==> final(self)@ == old(self)@ && r@.len() == 0,
    {
        match self.take(channel) {
            Some(mut context) => {
                let replies = context.on_frame_received(self.profile, frames);
                let tx_id = context.address().tx_id;
                self.put(channel, context);
                assert(self@ =~= old(self)@.insert(channel, context@));
                to_transmissions(self.profile, tx_id, &replies)
            },
            None => {
                assert(self@ =~= old(self)@);
                Vec::new()
            },
        }
    }
}

/// What is done to one channel leaves every other channel as it was.
pub proof fn lemma_other_channels_unaffected(
    contexts: Map<u64, ContextView>,
    channel: u64,
    context: ContextView,
    other: u64,
)
    requires
        other != channel,
    ensures
        contexts.insert(channel, context).contains_key(other) == contexts.contains_key(other),
        contexts.insert(channel, context)[other] == contexts[other],
{
}

} // verus!
