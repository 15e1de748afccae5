use vstd::prelude::*;
use crate::isotp::error::{ErrorView, IsoTpError};
use crate::isotp::event::{EventView, IsoTpEvent, event_views};
use crate::isotp::frame::{Address, FlowControlContext, FlowControlState};
use crate::isotp::state::IsoTpState;
use crate::isotp::util::spec_next_sequence;
use crate::constant::CONSECUTIVE_SEQUENCE_START;

verus! {

/// What has come of a segmented message so far.
#[derive(Debug)]
pub struct DataContext {
    /// The sequence number of the last consecutive frame taken, if any.
    pub sequence: Option<u8>,
    /// The length that the first frame announced, if one came.
    pub length: Option<u32>,
    /// The payload bytes taken so far.
    pub buffer: Vec<u8>,
}

impl Default for DataContext {
    fn default() -> (r: Self)
        ensures
            r.sequence is None,
            r.length is None,
            r.buffer@ == Seq::<u8>::empty(),
    {
        Self { sequence: None, length: None, buffer: Vec::new() }
    }
}

/// The state of one channel: its address, the separation time that the peer
/// asked for, the message under reassembly, the protocol flags, and the
/// events that wait to be handed to the listeners.
#[derive(Debug)]
pub struct IsoTpContext {
    pub(crate) address: Address,
    pub(crate) st_min: u32,
    pub(crate) data: DataContext,
    pub(crate) state: IsoTpState,
    pub(crate) write_waiting: bool,
    pub(crate) events: Vec<IsoTpEvent>,
}

/// The mathematical value of an [`IsoTpContext`].
pub struct ContextView {
    pub address: Address,
    /// Microseconds between two consecutive frames sent.
    pub st_min: u32,
    pub sequence: Option<u8>,
    pub length: Option<u32>,
    pub buffer: Seq<u8>,
    pub state: IsoTpState,
    pub write_waiting: bool,
    /// The events emitted and not yet taken, oldest first.
    pub events: Seq<EventView>,
}

/// The flags that a received single or first frame clears.
pub open spec fn spec_request_flags() -> IsoTpState {
    IsoTpState::spec_sending().spec_union(IsoTpState::spec_wait_single()).spec_union(
        IsoTpState::spec_wait_first(),
    )
}

/// The flags that hold a sender back.
pub open spec fn spec_blocking_flags() -> IsoTpState {
    IsoTpState::spec_sending().spec_union(IsoTpState::spec_response_pending()).spec_union(
        IsoTpState::spec_wait_flow_ctrl(),
    ).spec_union(IsoTpState::spec_wait_busy())
}

impl ContextView {
    /// The context of a channel that was just registered.
    pub open spec fn new(address: Address) -> ContextView {
        ContextView {
            address,
            st_min: 0,
            sequence: None,
            length: None,
            buffer: Seq::empty(),
            state: IsoTpState::spec_idle(),
            write_waiting: true,
            events: Seq::empty(),
        }
    }

    /// What holds of every context: the error flag stands alone; bytes are
    /// held only for a message whose length is known, and no more of them
    /// than that length; a sequence number is held only for such a message,
    /// and has four bits.
    pub open spec fn is_valid(self) -> bool {
        &&& self.state.is_valid()
        &&& self.length matches Some(length) ==> self.buffer.len() <= length
        &&& self.length is None ==> self.buffer.len() == 0 && self.sequence is None
        &&& self.sequence matches Some(sequence) ==> sequence <= 0x0F
    }

    /// The context with one more event for the listeners.
    pub open spec fn emit(self, event: EventView) -> ContextView {
        ContextView { events: self.events.push(event), ..self }
    }

    /// The context without the message under reassembly.
    pub open spec fn discard(self) -> ContextView {
        ContextView { sequence: None, length: None, buffer: Seq::empty(), ..self }
    }

    /// What a handler leaves and returns where it fails with `error` and
    /// changes nothing else: the listeners are told, the caller is told.
    pub open spec fn fail(self, error: ErrorView) -> (ContextView, Result<(), ErrorView>) {
        (self.emit(EventView::ErrorOccurred(error)), Err(error))
    }

    /// The context back at the start: idle, no separation time, no message
    /// under reassembly. The address, the write-waiting switch and the
    /// events not yet taken stay.
    pub open spec fn reset(self) -> ContextView {
        ContextView { st_min: 0, state: IsoTpState::spec_idle(), ..self.discard() }
    }

    /// The context after `flags` were added.
    ///
    /// Adding the error flag puts the channel in the error state and tells
    /// the listeners of a device error. A channel in the error state stays
    /// there. Adding the wait-data flag replaces all flags by it, and by the
    /// sending flag where that one is added too. Other flags join those held.
    pub open spec fn state_add(self, flags: IsoTpState) -> ContextView {
        if flags.error {
            ContextView { state: IsoTpState::spec_error(), ..self }.emit(
                EventView::ErrorOccurred(ErrorView::DeviceError),
            )
        } else if self.state.error {
            self
        } else if flags.wait_data {
            ContextView {
                state: if flags.sending {
                    IsoTpState::spec_sending().spec_union(IsoTpState::spec_wait_data())
                } else {
                    IsoTpState::spec_wait_data()
                },
                ..self
            }
        } else {
            ContextView { state: self.state.spec_union(flags), ..self }
        }
    }

    /// The context after `flags` were removed. A channel in the error state
    /// stays there.
    pub open spec fn state_remove(self, flags: IsoTpState) -> ContextView {
        if self.state.error {
            self
        } else {
            ContextView { state: self.state.spec_difference(flags), ..self }
        }
    }

    /// The error that a frame meets which the channel does not wait for.
    pub open spec fn state_error(self, expected: IsoTpState) -> ErrorView {
        ErrorView::StateError { expected, found: self.state }
    }

    /// What a received single frame does.
    ///
    /// The channel must wait for a single frame. The payload goes to the
    /// listeners as a received message, and the channel no longer sends nor
    /// waits for a single or first frame.
    pub open spec fn on_single_frame(self, data: Seq<u8>) -> (ContextView, Result<(), ErrorView>) {
        if !self.state.spec_contains(IsoTpState::spec_wait_single()) {
            self.fail(self.state_error(IsoTpState::spec_wait_single()))
        } else {
            (
                ContextView {
                    state: self.state.spec_difference(spec_request_flags()),
                    ..self
                }.emit(EventView::DataReceived(data)),
                Ok(()),
            )
        }
    }

    /// What a received first frame does.
    ///
    /// The channel must wait for a first frame. Where a message is still
    /// under reassembly it is given up, and the listeners are told of mixed
    /// frames. A payload longer than the length announced with it is
    /// refused: nothing is kept and the channel is idle. Otherwise the
    /// length and the payload are kept, and the channel no longer sends nor
    /// waits for a single or first frame.
    pub open spec fn on_first_frame(self, length: u32, data: Seq<u8>) -> (
        ContextView,
        Result<(), ErrorView>,
    ) {
        if !self.state.spec_contains(IsoTpState::spec_wait_first()) {
            self.fail(self.state_error(IsoTpState::spec_wait_first()))
        } else {
            let start = if self.length is Some {
                self.emit(EventView::ErrorOccurred(ErrorView::MixFramesError))
            } else {
                self
            };
            if data.len() > length {
                ContextView { state: IsoTpState::spec_idle(), ..start.discard() }.fail(
                    ErrorView::InvalidDataLength {
                        actual: data.len() as usize,
                        expected: length as usize,
                    },
                )
            } else {
                (
                    ContextView {
                        sequence: None,
                        length: Some(length),
                        buffer: data,
                        state: self.state.spec_difference(spec_request_flags()),
                        ..start
                    },
                    Ok(()),
                )
            }
        }
    }

    /// The sequence number that the next consecutive frame must carry: 1
    /// for the first of a message, then one more each time, and 0 after 15.
    pub open spec fn expected_sequence(self) -> u8 {
        match self.sequence {
            Some(sequence) => spec_next_sequence(sequence),
            None => CONSECUTIVE_SEQUENCE_START,
        }
    }

    /// What a received consecutive frame does.
    ///
    /// The channel must wait for data, a first frame must have announced a
    /// length, and the frame must carry the expected sequence number; a
    /// frame that fails one of these changes nothing. The payload joins the
    /// bytes kept. With more bytes than announced the message is given up
    /// and the channel is idle. With as many, the message goes to the
    /// listeners, nothing is kept and the channel is idle. With fewer, the
    /// channel goes on waiting for data.
    pub open spec fn on_consecutive_frame(self, sequence: u8, data: Seq<u8>) -> (
        ContextView,
        Result<(), ErrorView>,
    ) {
        if !self.state.spec_contains(IsoTpState::spec_wait_data()) {
            self.fail(self.state_error(IsoTpState::spec_wait_data()))
        } else if self.length is None {
            self.fail(ErrorView::MixFramesError)
        } else if sequence != self.expected_sequence() {
            self.fail(
                ErrorView::InvalidSequence { actual: sequence, expected: self.expected_sequence() },
            )
        } else if self.buffer.len() + data.len() > self.length->0 {
            ContextView { state: IsoTpState::spec_idle(), ..self.discard() }.fail(
                ErrorView::InvalidDataLength {
                    actual: (self.buffer.len() + data.len()) as usize,
                    expected: self.length->0 as usize,
                },
            )
        } else if self.buffer.len() + data.len() == self.length->0 {
            (
                ContextView { state: IsoTpState::spec_idle(), ..self.discard() }.emit(
                    EventView::DataReceived(self.buffer + data),
                ),
                Ok(()),
            )
        } else {
            (ContextView { sequence: Some(sequence), buffer: self.buffer + data, ..self }, Ok(()))
        }
    }

    /// What a received flow control frame does.
    ///
    /// The channel must wait for flow control. On "continue" the separation
    /// time is kept and the channel waits no longer. On "wait" the
    /// separation time is kept, the channel is busy too, and the listeners
    /// are told to wait. On "overload" the channel is in the error state.
    pub open spec fn on_flow_ctrl_frame(self, context: FlowControlContext) -> (
        ContextView,
        Result<(), ErrorView>,
    ) {
        if !self.state.spec_contains(IsoTpState::spec_wait_flow_ctrl()) {
            self.fail(self.state_error(IsoTpState::spec_wait_flow_ctrl()))
        } else {
            match context.state {
                FlowControlState::Continues => (
                    ContextView {
                        st_min: context.spec_st_min_us(),
                        state: self.state.spec_difference(
                            IsoTpState::spec_wait_busy().spec_union(
                                IsoTpState::spec_wait_flow_ctrl(),
                            ),
                        ),
                        ..self
                    },
                    Ok(()),
                ),
                FlowControlState::Wait => (
                    ContextView {
                        st_min: context.spec_st_min_us(),
                        state: self.state.spec_union(IsoTpState::spec_wait_busy()),
                        ..self
                    }.emit(EventView::Wait),
                    Ok(()),
                ),
                FlowControlState::Overload => ContextView {
                    state: IsoTpState::spec_error(),
                    ..self
                }.fail(ErrorView::OverloadFlow),
            }
        }
    }

    /// What the report that a frame with identifier `id` went out does: the
    /// channel no longer sends, where the identifier is one that the channel
    /// sends to.
    pub open spec fn on_frame_transmitted(self, id: u32) -> ContextView {
        if id == self.address.tx_id || id == self.address.fid {
            self.state_remove(IsoTpState::spec_sending())
        } else {
            self
        }
    }
}

/// The value of what a handler returns.
pub open spec fn unit_result_view(r: Result<(), IsoTpError>) -> Result<(), ErrorView> {
    match r {
        Ok(_) => Ok(()),
        Err(e) => Err(e@),
    }
}

impl View for IsoTpContext {
    type V = ContextView;

    closed spec fn view(&self) -> ContextView {
        ContextView {
            address: self.address,
            st_min: self.st_min,
            sequence: self.data.sequence,
            length: self.data.length,
            buffer: self.data.buffer@,
            state: self.state,
            write_waiting: self.write_waiting,
            events: event_views(self.events@),
        }
    }
}

impl IsoTpContext {
    /// The context of a channel that was just registered.
    pub fn new(address: Address) -> (r: Self)
        ensures
            r@ == ContextView::new(address),
            r@.is_valid(),
    {
        let r = Self {
            address,
            st_min: 0,
            data: DataContext::default(),
            state: IsoTpState::idle(),
            write_waiting: true,
            events: Vec::new(),
        };
        assert(r@.events =~= Seq::<EventView>::empty());
        r
    }

    /// Replaces the flags of the channel.
    pub(crate) fn set_state(&mut self, state: IsoTpState)
        ensures
            final(self)@ == (ContextView { state, ..old(self)@ }),
    {
        self.state = state;
    }

    /// Hands `event` to the listeners.
    pub(crate) fn on_iso_tp_event(&mut self, event: IsoTpEvent)
        ensures
            final(self)@ == old(self)@.emit(event@),
    {
        self.events.push(event);
        assert(event_views(self.events@) =~= event_views(old(self).events@).push(event@));
    }

    /// Tells the listeners of `error` and hands it back for the caller.
    fn fail(&mut self, error: IsoTpError) -> (r: Result<(), IsoTpError>)
        ensures
            (final(self)@, unit_result_view(r)) == old(self)@.fail(error@),
    {
        self.on_iso_tp_event(IsoTpEvent::ErrorOccurred(error.clone()));
        Err(error)
    }

    /// Gives up the message under reassembly.
    fn discard(&mut self)
        ensures
            final(self)@ == old(self)@.discard(),
    {
        self.data.sequence = None;
        self.data.length = None;
        self.data.buffer.clear();
    }

    /// Puts the channel back at the start.
    pub fn reset(&mut self)
        ensures
            final(self)@ == old(self)@.reset(),
            old(self)@.is_valid() ==> final(self)@.is_valid(),
    {
        self.st_min = 0;
        self.state = IsoTpState::idle();
        self.discard();
    }

    pub fn state(&self) -> (r: IsoTpState)
        ensures
            r == self@.state,
    {
        self.state
    }

    pub fn address(&self) -> (r: Address)
        ensures
            r == self@.address,
    {
        self.address
    }

    /// The message under reassembly.
    pub fn data(&self) -> (r: &DataContext)
        ensures
            r.sequence == self@.sequence,
            r.length == self@.length,
            r.buffer@ == self@.buffer,
    {
        &self.data
    }

    /// Microseconds to let pass between two consecutive frames sent.
    pub fn st_min(&self) -> (r: u32)
        ensures
            r == self@.st_min,
    {
        self.st_min
    }

    /// Whether a sender is held back while the channel is busy.
    pub fn write_waiting(&self) -> (r: bool)
        ensures
            r == self@.write_waiting,
    {
        self.write_waiting
    }

    pub fn set_write_waiting(&mut self, flag: bool)
        ensures
            final(self)@ == (ContextView { write_waiting: flag, ..old(self)@ }),
            old(self)@.is_valid() ==> final(self)@.is_valid(),
    {
        self.write_waiting = flag;
    }

    pub fn state_remove(&mut self, flags: IsoTpState)
        ensures
            final(self)@ == old(self)@.state_remove(flags),
            old(self)@.is_valid() ==> final(self)@.is_valid(),
    {
        if !self.state.error {
            self.state = self.state.difference(flags);
        }
    }

    pub fn state_add(&mut self, flags: IsoTpState)
        ensures
            final(self)@ == old(self)@.state_add(flags),
            old(self)@.is_valid() ==> final(self)@.is_valid(),
    {
        if flags.error {
            self.state = IsoTpState::error();
            self.on_iso_tp_event(IsoTpEvent::ErrorOccurred(IsoTpError::DeviceError));
        } else if self.state.error {
        } else if flags.wait_data {
            if flags.sending {
                self.state = IsoTpState::sending().union(IsoTpState::wait_data());
            } else {
                self.state = IsoTpState::wait_data();
            }
        } else {
            self.state = self.state.union(flags);
        }
    }

    /// Drops the events that no listener has taken.
    pub fn clear_listener_buffer(&mut self)
        ensures
            final(self)@ == (ContextView { events: Seq::empty(), ..old(self)@ }),
            old(self)@.is_valid() ==> final(self)@.is_valid(),
    {
        self.events.clear();
        assert(event_views(self.events@) =~= Seq::<EventView>::empty());
    }

    /// Takes the events emitted since the last call, oldest first, for the
    /// listeners.
    pub fn take_events(&mut self) -> (r: Vec<IsoTpEvent>)
        ensures
            event_views(r@) == old(self)@.events,
            final(self)@ == (ContextView { events: Seq::empty(), ..old(self)@ }),
            old(self)@.is_valid() ==> final(self)@.is_valid(),
    {
        let mut r: Vec<IsoTpEvent> = Vec::new();
        r.append(&mut self.events);
        assert(r@ =~= old(self).events@);
        assert(event_views(self.events@) =~= Seq::<EventView>::empty());
        r
    }

    /// Tells whether the channel holds all of `expected`; where it does
    /// not, the listeners are told.
    fn frame_state_check(&mut self, expected: IsoTpState) -> (r: Result<(), IsoTpError>)
        ensures
            old(self)@.state.spec_contains(expected) ==> r is Ok && final(self)@ == old(self)@,
            !old(self)@.state.spec_contains(expected) ==> (final(self)@, unit_result_view(r))
                == old(self)@.fail(old(self)@.state_error(expected)),
    {
        if !self.state.contains(expected) {
            return self.fail(IsoTpError::StateError { expected, found: self.state });
        }
        Ok(())
    }

    pub fn on_single_frame(&mut self, data: Vec<u8>) -> (r: Result<(), IsoTpError>)
        ensures
            (final(self)@, unit_result_view(r)) == old(self)@.on_single_frame(data@),
            old(self)@.is_valid() ==> final(self)@.is_valid(),
    {
        if let Err(e) = self.frame_state_check(IsoTpState::wait_single()) {
            return Err(e);
        }
        self.on_iso_tp_event(IsoTpEvent::DataReceived(data));
        self.state = self.state.difference(
            IsoTpState::sending().union(IsoTpState::wait_single()).union(IsoTpState::wait_first()),
        );
        Ok(())
    }

    /// Gives up the message under reassembly and leaves the channel idle.
    fn abort_reassembly(&mut self)
        ensures
            final(self)@ == (ContextView { state: IsoTpState::spec_idle(), ..old(self)@.discard() }),
    {
        self.state = IsoTpState::idle();
        self.discard();
    }

    /// Keeps the start of a message of `length` bytes.
    fn begin_reassembly(&mut self, length: u32, data: Vec<u8>)
        ensures
            final(self)@ == (ContextView {
                sequence: None,
                length: Some(length),
                buffer: data@,
                ..old(self)@
            }),
    {
        self.data.sequence = None;
        self.data.length = Some(length);
        self.data.buffer = data;
    }

    pub fn on_first_frame(&mut self, length: u32, data: Vec<u8>) -> (r: Result<(), IsoTpError>)
        ensures
            (final(self)@, unit_result_view(r)) == old(self)@.on_first_frame(length, data@),
            old(self)@.is_valid() ==> final(self)@.is_valid(),
    {
        if let Err(e) = self.frame_state_check(IsoTpState::wait_first()) {
            return Err(e);
        }
        if self.data.length.is_some() {
            self.on_iso_tp_event(IsoTpEvent::ErrorOccurred(IsoTpError::MixFramesError));
        }
        let ghost start = self@;
        if data.len() > length as usize {
            self.abort_reassembly();
            return self.fail(
                IsoTpError::InvalidDataLength { actual: data.len(), expected: length as usize },
            );
        }
        self.begin_reassembly(length, data);
        self.state = self.state.difference(
            IsoTpState::sending().union(IsoTpState::wait_single()).union(IsoTpState::wait_first()),
        );
        assert(self@ == (ContextView {
            sequence: None,
            length: Some(length),
            buffer: data@,
            state: old(self)@.state.spec_difference(spec_request_flags()),
            ..start
        }));
        Ok(())
    }

    pub fn on_consecutive_frame(&mut self, sequence: u8, data: Vec<u8>) -> (r: Result<
        (),
        IsoTpError,
    >)
        ensures
            (final(self)@, unit_result_view(r)) == old(self)@.on_consecutive_frame(sequence, data@),
            old(self)@.is_valid() ==> final(self)@.is_valid(),
    {
        let mut data = data;
        if let Err(e) = self.frame_state_check(IsoTpState::wait_data()) {
            return Err(e);
        }
        let length = match self.data.length {
            Some(length) => length,
            None => {
                return self.fail(IsoTpError::MixFramesError);
            },
        };
        let expected = match self.data.sequence {
            Some(previous) => if previous >= 0x0F {
                0
            } else {
                previous + 1
            },
            None => CONSECUTIVE_SEQUENCE_START,
        };
        if sequence != expected {
            return self.fail(IsoTpError::InvalidSequence { actual: sequence, expected });
        }
        self.data.sequence = Some(sequence);
        self.data.buffer.append(&mut data);
        let buff_len = self.data.buffer.len();
        if buff_len > length as usize {
            self.abort_reassembly();
            self.fail(IsoTpError::InvalidDataLength { actual: buff_len, expected: length as usize })
        } else if buff_len == length as usize {
            let mut message: Vec<u8> = Vec::new();
            message.append(&mut self.data.buffer);
            self.abort_reassembly();
            self.on_iso_tp_event(IsoTpEvent::DataReceived(message));
            Ok(())
        } else {
            Ok(())
        }
    }

    pub fn on_flow_ctrl_frame(&mut self, ctx: FlowControlContext) -> (r: Result<(), IsoTpError>)
        ensures
            (final(self)@, unit_result_view(r)) == old(self)@.on_flow_ctrl_frame(ctx),
            old(self)@.is_valid() ==> final(self)@.is_valid(),
    {
        if let Err(e) = self.frame_state_check(IsoTpState::wait_flow_ctrl()) {
            return Err(e);
        }
        match ctx.state() {
            FlowControlState::Continues => {
                self.st_min = ctx.st_min_us();
                self.state = self.state.difference(
                    IsoTpState::wait_busy().union(IsoTpState::wait_flow_ctrl()),
                );
                Ok(())
            },
            FlowControlState::Wait => {
                self.st_min = ctx.st_min_us();
                self.state = self.state.union(IsoTpState::wait_busy());
                self.on_iso_tp_event(IsoTpEvent::Wait);
                Ok(())
            },
            FlowControlState::Overload => {
                self.state = IsoTpState::error();
                self.fail(IsoTpError::OverloadFlow)
            },
        }
    }

    pub fn on_frame_transmitted(&mut self, id: u32)
        ensures
            final(self)@ == old(self)@.on_frame_transmitted(id),
            old(self)@.is_valid() ==> final(self)@.is_valid(),
    {
        if self.address.tx_id == id || self.address.fid == id {
            self.state_remove(IsoTpState::sending());
        }
    }
}

} // verus!
