use vstd::prelude::*;
use crate::isotp::context::ContextView;
use crate::isotp::error::ErrorView;
use crate::isotp::event::EventView;
use crate::isotp::frame::{FlowControlContext, PduView};
use crate::isotp::listener::ReceivedFrameView;
use crate::isotp::standard::Profile;
use crate::isotp::state::IsoTpState;
use crate::isotp::util::{
    spec_consecutive_frames, spec_flow_control_frames, spec_from_data, spec_next_sequence,
};

verus! {

/// A context that was just made is valid.
pub proof fn lemma_new_is_valid(address: crate::isotp::frame::Address)
    ensures
        ContextView::new(address).is_valid(),
        ContextView::new(address).state == IsoTpState::spec_idle(),
{
}

/// A reset leaves a valid context, idle and with nothing under reassembly,
/// whatever the context was; the address and the events stay.
pub proof fn lemma_reset(context: ContextView)
    ensures
        context.reset().is_valid(),
        context.reset().state == IsoTpState::spec_idle(),
        context.reset().length is None,
        context.reset().buffer.len() == 0,
        context.reset().address == context.address,
        context.reset().events == context.events,
{
}

/// Whatever comes in or is set, a valid context stays valid.
pub proof fn lemma_valid_is_kept(
    context: ContextView,
    flags: IsoTpState,
    sequence: u8,
    length: u32,
    data: Seq<u8>,
    flow: FlowControlContext,
    id: u32,
)
    requires
        context.is_valid(),
    ensures
        context.state_add(flags).is_valid(),
        context.state_remove(flags).is_valid(),
        context.on_single_frame(data).0.is_valid(),
        context.on_first_frame(length, data).0.is_valid(),
        context.on_consecutive_frame(sequence, data).0.is_valid(),
        context.on_flow_ctrl_frame(flow).0.is_valid(),
        context.on_frame_transmitted(id).is_valid(),
{
}

/// Receiving a decoded frame keeps a valid context valid.
pub proof fn lemma_receive_keeps_valid(context: ContextView, pdu: PduView)
    requires
        context.is_valid(),
    ensures
        context.receive(pdu).0.is_valid(),
{
    match pdu {
        PduView::Single { data } => {
            lemma_valid_is_kept(context, IsoTpState::spec_idle(), 0, 0, data, FlowControlContext::spec_default(), 0);
        },
        PduView::First { length, data } => {
            lemma_valid_is_kept(context, IsoTpState::spec_idle(), 0, length, data, FlowControlContext::spec_default(), 0);
        },
        PduView::Consecutive { sequence, data } => {
            lemma_valid_is_kept(context, IsoTpState::spec_idle(), sequence, 0, data, FlowControlContext::spec_default(), 0);
        },
        PduView::FlowControl(flow) => {
            lemma_valid_is_kept(context, IsoTpState::spec_idle(), 0, 0, Seq::empty(), flow, 0);
        },
    }
}

/// A channel in the error state stays there, whatever comes in or is set:
/// only a reset ends the error state.
pub proof fn lemma_error_is_terminal(
    context: ContextView,
    flags: IsoTpState,
    sequence: u8,
    length: u32,
    data: Seq<u8>,
    flow: FlowControlContext,
    id: u32,
)
    requires
        context.is_valid(),
        context.state.error,
    ensures
        context.state_add(flags).state == IsoTpState::spec_error(),
        context.state_remove(flags).state == IsoTpState::spec_error(),
        context.on_single_frame(data).0.state == IsoTpState::spec_error(),
        context.on_first_frame(length, data).0.state == IsoTpState::spec_error(),
        context.on_consecutive_frame(sequence, data).0.state == IsoTpState::spec_error(),
        context.on_flow_ctrl_frame(flow).0.state == IsoTpState::spec_error(),
        context.on_frame_transmitted(id).state == IsoTpState::spec_error(),
        context.on_single_frame(data).1 is Err,
        context.on_first_frame(length, data).1 is Err,
        context.on_consecutive_frame(sequence, data).1 is Err,
        context.on_flow_ctrl_frame(flow).1 is Err,
{
}

/// A batch of frames leaves a channel in the error state there, and keeps
/// a valid context valid.
pub proof fn lemma_batch_keeps_valid(
    context: ContextView,
    profile: Profile,
    frames: Seq<ReceivedFrameView>,
    i: int,
)
    requires
        context.is_valid(),
    ensures
        context.on_frame_received_from(profile, frames, i).0.is_valid(),
        context.state.error ==> context.on_frame_received_from(profile, frames, i).0.state.error,
    decreases frames.len() - i,
{
    if i < 0 || i >= frames.len() {
    } else if frames[i].id != context.address.rx_id {
        lemma_batch_keeps_valid(context, profile, frames, i + 1);
    } else {
        match crate::isotp::util::spec_decode(profile, frames[i].data) {
            Ok(pdu) => {
                let next = context.receive(pdu).0;
                lemma_receive_keeps_valid(context, pdu);
                if context.state.error {
                    match pdu {
                        PduView::Single { data } => {
                            lemma_error_is_terminal(context, IsoTpState::spec_idle(), 0, 0, data, FlowControlContext::spec_default(), 0);
                        },
                        PduView::First { length, data } => {
                            lemma_error_is_terminal(context, IsoTpState::spec_idle(), 0, length, data, FlowControlContext::spec_default(), 0);
                        },
                        PduView::Consecutive { sequence, data } => {
                            lemma_error_is_terminal(context, IsoTpState::spec_idle(), sequence, 0, data, FlowControlContext::spec_default(), 0);
                        },
                        PduView::FlowControl(flow) => {
                            lemma_error_is_terminal(context, IsoTpState::spec_idle(), 0, 0, Seq::empty(), flow, 0);
                        },
                    }
                }
                lemma_batch_keeps_valid(next, profile, frames, i + 1);
            },
            Err(_) => {},
        }
    }
}

/// The sequence number expected next is 1 at the start of a message and
/// otherwise the last one plus one, modulo 16.
pub proof fn lemma_expected_sequence(context: ContextView)
    requires
        context.is_valid(),
    ensures
        context.sequence is None ==> context.expected_sequence() == 1,
        context.sequence matches Some(previous) ==> context.expected_sequence() == (previous + 1)
            % 16,
{
}

/// A consecutive frame that does not carry the sequence number of the last
/// one plus one, modulo 16, or 1 where it is the first of its message, is
/// refused as out of sequence, and nothing changes but that the listeners are
/// told: the bytes kept, the length and the flags stay. This is so where the
/// frame gets as far as its sequence number being looked at: the channel
/// waits for data and a first frame has announced a length.
pub proof fn lemma_wrong_sequence_is_refused(context: ContextView, sequence: u8, data: Seq<u8>)
    requires
        context.is_valid(),
        context.state.spec_contains(IsoTpState::spec_wait_data()),
        context.length is Some,
        sequence != (match context.sequence {
            Some(previous) => (previous + 1) % 16,
            None => 1,
        }),
    ensures
        context.on_consecutive_frame(sequence, data).1 == Err::<(), ErrorView>(
            ErrorView::InvalidSequence {
                actual: sequence,
                expected: (match context.sequence {
                    Some(previous) => (previous + 1) % 16,
                    None => 1,
                }) as u8,
            },
        ),
        context.on_consecutive_frame(sequence, data).0 == context.emit(
            EventView::ErrorOccurred(context.on_consecutive_frame(sequence, data).1->Err_0),
        ),
        context.on_consecutive_frame(sequence, data).0.buffer == context.buffer,
        context.on_consecutive_frame(sequence, data).0.state == context.state,
{
    lemma_expected_sequence(context);
}

/// A consecutive frame that brings more bytes than the first frame
/// announced is refused for its length, and the channel is idle with nothing
/// kept. This is so where the frame is in sequence on a channel that waits
/// for data.
pub proof fn lemma_overflow_resets(context: ContextView, sequence: u8, data: Seq<u8>)
    requires
        context.state.spec_contains(IsoTpState::spec_wait_data()),
        context.length matches Some(length) && context.buffer.len() + data.len() > length,
        sequence == context.expected_sequence(),
    ensures
        context.on_consecutive_frame(sequence, data).1 == Err::<(), ErrorView>(
            ErrorView::InvalidDataLength {
                actual: (context.buffer.len() + data.len()) as usize,
                expected: context.length->0 as usize,
            },
        ),
        context.on_consecutive_frame(sequence, data).0.state == IsoTpState::spec_idle(),
        context.on_consecutive_frame(sequence, data).0.buffer.len() == 0,
        context.on_consecutive_frame(sequence, data).0.length is None,
{
}

/// A consecutive frame that comes while no first frame has announced a
/// length is refused, for the state of the channel or as a mixed frame, and
/// nothing changes but that the listeners are told.
pub proof fn lemma_consecutive_before_first(context: ContextView, sequence: u8, data: Seq<u8>)
    requires
        context.length is None,
    ensures
        context.on_consecutive_frame(sequence, data).1 == Err::<(), ErrorView>(
            ErrorView::MixFramesError,
        ) || context.on_consecutive_frame(sequence, data).1 == Err::<(), ErrorView>(
            context.state_error(IsoTpState::spec_wait_data()),
        ),
        context.on_consecutive_frame(sequence, data).0 == context.emit(
            EventView::ErrorOccurred(context.on_consecutive_frame(sequence, data).1->Err_0),
        ),
{
}

/// Every handler that fails tells the listeners exactly once, with the
/// error that it returns, as the last event.
pub proof fn lemma_failure_is_told_once(
    context: ContextView,
    sequence: u8,
    length: u32,
    data: Seq<u8>,
    flow: FlowControlContext,
)
    ensures
        context.on_single_frame(data).1 matches Err(e) ==> context.on_single_frame(data).0.events
            == context.events.push(EventView::ErrorOccurred(e)),
        context.on_consecutive_frame(sequence, data).1 matches Err(e)
            ==> context.on_consecutive_frame(sequence, data).0.events == context.events.push(
            EventView::ErrorOccurred(e),
        ),
        context.on_flow_ctrl_frame(flow).1 matches Err(e) ==> context.on_flow_ctrl_frame(
            flow,
        ).0.events == context.events.push(EventView::ErrorOccurred(e)),
        context.on_first_frame(length, data).1 matches Err(e) ==> context.on_first_frame(
            length,
            data,
        ).0.events.last() == EventView::ErrorOccurred(e),
{
}

/// What a receiver holds after the frames of a message came in, in their
/// order. The flow control frames among them are the receiver's own answer
/// and are passed over.
pub open spec fn spec_receive_message(context: ContextView, pdus: Seq<PduView>) -> ContextView
    decreases pdus.len(),
{
    if pdus.len() == 0 {
        context
    } else if pdus[0] is FlowControl {
        spec_receive_message(context, pdus.drop_first())
    } else {
        spec_receive_message(context.receive(pdus[0]).0, pdus.drop_first())
    }
}

/// Receiving two runs of frames one after the other is receiving them as
/// one run.
pub proof fn lemma_receive_message_add(context: ContextView, head: Seq<PduView>, tail: Seq<PduView>)
    ensures
        spec_receive_message(context, head + tail) == spec_receive_message(
            spec_receive_message(context, head),
            tail,
        ),
    decreases head.len(),
{
    if head.len() == 0 {
        assert(head + tail =~= tail);
    } else {
        assert((head + tail).drop_first() =~= head.drop_first() + tail);
        if head[0] is FlowControl {
            lemma_receive_message_add(context, head.drop_first(), tail);
        } else {
            lemma_receive_message_add(context.receive(head[0]).0, head.drop_first(), tail);
        }
    }
}

/// Flow control frames alone leave the receiver as it is.
pub proof fn lemma_receive_flow_control_frames(
    context: ContextView,
    flow_ctrl: Seq<FlowControlContext>,
)
    ensures
        spec_receive_message(context, spec_flow_control_frames(flow_ctrl)) == context,
{
    lemma_receive_only_flow_control(context, spec_flow_control_frames(flow_ctrl));
}

proof fn lemma_receive_only_flow_control(context: ContextView, pdus: Seq<PduView>)
    requires
        forall|i: int| 0 <= i < pdus.len() ==> pdus[i] is FlowControl,
    ensures
        spec_receive_message(context, pdus) == context,
    decreases pdus.len(),
{
    if pdus.len() > 0 {
        lemma_receive_only_flow_control(context, pdus.drop_first());
    }
}

/// The consecutive frames of a message, received in order on a channel
/// that holds the start of the message and waits for data, complete the
/// message: it goes to the listeners, the channel is idle and keeps nothing.
pub proof fn lemma_receive_consecutive_frames(
    context: ContextView,
    data: Seq<u8>,
    offset: int,
    sequence: u8,
    size: int,
)
    requires
        context.state.spec_contains(IsoTpState::spec_wait_data()),
        data.len() <= u32::MAX,
        context.length == Some(data.len() as u32),
        0 <= offset < data.len(),
        context.buffer == data.subrange(0, offset),
        context.expected_sequence() == sequence,
        0 < size,
    ensures
        spec_receive_message(context, spec_consecutive_frames(data, offset, sequence, size)) == (
        ContextView { state: IsoTpState::spec_idle(), ..context.discard() }).emit(
            EventView::DataReceived(data),
        ),
    decreases data.len() - offset,
{
    let frames = spec_consecutive_frames(data, offset, sequence, size);
    if offset + size >= data.len() {
        let chunk = data.subrange(offset, data.len() as int);
        assert(frames.drop_first() =~= Seq::<PduView>::empty());
        assert(context.buffer + chunk =~= data);
        let next = context.receive(frames[0]).0;
        assert(spec_receive_message(next, frames.drop_first()) == next);
    } else {
        let chunk = data.subrange(offset, offset + size);
        let rest = spec_consecutive_frames(data, offset + size, spec_next_sequence(sequence), size);
        assert(frames.drop_first() =~= rest);
        assert(context.buffer + chunk =~= data.subrange(0, offset + size));
        let next = context.receive(frames[0]).0;
        assert(next == (ContextView {
            sequence: Some(sequence),
            buffer: data.subrange(0, offset + size),
            ..context
        }));
        lemma_receive_consecutive_frames(
            next,
            data,
            offset + size,
            spec_next_sequence(sequence),
            size,
        );
    }
}

/// A receiver that waits for a message gets it whole, once.
///
/// The frames that a payload is cut into, received in their order on a
/// channel that waits for a single and for a first frame and has nothing
/// under reassembly, hand the listeners the payload as one received
/// message. A payload in one frame leaves the channel without the flags of
/// a request; a longer one is announced to the listeners by its first frame
/// and leaves the channel idle. Nothing is kept at the end.
pub proof fn lemma_reassembly_is_complete(
    context: ContextView,
    profile: Profile,
    data: Seq<u8>,
    flow_ctrl: Seq<FlowControlContext>,
)
    requires
        context.is_valid(),
        context.length is None,
        context.state.spec_contains(IsoTpState::spec_wait_single()),
        context.state.spec_contains(IsoTpState::spec_wait_first()),
        spec_from_data(profile, data, flow_ctrl) is Ok,
    ensures
        ({
            let last = spec_receive_message(context, spec_from_data(profile, data, flow_ctrl)->Ok_0);
            &&& last.length is None && last.buffer.len() == 0 && last.sequence is None
            &&& last.address == context.address
            &&& if data.len() <= profile.spec_single_frame_size() {
                &&& last.events == context.events.push(EventView::DataReceived(data))
                &&& last.state == context.state.spec_difference(
                    crate::isotp::context::spec_request_flags(),
                )
            } else {
                &&& last.events == context.events.push(EventView::FirstFrameReceived).push(
                    EventView::DataReceived(data),
                )
                &&& last.state == IsoTpState::spec_idle()
            }
        }),
{
    let pdus = spec_from_data(profile, data, flow_ctrl)->Ok_0;
    if data.len() <= profile.spec_single_frame_size() {
        assert(pdus.drop_first() =~= Seq::<PduView>::empty());
        let next = context.receive(pdus[0]).0;
        assert(spec_receive_message(next, pdus.drop_first()) == next);
    } else {
        let first_size = profile.spec_first_frame_size(data.len() as usize) as int;
        let size = profile.spec_consecutive_frame_size() as int;
        let first = seq![
            PduView::First { length: data.len() as u32, data: data.subrange(0, first_size) },
        ];
        let controls = spec_flow_control_frames(flow_ctrl);
        let tail = spec_consecutive_frames(data, first_size, 1, size);
        assert(pdus == first + controls + tail);
        let started = context.receive(first[0]).0;
        assert(first.drop_first() =~= Seq::<PduView>::empty());
        assert(spec_receive_message(started, first.drop_first()) == started);
        assert(spec_receive_message(context, first) == started);
        lemma_receive_message_add(context, first + controls, tail);
        lemma_receive_message_add(context, first, controls);
        lemma_receive_flow_control_frames(started, flow_ctrl);
        lemma_receive_consecutive_frames(started, data, first_size, 1, size);
    }
}

} // verus!
