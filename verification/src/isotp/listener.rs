use vstd::prelude::*;
use crate::isotp::context::{ContextView, IsoTpContext};
use crate::isotp::context_lemmas::lemma_batch_keeps_valid;
use crate::isotp::error::IsoTpError;
use crate::isotp::event::{EventView, IsoTpEvent};
use crate::isotp::frame::{CanIsoTpFrame, FlowControlContext, PduView, frame_views};
use crate::isotp::standard::Profile;
use crate::isotp::state::IsoTpState;
use crate::isotp::util::spec_decode;

verus! {

/// A frame as the device hands it over: the raw identifier and the data
/// bytes.
#[derive(Debug, PartialEq, Eq)]
pub struct ReceivedFrame {
    pub id: u32,
    pub data: Vec<u8>,
}

/// The mathematical value of a [`ReceivedFrame`].
pub struct ReceivedFrameView {
    pub id: u32,
    pub data: Seq<u8>,
}

impl View for ReceivedFrame {
    type V = ReceivedFrameView;

    open spec fn view(&self) -> ReceivedFrameView {
        ReceivedFrameView { id: self.id, data: self.data@ }
    }
}

impl Clone for ReceivedFrame {
    fn clone(&self) -> (r: Self)
        ensures
            r@ == self@,
    {
        ReceivedFrame { id: self.id, data: self.data.clone() }
    }
}

/// The values of a batch of received frames, one by one.
pub open spec fn received_views(frames: Seq<ReceivedFrame>) -> Seq<ReceivedFrameView> {
    Seq::new(frames.len(), |i: int| frames[i]@)
}

/// The flags of a receiver that has answered a first frame.
pub open spec fn spec_reassembly_flags() -> IsoTpState {
    IsoTpState::spec_sending().spec_union(IsoTpState::spec_wait_data())
}

impl ContextView {
    /// What a decoded frame does to the channel, and the frames to send in
    /// answer.
    ///
    /// Each kind of frame goes to its handler. A first frame that was taken
    /// is answered with the default flow control frame: the channel then
    /// sends and waits for data, and the listeners are told that a first
    /// frame came. A frame that its handler refuses changes no more than the
    /// handler says, and is not answered.
    pub open spec fn receive(self, pdu: PduView) -> (ContextView, Seq<PduView>) {
        match pdu {
            PduView::Single { data } => (self.on_single_frame(data).0, Seq::empty()),
            PduView::First { length, data } => {
                let (next, result) = self.on_first_frame(length, data);
                if result is Ok {
                    (
                        next.state_add(spec_reassembly_flags()).emit(EventView::FirstFrameReceived),
                        seq![PduView::FlowControl(FlowControlContext::spec_default())],
                    )
                } else {
                    (next, Seq::empty())
                }
            },
            PduView::Consecutive { sequence, data } => (
                self.on_consecutive_frame(sequence, data).0,
                Seq::empty(),
            ),
            PduView::FlowControl(context) => (self.on_flow_ctrl_frame(context).0, Seq::empty()),
        }
    }

    /// What a frame does that cannot be decoded: the channel is in the
    /// error state and the listeners are told why.
    pub open spec fn on_decode_error(self, error: crate::isotp::error::ErrorView) -> ContextView {
        ContextView { state: IsoTpState::spec_error(), ..self }.emit(
            EventView::ErrorOccurred(error),
        )
    }

    /// What the frames of a batch do from the `i`-th on, and the frames to
    /// send in answer.
    ///
    /// Frames with another identifier than the one the channel listens to
    /// are passed over. The others are decoded and received in their order.
    /// The first one that cannot be decoded ends the batch.
    pub open spec fn on_frame_received_from(
        self,
        profile: Profile,
        frames: Seq<ReceivedFrameView>,
        i: int,
    ) -> (ContextView, Seq<PduView>)
        decreases frames.len() - i,
    {
        if i < 0 || i >= frames.len() {
            (self, Seq::empty())
        } else if frames[i].id != self.address.rx_id {
            self.on_frame_received_from(profile, frames, i + 1)
        } else {
            match spec_decode(profile, frames[i].data) {
                Ok(pdu) => {
                    let (next, replies) = self.receive(pdu);
                    let (last, more) = next.on_frame_received_from(profile, frames, i + 1);
                    (last, replies + more)
                },
                Err(error) => (self.on_decode_error(error), Seq::empty()),
            }
        }
    }

    /// What a batch of frames does, and the frames to send in answer.
    pub open spec fn on_frame_received(self, profile: Profile, frames: Seq<ReceivedFrameView>) -> (
        ContextView,
        Seq<PduView>,
    ) {
        self.on_frame_received_from(profile, frames, 0)
    }
}

impl IsoTpContext {
    /// Receives one decoded frame. Returns the frames to send in answer.
    pub fn receive(&mut self, frame: CanIsoTpFrame) -> (replies: Vec<CanIsoTpFrame>)
        ensures
            (final(self)@, frame_views(replies@)) == old(self)@.receive(frame@),
            old(self)@.is_valid() ==> final(self)@.is_valid(),
    {
        let mut replies: Vec<CanIsoTpFrame> = Vec::new();
        assert(frame_views(replies@) =~= Seq::<PduView>::empty());
        match frame {
            CanIsoTpFrame::SingleFrame { data } => {
                let _ = self.on_single_frame(data);
            },
            CanIsoTpFrame::FirstFrame { length, data } => {
                if self.on_first_frame(length, data).is_ok() {
                    self.state_add(IsoTpState::sending().union(IsoTpState::wait_data()));
                    self.on_iso_tp_event(IsoTpEvent::FirstFrameReceived);
                    replies.push(CanIsoTpFrame::default_flow_ctrl_frame());
                    assert(frame_views(replies@) =~= seq![
                        PduView::FlowControl(FlowControlContext::spec_default()),
                    ]);
                }
            },
            CanIsoTpFrame::ConsecutiveFrame { sequence, data } => {
                let _ = self.on_consecutive_frame(sequence, data);
            },
            CanIsoTpFrame::FlowControlFrame(context) => {
                let _ = self.on_flow_ctrl_frame(context);
            },
        }
        replies
    }

    /// Puts the channel in the error state for a frame that could not be
    /// decoded.
    fn on_decode_error(&mut self, error: IsoTpError)
        ensures
            final(self)@ == old(self)@.on_decode_error(error@),
    {
        self.set_state(IsoTpState::error());
        self.on_iso_tp_event(IsoTpEvent::ErrorOccurred(error));
    }

    /// Receives a batch of frames from the device. Returns the frames to
    /// send in answer, in their order.
    pub fn on_frame_received(&mut self, profile: Profile, frames: &Vec<ReceivedFrame>) -> (replies:
        Vec<CanIsoTpFrame>)
        ensures
            (final(self)@, frame_views(replies@)) == old(self)@.on_frame_received(
                profile,
                received_views(frames@),
            ),
            old(self)@.is_valid() ==> final(self)@.is_valid(),
    {
        let mut replies: Vec<CanIsoTpFrame> = Vec::new();
        let rx_id = self.address().rx_id;
        let ghost batch = received_views(frames@);
        assert(frame_views(replies@) =~= Seq::<PduView>::empty());
        let mut i: usize = 0;
        while i < frames.len()
            invariant_except_break
                i <= frames.len(),
                old(self)@.on_frame_received(profile, batch) == ({
                    let (last, more) = self@.on_frame_received_from(profile, batch, i as int);
                    (last, frame_views(replies@) + more)
                }),
            invariant
                batch == received_views(frames@),
                rx_id == self@.address.rx_id,
            ensures
                (self@, frame_views(replies@)) == old(self)@.on_frame_received(profile, batch),
            decreases frames.len() - i,
        {
            let frame = &frames[i];
            assert(batch[i as int] == frame@);
            if frame.id == rx_id {
                let ghost before = self@;
                let ghost sent = frame_views(replies@);
                match CanIsoTpFrame::decode(profile, frame.data.as_slice()) {
                    Ok(pdu) => {
                        let mut answer = self.receive(pdu);
                        let ghost answered = frame_views(answer@);
                        replies.append(&mut answer);
                        assert(frame_views(replies@) =~= sent + answered);
                        assert(rx_id == self@.address.rx_id) by {
                            lemma_receive_keeps_address(before, pdu@);
                        }
                        assert((sent + answered) + self@.on_frame_received_from(
                            profile,
                            batch,
                            i + 1,
                        ).1 =~= sent + (answered + self@.on_frame_received_from(
                            profile,
                            batch,
                            i + 1,
                        ).1));
                    },
                    Err(e) => {
                        self.on_decode_error(e);
                        assert(frame_views(replies@) + Seq::<PduView>::empty() =~= frame_views(
                            replies@,
                        ));
                        break ;
                    },
                }
            }
            i = i + 1;
        }
        proof {
            if i >= frames.len() {
                assert(frame_views(replies@) + Seq::<PduView>::empty() =~= frame_views(replies@));
            }
            if old(self)@.is_valid() {
                lemma_batch_keeps_valid(old(self)@, profile, batch, 0);
            }
        }
        replies
    }
}

/// Receiving a frame leaves the address of the channel as it is.
pub proof fn lemma_receive_keeps_address(context: ContextView, pdu: PduView)
    ensures
        context.receive(pdu).0.address == context.address,
{
}

} // verus!
