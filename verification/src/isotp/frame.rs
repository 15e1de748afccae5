use vstd::prelude::*;
use crate::constant::DEFAULT_ST_MIN;
use crate::isotp::error::IsoTpError;
use crate::isotp::standard::{Profile, Standard};
use crate::isotp::util::{
    copy_all, copy_range, frame_result_view, frames_result_view, resize, spec_decode, spec_encode,
    spec_from_data, spec_new_single, std2004, std2016,
};

verus! {

/// The four kinds of frame, told apart by the high nibble of the first byte.
#[derive(Clone, Copy, Debug, PartialEq, Eq, Structural)]
pub enum FrameType {
    Single,
    First,
    Consecutive,
    FlowControl,
}

impl FrameType {
    /// The first byte of a frame of this kind whose low nibble is zero.
    pub open spec fn spec_code(self) -> u8 {
        match self {
            FrameType::Single => 0x00,
            FrameType::First => 0x10,
            FrameType::Consecutive => 0x20,
            FrameType::FlowControl => 0x30,
        }
    }

    /// The kind that the first byte of a frame announces, if any.
    pub open spec fn spec_from_byte(byte0: u8) -> Option<FrameType> {
        if byte0 / 16 == 0 {
            Some(FrameType::Single)
        } else if byte0 / 16 == 1 {
            Some(FrameType::First)
        } else if byte0 / 16 == 2 {
            Some(FrameType::Consecutive)
        } else if byte0 / 16 == 3 {
            Some(FrameType::FlowControl)
        } else {
            None
        }
    }

    #[verifier::when_used_as_spec(spec_code)]
    pub fn code(self) -> (r: u8)
        ensures
            r == self.spec_code(),
    {
        match self {
            FrameType::Single => 0x00,
            FrameType::First => 0x10,
            FrameType::Consecutive => 0x20,
            FrameType::FlowControl => 0x30,
        }
    }

    #[verifier::when_used_as_spec(spec_from_byte)]
    pub fn from_byte(byte0: u8) -> (r: Option<FrameType>)
        ensures
            r == Self::spec_from_byte(byte0),
    {
        let high: u8 = byte0 / 16;
        if high == 0 {
            Some(FrameType::Single)
        } else if high == 1 {
            Some(FrameType::First)
        } else if high == 2 {
            Some(FrameType::Consecutive)
        } else if high == 3 {
            Some(FrameType::FlowControl)
        } else {
            None
        }
    }
}

/// What the receiver of a segmented message tells its sender.
#[derive(Clone, Copy, Debug, PartialEq, Eq, Structural)]
pub enum FlowControlState {
    /// Go on sending.
    Continues,
    /// Hold until the next flow control frame.
    Wait,
    /// The message does not fit: give up.
    Overload,
}

impl FlowControlState {
    /// The low nibble of the first byte of a flow control frame.
    pub open spec fn spec_code(self) -> u8 {
        match self {
            FlowControlState::Continues => 0,
            FlowControlState::Wait => 1,
            FlowControlState::Overload => 2,
        }
    }

    /// The status that a low nibble stands for, if any.
    pub open spec fn spec_from_nibble(nibble: u8) -> Option<FlowControlState> {
        if nibble == 0 {
            Some(FlowControlState::Continues)
        } else if nibble == 1 {
            Some(FlowControlState::Wait)
        } else if nibble == 2 {
            Some(FlowControlState::Overload)
        } else {
            None
        }
    }

    #[verifier::when_used_as_spec(spec_code)]
    pub fn code(self) -> (r: u8)
        ensures
            r == self.spec_code(),
    {
        match self {
            FlowControlState::Continues => 0,
            FlowControlState::Wait => 1,
            FlowControlState::Overload => 2,
        }
    }

    #[verifier::when_used_as_spec(spec_from_nibble)]
    pub fn from_nibble(nibble: u8) -> (r: Option<FlowControlState>)
        ensures
            r == Self::spec_from_nibble(nibble),
    {
        if nibble == 0 {
            Some(FlowControlState::Continues)
        } else if nibble == 1 {
            Some(FlowControlState::Wait)
        } else if nibble == 2 {
            Some(FlowControlState::Overload)
        } else {
            None
        }
    }
}

/// The content of a flow control frame: the status, the number of consecutive
/// frames that may follow before the next flow control frame (0: no limit),
/// and the separation time byte as it stands on the wire.
#[derive(Clone, Copy, Debug, PartialEq, Eq, Structural)]
pub struct FlowControlContext {
    pub state: FlowControlState,
    pub block_size: u8,
    pub st_min: u8,
}

impl FlowControlContext {
    /// The separation time in microseconds that a separation time byte asks
    /// for: `0x00..=0x7F` are milliseconds, `0xF1..=0xF9` are hundreds of
    /// microseconds, any other byte counts as none.
    pub open spec fn spec_st_min_us(self) -> u32 {
        if self.st_min <= 0x7F {
            (1000 * self.st_min) as u32
        } else if 0xF1 <= self.st_min <= 0xF9 {
            (100 * (self.st_min - 0xF0)) as u32
        } else {
            0
        }
    }

    /// The flow control content sent where the caller gives none.
    pub open spec fn spec_default() -> FlowControlContext {
        FlowControlContext {
            state: FlowControlState::Continues,
            block_size: 0,
            st_min: DEFAULT_ST_MIN,
        }
    }

    pub fn new(state: FlowControlState, block_size: u8, st_min: u8) -> (r: FlowControlContext)
        ensures
            r == (FlowControlContext { state, block_size, st_min }),
    {
        FlowControlContext { state, block_size, st_min }
    }

    pub fn state(&self) -> (r: FlowControlState)
        ensures
            r == self.state,
    {
        self.state
    }

    pub fn block_size(&self) -> (r: u8)
        ensures
            r == self.block_size,
    {
        self.block_size
    }

    pub fn st_min(&self) -> (r: u8)
        ensures
            r == self.st_min,
    {
        self.st_min
    }

    #[verifier::when_used_as_spec(spec_st_min_us)]
    pub fn st_min_us(self) -> (r: u32)
        ensures
            r == self.spec_st_min_us(),
    {
        if self.st_min <= 0x7F {
            let ms: u32 = self.st_min as u32;
            1000 * ms
        } else if 0xF1 <= self.st_min && self.st_min <= 0xF9 {
            let steps: u32 = (self.st_min - 0xF0) as u32;
            100 * steps
        } else {
            0
        }
    }
}

impl Default for FlowControlContext {
    fn default() -> (r: Self)
        ensures
            r == FlowControlContext::spec_default(),
    {
        FlowControlContext {
            state: FlowControlState::Continues,
            block_size: 0,
            st_min: DEFAULT_ST_MIN,
        }
    }
}

/// The three identifiers of one logical connection: where this side sends,
/// where it listens, and where it sends what is addressed to every node.
#[derive(Clone, Copy, Debug, PartialEq, Eq, Structural)]
pub struct Address {
    pub tx_id: u32,
    pub rx_id: u32,
    pub fid: u32,
}

/// One frame of the protocol by its content, apart from how it lies in a
/// frame of the link.
#[derive(Debug, PartialEq, Eq)]
pub enum CanIsoTpFrame {
    /// A whole message.
    SingleFrame { data: Vec<u8> },
    /// The start of a message of `length` bytes.
    FirstFrame { length: u32, data: Vec<u8> },
    /// A further part of a message; `sequence` counts modulo 16.
    ConsecutiveFrame { sequence: u8, data: Vec<u8> },
    /// The receiver's answer to a first frame.
    FlowControlFrame(FlowControlContext),
}

/// The mathematical value of a [`CanIsoTpFrame`].
pub enum PduView {
    Single { data: Seq<u8> },
    First { length: u32, data: Seq<u8> },
    Consecutive { sequence: u8, data: Seq<u8> },
    FlowControl(FlowControlContext),
}

impl PduView {
    pub open spec fn frame_type(self) -> FrameType {
        match self {
            PduView::Single { .. } => FrameType::Single,
            PduView::First { .. } => FrameType::First,
            PduView::Consecutive { .. } => FrameType::Consecutive,
            PduView::FlowControl(_) => FrameType::FlowControl,
        }
    }
}

impl View for CanIsoTpFrame {
    type V = PduView;

    open spec fn view(&self) -> PduView {
        match *self {
            CanIsoTpFrame::SingleFrame { data } => PduView::Single { data: data@ },
            CanIsoTpFrame::FirstFrame { length, data } => PduView::First { length, data: data@ },
            CanIsoTpFrame::ConsecutiveFrame { sequence, data } => PduView::Consecutive {
                sequence,
                data: data@,
            },
            CanIsoTpFrame::FlowControlFrame(context) => PduView::FlowControl(context),
        }
    }
}

impl Clone for CanIsoTpFrame {
    fn clone(&self) -> (r: Self)
        ensures
            r@ == self@,
    {
        match self {
            CanIsoTpFrame::SingleFrame { data } => CanIsoTpFrame::SingleFrame { data: data.clone() },
            CanIsoTpFrame::FirstFrame { length, data } => CanIsoTpFrame::FirstFrame {
                length: *length,
                data: data.clone(),
            },
            CanIsoTpFrame::ConsecutiveFrame { sequence, data } => CanIsoTpFrame::ConsecutiveFrame {
                sequence: *sequence,
                data: data.clone(),
            },
            CanIsoTpFrame::FlowControlFrame(context) => CanIsoTpFrame::FlowControlFrame(*context),
        }
    }
}

/// The values of a sequence of frames, one by one.
pub open spec fn frame_views(frames: Seq<CanIsoTpFrame>) -> Seq<PduView> {
    Seq::new(frames.len(), |i: int| frames[i]@)
}

impl CanIsoTpFrame {
    /// The kind of this frame.
    pub fn frame_type(&self) -> (r: FrameType)
        ensures
            r == self@.frame_type(),
    {
        match self {
            CanIsoTpFrame::SingleFrame { .. } => FrameType::Single,
            CanIsoTpFrame::FirstFrame { .. } => FrameType::First,
            CanIsoTpFrame::ConsecutiveFrame { .. } => FrameType::Consecutive,
            CanIsoTpFrame::FlowControlFrame(_) => FrameType::FlowControl,
        }
    }

    /// Decodes the bytes of one received frame.
    pub fn decode(profile: Profile, data: &[u8]) -> (r: Result<CanIsoTpFrame, IsoTpError>)
        ensures
            frame_result_view(r) == spec_decode(profile, data@),
    {
        let length = data.len();
        if length < 3 {
            return Err(IsoTpError::MalformedPdu(copy_all(data)));
        }
        if length > profile.max_frame_size() {
            return Err(IsoTpError::LengthOutOfRange(length));
        }
        let byte0 = data[0];
        match FrameType::from_byte(byte0) {
            Some(FrameType::Single) => match profile.standard {
                Standard::Std2004 => std2004::decode_single(data, byte0, length, profile.can_fd),
                Standard::Std2016 => std2016::decode_single(data, byte0, length, profile.can_fd),
            },
            Some(FrameType::First) => match profile.standard {
                Standard::Std2004 => std2004::decode_first(data, byte0, length, profile.can_fd),
                Standard::Std2016 => std2016::decode_first(data, byte0, length, profile.can_fd),
            },
            Some(FrameType::Consecutive) => Ok(
                CanIsoTpFrame::ConsecutiveFrame {
                    sequence: byte0 % 16,
                    data: copy_range(data, 1, length),
                },
            ),
            Some(FrameType::FlowControl) => match FlowControlState::from_nibble(byte0 % 16) {
                Some(state) => Ok(
                    CanIsoTpFrame::FlowControlFrame(FlowControlContext::new(state, data[1], data[2])),
                ),
                None => Err(IsoTpError::MalformedPdu(copy_all(data))),
            },
            None => Err(IsoTpError::MalformedPdu(copy_all(data))),
        }
    }

    /// Encodes the frame. Bytes of the link's frame that the frame of the
    /// protocol does not fill hold `padding`, or the profile's padding byte
    /// where `padding` is `None`.
    pub fn encode(self, profile: Profile, padding: Option<u8>) -> (r: Vec<u8>)
        ensures
            r@ == spec_encode(
                profile,
                self@,
                match padding {
                    Some(byte) => byte,
                    None => profile.spec_default_padding(),
                },
            ),
    {
        match self {
            CanIsoTpFrame::SingleFrame { data } => match profile.standard {
                Standard::Std2004 => std2004::encode_single(data, padding, profile.can_fd),
                Standard::Std2016 => std2016::encode_single(data, padding, profile.can_fd),
            },
            CanIsoTpFrame::FirstFrame { length, data } => match profile.standard {
                Standard::Std2004 => std2004::encode_first(length, data, profile.can_fd),
                Standard::Std2016 => std2016::encode_first(length, data, profile.can_fd),
            },
            CanIsoTpFrame::ConsecutiveFrame { sequence, data } => {
                let mut data = data;
                let mut result: Vec<u8> = Vec::new();
                result.push(0x20 + sequence % 16);
                result.append(&mut data);
                let byte = match padding {
                    Some(byte) => byte,
                    None => profile.default_padding(),
                };
                resize(profile, &mut result, byte);
                result
            },
            CanIsoTpFrame::FlowControlFrame(context) => {
                let mut result: Vec<u8> = Vec::new();
                result.push(0x30 + context.state().code());
                result.push(context.block_size());
                result.push(context.st_min());
                let byte = match padding {
                    Some(byte) => byte,
                    None => profile.default_padding(),
                };
                resize(profile, &mut result, byte);
                result
            },
        }
    }

    /// Cuts a payload into the frames it goes out in, in their order. The
    /// flow control frames of `flow_ctrl` stand behind the first frame; where
    /// there is none, the default one stands there.
    pub fn from_data(profile: Profile, data: &[u8], flow_ctrl: Vec<FlowControlContext>) -> (r: Result<
        Vec<CanIsoTpFrame>,
        IsoTpError,
    >)
        ensures
            frames_result_view(r) == spec_from_data(profile, data@, flow_ctrl@),
    {
        match profile.standard {
            Standard::Std2004 => std2004::from_data(data, flow_ctrl, profile.can_fd),
            Standard::Std2016 => std2016::from_data(data, flow_ctrl, profile.can_fd),
        }
    }

    /// The single frame that carries `data`.
    pub fn single_frame(profile: Profile, data: &[u8]) -> (r: Result<CanIsoTpFrame, IsoTpError>)
        ensures
            frame_result_view(r) == spec_new_single(profile, data@),
    {
        match profile.standard {
            Standard::Std2004 => std2004::new_single(data, profile.can_fd),
            Standard::Std2016 => std2016::new_single(data, profile.can_fd),
        }
    }

    /// A flow control frame of the given content.
    pub fn flow_ctrl_frame(state: FlowControlState, block_size: u8, st_min: u8) -> (r: CanIsoTpFrame)
        ensures
            r@ == PduView::FlowControl(FlowControlContext { state, block_size, st_min }),
    {
        CanIsoTpFrame::FlowControlFrame(FlowControlContext::new(state, block_size, st_min))
    }

    /// The flow control frame sent where the caller gives none: go on, no
    /// block limit, ten milliseconds between frames.
    pub fn default_flow_ctrl_frame() -> (r: CanIsoTpFrame)
        ensures
            r@ == PduView::FlowControl(FlowControlContext::spec_default()),
    {
        CanIsoTpFrame::FlowControlFrame(FlowControlContext::default())
    }
}

} // verus!
