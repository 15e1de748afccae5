use vstd::prelude::*;
use vstd::slice::{slice_subrange, slice_to_vec};
use crate::constant::{CAN_FRAME_MAX_SIZE, CONSECUTIVE_SEQUENCE_START};
use crate::isotp::error::{ErrorView, IsoTpError};
use crate::isotp::frame::{
    CanIsoTpFrame, FlowControlContext, FlowControlState, FrameType, PduView, frame_views,
};
use crate::isotp::standard::{Profile, Standard};

pub mod std2004;
pub mod std2016;

verus! {

/// The value of what a decoder or a segmenter returns.
pub open spec fn frame_result_view(r: Result<CanIsoTpFrame, IsoTpError>) -> Result<
    PduView,
    ErrorView,
> {
    match r {
        Ok(frame) => Ok(frame@),
        Err(e) => Err(e@),
    }
}

/// The value of what a segmenter returns.
pub open spec fn frames_result_view(r: Result<Vec<CanIsoTpFrame>, IsoTpError>) -> Result<
    Seq<PduView>,
    ErrorView,
> {
    match r {
        Ok(frames) => Ok(frame_views(frames@)),
        Err(e) => Err(e@),
    }
}

/// The 32-bit number that four bytes spell, most significant byte first.
pub open spec fn spec_be32(b0: u8, b1: u8, b2: u8, b3: u8) -> u32 {
    (b0 * 0x100_0000 + b1 * 0x1_0000 + b2 * 0x100 + b3) as u32
}

/// The four bytes that spell a 32-bit number, most significant byte first.
pub open spec fn spec_be32_bytes(value: u32) -> Seq<u8> {
    seq![
        (value / 0x100_0000) as u8,
        ((value / 0x1_0000) % 0x100) as u8,
        ((value / 0x100) % 0x100) as u8,
        (value % 0x100) as u8,
    ]
}

pub(crate) fn be32(b0: u8, b1: u8, b2: u8, b3: u8) -> (r: u32)
    ensures
        r == spec_be32(b0, b1, b2, b3),
{
    let w0: u32 = b0 as u32;
    let w1: u32 = b1 as u32;
    let w2: u32 = b2 as u32;
    let w3: u32 = b3 as u32;
    w0 * 0x100_0000 + w1 * 0x1_0000 + w2 * 0x100 + w3
}

/// Appends the four bytes of `value`, most significant byte first.
pub(crate) fn push_be32(result: &mut Vec<u8>, value: u32)
    ensures
        final(result)@ == old(result)@ + spec_be32_bytes(value),
{
    result.push((value / 0x100_0000) as u8);
    result.push(((value / 0x1_0000) % 0x100) as u8);
    result.push(((value / 0x100) % 0x100) as u8);
    result.push((value % 0x100) as u8);
    assert(result@ =~= old(result)@ + spec_be32_bytes(value));
}

/// The bytes of `data` from `from` up to `to`, as a vector of their own.
pub(crate) fn copy_range(data: &[u8], from: usize, to: usize) -> (r: Vec<u8>)
    requires
        from <= to <= data.len(),
    ensures
        r@ == data@.subrange(from as int, to as int),
{
    slice_to_vec(slice_subrange(data, from, to))
}

/// What a single frame decodes to. `data` is the whole frame, of at least
/// three bytes.
///
/// The low nibble of the first byte is the payload's length, and the payload
/// follows it. Under 2016 a nibble of zero says that the second byte is the
/// length and the payload follows that one; under 2004 it is an error. A
/// length that the frame has not the bytes for is an error.
pub open spec fn spec_decode_single(profile: Profile, data: Seq<u8>) -> Result<PduView, ErrorView> {
    let nibble = data[0] % 16;
    if nibble > 0 {
        if data.len() < nibble + 1 {
            Err(ErrorView::MalformedPdu(data))
        } else {
            Ok(PduView::Single { data: data.subrange(1, 1 + nibble) })
        }
    } else if profile.standard == Standard::Std2016 {
        if data.len() < data[1] + 2 {
            Err(ErrorView::MalformedPdu(data))
        } else {
            Ok(PduView::Single { data: data.subrange(2, 2 + data[1]) })
        }
    } else {
        Err(ErrorView::MalformedPdu(data))
    }
}

/// What a first frame decodes to. `data` is the whole frame, of at least
/// three bytes.
///
/// The frame must fill the longest frame of the link. The low nibble of the
/// first byte and the second byte are the message's length, of 12 bits.
/// Under 2016 a length field of zero says that the next four bytes are the
/// length, of 32 bits. The payload is the rest of the frame.
pub open spec fn spec_decode_first(profile: Profile, data: Seq<u8>) -> Result<PduView, ErrorView> {
    let short = (data[0] % 16) * 256 + data[1];
    if data.len() != profile.spec_max_frame_size() {
        Err(
            ErrorView::InvalidDataLength {
                actual: data.len() as usize,
                expected: profile.spec_max_frame_size(),
            },
        )
    } else if short > 0 || profile.standard == Standard::Std2004 {
        Ok(PduView::First { length: short as u32, data: data.subrange(2, data.len() as int) })
    } else {
        Ok(
            PduView::First {
                length: spec_be32(data[2], data[3], data[4], data[5]),
                data: data.subrange(6, data.len() as int),
            },
        )
    }
}

/// The header of a single frame with `length` bytes of payload: one byte
/// that holds the length in its low nibble, or, under 2016 where the length
/// is none of 1 to 7, a zero byte and a byte that holds the length.
pub open spec fn spec_single_header(profile: Profile, length: nat) -> Seq<u8> {
    if profile.standard == Standard::Std2016 && !(1 <= length <= 7) {
        seq![0x00u8, (length % 256) as u8]
    } else {
        seq![(length % 16) as u8]
    }
}

/// The bytes of a single frame: header, payload, and padding up to the
/// length of the frame.
pub open spec fn spec_encode_single(profile: Profile, data: Seq<u8>, padding: u8) -> Seq<u8> {
    spec_resize(profile, spec_single_header(profile, data.len()) + data, padding)
}

/// The header of a first frame of a message of `length` bytes: two bytes
/// that hold the length in 12 bits, or, under 2016 where the length is zero
/// or takes more than 12 bits, two bytes with a length field of zero and four
/// bytes that hold the length.
pub open spec fn spec_first_header(profile: Profile, length: u32) -> Seq<u8> {
    if profile.standard == Standard::Std2016 && !(1 <= length <= 0xFFF) {
        seq![0x10u8, 0x00u8] + spec_be32_bytes(length)
    } else {
        seq![(0x10 + (length / 256) % 16) as u8, (length % 256) as u8]
    }
}

/// The bytes of a first frame: header and payload. Nothing is added: the
/// payload of a first frame fills its frame.
pub open spec fn spec_encode_first(profile: Profile, length: u32, data: Seq<u8>) -> Seq<u8> {
    spec_first_header(profile, length) + data
}

/// What a payload that is to go out as one single frame becomes: the frame,
/// or the reason why there is none.
pub open spec fn spec_new_single(profile: Profile, data: Seq<u8>) -> Result<PduView, ErrorView> {
    if data.len() == 0 {
        Err(ErrorView::EmptyPayload)
    } else if data.len() <= profile.spec_single_frame_size() {
        Ok(PduView::Single { data })
    } else {
        Err(ErrorView::LengthOutOfRange(data.len() as usize))
    }
}

/// The frames that a payload goes out in, or the reason why there are none.
///
/// A payload of no bytes is refused. One that fits a single frame is one
/// single frame. A longer one is cut into a first frame, the flow control
/// frames and the consecutive frames, numbered from 1 on (see
/// [`spec_segments`]). It is refused where it is longer than the revision can
/// announce, and where it is too long for a single frame and yet would not
/// fill a first frame.
pub open spec fn spec_from_data(
    profile: Profile,
    data: Seq<u8>,
    flow_ctrl: Seq<FlowControlContext>,
) -> Result<Seq<PduView>, ErrorView> {
    if data.len() == 0 {
        Err(ErrorView::EmptyPayload)
    } else if data.len() <= profile.spec_single_frame_size() {
        Ok(seq![PduView::Single { data }])
    } else if data.len() > profile.spec_max_length() || data.len()
        <= profile.spec_first_frame_size(data.len() as usize) {
        Err(ErrorView::LengthOutOfRange(data.len() as usize))
    } else {
        Ok(
            spec_segments(
                data,
                flow_ctrl,
                CONSECUTIVE_SEQUENCE_START,
                profile.spec_first_frame_size(data.len() as usize) as int,
                profile.spec_consecutive_frame_size() as int,
            ),
        )
    }
}

/// What the bytes of one received frame decode to.
///
/// A frame has at least three bytes and no more than the link carries. The
/// high nibble of its first byte tells its kind. A consecutive frame holds
/// its sequence number in the low nibble and its payload in all bytes that
/// follow. A flow control frame holds the status in the low nibble, the
/// block size in the second byte and the separation time in the third.
pub open spec fn spec_decode(profile: Profile, data: Seq<u8>) -> Result<PduView, ErrorView> {
    if data.len() < 3 {
        Err(ErrorView::MalformedPdu(data))
    } else if data.len() > profile.spec_max_frame_size() {
        Err(ErrorView::LengthOutOfRange(data.len() as usize))
    } else {
        match FrameType::spec_from_byte(data[0]) {
            Some(FrameType::Single) => spec_decode_single(profile, data),
            Some(FrameType::First) => spec_decode_first(profile, data),
            Some(FrameType::Consecutive) => Ok(
                PduView::Consecutive {
                    sequence: data[0] % 16,
                    data: data.subrange(1, data.len() as int),
                },
            ),
            Some(FrameType::FlowControl) => match FlowControlState::spec_from_nibble(data[0] % 16) {
                Some(state) => Ok(
                    PduView::FlowControl(
                        FlowControlContext { state, block_size: data[1], st_min: data[2] },
                    ),
                ),
                None => Err(ErrorView::MalformedPdu(data)),
            },
            None => Err(ErrorView::MalformedPdu(data)),
        }
    }
}

/// The bytes that a frame of the protocol goes out as, with `padding` in
/// the bytes that the frame of the link has beyond it.
pub open spec fn spec_encode(profile: Profile, pdu: PduView, padding: u8) -> Seq<u8> {
    match pdu {
        PduView::Single { data } => spec_encode_single(profile, data, padding),
        PduView::First { length, data } => spec_encode_first(profile, length, data),
        PduView::Consecutive { sequence, data } => spec_resize(
            profile,
            seq![(0x20 + sequence % 16) as u8] + data,
            padding,
        ),
        PduView::FlowControl(context) => spec_resize(
            profile,
            seq![(0x30 + context.state.spec_code()) as u8, context.block_size, context.st_min],
            padding,
        ),
    }
}

/// The bytes of `data`, as a vector of their own.
pub(crate) fn copy_all(data: &[u8]) -> (r: Vec<u8>)
    ensures
        r@ == data@,
{
    slice_to_vec(data)
}

/// The length that a CAN-FD frame of `length` bytes is brought to: a frame
/// of up to 8 bytes keeps its length, a longer one takes the next length
/// that the link knows. No frame is longer than 64 bytes.
pub open spec fn spec_can_fd_resize(length: usize) -> Option<usize> {
    if length <= CAN_FRAME_MAX_SIZE {
        Some(length)
    } else if length <= 12 {
        Some(12)
    } else if length <= 16 {
        Some(16)
    } else if length <= 20 {
        Some(20)
    } else if length <= 24 {
        Some(24)
    } else if length <= 32 {
        Some(32)
    } else if length <= 48 {
        Some(48)
    } else if length <= 64 {
        Some(64)
    } else {
        None
    }
}

#[verifier::when_used_as_spec(spec_can_fd_resize)]
pub fn can_fd_resize(length: usize) -> (r: Option<usize>)
    ensures
        r == spec_can_fd_resize(length),
{
    if length <= CAN_FRAME_MAX_SIZE {
        Some(length)
    } else if length <= 12 {
        Some(12)
    } else if length <= 16 {
        Some(16)
    } else if length <= 20 {
        Some(20)
    } else if length <= 24 {
        Some(24)
    } else if length <= 32 {
        Some(32)
    } else if length <= 48 {
        Some(48)
    } else if length <= 64 {
        Some(64)
    } else {
        None
    }
}

/// The length of the frame that `length` bytes of header and data go out
/// in. A classic frame always has 8 bytes. A CAN-FD frame has the length
/// that [`spec_can_fd_resize`] gives; bytes that are too many for any frame
/// are left as they are.
pub open spec fn spec_frame_length(profile: Profile, length: nat) -> nat {
    if !profile.can_fd {
        CAN_FRAME_MAX_SIZE as nat
    } else if length <= 8 {
        length
    } else if length <= 12 {
        12
    } else if length <= 16 {
        16
    } else if length <= 20 {
        20
    } else if length <= 24 {
        24
    } else if length <= 32 {
        32
    } else if length <= 48 {
        48
    } else if length <= 64 {
        64
    } else {
        length
    }
}

/// `raw` brought to the length of its frame: cut where it is longer, filled
/// with `padding` where it is shorter.
pub open spec fn spec_resize(profile: Profile, raw: Seq<u8>, padding: u8) -> Seq<u8> {
    let n = spec_frame_length(profile, raw.len());
    if n <= raw.len() {
        raw.subrange(0, n as int)
    } else {
        raw + Seq::new((n - raw.len()) as nat, |i: int| padding)
    }
}

/// Brings `result` to the length of its frame.
pub(crate) fn resize(profile: Profile, result: &mut Vec<u8>, padding: u8)
    ensures
        final(result)@ == spec_resize(profile, old(result)@, padding),
{
    let length = result.len();
    if !profile.can_fd {
        result.resize(CAN_FRAME_MAX_SIZE, padding);
        assert(result@ =~= spec_resize(profile, old(result)@, padding));
    } else {
        match can_fd_resize(length) {
            Some(n) => {
                result.resize(n, padding);
                assert(result@ =~= spec_resize(profile, old(result)@, padding));
            },
            None => {
                assert(result@ =~= spec_resize(profile, old(result)@, padding));
            },
        }
    }
}

/// The sequence number that follows `sequence`: one more, and 0 after 15.
pub open spec fn spec_next_sequence(sequence: u8) -> u8 {
    if sequence >= 0x0F {
        0
    } else {
        (sequence + 1) as u8
    }
}

/// The consecutive frames that carry `data` from `offset` on: chunks of
/// `size` bytes, the last one shorter where the rest is, numbered from
/// `sequence` on.
pub open spec fn spec_consecutive_frames(
    data: Seq<u8>,
    offset: int,
    sequence: u8,
    size: int,
) -> Seq<PduView>
    decreases data.len() - offset,
{
    if size <= 0 || offset < 0 || offset + size >= data.len() {
        seq![PduView::Consecutive { sequence, data: data.subrange(offset, data.len() as int) }]
    } else {
        seq![PduView::Consecutive { sequence, data: data.subrange(offset, offset + size) }]
            + spec_consecutive_frames(data, offset + size, spec_next_sequence(sequence), size)
    }
}

/// The flow control frames that stand between the first frame and the
/// consecutive frames of a message: those that the caller gave, or, where
/// it gave none, the default one.
pub open spec fn spec_flow_control_frames(flow_ctrl: Seq<FlowControlContext>) -> Seq<PduView> {
    if flow_ctrl.len() == 0 {
        seq![PduView::FlowControl(FlowControlContext::spec_default())]
    } else {
        Seq::new(flow_ctrl.len(), |i: int| PduView::FlowControl(flow_ctrl[i]))
    }
}

/// The frames of a message too long for a single frame: the first frame
/// with the first `first_size` bytes, the flow control frames, then the
/// consecutive frames, numbered from `sequence` on.
pub open spec fn spec_segments(
    data: Seq<u8>,
    flow_ctrl: Seq<FlowControlContext>,
    sequence: u8,
    first_size: int,
    consecutive_size: int,
) -> Seq<PduView> {
    seq![PduView::First { length: data.len() as u32, data: data.subrange(0, first_size) }]
        + spec_flow_control_frames(flow_ctrl) + spec_consecutive_frames(
        data,
        first_size,
        sequence,
        consecutive_size,
    )
}

/// Appends the flow control frames of a message to `results`.
pub(crate) fn add_flow_control(results: &mut Vec<CanIsoTpFrame>, flow_ctrl: &Vec<FlowControlContext>)
    ensures
        frame_views(final(results)@) == frame_views(old(results)@) + spec_flow_control_frames(
            flow_ctrl@,
        ),
{
    if flow_ctrl.len() == 0 {
        results.push(CanIsoTpFrame::default_flow_ctrl_frame());
        assert(frame_views(results@) =~= frame_views(old(results)@) + spec_flow_control_frames(
            flow_ctrl@,
        ));
    } else {
        let mut i: usize = 0;
        while i < flow_ctrl.len()
            invariant
                i <= flow_ctrl.len(),
                flow_ctrl.len() > 0,
                frame_views(results@) == frame_views(old(results)@) + spec_flow_control_frames(
                    flow_ctrl@,
                ).subrange(0, i as int),
            decreases flow_ctrl.len() - i,
        {
            let ghost before = results@;
            results.push(CanIsoTpFrame::FlowControlFrame(flow_ctrl[i]));
            assert(frame_views(results@) =~= frame_views(before).push(
                PduView::FlowControl(flow_ctrl@[i as int]),
            ));
            assert(spec_flow_control_frames(flow_ctrl@).subrange(0, i + 1)
                =~= spec_flow_control_frames(flow_ctrl@).subrange(0, i as int).push(
                PduView::FlowControl(flow_ctrl@[i as int]),
            ));
            i = i + 1;
        }
        assert(spec_flow_control_frames(flow_ctrl@).subrange(0, i as int)
            =~= spec_flow_control_frames(flow_ctrl@));
    }
}

/// Cuts `data` into the frames of a segmented message and appends them to
/// `results`.
///
/// With `*offset == 0` the first frame comes first, with the first
/// `first_frame_size` bytes, followed by the flow control frames; the
/// consecutive frames follow, of `consecutive_frame_size` bytes each, numbered
/// from `*sequence` on. With another `*offset` only the consecutive frames
/// from that offset on are made; there is always a last one, which is empty
/// where no bytes are left for it. At the end `*offset` is where the last
/// frame starts and `*sequence` is its number.
pub fn parse(
    data: &[u8],
    offset: &mut usize,
    sequence: &mut u8,
    results: &mut Vec<CanIsoTpFrame>,
    flow_ctrl: &Vec<FlowControlContext>,
    first_frame_size: usize,
    consecutive_frame_size: usize,
)
    requires
        data.len() <= u32::MAX,
        *old(offset) <= data.len(),
        *old(offset) == 0 ==> first_frame_size <= data.len(),
        0 < consecutive_frame_size,
    ensures
        *old(offset) == 0 ==> frame_views(final(results)@) == frame_views(old(results)@)
            + spec_segments(
            data@,
            flow_ctrl@,
            *old(sequence),
            first_frame_size as int,
            consecutive_frame_size as int,
        ),
        *old(offset) != 0 ==> frame_views(final(results)@) == frame_views(old(results)@)
            + spec_consecutive_frames(
            data@,
            *old(offset) as int,
            *old(sequence),
            consecutive_frame_size as int,
        ),
        *final(offset) <= data.len(),
        *final(offset) + consecutive_frame_size >= data.len(),
        final(results)@.len() > 0,
        final(results)@.last()@ == (PduView::Consecutive {
            sequence: *final(sequence),
            data: data@.subrange(*final(offset) as int, data@.len() as int),
        }),
{
    let length = data.len();
    let ghost head = frame_views(results@);
    if *offset == 0 {
        *offset = first_frame_size;
        let frame = CanIsoTpFrame::FirstFrame {
            length: length as u32,
            data: copy_range(data, 0, first_frame_size),
        };
        results.push(frame);
        assert(frame_views(results@) =~= frame_views(old(results)@) + seq![
            PduView::First {
                length: data@.len() as u32,
                data: data@.subrange(0, first_frame_size as int),
            },
        ]);
        add_flow_control(results, flow_ctrl);
        proof {
            head = frame_views(results@);
        }
    }
    let ghost start = *offset as int;
    let ghost first_sequence = *sequence;
    loop
        invariant_except_break
            head + spec_consecutive_frames(
                data@,
                start,
                first_sequence,
                consecutive_frame_size as int,
            ) == frame_views(results@) + spec_consecutive_frames(
                data@,
                *offset as int,
                *sequence,
                consecutive_frame_size as int,
            ),
        invariant
            length == data.len(),
            *offset <= length,
            0 < consecutive_frame_size,
        ensures
            frame_views(results@) == head + spec_consecutive_frames(
                data@,
                start,
                first_sequence,
                consecutive_frame_size as int,
            ),
            *offset + consecutive_frame_size >= length,
            results@.len() > 0,
            results@.last()@ == (PduView::Consecutive {
                sequence: *sequence,
                data: data@.subrange(*offset as int, length as int),
            }),
        decreases length - *offset,
    {
        let ghost before = results@;
        if consecutive_frame_size >= length - *offset {
            let frame = CanIsoTpFrame::ConsecutiveFrame {
                sequence: *sequence,
                data: copy_range(data, *offset, length),
            };
            results.push(frame);
            assert(frame_views(results@) =~= frame_views(before) + spec_consecutive_frames(
                data@,
                *offset as int,
                *sequence,
                consecutive_frame_size as int,
            ));
            break ;
        }
        let frame = CanIsoTpFrame::ConsecutiveFrame {
            sequence: *sequence,
            data: copy_range(data, *offset, *offset + consecutive_frame_size),
        };
        results.push(frame);
        assert(frame_views(results@) =~= frame_views(before) + seq![
            PduView::Consecutive {
                sequence: *sequence,
                data: data@.subrange(*offset as int, *offset + consecutive_frame_size),
            },
        ]);
        *offset = *offset + consecutive_frame_size;
        if *sequence >= 0x0F {
            *sequence = 0;
        } else {
            *sequence = *sequence + 1;
        }
    }
}

} // verus!
