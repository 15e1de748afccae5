use vstd::prelude::*;
use crate::isotp::error::ErrorView;
use crate::isotp::frame::{FlowControlContext, PduView};
use crate::isotp::standard::{Profile, Standard};
use crate::isotp::util::{
    spec_be32, spec_be32_bytes, spec_consecutive_frames, spec_decode, spec_encode,
    spec_first_header, spec_flow_control_frames, spec_frame_length, spec_from_data,
    spec_next_sequence, spec_resize, spec_single_header,
};

verus! {

/// The number of bytes that the header and the payload of a frame take,
/// before any padding.
pub open spec fn spec_raw_length(profile: Profile, pdu: PduView) -> nat {
    match pdu {
        PduView::Single { data } => spec_single_header(profile, data.len()).len() + data.len(),
        PduView::First { length, data } => spec_first_header(profile, length).len() + data.len(),
        PduView::Consecutive { data, .. } => 1 + data.len(),
        PduView::FlowControl(_) => 3,
    }
}

/// The frame is one that the profile can carry, and its bytes on the wire
/// say all of it: a single frame within the profile's limit, a first frame
/// that fills the link's frame, a consecutive frame with a sequence number
/// of four bits that needs no padding. A frame on the wire has at least
/// three bytes.
pub open spec fn spec_fills_frame(profile: Profile, pdu: PduView) -> bool {
    match pdu {
        PduView::Single { data } => {
            &&& 1 <= data.len() <= profile.spec_single_frame_size()
            &&& spec_frame_length(profile, spec_raw_length(profile, pdu)) >= 3
        },
        PduView::First { length, data } => {
            &&& profile.standard == Standard::Std2004 ==> length <= 0xFFF
            &&& spec_raw_length(profile, pdu) == profile.spec_max_frame_size()
        },
        PduView::Consecutive { sequence, data } => {
            &&& sequence <= 0x0F
            &&& 3 <= spec_raw_length(profile, pdu) <= profile.spec_max_frame_size()
            &&& spec_frame_length(profile, spec_raw_length(profile, pdu)) == spec_raw_length(
                profile,
                pdu,
            )
        },
        PduView::FlowControl(_) => true,
    }
}

/// The frame goes out in at least three bytes, and, where it is a
/// consecutive frame, without padding.
pub open spec fn spec_keeps_length(profile: Profile, pdu: PduView) -> bool {
    &&& spec_frame_length(profile, spec_raw_length(profile, pdu)) >= 3
    &&& pdu is Consecutive ==> spec_frame_length(profile, spec_raw_length(profile, pdu))
        == spec_raw_length(profile, pdu)
}

/// Four bytes spell the number they were made from.
pub proof fn lemma_be32_round_trip(value: u32)
    ensures
        spec_be32_bytes(value).len() == 4,
        spec_be32(
            spec_be32_bytes(value)[0],
            spec_be32_bytes(value)[1],
            spec_be32_bytes(value)[2],
            spec_be32_bytes(value)[3],
        ) == value,
{
}

/// Decoding what was encoded gives the frame back, for every frame that
/// fills its frame on the wire, whatever the padding byte.
pub proof fn lemma_decode_encode(profile: Profile, pdu: PduView, padding: u8)
    requires
        spec_fills_frame(profile, pdu),
    ensures
        spec_decode(profile, spec_encode(profile, pdu, padding)) == Ok::<PduView, ErrorView>(pdu),
{
    let bytes = spec_encode(profile, pdu, padding);
    match pdu {
        PduView::Single { data } => {
            let header = spec_single_header(profile, data.len());
            let raw = header + data;
            assert(bytes == spec_resize(profile, raw, padding));
            assert(raw.len() <= bytes.len());
            assert(forall|i: int| 0 <= i < raw.len() ==> bytes[i] == raw[i]);
            if header.len() == 1 {
                assert(bytes[0] == raw[0]);
                assert(bytes.subrange(1, 1 + data.len() as int) =~= data);
            } else {
                assert(bytes[0] == raw[0]);
                assert(bytes[1] == raw[1]);
                assert(bytes.subrange(2, 2 + data.len() as int) =~= data);
            }
        },
        PduView::First { length, data } => {
            let header = spec_first_header(profile, length);
            assert(bytes == header + data);
            if header.len() == 2 {
                assert(bytes[0] == header[0]);
                assert(bytes[1] == header[1]);
                assert(bytes.subrange(2, bytes.len() as int) =~= data);
            } else {
                lemma_be32_round_trip(length);
                assert(bytes[0] == header[0]);
                assert(bytes[1] == header[1]);
                assert(bytes[2] == spec_be32_bytes(length)[0]);
                assert(bytes[3] == spec_be32_bytes(length)[1]);
                assert(bytes[4] == spec_be32_bytes(length)[2]);
                assert(bytes[5] == spec_be32_bytes(length)[3]);
                assert(bytes.subrange(6, bytes.len() as int) =~= data);
            }
        },
        PduView::Consecutive { sequence, data } => {
            let raw = seq![(0x20 + sequence % 16) as u8] + data;
            assert(bytes =~= raw);
            assert(bytes.subrange(1, bytes.len() as int) =~= data);
        },
        PduView::FlowControl(context) => {
            let raw = seq![
                (0x30 + context.state.spec_code()) as u8,
                context.block_size,
                context.st_min,
            ];
            assert(bytes == spec_resize(profile, raw, padding));
            assert(bytes[0] == raw[0]);
            assert(bytes[1] == raw[1]);
            assert(bytes[2] == raw[2]);
        },
    }
}

/// What the consecutive frames of a message look like, one by one: each is
/// a consecutive frame with a sequence number of four bits; each but the
/// last carries `size` bytes, the last carries the rest, at least one byte.
pub proof fn lemma_consecutive_frames_shape(
    data: Seq<u8>,
    offset: int,
    sequence: u8,
    size: int,
    k: int,
)
    requires
        0 <= offset < data.len(),
        0 < size,
        sequence <= 0x0F,
        0 <= k < spec_consecutive_frames(data, offset, sequence, size).len(),
    ensures
        spec_consecutive_frames(data, offset, sequence, size)[k] matches PduView::Consecutive {
            sequence: number,
            data: chunk,
        } && {
            &&& number <= 0x0F
            &&& 1 <= chunk.len() <= size
            &&& k + 1 < spec_consecutive_frames(data, offset, sequence, size).len()
                ==> chunk.len() == size
        },
    decreases data.len() - offset,
{
    if offset + size >= data.len() {
    } else if k == 0 {
    } else {
        lemma_consecutive_frames_shape(data, offset + size, spec_next_sequence(sequence), size, k - 1);
    }
}

/// The consecutive frames of a message by their place: the `k`-th of them,
/// counted from 0, carries the sequence number of the first plus `k`, modulo
/// 16, and the `k`-th chunk of `size` bytes, cut off at the end of the
/// payload. It is the last one where that chunk reaches the end.
pub proof fn lemma_consecutive_frame_at(data: Seq<u8>, offset: int, sequence: u8, size: int, k: int)
    requires
        0 <= offset < data.len(),
        0 < size,
        sequence <= 0x0F,
        0 <= k,
        offset + k * size < data.len(),
    ensures
        k < spec_consecutive_frames(data, offset, sequence, size).len(),
        spec_consecutive_frames(data, offset, sequence, size)[k] == (PduView::Consecutive {
            sequence: ((sequence + k) % 16) as u8,
            data: data.subrange(
                offset + k * size,
                if offset + (k + 1) * size >= data.len() {
                    data.len() as int
                } else {
                    offset + (k + 1) * size
                },
            ),
        }),
        (k + 1 == spec_consecutive_frames(data, offset, sequence, size).len()) == (offset + (k + 1)
            * size >= data.len()),
    decreases k,
{
    assert((k + 1) * size == k * size + size) by (nonlinear_arith);
    if k == 0 {
        assert(offset + (k + 1) * size == offset + size);
    } else {
        assert((k - 1) * size + size == k * size) by (nonlinear_arith);
        assert(k * size >= size) by (nonlinear_arith)
            requires
                k >= 1,
                size > 0,
        ;
        lemma_consecutive_frame_at(data, offset + size, spec_next_sequence(sequence), size, k - 1);
        let rest = spec_consecutive_frames(data, offset + size, spec_next_sequence(sequence), size);
        assert(spec_consecutive_frames(data, offset, sequence, size)[k] == rest[k - 1]);
    }
}

/// Every frame that a payload is cut into fills its frame on the wire, but
/// for a last frame that goes out padded or in fewer than three bytes.
pub proof fn lemma_from_data_fills_frames(
    profile: Profile,
    data: Seq<u8>,
    flow_ctrl: Seq<FlowControlContext>,
    i: int,
)
    requires
        spec_from_data(profile, data, flow_ctrl) is Ok,
        0 <= i < spec_from_data(profile, data, flow_ctrl)->Ok_0.len(),
    ensures
        spec_keeps_length(profile, spec_from_data(profile, data, flow_ctrl)->Ok_0[i])
            ==> spec_fills_frame(profile, spec_from_data(profile, data, flow_ctrl)->Ok_0[i]),
        i + 1 < spec_from_data(profile, data, flow_ctrl)->Ok_0.len() ==> spec_keeps_length(
            profile,
            spec_from_data(profile, data, flow_ctrl)->Ok_0[i],
        ),
{
    let pdus = spec_from_data(profile, data, flow_ctrl)->Ok_0;
    if data.len() <= profile.spec_single_frame_size() {
    } else {
        let first_size = profile.spec_first_frame_size(data.len() as usize) as int;
        let size = profile.spec_consecutive_frame_size() as int;
        let controls = spec_flow_control_frames(flow_ctrl);
        let tail = spec_consecutive_frames(data, first_size, 1, size);
        assert(pdus == seq![
            PduView::First { length: data.len() as u32, data: data.subrange(0, first_size) },
        ] + controls + tail);
        if i == 0 {
        } else if i < 1 + controls.len() {
            assert(pdus[i] == controls[i - 1]);
        } else {
            let k = i - 1 - controls.len();
            assert(pdus[i] == tail[k]);
            lemma_consecutive_frames_shape(data, first_size, 1, size, k);
        }
    }
}

/// Decoding what was encoded gives the frame back, for every frame that a
/// payload is cut into, whatever the padding byte. Left out are the frames
/// that go out in fewer than three bytes and the consecutive frames that go
/// out padded; only the last frame of a payload can be one of these.
pub proof fn lemma_from_data_decode_encode(
    profile: Profile,
    data: Seq<u8>,
    flow_ctrl: Seq<FlowControlContext>,
    padding: u8,
    i: int,
)
    requires
        spec_from_data(profile, data, flow_ctrl) is Ok,
        0 <= i < spec_from_data(profile, data, flow_ctrl)->Ok_0.len(),
        spec_keeps_length(profile, spec_from_data(profile, data, flow_ctrl)->Ok_0[i]),
    ensures
        spec_decode(
            profile,
            spec_encode(profile, spec_from_data(profile, data, flow_ctrl)->Ok_0[i], padding),
        ) == Ok::<PduView, ErrorView>(spec_from_data(profile, data, flow_ctrl)->Ok_0[i]),
{
    lemma_from_data_fills_frames(profile, data, flow_ctrl, i);
    lemma_decode_encode(profile, spec_from_data(profile, data, flow_ctrl)->Ok_0[i], padding);
}

} // verus!
