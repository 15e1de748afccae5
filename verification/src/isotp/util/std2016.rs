use vstd::prelude::*;
use crate::constant::CONSECUTIVE_SEQUENCE_START;
use crate::isotp::error::IsoTpError;
use crate::isotp::frame::{CanIsoTpFrame, FlowControlContext, PduView, frame_views};
use crate::isotp::standard::{Profile, Standard};
use crate::isotp::util::{
    be32, copy_all, copy_range, frame_result_view, frames_result_view, parse, push_be32, resize,
    spec_decode_first, spec_decode_single, spec_encode_first, spec_encode_single, spec_from_data,
    spec_new_single,
};

verus! {

/// The 2016 revision on a link of the given kind.
pub open spec fn profile(can_fd: bool) -> Profile {
    Profile { standard: Standard::Std2016, can_fd }
}

pub(crate) fn decode_single(data: &[u8], byte0: u8, length: usize, can_fd: bool) -> (r: Result<
    CanIsoTpFrame,
    IsoTpError,
>)
    requires
        length == data.len(),
        length >= 3,
        byte0 == data@[0],
    ensures
        frame_result_view(r) == spec_decode_single(profile(can_fd), data@),
{
    let mut pdu_len: usize = (byte0 % 16) as usize;
    if pdu_len > 0 {
        if length < pdu_len + 1 {
            return Err(IsoTpError::MalformedPdu(copy_all(data)));
        }
        Ok(CanIsoTpFrame::SingleFrame { data: copy_range(data, 1, pdu_len + 1) })
    } else {
        pdu_len = data[1] as usize;
        if length < pdu_len + 2 {
            return Err(IsoTpError::MalformedPdu(copy_all(data)));
        }
        Ok(CanIsoTpFrame::SingleFrame { data: copy_range(data, 2, pdu_len + 2) })
    }
}

pub(crate) fn decode_first(data: &[u8], byte0: u8, length: usize, can_fd: bool) -> (r: Result<
    CanIsoTpFrame,
    IsoTpError,
>)
    requires
        length == data.len(),
        length >= 3,
        byte0 == data@[0],
    ensures
        frame_result_view(r) == spec_decode_first(profile(can_fd), data@),
{
    let expected = Profile::new(Standard::Std2016, can_fd).max_frame_size();
    if length != expected {
        return Err(IsoTpError::InvalidDataLength { actual: length, expected });
    }
    let high: u32 = (byte0 % 16) as u32;
    let low: u32 = data[1] as u32;
    let pdu_len: u32 = high * 256 + low;
    if pdu_len > 0 {
        Ok(CanIsoTpFrame::FirstFrame { length: pdu_len, data: copy_range(data, 2, length) })
    } else {
        let pdu_len = be32(data[2], data[3], data[4], data[5]);
        Ok(CanIsoTpFrame::FirstFrame { length: pdu_len, data: copy_range(data, 6, length) })
    }
}

pub(crate) fn encode_single(data: Vec<u8>, padding: Option<u8>, can_fd: bool) -> (r: Vec<u8>)
    ensures
        r@ == spec_encode_single(
            profile(can_fd),
            data@,
            match padding {
                Some(byte) => byte,
                None => profile(can_fd).spec_default_padding(),
            },
        ),
{
    let mut data = data;
    let profile = Profile::new(Standard::Std2016, can_fd);
    let length = data.len();
    let mut result: Vec<u8> = Vec::new();
    if 1 <= length && length <= 7 {
        result.push((length % 16) as u8);
    } else {
        result.push(0x00);
        result.push((length % 256) as u8);
    }
    result.append(&mut data);
    let byte = match padding {
        Some(byte) => byte,
        None => profile.default_padding(),
    };
    resize(profile, &mut result, byte);
    result
}

pub(crate) fn encode_first(length: u32, data: Vec<u8>, can_fd: bool) -> (r: Vec<u8>)
    ensures
        r@ == spec_encode_first(profile(can_fd), length, data@),
{
    let mut data = data;
    let mut result: Vec<u8> = Vec::new();
    if 1 <= length && length <= 0xFFF {
        let len_h: u8 = ((length / 256) % 16) as u8;
        let len_l: u8 = (length % 256) as u8;
        result.push(0x10 + len_h);
        result.push(len_l);
    } else {
        result.push(0x10);
        result.push(0x00);
        push_be32(&mut result, length);
    }
    result.append(&mut data);
    result
}

pub(crate) fn new_single(data: &[u8], can_fd: bool) -> (r: Result<CanIsoTpFrame, IsoTpError>)
    ensures
        frame_result_view(r) == spec_new_single(profile(can_fd), data@),
{
    let length = data.len();
    if length == 0 {
        Err(IsoTpError::EmptyPayload)
    } else if length <= Profile::new(Standard::Std2016, can_fd).single_frame_size() {
        Ok(CanIsoTpFrame::SingleFrame { data: copy_all(data) })
    } else {
        Err(IsoTpError::LengthOutOfRange(length))
    }
}

pub(crate) fn from_data(data: &[u8], flow_ctrl: Vec<FlowControlContext>, can_fd: bool) -> (r: Result<
    Vec<CanIsoTpFrame>,
    IsoTpError,
>)
    ensures
        frames_result_view(r) == spec_from_data(profile(can_fd), data@, flow_ctrl@),
{
    let profile = Profile::new(Standard::Std2016, can_fd);
    let length = data.len();
    if length == 0 {
        Err(IsoTpError::EmptyPayload)
    } else if length <= profile.single_frame_size() {
        let frame = CanIsoTpFrame::SingleFrame { data: copy_all(data) };
        let mut results: Vec<CanIsoTpFrame> = Vec::new();
        results.push(frame);
        assert(frame_views(results@) =~= seq![PduView::Single { data: data@ }]);
        Ok(results)
    } else if length > profile.max_length() || length <= profile.first_frame_size(length) {
        Err(IsoTpError::LengthOutOfRange(length))
    } else {
        let mut offset: usize = 0;
        let mut sequence: u8 = CONSECUTIVE_SEQUENCE_START;
        let mut results: Vec<CanIsoTpFrame> = Vec::new();
        parse(
            data,
            &mut offset,
            &mut sequence,
            &mut results,
            &flow_ctrl,
            profile.first_frame_size(length),
            profile.consecutive_frame_size(),
        );
        assert(frame_views(Seq::<CanIsoTpFrame>::empty()) =~= Seq::<PduView>::empty());
        Ok(results)
    }
}

} // verus!
