use can_type_rs::isotp::error::IsoTpError;
use can_type_rs::isotp::frame::{CanIsoTpFrame, FlowControlContext, FlowControlState, FrameType};
use can_type_rs::isotp::standard::{Profile, Standard};
use can_type_rs::isotp::util::{can_fd_resize, parse};

fn classic(standard: Standard) -> Profile {
    Profile::new(standard, false)
}

fn fd(standard: Standard) -> Profile {
    Profile::new(standard, true)
}

fn payload(length: usize) -> Vec<u8> {
    (0..length).map(|i| (i * 7 + 3) as u8).collect()
}

fn all_profiles() -> Vec<Profile> {
    vec![
        classic(Standard::Std2004),
        classic(Standard::Std2016),
        fd(Standard::Std2004),
        fd(Standard::Std2016),
    ]
}

#[test]
fn decode_single_frame_vector() {
    let bytes = [0x02, 0x10, 0x01, 0x00, 0x00, 0x00, 0x00, 0x00];
    for standard in [Standard::Std2004, Standard::Std2016] {
        let frame = CanIsoTpFrame::decode(classic(standard), &bytes).unwrap();
        assert_eq!(frame, CanIsoTpFrame::SingleFrame { data: vec![0x10, 0x01] });
    }
}

#[test]
fn decode_first_frame_vector() {
    let bytes = [0x10, 0x0F, 0x62, 0xF1, 0x87, 0x44, 0x56, 0x43];
    for standard in [Standard::Std2004, Standard::Std2016] {
        let frame = CanIsoTpFrame::decode(classic(standard), &bytes).unwrap();
        assert_eq!(
            frame,
            CanIsoTpFrame::FirstFrame { length: 15, data: vec![0x62, 0xF1, 0x87, 0x44, 0x56, 0x43] }
        );
    }
}

#[test]
fn decode_consecutive_frame_vector() {
    let bytes = [0x21, 0x37, 0x45, 0x32, 0x30, 0x30, 0x30, 0x30];
    let frame = CanIsoTpFrame::decode(classic(Standard::Std2004), &bytes).unwrap();
    assert_eq!(
        frame,
        CanIsoTpFrame::ConsecutiveFrame {
            sequence: 1,
            data: vec![0x37, 0x45, 0x32, 0x30, 0x30, 0x30, 0x30]
        }
    );
}

#[test]
fn decode_flow_control_frame_vector() {
    let bytes = [0x30, 0x80, 0x01, 0x55, 0x55, 0x55, 0x55, 0x55];
    let frame = CanIsoTpFrame::decode(classic(Standard::Std2016), &bytes).unwrap();
    assert_eq!(
        frame,
        CanIsoTpFrame::FlowControlFrame(FlowControlContext::new(
            FlowControlState::Continues,
            0x80,
            0x01
        ))
    );
}

#[test]
fn segment_fifteen_bytes() {
    let payload = [
        0x62, 0xF1, 0x87, 0x44, 0x56, 0x43, 0x37, 0x45, 0x32, 0x30, 0x30, 0x30, 0x30, 0x30, 0x37,
    ];
    let frames = CanIsoTpFrame::from_data(classic(Standard::Std2004), &payload, vec![]).unwrap();
    assert_eq!(frames.len(), 4);
    assert_eq!(
        frames[0],
        CanIsoTpFrame::FirstFrame { length: 15, data: vec![0x62, 0xF1, 0x87, 0x44, 0x56, 0x43] }
    );
    assert_eq!(
        frames[1],
        CanIsoTpFrame::FlowControlFrame(FlowControlContext::new(FlowControlState::Continues, 0, 10))
    );
    assert_eq!(
        frames[2],
        CanIsoTpFrame::ConsecutiveFrame {
            sequence: 1,
            data: vec![0x37, 0x45, 0x32, 0x30, 0x30, 0x30, 0x30]
        }
    );
    assert_eq!(frames[3], CanIsoTpFrame::ConsecutiveFrame { sequence: 2, data: vec![0x30, 0x37] });
    assert_eq!(
        frames[0].clone().encode(classic(Standard::Std2004), None),
        vec![0x10, 0x0F, 0x62, 0xF1, 0x87, 0x44, 0x56, 0x43]
    );
    assert_eq!(
        frames[1].clone().encode(classic(Standard::Std2004), None),
        vec![0x30, 0x00, 0x0A, 0x00, 0x00, 0x00, 0x00, 0x00]
    );
    assert_eq!(
        frames[2].clone().encode(classic(Standard::Std2004), None),
        vec![0x21, 0x37, 0x45, 0x32, 0x30, 0x30, 0x30, 0x30]
    );
    assert_eq!(
        frames[3].clone().encode(classic(Standard::Std2016), None),
        vec![0x22, 0x30, 0x37, 0xAA, 0xAA, 0xAA, 0xAA, 0xAA]
    );
}

#[test]
fn segment_uses_the_callers_flow_control() {
    let hints = vec![
        FlowControlContext::new(FlowControlState::Wait, 0, 0),
        FlowControlContext::new(FlowControlState::Continues, 4, 0xF2),
    ];
    let frames =
        CanIsoTpFrame::from_data(classic(Standard::Std2016), &payload(10), hints.clone()).unwrap();
    assert_eq!(frames.len(), 4);
    assert_eq!(frames[1], CanIsoTpFrame::FlowControlFrame(hints[0]));
    assert_eq!(frames[2], CanIsoTpFrame::FlowControlFrame(hints[1]));
    assert_eq!(
        frames[3],
        CanIsoTpFrame::ConsecutiveFrame { sequence: 1, data: payload(10)[6..].to_vec() }
    );
}

#[test]
fn segment_single_frame_limits() {
    let limits = [
        (classic(Standard::Std2004), 7usize),
        (classic(Standard::Std2016), 7),
        (fd(Standard::Std2004), 15),
        (fd(Standard::Std2016), 62),
    ];
    for (profile, limit) in limits {
        assert_eq!(profile.single_frame_size(), limit);
        let frames = CanIsoTpFrame::from_data(profile, &payload(limit), vec![]).unwrap();
        assert_eq!(frames, vec![CanIsoTpFrame::SingleFrame { data: payload(limit) }]);
        assert_eq!(
            CanIsoTpFrame::single_frame(profile, &payload(limit)),
            Ok(CanIsoTpFrame::SingleFrame { data: payload(limit) })
        );
        assert_eq!(
            CanIsoTpFrame::single_frame(profile, &payload(limit + 1)),
            Err(IsoTpError::LengthOutOfRange(limit + 1))
        );
        assert_eq!(CanIsoTpFrame::single_frame(profile, &[]), Err(IsoTpError::EmptyPayload));
        assert_eq!(CanIsoTpFrame::from_data(profile, &[], vec![]), Err(IsoTpError::EmptyPayload));
    }
}

#[test]
fn segment_refuses_what_no_frame_carries() {
    let profile = fd(Standard::Std2004);
    for length in [16usize, 40, 62] {
        assert_eq!(
            CanIsoTpFrame::from_data(profile, &payload(length), vec![]),
            Err(IsoTpError::LengthOutOfRange(length))
        );
    }
    let frames = CanIsoTpFrame::from_data(profile, &payload(63), vec![]).unwrap();
    assert_eq!(frames.len(), 3);
    assert_eq!(frames[0], CanIsoTpFrame::FirstFrame { length: 63, data: payload(63)[..62].to_vec() });
    assert_eq!(
        frames[2],
        CanIsoTpFrame::ConsecutiveFrame { sequence: 1, data: payload(63)[62..].to_vec() }
    );
    assert_eq!(
        CanIsoTpFrame::from_data(classic(Standard::Std2004), &payload(4096), vec![]),
        Err(IsoTpError::LengthOutOfRange(4096))
    );
    assert!(CanIsoTpFrame::from_data(classic(Standard::Std2004), &payload(4095), vec![]).is_ok());
}

#[test]
fn segment_long_message_with_escape() {
    let data = payload(4096);
    let profile = classic(Standard::Std2016);
    let frames = CanIsoTpFrame::from_data(profile, &data, vec![]).unwrap();
    assert_eq!(frames[0], CanIsoTpFrame::FirstFrame { length: 4096, data: data[..2].to_vec() });
    assert_eq!(
        frames[0].clone().encode(profile, None),
        vec![0x10, 0x00, 0x00, 0x00, 0x10, 0x00, data[0], data[1]]
    );
    assert_eq!(
        CanIsoTpFrame::decode(profile, &[0x10, 0x00, 0x00, 0x00, 0x10, 0x00, data[0], data[1]]),
        Ok(frames[0].clone())
    );
    assert_eq!(frames[2], CanIsoTpFrame::ConsecutiveFrame { sequence: 1, data: data[2..9].to_vec() });
    // 2 bytes in the first frame, 4094 in consecutive frames of 7: 585 frames.
    assert_eq!(frames.len(), 2 + 585);
    assert_eq!(
        frames[frames.len() - 1],
        CanIsoTpFrame::ConsecutiveFrame { sequence: (585 % 16) as u8, data: data[4090..].to_vec() }
    );
}

#[test]
fn sequence_numbers_wrap_after_fifteen() {
    let data = payload(6 + 7 * 18);
    let frames = CanIsoTpFrame::from_data(classic(Standard::Std2004), &data, vec![]).unwrap();
    assert_eq!(frames.len(), 2 + 18);
    for k in 0..18usize {
        let expected = ((k + 1) % 16) as u8;
        match &frames[2 + k] {
            CanIsoTpFrame::ConsecutiveFrame { sequence, data: chunk } => {
                assert_eq!(*sequence, expected);
                assert_eq!(chunk.as_slice(), &data[6 + 7 * k..6 + 7 * (k + 1)]);
            }
            other => panic!("not a consecutive frame: {:?}", other),
        }
    }
    assert_eq!(frames[2 + 14].frame_type(), FrameType::Consecutive);
    match &frames[2 + 15] {
        CanIsoTpFrame::ConsecutiveFrame { sequence, .. } => assert_eq!(*sequence, 0),
        other => panic!("not a consecutive frame: {:?}", other),
    }
}

#[test]
fn parse_continues_from_an_offset() {
    let data = payload(20);
    let mut offset = 6usize;
    let mut sequence = 15u8;
    let mut results = Vec::new();
    parse(&data, &mut offset, &mut sequence, &mut results, &vec![], 6, 7);
    assert_eq!(
        results,
        vec![
            CanIsoTpFrame::ConsecutiveFrame { sequence: 15, data: data[6..13].to_vec() },
            CanIsoTpFrame::ConsecutiveFrame { sequence: 0, data: data[13..20].to_vec() },
        ]
    );
    assert_eq!(offset, 13);
    assert_eq!(sequence, 0);
}

#[test]
fn decode_after_encode_gives_the_frame_back() {
    for profile in all_profiles() {
        for length in 1..200usize {
            let data = payload(length);
            let frames = match CanIsoTpFrame::from_data(profile, &data, vec![]) {
                Ok(frames) => frames,
                Err(_) => continue,
            };
            let count = frames.len();
            for (index, frame) in frames.into_iter().enumerate() {
                let bytes = frame.clone().encode(profile, Some(0x5A));
                let raw_length = match &frame {
                    CanIsoTpFrame::ConsecutiveFrame { data, .. } => Some(1 + data.len()),
                    _ => None,
                };
                let exact = bytes.len() >= 3 && raw_length.map_or(true, |n| n == bytes.len());
                if index + 1 < count {
                    assert!(exact);
                }
                if exact {
                    assert_eq!(CanIsoTpFrame::decode(profile, &bytes), Ok(frame));
                } else {
                    assert_ne!(CanIsoTpFrame::decode(profile, &bytes), Ok(frame));
                }
            }
        }
    }
}

#[test]
fn padded_last_frame_decodes_with_its_padding() {
    let profile = classic(Standard::Std2004);
    let frame = CanIsoTpFrame::ConsecutiveFrame { sequence: 2, data: vec![0x30, 0x37] };
    let bytes = frame.encode(profile, Some(0x55));
    assert_eq!(bytes, vec![0x22, 0x30, 0x37, 0x55, 0x55, 0x55, 0x55, 0x55]);
    assert_eq!(
        CanIsoTpFrame::decode(profile, &bytes),
        Ok(CanIsoTpFrame::ConsecutiveFrame {
            sequence: 2,
            data: vec![0x30, 0x37, 0x55, 0x55, 0x55, 0x55, 0x55]
        })
    );
}

#[test]
fn short_single_frame_on_can_fd_is_too_short_to_decode() {
    let profile = fd(Standard::Std2016);
    let bytes = CanIsoTpFrame::SingleFrame { data: vec![0x3E] }.encode(profile, None);
    assert_eq!(bytes, vec![0x01, 0x3E]);
    assert_eq!(CanIsoTpFrame::decode(profile, &bytes), Err(IsoTpError::MalformedPdu(vec![0x01, 0x3E])));
}

#[test]
fn encode_single_frame_forms() {
    let data = vec![0x10, 0x01];
    assert_eq!(
        CanIsoTpFrame::SingleFrame { data: data.clone() }.encode(classic(Standard::Std2004), None),
        vec![0x02, 0x10, 0x01, 0x00, 0x00, 0x00, 0x00, 0x00]
    );
    assert_eq!(
        CanIsoTpFrame::SingleFrame { data: data.clone() }.encode(classic(Standard::Std2016), None),
        vec![0x02, 0x10, 0x01, 0xAA, 0xAA, 0xAA, 0xAA, 0xAA]
    );
    assert_eq!(
        CanIsoTpFrame::SingleFrame { data: data.clone() }.encode(fd(Standard::Std2016), None),
        vec![0x02, 0x10, 0x01]
    );
    let long = payload(9);
    let mut expected = vec![0x00, 0x09];
    expected.extend_from_slice(&long);
    expected.push(0x11);
    assert_eq!(
        CanIsoTpFrame::SingleFrame { data: long.clone() }.encode(fd(Standard::Std2016), Some(0x11)),
        expected
    );
    assert_eq!(
        CanIsoTpFrame::decode(fd(Standard::Std2016), &expected),
        Ok(CanIsoTpFrame::SingleFrame { data: long })
    );
}

#[test]
fn encode_flow_control_states() {
    let profile = classic(Standard::Std2004);
    for (state, code) in [
        (FlowControlState::Continues, 0x30u8),
        (FlowControlState::Wait, 0x31),
        (FlowControlState::Overload, 0x32),
    ] {
        let frame = CanIsoTpFrame::flow_ctrl_frame(state, 8, 0x14);
        let bytes = frame.clone().encode(profile, Some(0xCC));
        assert_eq!(bytes, vec![code, 8, 0x14, 0xCC, 0xCC, 0xCC, 0xCC, 0xCC]);
        assert_eq!(CanIsoTpFrame::decode(profile, &bytes), Ok(frame));
    }
    assert_eq!(
        CanIsoTpFrame::default_flow_ctrl_frame(),
        CanIsoTpFrame::FlowControlFrame(FlowControlContext::new(FlowControlState::Continues, 0, 10))
    );
}

#[test]
fn decode_rejects_short_and_long_input() {
    let p = classic(Standard::Std2004);
    assert_eq!(CanIsoTpFrame::decode(p, &[]), Err(IsoTpError::MalformedPdu(vec![])));
    assert_eq!(CanIsoTpFrame::decode(p, &[0x01, 0x02]), Err(IsoTpError::MalformedPdu(vec![1, 2])));
    assert_eq!(CanIsoTpFrame::decode(p, &[0u8; 9]), Err(IsoTpError::LengthOutOfRange(9)));
    assert!(CanIsoTpFrame::decode(fd(Standard::Std2004), &[0x21u8; 9]).is_ok());
    assert_eq!(
        CanIsoTpFrame::decode(fd(Standard::Std2016), &[0x21u8; 65]),
        Err(IsoTpError::LengthOutOfRange(65))
    );
}

#[test]
fn decode_rejects_unknown_kinds_and_states() {
    let p = classic(Standard::Std2016);
    let unknown = [0x40, 0x00, 0x00, 0x00, 0x00, 0x00, 0x00, 0x00];
    assert_eq!(CanIsoTpFrame::decode(p, &unknown), Err(IsoTpError::MalformedPdu(unknown.to_vec())));
    let state = [0x33, 0x00, 0x00];
    assert_eq!(CanIsoTpFrame::decode(p, &state), Err(IsoTpError::MalformedPdu(state.to_vec())));
}

#[test]
fn decode_single_frame_lengths() {
    let zero = [0x00, 0x00, 0x00, 0x00, 0x00, 0x00, 0x00, 0x00];
    assert_eq!(
        CanIsoTpFrame::decode(classic(Standard::Std2004), &zero),
        Err(IsoTpError::MalformedPdu(zero.to_vec()))
    );
    assert_eq!(
        CanIsoTpFrame::decode(classic(Standard::Std2016), &zero),
        Ok(CanIsoTpFrame::SingleFrame { data: vec![] })
    );
    let too_long = [0x05, 0x01, 0x02, 0x03];
    for standard in [Standard::Std2004, Standard::Std2016] {
        assert_eq!(
            CanIsoTpFrame::decode(classic(standard), &too_long),
            Err(IsoTpError::MalformedPdu(too_long.to_vec()))
        );
    }
    let escaped_too_long = [0x00, 0x07, 0x01, 0x02, 0x03, 0x04, 0x05, 0x06];
    assert_eq!(
        CanIsoTpFrame::decode(classic(Standard::Std2016), &escaped_too_long),
        Err(IsoTpError::MalformedPdu(escaped_too_long.to_vec()))
    );
    let escaped = [0x00, 0x03, 0x01, 0x02, 0x03, 0x04, 0x05, 0x06];
    assert_eq!(
        CanIsoTpFrame::decode(classic(Standard::Std2016), &escaped),
        Ok(CanIsoTpFrame::SingleFrame { data: vec![1, 2, 3] })
    );
}

#[test]
fn decode_first_frame_must_fill_the_frame() {
    let short = [0x10, 0x0F, 0x62, 0xF1];
    assert_eq!(
        CanIsoTpFrame::decode(classic(Standard::Std2004), &short),
        Err(IsoTpError::InvalidDataLength { actual: 4, expected: 8 })
    );
    let eight = [0x1F, 0xFF, 1, 2, 3, 4, 5, 6];
    assert_eq!(
        CanIsoTpFrame::decode(fd(Standard::Std2016), &eight),
        Err(IsoTpError::InvalidDataLength { actual: 8, expected: 64 })
    );
    assert_eq!(
        CanIsoTpFrame::decode(classic(Standard::Std2004), &eight),
        Ok(CanIsoTpFrame::FirstFrame { length: 0xFFF, data: vec![1, 2, 3, 4, 5, 6] })
    );
    let zero = [0x10, 0x00, 0x12, 0x34, 0x56, 0x78, 0x09, 0x0A];
    assert_eq!(
        CanIsoTpFrame::decode(classic(Standard::Std2004), &zero),
        Ok(CanIsoTpFrame::FirstFrame { length: 0, data: vec![0x12, 0x34, 0x56, 0x78, 0x09, 0x0A] })
    );
    assert_eq!(
        CanIsoTpFrame::decode(classic(Standard::Std2016), &zero),
        Ok(CanIsoTpFrame::FirstFrame { length: 0x1234_5678, data: vec![0x09, 0x0A] })
    );
}

#[test]
fn can_fd_frame_lengths() {
    let expected = [
        (0usize, Some(0usize)),
        (8, Some(8)),
        (9, Some(12)),
        (12, Some(12)),
        (13, Some(16)),
        (17, Some(20)),
        (21, Some(24)),
        (25, Some(32)),
        (33, Some(48)),
        (49, Some(64)),
        (64, Some(64)),
        (65, None),
    ];
    for (length, resized) in expected {
        assert_eq!(can_fd_resize(length), resized);
    }
    let frame = CanIsoTpFrame::ConsecutiveFrame { sequence: 3, data: payload(9) };
    let bytes = frame.encode(fd(Standard::Std2016), None);
    assert_eq!(bytes.len(), 12);
    assert_eq!(&bytes[10..], &[0xAA, 0xAA]);
}

#[test]
fn encode_cuts_what_a_classic_frame_cannot_hold() {
    let frame = CanIsoTpFrame::ConsecutiveFrame { sequence: 1, data: payload(10) };
    let bytes = frame.encode(classic(Standard::Std2004), None);
    let mut expected = vec![0x21];
    expected.extend_from_slice(&payload(10)[..7]);
    assert_eq!(bytes, expected);
}

#[test]
fn separation_time_in_microseconds() {
    let us = |st_min: u8| FlowControlContext::new(FlowControlState::Continues, 0, st_min).st_min_us();
    assert_eq!(us(0x00), 0);
    assert_eq!(us(0x01), 1_000);
    assert_eq!(us(0x0A), 10_000);
    assert_eq!(us(0x7F), 127_000);
    assert_eq!(us(0x80), 0);
    assert_eq!(us(0xF0), 0);
    assert_eq!(us(0xF1), 100);
    assert_eq!(us(0xF9), 900);
    assert_eq!(us(0xFA), 0);
    assert_eq!(us(0xFF), 0);
}

#[test]
fn profile_sizes() {
    assert_eq!(classic(Standard::Std2004).max_frame_size(), 8);
    assert_eq!(fd(Standard::Std2004).max_frame_size(), 64);
    assert_eq!(classic(Standard::Std2016).first_frame_size(4095), 6);
    assert_eq!(classic(Standard::Std2016).first_frame_size(4096), 2);
    assert_eq!(fd(Standard::Std2016).first_frame_size(4096), 58);
    assert_eq!(classic(Standard::Std2004).consecutive_frame_size(), 7);
    assert_eq!(fd(Standard::Std2016).consecutive_frame_size(), 63);
    assert_eq!(classic(Standard::Std2004).max_length(), 0xFFF);
    assert_eq!(classic(Standard::Std2016).max_length(), 0xFFFF_FFFF);
    assert_eq!(classic(Standard::Std2004).default_padding(), 0x00);
    assert_eq!(classic(Standard::Std2016).default_padding(), 0xAA);
    assert_eq!(FrameType::from_byte(0x2F), Some(FrameType::Consecutive));
    assert_eq!(FrameType::from_byte(0xF0), None);
    assert_eq!(FrameType::FlowControl.code(), 0x30);
}

#[test]
fn parse_makes_an_empty_last_frame_where_nothing_is_left() {
    let data = payload(6);
    let mut offset = 6usize;
    let mut sequence = 3u8;
    let mut results = Vec::new();
    parse(&data, &mut offset, &mut sequence, &mut results, &vec![], 6, 7);
    assert_eq!(results, vec![CanIsoTpFrame::ConsecutiveFrame { sequence: 3, data: vec![] }]);
    assert_eq!(offset, 6);
    assert_eq!(sequence, 3);
}

#[test]
fn parse_from_the_start_makes_all_frames() {
    let data = payload(22);
    let mut offset = 0usize;
    let mut sequence = 1u8;
    let mut results = vec![CanIsoTpFrame::SingleFrame { data: vec![0xEE] }];
    let hints = vec![FlowControlContext::new(FlowControlState::Continues, 2, 0x05)];
    parse(&data, &mut offset, &mut sequence, &mut results, &hints, 6, 7);
    assert_eq!(
        results,
        vec![
            CanIsoTpFrame::SingleFrame { data: vec![0xEE] },
            CanIsoTpFrame::FirstFrame { length: 22, data: data[..6].to_vec() },
            CanIsoTpFrame::FlowControlFrame(hints[0]),
            CanIsoTpFrame::ConsecutiveFrame { sequence: 1, data: data[6..13].to_vec() },
            CanIsoTpFrame::ConsecutiveFrame { sequence: 2, data: data[13..20].to_vec() },
            CanIsoTpFrame::ConsecutiveFrame { sequence: 3, data: data[20..].to_vec() },
        ]
    );
    assert_eq!(offset, 20);
    assert_eq!(sequence, 3);
}

#[test]
fn clones_are_equal() {
    let frame = CanIsoTpFrame::FirstFrame { length: 300, data: payload(6) };
    assert_eq!(frame.clone(), frame);
    let error = IsoTpError::MalformedPdu(vec![1, 2]);
    assert_eq!(error.clone(), error);
    let error = IsoTpError::ContextError("lost".to_string());
    assert_eq!(error.clone(), error);
    let error = IsoTpError::InvalidSequence { actual: 3, expected: 4 };
    assert_eq!(error.clone(), error);
}
