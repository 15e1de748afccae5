use can_type_rs::identifier::Id;
use can_type_rs::isotp::client::{CanIsoTp, Transmission, WriteWait, to_transmissions};
use can_type_rs::isotp::context::IsoTpContext;
use can_type_rs::isotp::error::IsoTpError;
use can_type_rs::isotp::event::IsoTpEvent;
use can_type_rs::isotp::frame::{
    Address, CanIsoTpFrame, FlowControlContext, FlowControlState, FrameType,
};
use can_type_rs::isotp::listener::ReceivedFrame;
use can_type_rs::isotp::standard::{Profile, Standard};
use can_type_rs::isotp::state::IsoTpState;

fn address(base: u32) -> Address {
    Address { tx_id: base, rx_id: base + 8, fid: 0x7DF }
}

fn profile() -> Profile {
    Profile::new(Standard::Std2016, false)
}

fn client() -> CanIsoTp {
    let mut client = CanIsoTp::new(profile());
    client.add_channel(0, address(0x7E0));
    client.add_channel(1, address(0x18DA_00F1));
    client
}

fn unknown_channel() -> IsoTpError {
    IsoTpError::ContextError("channel is not registered".to_string())
}

#[test]
fn channels_are_added_and_removed() {
    let mut client = CanIsoTp::new(profile());
    assert_eq!(client.profile(), profile());
    assert!(!client.has_channel(0));
    assert_eq!(client.state(0), None);
    client.add_channel(0, address(0x7E0));
    assert!(client.has_channel(0));
    assert_eq!(client.state(0), Some(IsoTpState::idle()));
    assert_eq!(client.address(0), Some(address(0x7E0)));
    assert!(client.remove_channel(0));
    assert!(!client.remove_channel(0));
    assert!(!client.has_channel(0));
    assert!(!client.reset_channel(0));
    assert!(!client.state_add(0, IsoTpState::sending()));
}

#[test]
fn write_on_an_unknown_channel_fails() {
    let client = client();
    assert_eq!(client.write(7, false, &[1, 2, 3]), Err(unknown_channel()));
    assert_eq!(client.write_wait(7), Err(unknown_channel()));
    assert_eq!(client.pacing(7, FrameType::Consecutive), Err(unknown_channel()));
}

#[test]
fn write_refuses_an_empty_payload() {
    let client = client();
    assert_eq!(client.write(0, false, &[]), Err(IsoTpError::EmptyPayload));
}

#[test]
fn write_single_frame() {
    let client = client();
    let frames = client.write(0, false, &[0x10, 0x01]).unwrap();
    assert_eq!(
        frames,
        vec![Transmission {
            id: Id::Standard(0x7E0),
            frame_type: FrameType::Single,
            last: true,
            data: vec![0x02, 0x10, 0x01, 0xAA, 0xAA, 0xAA, 0xAA, 0xAA],
        }]
    );
    let frames = client.write(0, true, &[0x3E, 0x00]).unwrap();
    assert_eq!(frames[0].id, Id::Standard(0x7DF));
    let frames = client.write(1, false, &[0x3E, 0x00]).unwrap();
    assert_eq!(frames[0].id, Id::Extended(0x18DA_00F1));
}

#[test]
fn write_segmented_message() {
    let client = client();
    let payload = [
        0x62, 0xF1, 0x87, 0x44, 0x56, 0x43, 0x37, 0x45, 0x32, 0x30, 0x30, 0x30, 0x30, 0x30, 0x37,
    ];
    let frames = client.write(0, false, &payload).unwrap();
    assert_eq!(frames.len(), 4);
    let kinds: Vec<FrameType> = frames.iter().map(|f| f.frame_type).collect();
    assert_eq!(
        kinds,
        vec![FrameType::First, FrameType::FlowControl, FrameType::Consecutive, FrameType::Consecutive]
    );
    let last: Vec<bool> = frames.iter().map(|f| f.last).collect();
    assert_eq!(last, vec![false, false, false, true]);
    assert_eq!(frames[0].data, vec![0x10, 0x0F, 0x62, 0xF1, 0x87, 0x44, 0x56, 0x43]);
    assert_eq!(frames[1].data, vec![0x30, 0x00, 0x0A, 0xAA, 0xAA, 0xAA, 0xAA, 0xAA]);
    assert_eq!(frames[2].data, vec![0x21, 0x37, 0x45, 0x32, 0x30, 0x30, 0x30, 0x30]);
    assert_eq!(frames[3].data, vec![0x22, 0x30, 0x37, 0xAA, 0xAA, 0xAA, 0xAA, 0xAA]);
    for frame in &frames {
        assert_eq!(frame.id, Id::Standard(0x7E0));
    }
}

#[test]
fn transmissions_of_no_frames() {
    assert!(to_transmissions(profile(), 0x7E0, &vec![]).is_empty());
}

#[test]
fn states_while_frames_go_out() {
    let request =
        IsoTpState::sending().union(IsoTpState::wait_single()).union(IsoTpState::wait_first());
    let cases = [
        (FrameType::Single, false, request),
        (FrameType::Single, true, request),
        (FrameType::First, false, IsoTpState::sending().union(IsoTpState::wait_flow_ctrl())),
        (FrameType::Consecutive, false, IsoTpState::sending().union(IsoTpState::wait_data())),
        (FrameType::Consecutive, true, request),
        (FrameType::FlowControl, false, IsoTpState::sending()),
    ];
    for (frame_type, last, expected) in cases {
        let mut context = IsoTpContext::new(address(0x7E0));
        context.on_frame_writing(frame_type, last);
        assert_eq!(context.state(), expected);
    }
    let mut client = client();
    assert!(client.on_frame_writing(0, FrameType::First, false));
    assert_eq!(
        client.state(0),
        Some(IsoTpState::sending().union(IsoTpState::wait_flow_ctrl()))
    );
    assert_eq!(client.state(1), Some(IsoTpState::idle()));
    assert!(!client.on_frame_writing(9, FrameType::First, false));
}

#[test]
fn sender_waits_while_the_channel_is_busy() {
    let mut context = IsoTpContext::new(address(0x7E0));
    assert_eq!(context.write_wait(), WriteWait::Proceed);
    for flag in [
        IsoTpState::sending(),
        IsoTpState::response_pending(),
        IsoTpState::wait_flow_ctrl(),
        IsoTpState::wait_busy(),
    ] {
        context.reset();
        context.state_add(flag);
        assert_eq!(context.write_wait(), WriteWait::Wait);
        context.set_write_waiting(false);
        assert_eq!(context.write_wait(), WriteWait::Proceed);
        context.set_write_waiting(true);
    }
    context.reset();
    context.state_add(IsoTpState::wait_single().union(IsoTpState::wait_first()));
    assert_eq!(context.write_wait(), WriteWait::Proceed);
    context.state_add(IsoTpState::wait_data());
    assert_eq!(context.write_wait(), WriteWait::Proceed);
    context.on_send_failed();
    assert_eq!(context.write_wait(), WriteWait::Abort);
    assert_eq!(context.state(), IsoTpState::error());
    assert_eq!(context.take_events(), vec![IsoTpEvent::ErrorOccurred(IsoTpError::DeviceError)]);
}

#[test]
fn pacing_before_consecutive_frames() {
    let mut client = client();
    assert!(client.state_add(0, IsoTpState::wait_flow_ctrl()));
    assert_eq!(
        client.on_flow_ctrl_frame(0, FlowControlContext::new(FlowControlState::Continues, 0, 0xF5)),
        Ok(true)
    );
    assert_eq!(client.pacing(0, FrameType::Consecutive), Ok(500));
    assert_eq!(client.pacing(0, FrameType::Single), Ok(0));
    assert_eq!(client.pacing(0, FrameType::First), Ok(0));
    assert_eq!(client.pacing(0, FrameType::FlowControl), Ok(0));
    assert_eq!(client.pacing(1, FrameType::Consecutive), Ok(0));
    assert_eq!(client.write_wait(0), Ok(WriteWait::Proceed));
}

#[test]
fn send_failure_marks_the_channel() {
    let mut client = client();
    assert!(client.on_send_failed(0));
    assert_eq!(client.state(0), Some(IsoTpState::error()));
    assert_eq!(client.state(1), Some(IsoTpState::idle()));
    assert_eq!(client.write_wait(0), Ok(WriteWait::Abort));
    assert_eq!(client.take_events(0), vec![IsoTpEvent::ErrorOccurred(IsoTpError::DeviceError)]);
    assert!(client.take_events(0).is_empty());
    assert!(client.take_events(1).is_empty());
    assert!(client.take_events(5).is_empty());
    assert!(!client.on_send_failed(5));
    assert!(client.reset_channel(0));
    assert_eq!(client.state(0), Some(IsoTpState::idle()));
}

#[test]
fn consecutive_frame_before_first_leaves_other_channels() {
    let mut client = client();
    assert!(client.state_add(1, IsoTpState::wait_single().union(IsoTpState::wait_first())));
    assert_eq!(client.on_first_frame(1, 15, vec![1, 2, 3, 4, 5, 6]), Ok(true));
    assert!(client.state_add(1, IsoTpState::wait_data()));
    let error = IsoTpError::StateError {
        expected: IsoTpState::wait_data(),
        found: IsoTpState::idle(),
    };
    assert_eq!(client.on_consecutive_frame(0, 1, vec![1, 2, 3]), Err(error.clone()));
    assert_eq!(client.take_events(0), vec![IsoTpEvent::ErrorOccurred(error)]);
    assert!(client.state_add(0, IsoTpState::wait_data()));
    assert_eq!(client.on_consecutive_frame(0, 1, vec![1, 2, 3]), Err(IsoTpError::MixFramesError));
    assert_eq!(client.state(1), Some(IsoTpState::wait_data()));
    assert!(client.take_events(1).is_empty());
    assert_eq!(client.on_consecutive_frame(1, 1, vec![7, 8, 9, 10, 11, 12, 13]), Ok(true));
    assert_eq!(client.on_consecutive_frame(1, 2, vec![14, 15]), Ok(true));
    assert_eq!(
        client.take_events(1),
        vec![IsoTpEvent::DataReceived((1..=15).collect())]
    );
    assert_eq!(client.on_consecutive_frame(9, 1, vec![1]), Ok(false));
    assert_eq!(client.on_single_frame(9, vec![1]), Ok(false));
    assert_eq!(client.on_first_frame(9, 8, vec![1]), Ok(false));
    assert_eq!(client.on_flow_ctrl_frame(9, FlowControlContext::default()), Ok(false));
}

#[test]
fn single_frame_on_a_channel() {
    let mut client = client();
    assert!(client.on_frame_writing(0, FrameType::Single, true));
    assert_eq!(client.on_single_frame(0, vec![0x50, 0x01]), Ok(true));
    assert_eq!(client.state(0), Some(IsoTpState::idle()));
    assert_eq!(client.take_events(0), vec![IsoTpEvent::DataReceived(vec![0x50, 0x01])]);
}

#[test]
fn received_batch_is_answered_on_the_channel() {
    let mut client = client();
    assert!(client.on_frame_writing(0, FrameType::Single, true));
    client.on_frame_transmitted(0, 0x7E0);
    assert_eq!(
        client.state(0),
        Some(IsoTpState::wait_single().union(IsoTpState::wait_first()))
    );
    let batch = vec![
        ReceivedFrame { id: 0x7E8, data: vec![0x10, 0x0A, 1, 2, 3, 4, 5, 6] },
        ReceivedFrame { id: 0x7E8, data: vec![0x21, 7, 8, 9, 10] },
    ];
    let replies = client.on_frame_received(0, &batch);
    assert_eq!(
        replies,
        vec![Transmission {
            id: Id::Standard(0x7E0),
            frame_type: FrameType::FlowControl,
            last: true,
            data: vec![0x30, 0x00, 0x0A, 0xAA, 0xAA, 0xAA, 0xAA, 0xAA],
        }]
    );
    assert_eq!(
        client.take_events(0),
        vec![IsoTpEvent::FirstFrameReceived, IsoTpEvent::DataReceived((1..=10).collect())]
    );
    assert_eq!(client.state(0), Some(IsoTpState::idle()));
    assert_eq!(client.state(1), Some(IsoTpState::idle()));
    assert!(client.on_frame_received(4, &batch).is_empty());
}

#[test]
fn transmitted_report_on_another_channel_is_ignored() {
    let mut client = client();
    assert!(client.state_add(0, IsoTpState::sending()));
    assert!(client.state_add(1, IsoTpState::sending()));
    client.on_frame_transmitted(1, 0x7E0);
    assert_eq!(client.state(0), Some(IsoTpState::sending()));
    assert_eq!(client.state(1), Some(IsoTpState::sending()));
    client.on_frame_transmitted(1, 0x7DF);
    assert_eq!(client.state(1), Some(IsoTpState::idle()));
    client.on_frame_transmitted(0, 0x7E0);
    assert_eq!(client.state(0), Some(IsoTpState::idle()));
    client.on_frame_transmitted(3, 0x7E0);
}

#[test]
fn frames_made_by_one_side_are_read_by_the_other() {
    let mut sender = CanIsoTp::new(profile());
    sender.add_channel(0, Address { tx_id: 0x7E0, rx_id: 0x7E8, fid: 0x7DF });
    let mut receiver = IsoTpContext::new(Address { tx_id: 0x7E8, rx_id: 0x7E0, fid: 0x7DF });
    receiver.state_add(IsoTpState::wait_single().union(IsoTpState::wait_first()));
    let payload: Vec<u8> = (0..6 + 7 * 5).map(|i| i as u8).collect();
    let frames = sender.write(0, false, &payload).unwrap();
    let mut replies = Vec::new();
    for frame in frames {
        if frame.frame_type == FrameType::FlowControl {
            continue;
        }
        let batch = vec![ReceivedFrame { id: frame.id.as_raw(), data: frame.data }];
        replies.extend(receiver.on_frame_received(profile(), &batch));
    }
    assert_eq!(replies, vec![CanIsoTpFrame::default_flow_ctrl_frame()]);
    assert_eq!(
        receiver.take_events(),
        vec![IsoTpEvent::FirstFrameReceived, IsoTpEvent::DataReceived(payload)]
    );
}
