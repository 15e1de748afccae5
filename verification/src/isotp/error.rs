use vstd::prelude::*;
use crate::isotp::state::IsoTpState;

verus! {

/// What can go wrong on one channel. Every error is local to its channel.
#[derive(Debug, PartialEq, Eq)]
#[allow(inconsistent_fields)]
pub enum IsoTpError {
    /// The device refused a frame, or the channel is in the error state.
    DeviceError,
    /// A payload of no bytes was given.
    EmptyPayload,
    /// The bytes are no frame of the protocol.
    MalformedPdu(Vec<u8>),
    /// A length that the profile cannot carry.
    LengthOutOfRange(usize),
    /// A frame or a reassembled message has another length than was declared.
    InvalidDataLength { actual: usize, expected: usize },
    /// A consecutive frame came out of order.
    InvalidSequence { actual: u8, expected: u8 },
    /// A frame came that the channel was not waiting for.
    StateError { expected: IsoTpState, found: IsoTpState },
    /// A consecutive frame came while no first frame had announced a length.
    MixFramesError,
    /// The receiver reported that its buffer cannot take the message.
    OverloadFlow,
    /// A frame of the protocol could not be turned into a frame of the device.
    ConvertError,
    /// The context of a channel could not be found or used.
    ContextError(String),
}

/// The mathematical value of an [`IsoTpError`].
#[allow(inconsistent_fields)]
pub enum ErrorView {
    DeviceError,
    EmptyPayload,
    MalformedPdu(Seq<u8>),
    LengthOutOfRange(usize),
    InvalidDataLength { actual: usize, expected: usize },
    InvalidSequence { actual: u8, expected: u8 },
    StateError { expected: IsoTpState, found: IsoTpState },
    MixFramesError,
    OverloadFlow,
    ConvertError,
    ContextError(Seq<char>),
}

impl View for IsoTpError {
    type V = ErrorView;

    open spec fn view(&self) -> ErrorView {
        match *self {
            IsoTpError::DeviceError => ErrorView::DeviceError,
            IsoTpError::EmptyPayload => ErrorView::EmptyPayload,
            IsoTpError::MalformedPdu(bytes) => ErrorView::MalformedPdu(bytes@),
            IsoTpError::LengthOutOfRange(n) => ErrorView::LengthOutOfRange(n),
            IsoTpError::InvalidDataLength { actual, expected } => ErrorView::InvalidDataLength {
                actual,
                expected,
            },
            IsoTpError::InvalidSequence { actual, expected } => ErrorView::InvalidSequence {
                actual,
                expected,
            },
            IsoTpError::StateError { expected, found } => ErrorView::StateError { expected, found },
            IsoTpError::MixFramesError => ErrorView::MixFramesError,
            IsoTpError::OverloadFlow => ErrorView::OverloadFlow,
            IsoTpError::ConvertError => ErrorView::ConvertError,
            IsoTpError::ContextError(message) => ErrorView::ContextError(message@),
        }
    }
}

impl Clone for IsoTpError {
    fn clone(&self) -> (r: Self)
        ensures
            r@ == self@,
    {
        match self {
            IsoTpError::DeviceError => IsoTpError::DeviceError,
            IsoTpError::EmptyPayload => IsoTpError::EmptyPayload,
            IsoTpError::MalformedPdu(bytes) => IsoTpError::MalformedPdu(bytes.clone()),
            IsoTpError::LengthOutOfRange(n) => IsoTpError::LengthOutOfRange(*n),
            IsoTpError::InvalidDataLength { actual, expected } => IsoTpError::InvalidDataLength {
                actual: *actual,
                expected: *expected,
            },
            IsoTpError::InvalidSequence { actual, expected } => IsoTpError::InvalidSequence {
                actual: *actual,
                expected: *expected,
            },
            IsoTpError::StateError { expected, found } => IsoTpError::StateError {
                expected: *expected,
                found: *found,
            },
            IsoTpError::MixFramesError => IsoTpError::MixFramesError,
            IsoTpError::OverloadFlow => IsoTpError::OverloadFlow,
            IsoTpError::ConvertError => IsoTpError::ConvertError,
            IsoTpError::ContextError(message) => IsoTpError::ContextError(message.clone()),
        }
    }
}

} // verus!
