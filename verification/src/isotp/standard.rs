use vstd::prelude::*;
use crate::constant::{
    CANFD_FRAME_MAX_SIZE, CAN_FRAME_MAX_SIZE, DEFAULT_PADDING, DEFAULT_PADDING_2004,
    ISO_TP_MAX_LENGTH_2004, ISO_TP_MAX_LENGTH_2016,
};

verus! {

/// The revision of the transport protocol that frames are written in.
#[derive(Clone, Copy, Debug, PartialEq, Eq, Structural)]
pub enum Standard {
    /// One header byte for a single frame, a 12-bit length in a first frame.
    Std2004,
    /// As 2004, with the escape forms: a length byte of its own in a single
    /// frame, a 32-bit length in a first frame.
    Std2016,
}

/// The wire profile of a channel: the revision and the kind of link.
#[derive(Clone, Copy, Debug, PartialEq, Eq, Structural)]
pub struct Profile {
    pub standard: Standard,
    pub can_fd: bool,
}

impl Profile {
    /// The most bytes one frame of the link carries.
    pub open spec fn spec_max_frame_size(self) -> usize {
        if self.can_fd {
            CANFD_FRAME_MAX_SIZE
        } else {
            CAN_FRAME_MAX_SIZE
        }
    }

    /// The longest payload that goes out as one single frame.
    ///
    /// Under 2004 the length is one nibble, so a CAN-FD link gains no more
    /// than 15 bytes; under 2016 the escape form fills the frame but for its
    /// two header bytes.
    pub open spec fn spec_single_frame_size(self) -> usize {
        match self.standard {
            Standard::Std2004 => if self.can_fd {
                15
            } else {
                7
            },
            Standard::Std2016 => if self.can_fd {
                62
            } else {
                7
            },
        }
    }

    /// The number of payload bytes in the first frame of a message of
    /// `length` bytes: the frame less its two header bytes, or less six where
    /// the length needs the 32-bit form.
    pub open spec fn spec_first_frame_size(self, length: usize) -> usize {
        if length <= ISO_TP_MAX_LENGTH_2004 {
            (self.spec_max_frame_size() - 2) as usize
        } else {
            (self.spec_max_frame_size() - 6) as usize
        }
    }

    /// The number of payload bytes in a full consecutive frame.
    pub open spec fn spec_consecutive_frame_size(self) -> usize {
        (self.spec_max_frame_size() - 1) as usize
    }

    /// The longest message the revision can announce.
    pub open spec fn spec_max_length(self) -> usize {
        match self.standard {
            Standard::Std2004 => ISO_TP_MAX_LENGTH_2004,
            Standard::Std2016 => ISO_TP_MAX_LENGTH_2016,
        }
    }

    /// The byte that fills a frame where the caller names none.
    pub open spec fn spec_default_padding(self) -> u8 {
        match self.standard {
            Standard::Std2004 => DEFAULT_PADDING_2004,
            Standard::Std2016 => DEFAULT_PADDING,
        }
    }

    pub fn new(standard: Standard, can_fd: bool) -> (r: Profile)
        ensures
            r == (Profile { standard, can_fd }),
    {
        Profile { standard, can_fd }
    }

    #[verifier::when_used_as_spec(spec_max_frame_size)]
    pub fn max_frame_size(self) -> (r: usize)
        ensures
            r == self.spec_max_frame_size(),
    {
        if self.can_fd {
            CANFD_FRAME_MAX_SIZE
        } else {
            CAN_FRAME_MAX_SIZE
        }
    }

    #[verifier::when_used_as_spec(spec_single_frame_size)]
    pub fn single_frame_size(self) -> (r: usize)
        ensures
            r == self.spec_single_frame_size(),
    {
        match self.standard {
            Standard::Std2004 => if self.can_fd {
                15
            } else {
                7
            },
            Standard::Std2016 => if self.can_fd {
                62
            } else {
                7
            },
        }
    }

    #[verifier::when_used_as_spec(spec_first_frame_size)]
    pub fn first_frame_size(self, length: usize) -> (r: usize)
        ensures
            r == self.spec_first_frame_size(length),
    {
        if length <= ISO_TP_MAX_LENGTH_2004 {
            self.max_frame_size() - 2
        } else {
            self.max_frame_size() - 6
        }
    }

    #[verifier::when_used_as_spec(spec_consecutive_frame_size)]
    pub fn consecutive_frame_size(self) -> (r: usize)
        ensures
            r == self.spec_consecutive_frame_size(),
    {
        self.max_frame_size() - 1
    }

    #[verifier::when_used_as_spec(spec_max_length)]
    pub fn max_length(self) -> (r: usize)
        ensures
            r == self.spec_max_length(),
    {
        match self.standard {
            Standard::Std2004 => ISO_TP_MAX_LENGTH_2004,
            Standard::Std2016 => ISO_TP_MAX_LENGTH_2016,
        }
    }

    #[verifier::when_used_as_spec(spec_default_padding)]
    pub fn default_padding(self) -> (r: u8)
        ensures
            r == self.spec_default_padding(),
    {
        match self.standard {
            Standard::Std2004 => DEFAULT_PADDING_2004,
            Standard::Std2016 => DEFAULT_PADDING,
        }
    }
}

} // verus!
