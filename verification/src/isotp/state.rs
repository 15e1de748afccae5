use vstd::prelude::*;

verus! {

/// The set of protocol flags that a channel carries.
///
/// Each field says whether one flag is in the set; the empty set is the idle
/// state. Flags other than `error` may be held together. A state that a
/// channel context holds is always [`IsoTpState::is_valid`]: the error flag
/// stands alone.
#[derive(Clone, Copy, Debug, PartialEq, Eq, Structural)]
pub struct IsoTpState {
    pub wait_single: bool,
    pub wait_first: bool,
    pub wait_flow_ctrl: bool,
    pub wait_data: bool,
    pub wait_busy: bool,
    pub response_pending: bool,
    pub sending: bool,
    pub error: bool,
}

impl IsoTpState {
    /// The empty set of flags.
    pub open spec fn spec_idle() -> IsoTpState {
        IsoTpState {
            wait_single: false,
            wait_first: false,
            wait_flow_ctrl: false,
            wait_data: false,
            wait_busy: false,
            response_pending: false,
            sending: false,
            error: false,
        }
    }

    pub open spec fn spec_wait_single() -> IsoTpState {
        IsoTpState { wait_single: true, ..Self::spec_idle() }
    }

    pub open spec fn spec_wait_first() -> IsoTpState {
        IsoTpState { wait_first: true, ..Self::spec_idle() }
    }

    pub open spec fn spec_wait_flow_ctrl() -> IsoTpState {
        IsoTpState { wait_flow_ctrl: true, ..Self::spec_idle() }
    }

    pub open spec fn spec_wait_data() -> IsoTpState {
        IsoTpState { wait_data: true, ..Self::spec_idle() }
    }

    pub open spec fn spec_wait_busy() -> IsoTpState {
        IsoTpState { wait_busy: true, ..Self::spec_idle() }
    }

    pub open spec fn spec_response_pending() -> IsoTpState {
        IsoTpState { response_pending: true, ..Self::spec_idle() }
    }

    pub open spec fn spec_sending() -> IsoTpState {
        IsoTpState { sending: true, ..Self::spec_idle() }
    }

    pub open spec fn spec_error() -> IsoTpState {
        IsoTpState { error: true, ..Self::spec_idle() }
    }

    /// The flags of `self` together with those of `other`.
    pub open spec fn spec_union(self, other: IsoTpState) -> IsoTpState {
        IsoTpState {
            wait_single: self.wait_single || other.wait_single,
            wait_first: self.wait_first || other.wait_first,
            wait_flow_ctrl: self.wait_flow_ctrl || other.wait_flow_ctrl,
            wait_data: self.wait_data || other.wait_data,
            wait_busy: self.wait_busy || other.wait_busy,
            response_pending: self.response_pending || other.response_pending,
            sending: self.sending || other.sending,
            error: self.error || other.error,
        }
    }

    /// The flags of `self` that are not in `other`.
    pub open spec fn spec_difference(self, other: IsoTpState) -> IsoTpState {
        IsoTpState {
            wait_single: self.wait_single && !other.wait_single,
            wait_first: self.wait_first && !other.wait_first,
            wait_flow_ctrl: self.wait_flow_ctrl && !other.wait_flow_ctrl,
            wait_data: self.wait_data && !other.wait_data,
            wait_busy: self.wait_busy && !other.wait_busy,
            response_pending: self.response_pending && !other.response_pending,
            sending: self.sending && !other.sending,
            error: self.error && !other.error,
        }
    }

    /// Every flag of `flags` is in `self`. The empty set is contained in
    /// every state.
    pub open spec fn spec_contains(self, flags: IsoTpState) -> bool {
        &&& flags.wait_single ==> self.wait_single
        &&& flags.wait_first ==> self.wait_first
        &&& flags.wait_flow_ctrl ==> self.wait_flow_ctrl
        &&& flags.wait_data ==> self.wait_data
        &&& flags.wait_busy ==> self.wait_busy
        &&& flags.response_pending ==> self.response_pending
        &&& flags.sending ==> self.sending
        &&& flags.error ==> self.error
    }

    /// At least one flag of `flags` is in `self`.
    pub open spec fn spec_intersects(self, flags: IsoTpState) -> bool {
        ||| flags.wait_single && self.wait_single
        ||| flags.wait_first && self.wait_first
        ||| flags.wait_flow_ctrl && self.wait_flow_ctrl
        ||| flags.wait_data && self.wait_data
        ||| flags.wait_busy && self.wait_busy
        ||| flags.response_pending && self.response_pending
        ||| flags.sending && self.sending
        ||| flags.error && self.error
    }

    /// The error flag, where it is set, is the only flag set.
    pub open spec fn is_valid(self) -> bool {
        self.error ==> self == Self::spec_error()
    }

    #[verifier::when_used_as_spec(spec_idle)]
    pub fn idle() -> (r: IsoTpState)
        ensures
            r == Self::spec_idle(),
    {
        IsoTpState {
            wait_single: false,
            wait_first: false,
            wait_flow_ctrl: false,
            wait_data: false,
            wait_busy: false,
            response_pending: false,
            sending: false,
            error: false,
        }
    }

    #[verifier::when_used_as_spec(spec_wait_single)]
    pub fn wait_single() -> (r: IsoTpState)
        ensures
            r == Self::spec_wait_single(),
    {
        IsoTpState { wait_single: true, ..Self::idle() }
    }

    #[verifier::when_used_as_spec(spec_wait_first)]
    pub fn wait_first() -> (r: IsoTpState)
        ensures
            r == Self::spec_wait_first(),
    {
        IsoTpState { wait_first: true, ..Self::idle() }
    }

    #[verifier::when_used_as_spec(spec_wait_flow_ctrl)]
    pub fn wait_flow_ctrl() -> (r: IsoTpState)
        ensures
            r == Self::spec_wait_flow_ctrl(),
    {
        IsoTpState { wait_flow_ctrl: true, ..Self::idle() }
    }

    #[verifier::when_used_as_spec(spec_wait_data)]
    pub fn wait_data() -> (r: IsoTpState)
        ensures
            r == Self::spec_wait_data(),
    {
        IsoTpState { wait_data: true, ..Self::idle() }
    }

    #[verifier::when_used_as_spec(spec_wait_busy)]
    pub fn wait_busy() -> (r: IsoTpState)
        ensures
            r == Self::spec_wait_busy(),
    {
        IsoTpState { wait_busy: true, ..Self::idle() }
    }

    #[verifier::when_used_as_spec(spec_response_pending)]
    pub fn response_pending() -> (r: IsoTpState)
        ensures
            r == Self::spec_response_pending(),
    {
        IsoTpState { response_pending: true, ..Self::idle() }
    }

    #[verifier::when_used_as_spec(spec_sending)]
    pub fn sending() -> (r: IsoTpState)
        ensures
            r == Self::spec_sending(),
    {
        IsoTpState { sending: true, ..Self::idle() }
    }

    #[verifier::when_used_as_spec(spec_error)]
    pub fn error() -> (r: IsoTpState)
        ensures
            r == Self::spec_error(),
    {
        IsoTpState { error: true, ..Self::idle() }
    }

    #[verifier::when_used_as_spec(spec_union)]
    pub fn union(self, other: IsoTpState) -> (r: IsoTpState)
        ensures
            r == self.spec_union(other),
    {
        IsoTpState {
            wait_single: self.wait_single || other.wait_single,
            wait_first: self.wait_first || other.wait_first,
            wait_flow_ctrl: self.wait_flow_ctrl || other.wait_flow_ctrl,
            wait_data: self.wait_data || other.wait_data,
            wait_busy: self.wait_busy || other.wait_busy,
            response_pending: self.response_pending || other.response_pending,
            sending: self.sending || other.sending,
            error: self.error || other.error,
        }
    }

    #[verifier::when_used_as_spec(spec_difference)]
    pub fn difference(self, other: IsoTpState) -> (r: IsoTpState)
        ensures
            r == self.spec_difference(other),
    {
        IsoTpState {
            wait_single: self.wait_single && !other.wait_single,
            wait_first: self.wait_first && !other.wait_first,
            wait_flow_ctrl: self.wait_flow_ctrl && !other.wait_flow_ctrl,
            wait_data: self.wait_data && !other.wait_data,
            wait_busy: self.wait_busy && !other.wait_busy,
            response_pending: self.response_pending && !other.response_pending,
            sending: self.sending && !other.sending,
            error: self.error && !other.error,
        }
    }

    #[verifier::when_used_as_spec(spec_contains)]
    pub fn contains(self, flags: IsoTpState) -> (r: bool)
        ensures
            r == self.spec_contains(flags),
    {
        (!flags.wait_single || self.wait_single) && (!flags.wait_first || self.wait_first) && (
        !flags.wait_flow_ctrl || self.wait_flow_ctrl) && (!flags.wait_data || self.wait_data) && (
        !flags.wait_busy || self.wait_busy) && (!flags.response_pending || self.response_pending)
            && (!flags.sending || self.sending) && (!flags.error || self.error)
    }

    #[verifier::when_used_as_spec(spec_intersects)]
    pub fn intersects(self, flags: IsoTpState) -> (r: bool)
        ensures
            r == self.spec_intersects(flags),
    {
        (flags.wait_single && self.wait_single) || (flags.wait_first && self.wait_first) || (
        flags.wait_flow_ctrl && self.wait_flow_ctrl) || (flags.wait_data && self.wait_data) || (
        flags.wait_busy && self.wait_busy) || (flags.response_pending && self.response_pending)
            || (flags.sending && self.sending) || (flags.error && self.error)
    }

    /// The state as one byte, one bit per flag.
    pub open spec fn spec_bits(self) -> u8 {
        ((if self.wait_single { 0x01int } else { 0 }) + (if self.wait_first { 0x02int } else { 0 })
            + (if self.wait_flow_ctrl { 0x04int } else { 0 }) + (if self.wait_data { 0x08int } else { 0 })
            + (if self.wait_busy { 0x10int } else { 0 }) + (if self.response_pending { 0x20int } else { 0 })
            + (if self.sending { 0x40int } else { 0 }) + (if self.error { 0x80int } else { 0 })) as u8
    }

    #[verifier::when_used_as_spec(spec_bits)]
    pub fn bits(self) -> (r: u8)
        ensures
            r == self.spec_bits(),
    {
        let mut r: u8 = 0;
        if self.wait_single {
            r = r + 0x01;
        }
        if self.wait_first {
            r = r + 0x02;
        }
        if self.wait_flow_ctrl {
            r = r + 0x04;
        }
        if self.wait_data {
            r = r + 0x08;
        }
        if self.wait_busy {
            r = r + 0x10;
        }
        if self.response_pending {
            r = r + 0x20;
        }
        if self.sending {
            r = r + 0x40;
        }
        if self.error {
            r = r + 0x80;
        }
        r
    }
}

impl Default for IsoTpState {
    fn default() -> (r: Self)
        ensures
            r == IsoTpState::spec_idle(),
    {
        IsoTpState::idle()
    }
}

} // verus!
