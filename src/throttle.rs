//! The throttle/enable cell shared by the radio input, the fault monitor and the control
//! loop, and the mapping of receiver channels onto it.
use vstd::prelude::*;
use crate::fixed::{div_trunc, div_trunc_exec, lemma_div_trunc_bounds, ONE};
use crate::pid::clamp;

verus! {

/// Enable channel values above this arm the controller.
pub const ENABLE_THRESHOLD: u16 = 1200;

/// Throttle channel value of zero throttle.
pub const THROTTLE_ZERO: i64 = 1000;

/// Throttle channel span from zero to full throttle.
pub const THROTTLE_SPAN: i64 = 900;

/// Throttle (Q16.16 in `[0, 1]`) that the receiver channels ask for, or `None` when the
/// enable channel is not armed.
pub open spec fn throttle_of(throttle_channel: int, enable_channel: int) -> Option<i32> {
    if enable_channel > ENABLE_THRESHOLD {
        Some(
            clamp(
                div_trunc((throttle_channel - THROTTLE_ZERO) * ONE, THROTTLE_SPAN as int),
                0,
                ONE as int,
            ) as i32,
        )
    } else {
        None
    }
}

/// A throttle command is disabled or within `[0, 1]`.
pub open spec fn valid_throttle(v: Option<i32>) -> bool {
    v matches Some(t) ==> 0 <= t <= ONE
}

/// Maps the raw throttle and enable channels of a receiver frame to a throttle command.
pub fn throttle_command(throttle_channel: u16, enable_channel: u16) -> (r: Option<i32>)
    ensures
        r == throttle_of(throttle_channel as int, enable_channel as int),
        valid_throttle(r),
{
    if enable_channel > ENABLE_THRESHOLD {
        let offset = throttle_channel as i64 - THROTTLE_ZERO;
        assert(-0x1_0000_0000 <= offset * 65536 <= 0x1_0000_0000) by (nonlinear_arith)
            requires
                -1000 <= offset <= 0x1_0000,
        ;
        let scaled = offset * ONE as i64;
        proof {
            lemma_div_trunc_bounds(scaled as int, THROTTLE_SPAN as int, -0x1_0000_0000, 0x1_0000_0000);
        }
        let t = div_trunc_exec(scaled as i128, THROTTLE_SPAN as i128) as i64;
        let t = if t < 0 {
            0
        } else if t > ONE as i64 {
            ONE
        } else {
            t as i32
        };
        Some(t)
    } else {
        None
    }
}

/// Cell state `(throttle, latched)` after a radio write of `v`: ignored once a fault has
/// latched the cell.
pub open spec fn written(state: (Option<i32>, bool), v: Option<i32>) -> (Option<i32>, bool) {
    if state.1 {
        state
    } else {
        (v, false)
    }
}

/// Cell state after a fault: disabled and latched.
pub open spec fn tripped(state: (Option<i32>, bool)) -> (Option<i32>, bool) {
    (None, true)
}

/// Cell state after the radio writes `ws`, in order.
pub open spec fn written_all(state: (Option<i32>, bool), ws: Seq<Option<i32>>) -> (
    Option<i32>,
    bool,
)
    decreases ws.len(),
{
    if ws.len() == 0 {
        state
    } else {
        written_all(written(state, ws[0]), ws.drop_first())
    }
}

/// Latest throttle command, and whether a fault has disabled the drive for good.
pub struct ThrottleCell {
    /// The throttle; `None` when disabled
    value: Option<i32>,
    /// A fault has latched the cell
    latched: bool,
}

impl ThrottleCell {
    /// The cell as `(throttle, latched)`.
    pub closed spec fn view(&self) -> (Option<i32>, bool) {
        (self.value, self.latched)
    }

    /// The command is valid, and a latched cell is disabled.
    pub open spec fn wf(&self) -> bool {
        &&& valid_throttle(self@.0)
        &&& self@.1 ==> self@.0 is None
    }

    /// A disabled, unlatched cell.
    pub fn new() -> (r: Self)
        ensures
            r.wf(),
            r@ == (None::<i32>, false),
    {
        Self { value: None, latched: false }
    }

    /// Stores the radio's latest command, unless a fault has latched the cell.
    pub fn write(&mut self, value: Option<i32>)
        requires
            old(self).wf(),
            valid_throttle(value),
        ensures
            final(self).wf(),
            final(self)@ == written(old(self)@, value),
    {
        if !self.latched {
            self.value = value;
        }
    }

    /// Disables the drive for good.
    pub fn trip(&mut self)
        ensures
            final(self).wf(),
            final(self)@ == tripped(old(self)@),
    {
        self.value = None;
        self.latched = true;
    }

    /// Whether a fault has latched the cell.
    pub fn is_latched(&self) -> (r: bool)
        ensures
            r == self@.1,
    {
        self.latched
    }

    /// The latest command.
    pub fn read(&self) -> (r: Option<i32>)
        ensures
            r == self@.0,
    {
        self.value
    }
}

/// Once a fault has tripped the cell, the control loop reads `None` whatever the radio
/// wrote before the fault and whatever it writes after it.
pub proof fn lemma_fault_wins(
    state: (Option<i32>, bool),
    before: Seq<Option<i32>>,
    after: Seq<Option<i32>>,
)
    ensures
        written_all(tripped(written_all(state, before)), after).0 is None,
    decreases after.len(),
{
    lemma_latched_stays(tripped(written_all(state, before)), after);
}

proof fn lemma_latched_stays(state: (Option<i32>, bool), ws: Seq<Option<i32>>)
    requires
        state.1,
        state.0 is None,
    ensures
        written_all(state, ws) == state,
    decreases ws.len(),
{
    if ws.len() > 0 {
        lemma_latched_stays(written(state, ws[0]), ws.drop_first());
    }
}

} // verus!
