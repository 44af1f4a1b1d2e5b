//! Window-credit accounting for one direction of one stream.

use crate::FrameSize;
use vstd::prelude::*;

verus! {

/// The protocol-maximum flow-control window, `2^31 - 1` (RFC 7540,
/// section 6.9.1). Window growth clamps here and never wraps.
pub const MAX_WINDOW_SIZE: u32 = 0x7fff_ffff;

/// The most negative value the window counter can take, `-2^31`
/// (RFC 7540, section 6.9.2: a SETTINGS-driven reduction may legally
/// drive a window negative, down to this bound). Shrinking saturates
/// here and never wraps.
pub const MIN_WINDOW_SIZE: i64 = -2147483648;

/// Returned by [`FlowController::claim_window`] when a claim exceeds the
/// currently available (non-negative) capacity.
#[derive(Clone, Copy, Debug, PartialEq, Eq, Structural)]
pub struct WindowUnderflow;

/// Window-credit accounting for one direction of one stream.
///
/// `window` is the capacity currently available to the window's owner; it
/// may legally go negative after a SETTINGS-driven reduction. `pending`
/// accumulates credit that has been granted but not yet handed to the
/// caller as a window update to send; it is drained by
/// [`FlowController::take_window_update`].
#[derive(Clone, Copy, Debug, PartialEq, Eq, Structural)]
pub struct FlowController {
    pub window: i64,
    pub pending: u32,
}

impl FlowController {
    /// The counter stays within the protocol bounds, and the pending
    /// increment never exceeds what a single WINDOW_UPDATE frame can carry.
    pub open spec fn wf(self) -> bool {
        &&& MIN_WINDOW_SIZE as int <= self.window as int <= MAX_WINDOW_SIZE as int
        &&& self.pending as int <= MAX_WINDOW_SIZE as int
    }

    /// A freshly created controller: the full initial window available,
    /// nothing pending.
    pub open spec fn spec_new(initial_window_size: u32) -> FlowController {
        FlowController { window: initial_window_size as i64, pending: 0 }
    }

    /// Growth adds `incr` to the counter, clamped at the protocol maximum;
    /// the capacity actually added is also recorded as pending credit,
    /// clamped the same way.
    pub open spec fn spec_grow(self, incr: u32) -> FlowController {
        if incr == 0 {
            self
        } else {
            let target = self.window as int + incr as int;
            let new_window = if target > MAX_WINDOW_SIZE as int {
                MAX_WINDOW_SIZE as int
            } else {
                target
            };
            let added = new_window - self.window as int;
            let target_pending = self.pending as int + added;
            let new_pending = if target_pending > MAX_WINDOW_SIZE as int {
                MAX_WINDOW_SIZE as int
            } else {
                target_pending
            };
            FlowController { window: new_window as i64, pending: new_pending as u32 }
        }
    }

    /// Shrinking subtracts `decr` from the counter, saturating at the
    /// protocol minimum; it may drive the counter negative. The pending
    /// accumulator is untouched.
    pub open spec fn spec_shrink(self, decr: u32) -> FlowController {
        if decr == 0 {
            self
        } else {
            let target = self.window as int - decr as int;
            let new_window = if target < MIN_WINDOW_SIZE as int {
                MIN_WINDOW_SIZE as int
            } else {
                target
            };
            FlowController { window: new_window as i64, pending: self.pending }
        }
    }

    /// A claim succeeds exactly when the counter is non-negative and at
    /// least `len`; on success it debits the counter, on failure it leaves
    /// the controller untouched.
    pub open spec fn spec_claim(self, len: FrameSize) -> (FlowController, Result<
        (),
        WindowUnderflow,
    >) {
        if 0 <= self.window && len as int <= self.window as int {
            (
                FlowController { window: (self.window as int - len as int) as i64, ..self },
                Ok(()),
            )
        } else {
            (self, Err(WindowUnderflow))
        }
    }

    /// Draining hands out the whole pending accumulator (`None` when
    /// nothing is pending) and resets it to zero.
    pub open spec fn spec_take(self) -> (FlowController, Option<u32>) {
        if self.pending == 0 {
            (self, None)
        } else {
            (FlowController { pending: 0, ..self }, Some(self.pending))
        }
    }

    /// Creates a controller with `initial_window_size` bytes of capacity,
    /// as negotiated by connection SETTINGS; the protocol caps that setting
    /// at `MAX_WINDOW_SIZE`.
    pub fn new(initial_window_size: u32) -> (fc: FlowController)
        requires
            initial_window_size <= MAX_WINDOW_SIZE,
        ensures
            fc == FlowController::spec_new(initial_window_size),
            fc.wf(),
    {
        FlowController { window: initial_window_size as i64, pending: 0 }
    }

    /// Extends window credit by `incr` bytes (a no-op if `incr == 0`).
    /// The counter is clamped so it never exceeds the protocol maximum,
    /// and the capacity actually added is recorded as pending credit.
    pub fn grow_window(&mut self, incr: u32)
        requires
            old(self).wf(),
        ensures
            *final(self) == old(self).spec_grow(incr),
            final(self).wf(),
    {
        if incr == 0 {
            return;
        }
        let prev: i64 = self.window;
        let sum: i64 = prev + incr as i64;
        let new_window: i64 = if sum > MAX_WINDOW_SIZE as i64 {
            MAX_WINDOW_SIZE as i64
        } else {
            sum
        };
        let added: i64 = new_window - prev;
        let pending_sum: i64 = self.pending as i64 + added;
        let new_pending: u32 = if pending_sum > MAX_WINDOW_SIZE as i64 {
            MAX_WINDOW_SIZE
        } else {
            pending_sum as u32
        };
        self.window = new_window;
        self.pending = new_pending;
    }

    /// Withdraws `decr` bytes of capacity (a no-op if `decr == 0`), for a
    /// SETTINGS-driven initial-window-size decrease; this may legally drive
    /// the counter negative, saturating at the protocol minimum.
    pub fn shrink_window(&mut self, decr: u32)
        requires
            old(self).wf(),
        ensures
            *final(self) == old(self).spec_shrink(decr),
            final(self).wf(),
    {
        if decr == 0 {
            return;
        }
        let target: i64 = self.window - decr as i64;
        self.window = if target < MIN_WINDOW_SIZE {
            MIN_WINDOW_SIZE
        } else {
            target
        };
    }

    /// Debits `len` bytes of capacity for an about-to-be-processed DATA
    /// frame. Succeeds exactly when the counter is non-negative and at
    /// least `len`; a failed claim leaves the controller untouched.
    pub fn claim_window(&mut self, len: FrameSize) -> (r: Result<(), WindowUnderflow>)
        requires
            old(self).wf(),
        ensures
            *final(self) == old(self).spec_claim(len).0,
            r == old(self).spec_claim(len).1,
            final(self).wf(),
            r is Ok <==> 0 <= old(self).window && len as int <= old(self).window as int,
            r is Err ==> *final(self) == *old(self),
    {
        if self.window >= 0 && len as i64 <= self.window {
            self.window = self.window - len as i64;
            Ok(())
        } else {
            Err(WindowUnderflow)
        }
    }

    /// Atomically drains the pending increment: `None` if no credit is
    /// pending, otherwise `Some` of the whole accumulator. The caller uses
    /// the returned value to emit a WINDOW_UPDATE frame.
    pub fn take_window_update(&mut self) -> (r: Option<u32>)
        requires
            old(self).wf(),
        ensures
            *final(self) == old(self).spec_take().0,
            r == old(self).spec_take().1,
            final(self).wf(),
            final(self).pending == 0,
    {
        if self.pending == 0 {
            None
        } else {
            let n = self.pending;
            self.pending = 0;
            Some(n)
        }
    }
}

} // verus!
