//! The lid-reaction engine: tracks the selected device and the brightness
//! saved while the lid is closed, decides what each lid event requires,
//! applies the outcome of the dim and restore writes, and classifies device
//! errors, invalidating the device on a not-found cause. The surrounding
//! process performs the reads and writes and feeds their results back in.

use vstd::prelude::*;
use crate::device::Backlight;
use crate::errors::{AccessError, DeviceError, is_not_found};

verus! {

/// How long two log entries for device errors must lie apart, so that a
/// broken device does not flood the log.
pub const DEVICE_ERROR_INTERVAL_MS: u64 = 30000;

/// The brightness written when the lid closes.
pub const DIM_BRIGHTNESS: u32 = 0;

/// The brightness written instead when writing `DIM_BRIGHTNESS` fails: some
/// hardware rejects a literal zero.
pub const DIM_FALLBACK_BRIGHTNESS: u32 = 1;

/// The dim policy's write targets: on a close transition the caller writes
/// the first value, and the second exactly when the first write failed.
pub fn dim_values() -> (r: (u32, u32))
    ensures
        r == (DIM_BRIGHTNESS, DIM_FALLBACK_BRIGHTNESS),
        r == (0u32, 1u32),
{
    (DIM_BRIGHTNESS, DIM_FALLBACK_BRIGHTNESS)
}

/// What a lid event requires of the caller: snapshot brightness and dim,
/// restore the saved brightness, or nothing at all.
#[derive(Clone, Copy, Debug, PartialEq, Eq, Structural)]
pub enum LidAction {
    Dim,
    Restore,
    Nothing,
}

/// The summary of one handled lid event: a closed event that took a
/// brightness snapshot (whether or not the dim write succeeded), an open
/// event whose restore write succeeded, one whose restore write failed, or an
/// event that changed nothing (a duplicate, or one aborted before the
/// snapshot).
#[derive(Clone, Copy, Debug, PartialEq, Eq, Structural)]
pub enum LidStep {
    EffectiveClose(u32),
    SuccessfulOpen,
    FailedOpen,
    Skip,
}

/// How one handled event changes the saved brightness.
pub open spec fn step_saved(saved: Option<u32>, step: LidStep) -> Option<u32> {
    match step {
        LidStep::EffectiveClose(v) => if saved is None {
            Some(v)
        } else {
            saved
        },
        LidStep::SuccessfulOpen => None,
        LidStep::FailedOpen => saved,
        LidStep::Skip => saved,
    }
}

/// The saved brightness after a whole sequence of handled events.
pub open spec fn run_saved(saved: Option<u32>, steps: Seq<LidStep>) -> Option<u32>
    decreases steps.len(),
{
    if steps.len() == 0 {
        saved
    } else {
        step_saved(run_saved(saved, steps.drop_last()), steps.last())
    }
}

/// What a lid event requires, given the saved brightness: only a closed event
/// with nothing saved dims, only an open event with something saved restores.
pub open spec fn lid_action_spec(saved: Option<u32>, closed: bool) -> LidAction {
    if closed {
        if saved is None {
            LidAction::Dim
        } else {
            LidAction::Nothing
        }
    } else {
        if saved is Some {
            LidAction::Restore
        } else {
            LidAction::Nothing
        }
    }
}

/// Whether a device error at `now_ms` is logged, given when one was last
/// logged: at most once per interval, and earlier timestamps count as no
/// elapsed time.
pub open spec fn should_log(last: Option<u64>, now_ms: u64) -> bool {
    match last {
        None => true,
        Some(t) => (if now_ms >= t {
            now_ms - t
        } else {
            0
        }) >= DEVICE_ERROR_INTERVAL_MS,
    }
}

/// The last-logged timestamp after one classification at `now_ms`.
pub open spec fn log_step(last: Option<u64>, now_ms: u64) -> Option<u64> {
    if should_log(last, now_ms) {
        Some(now_ms)
    } else {
        last
    }
}

/// The restore value: the saved brightness, clamped between the configured
/// floor (itself capped by the device's maximum) and the device's maximum.
pub open spec fn spec_restore_target(saved: u32, floor: u32, max: u32) -> u32 {
    let lo: u32 = if floor <= max {
        floor
    } else {
        max
    };
    if saved < lo {
        lo
    } else if saved > max {
        max
    } else {
        saved
    }
}

/// What the caller should report after applying a close transition's writes.
#[derive(Clone, Copy, Debug, PartialEq, Eq, Structural)]
pub struct DimReport {
    /// The panel was dimmed, by the first write or by the fallback.
    pub dimmed: bool,
    /// The first write's failure is to be logged.
    pub log_first: bool,
    /// The fallback write's failure is to be logged.
    pub log_second: bool,
}

/// What the caller should report after applying a restore write.
#[derive(Clone, Copy, Debug, PartialEq, Eq, Structural)]
pub struct RestoreReport {
    /// The restore succeeded and the saved brightness was cleared.
    pub restored: bool,
    /// The write's failure is to be logged.
    pub log_error: bool,
}

/// The whole effect of a close transition on the engine, given the snapshot
/// `cur` and the dim writes' results: the snapshot is saved unless one
/// already was, failures are classified in order (device invalidation on a
/// not-found cause, rate-limited logging), and the report says whether the
/// panel was dimmed and which failures to log.
pub open spec fn close_transition(
    pre: State,
    post: State,
    cur: u32,
    primary: Result<(), AccessError>,
    fallback: Option<Result<(), AccessError>>,
    now_ms: u64,
    report: DimReport,
) -> bool {
    &&& post.saved_brightness == step_saved(pre.saved_brightness, LidStep::EffectiveClose(cur))
    &&& post.restore_min == pre.restore_min
    &&& (report.dimmed <==> (primary is Ok || (fallback matches Some(f) && f is Ok)))
    &&& match primary {
        Ok(_) => {
            &&& post.device == pre.device
            &&& post.last_device_error == pre.last_device_error
            &&& report == DimReport { dimmed: true, log_first: false, log_second: false }
        },
        Err(e1) => {
            &&& report.log_first == should_log(pre.last_device_error, now_ms)
            &&& match fallback {
                Some(Ok(_)) => {
                    &&& post.device == if crate::errors::access_not_found(e1) {
                        None::<Backlight>
                    } else {
                        pre.device
                    }
                    &&& post.last_device_error == log_step(pre.last_device_error, now_ms)
                    &&& !report.log_second
                },
                Some(Err(e2)) => {
                    &&& post.device == if crate::errors::access_not_found(e1)
                        || crate::errors::access_not_found(e2) {
                        None::<Backlight>
                    } else {
                        pre.device
                    }
                    &&& post.last_device_error == log_step(
                        log_step(pre.last_device_error, now_ms),
                        now_ms,
                    )
                    &&& report.log_second == should_log(
                        log_step(pre.last_device_error, now_ms),
                        now_ms,
                    )
                },
                None => false,
            }
        },
    }
}

/// The whole effect of an open transition on the engine, given the restore
/// write's result: on success the saved brightness is cleared and nothing
/// else changes; on failure it is kept untouched — so the next open event
/// retries the very same restore — and the failure is classified.
pub open spec fn open_transition(
    pre: State,
    post: State,
    write_result: Result<(), AccessError>,
    now_ms: u64,
    report: RestoreReport,
) -> bool {
    &&& post.saved_brightness == step_saved(
        pre.saved_brightness,
        if write_result is Ok {
            LidStep::SuccessfulOpen
        } else {
            LidStep::FailedOpen
        },
    )
    &&& post.restore_min == pre.restore_min
    &&& (report.restored <==> write_result is Ok)
    &&& match write_result {
        Ok(_) => {
            &&& post.device == pre.device
            &&& post.last_device_error == pre.last_device_error
            &&& report == RestoreReport { restored: true, log_error: false }
        },
        Err(e) => {
            &&& post.device == if crate::errors::access_not_found(e) {
                None::<Backlight>
            } else {
                pre.device
            }
            &&& post.last_device_error == log_step(pre.last_device_error, now_ms)
            &&& report.log_error == should_log(pre.last_device_error, now_ms)
        },
    }
}

/// The engine's state: the selected device, the brightness saved while the
/// lid is closed, the configured restore floor, and the rate-limiting
/// timestamp of the last logged device error.
pub struct State {
    pub device: Option<Backlight>,
    pub saved_brightness: Option<u32>,
    pub restore_min: u32,
    pub last_device_error: Option<u64>,
}

impl State {
    /// A fresh engine: no device selected, nothing saved.
    pub fn new(restore_min: u32) -> (s: State)
        ensures
            s.device is None,
            s.saved_brightness is None,
            s.restore_min == restore_min,
            s.last_device_error is None,
    {
        State { device: None, saved_brightness: None, restore_min, last_device_error: None }
    }

    /// Whether the next transition must discover a device first.
    pub fn needs_device(&self) -> (r: bool)
        ensures
            r == (self.device is None),
    {
        match &self.device {
            None => true,
            Some(_) => false,
        }
    }

    /// Rate-limits device-error logging: reports whether to log now, and
    /// remembers the time when it does.
    pub fn log_device_error(&mut self, now_ms: u64) -> (log: bool)
        ensures
            log == should_log(old(self).last_device_error, now_ms),
            final(self).last_device_error == log_step(old(self).last_device_error, now_ms),
            final(self).device == old(self).device,
            final(self).saved_brightness == old(self).saved_brightness,
            final(self).restore_min == old(self).restore_min,
    {
        let elapsed: u64 = match self.last_device_error {
            None => DEVICE_ERROR_INTERVAL_MS,
            Some(t) => if now_ms >= t {
                now_ms - t
            } else {
                0
            },
        };
        if elapsed >= DEVICE_ERROR_INTERVAL_MS {
            self.last_device_error = Some(now_ms);
            true
        } else {
            false
        }
    }

    /// Classifies a device error at `now_ms`: a not-found cause discards the
    /// selected device, forcing rediscovery on the next event; every cause is
    /// logged, rate-limited. Reports whether to log.
    pub fn handle_device_error(&mut self, err: &DeviceError, now_ms: u64) -> (log: bool)
        ensures
            final(self).device == if is_not_found(*err) {
                None::<Backlight>
            } else {
                old(self).device
            },
            log == should_log(old(self).last_device_error, now_ms),
            final(self).last_device_error == log_step(old(self).last_device_error, now_ms),
            final(self).saved_brightness == old(self).saved_brightness,
            final(self).restore_min == old(self).restore_min,
    {
        if err.not_found() {
            self.device = None;
        }
        self.log_device_error(now_ms)
    }

    /// Installs a discovered device when none is selected; with one already
    /// selected the discovery result is ignored. A failed discovery is handed
    /// back for classification.
    pub fn ensure_device(&mut self, discovered: Result<Backlight, DeviceError>) -> (r: Result<
        (),
        DeviceError,
    >)
        ensures
            old(self).device is Some ==> *final(self) == *old(self) && r is Ok,
            old(self).device is None ==> match discovered {
                Ok(d) => final(self).device == Some(d) && r is Ok,
                Err(e) => *final(self) == *old(self) && r == Err::<(), DeviceError>(e),
            },
            final(self).saved_brightness == old(self).saved_brightness,
            final(self).restore_min == old(self).restore_min,
            final(self).last_device_error == old(self).last_device_error,
            r is Ok <==> (old(self).device is Some || discovered is Ok),
    {
        if self.needs_device() {
            match discovered {
                Ok(d) => {
                    self.device = Some(d);
                    Ok(())
                },
                Err(e) => Err(e),
            }
        } else {
            Ok(())
        }
    }

    /// Decides what a lid event requires: dim on a closed event with nothing
    /// saved, restore on an open event with something saved, nothing
    /// otherwise — so duplicate or missed notifications are harmless.
    pub fn handle_lid_change(&self, closed: bool) -> (action: LidAction)
        ensures
            action == lid_action_spec(self.saved_brightness, closed),
    {
        if closed {
            match self.saved_brightness {
                None => LidAction::Dim,
                Some(_) => LidAction::Nothing,
            }
        } else {
            match self.saved_brightness {
                Some(_) => LidAction::Restore,
                None => LidAction::Nothing,
            }
        }
    }

    /// Applies a close transition: records the brightness snapshot `cur`
    /// unless one is already saved, and classifies the dim writes' failures.
    /// `primary` is the result of writing `DIM_BRIGHTNESS`; `fallback` is the
    /// result of writing `DIM_FALLBACK_BRIGHTNESS` (see `dim_values`),
    /// attempted exactly when the first write failed. The saved brightness
    /// stays set whether or not the dim succeeded, so a later open event
    /// still restores.
    pub fn on_lid_close(
        &mut self,
        cur: u32,
        primary: Result<(), AccessError>,
        fallback: Option<Result<(), AccessError>>,
        now_ms: u64,
    ) -> (report: DimReport)
        requires
            (fallback is Some) <==> (primary is Err),
        ensures
            close_transition(*old(self), *final(self), cur, primary, fallback, now_ms, report),
    {
        if self.saved_brightness.is_none() {
            self.saved_brightness = Some(cur);
        }
        match primary {
            Ok(()) => DimReport { dimmed: true, log_first: false, log_second: false },
            Err(e1) => {
                let log_first = self.handle_device_error(&DeviceError::AccessFailed(e1), now_ms);
                match fallback {
                    Some(second) => match second {
                        Ok(_) => DimReport { dimmed: true, log_first, log_second: false },
                        Err(e2) => {
                            let log_second = self.handle_device_error(
                                &DeviceError::AccessFailed(e2),
                                now_ms,
                            );
                            DimReport { dimmed: false, log_first, log_second }
                        },
                    },
                    None => DimReport { dimmed: false, log_first, log_second: false },
                }
            },
        }
    }

    /// The value an open transition writes back.
    pub fn restore_target(&self) -> (t: u32)
        requires
            self.device is Some,
            self.saved_brightness is Some,
        ensures
            t == spec_restore_target(
                self.saved_brightness->0,
                self.restore_min,
                self.device->0.max_brightness,
            ),
    {
        let max = match &self.device {
            Some(d) => d.max_brightness,
            None => 0,
        };
        let saved = match self.saved_brightness {
            Some(v) => v,
            None => 0,
        };
        let lo = if self.restore_min <= max {
            self.restore_min
        } else {
            max
        };
        if saved < lo {
            lo
        } else if saved > max {
            max
        } else {
            saved
        }
    }

    /// Applies the result of the restore write: on success the saved
    /// brightness is cleared; on failure it is kept untouched, so the next
    /// open event retries the very same restore, and the failure is
    /// classified.
    pub fn on_lid_open(&mut self, write_result: Result<(), AccessError>, now_ms: u64) -> (report:
        RestoreReport)
        requires
            old(self).saved_brightness is Some,
        ensures
            open_transition(*old(self), *final(self), write_result, now_ms, report),
    {
        match write_result {
            Ok(()) => {
                self.saved_brightness = None;
                RestoreReport { restored: true, log_error: false }
            },
            Err(e) => {
                let log_error = self.handle_device_error(&DeviceError::AccessFailed(e), now_ms);
                RestoreReport { restored: false, log_error }
            },
        }
    }

    /// Whether a final best-effort restore is owed at shutdown: exactly when
    /// a brightness is still saved.
    pub fn restore_on_exit(&self) -> (r: bool)
        ensures
            r == (self.saved_brightness is Some),
    {
        match self.saved_brightness {
            Some(_) => true,
            None => false,
        }
    }
}

/// For every sequence of handled lid events, a brightness is saved exactly
/// when some event took a snapshot (an effective close) and no later event
/// restored successfully.
pub proof fn lemma_saved_iff_close_pending(steps: Seq<LidStep>)
    ensures
        run_saved(None, steps) is Some <==> exists|i: int|
            0 <= i < steps.len() && steps[i] is EffectiveClose && (forall|j: int|
                i < j < steps.len() ==> !(steps[j] is SuccessfulOpen)),
    decreases steps.len(),
{
    if steps.len() > 0 {
        let pre = steps.drop_last();
        lemma_saved_iff_close_pending(pre);
        let last = steps.last();
        match last {
            LidStep::EffectiveClose(_) => {
                assert(steps[steps.len() - 1] is EffectiveClose);
            },
            LidStep::SuccessfulOpen => {
                if exists|i: int|
                    0 <= i < steps.len() && steps[i] is EffectiveClose && (forall|j: int|
                        i < j < steps.len() ==> !(steps[j] is SuccessfulOpen)) {
                    let i = choose|i: int|
                        0 <= i < steps.len() && steps[i] is EffectiveClose && (forall|j: int|
                            i < j < steps.len() ==> !(steps[j] is SuccessfulOpen));
                    if i < steps.len() - 1 {
                        assert(!(steps[steps.len() - 1] is SuccessfulOpen));
                    }
                    assert(false);
                }
            },
            _ => {
                assert(run_saved(None, steps) == run_saved(None, pre));
                if run_saved(None, pre) is Some {
                    let i = choose|i: int|
                        0 <= i < pre.len() && pre[i] is EffectiveClose && (forall|j: int|
                            i < j < pre.len() ==> !(pre[j] is SuccessfulOpen));
                    assert(steps[i] is EffectiveClose);
                    assert(forall|j: int| i < j < steps.len() - 1 ==> steps[j] == pre[j]);
                    assert(forall|j: int| i < j < steps.len() ==> !(steps[j] is SuccessfulOpen));
                } else {
                    if exists|i: int|
                        0 <= i < steps.len() && steps[i] is EffectiveClose && (forall|j: int|
                            i < j < steps.len() ==> !(steps[j] is SuccessfulOpen)) {
                        let i = choose|i: int|
                            0 <= i < steps.len() && steps[i] is EffectiveClose && (forall|j: int|
                                i < j < steps.len() ==> !(steps[j] is SuccessfulOpen));
                        assert(i < steps.len() - 1);
                        assert(pre[i] is EffectiveClose);
                        assert(forall|j: int| i < j < pre.len() ==> !(pre[j] is SuccessfulOpen));
                    }
                }
            },
        }
    }
}

/// Closing is idempotent: once a close took a snapshot, a brightness is
/// saved, so a further closed event asks for nothing — no new snapshot is
/// read — and handling it as a no-op leaves the state as after the first
/// close.
pub proof fn lemma_close_idempotent(saved: Option<u32>, v: u32, w: u32)
    ensures
        step_saved(saved, LidStep::EffectiveClose(v)) is Some,
        lid_action_spec(step_saved(saved, LidStep::EffectiveClose(v)), true) == LidAction::Nothing,
        step_saved(step_saved(saved, LidStep::EffectiveClose(v)), LidStep::Skip) == step_saved(
            saved,
            LidStep::EffectiveClose(v),
        ),
        step_saved(
            step_saved(saved, LidStep::EffectiveClose(v)),
            LidStep::EffectiveClose(w),
        ) == step_saved(saved, LidStep::EffectiveClose(v)),
{
}

/// Opening is idempotent: after one successful restore nothing is saved, so
/// a further open event asks for nothing — no further write happens — and
/// handling it as a no-op changes nothing.
pub proof fn lemma_open_idempotent(saved: Option<u32>)
    ensures
        step_saved(saved, LidStep::SuccessfulOpen) is None,
        lid_action_spec(step_saved(saved, LidStep::SuccessfulOpen), false) == LidAction::Nothing,
        step_saved(step_saved(saved, LidStep::SuccessfulOpen), LidStep::Skip) == step_saved(
            saved,
            LidStep::SuccessfulOpen,
        ),
{
}

} // verus!
