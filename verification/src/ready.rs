use vstd::prelude::*;
use crate::error::{error_text, RustLtfsError};
use crate::ops::TapeOperations;
use crate::text::{chars_eq, chars_to_string, contains, contains_str, push_str, str_to_chars};

verus! {

/// What a TEST UNIT READY gave.
pub enum ReadyProbe {
    /// No sense data: the drive is ready.
    Clear,
    /// Sense data, as its decoded description.
    Sense(String),
    /// The command itself failed.
    Failed(RustLtfsError),
}

/// What to do after a probe.
#[derive(Debug, Clone, PartialEq, Eq)]
pub enum ReadyStep {
    /// The drive is ready.
    Ready,
    /// Wait this many milliseconds and probe again.
    RetryAfter(u64),
    /// Give up with this error.
    Fail(RustLtfsError),
}

/// A sense description that means the drive is ready.
pub open spec fn sense_says_ready(s: Seq<char>) -> bool {
    ||| contains(s, "No additional sense information"@)
    ||| contains(s, "ready"@)
    ||| contains(s, "Ready"@)
    ||| contains(s, "Good"@)
    ||| s == "Device ready"@
}

/// A sense description of a state that may pass.
pub open spec fn sense_is_transient(s: Seq<char>) -> bool {
    ||| contains(s, "Not ready"@)
    ||| contains(s, "Unit attention"@)
    ||| contains(s, "Medium may have changed"@)
}

/// The wait for a ready drive: up to five TEST UNIT READY probes, 200 ms
/// apart while the failure may pass.
pub struct DeviceReadyWait {
    /// Probes left, the current one included.
    pub remaining: u32,
}

impl TapeOperations {
    /// Starts the wait for a ready drive: five probes.
    pub fn wait_for_device_ready(&self) -> (w: DeviceReadyWait)
        ensures
            w.remaining == 5,
    {
        DeviceReadyWait { remaining: 5 }
    }
}

impl DeviceReadyWait {
    /// Takes the outcome of a probe.  A failed command or a transient state
    /// (such as "Not ready") is probed again after 200 ms while probes are
    /// left, else the wait fails; otherwise no sense data, or a description
    /// that says ready, ends the wait, and any other sense fails at once.
    pub fn probe_result(&mut self, probe: ReadyProbe) -> (r: ReadyStep)
        requires
            1 <= old(self).remaining <= 5,
        ensures
            1 <= final(self).remaining <= 5,
            r is RetryAfter ==> old(self).remaining > 1 && final(self).remaining == old(self).remaining - 1
                && r == ReadyStep::RetryAfter(200),
            !(r is RetryAfter) ==> final(self).remaining == old(self).remaining,
            match probe {
                ReadyProbe::Clear => r == ReadyStep::Ready,
                ReadyProbe::Sense(s) => if sense_is_transient(s@) {
                    if old(self).remaining > 1 {
                        r is RetryAfter
                    } else {
                        r matches ReadyStep::Fail(RustLtfsError::Scsi(m))
                            && m@ == "Device not ready after 5 retries: "@ + s@
                    }
                } else if sense_says_ready(s@) {
                    r == ReadyStep::Ready
                } else {
                    r matches ReadyStep::Fail(RustLtfsError::Scsi(m)) && m@ == "TestUnitReady failed: "@ + s@
                },
                ReadyProbe::Failed(e) => if old(self).remaining > 1 {
                    r is RetryAfter
                } else {
                    r matches ReadyStep::Fail(RustLtfsError::Scsi(m))
                        && m@ == "TestUnitReady failed after 5 retries: "@ + error_text(e)
                },
            },
    {
        match probe {
            ReadyProbe::Clear => ReadyStep::Ready,
            ReadyProbe::Sense(s) => {
                let cs = str_to_chars(s.as_str());
                let dr = str_to_chars("Device ready");
                if contains_str(&cs, "Not ready") || contains_str(&cs, "Unit attention") || contains_str(
                    &cs,
                    "Medium may have changed",
                ) {
                    if self.remaining > 1 {
                        self.remaining = self.remaining - 1;
                        ReadyStep::RetryAfter(200)
                    } else {
                        let mut m: Vec<char> = Vec::new();
                        push_str(&mut m, "Device not ready after 5 retries: ");
                        push_str(&mut m, s.as_str());
                        ReadyStep::Fail(RustLtfsError::Scsi(chars_to_string(&m)))
                    }
                } else if contains_str(&cs, "No additional sense information") || contains_str(&cs, "ready")
                    || contains_str(&cs, "Ready") || contains_str(&cs, "Good") || chars_eq(&cs, &dr) {
                    ReadyStep::Ready
                } else {
                    let mut m: Vec<char> = Vec::new();
                    push_str(&mut m, "TestUnitReady failed: ");
                    push_str(&mut m, s.as_str());
                    ReadyStep::Fail(RustLtfsError::Scsi(chars_to_string(&m)))
                }
            },
            ReadyProbe::Failed(e) => {
                if self.remaining > 1 {
                    self.remaining = self.remaining - 1;
                    ReadyStep::RetryAfter(200)
                } else {
                    let mut m: Vec<char> = Vec::new();
                    push_str(&mut m, "TestUnitReady failed after 5 retries: ");
                    let t = e.to_text();
                    push_str(&mut m, t.as_str());
                    ReadyStep::Fail(RustLtfsError::Scsi(chars_to_string(&m)))
                }
            },
        }
    }
}

} // verus!
