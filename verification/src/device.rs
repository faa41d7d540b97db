//! Backlight device selection: pick one name from the enumerated candidates
//! by override, preference for the primary panel, or lexicographic order,
//! and build the device record once its maximum brightness is known.

use vstd::prelude::*;
use crate::errors::{AccessError, DeviceError};
use crate::names::{lex_le, lemma_lex_le_total, lemma_lex_le_trans, str_le};

verus! {

/// One backlight control point: its name under the backlight root and the
/// maximum brightness read once at selection time.
#[derive(Debug)]
pub struct Backlight {
    pub name: String,
    pub max_brightness: u32,
}

/// The device name preferred when no override is given: it commonly is the
/// primary panel rather than an external or keyboard backlight.
pub open spec fn preferred_name() -> Seq<char> {
    "intel_backlight"@
}

/// Whether some enumerated device bears this name.
pub open spec fn contains_name(devices: Seq<String>, name: Seq<char>) -> bool {
    exists|i: int| 0 <= i < devices.len() && devices[i]@ == name
}

impl Backlight {
    /// Builds the device record from its name and the result of reading its
    /// maximum brightness; a failed read becomes `DeviceInitError`.
    pub fn new(name: String, max_read: Result<u32, AccessError>) -> (r: Result<
        Backlight,
        DeviceError,
    >)
        ensures
            r is Ok <==> max_read is Ok,
            max_read matches Ok(m) ==> (r matches Ok(b) && b.name@ == name@ && b.max_brightness
                == m),
            max_read matches Err(e) ==> r == Err::<Backlight, DeviceError>(
                DeviceError::DeviceInitError(e),
            ),
    {
        match max_read {
            Ok(max_brightness) => Ok(Backlight { name, max_brightness }),
            Err(e) => Err(DeviceError::DeviceInitError(e)),
        }
    }
}

/// Picks the device name to use from the enumerated candidates: a given
/// override must be present; otherwise the preferred panel name wins if
/// present; otherwise the lexicographically smallest name, for determinism.
/// Selection succeeds exactly when the enumeration is nonempty and any
/// override is among the enumerated names.
pub fn discover_device(devices: &Vec<String>, device_override: Option<&String>) -> (r: Result<
    String,
    DeviceError,
>)
    ensures
        r is Ok <==> (devices@.len() > 0 && (device_override matches Some(p) ==> contains_name(
            devices@,
            p@,
        ))),
        (devices@.len() == 0) <==> r == Err::<String, DeviceError>(DeviceError::NoDevicesFound),
        (devices@.len() > 0 && (device_override matches Some(p) && !contains_name(
            devices@,
            p@,
        ))) <==> r == Err::<String, DeviceError>(DeviceError::RequestedDeviceNotFound),
        r matches Ok(name) ==> contains_name(devices@, name@),
        device_override matches Some(p) ==> (r matches Ok(name) ==> name@ == p@),
        device_override is None && contains_name(devices@, preferred_name()) ==> (r matches Ok(
            name,
        ) ==> name@ == preferred_name()),
        device_override is None && !contains_name(devices@, preferred_name()) ==> (r matches Ok(
            name,
        ) ==> forall|i: int| 0 <= i < devices@.len() ==> lex_le(name@, devices@[i]@)),
{
    if devices.len() == 0 {
        return Err(DeviceError::NoDevicesFound);
    }
    match device_override {
        Some(requested) => {
            let mut i: usize = 0;
            while i < devices.len()
                invariant
                    i <= devices@.len(),
                    devices@.len() > 0,
                    device_override == Some(requested),
                    forall|j: int| 0 <= j < i ==> devices@[j]@ != requested@,
                decreases devices@.len() - i,
            {
                if devices[i] == *requested {
                    return Ok(requested.clone());
                }
                i += 1;
            }
            Err(DeviceError::RequestedDeviceNotFound)
        },
        None => {
            let preferred: String = ("intel_backlight").to_owned();
            let mut i: usize = 0;
            while i < devices.len()
                invariant
                    i <= devices@.len(),
                    devices@.len() > 0,
                    device_override is None,
                    preferred@ == preferred_name(),
                    forall|j: int| 0 <= j < i ==> devices@[j]@ != preferred_name(),
                decreases devices@.len() - i,
            {
                if devices[i] == preferred {
                    return Ok(preferred);
                }
                i += 1;
            }
            let mut best: usize = 0;
            let mut k: usize = 1;
            proof {
                lemma_lex_le_total(devices@[0]@, devices@[0]@);
            }
            while k < devices.len()
                invariant
                    best < k <= devices@.len(),
                    devices@.len() > 0,
                    forall|j: int| 0 <= j < k ==> lex_le(devices@[best as int]@, devices@[j]@),
                decreases devices@.len() - k,
            {
                if str_le(devices[k].as_str(), devices[best].as_str()) {
                    proof {
                        assert forall|j: int| 0 <= j < k + 1 implies lex_le(
                            devices@[k as int]@,
                            devices@[j]@,
                        ) by {
                            if j < k {
                                lemma_lex_le_trans(
                                    devices@[k as int]@,
                                    devices@[best as int]@,
                                    devices@[j]@,
                                );
                            } else if j == k {
                                lemma_lex_le_total(devices@[k as int]@, devices@[k as int]@);
                            }
                        }
                    }
                    best = k;
                } else {
                    proof {
                        lemma_lex_le_total(devices@[k as int]@, devices@[best as int]@);
                    }
                }
                k += 1;
            }
            Ok(devices[best].clone())
        },
    }
}

} // verus!
