//! Choice of the input device to record from.

use vstd::prelude::*;
use crate::text::{chars_eq, chars_of};

verus! {

/// The device to record from, among the input devices by name: the first
/// one whose name is the configured one; `None` means the system default
/// (nothing configured, or the configured device is not there).
pub open spec fn device_choice(names: Seq<String>, wanted: Option<Seq<char>>, i: Option<int>) -> bool {
    match wanted {
        None => i is None,
        Some(w) => match i {
            Some(k) => 0 <= k < names.len() && names[k]@ == w && forall|j: int|
                0 <= j < k ==> (#[trigger] names[j])@ != w,
            None => forall|j: int| 0 <= j < names.len() ==> (#[trigger] names[j])@ != w,
        },
    }
}

/// Picks the input device: the configured one when a device of that name
/// exists, otherwise (`None`) the system default.
pub fn pick_input_device(names: &[String], wanted: Option<&str>) -> (r: Option<usize>)
    ensures
        device_choice(
            names@,
            match wanted {
                Some(w) => Some(w@),
                None => None,
            },
            match r {
                Some(k) => Some(k as int),
                None => None,
            },
        ),
{
    match wanted {
        None => None,
        Some(w) => {
            let wanted_chars = chars_of(w);
            let mut i: usize = 0;
            while i < names.len()
                invariant
                    i <= names.len(),
                    wanted_chars@ == w@,
                    wanted == Some(w),
                    forall|j: int| 0 <= j < i ==> (#[trigger] names@[j])@ != w@,
                decreases names.len() - i,
            {
                let name = chars_of(names[i].as_str());
                if chars_eq(&name, &wanted_chars) {
                    return Some(i);
                }
                i = i + 1;
            }
            None
        },
    }
}

} // verus!
