//! Finding the card reader's device node in the kernel's input device list.
use vstd::prelude::*;

verus! {

use crate::text::{before, segment_after, text_before, text_segment_after};

/// The event handler number of the first HID device in the device list: after
/// the device marker, the `Handlers=` line, and in it the word after `event`.
pub open spec fn handler_number(devices: Seq<char>) -> Option<Seq<char>> {
    match segment_after(devices, "HID"@) {
        None => None,
        Some(a) => match segment_after(a, "Handlers="@) {
            None => None,
            Some(b) => match segment_after(before(b, "\n"@), "event"@) {
                None => None,
                Some(c) => Some(before(c, " "@)),
            },
        },
    }
}

/// The device node of the card reader, from the text of the input device
/// list; nothing when no HID device with an event handler is listed.
pub fn device_path(devices: &str) -> (r: Option<String>)
    ensures
        r matches Some(p) ==> handler_number(devices@) matches Some(n) && p@ == "/dev/input/event"@
            + n,
        r is None ==> handler_number(devices@) is None,
{
    let a = match text_segment_after(devices, "HID") {
        Some(a) => a,
        None => return None,
    };
    let b = match text_segment_after(a.as_str(), "Handlers=") {
        Some(b) => b,
        None => return None,
    };
    let line = text_before(b.as_str(), "\n");
    let c = match text_segment_after(line.as_str(), "event") {
        Some(c) => c,
        None => return None,
    };
    let number = text_before(c.as_str(), " ");
    let mut path = String::from_str("/dev/input/event");
    path.append(number.as_str());
    Some(path)
}

} // verus!
