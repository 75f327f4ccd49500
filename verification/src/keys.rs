//! The synthetic keyboard events that a lane injects.

use crate::lanes::Lane;
use vstd::prelude::*;

verus! {

/// One synthetic keyboard event, as the injector is to send it.
#[derive(Clone, Copy, Debug, PartialEq, Eq, Structural)]
pub struct KeyEvent {
    /// The virtual-key code; 0 in an event that goes by scan code.
    pub vk: u16,
    /// The hardware scan code; 0 in an event that goes by virtual key.
    pub scan: u16,
    /// Whether the event names its key by scan code.
    pub by_scan_code: bool,
    /// Whether the key goes up; it goes down otherwise.
    pub key_up: bool,
}

/// The event that moves the key `vk`, named by its virtual-key code.
pub open spec fn vk_event_spec(vk: u16, down: bool) -> KeyEvent {
    KeyEvent { vk, scan: 0, by_scan_code: false, key_up: !down }
}

/// The event that moves a lane's key: by scan code where the lane has one,
/// by virtual key where it has none.
pub open spec fn lane_key_event_spec(lane: Lane, down: bool) -> KeyEvent {
    if lane.scan != 0 {
        KeyEvent { vk: 0, scan: lane.scan, by_scan_code: true, key_up: !down }
    } else {
        vk_event_spec(lane.vk, down)
    }
}

/// Makes the event that presses (`down`) or releases the key `vk`.
pub fn vk_event(vk: u16, down: bool) -> (ev: KeyEvent)
    ensures
        ev == vk_event_spec(vk, down),
        ev.vk == vk && ev.scan == 0 && !ev.by_scan_code,
        ev.key_up == !down,
{
    KeyEvent { vk, scan: 0, by_scan_code: false, key_up: !down }
}

/// Makes the event that presses (`down`) or releases the key of `lane`.
pub fn lane_key_event(lane: &Lane, down: bool) -> (ev: KeyEvent)
    ensures
        ev == lane_key_event_spec(*lane, down),
        ev.key_up == !down,
        ev.by_scan_code == (lane.scan != 0),
        ev.by_scan_code ==> ev.scan == lane.scan && ev.vk == 0,
        !ev.by_scan_code ==> ev == vk_event_spec(lane.vk, down),
{
    if lane.scan != 0 {
        KeyEvent { vk: 0, scan: lane.scan, by_scan_code: true, key_up: !down }
    } else {
        vk_event(lane.vk, down)
    }
}

} // verus!
