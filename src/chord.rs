//! The synthetic keyboard events that make up the Win+Z chord.

use vstd::prelude::*;

verus! {

/// Virtual-key code of the left Windows key.
pub const VK_LWIN: u16 = 0x5B;

/// Virtual-key code of the "Z" key.
pub const VK_Z: u16 = 0x5A;

/// Flag that marks a key event as a release.
pub const KEYEVENTF_KEYUP: u32 = 0x0002;

/// One keyboard transition, as handed to the input-injection facility.
#[derive(Clone, Copy, Debug, PartialEq, Eq, Structural)]
pub struct KeyEvent {
    pub key: u16,
    pub scan: u16,
    pub flags: u32,
    pub time: u32,
    pub extra_info: usize,
}

/// The event that presses `key`.
pub open spec fn key_down(key: u16) -> KeyEvent {
    KeyEvent { key, scan: 0, flags: 0, time: 0, extra_info: 0 }
}

/// The event that releases `key`.
pub open spec fn key_up(key: u16) -> KeyEvent {
    KeyEvent { key, scan: 0, flags: KEYEVENTF_KEYUP, time: 0, extra_info: 0 }
}

/// Win held, Z tapped, Win let go.
pub open spec fn snap_chord() -> Seq<KeyEvent> {
    seq![key_down(VK_LWIN), key_down(VK_Z), key_up(VK_Z), key_up(VK_LWIN)]
}

/// Whether `e` presses (`release == false`) or releases `key`, with every
/// other field zero.
pub open spec fn is_transition(e: KeyEvent, key: u16, release: bool) -> bool {
    &&& e.key == key
    &&& e.scan == 0
    &&& e.time == 0
    &&& e.extra_info == 0
    &&& e.flags == if release { KEYEVENTF_KEYUP } else { 0 }
}

/// Builds the press of `key`.
pub fn press(key: u16) -> (e: KeyEvent)
    ensures
        e == key_down(key),
{
    KeyEvent { key, scan: 0, flags: 0, time: 0, extra_info: 0 }
}

/// Builds the release of `key`.
pub fn release(key: u16) -> (e: KeyEvent)
    ensures
        e == key_up(key),
{
    KeyEvent { key, scan: 0, flags: KEYEVENTF_KEYUP, time: 0, extra_info: 0 }
}

/// The four events of the Win+Z chord, in the order they must be submitted.
pub fn snap_layout_chord() -> (events: Vec<KeyEvent>)
    ensures
        events@ == snap_chord(),
{
    let mut events: Vec<KeyEvent> = Vec::new();
    events.push(press(VK_LWIN));
    events.push(press(VK_Z));
    events.push(release(VK_Z));
    events.push(release(VK_LWIN));
    assert(events@ =~= snap_chord());
    events
}

/// The chord presses the Windows key, then presses and releases Z, then
/// releases the Windows key, so the Windows key is held for the whole tap
/// of Z.
pub proof fn lemma_chord_order()
    ensures
        snap_chord().len() == 4,
        is_transition(snap_chord()[0], VK_LWIN, false),
        is_transition(snap_chord()[1], VK_Z, false),
        is_transition(snap_chord()[2], VK_Z, true),
        is_transition(snap_chord()[3], VK_LWIN, true),
{
}

/// Every event of the chord has zero scan code, timestamp and extra
/// information; only the key (Windows or Z) and the release flag vary.
pub proof fn lemma_chord_fields()
    ensures
        forall|i: int|
            0 <= i < snap_chord().len() ==> {
                let e = #[trigger] snap_chord()[i];
                &&& e.scan == 0
                &&& e.time == 0
                &&& e.extra_info == 0
                &&& e.key == VK_LWIN || e.key == VK_Z
                &&& e.flags == 0 || e.flags == KEYEVENTF_KEYUP
            },
{
}

} // verus!
