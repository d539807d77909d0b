//! The `trigger_snap_layouts` command exposed to the front end.

use vstd::prelude::*;
use vstd::string::*;
use crate::chord::{KeyEvent, snap_chord, snap_layout_chord};

verus! {

/// The operating system the shell was built for.
#[derive(Clone, Copy, Debug, PartialEq, Eq, Structural)]
pub enum Platform {
    /// Windows, where the chord is injected.
    Windows,
    /// Any other system, where the command does nothing.
    Other,
}

/// The message of the error returned when no event was queued.
pub open spec fn shortcut_failed() -> Seq<char> {
    "快捷键输入失败"@
}

/// A command reply with its error text viewed as characters.
pub open spec fn reply_view(r: Result<(), String>) -> Result<(), Seq<char>> {
    match r {
        Ok(()) => Ok(()),
        Err(e) => Err(e@),
    }
}

/// The reply owed once the injection facility has queued `accepted` events:
/// only a count of zero is a failure.
pub open spec fn reply_for(accepted: u32) -> Result<(), Seq<char>> {
    if accepted == 0 {
        Err(shortcut_failed())
    } else {
        Ok(())
    }
}

/// The reply of the command on `platform`, where `accepted` is what the
/// injection facility reported (not consulted off Windows).
pub open spec fn command_reply(platform: Platform, accepted: u32) -> Result<(), Seq<char>> {
    match platform {
        Platform::Windows => reply_for(accepted),
        Platform::Other => Ok(()),
    }
}

/// Turns the number of events the injection facility queued into the
/// command's reply.
pub fn snap_result(accepted: u32) -> (r: Result<(), String>)
    ensures
        reply_view(r) == reply_for(accepted),
{
    if accepted == 0 {
        Err("快捷键输入失败".to_string())
    } else {
        Ok(())
    }
}

/// Runs the command. On Windows the chord is handed to `inject`, which
/// submits it in one batch and returns how many events were queued; on any
/// other platform `inject` is not called and the command succeeds.
pub fn trigger_snap_layouts<F: FnOnce(Vec<KeyEvent>) -> u32>(platform: Platform, inject: F) -> (r:
    Result<(), String>)
    requires
        platform == Platform::Windows ==> forall|events: Vec<KeyEvent>|
            events@ == snap_chord() ==> #[trigger] call_requires(inject, (events,)),
    ensures
        platform == Platform::Other ==> r == Ok::<(), String>(()),
        platform == Platform::Windows ==> exists|events: Vec<KeyEvent>, accepted: u32|
            {
                &&& events@ == snap_chord()
                &&& call_ensures(inject, (events,), accepted)
                &&& reply_view(r) == command_reply(platform, accepted)
            },
{
    match platform {
        Platform::Windows => {
            let events = snap_layout_chord();
            let ghost sent = events;
            let accepted = inject(events);
            let r = snap_result(accepted);
            assert(call_ensures(inject, (sent,), accepted));
            r
        },
        Platform::Other => Ok(()),
    }
}

/// The command keeps no state between invocations: its reply depends on the
/// platform and on whether the injection queued anything, never on how often
/// or how many events it ran before.
pub proof fn lemma_reply_is_stateless(platform: Platform, accepted: u32, later: u32)
    requires
        (accepted == 0) == (later == 0),
    ensures
        command_reply(platform, accepted) == command_reply(platform, later),
        platform == Platform::Other ==> command_reply(platform, accepted) == Ok::<(), Seq<char>>(()),
{
}

} // verus!
