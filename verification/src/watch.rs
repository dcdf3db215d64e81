//! The watch loop's decisions.
//!
//! The loop blocks on a change-notification channel with a heartbeat
//! timeout and a cooperative shutdown flag, checked once per wake-up.
//! This module decides, from the flag and the wake-up's event, what the
//! pass does; performing it (the file read, the emission, the status
//! write) is the caller's side. A heartbeat by itself never triggers a
//! file read, notification errors are non-fatal, and shutdown is only
//! ever observed between passes.

use vstd::prelude::*;

verus! {

/// What one wake-up of the watch loop observed.
pub enum WatchEvent {
    /// The watched file changed.
    Changed,
    /// The notification subsystem reported an error.
    WatchFailed(String),
    /// The heartbeat timeout elapsed with nothing to do.
    Heartbeat,
    /// The notification channel is gone.
    Disconnected,
}

/// What the loop does with the wake-up.
pub enum Directive {
    /// Read and process the file's new content, then record `running`.
    ProcessPass,
    /// Record an `error` status with the given message and keep running.
    RecordError(String),
    /// Do nothing and wait again.
    Idle,
    /// Leave the loop and record `stopped`.
    Shutdown,
}

/// Decides one wake-up: a cleared running flag always shuts down; a
/// change notification triggers a processing pass; a notification error
/// is recorded (prefixed as a watch error) without stopping; a heartbeat
/// does nothing; a lost channel shuts down.
pub fn next_directive(running: bool, event: WatchEvent) -> (r: Directive)
    ensures
        !running ==> r is Shutdown,
        running ==> match event {
            WatchEvent::Changed => r is ProcessPass,
            WatchEvent::WatchFailed(e) => r matches Directive::RecordError(m) && m@ == "Watch error: "@
                + e@,
            WatchEvent::Heartbeat => r is Idle,
            WatchEvent::Disconnected => r is Shutdown,
        },
{
    if !running {
        return Directive::Shutdown;
    }
    match event {
        WatchEvent::Changed => Directive::ProcessPass,
        WatchEvent::WatchFailed(e) => {
            let mut msg = String::new();
            msg.append("Watch error: ");
            msg.append(e.as_str());
            assert(msg@ =~= "Watch error: "@ + e@);
            Directive::RecordError(msg)
        },
        WatchEvent::Heartbeat => Directive::Idle,
        WatchEvent::Disconnected => Directive::Shutdown,
    }
}

} // verus!
