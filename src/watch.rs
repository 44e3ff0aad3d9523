//! Classification of file-change notifications and the watcher's decision
//! for each of them.

use vstd::prelude::*;

verus! {

/// How a file was accessed.
#[derive(Clone, Copy, Debug, PartialEq, Eq, Structural)]
pub enum AccessMode {
    Any,
    Execute,
    Read,
    Write,
    Other,
}

/// What kind of access a notification reports.
#[derive(Clone, Copy, Debug, PartialEq, Eq, Structural)]
pub enum AccessKind {
    Any,
    Read,
    Open(AccessMode),
    Close(AccessMode),
    Other,
}

/// The kind of a change notification for the watched artifact.
#[derive(Clone, Copy, Debug, PartialEq, Eq, Structural)]
pub enum ChangeKind {
    Any,
    Access(AccessKind),
    Create,
    Modify,
    Remove,
    Other,
}

/// What the notification channel delivers: a change, or a failure of the
/// watching subsystem itself.
#[derive(Clone, Copy, Debug, PartialEq, Eq, Structural)]
pub enum WatchSignal {
    Change(ChangeKind),
    Failure,
}

/// What the watcher does in answer to a signal.
#[derive(Clone, Copy, Debug, PartialEq, Eq, Structural)]
pub enum Directive {
    /// Leave the current generation as it is.
    Ignore,
    /// Load the artifact again and swap in a new generation.
    Reload,
    /// Staleness can no longer be detected: stop the process.
    Terminate,
}

/// A writer closed the artifact after modifying it.
pub open spec fn write_complete(k: ChangeKind) -> bool {
    k == ChangeKind::Access(AccessKind::Close(AccessMode::Write))
}

/// The watcher's answer to a signal.
pub open spec fn directive_for(s: WatchSignal) -> Directive {
    match s {
        WatchSignal::Failure => Directive::Terminate,
        WatchSignal::Change(k) => if write_complete(k) {
            Directive::Reload
        } else {
            Directive::Ignore
        },
    }
}

impl ChangeKind {
    /// Whether this notification reports a completed write.
    pub fn is_write_complete(&self) -> (r: bool)
        ensures
            r == write_complete(*self),
    {
        match self {
            ChangeKind::Access(AccessKind::Close(AccessMode::Write)) => true,
            _ => false,
        }
    }
}

/// Decides what the watcher does with one signal: only a completed write
/// reloads, a failure of the channel terminates, anything else is ignored.
pub fn decide(s: &WatchSignal) -> (r: Directive)
    ensures
        r == directive_for(*s),
        r == Directive::Reload <==> (s matches WatchSignal::Change(k) && write_complete(*k)),
        r == Directive::Terminate <==> *s == WatchSignal::Failure,
{
    match s {
        WatchSignal::Failure => Directive::Terminate,
        WatchSignal::Change(k) => if k.is_write_complete() {
            Directive::Reload
        } else {
            Directive::Ignore
        },
    }
}

} // verus!
