//! The message monitor: classify asynchronous notifications and fail fast.
//!
//! Media workers report status and errors exclusively through the graph's
//! notification channel, which marshals every event onto the control
//! thread. The monitor subscribes once at graph-construction time, holding
//! only a weak handle to the graph so the subscriber table and the graph do
//! not keep each other alive. On every notification the weak handle is
//! resolved first; once resolution fails the subscription is cancelled
//! permanently. Live notifications are classified: runtime errors (and
//! application "warning" messages carrying a text) terminate the process
//! with a diagnostic, state changes of the top-level graph and completed
//! asynchronous transitions yield best-effort topology snapshots, and
//! everything else is ignored. The monitor never mutates the graph.

use vstd::prelude::*;
use vstd::string::StringExecFns;
use crate::pipeline::LifecycleState;

verus! {

/// The content of an application message: a named structure with an
/// optional text field.
#[derive(Debug)]
pub struct AppStructure {
    pub name: String,
    pub text: Option<String>,
}

/// A notification delivered from the graph's channel, already marshalled
/// onto the control thread.
#[derive(Debug)]
pub enum Notification {
    /// A runtime error reported by a media worker.
    RuntimeError { src_path: Option<String>, message: String, debug: Option<String> },
    /// An application message, possibly carrying a structure.
    Application { structure: Option<AppStructure> },
    /// A state change, with whether its source is the top-level graph.
    StateChanged { from_top_level: bool, old_state: LifecycleState, new_state: LifecycleState },
    /// An asynchronous transition completed.
    AsyncDone,
    /// Anything else the channel carries.
    Other,
}

/// The reaction the monitor decides on for one live notification.
#[derive(Debug)]
pub enum Reaction {
    /// Fail fast: terminate the process, emitting this diagnostic.
    Terminate { diagnostic: String },
    /// Write a best-effort topology snapshot under this name; a failure to
    /// write is ignored.
    Snapshot { filename: String },
    /// Not the monitor's business.
    Ignore,
}

/// A notification as the channel delivers it: an application "warning"
/// structure always carries its text (a warning without text is a defect of
/// the sender, not an input this library accepts).
pub open spec fn wf_notification(n: Notification) -> bool {
    match n {
        Notification::Application { structure } => match structure {
            Some(s) => s.name@ == "warning"@ ==> s.text is Some,
            None => true,
        },
        _ => true,
    }
}

/// The diagnostic emitted for a runtime error: source path (or a marker for
/// an unknown source), message text, and the optional debug detail.
pub open spec fn spec_error_diagnostic(
    src_path: Option<Seq<char>>,
    message: Seq<char>,
    debug: Option<Seq<char>>,
) -> Seq<char> {
    "Error from "@ + (match src_path {
        Some(p) => p,
        None => "<unknown>"@,
    }) + ": "@ + message + (match debug {
        Some(d) => " ("@ + d + ")"@,
        None => Seq::<char>::empty(),
    })
}

/// The printed name of each lifecycle state.
pub open spec fn spec_state_name(s: LifecycleState) -> Seq<char> {
    match s {
        LifecycleState::Null => "Null"@,
        LifecycleState::Ready => "Ready"@,
        LifecycleState::Paused => "Paused"@,
        LifecycleState::Playing => "Playing"@,
    }
}

/// The snapshot name recorded when the top-level graph changes state.
pub open spec fn spec_state_snapshot_name(
    old_state: LifecycleState,
    new_state: LifecycleState,
) -> Seq<char> {
    "gst-wpe-broadcast-demo-"@ + spec_state_name(old_state) + "_to_"@ + spec_state_name(new_state)
}

/// The snapshot name recorded when an asynchronous transition completes.
pub open spec fn spec_async_done_snapshot_name() -> Seq<char> {
    "gst-wpe-broadcast-demo-async-done"@
}

/// What the classification owes for each notification: errors and
/// application warnings terminate with their diagnostic, top-level state
/// changes and async completions snapshot under their fixed names, and
/// everything else is ignored.
pub open spec fn spec_classified(n: Notification, r: Reaction) -> bool {
    match n {
        Notification::RuntimeError { src_path, message, debug } => {
            &&& r is Terminate
            &&& r->Terminate_diagnostic@ == spec_error_diagnostic(
                match src_path {
                    Some(p) => Some(p@),
                    None => None,
                },
                message@,
                match debug {
                    Some(d) => Some(d@),
                    None => None,
                },
            )
        },
        Notification::Application { structure } => match structure {
            Some(s) => if s.name@ == "warning"@ {
                &&& r is Terminate
                &&& s.text matches Some(t) && r->Terminate_diagnostic@ == t@
            } else {
                r is Ignore
            },
            None => r is Ignore,
        },
        Notification::StateChanged { from_top_level, old_state, new_state } => if from_top_level {
            &&& r is Snapshot
            &&& r->Snapshot_filename@ == spec_state_snapshot_name(old_state, new_state)
        } else {
            r is Ignore
        },
        Notification::AsyncDone => {
            &&& r is Snapshot
            &&& r->Snapshot_filename@ == spec_async_done_snapshot_name()
        },
        Notification::Other => r is Ignore,
    }
}

/// The printed name of one lifecycle state.
pub fn state_name(s: LifecycleState) -> (r: &'static str)
    ensures
        r@ == spec_state_name(s),
{
    match s {
        LifecycleState::Null => "Null",
        LifecycleState::Ready => "Ready",
        LifecycleState::Paused => "Paused",
        LifecycleState::Playing => "Playing",
    }
}

/// Classify one live notification and decide the reaction.
pub fn classify(n: &Notification) -> (r: Reaction)
    requires
        wf_notification(*n),
    ensures
        spec_classified(*n, r),
{
    match n {
        Notification::RuntimeError { src_path, message, debug } => {
            let mut d = String::new();
            d.append("Error from ");
            match src_path {
                Some(p) => d.append(p.as_str()),
                None => d.append("<unknown>"),
            }
            d.append(": ");
            d.append(message.as_str());
            match debug {
                Some(x) => {
                    d.append(" (");
                    d.append(x.as_str());
                    d.append(")");
                },
                None => {},
            }
            proof {
                assert(d@ =~= spec_error_diagnostic(
                    match *src_path {
                        Some(p) => Some(p@),
                        None => None,
                    },
                    message@,
                    match *debug {
                        Some(x) => Some(x@),
                        None => None,
                    },
                ));
            }
            Reaction::Terminate { diagnostic: d }
        },
        Notification::Application { structure } => match structure {
            Some(s) => {
                let warning = String::from_str("warning");
                if s.name == warning {
                    match &s.text {
                        Some(t) => Reaction::Terminate { diagnostic: t.clone() },
                        None => Reaction::Ignore,
                    }
                } else {
                    Reaction::Ignore
                }
            },
            None => Reaction::Ignore,
        },
        Notification::StateChanged { from_top_level, old_state, new_state } => {
            if *from_top_level {
                let mut f = String::new();
                f.append("gst-wpe-broadcast-demo-");
                f.append(state_name(*old_state));
                f.append("_to_");
                f.append(state_name(*new_state));
                proof {
                    assert(f@ =~= spec_state_snapshot_name(*old_state, *new_state));
                }
                Reaction::Snapshot { filename: f }
            } else {
                Reaction::Ignore
            }
        },
        Notification::AsyncDone => {
            Reaction::Snapshot { filename: String::from_str("gst-wpe-broadcast-demo-async-done") }
        },
        Notification::Other => Reaction::Ignore,
    }
}

/// What one dispatch produced: a reaction, or nothing because the owner is
/// gone and the subscription is (now) cancelled.
#[derive(Debug)]
pub enum MonitorOutcome {
    Reacted(Reaction),
    Disengaged,
}

/// The subscriber on the notification channel. It dispatches only while
/// `engaged`; the first failed resolution of the weak graph handle clears
/// `engaged` for good.
#[derive(Debug, Clone, Copy, PartialEq, Eq, Structural)]
pub struct MessageMonitor {
    pub engaged: bool,
}

impl MessageMonitor {
    /// Subscribe: the monitor starts engaged.
    pub fn new() -> (m: MessageMonitor)
        ensures
            m.engaged,
    {
        MessageMonitor { engaged: true }
    }

    /// Dispatch one notification. `owner_alive` is whether the weak graph
    /// handle still resolved to the live graph: if not — or if an earlier
    /// dispatch already found it gone — nothing is dispatched, and the
    /// subscription is permanently disengaged.
    pub fn handle(&mut self, owner_alive: bool, n: &Notification) -> (r: MonitorOutcome)
        requires
            wf_notification(*n),
        ensures
            final(self).engaged == (old(self).engaged && owner_alive),
            r is Reacted <==> old(self).engaged && owner_alive,
            old(self).engaged && owner_alive ==> (r matches MonitorOutcome::Reacted(x)
                && spec_classified(*n, x)),
            !(old(self).engaged && owner_alive) ==> r is Disengaged,
    {
        if !self.engaged {
            return MonitorOutcome::Disengaged;
        }
        if !owner_alive {
            self.engaged = false;
            return MonitorOutcome::Disengaged;
        }
        MonitorOutcome::Reacted(classify(n))
    }
}

/// The fail-fast diagnostic quotes its evidence: the offending source path
/// and the message text each stand verbatim, contiguously, inside the
/// diagnostic emitted for a runtime error.
pub proof fn lemma_error_diagnostic_contains(p: Seq<char>, m: Seq<char>, d: Option<Seq<char>>)
    ensures
        spec_error_diagnostic(Some(p), m, d).subrange(11, 11 + p.len() as int) =~= p,
        spec_error_diagnostic(Some(p), m, d).subrange(
            13 + p.len() as int,
            13 + p.len() + m.len() as int,
        ) =~= m,
{
    reveal_strlit("Error from ");
    reveal_strlit(": ");
    let diag = spec_error_diagnostic(Some(p), m, d);
    let head = "Error from "@ + p + ": "@ + m;
    assert(head.len() == 13 + p.len() + m.len());
    assert forall|i: int| 0 <= i < head.len() implies diag[i] == head[i] by {
        match d {
            Some(x) => assert(diag == head + (" ("@ + x + ")"@)),
            None => assert(diag =~= head),
        }
    }
}

/// Whether the monitor is still engaged after a run of dispatches whose
/// weak-handle resolutions came back as `alive` says, starting engaged.
pub open spec fn engaged_after(alive: Seq<bool>) -> bool
    decreases alive.len(),
{
    if alive.len() == 0 {
        true
    } else {
        engaged_after(alive.drop_last()) && alive.last()
    }
}

/// Once the owning handle is gone, the disengagement is permanent: after
/// any run of dispatches in which the handle failed to resolve even once,
/// the monitor is disengaged, so injecting further notifications produces
/// no dispatch.
pub proof fn lemma_release_is_permanent(alive: Seq<bool>, k: int)
    requires
        0 <= k < alive.len(),
        !alive[k],
    ensures
        !engaged_after(alive),
    decreases alive.len(),
{
    if k == alive.len() - 1 {
    } else {
        lemma_release_is_permanent(alive.drop_last(), k);
    }
}

} // verus!
