//! The lifetime of one generation of listeners.
//!
//! A DHCPv4 listener must run until its generation is cancelled, so every earlier exit is reported
//! and the loss of the last one fails the generation. A DHCPv6 listener may be unavailable, and its
//! exit does not stop healthy DHCPv4 service.

#[allow(unused_imports)]
use crate::errors::{lemma_told_alike, told_alike};
use vstd::prelude::*;
use vstd::string::StringExecFns;

verus! {

/// Records why a DHCPv4 listener violated the generation-lifetime invariant.
#[derive(Debug)]
pub enum V4ListenerFailure {
    /// The listener returned before its generation was cancelled.
    Returned,
    /// The listener task panicked or was otherwise cancelled unexpectedly.
    Join(String),
}

/// How a listener's failure is told.
pub open spec fn failure_text(failure: V4ListenerFailure) -> Seq<char> {
    match failure {
        V4ListenerFailure::Returned => "listener returned before generation cancellation"@,
        V4ListenerFailure::Join(error) => "listener task failed: "@ + error@,
    }
}

/// A task that failed tells why, in full and behind words that do not depend on it.
pub proof fn law_failed_tasks_tell_why(left: String, right: String)
    ensures
        told_alike(
            failure_text(V4ListenerFailure::Join(left)),
            left@,
            failure_text(V4ListenerFailure::Join(right)),
            right@,
        ),
{
    lemma_told_alike("listener task failed: "@, left@, right@);
}

impl V4ListenerFailure {
    /// How this failure is told.
    pub fn message(&self) -> (text: String)
        ensures
            text@ == failure_text(*self),
    {
        match self {
            V4ListenerFailure::Returned => {
                "listener returned before generation cancellation".to_owned()
            },
            V4ListenerFailure::Join(error) => {
                "listener task failed: ".to_owned().concat(error.as_str())
            },
        }
    }
}

/// Something that happened to a generation of listeners.
#[derive(Debug)]
pub enum ListenerEvent {
    /// The generation was cancelled.
    Cancelled,
    /// A DHCPv4 listener exited; `cancelled` tells whether the generation was cancelled by then.
    V4Exited { failure: V4ListenerFailure, cancelled: bool },
    /// A DHCPv6 listener exited, with an error if its task failed.
    V6Exited { error: Option<String> },
}

/// What to do about it.
#[derive(Debug)]
pub enum SupervisorAction {
    /// Nothing, or nothing more than a warning where there is an error.
    Continue { v6_error: Option<String> },
    /// Report the exit and let the other DHCPv4 listeners run.
    ReportV4 { failure: V4ListenerFailure, remaining: usize },
    /// Wait for the listeners to end, and end without an error.
    Stop,
    /// Cancel the generation, end every listener, and fail with this failure.
    Fail { failure: V4ListenerFailure },
}

/// How a generation stands.
pub enum Standing {
    Running { v4: nat },
    Stopped,
    Failed,
}

/// How a generation with `v4` DHCPv4 listeners stands before anything happens.
pub open spec fn started(v4: nat) -> Standing {
    if v4 == 0 {
        Standing::Stopped
    } else {
        Standing::Running { v4 }
    }
}

/// How a generation stands after an event.
pub open spec fn after(standing: Standing, event: ListenerEvent) -> Standing {
    match standing {
        Standing::Running { v4 } => match event {
            ListenerEvent::Cancelled => Standing::Stopped,
            ListenerEvent::V4Exited { cancelled, .. } => if cancelled {
                Standing::Stopped
            } else if v4 > 1 {
                Standing::Running { v4: (v4 - 1) as nat }
            } else {
                Standing::Failed
            },
            ListenerEvent::V6Exited { .. } => standing,
        },
        _ => standing,
    }
}

/// How a generation stands after events.
pub open spec fn after_all(standing: Standing, events: Seq<ListenerEvent>) -> Standing
    decreases events.len(),
{
    if events.len() == 0 {
        standing
    } else {
        after(after_all(standing, events.drop_last()), events.last())
    }
}

/// Whether a generation of `v4` DHCPv4 listeners has anything to supervise.
pub fn needs_supervision(v4: usize) -> (needed: bool)
    ensures
        needed == (started(v4 as nat) is Running),
{
    v4 != 0
}

/// Decide what follows from an event while `v4` DHCPv4 listeners run.
pub fn supervise_step(v4: usize, event: ListenerEvent) -> (action: SupervisorAction)
    requires
        v4 > 0,
    ensures
        ({
            let next = after(Standing::Running { v4: v4 as nat }, event);
            match event {
                ListenerEvent::V6Exited { error } => action == (SupervisorAction::Continue {
                    v6_error: error,
                }),
                ListenerEvent::Cancelled => action is Stop && next is Stopped,
                ListenerEvent::V4Exited { failure, .. } => match next {
                    Standing::Stopped => action is Stop,
                    Standing::Failed => action == (SupervisorAction::Fail { failure }),
                    Standing::Running { v4: remaining } => {
                        &&& action matches SupervisorAction::ReportV4 {
                            failure: reported,
                            remaining: left,
                        }
                        &&& reported == failure
                        &&& left == remaining
                    },
                },
            }
        }),
{
    match event {
        ListenerEvent::Cancelled => SupervisorAction::Stop,
        ListenerEvent::V4Exited { failure, cancelled } => {
            // Cancellation is clean even when a listener exits at the same time.
            if cancelled {
                SupervisorAction::Stop
            } else if v4 > 1 {
                SupervisorAction::ReportV4 { failure, remaining: v4 - 1 }
            } else {
                SupervisorAction::Fail { failure }
            }
        },
        ListenerEvent::V6Exited { error } => SupervisorAction::Continue { v6_error: error },
    }
}

/// How many DHCPv4 listeners exited before the generation was cancelled.
pub open spec fn v4_exits(events: Seq<ListenerEvent>) -> nat
    decreases events.len(),
{
    if events.len() == 0 {
        0
    } else {
        v4_exits(events.drop_last()) + if events.last() is V4Exited {
            1nat
        } else {
            0
        }
    }
}

/// Whether no event tells of a cancellation.
pub open spec fn uncancelled(events: Seq<ListenerEvent>) -> bool {
    forall|i: int|
        0 <= i < events.len() ==> match #[trigger] events[i] {
            ListenerEvent::Cancelled => false,
            ListenerEvent::V4Exited { cancelled, .. } => !cancelled,
            ListenerEvent::V6Exited { .. } => true,
        }
}

/// Without a cancellation a generation runs on as long as one DHCPv4 listener is left, whatever the
/// DHCPv6 listeners do, and fails with the exit of the last one.
pub proof fn law_generation_lives_with_its_v4_listeners(v4: nat, events: Seq<ListenerEvent>)
    requires
        v4 > 0,
        uncancelled(events),
    ensures
        after_all(started(v4), events) == (if v4_exits(events) < v4 {
            Standing::Running { v4: (v4 - v4_exits(events)) as nat }
        } else {
            Standing::Failed
        }),
    decreases events.len(),
{
    if events.len() != 0 {
        let front = events.drop_last();
        assert forall|i: int| 0 <= i < front.len() implies match #[trigger] front[i] {
            ListenerEvent::Cancelled => false,
            ListenerEvent::V4Exited { cancelled, .. } => !cancelled,
            ListenerEvent::V6Exited { .. } => true,
        } by {
            assert(front[i] == events[i]);
        }
        law_generation_lives_with_its_v4_listeners(v4, front);
        assert(events.last() == events[events.len() - 1]);
    }
}

/// A generation that still runs when it is cancelled stops without an error.
pub proof fn law_cancellation_is_clean(v4: nat, events: Seq<ListenerEvent>)
    requires
        after_all(started(v4), events) is Running,
    ensures
        after_all(started(v4), events.push(ListenerEvent::Cancelled)) is Stopped,
{
    assert(events.push(ListenerEvent::Cancelled).drop_last() == events);
}

/// A generation that has ended stays ended in the same way.
pub proof fn law_an_end_is_final(standing: Standing, events: Seq<ListenerEvent>)
    requires
        !(standing is Running),
    ensures
        after_all(standing, events) == standing,
    decreases events.len(),
{
    if events.len() != 0 {
        law_an_end_is_final(standing, events.drop_last());
    }
}

/// A generation without DHCPv4 listeners has nothing to supervise. In any other, an exit that comes
/// with the cancellation ends it cleanly, an exit of a DHCPv6 listener changes nothing, and an exit
/// of a DHCPv4 listener takes one away and fails the generation with the last.
pub proof fn law_listeners_leave_one_by_one(v4: nat, event: ListenerEvent)
    ensures
        started(v4) is Running <==> v4 > 0,
        v4 == 0 ==> started(v4) is Stopped,
        v4 > 0 ==> {
            let next = after(started(v4), event);
            match event {
                ListenerEvent::Cancelled => next is Stopped,
                ListenerEvent::V6Exited { .. } => next == Standing::Running { v4 },
                ListenerEvent::V4Exited { cancelled, .. } => {
                    &&& cancelled ==> next is Stopped
                    &&& !cancelled && v4 == 1 ==> next is Failed
                    &&& !cancelled && v4 > 1 ==> next == Standing::Running { v4: (v4 - 1) as nat }
                },
            }
        },
{
}

} // verus!
