//! The events that drive the supervisor, and how raw notifications become events.

use vstd::prelude::*;

use crate::paths::{equal_paths, same_path};

verus! {

/// One unit of work for the coordinator. Events carry no payload: everything
/// needed to act on them is part of the configuration.
#[derive(Debug, Clone, Copy, PartialEq, Eq, Structural)]
pub enum Event {
    /// Ask the running child to shut down cooperatively, so that it is restarted.
    Signal,
    /// Something in the watched sources changed: run a build.
    Rebuild,
    /// Begin a graceful shutdown of the whole supervisor.
    Shutdown,
}

/// The operator signals that the supervisor listens for.
#[derive(Debug, Clone, Copy, PartialEq, Eq, Structural)]
pub enum SignalKind {
    HangUp,
    Interrupt,
    Terminate,
}

/// A hang-up asks for a restart of the child; interrupt and terminate ask the
/// supervisor itself to stop.
pub open spec fn event_of_signal(kind: SignalKind) -> Event {
    match kind {
        SignalKind::HangUp => Event::Signal,
        SignalKind::Interrupt => Event::Shutdown,
        SignalKind::Terminate => Event::Shutdown,
    }
}

/// The event that an operator signal received by the supervisor stands for.
pub fn event_for_signal(kind: SignalKind) -> (e: Event)
    ensures
        e == event_of_signal(kind),
{
    match kind {
        SignalKind::HangUp => Event::Signal,
        SignalKind::Interrupt => Event::Shutdown,
        SignalKind::Terminate => Event::Shutdown,
    }
}

/// What a changed path means. A path that could not be made canonical (it may
/// have been removed in the meantime) means nothing; the artifact itself means
/// that a fresh binary is in place and the child should restart; anything else
/// is a change to the sources that calls for a build.
pub open spec fn event_of_change(canonical: Option<Seq<char>>, artifact: Seq<char>) -> Option<Event> {
    match canonical {
        None => None,
        Some(p) => if equal_paths(p, artifact) {
            Some(Event::Signal)
        } else {
            Some(Event::Rebuild)
        },
    }
}

/// Classifies one changed path, given in canonical form where that could be had.
pub fn event_for_change(canonical: &Option<String>, artifact: &str) -> (e: Option<Event>)
    ensures
        e == event_of_change(optional_path(*canonical), artifact@),
{
    match canonical {
        None => None,
        Some(p) => if same_path(p.as_str(), artifact) {
            Some(Event::Signal)
        } else {
            Some(Event::Rebuild)
        },
    }
}

/// The events that one notification naming `paths` produces, in order.
pub open spec fn events_of_changes(paths: Seq<Option<Seq<char>>>, artifact: Seq<char>) -> Seq<Event>
    decreases paths.len(),
{
    if paths.len() == 0 {
        seq![]
    } else {
        let rest = events_of_changes(paths.drop_last(), artifact);
        match event_of_change(paths.last(), artifact) {
            Some(e) => rest.push(e),
            None => rest,
        }
    }
}

/// The view of an optional path.
pub open spec fn optional_path(p: Option<String>) -> Option<Seq<char>> {
    match p {
        Some(s) => Some(s@),
        None => None,
    }
}

/// The view of a list of optional paths.
pub open spec fn optional_paths(paths: Seq<Option<String>>) -> Seq<Option<Seq<char>>> {
    paths.map_values(|p: Option<String>| optional_path(p))
}

/// Classifies every path of one filesystem notification.
pub fn events_for_changes(paths: &Vec<Option<String>>, artifact: &str) -> (es: Vec<Event>)
    ensures
        es@ == events_of_changes(optional_paths(paths@), artifact@),
{
    let mut es: Vec<Event> = Vec::new();
    let mut i: usize = 0;
    while i < paths.len()
        invariant
            i <= paths@.len(),
            es@ == events_of_changes(optional_paths(paths@.take(i as int)), artifact@),
        decreases paths@.len() - i,
    {
        let e = event_for_change(&paths[i], artifact);
        proof {
            let next = optional_paths(paths@.take(i + 1));
            assert(next.drop_last() =~= optional_paths(paths@.take(i as int)));
            assert(next.last() == optional_path(paths@[i as int]));
        }
        match e {
            Some(ev) => es.push(ev),
            None => {},
        }
        i = i + 1;
    }
    assert(paths@.take(paths@.len() as int) =~= paths@);
    es
}

/// A change whose canonical path is the artifact path always yields a restart
/// signal and never a build, wherever it stands in the notification: the
/// classification does not depend on which watch path reported it.
pub proof fn lemma_artifact_change_signals(
    earlier: Seq<Option<Seq<char>>>,
    canonical: Seq<char>,
    artifact: Seq<char>,
)
    requires
        canonical == artifact,
    ensures
        event_of_change(Some(canonical), artifact) == Some(Event::Signal),
        events_of_changes(earlier.push(Some(canonical)), artifact) == events_of_changes(
            earlier,
            artifact,
        ).push(Event::Signal),
{
    assert(earlier.push(Some(canonical)).drop_last() =~= earlier);
}

} // verus!
