//! The recording session: one flag, opened by a hotkey press and closed by its release,
//! each effective edge dispatching exactly one command.

use vstd::prelude::*;
use crate::protocol::Command;

verus! {

/// A discrete signal from the hotkey.
#[derive(Clone, Copy, Debug, PartialEq, Eq, Structural)]
pub enum Edge {
    Press,
    Release,
}

/// Whether a recording session is open.
pub struct RecordingSession {
    active: bool,
}

impl View for RecordingSession {
    type V = bool;

    closed spec fn view(&self) -> bool {
        self.active
    }
}

/// The flag after `edge`: a press opens the session, a release closes it.
pub open spec fn after_edge(active: bool, edge: Edge) -> bool {
    match edge {
        Edge::Press => true,
        Edge::Release => false,
    }
}

/// Whether `edge` changes the flag; an edge that does not is absorbed.
pub open spec fn is_effective(active: bool, edge: Edge) -> bool {
    match edge {
        Edge::Press => !active,
        Edge::Release => active,
    }
}

/// What `edge` dispatches from a session in state `active`.
pub open spec fn edge_command(active: bool, edge: Edge) -> Option<Command> {
    if !is_effective(active, edge) {
        None
    } else {
        match edge {
            Edge::Press => Some(Command::StartRecording),
            Edge::Release => Some(Command::StopAndTranscribe),
        }
    }
}

/// The flag after `edges`, from `start`.
pub open spec fn run_edges(start: bool, edges: Seq<Edge>) -> bool
    decreases edges.len(),
{
    if edges.len() == 0 {
        start
    } else {
        after_edge(run_edges(start, edges.drop_last()), edges.last())
    }
}

/// The number of effective presses among `edges`, from `start`.
pub open spec fn effective_presses(start: bool, edges: Seq<Edge>) -> nat
    decreases edges.len(),
{
    if edges.len() == 0 {
        0
    } else {
        let before = run_edges(start, edges.drop_last());
        effective_presses(start, edges.drop_last()) + if edges.last() == Edge::Press && is_effective(
            before,
            edges.last(),
        ) {
            1nat
        } else {
            0nat
        }
    }
}

/// The number of effective releases among `edges`, from `start`.
pub open spec fn effective_releases(start: bool, edges: Seq<Edge>) -> nat
    decreases edges.len(),
{
    if edges.len() == 0 {
        0
    } else {
        let before = run_edges(start, edges.drop_last());
        effective_releases(start, edges.drop_last()) + if edges.last() == Edge::Release
            && is_effective(before, edges.last()) {
            1nat
        } else {
            0nat
        }
    }
}

/// The commands that `edges` dispatch, in order, from `start`.
pub open spec fn edge_commands(start: bool, edges: Seq<Edge>) -> Seq<Command>
    decreases edges.len(),
{
    if edges.len() == 0 {
        Seq::empty()
    } else {
        let before = run_edges(start, edges.drop_last());
        let prior = edge_commands(start, edges.drop_last());
        match edge_command(before, edges.last()) {
            Some(c) => prior.push(c),
            None => prior,
        }
    }
}

/// From an idle session, after any sequence of edges, effective presses lead effective
/// releases by at most one, and the session is open exactly when they lead by one.
/// Absorbed edges dispatch nothing, so the dispatched commands alternate, starting
/// with `start_recording`, one per effective edge.
pub proof fn lemma_edge_sequence(edges: Seq<Edge>)
    ensures
        effective_releases(false, edges) <= effective_presses(false, edges)
            <= effective_releases(false, edges) + 1,
        run_edges(false, edges) <==> effective_presses(false, edges) == effective_releases(
            false,
            edges,
        ) + 1,
        edge_commands(false, edges).len() == effective_presses(false, edges) + effective_releases(
            false,
            edges,
        ),
        forall|i: int|
            0 <= i < edge_commands(false, edges).len() ==> #[trigger] edge_commands(false, edges)[i]
                == if i % 2 == 0 {
                Command::StartRecording
            } else {
                Command::StopAndTranscribe
            },
    decreases edges.len(),
{
    if edges.len() > 0 {
        let prior = edges.drop_last();
        lemma_edge_sequence(prior);
        let cs = edge_commands(false, edges);
        let pcs = edge_commands(false, prior);
        assert forall|i: int| 0 <= i < cs.len() implies #[trigger] cs[i] == if i % 2 == 0 {
            Command::StartRecording
        } else {
            Command::StopAndTranscribe
        } by {
            if i < pcs.len() {
                assert(cs[i] == pcs[i]);
            }
        }
    }
}

impl RecordingSession {
    /// An idle session.
    pub fn new() -> (r: Self)
        ensures
            r@ == false,
    {
        RecordingSession { active: false }
    }

    pub fn is_active(&self) -> (r: bool)
        ensures
            r == self@,
    {
        self.active
    }

    /// A hotkey press: opens an idle session and asks for `start_recording`;
    /// a press while already open is absorbed.
    pub fn press(&mut self) -> (r: Option<Command>)
        ensures
            final(self)@ == true,
            r == edge_command(old(self)@, Edge::Press),
    {
        if self.active {
            None
        } else {
            self.active = true;
            Some(Command::StartRecording)
        }
    }

    /// A hotkey release: closes an open session and asks for `stop_and_transcribe`;
    /// a release while idle is absorbed.
    pub fn release(&mut self) -> (r: Option<Command>)
        ensures
            final(self)@ == false,
            r == edge_command(old(self)@, Edge::Release),
    {
        if self.active {
            self.active = false;
            Some(Command::StopAndTranscribe)
        } else {
            None
        }
    }

    /// One hotkey edge.
    pub fn on_edge(&mut self, edge: Edge) -> (r: Option<Command>)
        ensures
            final(self)@ == after_edge(old(self)@, edge),
            r == edge_command(old(self)@, edge),
    {
        match edge {
            Edge::Press => self.press(),
            Edge::Release => self.release(),
        }
    }

    /// A start asked for from the UI: the session is open, whatever it was.
    pub fn start(&mut self) -> (r: Command)
        ensures
            final(self)@ == true,
            r == Command::StartRecording,
    {
        self.active = true;
        Command::StartRecording
    }

    /// A stop asked for from the UI: the session is closed, whatever it was.
    pub fn stop(&mut self) -> (r: Command)
        ensures
            final(self)@ == false,
            r == Command::StopAndTranscribe,
    {
        self.active = false;
        Command::StopAndTranscribe
    }

    /// A cancel: the session is closed, whatever it was.
    pub fn cancel(&mut self) -> (r: Command)
        ensures
            final(self)@ == false,
            r == Command::CancelCurrent,
    {
        self.active = false;
        Command::CancelCurrent
    }

    /// The worker went away: the session is closed.
    pub fn reset(&mut self)
        ensures
            final(self)@ == false,
    {
        self.active = false;
    }
}

} // verus!
