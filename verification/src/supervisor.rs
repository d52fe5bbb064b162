//! The supervisor state machine.
//!
//! One run of the utility performs exactly one spawn attempt and then
//! polls the desktop: first through a bounded grace period that gives the
//! application time to present a window, then through an unbounded
//! monitoring phase that lasts while an application window exists. Each
//! poll also decides which console window, if any, to hide. The binary
//! drives the loop (enumerate, hide, sleep); every decision is made here.

use vstd::prelude::*;
use crate::scan::{console_present, console_title, console_window_index, is_target_running,
    target_running};

verus! {

/// The phases of one run. `Starting` precedes the single spawn attempt;
/// `Done` and `Failed` are terminal. No phase ever leads back to
/// `Starting`: each run spawns at most once (see [`lemma_single_spawn`]).
#[derive(Clone, Copy, PartialEq, Eq, Structural, Debug)]
pub enum Phase {
    Starting,
    GraceWait,
    Monitoring,
    Done,
    Failed,
}

/// How long the loop pauses after a poll, in milliseconds: the grace
/// period polls on a fixed cadence; monitoring polls continuously so that
/// a console window is hidden as soon as it appears.
pub const GRACE_SLEEP_MS: u64 = 20;

/// The supervisor's whole state: its phase and the progress of the grace
/// period. `grace_cap` is the bound on grace-period polls, fixed at
/// construction; `grace_polls` counts the polls taken during `GraceWait`.
#[derive(Clone, Copy, PartialEq, Eq, Structural, Debug)]
pub struct Supervisor {
    pub phase: Phase,
    pub grace_polls: u64,
    pub grace_cap: u64,
}

impl Supervisor {
    /// Well-formedness: no polls are counted before the spawn attempt, the
    /// poll count never passes the cap, and while the grace period is
    /// waiting there is still a poll left to take.
    pub open spec fn wf(self) -> bool {
        &&& self.phase is Starting ==> self.grace_polls == 0
        &&& self.grace_polls <= self.grace_cap
        &&& self.phase is GraceWait ==> self.grace_polls < self.grace_cap
    }

    /// A fresh supervisor, ready for its single spawn attempt, with the
    /// given bound on grace-period polls.
    pub fn new(grace_cap: u64) -> (s: Supervisor)
        ensures
            s.wf(),
            s.phase is Starting,
            s.grace_polls == 0,
            s.grace_cap == grace_cap,
    {
        Supervisor { phase: Phase::Starting, grace_polls: 0, grace_cap }
    }

    /// Where the spawn outcome sends the machine: success enters the grace
    /// period (or goes straight to monitoring when no grace polls are
    /// allowed); failure is terminal.
    pub open spec fn spawn_step(self, ok: bool) -> Supervisor {
        if ok {
            if self.grace_cap == 0 {
                Supervisor { phase: Phase::Monitoring, ..self }
            } else {
                Supervisor { phase: Phase::GraceWait, ..self }
            }
        } else {
            Supervisor { phase: Phase::Failed, ..self }
        }
    }

    /// Where one poll outcome sends the machine. During the grace period a
    /// sighting of the application ends the wait early; otherwise the poll
    /// is counted and the wait ends exactly when the cap is reached. During
    /// monitoring the machine stays put until the application's windows are
    /// gone, which is terminal. The terminal phases never move.
    pub open spec fn poll_transition(self, running: bool) -> Supervisor {
        match self.phase {
            Phase::GraceWait => {
                if running {
                    Supervisor { phase: Phase::Monitoring, grace_polls: (self.grace_polls + 1) as u64, ..self }
                } else if self.grace_polls + 1 == self.grace_cap {
                    Supervisor { phase: Phase::Monitoring, grace_polls: self.grace_cap, ..self }
                } else {
                    Supervisor { grace_polls: (self.grace_polls + 1) as u64, ..self }
                }
            },
            Phase::Monitoring => {
                if running {
                    self
                } else {
                    Supervisor { phase: Phase::Done, ..self }
                }
            },
            _ => self,
        }
    }

    /// Records the outcome of the single spawn attempt.
    pub fn on_spawn(&mut self, ok: bool)
        requires
            old(self).wf(),
            old(self).phase is Starting,
        ensures
            final(self).wf(),
            *final(self) == old(self).spawn_step(ok),
    {
        if ok {
            if self.grace_cap == 0 {
                self.phase = Phase::Monitoring;
            } else {
                self.phase = Phase::GraceWait;
            }
        } else {
            self.phase = Phase::Failed;
        }
    }

    /// Records the outcome of one liveness poll.
    pub fn on_poll(&mut self, running: bool)
        requires
            old(self).wf(),
            old(self).phase is GraceWait || old(self).phase is Monitoring,
        ensures
            final(self).wf(),
            *final(self) == old(self).poll_transition(running),
    {
        match self.phase {
            Phase::GraceWait => {
                if running {
                    self.phase = Phase::Monitoring;
                    self.grace_polls = self.grace_polls + 1;
                } else if self.grace_polls + 1 == self.grace_cap {
                    self.grace_polls = self.grace_cap;
                    self.phase = Phase::Monitoring;
                } else {
                    self.grace_polls = self.grace_polls + 1;
                }
            },
            Phase::Monitoring => {
                if !running {
                    self.phase = Phase::Done;
                }
            },
            _ => {},
        }
    }

    /// The machine still wants polls: it is in a non-terminal polling
    /// phase. The loop in the binary runs while this holds.
    pub fn is_active(&self) -> (r: bool)
        ensures
            r == (self.phase is GraceWait || self.phase is Monitoring),
    {
        match self.phase {
            Phase::GraceWait => true,
            Phase::Monitoring => true,
            _ => false,
        }
    }

    /// How long to pause before the next poll.
    pub fn sleep_ms(&self) -> (r: u64)
        ensures
            self.phase is GraceWait ==> r == GRACE_SLEEP_MS,
            !(self.phase is GraceWait) ==> r == 0,
    {
        match self.phase {
            Phase::GraceWait => GRACE_SLEEP_MS,
            _ => 0,
        }
    }

    /// One body of the supervisor loop, over one snapshot of the desktop's
    /// window titles: picks the console window to hide (the suppression
    /// decision) and advances the machine by the liveness of the snapshot.
    /// The returned index is `Some` exactly when the snapshot holds the
    /// console title, so one hide command is issued per matching snapshot
    /// and none otherwise.
    pub fn poll_step(&mut self, titles: &Vec<String>) -> (hide_at: Option<usize>)
        requires
            old(self).wf(),
            old(self).phase is GraceWait || old(self).phase is Monitoring,
        ensures
            final(self).wf(),
            *final(self) == old(self).poll_transition(target_running(titles@)),
            match hide_at {
                Some(i) => {
                    &&& i < titles@.len()
                    &&& titles@[i as int]@ == console_title()
                    &&& forall|k: int| 0 <= k < i ==> titles@[k]@ != console_title()
                },
                None => !console_present(titles@),
            },
    {
        let hide_at = console_window_index(titles);
        let running = is_target_running(titles);
        self.on_poll(running);
        hide_at
    }
}

/// The machine after a whole sequence of polls, each described by whether
/// the application was running when the poll looked.
pub open spec fn run_polls(s: Supervisor, polls: Seq<bool>) -> Supervisor
    decreases polls.len(),
{
    if polls.len() == 0 {
        s
    } else {
        run_polls(s.poll_transition(polls[0]), polls.drop_first())
    }
}

/// A poll sequence can be peeled from the back as well as from the front.
proof fn lemma_run_polls_snoc(s: Supervisor, polls: Seq<bool>)
    requires
        polls.len() >= 1,
    ensures
        run_polls(s, polls) == run_polls(s, polls.drop_last()).poll_transition(polls.last()),
    decreases polls.len(),
{
    let s1 = s.poll_transition(polls[0]);
    if polls.len() == 1 {
        assert(polls.drop_first() =~= Seq::<bool>::empty());
        assert(run_polls(s, polls) == run_polls(s1, Seq::<bool>::empty()));
        assert(run_polls(s1, Seq::<bool>::empty()) == s1);
        assert(polls.drop_last() =~= Seq::<bool>::empty());
        assert(run_polls(s, polls.drop_last()) == s);
        assert(polls.last() == polls[0]);
    } else {
        lemma_run_polls_snoc(s1, polls.drop_first());
        assert(polls.drop_first().drop_last() =~= polls.drop_last().drop_first());
        assert(polls.drop_first().last() == polls.last());
        assert(polls.drop_last().len() > 0);
        assert(polls.drop_last()[0] == polls[0]);
        assert(run_polls(s, polls.drop_last()) == run_polls(
            s.poll_transition(polls.drop_last()[0]),
            polls.drop_last().drop_first(),
        ));
        assert(run_polls(s, polls) == run_polls(s1, polls.drop_first()));
    }
}

/// While the application never shows a window, the grace period just
/// counts: fewer polls than the remaining budget leave the machine still
/// waiting, with the polls counted.
pub proof fn lemma_grace_still_waiting(s: Supervisor, polls: Seq<bool>)
    requires
        s.wf(),
        s.phase is GraceWait,
        polls.len() < s.grace_cap - s.grace_polls,
        forall|k: int| 0 <= k < polls.len() ==> !polls[k],
    ensures
        run_polls(s, polls).wf(),
        run_polls(s, polls).phase is GraceWait,
        run_polls(s, polls).grace_polls == s.grace_polls + polls.len(),
        run_polls(s, polls).grace_cap == s.grace_cap,
    decreases polls.len(),
{
    if polls.len() > 0 {
        let s1 = s.poll_transition(polls[0]);
        lemma_grace_still_waiting(s1, polls.drop_first());
    }
}

/// Grace-period boundary: if the application never shows a window, the
/// grace period ends after exactly the remaining poll budget — no earlier
/// (the machine is still waiting one poll before the cap) and no later
/// (the poll that reaches the cap moves it to monitoring, it does not wait
/// forever and it does not fail).
pub proof fn lemma_grace_exhaustion(s: Supervisor, polls: Seq<bool>)
    requires
        s.wf(),
        s.phase is GraceWait,
        polls.len() == s.grace_cap - s.grace_polls,
        forall|k: int| 0 <= k < polls.len() ==> !polls[k],
    ensures
        run_polls(s, polls).phase is Monitoring,
        run_polls(s, polls.drop_last()).phase is GraceWait,
        run_polls(s, polls).grace_polls == s.grace_cap,
{
    lemma_grace_still_waiting(s, polls.drop_last());
    lemma_run_polls_snoc(s, polls);
}

/// Early exit from the grace period: the first poll that sees the
/// application running moves the machine to monitoring at once, however
/// much of the poll budget is still unspent.
pub proof fn lemma_grace_early_exit(s: Supervisor, polls: Seq<bool>)
    requires
        s.wf(),
        s.phase is GraceWait,
        1 <= polls.len() <= s.grace_cap - s.grace_polls,
        forall|k: int| 0 <= k < polls.len() - 1 ==> !polls[k],
        polls[polls.len() - 1],
    ensures
        run_polls(s, polls).phase is Monitoring,
{
    lemma_grace_still_waiting(s, polls.drop_last());
    lemma_run_polls_snoc(s, polls);
}

/// Monitoring lasts exactly as long as the application does: a poll that
/// still sees it changes nothing, and the first poll that does not ends
/// the run.
pub proof fn lemma_monitoring_tracks_liveness(s: Supervisor)
    requires
        s.phase is Monitoring,
    ensures
        s.poll_transition(true) == s,
        s.poll_transition(false).phase is Done,
{
}

/// Each run spawns at most once: no spawn outcome and no poll outcome ever
/// puts a machine that has left `Starting` back into `Starting`.
pub proof fn lemma_single_spawn(s: Supervisor, ok: bool, running: bool)
    requires
        !(s.phase is Starting),
    ensures
        !(s.spawn_step(ok).phase is Starting),
        !(s.poll_transition(running).phase is Starting),
{
}

} // verus!
