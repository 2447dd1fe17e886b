use vstd::prelude::*;

verus! {

/// Where the supervisor stands between two outside steps.
#[derive(Clone, Copy, Debug, PartialEq, Eq, Structural)]
pub enum Phase {
    /// An editor process has been launched and is awaited.
    Running,
    /// The restart indicator was found and its removal is awaited.
    Removing,
    /// The editor exited and asked for no relaunch.
    Done,
    /// A fatal error ended the run.
    Failed,
}

/// What the outside world reports back to the supervisor.
#[derive(Clone, Copy, Debug, PartialEq, Eq, Structural)]
pub enum Event {
    /// The editor exited; whether the restart indicator exists now.
    ChildExited { indicator_present: bool },
    /// The removal of the restart indicator succeeded or failed.
    IndicatorRemoved { ok: bool },
    /// The editor could not be started or awaited.
    LaunchFailed,
}

/// What the supervisor asks the outside world to do next.
#[derive(Clone, Copy, Debug, PartialEq, Eq, Structural)]
pub enum Action {
    /// Run the editor to completion; on a relaunch its environment carries the restart marker.
    Launch { restart: bool },
    /// Delete the restart indicator.
    RemoveIndicator,
    /// Stop: the run is over.
    Finish,
    /// Stop with a fatal error.
    Abort,
}

/// The restart supervisor of one run.
pub struct Supervisor {
    pub phase: Phase,
}

/// The transition for `phase` on `e`: the next phase and the action to take.
/// An event that does not fit the phase is a fatal protocol error; the final
/// phases keep their action.
pub open spec fn next(phase: Phase, e: Event) -> (Phase, Action) {
    match (phase, e) {
        (Phase::Running, Event::ChildExited { indicator_present }) => if indicator_present {
            (Phase::Removing, Action::RemoveIndicator)
        } else {
            (Phase::Done, Action::Finish)
        },
        (Phase::Removing, Event::IndicatorRemoved { ok }) => if ok {
            (Phase::Running, Action::Launch { restart: true })
        } else {
            (Phase::Failed, Action::Abort)
        },
        (Phase::Done, _) => (Phase::Done, Action::Finish),
        _ => (Phase::Failed, Action::Abort),
    }
}

/// The actions taken from `phase` on the events in order, and the phase reached.
pub open spec fn run(phase: Phase, events: Seq<Event>) -> (Phase, Seq<Action>)
    decreases events.len(),
{
    if events.len() == 0 {
        (phase, Seq::empty())
    } else {
        let (p, a) = next(phase, events[0]);
        let (q, rest) = run(p, events.drop_first());
        (q, seq![a] + rest)
    }
}

impl Supervisor {
    /// A new run: the first action launches the editor without the restart marker.
    pub fn start() -> (r: (Supervisor, Action))
        ensures
            r.0.phase == Phase::Running,
            r.1 == (Action::Launch { restart: false }),
    {
        (Supervisor { phase: Phase::Running }, Action::Launch { restart: false })
    }

    /// Takes the event that the last action led to and returns the next action.
    pub fn step(&mut self, e: Event) -> (a: Action)
        ensures
            (final(self).phase, a) == next(old(self).phase, e),
    {
        let (p, a) = match (self.phase, e) {
            (Phase::Running, Event::ChildExited { indicator_present }) => if indicator_present {
                (Phase::Removing, Action::RemoveIndicator)
            } else {
                (Phase::Done, Action::Finish)
            },
            (Phase::Removing, Event::IndicatorRemoved { ok }) => if ok {
                (Phase::Running, Action::Launch { restart: true })
            } else {
                (Phase::Failed, Action::Abort)
            },
            (Phase::Done, _) => (Phase::Done, Action::Finish),
            _ => (Phase::Failed, Action::Abort),
        };
        self.phase = p;
        a
    }

    /// Whether the run is over, normally or not.
    pub fn is_finished(&self) -> (r: bool)
        ensures
            r <==> (self.phase == Phase::Done || self.phase == Phase::Failed),
    {
        match self.phase {
            Phase::Done | Phase::Failed => true,
            _ => false,
        }
    }
}

/// The events of a run in which the editor asks for `n` relaunches and then
/// exits for good, every removal of the indicator succeeding.
pub open spec fn restart_script(n: nat) -> Seq<Event>
    decreases n,
{
    if n == 0 {
        seq![Event::ChildExited { indicator_present: false }]
    } else {
        seq![
            Event::ChildExited { indicator_present: true },
            Event::IndicatorRemoved { ok: true },
        ] + restart_script((n - 1) as nat)
    }
}

/// The actions of such a run after the first launch.
pub open spec fn restart_actions(n: nat) -> Seq<Action>
    decreases n,
{
    if n == 0 {
        seq![Action::Finish]
    } else {
        seq![Action::RemoveIndicator, Action::Launch { restart: true }] + restart_actions(
            (n - 1) as nat,
        )
    }
}

/// How many times `a` occurs in `s`.
pub open spec fn count(s: Seq<Action>, a: Action) -> nat
    decreases s.len(),
{
    if s.len() == 0 {
        0
    } else {
        (if s[0] == a { 1nat } else { 0nat }) + count(s.drop_first(), a)
    }
}

proof fn lemma_run_script(n: nat)
    ensures
        run(Phase::Running, restart_script(n)) == (Phase::Done, restart_actions(n)),
        count(restart_actions(n), Action::Launch { restart: true }) == n,
        count(restart_actions(n), Action::Launch { restart: false }) == 0,
        count(restart_actions(n), Action::RemoveIndicator) == n,
        count(restart_actions(n), Action::Finish) == 1,
        restart_actions(n).last() == Action::Finish,
    decreases n,
{
    if n == 0 {
        let s = restart_script(0);
        assert(s.drop_first() =~= Seq::<Event>::empty());
        assert(s[0] == Event::ChildExited { indicator_present: false });
        assert(run(Phase::Done, s.drop_first()) == (Phase::Done, Seq::<Action>::empty()));
        assert(run(Phase::Running, s).1 =~= seq![Action::Finish]);
        let acts = restart_actions(0);
        assert(acts.drop_first() =~= Seq::<Action>::empty());
        assert forall|a: Action| #[trigger] count(acts, a) == if a == Action::Finish {
            1nat
        } else {
            0nat
        } by {
            assert(count(acts.drop_first(), a) == 0);
        }
    } else {
        let m = (n - 1) as nat;
        lemma_run_script(m);
        let s = restart_script(n);
        assert(s.drop_first().drop_first() =~= restart_script(m));
        assert(s.drop_first()[0] == Event::IndicatorRemoved { ok: true });
        let acts = restart_actions(n);
        assert(acts.drop_first().drop_first() =~= restart_actions(m));
        assert(acts.drop_first()[0] == Action::Launch { restart: true });
        assert forall|a: Action| #[trigger] count(acts, a) == count(restart_actions(m), a) + (if a
            == Action::RemoveIndicator {
            1nat
        } else {
            0nat
        }) + (if a == (Action::Launch { restart: true }) {
            1nat
        } else {
            0nat
        }) by {
            assert(count(acts.drop_first(), a) == (if acts.drop_first()[0] == a {
                1nat
            } else {
                0nat
            }) + count(acts.drop_first().drop_first(), a));
        }
        assert(acts.last() == restart_actions(m).last());
        let (p1, r1) = run(Phase::Removing, s.drop_first());
        assert(run(Phase::Running, s.drop_first().drop_first()) == (Phase::Done, restart_actions(m)));
        assert(p1 == Phase::Done);
        assert(r1 =~= seq![Action::Launch { restart: true }] + restart_actions(m));
        assert(run(Phase::Running, s).1 =~= acts);
    }
}

/// When the editor leaves the restart indicator behind after each of its
/// first `n` exits and not after the next one, and each removal succeeds,
/// the editor is launched `n + 1` times, only the first time without the
/// restart marker; the indicator is removed `n` times, always between two
/// launches; and the run ends normally right after the last exit.
pub proof fn lemma_restart_loop(n: nat)
    ensures
        ({
            let (s, first) = Supervisor::start_spec();
            let (end, acts) = run(s, restart_script(n));
            let all = seq![first] + acts;
            &&& end == Phase::Done
            &&& all == seq![Action::Launch { restart: false }] + restart_actions(n)
            &&& all[0] == (Action::Launch { restart: false })
            &&& count(all, Action::Launch { restart: false }) == 1
            &&& count(all, Action::Launch { restart: true }) == n
            &&& count(all, Action::RemoveIndicator) == n
            &&& all.last() == Action::Finish
        }),
{
    lemma_run_script(n);
    let all = seq![Action::Launch { restart: false }] + restart_actions(n);
    assert(all.drop_first() =~= restart_actions(n));
}

impl Supervisor {
    /// The state and action that `start` returns.
    pub open spec fn start_spec() -> (Phase, Action) {
        (Phase::Running, Action::Launch { restart: false })
    }
}

/// A failed removal of the restart indicator (it may already be gone) ends
/// the run with a fatal error, and nothing that happens afterwards launches
/// the editor again.
pub proof fn lemma_failed_removal_is_fatal(events: Seq<Event>)
    ensures
        next(Phase::Removing, Event::IndicatorRemoved { ok: false }) == (
            Phase::Failed,
            Action::Abort,
        ),
        run(Phase::Failed, events).0 == Phase::Failed,
        forall|i: int| 0 <= i < events.len() ==> #[trigger] run(Phase::Failed, events).1[i] == Action::Abort,
        run(Phase::Failed, events).1.len() == events.len(),
    decreases events.len(),
{
    if events.len() > 0 {
        lemma_failed_removal_is_fatal(events.drop_first());
        let rest = run(Phase::Failed, events.drop_first()).1;
        assert forall|i: int| 0 <= i < events.len() implies #[trigger] run(Phase::Failed, events).1[i] == Action::Abort by {
            if i > 0 {
                assert(run(Phase::Failed, events).1[i] == rest[i - 1]);
            }
        }
    }
}

} // verus!
