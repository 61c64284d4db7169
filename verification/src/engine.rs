use vstd::prelude::*;

use crate::scanner::AfkVerdict;

verus! {

/// The two window-display phases the tracker distinguishes. `Restored`
/// means visible/normal; whether the window is maximized does not matter.
#[derive(Clone, Copy, Debug, PartialEq, Eq, Structural)]
pub enum WindowPhase {
    Restored,
    Minimized,
}

/// The state the minimize decision engine carries from tick to tick:
/// the remembered AFK status, the last observed window phase, the time the
/// window last became restored, and whether a minimize command has already
/// been issued for the current restored interval.
#[derive(Clone, Copy, Debug, PartialEq, Eq, Structural)]
pub struct MonitorState {
    /// Last `Active`/`Away` verdict observed this session; `Unknown` only
    /// until the first such verdict, never again afterwards.
    pub afk: AfkVerdict,
    /// Window phase as of the last tick.
    pub phase: WindowPhase,
    /// Wall-clock second at which the window last entered `Restored`;
    /// meaningful only while `phase` is `Restored`.
    pub restored_since: u64,
    /// Whether the current restored interval has already been answered
    /// with a minimize command.
    pub commanded: bool,
}

/// Seconds the window has been restored, by a clock that may jump: a
/// backward jump counts as zero, never as "long enough to minimize".
pub open spec fn elapsed_secs(restored_since: u64, now: u64) -> u64 {
    if now >= restored_since {
        (now - restored_since) as u64
    } else {
        0
    }
}

/// One tick of the decision engine, as a function of the old state and the
/// fresh observations. Returns the new state and whether to issue the
/// minimize command this tick.
pub open spec fn spec_tick(
    s: MonitorState,
    verdict: AfkVerdict,
    minimized: bool,
    now: u64,
    grace_period: u64,
) -> (MonitorState, bool) {
    let afk = if verdict is Unknown {
        s.afk
    } else {
        verdict
    };
    if minimized {
        (
            MonitorState {
                afk,
                phase: WindowPhase::Minimized,
                restored_since: s.restored_since,
                commanded: s.commanded,
            },
            false,
        )
    } else {
        let since = if s.phase is Minimized {
            now
        } else {
            s.restored_since
        };
        let already = if s.phase is Minimized {
            false
        } else {
            s.commanded
        };
        let cmd = afk is Away && elapsed_secs(since, now) > grace_period && !already;
        (
            MonitorState {
                afk,
                phase: WindowPhase::Restored,
                restored_since: since,
                commanded: already || cmd,
            },
            cmd,
        )
    }
}

impl MonitorState {
    /// Fresh state for a newly located window: nothing is known about the
    /// AFK status yet, and the window counts as restored since `now`.
    pub fn new(now: u64) -> (s: MonitorState)
        ensures
            s == (MonitorState {
                afk: AfkVerdict::Unknown,
                phase: WindowPhase::Restored,
                restored_since: now,
                commanded: false,
            }),
    {
        MonitorState {
            afk: AfkVerdict::Unknown,
            phase: WindowPhase::Restored,
            restored_since: now,
            commanded: false,
        }
    }

    /// One poll tick. `verdict` is the fresh scan result, `minimized` the
    /// fresh window flag, `now` the wall clock in seconds. Returns whether
    /// the caller must issue the minimize command now: exactly when the
    /// remembered status is `Away`, the window is restored, the restored
    /// interval has outlived the grace period, and this interval has not
    /// been answered yet.
    pub fn tick(
        &mut self,
        verdict: AfkVerdict,
        minimized: bool,
        now: u64,
        grace_period: u64,
    ) -> (cmd: bool)
        ensures
            (*final(self), cmd) == spec_tick(
                *old(self),
                verdict,
                minimized,
                now,
                grace_period,
            ),
            final(self).afk == (if verdict is Unknown {
                old(self).afk
            } else {
                verdict
            }),
            minimized ==> !cmd && final(self).phase is Minimized,
            !minimized ==> final(self).phase is Restored,
            cmd ==> final(self).afk is Away && !minimized && elapsed_secs(
                final(self).restored_since,
                now,
            ) > grace_period,
    {
        if !matches!(verdict, AfkVerdict::Unknown) {
            self.afk = verdict;
        }
        if minimized {
            self.phase = WindowPhase::Minimized;
            return false;
        }
        if matches!(self.phase, WindowPhase::Minimized) {
            self.restored_since = now;
            self.commanded = false;
        }
        self.phase = WindowPhase::Restored;
        let elapsed = if now >= self.restored_since {
            now - self.restored_since
        } else {
            0
        };
        let cmd = matches!(self.afk, AfkVerdict::Away) && elapsed > grace_period
            && !self.commanded;
        if cmd {
            self.commanded = true;
        }
        cmd
    }
}

/// Law: the remembered AFK status never regresses. An `Unknown` verdict
/// leaves it exactly as it was, whatever else the tick observes.
pub proof fn lemma_status_never_regresses(
    s: MonitorState,
    minimized: bool,
    now: u64,
    grace_period: u64,
)
    ensures
        spec_tick(s, AfkVerdict::Unknown, minimized, now, grace_period).0.afk == s.afk,
{
}

/// Law: once some `Active`/`Away` verdict has been observed, the remembered
/// status stays known for the rest of the session.
pub proof fn lemma_status_stays_known(
    s: MonitorState,
    verdict: AfkVerdict,
    minimized: bool,
    now: u64,
    grace_period: u64,
)
    requires
        !(s.afk is Unknown),
    ensures
        !(spec_tick(s, verdict, minimized, now, grace_period).0.afk is Unknown),
{
}

/// Law: no minimize command while the window is observed minimized.
pub proof fn lemma_no_command_while_minimized(
    s: MonitorState,
    verdict: AfkVerdict,
    now: u64,
    grace_period: u64,
)
    ensures
        !spec_tick(s, verdict, true, now, grace_period).1,
{
}

/// Law: within the grace period there is no minimize command. This covers
/// the tick of the restore transition itself, whose elapsed time is zero.
pub proof fn lemma_no_command_within_grace(
    s: MonitorState,
    verdict: AfkVerdict,
    now: u64,
    grace_period: u64,
)
    requires
        s.phase is Restored ==> elapsed_secs(s.restored_since, now) <= grace_period,
    ensures
        !spec_tick(s, verdict, false, now, grace_period).1,
{
}

/// Law: the command is owed. On a tick that sees a restored window with an
/// `Away` verdict, an unanswered restored interval and the grace period
/// outlived, the engine does issue the minimize command.
pub proof fn lemma_command_when_due(
    s: MonitorState,
    now: u64,
    grace_period: u64,
)
    requires
        s.phase is Restored,
        !s.commanded,
        elapsed_secs(s.restored_since, now) > grace_period,
    ensures
        spec_tick(s, AfkVerdict::Away, false, now, grace_period).1,
{
}

/// A run of poll ticks that all observe a restored window: the number of
/// minimize commands the engine issues over the whole run. Each element of
/// `ticks` is one tick's fresh verdict and wall-clock second.
pub open spec fn commands_in_restored_run(
    s: MonitorState,
    ticks: Seq<(AfkVerdict, u64)>,
    grace_period: u64,
) -> nat
    decreases ticks.len(),
{
    if ticks.len() == 0 {
        0
    } else {
        let step = spec_tick(s, ticks[0].0, false, ticks[0].1, grace_period);
        (if step.1 {
            1nat
        } else {
            0nat
        }) + commands_in_restored_run(step.0, ticks.drop_first(), grace_period)
    }
}

/// Law: at most one minimize command per restored interval. However long
/// the window stays restored, and whatever verdicts and clock readings the
/// ticks bring, an interval that was already answered gets no further
/// command, and an unanswered one gets at most one.
pub proof fn lemma_at_most_one_command_per_interval(
    s: MonitorState,
    ticks: Seq<(AfkVerdict, u64)>,
    grace_period: u64,
)
    requires
        s.phase is Restored,
    ensures
        commands_in_restored_run(s, ticks, grace_period) <= (if s.commanded {
            0nat
        } else {
            1nat
        }),
    decreases ticks.len(),
{
    if ticks.len() > 0 {
        let step = spec_tick(s, ticks[0].0, false, ticks[0].1, grace_period);
        lemma_at_most_one_command_per_interval(step.0, ticks.drop_first(), grace_period);
    }
}

/// Law: the minimize command comes exactly once in a due run. Start inside
/// an unanswered restored interval with `Away` remembered; over any run of
/// ticks that keep the window restored and bring no `Active` verdict, if
/// some tick lies beyond the grace period, then the engine issues the
/// minimize command exactly once over the whole run — however long the run
/// goes on, and whether the due tick comes at the grace boundary or later.
pub proof fn lemma_exactly_one_command_in_due_run(
    s: MonitorState,
    ticks: Seq<(AfkVerdict, u64)>,
    grace_period: u64,
)
    requires
        s.phase is Restored,
        !s.commanded,
        s.afk is Away,
        forall|i: int| 0 <= i < ticks.len() ==> !(#[trigger] ticks[i].0 is Active),
        exists|i: int|
            0 <= i < ticks.len() && elapsed_secs(s.restored_since, #[trigger] ticks[i].1)
                > grace_period,
    ensures
        commands_in_restored_run(s, ticks, grace_period) == 1,
    decreases ticks.len(),
{
    let step = spec_tick(s, ticks[0].0, false, ticks[0].1, grace_period);
    let rest = ticks.drop_first();
    assert(forall|i: int| 0 <= i < rest.len() ==> rest[i] == ticks[i + 1]);
    if step.1 {
        lemma_at_most_one_command_per_interval(step.0, rest, grace_period);
    } else {
        // The first tick was not due yet: its clock reading lay within the
        // grace period, so a later tick carries the witness.
        let w = choose|i: int|
            0 <= i < ticks.len() && elapsed_secs(s.restored_since, ticks[i].1)
                > grace_period;
        assert(w != 0);
        assert(rest[w - 1] == ticks[w]);
        lemma_exactly_one_command_in_due_run(step.0, rest, grace_period);
    }
}

} // verus!
