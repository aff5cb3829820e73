//! The delayed-spinner schedule.
//!
//! A task runs on a worker while the caller polls: each poll observes
//! whether the worker has finished and how much time has elapsed. The
//! spinner is shown only when the delay runs out while the task is still
//! going, so fast tasks never flicker a spinner and slow ones get steady
//! feedback. The decision rule, the record of a whole run, and the facts
//! that a fast task never shows a spinner and a slow one shows it exactly
//! once live here; the sleeping, thread handling and drawing do not.

use vstd::prelude::*;

verus! {

/// What one poll of the worker decides.
#[derive(Debug, Clone, Copy, PartialEq, Eq, Structural)]
pub enum SpinnerPoll {
    /// The task is already done: stop polling, no spinner is shown now.
    Complete,
    /// The task still runs and the delay is not over: sleep and poll again.
    Wait,
    /// The task still runs and the delay is over: show the spinner and
    /// block until the task is done.
    Show,
}

/// One observation of the race between task completion and elapsed time.
#[derive(Debug, Clone, Copy, PartialEq, Eq, Structural)]
pub struct PollSample {
    pub task_finished: bool,
    pub elapsed_millis: u64,
}

/// The decision rule of the polling loop: completion wins, then the delay
/// decides between waiting and showing.
pub open spec fn decision(task_finished: bool, elapsed_millis: u64, delay_millis: u64) -> SpinnerPoll {
    if task_finished {
        SpinnerPoll::Complete
    } else if elapsed_millis < delay_millis {
        SpinnerPoll::Wait
    } else {
        SpinnerPoll::Show
    }
}

/// Applies the decision rule to one poll of the worker.
pub fn poll_decision(task_finished: bool, elapsed_millis: u64, delay_millis: u64) -> (d: SpinnerPoll)
    ensures
        d == decision(task_finished, elapsed_millis, delay_millis),
        (d == SpinnerPoll::Complete <==> task_finished),
        (d == SpinnerPoll::Wait <==> !task_finished && elapsed_millis < delay_millis),
        (d == SpinnerPoll::Show <==> !task_finished && elapsed_millis >= delay_millis),
{
    if task_finished {
        SpinnerPoll::Complete
    } else if elapsed_millis < delay_millis {
        SpinnerPoll::Wait
    } else {
        SpinnerPoll::Show
    }
}

/// Whether a run of the polling loop over these samples, in order, ends by
/// showing a spinner: the first sample that does not wait settles it.
pub open spec fn run_shows(samples: Seq<PollSample>, delay_millis: u64) -> bool
    decreases samples.len(),
{
    if samples.len() == 0 {
        false
    } else {
        match decision(samples[0].task_finished, samples[0].elapsed_millis, delay_millis) {
            SpinnerPoll::Complete => false,
            SpinnerPoll::Show => true,
            SpinnerPoll::Wait => run_shows(samples.drop_first(), delay_millis),
        }
    }
}

/// Whether every sample reports completion exactly when at least
/// `task_millis` have elapsed: the observations a task of that running time
/// produces.
pub open spec fn observes_task(samples: Seq<PollSample>, task_millis: u64) -> bool {
    forall|i: int|
        0 <= i < samples.len() ==> (#[trigger] samples[i].task_finished <==> samples[i].elapsed_millis >= task_millis)
}

/// A task faster than the delay never gets a spinner: however the polls of
/// such a task fall, the run ends without showing one.
pub proof fn lemma_fast_task_never_shows(samples: Seq<PollSample>, task_millis: u64, delay_millis: u64)
    requires
        task_millis < delay_millis,
        observes_task(samples, task_millis),
    ensures
        !run_shows(samples, delay_millis),
    decreases samples.len(),
{
    if samples.len() > 0 {
        assert(samples[0].task_finished <==> samples[0].elapsed_millis >= task_millis);
        assert(forall|i: int|
            0 <= i < samples.drop_first().len()
                ==> (#[trigger] samples.drop_first()[i].task_finished
                    <==> samples.drop_first()[i].elapsed_millis >= task_millis)) by {
            assert(forall|i: int|
                0 <= i < samples.drop_first().len() ==> samples.drop_first()[i] == samples[i + 1]);
        }
        lemma_fast_task_never_shows(samples.drop_first(), task_millis, delay_millis);
    }
}

/// A task at least as slow as the delay gets the spinner, provided a poll
/// lands after the delay but before the task is done: the first sample past
/// the delay then shows it. (A run whose every poll past the delay already
/// sees the task finished shows none, which is why such a poll is asked for.)
pub proof fn lemma_slow_task_shows(
    samples: Seq<PollSample>,
    task_millis: u64,
    delay_millis: u64,
    k: int,
)
    requires
        delay_millis <= task_millis,
        observes_task(samples, task_millis),
        0 <= k < samples.len(),
        samples[k].elapsed_millis >= delay_millis,
        samples[k].elapsed_millis < task_millis,
        forall|j: int| 0 <= j < k ==> #[trigger] samples[j].elapsed_millis < delay_millis,
    ensures
        run_shows(samples, delay_millis),
    decreases samples.len(),
{
    if k == 0 {
        assert(!samples[0].task_finished);
        assert(decision(samples[0].task_finished, samples[0].elapsed_millis, delay_millis)
            == SpinnerPoll::Show);
    } else {
        assert(samples[0].elapsed_millis < delay_millis);
        assert(samples[0].elapsed_millis < task_millis);
        assert(!samples[0].task_finished);
        let rest = samples.drop_first();
        assert(forall|i: int| 0 <= i < rest.len() ==> rest[i] == samples[i + 1]);
        assert(forall|i: int|
            0 <= i < rest.len()
                ==> (#[trigger] rest[i].task_finished <==> rest[i].elapsed_millis >= task_millis));
        assert(rest[k - 1] == samples[k]);
        assert(forall|j: int| 0 <= j < k - 1 ==> #[trigger] rest[j].elapsed_millis < delay_millis);
        lemma_slow_task_shows(rest, task_millis, delay_millis, k - 1);
    }
}

/// Tracks one run of the delayed-spinner loop. Each poll of the worker goes
/// through `poll`, whose decision the runner carries out (sleep, show the
/// spinner, or stop polling); after the worker is joined, `finish` says
/// whether a spinner must now be cleared. The run shows at most one spinner
/// and asks for at most one clear: a decision other than waiting ends the
/// polling, and `finish` answers once.
pub struct SpinnerSchedule {
    delay_millis: u64,
    shown: bool,
    done: bool,
    cleared: bool,
    history: Ghost<Seq<PollSample>>,
}

impl SpinnerSchedule {
    /// The delay the run was configured with.
    pub closed spec fn delay_spec(&self) -> u64 {
        self.delay_millis
    }

    /// Whether the run has shown a spinner: the render count of the run,
    /// zero or one.
    pub closed spec fn shown_spec(&self) -> bool {
        self.shown
    }

    /// Whether polling has ended.
    pub closed spec fn done_spec(&self) -> bool {
        self.done
    }

    /// Whether the spinner, if any, has been cleared.
    pub closed spec fn cleared_spec(&self) -> bool {
        self.cleared
    }

    /// Every poll the run has seen, in order.
    pub closed spec fn history_spec(&self) -> Seq<PollSample> {
        self.history@
    }

    /// The state is exactly what its history forces: the spinner is shown
    /// precisely when the run of the recorded polls shows one, polling is
    /// over precisely when a recorded poll decided more than waiting, and
    /// nothing is cleared before polling ends.
    pub closed spec fn wf(&self) -> bool {
        &&& self.shown == run_shows(self.history@, self.delay_millis)
        &&& (self.done <==> exists|i: int|
            0 <= i < self.history@.len()
                && #[trigger] decision(
                self.history@[i].task_finished,
                self.history@[i].elapsed_millis,
                self.delay_millis,
            ) != SpinnerPoll::Wait)
        &&& (!self.done ==> !self.shown && !self.cleared)
    }

    /// Starts a run: nothing polled, nothing shown, nothing cleared.
    pub fn new(delay_millis: u64) -> (s: Self)
        ensures
            s.wf(),
            s.delay_spec() == delay_millis,
            !s.shown_spec(),
            !s.done_spec(),
            !s.cleared_spec(),
            s.history_spec() == Seq::<PollSample>::empty(),
    {
        SpinnerSchedule {
            delay_millis,
            shown: false,
            done: false,
            cleared: false,
            history: Ghost(Seq::empty()),
        }
    }

    /// Records one poll of the worker and returns its decision. A decision
    /// other than waiting ends the polling; showing marks the single render
    /// of the run.
    pub fn poll(&mut self, task_finished: bool, elapsed_millis: u64) -> (d: SpinnerPoll)
        requires
            old(self).wf(),
            !old(self).done_spec(),
        ensures
            final(self).wf(),
            d == decision(task_finished, elapsed_millis, old(self).delay_spec()),
            final(self).delay_spec() == old(self).delay_spec(),
            final(self).history_spec() == old(self).history_spec().push(
                PollSample { task_finished, elapsed_millis },
            ),
            final(self).done_spec() == (d != SpinnerPoll::Wait),
            final(self).shown_spec() == (d == SpinnerPoll::Show),
            !final(self).cleared_spec(),
    {
        let d = poll_decision(task_finished, elapsed_millis, self.delay_millis);
        let sample = Ghost(PollSample { task_finished, elapsed_millis });
        proof {
            let h = self.history@;
            let del = self.delay_millis;
            assert(forall|i: int|
                0 <= i < h.len() ==> #[trigger] decision(
                    h[i].task_finished,
                    h[i].elapsed_millis,
                    del,
                ) == SpinnerPoll::Wait) by {
                assert(!(exists|i: int|
                    0 <= i < h.len() && #[trigger] decision(
                        h[i].task_finished,
                        h[i].elapsed_millis,
                        del,
                    ) != SpinnerPoll::Wait));
            }
            lemma_run_extends(h, sample@, del);
            let h2 = h.push(sample@);
            assert(h2[h.len() as int] == sample@);
            assert(forall|i: int| 0 <= i < h.len() ==> h2[i] == h[i]);
        }
        self.history = Ghost(self.history@.push(sample@));
        self.done = !matches!(d, SpinnerPoll::Wait);
        self.shown = matches!(d, SpinnerPoll::Show);
        d
    }

    /// Answers, once the worker is joined, whether a spinner must now be
    /// cleared: exactly when one was shown, and only once per run.
    pub fn finish(&mut self) -> (clear: bool)
        requires
            old(self).wf(),
            old(self).done_spec(),
            !old(self).cleared_spec(),
        ensures
            final(self).wf(),
            clear == old(self).shown_spec(),
            final(self).cleared_spec(),
            final(self).shown_spec() == old(self).shown_spec(),
            final(self).done_spec(),
            final(self).delay_spec() == old(self).delay_spec(),
            final(self).history_spec() == old(self).history_spec(),
    {
        self.cleared = true;
        self.shown
    }

    /// Whether the run has shown a spinner, as an observable value: the
    /// render count of the run is this, taken as zero or one.
    pub fn was_shown(&self) -> (b: bool)
        ensures
            b == self.shown_spec(),
    {
        self.shown
    }

    /// Whether polling has ended.
    pub fn is_done(&self) -> (b: bool)
        ensures
            b == self.done_spec(),
    {
        self.done
    }
}

/// Extending a run that so far only waited with one more sample: the longer
/// run shows a spinner exactly when the new sample decides to show, and it
/// is over exactly when the new sample decides more than waiting.
proof fn lemma_run_extends(samples: Seq<PollSample>, sample: PollSample, delay_millis: u64)
    requires
        forall|i: int|
            0 <= i < samples.len() ==> #[trigger] decision(
                samples[i].task_finished,
                samples[i].elapsed_millis,
                delay_millis,
            ) == SpinnerPoll::Wait,
    ensures
        run_shows(samples.push(sample), delay_millis) == (decision(
            sample.task_finished,
            sample.elapsed_millis,
            delay_millis,
        ) == SpinnerPoll::Show),
    decreases samples.len(),
{
    let pushed = samples.push(sample);
    let d0 = decision(sample.task_finished, sample.elapsed_millis, delay_millis);
    if samples.len() == 0 {
        assert(pushed[0] == sample);
        assert(pushed.len() == 1);
        assert(pushed.drop_first() =~= Seq::<PollSample>::empty());
        if d0 == SpinnerPoll::Wait {
            assert(!run_shows(pushed.drop_first(), delay_millis));
            assert(!run_shows(pushed, delay_millis));
        } else if d0 == SpinnerPoll::Show {
            assert(run_shows(pushed, delay_millis));
        } else {
            assert(!run_shows(pushed, delay_millis));
        }
    } else {
        assert(pushed[0] == samples[0]);
        assert(decision(samples[0].task_finished, samples[0].elapsed_millis, delay_millis)
            == SpinnerPoll::Wait);
        let rest = samples.drop_first();
        assert(pushed.drop_first() =~= rest.push(sample));
        assert(forall|i: int| 0 <= i < rest.len() ==> rest[i] == samples[i + 1]);
        assert(forall|i: int|
            0 <= i < rest.len() ==> #[trigger] decision(
                rest[i].task_finished,
                rest[i].elapsed_millis,
                delay_millis,
            ) == SpinnerPoll::Wait);
        lemma_run_extends(rest, sample, delay_millis);
        assert(run_shows(pushed, delay_millis) == run_shows(pushed.drop_first(), delay_millis));
        assert(run_shows(pushed.drop_first(), delay_millis) == (d0 == SpinnerPoll::Show));
    }
}

/// A schedule whose polls observe a task faster than its delay has shown
/// nothing: the render count of such a run is zero, wherever in the run it
/// stands.
pub proof fn lemma_schedule_fast_task(s: &SpinnerSchedule, task_millis: u64)
    requires
        s.wf(),
        task_millis < s.delay_spec(),
        observes_task(s.history_spec(), task_millis),
    ensures
        !s.shown_spec(),
{
    lemma_fast_task_never_shows(s.history_spec(), task_millis, s.delay_spec());
}

/// A schedule whose polls observe a task at least as slow as its delay has
/// shown the spinner, provided a poll landed after the delay but before the
/// task was done and none landed past the delay earlier.
pub proof fn lemma_schedule_slow_task(s: &SpinnerSchedule, task_millis: u64, k: int)
    requires
        s.wf(),
        s.delay_spec() <= task_millis,
        observes_task(s.history_spec(), task_millis),
        0 <= k < s.history_spec().len(),
        s.history_spec()[k].elapsed_millis >= s.delay_spec(),
        s.history_spec()[k].elapsed_millis < task_millis,
        forall|j: int| 0 <= j < k ==> #[trigger] s.history_spec()[j].elapsed_millis < s.delay_spec(),
    ensures
        s.shown_spec(),
{
    lemma_slow_task_shows(s.history_spec(), task_millis, s.delay_spec(), k);
}

/// With no delay the loop never waits: the very first poll decides, and the
/// spinner is shown exactly when the task is not already done. This is the
/// always-on behaviour a plain spin gets by running the delayed schedule
/// with a zero delay.
pub proof fn lemma_zero_delay_first_poll_decides(samples: Seq<PollSample>)
    requires
        samples.len() > 0,
    ensures
        run_shows(samples, 0) <==> !samples[0].task_finished,
        decision(samples[0].task_finished, samples[0].elapsed_millis, 0) != SpinnerPoll::Wait,
{
}

} // verus!
