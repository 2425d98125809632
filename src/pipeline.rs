use vstd::prelude::*;

verus! {

/// One entry of the run's schedule: an identifier processed, or a pause.
pub enum StepView {
    Process(nat),
    Pause,
}

/// The schedule entry at position `i`: items at even positions, pauses between them.
pub open spec fn step_at(i: int) -> StepView {
    if i % 2 == 0 {
        StepView::Process((i / 2) as nat)
    } else {
        StepView::Pause
    }
}

/// The whole schedule of a run over `n` identifiers.
pub open spec fn schedule(n: nat) -> Seq<StepView> {
    Seq::new(if n == 0 { 0 } else { (2 * n - 1) as nat }, |i: int| step_at(i))
}

/// How many pauses a schedule holds.
pub open spec fn pause_count(s: Seq<StepView>) -> nat
    decreases s.len(),
{
    if s.len() == 0 {
        0
    } else {
        pause_count(s.drop_last()) + if s.last() is Pause {
            1nat
        } else {
            0nat
        }
    }
}

/// What became of one identifier.
#[derive(Clone, Debug)]
pub struct ReportOutcome {
    pub identifier: String,
    /// The text submitted with the report, when it came to a submission.
    pub message: Option<String>,
    pub success: bool,
}

/// What the caller is to do next.
#[derive(Clone, Debug)]
pub enum PipelineStep {
    /// Resolve, fetch and report the identifier at `index`, then record the outcome.
    Process { index: usize, identifier: String },
    /// Wait `secs` seconds before the next identifier.
    Pause { secs: u64 },
    /// Every identifier has an outcome.
    Done,
}

/// The observable state of a run.
pub struct PipelineView {
    pub identifiers: Seq<Seq<char>>,
    pub delay_secs: u64,
    /// How many identifiers have been handed out.
    pub started: nat,
    /// Whether a pause is owed before the next identifier.
    pub pause_due: bool,
    pub outcomes: Seq<ReportOutcome>,
    /// The steps handed out so far, outcomes aside.
    pub trace: Seq<StepView>,
}

/// A serial run over a list of identifiers: one at a time, in input order, with a
/// pause between consecutive ones, and an outcome for each.
pub struct ReportPipeline {
    identifiers: Vec<String>,
    delay_secs: u64,
    started: usize,
    pause_due: bool,
    outcomes: Vec<ReportOutcome>,
    trace: Ghost<Seq<StepView>>,
}

/// The length of the trace in a given state of the run.
pub open spec fn trace_len(started: nat, recorded: nat, pause_due: bool, n: nat) -> nat {
    if started == 0 {
        0
    } else if recorded == started && !pause_due && started < n {
        (2 * started) as nat
    } else {
        (2 * started - 1) as nat
    }
}

impl View for ReportPipeline {
    type V = PipelineView;

    closed spec fn view(&self) -> PipelineView {
        PipelineView {
            identifiers: self.identifiers@.map_values(|s: String| s@),
            delay_secs: self.delay_secs,
            started: self.started as nat,
            pause_due: self.pause_due,
            outcomes: self.outcomes@,
            trace: self.trace@,
        }
    }
}

impl ReportPipeline {
    /// The run's invariant.
    pub open spec fn wf(&self) -> bool {
        let v = self@;
        let n = v.identifiers.len();
        &&& v.started <= n
        &&& v.outcomes.len() == v.started || v.outcomes.len() + 1 == v.started
        &&& v.pause_due ==> (v.outcomes.len() == v.started && 0 < v.started < n)
        &&& forall|j: int|
            0 <= j < v.outcomes.len() ==> (#[trigger] v.outcomes[j]).identifier@
                == v.identifiers[j]
        &&& v.trace.len() == trace_len(v.started, v.outcomes.len(), v.pause_due, n)
        &&& v.trace =~= schedule(n).take(v.trace.len() as int)
    }

    /// Whether no identifier is in flight, so that the next step may be asked for.
    pub open spec fn idle(&self) -> bool {
        self@.outcomes.len() == self@.started
    }

    /// A run over `identifiers`, in their order, pausing `delay_secs` between them.
    pub fn new(identifiers: Vec<String>, delay_secs: u64) -> (r: Self)
        ensures
            r.wf(),
            r.idle(),
            r@.identifiers == identifiers@.map_values(|s: String| s@),
            r@.delay_secs == delay_secs,
            r@.started == 0,
            !r@.pause_due,
            r@.outcomes.len() == 0,
            r@.trace.len() == 0,
    {
        let r = ReportPipeline {
            identifiers,
            delay_secs,
            started: 0,
            pause_due: false,
            outcomes: Vec::new(),
            trace: Ghost(Seq::empty()),
        };
        assert(r@.trace =~= schedule(r@.identifiers.len()).take(0));
        r
    }

    /// The next step: the next identifier, the pause owed before it, or the end.
    pub fn next_step(&mut self) -> (r: PipelineStep)
        requires
            old(self).wf(),
            old(self).idle(),
        ensures
            final(self).wf(),
            final(self)@.identifiers == old(self)@.identifiers,
            final(self)@.delay_secs == old(self)@.delay_secs,
            final(self)@.outcomes == old(self)@.outcomes,
            final(self).idle() <==> !(r is Process),
            match r {
                PipelineStep::Done => {
                    &&& old(self)@.started == old(self)@.identifiers.len()
                    &&& final(self)@ == old(self)@
                    &&& final(self)@.trace == schedule(old(self)@.identifiers.len())
                    &&& final(self)@.outcomes.len() == old(self)@.identifiers.len()
                },
                PipelineStep::Pause { secs } => {
                    &&& old(self)@.pause_due
                    &&& secs == old(self)@.delay_secs
                    &&& final(self)@.started == old(self)@.started
                    &&& !final(self)@.pause_due
                    &&& final(self)@.trace == old(self)@.trace.push(StepView::Pause)
                },
                PipelineStep::Process { index, identifier } => {
                    &&& !old(self)@.pause_due
                    &&& old(self)@.started < old(self)@.identifiers.len()
                    &&& index == old(self)@.started
                    &&& identifier@ == old(self)@.identifiers[index as int]
                    &&& final(self)@.started == old(self)@.started + 1
                    &&& !final(self)@.pause_due
                    &&& final(self)@.trace == old(self)@.trace.push(
                        StepView::Process(index as nat),
                    )
                },
            },
    {
        let ghost n = self@.identifiers.len();
        if self.started == self.identifiers.len() {
            assert(self@.trace =~= schedule(n));
            PipelineStep::Done
        } else if self.pause_due {
            self.pause_due = false;
            self.trace = Ghost(self.trace@.push(StepView::Pause));
            assert(self@.trace =~= schedule(n).take(self@.trace.len() as int));
            PipelineStep::Pause { secs: self.delay_secs }
        } else {
            let index = self.started;
            let identifier = self.identifiers[index].clone();
            self.started = index + 1;
            self.trace = Ghost(self.trace@.push(StepView::Process(index as nat)));
            assert(self@.trace =~= schedule(n).take(self@.trace.len() as int));
            PipelineStep::Process { index, identifier }
        }
    }

    /// Records the outcome of the identifier in flight; a pause becomes owed when
    /// another identifier follows.
    pub fn record(&mut self, message: Option<String>, success: bool)
        requires
            old(self).wf(),
            !old(self).idle(),
        ensures
            final(self).wf(),
            final(self).idle(),
            final(self)@.identifiers == old(self)@.identifiers,
            final(self)@.delay_secs == old(self)@.delay_secs,
            final(self)@.started == old(self)@.started,
            final(self)@.trace == old(self)@.trace,
            final(self)@.pause_due == (old(self)@.started < old(self)@.identifiers.len()),
            final(self)@.outcomes.len() == old(self)@.outcomes.len() + 1,
            final(self)@.outcomes.drop_last() == old(self)@.outcomes,
            final(self)@.outcomes.last().identifier@ == old(self)@.identifiers[old(
                self,
            )@.outcomes.len() as int],
            final(self)@.outcomes.last().success == success,
            final(self)@.outcomes.last().message == message,
    {
        let k = self.outcomes.len();
        let identifier = self.identifiers[k].clone();
        self.outcomes.push(ReportOutcome { identifier, message, success });
        self.pause_due = self.started < self.identifiers.len();
        assert(self@.outcomes.drop_last() =~= old(self)@.outcomes);
    }

    /// The outcomes so far, one per identifier handed out and recorded, in input order.
    pub fn outcomes(&self) -> (r: &Vec<ReportOutcome>)
        ensures
            r@ == self@.outcomes,
    {
        &self.outcomes
    }
}

/// A finished run holds one outcome per identifier, in input order; a failed item
/// does not cut the run short, and each outcome keeps the success flag recorded
/// for its own item.
pub proof fn lemma_outcome_per_identifier(p: ReportPipeline)
    requires
        p.wf(),
        p.idle(),
        p@.started == p@.identifiers.len(),
    ensures
        p@.outcomes.len() == p@.identifiers.len(),
        forall|j: int|
            0 <= j < p@.identifiers.len() ==> (#[trigger] p@.outcomes[j]).identifier@
                == p@.identifiers[j],
{
}

/// For two or more identifiers, a run pauses exactly one fewer times than it has
/// identifiers: never before the first, never after the last, and once between
/// each two consecutive ones.
pub proof fn lemma_pauses_between_items(n: nat)
    requires
        n >= 1,
    ensures
        pause_count(schedule(n)) == n - 1,
        schedule(n)[0] == StepView::Process(0),
        schedule(n).last() == StepView::Process((n - 1) as nat),
        forall|i: int|
            0 <= i < schedule(n).len() && #[trigger] schedule(n)[i] is Pause ==> {
                &&& 0 < i < schedule(n).len() - 1
                &&& schedule(n)[i - 1] == StepView::Process(((i - 1) / 2) as nat)
                &&& schedule(n)[i + 1] == StepView::Process(((i + 1) / 2) as nat)
            },
        forall|k: nat|
            k < n ==> #[trigger] schedule(n)[2 * k as int] == StepView::Process(k),
    decreases n,
{
    if n > 1 {
        lemma_pauses_between_items((n - 1) as nat);
        let s = schedule(n);
        assert(s.drop_last().drop_last() =~= schedule((n - 1) as nat));
        assert(s.last() == StepView::Process((n - 1) as nat));
        assert(s.drop_last().last() == StepView::Pause);
        assert(pause_count(s.drop_last()) == pause_count(s.drop_last().drop_last()) + 1);
        assert(pause_count(s) == pause_count(s.drop_last()));
    } else {
        assert(schedule(n).drop_last() =~= Seq::<StepView>::empty());
        assert(pause_count(schedule(n)) == pause_count(schedule(n).drop_last()));
    }
    assert forall|k: nat| k < n implies #[trigger] schedule(n)[2 * k as int] == StepView::Process(k) by {
        assert((2 * k as int) % 2 == 0);
        assert((2 * k as int) / 2 == k);
    }
}

} // verus!
