//! A model of the fixed render target the external charting service
//! draws into.
//!
//! Each render action hands the service one finished specification;
//! the service reports success or failure. On success the target shows
//! that chart; on failure it keeps whatever it showed before, and the
//! failure is not propagated. Nothing orders the completions of
//! concurrently in-flight renders, so the chart finally on display is
//! the one of the last *completing* successful call, not of the last
//! call issued.

use vstd::prelude::*;

use crate::chart::{ChartSpec, ChartSpecV};

verus! {

/// The mount point the charts are drawn into. `shown` is the chart
/// currently on display, if any render has succeeded yet.
#[derive(Clone, Debug, PartialEq, Eq)]
pub struct RenderTarget {
    pub shown: Option<ChartSpec>,
}

impl View for RenderTarget {
    type V = Option<ChartSpecV>;

    /// The chart on display, as a mathematical value.
    open spec fn view(&self) -> Option<ChartSpecV> {
        match self.shown {
            Option::Some(ref s) => Option::Some(s@),
            Option::None => Option::None,
        }
    }
}

/// What one completed render call does to the display: a successful
/// call puts its chart up, a failed one changes nothing.
pub open spec fn apply_completion(
    shown: Option<ChartSpecV>,
    completion: (ChartSpecV, bool),
) -> Option<ChartSpecV> {
    if completion.1 {
        Option::Some(completion.0)
    } else {
        shown
    }
}

/// The display after a whole sequence of render completions, applied
/// in completion order.
pub open spec fn run_completions(
    shown: Option<ChartSpecV>,
    completions: Seq<(ChartSpecV, bool)>,
) -> Option<ChartSpecV>
    decreases completions.len(),
{
    if completions.len() == 0 {
        shown
    } else {
        run_completions(apply_completion(shown, completions[0]), completions.drop_first())
    }
}

impl RenderTarget {
    /// A freshly mounted target shows no chart yet.
    pub fn new() -> (r: RenderTarget)
        ensures
            r@ == Option::<ChartSpecV>::None,
    {
        RenderTarget { shown: Option::None }
    }

    /// Apply the outcome of one render call. A reported failure is
    /// absorbed here: it changes nothing, is not passed on, and leaves
    /// the target ready for the next call.
    pub fn complete(&mut self, spec: ChartSpec, ok: bool)
        ensures
            final(self)@ == apply_completion(old(self)@, (spec@, ok)),
    {
        if ok {
            self.shown = Option::Some(spec);
        }
    }
}

/// One more completed call extends the run by one application: a chain
/// of [`RenderTarget::complete`] calls, each of which ensures exactly
/// one [`apply_completion`] step, leaves the display at
/// [`run_completions`] of the whole chain.
pub proof fn lemma_run_completions_step(
    shown: Option<ChartSpecV>,
    completions: Seq<(ChartSpecV, bool)>,
    completion: (ChartSpecV, bool),
)
    ensures
        run_completions(shown, completions.push(completion)) == apply_completion(
            run_completions(shown, completions),
            completion,
        ),
    decreases completions.len(),
{
    let whole = completions.push(completion);
    if completions.len() == 0 {
        assert(whole[0] == completion);
        assert(whole.drop_first() =~= Seq::<(ChartSpecV, bool)>::empty());
        assert(run_completions(apply_completion(shown, completion), whole.drop_first())
            == apply_completion(shown, completion));
        assert(run_completions(shown, completions) == shown);
    } else {
        assert(whole[0] == completions[0]);
        assert(whole.drop_first() =~= completions.drop_first().push(completion));
        lemma_run_completions_step(
            apply_completion(shown, completions[0]),
            completions.drop_first(),
            completion,
        );
    }
}

/// If none of a run of render calls succeeds, the target still shows
/// exactly what it showed before the run.
pub proof fn lemma_all_failures_leave_target(
    shown: Option<ChartSpecV>,
    completions: Seq<(ChartSpecV, bool)>,
)
    requires
        forall|i: int| 0 <= i < completions.len() ==> !(#[trigger] completions[i]).1,
    ensures
        run_completions(shown, completions) == shown,
    decreases completions.len(),
{
    if completions.len() > 0 {
        lemma_all_failures_leave_target(shown, completions.drop_first());
    }
}

/// The latest-completing successful render decides the display: after
/// any run of completions whose last success sits at position `j`, the
/// target shows exactly that call's chart — whatever failed or
/// succeeded earlier, and whatever failed later.
pub proof fn lemma_last_success_wins(
    shown: Option<ChartSpecV>,
    completions: Seq<(ChartSpecV, bool)>,
    j: int,
)
    requires
        0 <= j < completions.len(),
        completions[j].1,
        forall|k: int| j < k < completions.len() ==> !(#[trigger] completions[k]).1,
    ensures
        run_completions(shown, completions) == Option::Some(completions[j].0),
    decreases completions.len(),
{
    let rest = completions.drop_first();
    if j == 0 {
        assert(forall|i: int| 0 <= i < rest.len() ==> !(#[trigger] rest[i]).1);
        lemma_all_failures_leave_target(Option::Some(completions[0].0), rest);
    } else {
        lemma_last_success_wins(apply_completion(shown, completions[0]), rest, j - 1);
    }
}

} // verus!
