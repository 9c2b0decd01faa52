use vstd::prelude::*;

verus! {

/// The event that carries a forwarded launch to the UI layer.
pub const OPEN_FILES_EVENT: &'static str = "open-files";

/// The label of the window that a forwarded launch brings forward.
pub const MAIN_WINDOW: &'static str = "main";

/// The steps of handling a launch forwarded by a secondary process, in
/// order. Each is best effort: its failure is discarded.
#[derive(Clone, Copy, Debug, PartialEq, Eq, Structural)]
pub enum ForwardStep {
    /// Emit `open-files` with the forwarded arguments and directory.
    EmitOpenFiles,
    /// Look up the main window.
    FindMainWindow,
    /// Restore the main window from a minimized state.
    Unminimize,
    /// Give the main window input focus.
    Focus,
    /// Nothing is left to do.
    Done,
}

/// The step after `step`, given whether it succeeded. Only a failed window
/// lookup changes the course: with no window, nothing is restored.
pub open spec fn spec_next_step(step: ForwardStep, succeeded: bool) -> ForwardStep {
    match step {
        ForwardStep::EmitOpenFiles => ForwardStep::FindMainWindow,
        ForwardStep::FindMainWindow => if succeeded {
            ForwardStep::Unminimize
        } else {
            ForwardStep::Done
        },
        ForwardStep::Unminimize => ForwardStep::Focus,
        ForwardStep::Focus => ForwardStep::Done,
        ForwardStep::Done => ForwardStep::Done,
    }
}

/// The step reached from `step` through the given outcomes, in order.
pub open spec fn step_after(step: ForwardStep, outcomes: Seq<bool>) -> ForwardStep
    decreases outcomes.len(),
{
    if outcomes.len() == 0 {
        step
    } else {
        step_after(spec_next_step(step, outcomes[0]), outcomes.drop_first())
    }
}

/// A launch forwarded from a secondary process, and how far its handling
/// has come.
pub struct Forwarding {
    pub args: Vec<String>,
    pub cwd: String,
    pub step: ForwardStep,
}

impl Forwarding {
    /// Starts handling a launch with arguments `args` in directory `cwd`:
    /// the first step emits `open-files`.
    pub fn new(args: Vec<String>, cwd: String) -> (r: Forwarding)
        ensures
            r.args@ == args@,
            r.cwd@ == cwd@,
            r.step == ForwardStep::EmitOpenFiles,
    {
        Forwarding { args, cwd, step: ForwardStep::EmitOpenFiles }
    }

    /// The payload of `open-files`: the forwarded arguments and directory,
    /// unchanged.
    pub fn open_files_payload(&self) -> (r: (Vec<String>, String))
        ensures
            r.0@ == self.args@,
            r.1@ == self.cwd@,
    {
        let args = self.args.clone();
        assert(args@ =~= self.args@);
        (args, self.cwd.clone())
    }

    /// Records the outcome of the current step and moves to the next.
    pub fn advance(&mut self, succeeded: bool)
        ensures
            final(self).step == spec_next_step(old(self).step, succeeded),
            final(self).args@ == old(self).args@,
            final(self).cwd@ == old(self).cwd@,
    {
        self.step = match self.step {
            ForwardStep::EmitOpenFiles => ForwardStep::FindMainWindow,
            ForwardStep::FindMainWindow => if succeeded {
                ForwardStep::Unminimize
            } else {
                ForwardStep::Done
            },
            ForwardStep::Unminimize => ForwardStep::Focus,
            ForwardStep::Focus => ForwardStep::Done,
            ForwardStep::Done => ForwardStep::Done,
        };
    }

    pub fn is_done(&self) -> (r: bool)
        ensures
            r == (self.step == ForwardStep::Done),
    {
        self.step == ForwardStep::Done
    }
}

/// Failures are never fatal: whatever each step's outcome, handling a
/// forwarded launch emits `open-files` first and exactly once, goes on past a
/// failed emission or restore, and is done after at most four outcomes; a
/// missing main window ends it right after the lookup.
pub proof fn lemma_forwarding_never_blocks(outcomes: Seq<bool>)
    ensures
        forall|s: ForwardStep, ok: bool| #[trigger] spec_next_step(s, ok) != ForwardStep::EmitOpenFiles,
        spec_next_step(ForwardStep::EmitOpenFiles, false) == ForwardStep::FindMainWindow,
        spec_next_step(ForwardStep::Unminimize, false) == ForwardStep::Focus,
        outcomes.len() >= 4 ==> step_after(ForwardStep::EmitOpenFiles, outcomes) == ForwardStep::Done,
        outcomes.len() >= 2 && !outcomes[1] ==> step_after(
            ForwardStep::EmitOpenFiles,
            outcomes.take(2),
        ) == ForwardStep::Done,
    decreases outcomes.len(),
{
    if outcomes.len() >= 4 {
        lemma_done_stays(outcomes.drop_first().drop_first().drop_first().drop_first());
        assert(step_after(ForwardStep::EmitOpenFiles, outcomes) == step_after(
            ForwardStep::Done,
            outcomes.drop_first().drop_first().drop_first().drop_first(),
        )) by {
            let o1 = outcomes.drop_first();
            let o2 = o1.drop_first();
            let o3 = o2.drop_first();
            assert(step_after(ForwardStep::EmitOpenFiles, outcomes) == step_after(ForwardStep::FindMainWindow, o1));
            if o1[0] {
                assert(step_after(ForwardStep::FindMainWindow, o1) == step_after(ForwardStep::Unminimize, o2));
                assert(step_after(ForwardStep::Unminimize, o2) == step_after(ForwardStep::Focus, o3));
            } else {
                assert(step_after(ForwardStep::FindMainWindow, o1) == step_after(ForwardStep::Done, o2));
                lemma_done_stays(o2);
                lemma_done_stays(o3);
                lemma_done_stays(o3.drop_first());
            }
        }
    }
    if outcomes.len() >= 2 && !outcomes[1] {
        let t = outcomes.take(2);
        let t1 = t.drop_first();
        assert(t1.len() == 1);
        assert(t1[0] == outcomes[1]);
        assert(step_after(ForwardStep::EmitOpenFiles, t) == step_after(ForwardStep::FindMainWindow, t1));
        assert(step_after(ForwardStep::FindMainWindow, t1) == step_after(ForwardStep::Done, t1.drop_first()));
        assert(t1.drop_first().len() == 0);
    }
}

/// Once done, handling stays done.
proof fn lemma_done_stays(outcomes: Seq<bool>)
    ensures
        step_after(ForwardStep::Done, outcomes) == ForwardStep::Done,
    decreases outcomes.len(),
{
    if outcomes.len() > 0 {
        lemma_done_stays(outcomes.drop_first());
    }
}

} // verus!
