use vstd::prelude::*;

verus! {

/// How long the simulated loading takes, in milliseconds.
pub const LOAD_MS: u64 = 2000;

/// What a frame shows while the sequencer runs.
#[derive(PartialEq, Eq, Structural, Clone, Copy, Debug)]
pub enum LoadStep {
    /// Still loading: show the progress prompt, `progress_ms` out of `LOAD_MS` done.
    Show { progress_ms: u64 },
    /// Loading has just completed: dismiss the prompt.
    Finish,
    /// Ready: show the main interface.
    Run,
}

/// The loading sequencer: `Loading` while `ready` is false, then `Ready` for good.
/// The loading fraction is `progress_ms / LOAD_MS`.
#[derive(PartialEq, Eq, Structural, Clone, Copy, Debug)]
pub struct Loader {
    pub ready: bool,
    pub progress_ms: u64,
}

impl Loader {
    /// Progress after a frame at `elapsed_ms` since start, capped at `LOAD_MS`
    /// and never below the progress already shown.
    pub open spec fn advanced(self, elapsed_ms: u64) -> u64 {
        let capped = if elapsed_ms < LOAD_MS { elapsed_ms } else { LOAD_MS };
        if capped < self.progress_ms { self.progress_ms } else { capped }
    }

    /// The state after a frame at `elapsed_ms`.
    pub open spec fn next(self, elapsed_ms: u64) -> Loader {
        if self.ready {
            self
        } else if self.progress_ms >= LOAD_MS {
            Loader { ready: true, progress_ms: self.progress_ms }
        } else {
            Loader { ready: false, progress_ms: self.advanced(elapsed_ms) }
        }
    }

    /// What a frame at `elapsed_ms` shows.
    pub open spec fn step_of(self, elapsed_ms: u64) -> LoadStep {
        if self.ready {
            LoadStep::Run
        } else if self.progress_ms >= LOAD_MS {
            LoadStep::Finish
        } else {
            LoadStep::Show { progress_ms: self.advanced(elapsed_ms) }
        }
    }

    /// The state after frames at each time of `times`, in order.
    pub open spec fn run(self, times: Seq<u64>) -> Loader
        decreases times.len(),
    {
        if times.len() == 0 {
            self
        } else {
            self.next(times[0]).run(times.drop_first())
        }
    }

    /// How many frames at the times of `times` complete the loading.
    pub open spec fn finishes(self, times: Seq<u64>) -> nat
        decreases times.len(),
    {
        if times.len() == 0 {
            0
        } else {
            (if self.step_of(times[0]) == LoadStep::Finish { 1nat } else { 0nat })
                + self.next(times[0]).finishes(times.drop_first())
        }
    }

    /// A sequencer that has not started loading.
    pub fn new() -> (r: Loader)
        ensures
            r == (Loader { ready: false, progress_ms: 0 }),
    {
        Loader { ready: false, progress_ms: 0 }
    }

    /// Runs one frame at `elapsed_ms` milliseconds since start.
    pub fn frame(&mut self, elapsed_ms: u64) -> (r: LoadStep)
        ensures
            *final(self) == old(self).next(elapsed_ms),
            r == old(self).step_of(elapsed_ms),
    {
        if self.ready {
            LoadStep::Run
        } else if self.progress_ms >= LOAD_MS {
            self.ready = true;
            LoadStep::Finish
        } else {
            let capped = if elapsed_ms < LOAD_MS { elapsed_ms } else { LOAD_MS };
            if capped > self.progress_ms {
                self.progress_ms = capped;
            }
            LoadStep::Show { progress_ms: self.progress_ms }
        }
    }
}

/// The loading fraction never decreases from one frame to the next, whatever
/// time the frame reports.
pub proof fn progress_never_decreases(s: Loader, elapsed_ms: u64)
    ensures
        s.next(elapsed_ms).progress_ms >= s.progress_ms,
{
}

/// Once ready, the sequencer stays ready, over any run of frames.
pub proof fn ready_never_reverts(s: Loader, times: Seq<u64>)
    requires
        s.ready,
    ensures
        s.run(times) == s,
        s.finishes(times) == 0,
    decreases times.len(),
{
    if times.len() > 0 {
        ready_never_reverts(s.next(times[0]), times.drop_first());
    }
}

/// Over any run of frames the transition to ready happens at most once, and
/// a frame completes the loading exactly when the sequencer goes from not
/// ready to ready.
pub proof fn ready_transition_at_most_once(s: Loader, times: Seq<u64>)
    ensures
        s.finishes(times) <= 1,
        s.ready ==> s.finishes(times) == 0,
        !s.ready ==> (s.finishes(times) == 1 <==> s.run(times).ready),
    decreases times.len(),
{
    if times.len() > 0 {
        let t = s.next(times[0]);
        ready_transition_at_most_once(t, times.drop_first());
        if t.ready {
            ready_never_reverts(t, times.drop_first());
        }
    }
}

/// Two frames at or after the loading time complete the loading.
pub proof fn loading_completes(s: Loader, t1: u64, t2: u64)
    requires
        t1 >= LOAD_MS,
    ensures
        s.next(t1).next(t2).ready,
{
}

} // verus!
