//! The retry-bounded loader.
//!
//! On each tick the loader pulls a path from the provider and asks for it to
//! be decoded. A decode failure is a `Suppressed` signal: it is absorbed
//! inside the loader's retry cycle, which immediately pulls the next path at
//! the same tick, so a bad file never costs a tick and is never seen
//! downstream. An exhausted provider is fatal. An unbroken run of failures
//! longer than the configured retry bound is treated as fatal too, so a
//! permanently failing decoder cannot spin the cycle forever.

use vstd::prelude::*;

use crate::dataflow::ImageData;
use crate::errors::{fatal_err, RunControl, RunResult};
use crate::provider::Provider;

verus! {

/// What the loader asks for or hands on after a step.
pub enum LoaderStep {
    /// Decode this path and feed the outcome back in.
    NeedDecode(String),
    /// The path was decoded; here is the image. At most one of these is
    /// produced per tick.
    Loaded(String, ImageData),
    /// The run is over: the provider is exhausted, or failures exceeded the
    /// retry bound.
    Terminate,
}

/// The state of the retry cycle.
pub struct Loader {
    /// How many consecutive decode failures are tolerated within one tick
    /// before the run is ended.
    pub max_retries: u32,
    /// The path handed out for decoding, while one is outstanding.
    pub pending: Option<String>,
    /// Consecutive decode failures seen in the current tick.
    pub failures: u32,
    /// Whether the loader has ended the run.
    pub terminated: bool,
}

impl Loader {
    /// The loader's invariant: the failure count never exceeds the bound.
    pub open spec fn inv(&self) -> bool {
        self.failures <= self.max_retries
    }

    /// Pull the next path from a source with remaining elements `src`:
    /// yields a decode request, or ends the run if the source is exhausted.
    pub open spec fn spec_pull(self, src: Seq<String>) -> (Loader, Seq<String>, LoaderStep) {
        if src.len() == 0 {
            (
                Loader { pending: None, terminated: true, ..self },
                src,
                LoaderStep::Terminate,
            )
        } else {
            (
                Loader { pending: Some(src[0]), ..self },
                src.drop_first(),
                LoaderStep::NeedDecode(src[0]),
            )
        }
    }

    /// What a tick does: reset the failure count and pull the first path.
    pub open spec fn spec_on_tick(self, src: Seq<String>) -> (Loader, Seq<String>, LoaderStep) {
        Loader { failures: 0, ..self }.spec_pull(src)
    }

    /// What a decode outcome does: success hands the pair on; a suppressed
    /// failure within the retry bound pulls the next path at the same tick;
    /// exceeding the bound, or a fatal outcome, ends the run.
    pub open spec fn spec_on_decode(
        self,
        src: Seq<String>,
        outcome: RunResult<ImageData>,
    ) -> (Loader, Seq<String>, LoaderStep) {
        match outcome {
            Ok(image) => (
                Loader { pending: None, failures: 0, ..self },
                src,
                LoaderStep::Loaded(self.pending.unwrap(), image),
            ),
            Err(RunControl::Suppressed) => {
                if self.failures >= self.max_retries {
                    (
                        Loader { pending: None, terminated: true, ..self },
                        src,
                        LoaderStep::Terminate,
                    )
                } else {
                    Loader { pending: None, failures: (self.failures + 1) as u32, ..self }
                        .spec_pull(src)
                }
            }
            Err(RunControl::Terminate) => (
                Loader { pending: None, terminated: true, ..self },
                src,
                LoaderStep::Terminate,
            ),
        }
    }

    /// A loader that tolerates up to `max_retries` consecutive decode
    /// failures per tick.
    pub fn new(max_retries: u32) -> (l: Loader)
        ensures
            l.inv(),
            l.max_retries == max_retries,
            l.pending is None,
            l.failures == 0,
            !l.terminated,
    {
        Loader { max_retries, pending: None, failures: 0, terminated: false }
    }

    /// Pull the next path from the provider, ending the run if it is
    /// exhausted or fails.
    fn pull<P: Provider<String>>(&mut self, source: &mut P) -> (r: LoaderStep)
        ensures
            (*final(self), final(source).remaining(), r) == old(self).spec_pull(
                old(source).remaining(),
            ),
    {
        match fatal_err(source.next_image()) {
            Err(_) => {
                self.pending = None;
                self.terminated = true;
                LoaderStep::Terminate
            }
            Ok(path) => {
                self.pending = Some(path.clone());
                LoaderStep::NeedDecode(path)
            }
        }
    }

    /// A tick arrived: begin a fresh retry cycle by pulling the first path.
    ///
    /// Never yields `Loaded`: an image is only handed on once its decode
    /// outcome has come back through `on_decode`.
    pub fn on_tick<P: Provider<String>>(&mut self, source: &mut P) -> (r: LoaderStep)
        requires
            old(self).inv(),
            !old(self).terminated,
            old(self).pending is None,
        ensures
            final(self).inv(),
            (*final(self), final(source).remaining(), r) == old(self).spec_on_tick(
                old(source).remaining(),
            ),
            !(r is Loaded),
    {
        self.failures = 0;
        self.pull(source)
    }

    /// A decode outcome came back for the pending path.
    ///
    /// A `Suppressed` failure is consumed here: the caller either receives a
    /// new decode request or a fatal signal, never a suppressed one.
    pub fn on_decode<P: Provider<String>>(
        &mut self,
        source: &mut P,
        outcome: RunResult<ImageData>,
    ) -> (r: LoaderStep)
        requires
            old(self).inv(),
            !old(self).terminated,
            old(self).pending is Some,
        ensures
            final(self).inv(),
            (*final(self), final(source).remaining(), r) == old(self).spec_on_decode(
                old(source).remaining(),
                outcome,
            ),
            r is Loaded ==> outcome is Ok,
    {
        match outcome {
            Ok(image) => {
                let path = match self.pending.take() {
                    Some(p) => p,
                    None => String::new(),  // unreachable: a decode is outstanding
                };
                self.failures = 0;
                LoaderStep::Loaded(path, image)
            }
            Err(RunControl::Suppressed) => {
                if self.failures >= self.max_retries {
                    self.pending = None;
                    self.terminated = true;
                    LoaderStep::Terminate
                } else {
                    self.failures = self.failures + 1;
                    self.pending = None;
                    self.pull(source)
                }
            }
            Err(RunControl::Terminate) => {
                self.pending = None;
                self.terminated = true;
                LoaderStep::Terminate
            }
        }
    }
}

/// The loader state, the source and the steps handed on after `k`
/// consecutive suppressed decode failures, starting from a state with an
/// outstanding decode request.
pub open spec fn spec_after_failures(l: Loader, src: Seq<String>, k: nat) -> (
    Loader,
    Seq<String>,
    Seq<LoaderStep>,
)
    decreases k,
{
    if k == 0 {
        (l, src, Seq::empty())
    } else {
        let (l1, src1, steps) = spec_after_failures(l, src, (k - 1) as nat);
        let (l2, src2, step) = l1.spec_on_decode(src1, Err(RunControl::Suppressed));
        (l2, src2, steps.push(step))
    }
}

/// What a chain of `k` suppressed decode failures does, starting from a
/// state with an outstanding decode request and enough retry budget: each
/// failure consumes exactly one further path from the source and yields a
/// new decode request for it — never a suppressed signal, never an image —
/// and the loader ends with the `k`-th further path outstanding.
pub proof fn lemma_failure_chain(l: Loader, src: Seq<String>, k: nat)
    requires
        l.inv(),
        !l.terminated,
        l.pending is Some,
        l.failures + k <= l.max_retries,
        k <= src.len(),
    ensures
        ({
            let (l2, src2, steps) = spec_after_failures(l, src, k);
            &&& steps.len() == k
            &&& forall|i: int|
                0 <= i < k ==> #[trigger] steps[i] == LoaderStep::NeedDecode(src[i])
            &&& l2.pending == (if k == 0 {
                l.pending
            } else {
                Some(src[k - 1])
            })
            &&& l2.failures == l.failures + k
            &&& l2.max_retries == l.max_retries
            &&& !l2.terminated
            &&& src2 == src.skip(k as int)
        }),
    decreases k,
{
    if k == 0 {
        assert(src.skip(0) =~= src);
    } else {
        lemma_failure_chain(l, src, (k - 1) as nat);
        let (lp, srcp, stepsp) = spec_after_failures(l, src, (k - 1) as nat);
        let (l2, src2, steps) = spec_after_failures(l, src, k);
        assert(srcp == src.skip(k - 1));
        assert(srcp[0] == src[k - 1]);
        assert(src2 =~= src.skip(k as int));
    }
}

/// Retry exhaustion: starting a tick against a source that yields `m` paths
/// whose decodes fail and then a path whose decode succeeds, the loader
/// consumes all `m` failures internally — every intermediate step is a new
/// decode request, never a suppressed signal and never an image — and the
/// one decode success then hands on exactly one loaded pair, carrying the
/// path beyond the failures.
pub proof fn lemma_retry_exhaustion(l: Loader, src: Seq<String>, m: nat, image: ImageData)
    requires
        l.inv(),
        !l.terminated,
        m <= l.max_retries,
        m < src.len(),
    ensures
        ({
            let (l1, src1, first) = l.spec_on_tick(src);
            let (l2, src2, steps) = spec_after_failures(l1, src1, m);
            let (l3, src3, last) = l2.spec_on_decode(src2, Ok(image));
            &&& first == LoaderStep::NeedDecode(src[0])
            &&& forall|i: int|
                0 <= i < steps.len() ==> #[trigger] steps[i] == LoaderStep::NeedDecode(
                    src[i + 1],
                )
            &&& last == LoaderStep::Loaded(src[m as int], image)
            &&& src3 == src.skip(m + 1int)
            &&& !l3.terminated
            &&& l3.pending is None
            &&& l3.failures == 0
        }),
{
    let (l1, src1, first) = l.spec_on_tick(src);
    assert(src1 == src.drop_first());
    assert(src1 =~= src.skip(1));
    lemma_failure_chain(l1, src1, m);
    let (l2, src2, steps) = spec_after_failures(l1, src1, m);
    assert(src2 == src1.skip(m as int));
    assert(src2 =~= src.skip(m + 1int));
    assert forall|i: int| 0 <= i < steps.len() implies #[trigger] steps[i]
        == LoaderStep::NeedDecode(src[i + 1]) by {
        assert(steps[i] == LoaderStep::NeedDecode(src1[i]));
        assert(src1[i] == src[i + 1]);
    }
    if m == 0 {
        assert(l2.pending == Some(src[0]));
    } else {
        assert(l2.pending == Some(src1[m - 1]));
        assert(src1[m - 1] == src[m as int]);
    }
}

} // verus!
