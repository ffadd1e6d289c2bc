//! The scheduler driver: the outer loop of the engine.
//!
//! The driver owns the operator graph — ticker, retry-bounded loader, the
//! two joins and the compose stage — and advances it from wall-clock time.
//! The surrounding program calls [`Driver::poll`] once per iteration with
//! the elapsed time and the display dimensions; the driver answers with the
//! next piece of outside work it needs — decode a path, format a status
//! line, rasterize a text strip, dispatch committed instructions — and the
//! program feeds each result back in through the matching `offer` call.
//! Within one iteration the driver processes up to two logical time
//! buckets: the configuration events stamped at the previous input time,
//! and, if the ticker fired, the tick chain at the retained tick time.
//!
//! Committed render instructions are handed out exactly once, in commit
//! order. A `Terminate` from the loader, or a failed dispatch, moves the
//! driver to `Stopped`, which is terminal; while committed instructions of
//! the final iteration are still being handed out the driver is `Draining`.

use vstd::prelude::*;

use crate::clock::Frontier;
use crate::ticker::Ticker;
use crate::compose::{spec_compose, Compose};
use crate::dataflow::{ConfigAdjuster, Configuration, ImageData, Placement, Render,
    STATUS_TEXT_SLOT};
use crate::errors::{suppress_err, RahmenResult};
use crate::layout::{apply_configs, TextJoin, TextRequest};
use crate::loader::{Loader, LoaderStep};
use crate::provider::Provider;
use crate::resize::{has_screen_update, spec_screen_after, ResizeJoin};

verus! {

/// The driver's run state.
#[derive(Clone, Copy, Debug, PartialEq, Eq, Structural)]
pub enum DriverState {
    /// The schedule is running.
    Running,
    /// A fatal signal was observed; the final committed instructions are
    /// still being handed out.
    Draining,
    /// The run is over. Terminal: no transition leaves this state.
    Stopped,
}

/// Where the driver stands within one iteration.
pub enum DriverPhase {
    /// Between iterations; the next call must be `poll`.
    Idle,
    /// A decode request is out; the next call must be `offer_decode`.
    AwaitDecode,
    /// A status-line request is out for a decoded image; the next call must
    /// be `offer_status`.
    AwaitStatus {
        /// The decoded image, waiting to enter the resize join.
        image: ImageData,
    },
    /// A text rasterization request is out; the next call must be
    /// `offer_text_image`.
    AwaitRaster {
        /// The photograph placement of the same bucket, if the resize join
        /// emitted one; it is committed before the text strip.
        photo: Option<Placement>,
        /// Horizontal anchor for the strip placement.
        x: i64,
        /// Vertical anchor for the strip placement.
        y: i64,
    },
    /// Committed instructions are out; the next call must be
    /// `finish_dispatch`.
    Dispatching,
}

/// What the driver asks the surrounding program to do next.
pub enum DriverAction {
    /// Decode this path and feed the outcome to `offer_decode`.
    Decode {
        /// The path to decode.
        path: String,
    },
    /// Format the status line for this path and feed the lines to
    /// `offer_status`.
    FormatStatus {
        /// The path whose metadata makes the status line.
        path: String,
    },
    /// Rasterize this text strip and feed the pixels to
    /// `offer_text_image`.
    RasterizeText {
        /// The strip to rasterize.
        request: TextRequest,
    },
    /// Hand these instructions to the display, in order, present the
    /// result, and feed the outcome to `finish_dispatch`.
    Dispatch {
        /// The committed instructions, in commit order.
        instructions: Vec<Render>,
    },
    /// Nothing to do until the clock advances; poll again later.
    Idle,
    /// The run is over.
    Stopped,
}

/// The adjuster folded over a whole bucket of configuration events, with
/// the adjusted events it forwards.
pub open spec fn spec_adjust_all(a: ConfigAdjuster, cfgs: Seq<Configuration>) -> (
    ConfigAdjuster,
    Seq<Configuration>,
)
    decreases cfgs.len(),
{
    if cfgs.len() == 0 {
        (a, Seq::empty())
    } else {
        let first = a.spec_adjusted(cfgs[0]);
        let (a2, rest) = spec_adjust_all(a.spec_after(cfgs[0]), cfgs.drop_first());
        (a2, seq![first] + rest)
    }
}

/// The scheduler driver, generic over the path source it pulls from.
pub struct Driver<P> {
    /// The path source.
    pub source: P,
    /// The ticker pacing the slideshow.
    pub ticker: Ticker,
    /// The retry-bounded loader.
    pub loader: Loader,
    /// The configuration adjuster feeding the resize join.
    pub adjuster: ConfigAdjuster,
    /// The text layout join.
    pub text_join: TextJoin,
    /// The resize join.
    pub resize_join: ResizeJoin,
    /// The compose / blank-inference join.
    pub compose: Compose,
    /// The input clock's frontier.
    pub input: Frontier,
    /// Configuration events stamped at the current input time, not yet
    /// delivered to the joins.
    pub pending_configs: Vec<Configuration>,
    /// The display dimensions last pushed into the graph.
    pub last_dims: Option<(u32, u32)>,
    /// The run state.
    pub state: DriverState,
    /// Where the driver stands within the current iteration.
    pub phase: DriverPhase,
    /// Whether the ticker fired this iteration and the tick chain has not
    /// run yet.
    pub tick_pending: bool,
    /// Whether a fatal signal was observed this iteration.
    pub terminating: bool,
    /// Committed instructions not yet handed to the display.
    pub outbox: Vec<Render>,
    /// Every instruction ever committed, in commit order.
    pub log: Ghost<Seq<Render>>,
    /// How many committed instructions have been handed to the display.
    pub dispatched: Ghost<int>,
}

impl<P: Provider<String>> Driver<P> {
    /// The driver's invariant: the components are well-formed, the
    /// undispatched committed instructions are exactly the log beyond what
    /// was handed out, and the phase, run state and loader agree.
    pub open spec fn inv(&self) -> bool {
        &&& self.ticker.wf()
        &&& self.loader.inv()
        &&& self.resize_join.inv()
        &&& 0 <= self.dispatched@ <= self.log@.len()
        &&& self.outbox@ == self.log@.skip(self.dispatched@)
        &&& (self.state is Draining ==> self.phase is Dispatching)
        &&& (self.state is Running && !self.terminating ==> !self.loader.terminated)
        &&& (self.phase is AwaitDecode ==> self.loader.pending is Some && self.state is Running
            && !self.terminating && !self.tick_pending)
        &&& (!(self.phase is AwaitDecode) ==> self.loader.pending is None)
        &&& (self.phase is AwaitStatus || self.phase is AwaitRaster ==> self.state is Running
            && !self.terminating)
        &&& (self.tick_pending ==> self.phase is AwaitRaster)
        &&& (self.phase is Dispatching ==> !self.terminating)
        &&& (self.phase is Idle ==> !self.tick_pending && !self.terminating)
        &&& (self.state is Stopped ==> self.phase is Idle)
    }

    /// The configuration events an iteration delivers: what was queued at
    /// the current input time, followed by a viewport update if the display
    /// dimensions changed.
    pub open spec fn iteration_configs(self, dims: (u32, u32)) -> Seq<Configuration> {
        self.pending_configs@ + (if Some(dims) == self.last_dims {
            Seq::empty()
        } else {
            seq![Configuration::ScreenDimensions(dims.0, dims.1)]
        })
    }

    /// A driver over `source`, showing a new image every `delay`
    /// milliseconds, tolerating `max_retries` consecutive decode failures
    /// per tick, with the initial font configuration queued at time zero.
    pub fn new(source: P, delay: u64, font_size: u32, vstretch: u32, max_retries: u32) -> (d:
        Driver<P>)
        requires
            delay >= 1,
        ensures
            d.inv(),
            d.state is Running,
            d.phase is Idle,
            d.ticker.spec_delay() == delay,
            d.ticker.spec_start() == 0,
            d.ticker.spec_ticks().len() == 0,
            d.input.spec_min() == 0,
            !d.input.is_closed(),
            d.pending_configs@ == seq![
                Configuration::FontSize(font_size),
                Configuration::FontCanvasVStretch(vstretch),
            ],
            d.last_dims is None,
            d.loader.max_retries == max_retries,
            d.loader.pending is None,
            d.loader.failures == 0,
            !d.loader.terminated,
            d.adjuster.spec_font_size() is None,
            d.adjuster.spec_vstretch() is None,
            d.text_join.screen is None,
            d.text_join.font_size is None,
            d.text_join.vstretch is None,
            d.text_join.text is None,
            d.resize_join.screen is None,
            d.resize_join.image is None,
            d.compose.boxes@.len() == 0,
            d.outbox@.len() == 0,
            d.log@.len() == 0,
            d.dispatched@ == 0,
            !d.tick_pending,
            !d.terminating,
            d.source == source,
    {
        let mut pending_configs: Vec<Configuration> = Vec::new();
        pending_configs.push(Configuration::FontSize(font_size));
        pending_configs.push(Configuration::FontCanvasVStretch(vstretch));
        proof {
            assert(pending_configs@ =~= seq![
                Configuration::FontSize(font_size),
                Configuration::FontCanvasVStretch(vstretch),
            ]);
            assert(Seq::<Render>::empty().skip(0) =~= Seq::<Render>::empty());
        }
        Driver {
            source,
            ticker: Ticker::new(delay, 0),
            loader: Loader::new(max_retries),
            adjuster: ConfigAdjuster::new(),
            text_join: TextJoin::new(),
            resize_join: ResizeJoin::new(),
            compose: Compose::new(),
            input: Frontier::new(0),
            pending_configs,
            last_dims: None,
            state: DriverState::Running,
            phase: DriverPhase::Idle,
            tick_pending: false,
            terminating: false,
            outbox: Vec::new(),
            log: Ghost(Seq::empty()),
            dispatched: Ghost(0),
        }
    }

    /// The current run state.
    pub fn current_state(&self) -> (s: DriverState)
        ensures
            s == self.state,
    {
        self.state
    }

    /// Pass one bucket of configuration events through the adjuster.
    fn adjust_all(&mut self, cfgs: &Vec<Configuration>) -> (r: Vec<Configuration>)
        ensures
            (final(self).adjuster, r@) == spec_adjust_all(old(self).adjuster, cfgs@),
            final(self).phase == old(self).phase,
            final(self).source == old(self).source,
            final(self).ticker == old(self).ticker,
            final(self).loader == old(self).loader,
            final(self).text_join == old(self).text_join,
            final(self).resize_join == old(self).resize_join,
            final(self).compose == old(self).compose,
            final(self).input == old(self).input,
            final(self).pending_configs == old(self).pending_configs,
            final(self).last_dims == old(self).last_dims,
            final(self).state == old(self).state,
            final(self).tick_pending == old(self).tick_pending,
            final(self).terminating == old(self).terminating,
            final(self).outbox == old(self).outbox,
            final(self).log == old(self).log,
            final(self).dispatched == old(self).dispatched,
    {
        let ghost orig = self.adjuster;
        let mut out: Vec<Configuration> = Vec::new();
        let mut idx: usize = 0;
        proof {
            assert(cfgs@.skip(0) =~= cfgs@);
        }
        while idx < cfgs.len()
            invariant
                idx <= cfgs@.len(),
                spec_adjust_all(orig, cfgs@).0 == spec_adjust_all(
                    self.adjuster,
                    cfgs@.skip(idx as int),
                ).0,
                spec_adjust_all(orig, cfgs@).1 == out@ + spec_adjust_all(
                    self.adjuster,
                    cfgs@.skip(idx as int),
                ).1,
                self.phase == old(self).phase,
                self.source == old(self).source,
                self.ticker == old(self).ticker,
                self.loader == old(self).loader,
                self.text_join == old(self).text_join,
                self.resize_join == old(self).resize_join,
                self.compose == old(self).compose,
                self.input == old(self).input,
                self.pending_configs == old(self).pending_configs,
                self.last_dims == old(self).last_dims,
                self.state == old(self).state,
                self.tick_pending == old(self).tick_pending,
                self.terminating == old(self).terminating,
                self.outbox == old(self).outbox,
                self.log == old(self).log,
                self.dispatched == old(self).dispatched,
                orig == old(self).adjuster,
            decreases cfgs@.len() - idx,
        {
            let ghost before = self.adjuster;
            let ghost out_before = out@;
            proof {
                assert(cfgs@.skip(idx as int).drop_first() =~= cfgs@.skip(idx as int + 1));
                assert(cfgs@.skip(idx as int)[0] == cfgs@[idx as int]);
            }
            let adjusted = self.adjuster.adjust(cfgs[idx]);
            out.push(adjusted);
            proof {
                assert(out@ + spec_adjust_all(self.adjuster, cfgs@.skip(idx as int + 1)).1
                    =~= out_before + (seq![adjusted] + spec_adjust_all(
                    self.adjuster,
                    cfgs@.skip(idx as int + 1),
                ).1));
            }
            idx = idx + 1;
        }
        proof {
            assert(cfgs@.skip(cfgs@.len() as int) =~= Seq::<Configuration>::empty());
            assert(out@ + Seq::<Configuration>::empty() =~= out@);
        }
        out
    }

    /// Commit one bucket's placements: run them through the compose join
    /// and append the resulting instructions to the outbox and the log.
    fn commit_bucket(&mut self, placements: Vec<Placement>)
        ensures
            (final(self).compose.boxes@, final(self).log@.skip(old(self).log@.len() as int))
                == spec_compose(old(self).compose.boxes@, placements@),
            final(self).log@.take(old(self).log@.len() as int) == old(self).log@,
            final(self).log@.len() >= old(self).log@.len(),
            final(self).dispatched == old(self).dispatched,
            0 <= old(self).dispatched@ <= old(self).log@.len() ==> 0 <= final(self).dispatched@
                <= final(self).log@.len(),
            (old(self).outbox@ == old(self).log@.skip(old(self).dispatched@) && 0 <= old(self).dispatched@ <= old(self).log@.len()) ==> final(self).outbox@ == final(self).log@.skip(final(self).dispatched@),
            final(self).source == old(self).source,
            final(self).ticker == old(self).ticker,
            final(self).loader == old(self).loader,
            final(self).adjuster == old(self).adjuster,
            final(self).text_join == old(self).text_join,
            final(self).resize_join == old(self).resize_join,
            final(self).input == old(self).input,
            final(self).pending_configs == old(self).pending_configs,
            final(self).last_dims == old(self).last_dims,
            final(self).state == old(self).state,
            final(self).phase == old(self).phase,
            final(self).tick_pending == old(self).tick_pending,
            final(self).terminating == old(self).terminating,
    {
        let mut emitted = self.compose.on_notify(placements);
        let ghost emitted_view = emitted@;
        let ghost old_log = self.log@;
        let ghost old_outbox = self.outbox@;
        self.outbox.append(&mut emitted);
        self.log = Ghost(self.log@ + emitted_view);
        proof {
            assert(self.log@.skip(old_log.len() as int) =~= emitted_view);
            assert(self.log@.take(old_log.len() as int) =~= old_log);
            if old_outbox == old_log.skip(self.dispatched@) && 0 <= self.dispatched@
                <= old_log.len() {
                assert(self.outbox@ =~= self.log@.skip(self.dispatched@));
            }
        }
    }

    /// End the iteration: hand out the committed instructions if there are
    /// any, stop if a fatal signal was observed, else go idle.
    fn finish_iteration(&mut self) -> (r: DriverAction)
        requires
            old(self).ticker.wf(),
            old(self).loader.inv(),
            old(self).resize_join.inv(),
            0 <= old(self).dispatched@ <= old(self).log@.len(),
            old(self).outbox@ == old(self).log@.skip(old(self).dispatched@),
            !(old(self).phase is AwaitDecode),
            old(self).loader.pending is None,
            !old(self).tick_pending,
            !(old(self).state is Draining),
            !(old(self).state is Stopped),
            !old(self).terminating ==> !old(self).loader.terminated,
        ensures
            final(self).inv(),
            final(self).source == old(self).source,
            final(self).ticker == old(self).ticker,
            final(self).loader == old(self).loader,
            final(self).adjuster == old(self).adjuster,
            final(self).text_join == old(self).text_join,
            final(self).resize_join == old(self).resize_join,
            final(self).compose == old(self).compose,
            final(self).input == old(self).input,
            final(self).pending_configs == old(self).pending_configs,
            final(self).last_dims == old(self).last_dims,
            final(self).log == old(self).log,
            r matches DriverAction::Dispatch { instructions } ==> ({
                &&& instructions@ == old(self).log@.skip(old(self).dispatched@)
                &&& instructions@.len() > 0
                &&& final(self).dispatched@ == final(self).log@.len()
                &&& final(self).phase is Dispatching
                &&& final(self).state == (if old(self).terminating {
                    DriverState::Draining
                } else {
                    old(self).state
                })
            }),
            r is Stopped ==> final(self).state is Stopped && old(self).outbox@.len() == 0
                && old(self).terminating,
            r is Idle ==> final(self).state == old(self).state && final(self).phase is Idle
                && old(self).outbox@.len() == 0 && !old(self).terminating,
            (r is Dispatch || r is Stopped || r is Idle),
            r is Dispatch <==> old(self).outbox@.len() > 0,
            (r is Idle || r is Stopped) ==> final(self).outbox@.len() == 0 && final(self).dispatched == old(self).dispatched,
    {
        if self.outbox.len() > 0 {
            let mut instructions: Vec<Render> = Vec::new();
            core::mem::swap(&mut instructions, &mut self.outbox);
            if self.terminating {
                self.state = DriverState::Draining;
            }
            self.terminating = false;
            self.tick_pending = false;
            self.phase = DriverPhase::Dispatching;
            self.dispatched = Ghost(self.log@.len() as int);
            proof {
                assert(self.outbox@ =~= self.log@.skip(self.dispatched@));
            }
            DriverAction::Dispatch { instructions }
        } else if self.terminating {
            self.terminating = false;
            self.tick_pending = false;
            self.phase = DriverPhase::Idle;
            self.state = DriverState::Stopped;
            DriverAction::Stopped
        } else {
            self.tick_pending = false;
            self.phase = DriverPhase::Idle;
            DriverAction::Idle
        }
    }

    /// Run the tick chain if the ticker fired this iteration, then end the
    /// iteration.
    fn continue_tick(&mut self) -> (r: DriverAction)
        requires
            old(self).ticker.wf(),
            old(self).loader.inv(),
            old(self).resize_join.inv(),
            0 <= old(self).dispatched@ <= old(self).log@.len(),
            old(self).outbox@ == old(self).log@.skip(old(self).dispatched@),
            old(self).loader.pending is None,
            old(self).phase is Idle,
            !old(self).terminating,
            old(self).tick_pending ==> !old(self).loader.terminated,
            !old(self).terminating ==> !old(self).loader.terminated,
            !(old(self).state is Draining),
            !(old(self).state is Stopped),
        ensures
            final(self).inv(),
            final(self).source.remaining() == (if old(self).tick_pending {
                old(self).loader.spec_on_tick(old(self).source.remaining()).1
            } else {
                old(self).source.remaining()
            }),
            final(self).ticker == old(self).ticker,
            final(self).adjuster == old(self).adjuster,
            final(self).text_join == old(self).text_join,
            final(self).resize_join == old(self).resize_join,
            final(self).compose == old(self).compose,
            final(self).input == old(self).input,
            final(self).pending_configs == old(self).pending_configs,
            final(self).last_dims == old(self).last_dims,
            final(self).log == old(self).log,
            !old(self).tick_pending ==> final(self).loader == old(self).loader && final(self).source == old(self).source,
            r matches DriverAction::Decode { path } ==> ({
                &&& old(self).tick_pending
                &&& (final(self).loader, final(self).source.remaining(),
                    LoaderStep::NeedDecode(path)) == old(self).loader.spec_on_tick(
                    old(self).source.remaining(),
                )
                &&& final(self).phase is AwaitDecode
            }),
            old(self).tick_pending && old(self).loader.spec_on_tick(
                old(self).source.remaining(),
            ).2 is NeedDecode ==> r is Decode,
            (r is Dispatch || r is Stopped || r is Idle || r is Decode),
            r matches DriverAction::Dispatch { instructions } ==> instructions@ == old(self).log@.skip(old(self).dispatched@) && final(self).phase is Dispatching
                && instructions@.len() > 0 && final(self).dispatched@ == final(self).log@.len(),
            r is Stopped ==> final(self).state is Stopped,
            r is Idle ==> final(self).phase is Idle && final(self).state == old(self).state,
            (r is Idle || r is Stopped) ==> final(self).outbox@.len() == 0,
            r is Idle ==> final(self).dispatched == old(self).dispatched,
            old(self).tick_pending && old(self).loader.spec_on_tick(
                old(self).source.remaining(),
            ).2 is Terminate ==> ((r is Dispatch && final(self).state is Draining) || (
            r is Stopped && final(self).state is Stopped)),
            !old(self).tick_pending ==> (r is Dispatch <==> old(self).outbox@.len() > 0),
    {
        if self.tick_pending {
            self.tick_pending = false;
            let step = self.loader.on_tick(&mut self.source);
            match step {
                LoaderStep::NeedDecode(path) => {
                    self.phase = DriverPhase::AwaitDecode;
                    DriverAction::Decode { path }
                }
                LoaderStep::Terminate => {
                    self.terminating = true;
                    self.phase = DriverPhase::Idle;
                    self.finish_iteration()
                }
                LoaderStep::Loaded(_path, _image) => {
                    // unreachable: a tick never yields an image directly
                    proof {
                        assert(false);
                    }
                    self.phase = DriverPhase::Idle;
                    self.finish_iteration()
                }
            }
        } else {
            self.finish_iteration()
        }
    }

    /// One driver iteration: read the clock and the display dimensions,
    /// deliver the queued configuration events, step the ticker — at most
    /// one tick fires, however far the clock jumped — and hand back the
    /// first piece of outside work this iteration needs.
    ///
    /// `Stopped` is terminal: once the run is over, every further poll
    /// answers `Stopped` and changes nothing.
    #[verifier::rlimit(100)]
    pub fn poll(&mut self, now: u64, dims: (u32, u32)) -> (r: DriverAction)
        requires
            old(self).inv(),
            old(self).phase is Idle,
            now >= old(self).input.spec_min(),
            now + old(self).ticker.spec_delay() <= u64::MAX,
        ensures
            final(self).inv(),
            old(self).state is Stopped ==> r is Stopped && *final(self) == *old(self),
            !(old(self).state is Stopped) ==> ({
                let cfgs = old(self).iteration_configs(dims);
                let frontier = Frontier { min_time: now, closed: old(self).input.is_closed() };
                let (ticker1, tick) = old(self).ticker.spec_step(frontier);
                &&& final(self).input == frontier
                &&& final(self).ticker == ticker1
                &&& final(self).last_dims == Some(dims)
                &&& final(self).pending_configs@.len() == 0
                &&& final(self).adjuster == spec_adjust_all(old(self).adjuster, cfgs).0
                &&& final(self).text_join.config_state() == apply_configs(
                    old(self).text_join.config_state(),
                    cfgs,
                )
                &&& final(self).text_join.text == old(self).text_join.text
                &&& final(self).resize_join.screen == spec_screen_after(
                    old(self).resize_join.screen,
                    spec_adjust_all(old(self).adjuster, cfgs).1,
                )
                &&& final(self).resize_join.image == old(self).resize_join.image
                &&& final(self).log@.take(old(self).log@.len() as int) == old(self).log@
                &&& (r matches DriverAction::RasterizeText { request } ==> ({
                    &&& old(self).text_join.spec_emits(None, cfgs)
                    &&& final(self).text_join.spec_request(request)
                    &&& final(self).phase matches DriverPhase::AwaitRaster { photo, x, y }
                        && x == request.x && y == request.y && (photo matches Some(p)
                        ==> final(self).resize_join.spec_placement(p)) && ((photo is Some)
                        <==> (has_screen_update(spec_adjust_all(old(self).adjuster, cfgs).1)
                        && final(self).resize_join.ready()))
                    &&& final(self).tick_pending == tick is Some
                    &&& final(self).loader == old(self).loader
                    &&& final(self).source == old(self).source
                    &&& final(self).compose == old(self).compose
                    &&& final(self).log == old(self).log
                }))
                &&& ((r is RasterizeText) <==> old(self).text_join.spec_emits(None, cfgs))
                &&& (!(r is RasterizeText) ==> ({
                    let emitted = has_screen_update(spec_adjust_all(old(self).adjuster, cfgs).1)
                        && final(self).resize_join.ready();
                    &&& (emitted ==> exists|p: Placement|
                        #[trigger] final(self).resize_join.spec_placement(p) && (final(self).compose.boxes@, final(self).log@.skip(old(self).log@.len() as int))
                            == spec_compose(old(self).compose.boxes@, seq![p]))
                    &&& (!emitted ==> final(self).compose.boxes@ == old(self).compose.boxes@
                        && final(self).log@ == old(self).log@)
                }))
                &&& (r matches DriverAction::Decode { path } ==> ({
                    &&& tick is Some
                    &&& (final(self).loader, final(self).source.remaining(),
                        LoaderStep::NeedDecode(path)) == old(self).loader.spec_on_tick(
                        old(self).source.remaining(),
                    )
                    &&& final(self).phase is AwaitDecode
                }))
                &&& (!(r is RasterizeText) && tick is Some && old(self).loader.spec_on_tick(
                    old(self).source.remaining(),
                ).2 is NeedDecode ==> r is Decode)
                &&& (!(r is RasterizeText) && tick is Some && old(self).loader.spec_on_tick(
                    old(self).source.remaining(),
                ).2 is Terminate ==> ((r is Dispatch && final(self).state is Draining) || (
                r is Stopped && final(self).state is Stopped)))
                &&& (r matches DriverAction::Dispatch { instructions } ==> instructions@
                    == final(self).log@.skip(old(self).dispatched@) && final(self).phase is Dispatching
                    && instructions@.len() > 0 && final(self).dispatched@ == final(self).log@.len())
                &&& ((r is Idle || r is Stopped) ==> final(self).outbox@.len() == 0)
                &&& (r is Idle ==> final(self).dispatched == old(self).dispatched)
                &&& (r is Stopped ==> final(self).state is Stopped)
                &&& (r is Idle ==> final(self).phase is Idle)
                &&& !(r is FormatStatus)
            }),
    {
        if matches!(self.state, DriverState::Stopped) {
            return DriverAction::Stopped;
        }
        let ghost cfgs = self.iteration_configs(dims);
        // gather the configuration bucket stamped at the current input time
        let mut configs: Vec<Configuration> = Vec::new();
        core::mem::swap(&mut configs, &mut self.pending_configs);
        let dims_changed = match self.last_dims {
            Some(d) => !(d.0 == dims.0 && d.1 == dims.1),
            None => true,
        };
        if dims_changed {
            self.last_dims = Some(dims);
            configs.push(Configuration::ScreenDimensions(dims.0, dims.1));
        }
        proof {
            assert(configs@ =~= cfgs);
        }
        // advance the clock and step the ticker against the new frontier
        self.input.advance_to(now);
        let tick = self.ticker.step(&self.input);
        self.tick_pending = matches!(tick, Some(_));
        // deliver the configuration bucket to both joins
        self.config_bucket_step(configs)
    }

    /// Deliver one bucket of configuration events to both joins, commit
    /// whatever they emit — suspending for rasterization if the text join
    /// emits — and then run the tick chain if one is pending.
    fn config_bucket_step(&mut self, configs: Vec<Configuration>) -> (r: DriverAction)
        requires
            old(self).ticker.wf(),
            old(self).loader.inv(),
            old(self).resize_join.inv(),
            0 <= old(self).dispatched@ <= old(self).log@.len(),
            old(self).outbox@ == old(self).log@.skip(old(self).dispatched@),
            old(self).phase is Idle,
            old(self).loader.pending is None,
            !old(self).terminating,
            !old(self).loader.terminated,
            old(self).state is Running,
        ensures
            final(self).inv(),
            final(self).ticker == old(self).ticker,
            final(self).input == old(self).input,
            final(self).last_dims == old(self).last_dims,
            final(self).pending_configs == old(self).pending_configs,
            final(self).adjuster == spec_adjust_all(old(self).adjuster, configs@).0,
            final(self).text_join.config_state() == apply_configs(
                old(self).text_join.config_state(),
                configs@,
            ),
            final(self).text_join.text == old(self).text_join.text,
            final(self).resize_join.screen == spec_screen_after(
                old(self).resize_join.screen,
                spec_adjust_all(old(self).adjuster, configs@).1,
            ),
            final(self).resize_join.image == old(self).resize_join.image,
            final(self).log@.take(old(self).log@.len() as int) == old(self).log@,
            (r matches DriverAction::RasterizeText { request } ==> ({
                &&& final(self).text_join.spec_request(request)
                &&& final(self).phase matches DriverPhase::AwaitRaster { photo, x, y }
                    && x == request.x && y == request.y && (photo matches Some(p) ==> final(self).resize_join.spec_placement(p)) && ((photo is Some) <==> (has_screen_update(
                    spec_adjust_all(old(self).adjuster, configs@).1,
                ) && final(self).resize_join.ready()))
                &&& final(self).tick_pending == old(self).tick_pending
                &&& final(self).loader == old(self).loader
                &&& final(self).source == old(self).source
                &&& final(self).compose == old(self).compose
                &&& final(self).log == old(self).log
            })),
            ((r is RasterizeText) <==> old(self).text_join.spec_emits(None, configs@)),
            (!(r is RasterizeText) ==> ({
                let emitted = has_screen_update(spec_adjust_all(old(self).adjuster, configs@).1)
                    && final(self).resize_join.ready();
                &&& (emitted ==> exists|p: Placement|
                    #[trigger] final(self).resize_join.spec_placement(p) && (final(self).compose.boxes@, final(self).log@.skip(old(self).log@.len() as int))
                        == spec_compose(old(self).compose.boxes@, seq![p]))
                &&& (!emitted ==> final(self).compose.boxes@ == old(self).compose.boxes@
                    && final(self).log@ == old(self).log@)
            })),
            (r matches DriverAction::Decode { path } ==> ({
                &&& old(self).tick_pending
                &&& (final(self).loader, final(self).source.remaining(),
                    LoaderStep::NeedDecode(path)) == old(self).loader.spec_on_tick(
                    old(self).source.remaining(),
                )
                &&& final(self).phase is AwaitDecode
            })),
            (!(r is RasterizeText) && old(self).tick_pending && old(self).loader.spec_on_tick(
                old(self).source.remaining(),
            ).2 is NeedDecode ==> r is Decode),
            (!(r is RasterizeText) && old(self).tick_pending && old(self).loader.spec_on_tick(
                old(self).source.remaining(),
            ).2 is Terminate ==> ((r is Dispatch && final(self).state is Draining) || (
            r is Stopped && final(self).state is Stopped))),
            (r matches DriverAction::Dispatch { instructions } ==> instructions@ == final(self).log@.skip(old(self).dispatched@) && final(self).phase is Dispatching
                && instructions@.len() > 0 && final(self).dispatched@ == final(self).log@.len()),
            ((r is Idle || r is Stopped) ==> final(self).outbox@.len() == 0),
            (r is Idle ==> final(self).dispatched == old(self).dispatched),
            (r is Stopped ==> final(self).state is Stopped),
            (r is Idle ==> final(self).phase is Idle),
            !(r is FormatStatus),
    {
        let ghost old_log = self.log@;
        let ghost old_boxes = self.compose.boxes@;
        let adjusted = self.adjust_all(&configs);
        let photo = self.resize_join.on_notify(None, &adjusted);
        let ghost photo_ghost = photo;
        let text_req = self.text_join.on_notify(None, &configs);
        match text_req {
            Some(request) => {
                let x = request.x;
                let y = request.y;
                self.phase = DriverPhase::AwaitRaster { photo, x, y };
                proof {
                    assert(self.log@.take(self.log@.len() as int) =~= self.log@);
                }
                DriverAction::RasterizeText { request }
            }
            None => {
                let mut placements: Vec<Placement> = Vec::new();
                match photo {
                    Some(p) => {
                        placements.push(p);
                    }
                    None => {}
                }
                proof {
                    match photo_ghost {
                        Some(p) => {
                            assert(placements@ =~= seq![p]);
                        }
                        None => {
                            assert(placements@ =~= Seq::<Placement>::empty());
                        }
                    }
                }
                self.commit_bucket(placements);
                proof {
                    if photo_ghost is None {
                        assert(self.log@.skip(old_log.len() as int)
                            =~= Seq::<Render>::empty());
                        assert(self.log@.len() == old_log.len());
                        assert(self.log@ =~= self.log@.take(old_log.len() as int));
                        assert(self.log@ == old_log);
                    }
                }
                self.continue_tick()
            }
        }
    }

    /// A decode outcome came back. A failure is suppressed inside the
    /// loader's retry cycle: the answer is either the next decode request,
    /// or the continuation of the iteration — never a suppressed signal.
    pub fn offer_decode(&mut self, outcome: RahmenResult<ImageData>) -> (r: DriverAction)
        requires
            old(self).inv(),
            old(self).phase is AwaitDecode,
            (outcome matches Ok(image) ==> image.wf()),
        ensures
            final(self).inv(),
            final(self).ticker == old(self).ticker,
            final(self).input == old(self).input,
            final(self).text_join == old(self).text_join,
            final(self).resize_join == old(self).resize_join,
            final(self).compose == old(self).compose,
            final(self).log == old(self).log,
            ({
                let out = (match outcome {
                    Ok(image) => Ok::<ImageData, crate::errors::RunControl>(image),
                    Err(_) => Err::<ImageData, crate::errors::RunControl>(
                        crate::errors::RunControl::Suppressed,
                    ),
                });
                let (loader1, source1, step) = old(self).loader.spec_on_decode(
                    old(self).source.remaining(),
                    out,
                );
                &&& final(self).loader == loader1
                &&& final(self).source.remaining() == source1
                &&& (r matches DriverAction::Decode { path } ==> step == LoaderStep::NeedDecode(
                    path,
                ))
                &&& (step matches LoaderStep::NeedDecode(p) ==> r == DriverAction::Decode {
                    path: p,
                })
                &&& (r matches DriverAction::FormatStatus { path } ==> ({
                    &&& step matches LoaderStep::Loaded(p, image) && p == path
                    &&& final(self).phase matches DriverPhase::AwaitStatus { image: i }
                        && step == LoaderStep::Loaded(path, i)
                }))
                &&& (outcome matches Ok(image) ==> r == DriverAction::FormatStatus {
                    path: old(self).loader.pending.unwrap(),
                })
                &&& (step is Terminate ==> (r is Dispatch || r is Stopped))
                &&& (r is Stopped ==> final(self).state is Stopped && final(self).outbox@.len() == 0)
                &&& (r matches DriverAction::Dispatch { instructions } ==> ({
                    &&& instructions@ == final(self).log@.skip(old(self).dispatched@)
                    &&& instructions@.len() > 0
                    &&& final(self).dispatched@ == final(self).log@.len()
                    &&& final(self).phase is Dispatching
                    &&& final(self).state is Draining
                }))
                &&& (r is Decode || r is FormatStatus || r is Dispatch || r is Stopped)
            }),
    {
        let out = suppress_err(outcome);
        let step = self.loader.on_decode(&mut self.source, out);
        match step {
            LoaderStep::NeedDecode(path) => DriverAction::Decode { path },
            LoaderStep::Loaded(path, image) => {
                self.phase = DriverPhase::AwaitStatus { image };
                DriverAction::FormatStatus { path }
            }
            LoaderStep::Terminate => {
                self.terminating = true;
                self.phase = DriverPhase::Idle;
                self.finish_iteration()
            }
        }
    }

    /// The status line for the decoded image came back — or `None`, if no
    /// status could be formatted, which only means there is no text this
    /// tick. The image and the text enter their joins at the tick's time.
    pub fn offer_status(&mut self, lines: Option<Vec<String>>) -> (r: DriverAction)
        requires
            old(self).inv(),
            old(self).phase matches DriverPhase::AwaitStatus { image } && image.wf(),
        ensures
            final(self).inv(),
            final(self).ticker == old(self).ticker,
            final(self).input == old(self).input,
            final(self).loader == old(self).loader,
            final(self).source == old(self).source,
            ({
                let image = (match old(self).phase {
                    DriverPhase::AwaitStatus { image } => image,
                    _ => arbitrary(),
                });
                &&& final(self).resize_join.image == Some(image)
                &&& final(self).resize_join.screen == old(self).resize_join.screen
                &&& final(self).text_join.config_state() == old(self).text_join.config_state()
                &&& final(self).text_join.text == (match lines {
                    Some(l) => Some(l),
                    None => old(self).text_join.text,
                })
                &&& ((r is RasterizeText) <==> old(self).text_join.spec_emits(
                    (match lines {
                        Some(l) => Some(l@),
                        None => None,
                    }),
                    Seq::empty(),
                ))
                &&& (r matches DriverAction::RasterizeText { request } ==> ({
                    &&& final(self).text_join.spec_request(request)
                    &&& final(self).phase matches DriverPhase::AwaitRaster { photo, x, y }
                        && x == request.x && y == request.y && (photo matches Some(p)
                        ==> final(self).resize_join.spec_placement(p)) && ((photo is Some)
                        <==> final(self).resize_join.ready())
                    &&& final(self).compose == old(self).compose
                    &&& final(self).log == old(self).log
                }))
                &&& (!(r is RasterizeText) ==> ({
                    let emitted = final(self).resize_join.ready();
                    &&& (emitted ==> exists|p: Placement|
                        #[trigger] final(self).resize_join.spec_placement(p) && (final(self).compose.boxes@, final(self).log@.skip(old(self).log@.len() as int))
                            == spec_compose(old(self).compose.boxes@, seq![p]))
                    &&& (!emitted ==> final(self).compose.boxes@ == old(self).compose.boxes@
                        && final(self).log@ == old(self).log@)
                }))
                &&& (r matches DriverAction::Dispatch { instructions } ==> instructions@
                    == final(self).log@.skip(old(self).dispatched@) && final(self).phase is Dispatching
                    && instructions@.len() > 0 && final(self).dispatched@ == final(self).log@.len())
                &&& ((r is Idle || r is Stopped) ==> final(self).outbox@.len() == 0)
                &&& (r is Idle ==> final(self).dispatched == old(self).dispatched)
                &&& (r is Stopped ==> final(self).state is Stopped)
                &&& final(self).log@.take(old(self).log@.len() as int) == old(self).log@
                &&& (r is Dispatch || r is Stopped || r is Idle || r is RasterizeText)
            }),
    {
        let ghost old_log = self.log@;
        let mut phase = DriverPhase::Idle;
        core::mem::swap(&mut phase, &mut self.phase);
        let image = match phase {
            DriverPhase::AwaitStatus { image } => image,
            _ => ImageData { width: 1, height: 1, pixels: Vec::new() },  // unreachable
        };
        proof {
            assert(image.wf());
        }
        let empty_configs: Vec<Configuration> = Vec::new();
        proof {
            assert(empty_configs@ =~= Seq::<Configuration>::empty());
        }
        let photo = self.resize_join.on_notify(Some(image), &empty_configs);
        let ghost photo_ghost = photo;
        let text_req = self.text_join.on_notify(lines, &empty_configs);
        match text_req {
            Some(request) => {
                let x = request.x;
                let y = request.y;
                self.phase = DriverPhase::AwaitRaster { photo, x, y };
                proof {
                    assert(self.log@.take(self.log@.len() as int) =~= self.log@);
                }
                DriverAction::RasterizeText { request }
            }
            None => {
                let mut placements: Vec<Placement> = Vec::new();
                match photo {
                    Some(p) => {
                        placements.push(p);
                    }
                    None => {}
                }
                proof {
                    match photo_ghost {
                        Some(p) => {
                            assert(placements@ =~= seq![p]);
                        }
                        None => {
                            assert(placements@ =~= Seq::<Placement>::empty());
                        }
                    }
                }
                self.commit_bucket(placements);
                proof {
                    if photo_ghost is None {
                        assert(self.log@.skip(old_log.len() as int)
                            =~= Seq::<Render>::empty());
                        assert(self.log@.len() == old_log.len());
                        assert(self.log@ =~= self.log@.take(old_log.len() as int));
                        assert(self.log@ == old_log);
                    }
                }
                self.continue_tick()
            }
        }
    }

    /// The rasterized text strip came back: place it at the bottom of the
    /// viewport, commit the bucket — the photograph placement first, then
    /// the strip — and go on with the iteration.
    pub fn offer_text_image(&mut self, image: ImageData) -> (r: DriverAction)
        requires
            old(self).inv(),
            old(self).phase is AwaitRaster,
        ensures
            final(self).inv(),
            final(self).ticker == old(self).ticker,
            final(self).input == old(self).input,
            final(self).text_join == old(self).text_join,
            final(self).resize_join == old(self).resize_join,
            final(self).adjuster == old(self).adjuster,
            ({
                let (photo, x, y) = (match old(self).phase {
                    DriverPhase::AwaitRaster { photo, x, y } => (photo, x, y),
                    _ => arbitrary(),
                });
                let strip = Placement { key: STATUS_TEXT_SLOT, x, y, image };
                let bucket = (match photo {
                    Some(p) => seq![p, strip],
                    None => seq![strip],
                });
                &&& (final(self).compose.boxes@, final(self).log@.skip(
                    old(self).log@.len() as int,
                )) == spec_compose(old(self).compose.boxes@, bucket)
                &&& final(self).log@.take(old(self).log@.len() as int) == old(self).log@
                &&& (r matches DriverAction::Decode { path } ==> ({
                    &&& old(self).tick_pending
                    &&& (final(self).loader, final(self).source.remaining(),
                        LoaderStep::NeedDecode(path)) == old(self).loader.spec_on_tick(
                        old(self).source.remaining(),
                    )
                }))
                &&& (!old(self).tick_pending ==> final(self).loader == old(self).loader
                    && final(self).source == old(self).source)
                &&& (old(self).tick_pending && old(self).loader.spec_on_tick(
                    old(self).source.remaining(),
                ).2 is NeedDecode ==> r is Decode)
                &&& (old(self).tick_pending && old(self).loader.spec_on_tick(
                    old(self).source.remaining(),
                ).2 is Terminate ==> ((r is Dispatch && final(self).state is Draining) || (
                r is Stopped && final(self).state is Stopped)))
                &&& (r matches DriverAction::Dispatch { instructions } ==> instructions@
                    == final(self).log@.skip(old(self).dispatched@) && final(self).phase is Dispatching
                    && instructions@.len() > 0 && final(self).dispatched@ == final(self).log@.len())
                &&& ((r is Idle || r is Stopped) ==> final(self).outbox@.len() == 0)
                &&& (r is Idle ==> final(self).dispatched == old(self).dispatched)
                &&& (r is Stopped ==> final(self).state is Stopped)
                &&& (r is Dispatch || r is Stopped || r is Idle || r is Decode)
            }),
    {
        let mut phase = DriverPhase::Idle;
        core::mem::swap(&mut phase, &mut self.phase);
        let (photo, x, y) = match phase {
            DriverPhase::AwaitRaster { photo, x, y } => (photo, x, y),
            _ => (None, 0, 0),  // unreachable
        };
        let mut placements: Vec<Placement> = Vec::new();
        match photo {
            Some(p) => {
                placements.push(p);
            }
            None => {}
        }
        placements.push(Placement { key: STATUS_TEXT_SLOT, x, y, image });
        proof {
            match old(self).phase {
                DriverPhase::AwaitRaster { photo: ph, x: px, y: py } => {
                    match ph {
                        Some(p) => {
                            assert(placements@ =~= seq![
                                p,
                                Placement { key: STATUS_TEXT_SLOT, x: px, y: py, image },
                            ]);
                        }
                        None => {
                            assert(placements@ =~= seq![
                                Placement { key: STATUS_TEXT_SLOT, x: px, y: py, image },
                            ]);
                        }
                    }
                }
                _ => {}
            }
        }
        self.commit_bucket(placements);
        self.continue_tick()
    }

    /// The display reported the outcome of the dispatched instructions. A
    /// failure, like any fatal signal, ends the run; after the final
    /// instructions of a draining run, the driver stops.
    pub fn finish_dispatch(&mut self, ok: bool) -> (r: DriverAction)
        requires
            old(self).inv(),
            old(self).phase is Dispatching,
        ensures
            final(self).inv(),
            final(self).ticker == old(self).ticker,
            final(self).loader == old(self).loader,
            final(self).source == old(self).source,
            final(self).compose == old(self).compose,
            final(self).input == old(self).input,
            final(self).adjuster == old(self).adjuster,
            final(self).text_join == old(self).text_join,
            final(self).resize_join == old(self).resize_join,
            final(self).pending_configs == old(self).pending_configs,
            final(self).last_dims == old(self).last_dims,
            final(self).outbox == old(self).outbox,
            final(self).log == old(self).log,
            final(self).dispatched == old(self).dispatched,
            final(self).phase is Idle,
            !ok ==> r is Stopped && final(self).state is Stopped,
            old(self).state is Draining ==> r is Stopped && final(self).state is Stopped,
            ok && old(self).state is Running ==> r is Idle && final(self).state is Running
                && final(self).phase is Idle,
            (r is Idle || r is Stopped),
    {
        self.phase = DriverPhase::Idle;
        self.tick_pending = false;
        self.terminating = false;
        if !ok {
            self.state = DriverState::Stopped;
            return DriverAction::Stopped;
        }
        match self.state {
            DriverState::Draining => {
                self.state = DriverState::Stopped;
                DriverAction::Stopped
            }
            DriverState::Stopped => DriverAction::Stopped,
            DriverState::Running => DriverAction::Idle,
        }
    }
}

} // verus!
