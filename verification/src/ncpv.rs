//! The session of one transfer: its counters, its estimates, its samples,
//! and the decisions of the copy loop.
//!
//! The session owns no source, sink or clock. Whoever runs the loop does the
//! reading, the writing and the waiting, and tells the session what happened
//! and what time it is; the session says what to do next.

use vstd::prelude::*;
use crate::cli::{Config, ConfigView};
use crate::estimate::{
    eta, eta_seconds, rate, remaining, remaining_bytes, transfer_rate, warmed_up, whole_seconds,
    Percent, TICK_MS, WARM_UP_MS,
};

verus! {

/// Milliseconds to wait at a [`Step::Pause`] before asking again.
pub const PAUSE_MS: u64 = 10;

/// What happened since the session was last asked.
#[derive(Debug, Clone, Copy, PartialEq, Eq, Structural)]
pub enum Event {
    /// Nothing was moved: the loop has just started, or a pause is over.
    Idle,
    /// So many bytes were read, written and flushed; zero at the end of the
    /// stream.
    Transferred(u64),
    /// A read or a write failed.
    Failed,
}

/// What the loop is to do next.
#[derive(Debug, Clone, Copy, PartialEq, Eq, Structural)]
pub enum Step {
    /// The average rate is above the cap: wait [`PAUSE_MS`], then report
    /// [`Event::Idle`].
    Pause,
    /// Read up to a buffer of bytes, write exactly those and flush, then
    /// report [`Event::Transferred`].
    Transfer,
    /// Flush the sink and stop.
    Finish,
}

/// The session's answer: whether to draw the snapshot first, and the step.
#[derive(Debug, Clone, Copy, PartialEq, Eq, Structural)]
pub struct Action {
    /// Whether to draw the session as it now stands, before the step.
    pub draw: bool,
    /// The step to take.
    pub step: Step,
}

/// The state of a session as plain values.
pub struct SessionView {
    /// The settings, fixed for the session.
    pub config: ConfigView,
    /// Total bytes copied.
    pub read_bytes: u64,
    /// Progress at the last refresh.
    pub percent_complete: Option<Percent>,
    /// Seconds to completion at the last refresh.
    pub eta: Option<u64>,
    /// One throughput measurement for each tick after the warm-up, oldest
    /// first.
    pub samples: Seq<u64>,
    /// Whether the session is final: the stream ended or an operation failed.
    pub exit: bool,
    /// Whether a tick is due: the next transfer refreshes and samples.
    pub can_update: bool,
    /// The time in milliseconds at which the last tick became due.
    pub last_update: u64,
}

impl SessionView {
    /// What always holds of a session: progress and estimate exist together
    /// and only with a target size, and progress is the ratio of bytes once
    /// read to that size.
    pub open spec fn well_formed(self) -> bool {
        &&& self.percent_complete is Some <==> self.eta is Some
        &&& self.percent_complete matches Some(p) ==> self.config.size == Some(p.total) && p.done
            <= self.read_bytes
    }

    /// The session before anything was copied.
    pub open spec fn initial(config: ConfigView) -> SessionView {
        SessionView {
            config,
            read_bytes: 0,
            percent_complete: None,
            eta: None,
            samples: Seq::empty(),
            exit: false,
            can_update: false,
            last_update: 0,
        }
    }

    /// Average throughput since the start, in bytes per second.
    pub open spec fn current_rate(self, elapsed_ms: u64) -> u64 {
        rate(self.read_bytes, whole_seconds(elapsed_ms))
    }

    /// Whether a cap is set and the average throughput is above it.
    pub open spec fn throttled(self, elapsed_ms: u64) -> bool {
        match self.config.rate_limit {
            Some(cap) => self.current_rate(elapsed_ms) > cap,
            None => false,
        }
    }

    /// The session with progress and estimate refreshed, where the target
    /// size is known.
    pub open spec fn estimated(self, elapsed_ms: u64) -> SessionView {
        match self.config.size {
            Some(size) => SessionView {
                percent_complete: Some(Percent { done: self.read_bytes, total: size }),
                eta: Some(
                    eta(remaining(size, self.read_bytes), self.current_rate(elapsed_ms)),
                ),
                ..self
            },
            None => self,
        }
    }

    /// The session with one more sample, the current rate.
    pub open spec fn sampled(self, elapsed_ms: u64) -> SessionView {
        SessionView { samples: self.samples.push(self.current_rate(elapsed_ms)), ..self }
    }

    /// The session after a chunk of `bytes` was moved, reported at
    /// `elapsed_ms`.
    ///
    /// An empty chunk ends the session and changes nothing else. Otherwise
    /// the bytes are counted; then, where a tick is due, it is spent: after
    /// the warm-up the estimates are refreshed and a sample is taken. Where
    /// none is due, one becomes due once a second has passed since the last.
    pub open spec fn after_chunk(self, bytes: u64, elapsed_ms: u64) -> SessionView {
        if bytes == 0 {
            SessionView { exit: true, ..self }
        } else {
            let moved = SessionView { read_bytes: (self.read_bytes + bytes) as u64, ..self };
            if self.can_update {
                let spent = SessionView { can_update: false, ..moved };
                if warmed_up(elapsed_ms) {
                    spent.estimated(elapsed_ms).sampled(elapsed_ms)
                } else {
                    spent
                }
            } else if elapsed_ms >= self.last_update + TICK_MS {
                SessionView { can_update: true, last_update: elapsed_ms, ..moved }
            } else {
                moved
            }
        }
    }

    /// The session after an event. A final session does not change.
    pub open spec fn after(self, event: Event, elapsed_ms: u64) -> SessionView {
        if self.exit {
            self
        } else {
            match event {
                Event::Idle => self,
                Event::Transferred(bytes) => self.after_chunk(bytes, elapsed_ms),
                Event::Failed => SessionView { exit: true, ..self },
            }
        }
    }

    /// The step to take: finish where the session is final or a stop was
    /// requested, pause where the cap is exceeded, transfer otherwise.
    pub open spec fn next_step(self, elapsed_ms: u64, stop: bool) -> Step {
        if self.exit || stop {
            Step::Finish
        } else if self.throttled(elapsed_ms) {
            Step::Pause
        } else {
            Step::Transfer
        }
    }

    /// The answer of the session: the step, and a drawing before it where a
    /// tick is due and the loop goes on.
    pub open spec fn action(self, elapsed_ms: u64, stop: bool) -> Action {
        Action {
            draw: self.can_update && self.next_step(elapsed_ms, stop) != Step::Finish,
            step: self.next_step(elapsed_ms, stop),
        }
    }

    /// Whether the counter has room for the bytes of an event.
    pub open spec fn has_room(self, event: Event) -> bool {
        event matches Event::Transferred(bytes) ==> self.exit || self.read_bytes + bytes
            <= u64::MAX
    }
}

/// A new session is well formed, and every event leaves a well-formed
/// session well formed.
pub proof fn lemma_well_formed_is_kept(s: SessionView, event: Event, elapsed_ms: u64)
    requires
        s.well_formed(),
        s.has_room(event),
    ensures
        SessionView::initial(s.config).well_formed(),
        s.after(event, elapsed_ms).well_formed(),
        s.config.size is None ==> s.after(event, elapsed_ms).percent_complete is None,
{
}

/// No event lowers the byte count, changes the settings, or removes or
/// alters a sample; and before the warm-up is over no event touches the
/// estimates or the samples.
pub proof fn lemma_counters_only_grow(s: SessionView, event: Event, elapsed_ms: u64)
    requires
        s.has_room(event),
    ensures
        s.after(event, elapsed_ms).read_bytes >= s.read_bytes,
        s.after(event, elapsed_ms).config == s.config,
        s.samples.is_prefix_of(s.after(event, elapsed_ms).samples),
        s.after(event, elapsed_ms).samples.len() <= s.samples.len() + 1,
        !warmed_up(elapsed_ms) ==> s.after(event, elapsed_ms).samples == s.samples && s.after(
            event,
            elapsed_ms,
        ).eta == s.eta && s.after(event, elapsed_ms).percent_complete == s.percent_complete,
{
}

/// Progress never falls: from one state to the next the ratio keeps its
/// total and its bytes done do not decrease, so neither does the
/// percentage; and while no more was read than the target, the percentage
/// is at most 100.
pub proof fn lemma_progress_never_falls(s: SessionView, event: Event, elapsed_ms: u64)
    requires
        s.well_formed(),
        s.has_room(event),
        s.percent_complete is Some,
    ensures
        s.after(event, elapsed_ms).percent_complete is Some,
        s.after(event, elapsed_ms).percent_complete->0.total == s.percent_complete->0.total,
        s.after(event, elapsed_ms).percent_complete->0.done >= s.percent_complete->0.done,
        s.percent_complete->0.total > 0 ==> s.percent_complete->0.whole() <= s.after(
            event,
            elapsed_ms,
        ).percent_complete->0.whole(),
        s.percent_complete->0.total > 0 && s.after(event, elapsed_ms).read_bytes
            <= s.percent_complete->0.total ==> s.after(
            event,
            elapsed_ms,
        ).percent_complete->0.whole() <= 100,
{
    let t = s.after(event, elapsed_ms);
    if s.percent_complete->0.total > 0 {
        crate::estimate::lemma_percent_monotone(s.percent_complete->0, t.percent_complete->0);
    }
}

/// The cap bounds the average. Where a cap is set and a transfer is allowed
/// after at least one whole second, what had been read is below
/// `(cap + 1) * seconds`; and after a chunk of at most one buffer the
/// average over those seconds, and over any later time, is at most the cap
/// plus one plus a buffer's share of the seconds.
pub proof fn lemma_cap_bounds_average(
    s: SessionView,
    cap: u64,
    chunk: u64,
    elapsed_ms: u64,
    later_ms: u64,
)
    requires
        s.config.rate_limit == Some(cap),
        s.next_step(elapsed_ms, false) == Step::Transfer,
        whole_seconds(elapsed_ms) >= 1,
        chunk <= s.config.buffer_size,
        s.read_bytes + chunk <= u64::MAX,
        later_ms >= elapsed_ms,
    ensures
        s.read_bytes < (cap + 1) * whole_seconds(elapsed_ms),
        s.after(Event::Transferred(chunk), later_ms).read_bytes < (cap + 1) * whole_seconds(
            elapsed_ms,
        ) + s.config.buffer_size,
        s.after(Event::Transferred(chunk), later_ms).current_rate(later_ms) <= cap + 1
            + s.config.buffer_size / whole_seconds(elapsed_ms),
{
    let secs = whole_seconds(elapsed_ms) as int;
    let later = whole_seconds(later_ms) as int;
    let read = s.read_bytes as int;
    let buffer = s.config.buffer_size as int;
    let c = cap as int;
    assert(read / secs <= c);
    assert(read < (c + 1) * secs) by (nonlinear_arith)
        requires
            secs >= 1,
            read >= 0,
            read / secs <= c,
    ;
    let t = s.after(Event::Transferred(chunk), later_ms);
    let total = t.read_bytes as int;
    assert(total <= read + chunk);
    assert(later >= secs);
    assert(total / later <= c + 1 + buffer / secs) by (nonlinear_arith)
        requires
            secs >= 1,
            later >= secs,
            0 <= total < (c + 1) * secs + buffer,
            buffer >= 0,
            c >= 0,
    ;
}

/// Progress and the estimate made from it: they are refreshed together.
#[derive(Debug, Clone, Copy)]
struct Estimate {
    percent: Percent,
    eta: u64,
}

/// The session of one transfer.
#[derive(Debug)]
pub struct NCPV {
    config: Config,
    estimate: Option<Estimate>,
    samples: Vec<u64>,
    read_bytes: u64,
    exit: bool,
    can_update: bool,
    last_update: u64,
}

impl View for NCPV {
    type V = SessionView;

    closed spec fn view(&self) -> SessionView {
        SessionView {
            config: self.config@,
            read_bytes: self.read_bytes,
            percent_complete: match self.estimate {
                Some(e) => Some(e.percent),
                None => None,
            },
            eta: match self.estimate {
                Some(e) => Some(e.eta),
                None => None,
            },
            samples: self.samples@,
            exit: self.exit,
            can_update: self.can_update,
            last_update: self.last_update,
        }
    }
}

impl NCPV {
    #[verifier::type_invariant]
    spec fn inv(&self) -> bool {
        self@.well_formed()
    }

    /// A session for the given settings, with nothing copied yet.
    pub fn new(config: Config) -> (s: NCPV)
        ensures
            s@ == SessionView::initial(config@),
            s@.well_formed(),
    {
        NCPV {
            config,
            estimate: None,
            samples: Vec::new(),
            read_bytes: 0,
            exit: false,
            can_update: false,
            last_update: 0,
        }
    }

    /// The settings.
    pub fn config(&self) -> (c: &Config)
        ensures
            c@ == self@.config,
    {
        &self.config
    }

    /// Total bytes copied.
    pub fn read_bytes(&self) -> (r: u64)
        ensures
            r == self@.read_bytes,
    {
        self.read_bytes
    }

    /// Progress at the last refresh; `None` before the first and always
    /// where the target size is unknown.
    pub fn percent_complete(&self) -> (r: Option<Percent>)
        ensures
            r == self@.percent_complete,
            self@.config.size is None ==> r is None,
    {
        proof {
            use_type_invariant(self);
        }
        match self.estimate {
            Some(e) => Some(e.percent),
            None => None,
        }
    }

    /// Seconds to completion at the last refresh.
    pub fn eta(&self) -> (r: Option<u64>)
        ensures
            r == self@.eta,
    {
        match self.estimate {
            Some(e) => Some(e.eta),
            None => None,
        }
    }

    /// The samples, oldest first.
    pub fn samples(&self) -> (r: &Vec<u64>)
        ensures
            r@ == self@.samples,
    {
        &self.samples
    }

    /// Whether the session is final.
    pub fn finished(&self) -> (r: bool)
        ensures
            r == self@.exit,
    {
        self.exit
    }

    /// Average throughput in bytes per second after `elapsed_secs` whole
    /// seconds; zero while that is zero.
    pub fn get_transfer_rate(&self, elapsed_secs: u64) -> (r: u64)
        ensures
            r == rate(self@.read_bytes, elapsed_secs),
            elapsed_secs == 0 ==> r == 0,
    {
        transfer_rate(self.read_bytes, elapsed_secs)
    }

    /// Takes in what happened and says what to do next.
    ///
    /// `elapsed_ms` is the time since the start of the transfer and `stop`
    /// whether termination was requested. The event is applied as
    /// [`SessionView::after`] says, and the answer is that of the new state,
    /// [`SessionView::action`].
    pub fn run(&mut self, event: Event, elapsed_ms: u64, stop: bool) -> (action: Action)
        requires
            old(self)@.has_room(event),
        ensures
            final(self)@ == old(self)@.after(event, elapsed_ms),
            action == final(self)@.action(elapsed_ms, stop),
            final(self)@.well_formed(),
            final(self)@.config == old(self)@.config,
            final(self)@.read_bytes >= old(self)@.read_bytes,
            old(self)@.samples.is_prefix_of(final(self)@.samples),
            !warmed_up(elapsed_ms) ==> final(self)@.samples == old(self)@.samples,
            !warmed_up(elapsed_ms) ==> final(self)@.eta == old(self)@.eta,
            !warmed_up(elapsed_ms) ==> final(self)@.percent_complete == old(self)@.percent_complete,
    {
        proof {
            use_type_invariant(&*self);
        }
        if !self.exit {
            match event {
                Event::Idle => {},
                Event::Failed => {
                    self.exit = true;
                },
                Event::Transferred(bytes) => {
                    self.record(bytes, elapsed_ms);
                },
            }
        }
        self.plan(elapsed_ms, stop)
    }

    /// As [`NCPV::run`], for any event: where the counter has no room for the
    /// bytes of the event, nothing changes and the answer is `None`.
    pub fn checked_run(&mut self, event: Event, elapsed_ms: u64, stop: bool) -> (action: Option<
        Action,
    >)
        ensures
            old(self)@.has_room(event) ==> final(self)@ == old(self)@.after(event, elapsed_ms)
                && action == Some(final(self)@.action(elapsed_ms, stop)),
            !old(self)@.has_room(event) ==> final(self)@ == old(self)@ && action is None,
    {
        let room = match event {
            Event::Transferred(bytes) => self.exit || bytes <= u64::MAX - self.read_bytes,
            _ => true,
        };
        if room {
            Some(self.run(event, elapsed_ms, stop))
        } else {
            None
        }
    }

    /// Says what to do next without taking anything in.
    pub fn plan(&self, elapsed_ms: u64, stop: bool) -> (action: Action)
        ensures
            action == self@.action(elapsed_ms, stop),
    {
        let step = if self.exit || stop {
            Step::Finish
        } else {
            let over = match self.config.rate_limit {
                Some(cap) => transfer_rate(self.read_bytes, elapsed_ms / 1000) > cap,
                None => false,
            };
            if over {
                Step::Pause
            } else {
                Step::Transfer
            }
        };
        let draw = self.can_update && !(self.exit || stop);
        Action { draw, step }
    }

    /// Counts a chunk and spends or detects a tick.
    fn record(&mut self, bytes: u64, elapsed_ms: u64)
        requires
            !old(self)@.exit,
            old(self)@.read_bytes + bytes <= u64::MAX,
        ensures
            final(self)@ == old(self)@.after_chunk(bytes, elapsed_ms),
    {
        proof {
            use_type_invariant(&*self);
        }
        if bytes == 0 {
            self.exit = true;
            return ;
        }
        self.read_bytes = self.read_bytes + bytes;
        if self.can_update {
            self.can_update = false;
            if elapsed_ms >= WARM_UP_MS {
                let current = transfer_rate(self.read_bytes, elapsed_ms / 1000);
                match self.config.size {
                    Some(size) => {
                        let left = remaining_bytes(size, self.read_bytes);
                        self.estimate = Some(
                            Estimate {
                                percent: Percent { done: self.read_bytes, total: size },
                                eta: eta_seconds(left, current),
                            },
                        );
                    },
                    None => {},
                }
                let mut samples: Vec<u64> = Vec::new();
                core::mem::swap(&mut self.samples, &mut samples);
                samples.push(current);
                core::mem::swap(&mut self.samples, &mut samples);
            }
        } else if elapsed_ms >= self.last_update && elapsed_ms - self.last_update >= TICK_MS {
            self.can_update = true;
            self.last_update = elapsed_ms;
        }
    }
}

impl Default for NCPV {
    /// A session for the default settings.
    fn default() -> (s: NCPV)
        ensures
            s@ == SessionView::initial(
                ConfigView {
                    file_path: Seq::<char>::empty(),
                    size: None,
                    rate_limit: None,
                    buffer_size: 0,
                },
            ),
    {
        NCPV::new(Config::default())
    }
}

} // verus!
