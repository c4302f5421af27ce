//! Generator: the verified parts of pull-based point-data generation, the
//! execution context that hands points to the client and the decisions the
//! generator takes around each execution.
use vstd::prelude::*;
use crate::circular_buffer::CircularBuffer;
use crate::client::{Command, Point, State};
use crate::device_info::DeviceInfo;
use crate::protocol;

verus! {

#[derive(Debug)]
pub enum Error {
    Internal(String),
}

// - - - - - - - - - - - - - - - - - - - - - - - - - - - - - - On Start Context

/// What an executable learns when its generator starts.
pub struct OnStartContext<'a> {
    device_info: &'a DeviceInfo,
    capacity: usize,
}

impl<'a> OnStartContext<'a> {
    /// The device the generator drives.
    pub closed spec fn info(&self) -> DeviceInfo {
        *self.device_info
    }

    /// The capacity of the client's point buffer.
    pub closed spec fn cap(&self) -> nat {
        self.capacity as nat
    }

    pub fn new(device_info: &'a DeviceInfo, capacity: usize) -> (c: Self)
        ensures
            c.info() == *device_info,
            c.cap() == capacity,
    {
        OnStartContext { device_info, capacity }
    }

    /// Returns the `DeviceInfo` associated with the underlying `Client`.
    pub fn device_info(&self) -> (d: &DeviceInfo)
        ensures
            *d == self.info(),
    {
        self.device_info
    }

    /// Returns the maximum capacity of the `Client`'s internal point buffer.
    pub fn point_capacity(&self) -> (n: usize)
        ensures
            n == self.cap(),
    {
        self.capacity
    }
}

// - - - - - - - - - - - - - - - - - - - - - - - - - - - - -  Execution Context

/// What an executable publishes points through during one execution.
pub struct ExecutionContext {
    // The maximum number of points that be published in this context.
    max_points: usize,
    // The incrementing number of points published during this context.
    point_count: usize,
    // The point data publisher.
    point_tx: CircularBuffer<Point>,
}

impl ExecutionContext {
    /// The most points this execution may publish.
    pub closed spec fn limit(&self) -> nat {
        self.max_points as nat
    }

    /// The points published so far in this execution.
    pub closed spec fn published(&self) -> nat {
        self.point_count as nat
    }

    /// The point buffer the context publishes into.
    pub closed spec fn buffer(&self) -> CircularBuffer<Point> {
        self.point_tx
    }

    /// The context's invariant: its buffer is well formed, no more points
    /// were published than allowed, and the buffer has room for every point
    /// that may still be published.
    pub closed spec fn wf(&self) -> bool {
        &&& self.point_tx.wf()
        &&& self.point_count <= self.max_points
        &&& self.point_tx@.len() + (self.max_points - self.point_count) <= self.point_tx.cap()
    }

    /// The buffer of a well-formed context has room for every point the
    /// execution may still publish, so each of them is taken.
    pub proof fn lemma_room_for_allowed(&self)
        requires
            self.wf(),
        ensures
            self.buffer().wf(),
            self.published() <= self.limit(),
            self.buffer()@.len() + (self.limit() - self.published()) <= self.buffer().cap(),
    {
    }

    /// A context over `point_tx` that allows no point until it is prepared.
    pub fn new(point_tx: CircularBuffer<Point>) -> (c: Self)
        requires
            point_tx.wf(),
        ensures
            c.wf(),
            c.limit() == 0,
            c.published() == 0,
            c.buffer() == point_tx,
    {
        proof {
            point_tx.lemma_len_bounded();
        }
        ExecutionContext { max_points: 0, point_count: 0, point_tx }
    }

    /// Starts an execution: the context may publish as many points as the
    /// buffer has room for, and none has been published yet.
    pub fn prepare(&mut self)
        requires
            old(self).wf(),
        ensures
            final(self).wf(),
            final(self).buffer() == old(self).buffer(),
            final(self).limit() == old(self).buffer().cap() - old(self).buffer()@.len(),
            final(self).published() == 0,
    {
        self.max_points = self.point_tx.remaining();
        self.point_count = 0;
    }

    /// Gives the point buffer back.
    pub fn into_buffer(self) -> (b: CircularBuffer<Point>)
        ensures
            b == self.buffer(),
    {
        self.point_tx
    }

    /// The number of points in the point buffer.
    pub fn buffered(&self) -> (n: usize)
        requires
            self.wf(),
        ensures
            n == self.buffer()@.len(),
    {
        self.point_tx.len()
    }

    /// Returns the number of points published during this invocation.
    pub fn point_count(&self) -> (n: usize)
        ensures
            n == self.published(),
    {
        self.point_count
    }

    /// Returns the remaining number of points that can be published during this
    /// invocation.
    pub fn remaining(&self) -> (n: usize)
        requires
            self.wf(),
        ensures
            n == self.limit() - self.published(),
    {
        self.max_points.saturating_sub(self.point_count)
    }

    /// Returns the maximum number of points that can be published during this
    /// invocation. This is a constant value for the duration of an invocation.
    pub fn max_points(&self) -> (n: usize)
        ensures
            n == self.limit(),
    {
        self.max_points
    }

    /// Pushes a point into the point buffer and returns `None` while this
    /// execution may publish one more; otherwise hands the point back and
    /// changes nothing. The buffer always has room for the points allowed, so
    /// an executable that pushes while `remaining()` is positive publishes
    /// every point it pushes.
    pub fn push_point(&mut self, x: i16, y: i16, r: u16, g: u16, b: u16) -> (res: Option<Point>)
        requires
            old(self).wf(),
        ensures
            final(self).wf(),
            final(self).limit() == old(self).limit(),
            final(self).buffer().cap() == old(self).buffer().cap(),
            old(self).published() < old(self).limit() ==> res is None && final(self).published()
                == old(self).published() + 1 && final(self).buffer()@ == old(self).buffer()@.push(
                (x, y, r, g, b),
            ),
            old(self).published() >= old(self).limit() ==> res == Some((x, y, r, g, b))
                && final(self).published() == old(self).published()
                && final(self).buffer()@ == old(self).buffer()@,
    {
        proof {
            self.point_tx.lemma_len_bounded();
        }
        if self.point_count < self.max_points {
            let result = self.point_tx.push((x, y, r, g, b));
            if result.is_none() {
                self.point_count = self.point_count + 1;
            }
            result
        } else {
            Some((x, y, r, g, b))
        }
    }
}

// - - - - - - - - - - - - - - - - - - - - - - - - - - - - - -  Decisions

/// The generator runs its executable when the device is ready and the
/// client's buffer holds no more points than the low watermark.
pub fn should_execute(state: &State, buffered: usize, low_watermark: usize) -> (r: bool)
    ensures
        r == (state.status().ready() && buffered <= low_watermark),
{
    state.is_ready() && buffered <= low_watermark
}

/// After an execution, the points it published are flushed with a `Data`
/// command; an execution that published none sends nothing.
pub fn flush_command(point_count: usize) -> (c: Option<Command>)
    ensures
        point_count > 0 ==> c == Some(Command::Data { count: point_count }),
        point_count == 0 ==> c is None,
{
    if point_count > 0 {
        Some(Command::Data { count: point_count })
    } else {
        None
    }
}

/// After a flush was acknowledged, playback is begun at `rate` unless the
/// device already plays.
pub fn begin_command(state: &State, rate: usize) -> (c: Option<Command>)
    ensures
        !state.status().playing() ==> c == Some(Command::Begin { rate }),
        state.status().playing() ==> c is None,
{
    if !state.is_playing() {
        Some(Command::Begin { rate })
    } else {
        None
    }
}

// - - - - - - - - - - - - - - - - - - - - - - - - - - - - -  Generator run

/// Where a generator run stands. The watermark and point rate come from the
/// executable's configuration; the watermark is the number of buffered
/// points at or below which the executable runs.
#[derive(Clone, Copy, Debug)]
pub enum GeneratorPhase {
    NotStarted,
    Configuring,
    Polling { low_watermark: usize, point_rate: usize },
    Executing { low_watermark: usize, point_rate: usize },
    Flushing { low_watermark: usize, point_rate: usize },
    Beginning { low_watermark: usize, point_rate: usize },
    Stopped,
}

/// What the runtime reports to a generator run.
#[allow(inconsistent_fields)]
#[derive(Clone, Copy, Debug)]
pub enum GeneratorEvent {
    /// The generator was started.
    Start,
    /// The executable's `on_start` returned this configuration.
    Configured { low_watermark: usize, point_rate: usize },
    /// The client's state and the number of points its buffer holds.
    Tick { state: State, buffered: usize },
    /// An execution published `point_count` points.
    Executed { point_count: usize },
    /// The device answered the last command: its state, or `None` when the
    /// command failed.
    Answered { state: Option<State> },
    /// The generator was asked to stop.
    Cancelled,
}

/// What a generator run asks the runtime to do next.
#[derive(Clone, Copy, Debug)]
pub enum GeneratorAction {
    /// Call the executable's `on_start`, then report `Configured`.
    CallOnStart,
    /// Report a `Tick` now.
    Poll,
    /// Prepare the execution context, run the executable, report `Executed`.
    Execute,
    /// Send the command and report the device's answer.
    Send(Command),
    /// Sleep a moment, then report a `Tick`.
    Sleep,
    /// The run is over; `failed` when a flush failed.
    Finish { failed: bool },
    /// The event does not belong to this phase; nothing changes.
    Ignore,
}

/// The watermark and point rate a phase carries, if any.
pub open spec fn settings(p: GeneratorPhase) -> Option<(usize, usize)> {
    match p {
        GeneratorPhase::Polling { low_watermark, point_rate } => Some((low_watermark, point_rate)),
        GeneratorPhase::Executing { low_watermark, point_rate } => Some((low_watermark, point_rate)),
        GeneratorPhase::Flushing { low_watermark, point_rate } => Some((low_watermark, point_rate)),
        GeneratorPhase::Beginning { low_watermark, point_rate } => Some((low_watermark, point_rate)),
        _ => None,
    }
}

/// One move of a generator run: started, it asks for the configuration
/// once; configured, it polls; on a tick it runs the executable when the
/// device is ready and the client's buffer is at or below the watermark, and
/// sleeps otherwise; an execution that published points is flushed with a
/// `Data` command; an acknowledged flush is followed by `Begin` at the
/// configured rate unless the device already plays; a failed flush ends the
/// run; a cancellation ends a started run at any time.
pub open spec fn generator_step(p: GeneratorPhase, e: GeneratorEvent) -> (GeneratorPhase, GeneratorAction) {
    match (p, e) {
        (GeneratorPhase::Stopped, _) => (p, GeneratorAction::Ignore),
        (GeneratorPhase::NotStarted, GeneratorEvent::Start) => (
            GeneratorPhase::Configuring,
            GeneratorAction::CallOnStart,
        ),
        (GeneratorPhase::NotStarted, _) => (p, GeneratorAction::Ignore),
        (_, GeneratorEvent::Cancelled) => (GeneratorPhase::Stopped, GeneratorAction::Finish { failed: false }),
        (GeneratorPhase::Configuring, GeneratorEvent::Configured { low_watermark, point_rate }) => (
            GeneratorPhase::Polling { low_watermark, point_rate },
            GeneratorAction::Poll,
        ),
        (GeneratorPhase::Polling { low_watermark, point_rate }, GeneratorEvent::Tick { state, buffered }) =>
            if state.status().ready() && buffered <= low_watermark {
            (GeneratorPhase::Executing { low_watermark, point_rate }, GeneratorAction::Execute)
        } else {
            (p, GeneratorAction::Sleep)
        },
        (GeneratorPhase::Executing { low_watermark, point_rate }, GeneratorEvent::Executed { point_count }) =>
            if point_count > 0 {
            (
                GeneratorPhase::Flushing { low_watermark, point_rate },
                GeneratorAction::Send(Command::Data { count: point_count }),
            )
        } else {
            (GeneratorPhase::Polling { low_watermark, point_rate }, GeneratorAction::Sleep)
        },
        (GeneratorPhase::Flushing { low_watermark, point_rate }, GeneratorEvent::Answered { state }) =>
            match state {
            Some(s) => if !s.status().playing() {
                (
                    GeneratorPhase::Beginning { low_watermark, point_rate },
                    GeneratorAction::Send(Command::Begin { rate: point_rate }),
                )
            } else {
                (GeneratorPhase::Polling { low_watermark, point_rate }, GeneratorAction::Sleep)
            },
            None => (GeneratorPhase::Stopped, GeneratorAction::Finish { failed: true }),
        },
        (GeneratorPhase::Beginning { low_watermark, point_rate }, GeneratorEvent::Answered { .. }) => (
            GeneratorPhase::Polling { low_watermark, point_rate },
            GeneratorAction::Sleep,
        ),
        _ => (p, GeneratorAction::Ignore),
    }
}

/// The phase and the actions of a run that starts not started and is told
/// `events`, one action per event.
pub open spec fn generator_run(events: Seq<GeneratorEvent>) -> (GeneratorPhase, Seq<GeneratorAction>)
    decreases events.len(),
{
    if events.len() == 0 {
        (GeneratorPhase::NotStarted, Seq::empty())
    } else {
        let (p, acts) = generator_run(events.drop_last());
        let (q, a) = generator_step(p, events.last());
        (q, acts.push(a))
    }
}

/// The number of `CallOnStart` actions in `acts`.
pub open spec fn on_start_count(acts: Seq<GeneratorAction>) -> nat
    decreases acts.len(),
{
    if acts.len() == 0 {
        0
    } else {
        on_start_count(acts.drop_last()) + if acts.last() is CallOnStart {
            1nat
        } else {
            0nat
        }
    }
}

/// A generator run, one event at a time.
pub struct GeneratorMachine {
    pub phase: GeneratorPhase,
}

impl GeneratorMachine {
    /// A run that has not started.
    pub fn new() -> (m: Self)
        ensures
            m.phase is NotStarted,
    {
        GeneratorMachine { phase: GeneratorPhase::NotStarted }
    }

    /// Takes in `event` and returns what the runtime does next.
    pub fn step(&mut self, event: GeneratorEvent) -> (action: GeneratorAction)
        ensures
            (final(self).phase, action) == generator_step(old(self).phase, event),
    {
        let (next, action) = match (self.phase, event) {
            (GeneratorPhase::Stopped, _) => (self.phase, GeneratorAction::Ignore),
            (GeneratorPhase::NotStarted, GeneratorEvent::Start) => (
                GeneratorPhase::Configuring,
                GeneratorAction::CallOnStart,
            ),
            (GeneratorPhase::NotStarted, _) => (self.phase, GeneratorAction::Ignore),
            (_, GeneratorEvent::Cancelled) => (GeneratorPhase::Stopped, GeneratorAction::Finish { failed: false }),
            (GeneratorPhase::Configuring, GeneratorEvent::Configured { low_watermark, point_rate }) => (
                GeneratorPhase::Polling { low_watermark, point_rate },
                GeneratorAction::Poll,
            ),
            (GeneratorPhase::Polling { low_watermark, point_rate }, GeneratorEvent::Tick { state, buffered }) => {
                if should_execute(&state, buffered, low_watermark) {
                    (GeneratorPhase::Executing { low_watermark, point_rate }, GeneratorAction::Execute)
                } else {
                    (self.phase, GeneratorAction::Sleep)
                }
            },
            (GeneratorPhase::Executing { low_watermark, point_rate }, GeneratorEvent::Executed { point_count }) => {
                match flush_command(point_count) {
                    Some(cmd) => (GeneratorPhase::Flushing { low_watermark, point_rate }, GeneratorAction::Send(cmd)),
                    None => (GeneratorPhase::Polling { low_watermark, point_rate }, GeneratorAction::Sleep),
                }
            },
            (GeneratorPhase::Flushing { low_watermark, point_rate }, GeneratorEvent::Answered { state }) => {
                match state {
                    Some(s) => match begin_command(&s, point_rate) {
                        Some(cmd) => (GeneratorPhase::Beginning { low_watermark, point_rate }, GeneratorAction::Send(cmd)),
                        None => (GeneratorPhase::Polling { low_watermark, point_rate }, GeneratorAction::Sleep),
                    },
                    None => (GeneratorPhase::Stopped, GeneratorAction::Finish { failed: true }),
                }
            },
            (GeneratorPhase::Beginning { low_watermark, point_rate }, GeneratorEvent::Answered { .. }) => (
                GeneratorPhase::Polling { low_watermark, point_rate },
                GeneratorAction::Sleep,
            ),
            _ => (self.phase, GeneratorAction::Ignore),
        };
        self.phase = next;
        action
    }
}

/// `on_start` is asked for exactly once a run is started, and before any
/// execution: every `Execute` comes after the one `CallOnStart`.
pub proof fn law_on_start_once_before_execute(events: Seq<GeneratorEvent>)
    ensures
        ({
            let (p, acts) = generator_run(events);
            &&& acts.len() == events.len()
            &&& on_start_count(acts) == (if p is NotStarted { 0nat } else { 1nat })
            &&& forall|i: int| 0 <= i < acts.len() && #[trigger] acts[i] is Execute ==> on_start_count(
                acts.take(i),
            ) == 1
        }),
    decreases events.len(),
{
    if events.len() > 0 {
        let rest = events.drop_last();
        law_on_start_once_before_execute(rest);
        let (p, acts) = generator_run(rest);
        let (q, a) = generator_step(p, events.last());
        let all = acts.push(a);
        assert(all.drop_last() =~= acts);
        assert(all.last() == a);
        assert(on_start_count(all) == on_start_count(acts) + if a is CallOnStart {
            1nat
        } else {
            0nat
        });
        assert(a is CallOnStart ==> p is NotStarted);
        assert(p is NotStarted ==> (q is NotStarted <==> !(a is CallOnStart)));
        assert(!(p is NotStarted) ==> !(q is NotStarted));
        assert(a is Execute ==> !(p is NotStarted));
        assert forall|i: int| 0 <= i < all.len() && #[trigger] all[i] is Execute implies on_start_count(
            all.take(i),
        ) == 1 by {
            if i < acts.len() {
                assert(all.take(i) =~= acts.take(i));
                assert(acts[i] is Execute);
            } else {
                assert(all.take(i) =~= acts);
            }
        }
    }
}

/// Each decision of a run is the generator's: an execution only on a tick
/// where the device is ready and the buffer is at or below the configured
/// watermark; a `Data` flush only of an execution that published points,
/// with their count; a `Begin` only after an acknowledged flush from a
/// device that does not play, at the configured rate. Once configured, a run
/// keeps its watermark and rate until it stops.
pub proof fn law_run_decisions(p: GeneratorPhase, e: GeneratorEvent)
    ensures
        ({
            let (q, a) = generator_step(p, e);
            &&& a is Execute ==> (match (p, e) {
                (
                    GeneratorPhase::Polling { low_watermark, .. },
                    GeneratorEvent::Tick { state, buffered },
                ) => state.status().ready() && buffered <= low_watermark,
                _ => false,
            })
            &&& (a matches GeneratorAction::Send(Command::Data { count }) ==> (match (p, e) {
                (GeneratorPhase::Executing { .. }, GeneratorEvent::Executed { point_count }) =>
                    point_count == count && count > 0,
                _ => false,
            }))
            &&& (a matches GeneratorAction::Send(Command::Begin { rate }) ==> (match (p, e) {
                (
                    GeneratorPhase::Flushing { point_rate, .. },
                    GeneratorEvent::Answered { state: Some(s) },
                ) => rate == point_rate && !s.status().playing(),
                _ => false,
            }))
            &&& a is CallOnStart ==> p is NotStarted
            &&& settings(p) is Some && settings(q) is Some ==> settings(q) == settings(p)
        }),
{
}


/// A started run ends only when cancelled or when a flush fails; the answer
/// to a `Begin`, whatever it is, returns the run to polling with the
/// settings it had.
pub proof fn law_run_ends_only_on_cancel_or_failed_flush(p: GeneratorPhase, e: GeneratorEvent)
    ensures
        !(p is Stopped) && !(e is Cancelled) && generator_step(p, e).0 is Stopped ==> p is Flushing
            && e == (GeneratorEvent::Answered { state: None }),
        !(p is Stopped) && !(p is NotStarted) && e is Cancelled ==> generator_step(p, e) == (
            GeneratorPhase::Stopped,
            GeneratorAction::Finish { failed: false },
        ),
        (match (p, e) {
            (GeneratorPhase::Beginning { low_watermark, point_rate }, GeneratorEvent::Answered { .. }) =>
                generator_step(p, e).0 == GeneratorPhase::Polling { low_watermark, point_rate }
                && !(generator_step(p, e).1 is Finish),
            _ => true,
        }),
{
}


/// A run makes progress: configured, it polls with the configuration it
/// was given; on a tick it executes when the device is ready and the buffer
/// is at or below the watermark, and sleeps otherwise; an execution that
/// published points is flushed with their count, one that published none
/// sleeps; an acknowledged flush from a device that does not play is
/// followed by `Begin` at the configured rate, from one that plays by sleep.
pub proof fn law_run_progress(low_watermark: usize, point_rate: usize, state: State, buffered: usize, point_count: usize)
    ensures
        generator_step(GeneratorPhase::Configuring, GeneratorEvent::Configured { low_watermark, point_rate })
            == (GeneratorPhase::Polling { low_watermark, point_rate }, GeneratorAction::Poll),
        state.status().light_engine_flags == 0 && state.status().light_engine_state
            == protocol::LightEngineState::Ready && state.status().playback_state
            != protocol::PlaybackState::Idle && buffered <= low_watermark ==> generator_step(
            GeneratorPhase::Polling { low_watermark, point_rate },
            GeneratorEvent::Tick { state, buffered },
        ) == (GeneratorPhase::Executing { low_watermark, point_rate }, GeneratorAction::Execute),
        buffered > low_watermark ==> generator_step(
            GeneratorPhase::Polling { low_watermark, point_rate },
            GeneratorEvent::Tick { state, buffered },
        ) == (GeneratorPhase::Polling { low_watermark, point_rate }, GeneratorAction::Sleep),
        point_count > 0 ==> generator_step(
            GeneratorPhase::Executing { low_watermark, point_rate },
            GeneratorEvent::Executed { point_count },
        ) == (
            GeneratorPhase::Flushing { low_watermark, point_rate },
            GeneratorAction::Send(Command::Data { count: point_count }),
        ),
        generator_step(
            GeneratorPhase::Executing { low_watermark, point_rate },
            GeneratorEvent::Executed { point_count: 0 },
        ) == (GeneratorPhase::Polling { low_watermark, point_rate }, GeneratorAction::Sleep),
        state.status().playback_state != protocol::PlaybackState::Playing ==> generator_step(
            GeneratorPhase::Flushing { low_watermark, point_rate },
            GeneratorEvent::Answered { state: Some(state) },
        ) == (
            GeneratorPhase::Beginning { low_watermark, point_rate },
            GeneratorAction::Send(Command::Begin { rate: point_rate }),
        ),
        state.status().light_engine_flags == 0 && state.status().light_engine_state
            == protocol::LightEngineState::Ready && state.status().playback_state
            == protocol::PlaybackState::Playing ==> generator_step(
            GeneratorPhase::Flushing { low_watermark, point_rate },
            GeneratorEvent::Answered { state: Some(state) },
        ) == (GeneratorPhase::Polling { low_watermark, point_rate }, GeneratorAction::Sleep),
{
}

} // verus!
