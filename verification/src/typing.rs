//! The typing engine: narration lines wait in a first-in first-out queue and
//! are revealed one at a time, one Unicode scalar per reveal interval.

use crate::text::texts;
use std::collections::VecDeque;
use vstd::prelude::*;
use vstd::string::StrSliceExecFns;

verus! {

/// Reveal interval of the fast cadence, in milliseconds.
pub const FAST_INTERVAL_MS: u64 = 10;

/// Reveal interval of the normal cadence, in milliseconds.
pub const NORMAL_INTERVAL_MS: u64 = 30;

/// Reveal interval of the slow cadence, in milliseconds.
pub const SLOW_INTERVAL_MS: u64 = 80;

/// Time that passed from `earlier` to `now`; none if the clock went back.
pub open spec fn elapsed(now: nat, earlier: nat) -> nat {
    if now >= earlier {
        (now - earlier) as nat
    } else {
        0
    }
}

/// The line that is being revealed.
pub struct JobView {
    /// The whole line.
    pub target: Seq<char>,
    /// How many scalars of it are shown.
    pub revealed: nat,
    /// When the job was activated or last advanced.
    pub last_advance: nat,
}

/// The typing engine as a mathematical value.
pub struct TypingView {
    /// The lines that wait, oldest first.
    pub pending: Seq<Seq<char>>,
    /// The line being revealed, if any.
    pub active: Option<JobView>,
    /// The reveal interval.
    pub interval: nat,
}

impl TypingView {
    /// At most the whole target is revealed, and lines wait only behind an
    /// active job.
    pub open spec fn wf(self) -> bool {
        match self.active {
            Some(job) => job.revealed <= job.target.len(),
            None => self.pending.len() == 0,
        }
    }

    /// Whether a line is being revealed.
    pub open spec fn is_typing(self) -> bool {
        self.active is Some
    }

    /// The part of the active line that is shown: a prefix of whole scalars.
    pub open spec fn revealed_text(self) -> Seq<char> {
        match self.active {
            Some(job) => job.target.take(job.revealed as int),
            None => Seq::empty(),
        }
    }

    /// The lines that the engine holds and has not handed on: the active one,
    /// then the waiting ones.
    pub open spec fn lines_held(self) -> Seq<Seq<char>> {
        match self.active {
            Some(job) => seq![job.target] + self.pending,
            None => self.pending,
        }
    }

    /// Makes the oldest waiting line the active job, started at `now`; idle if
    /// none waits.
    pub open spec fn activate_next(self, now: nat) -> TypingView {
        if self.pending.len() > 0 {
            TypingView {
                pending: self.pending.drop_first(),
                active: Some(JobView { target: self.pending[0], revealed: 0, last_advance: now }),
                interval: self.interval,
            }
        } else {
            TypingView { pending: self.pending, active: None, interval: self.interval }
        }
    }

    /// `line` joins the queue; an idle engine activates it at once.
    pub open spec fn enqueue(self, line: Seq<char>, now: nat) -> TypingView {
        let queued = TypingView {
            pending: self.pending.push(line),
            active: self.active,
            interval: self.interval,
        };
        if self.active is Some {
            queued
        } else {
            queued.activate_next(now)
        }
    }

    /// Whether a tick at `now` acts: a job is active and the reveal interval
    /// has passed since it last advanced.
    pub open spec fn due(self, now: nat) -> bool {
        match self.active {
            Some(job) => elapsed(now, job.last_advance) >= self.interval,
            None => false,
        }
    }

    /// Whether a tick at `now` finishes the active job: it is due, and the
    /// scalar that it reveals is the last of the line, or the line has none
    /// left to reveal.
    pub open spec fn completes(self, now: nat) -> bool {
        self.due(now) && self.active->0.revealed + 1 >= self.active->0.target.len()
    }

    /// The engine after a tick at `now`. A tick that is not due changes
    /// nothing. A due tick reveals one more scalar and resets the timer; where
    /// that shows the whole line, the line leaves the engine and the oldest
    /// waiting line becomes active at `now`.
    pub open spec fn tick(self, now: nat) -> TypingView {
        if !self.due(now) {
            self
        } else if self.completes(now) {
            self.activate_next(now)
        } else {
            let job = self.active->0;
            TypingView {
                pending: self.pending,
                active: Some(
                    JobView { target: job.target, revealed: job.revealed + 1, last_advance: now },
                ),
                interval: self.interval,
            }
        }
    }

    /// The lines that a tick at `now` hands on: the active line, whole, when
    /// the tick finishes it, else none.
    pub open spec fn emitted(self, now: nat) -> Seq<Seq<char>> {
        if self.completes(now) {
            seq![self.active->0.target]
        } else {
            Seq::empty()
        }
    }

    /// The lines that a skip hands on: all that an engine with an active job
    /// holds.
    pub open spec fn flushed(self) -> Seq<Seq<char>> {
        if self.active is Some {
            self.lines_held()
        } else {
            Seq::empty()
        }
    }

    /// The engine after a skip.
    pub open spec fn skip(self) -> TypingView {
        if self.active is Some {
            TypingView { pending: Seq::empty(), active: None, interval: self.interval }
        } else {
            self
        }
    }

    /// The engine with another reveal interval.
    pub open spec fn with_interval(self, interval: nat) -> TypingView {
        TypingView { pending: self.pending, active: self.active, interval }
    }
}

/// What a tick did.
pub enum Tick {
    /// Nothing: no job is active, or the reveal interval has not passed.
    Waiting,
    /// One more scalar of the active line is shown, and more are left.
    Revealed,
    /// The last scalar of the active line was revealed, and the line, now
    /// fully shown, leaves the engine.
    Completed(String),
}

/// The queue of narration lines and the job that reveals the oldest of them.
pub struct TypingEngine {
    typing_queue: VecDeque<String>,
    typing_text: String,
    typing_target: String,
    typing_index: usize,
    last_type_time: u64,
    typing_speed: u64,
    is_typing: bool,
}

impl View for TypingEngine {
    type V = TypingView;

    closed spec fn view(&self) -> TypingView {
        TypingView {
            pending: texts(self.typing_queue@),
            active: if self.is_typing {
                Some(
                    JobView {
                        target: self.typing_target@,
                        revealed: self.typing_index as nat,
                        last_advance: self.last_type_time as nat,
                    },
                )
            } else {
                None
            },
            interval: self.typing_speed as nat,
        }
    }
}

impl TypingEngine {
    /// The shown text is the revealed prefix of the target, and an idle engine
    /// holds no text.
    pub closed spec fn inv(&self) -> bool {
        &&& self.typing_text@ =~= self@.revealed_text()
        &&& !self.is_typing ==> self.typing_target@.len() == 0 && self.typing_index == 0
    }

    /// The engine keeps its invariant and its value is well formed.
    pub open spec fn wf(&self) -> bool {
        self.inv() && self@.wf()
    }

    /// An idle engine at the normal cadence.
    pub fn new() -> (engine: TypingEngine)
        ensures
            engine.wf(),
            engine@ == (TypingView {
                pending: Seq::empty(),
                active: None,
                interval: NORMAL_INTERVAL_MS as nat,
            }),
    {
        let engine = TypingEngine {
            typing_queue: VecDeque::new(),
            typing_text: String::new(),
            typing_target: String::new(),
            typing_index: 0,
            last_type_time: 0,
            typing_speed: NORMAL_INTERVAL_MS,
            is_typing: false,
        };
        assert(engine@.pending =~= Seq::<Seq<char>>::empty());
        engine
    }

    /// Whether a line is being revealed.
    pub fn is_typing(&self) -> (typing: bool)
        ensures
            typing == self@.is_typing(),
    {
        self.is_typing
    }

    /// Whether lines wait behind the active one.
    pub fn has_pending(&self) -> (pending: bool)
        ensures
            pending == (self@.pending.len() > 0),
    {
        self.typing_queue.len() > 0
    }

    /// How many lines wait behind the active one.
    pub fn pending_len(&self) -> (n: usize)
        ensures
            n == self@.pending.len(),
    {
        self.typing_queue.len()
    }

    /// The part of the active line that is shown.
    pub fn typing_text(&self) -> (text: &String)
        requires
            self.wf(),
        ensures
            text@ == self@.revealed_text(),
    {
        &self.typing_text
    }

    /// How many scalars of the active line are shown.
    pub fn typing_index(&self) -> (index: usize)
        ensures
            index == match self@.active {
                Some(job) => job.revealed,
                None => 0,
            },
    {
        if self.is_typing {
            self.typing_index
        } else {
            0
        }
    }

    /// The reveal interval in milliseconds.
    pub fn typing_speed(&self) -> (interval: u64)
        ensures
            interval == self@.interval,
    {
        self.typing_speed
    }

    fn start_next_typing(&mut self, now: u64)
        requires
            old(self).typing_text@.len() == 0,
            old(self).typing_target@.len() == 0,
            old(self).typing_index == 0,
        ensures
            final(self).wf(),
            final(self)@ == (TypingView {
                pending: texts(old(self).typing_queue@),
                active: None,
                interval: old(self).typing_speed as nat,
            }).activate_next(now as nat),
    {
        match self.typing_queue.pop_front() {
            Some(text) => {
                self.typing_target = text;
                self.typing_text = String::new();
                self.typing_index = 0;
                self.is_typing = true;
                self.last_type_time = now;
                assert(texts(self.typing_queue@) =~= texts(old(self).typing_queue@).drop_first());
                assert(self.typing_target@.take(0) =~= Seq::<char>::empty());
            },
            None => {
                self.is_typing = false;
                assert(texts(self.typing_queue@) =~= Seq::<Seq<char>>::empty());
            },
        }
    }

    /// Queues `line`; an idle engine starts to reveal it at `now`.
    pub fn enqueue(&mut self, line: String, now: u64)
        requires
            old(self).wf(),
        ensures
            final(self).wf(),
            final(self)@ == old(self)@.enqueue(line@, now as nat),
    {
        self.typing_queue.push_back(line);
        assert(texts(self.typing_queue@) =~= texts(old(self).typing_queue@).push(line@));
        if !self.is_typing {
            self.start_next_typing(now);
        }
    }

    /// One tick of the animation at time `now`: where a job is active and the
    /// reveal interval has passed since it last advanced, one more scalar is
    /// shown and the timer is reset. Where that shows the whole line, the line
    /// leaves the engine in the same tick and the oldest waiting line becomes
    /// active; an empty line leaves on its first due tick.
    pub fn tick(&mut self, now: u64) -> (outcome: Tick)
        requires
            old(self).wf(),
        ensures
            final(self).wf(),
            final(self)@ == old(self)@.tick(now as nat),
            match outcome {
                Tick::Waiting => !old(self)@.due(now as nat),
                Tick::Revealed => old(self)@.due(now as nat) && !old(self)@.completes(now as nat),
                Tick::Completed(line) => old(self)@.completes(now as nat) && seq![line@] == old(
                    self,
                )@.emitted(now as nat),
            },
    {
        if !self.is_typing {
            return Tick::Waiting;
        }
        let since: u64 = if now >= self.last_type_time {
            now - self.last_type_time
        } else {
            0
        };
        if since < self.typing_speed {
            return Tick::Waiting;
        }
        let len: usize = self.typing_target.as_str().unicode_len();
        if self.typing_index < len {
            let next_char: char = self.typing_target.as_str().get_char(self.typing_index);
            self.typing_text.push(next_char);
            self.typing_index += 1;
            self.last_type_time = now;
            assert(self.typing_text@ =~= self.typing_target@.take(self.typing_index as int));
        }
        if self.typing_index >= len {
            let line = self.typing_target.clone();
            self.typing_text = String::new();
            self.typing_target = String::new();
            self.typing_index = 0;
            self.start_next_typing(now);
            Tick::Completed(line)
        } else {
            Tick::Revealed
        }
    }

    /// Ends the animation: the active line and all waiting lines leave the
    /// engine whole, oldest first. An idle engine has nothing to hand on.
    pub fn skip(&mut self) -> (flushed: Vec<String>)
        requires
            old(self).wf(),
        ensures
            final(self).wf(),
            final(self)@ == old(self)@.skip(),
            texts(flushed@) == old(self)@.flushed(),
    {
        let mut flushed: Vec<String> = Vec::new();
        if self.is_typing {
            flushed.push(self.typing_target.clone());
            assert(texts(flushed@) =~= seq![self.typing_target@]);
            loop
                invariant
                    texts(flushed@) + texts(self.typing_queue@) == old(self)@.lines_held(),
                    self.typing_speed == old(self).typing_speed,
                ensures
                    self.typing_queue@.len() == 0,
                decreases self.typing_queue@.len(),
            {
                let ghost queue_before = self.typing_queue@;
                let ghost flushed_before = flushed@;
                match self.typing_queue.pop_front() {
                    Some(text) => {
                        flushed.push(text);
                        assert(texts(flushed@) + texts(self.typing_queue@) =~= texts(
                            flushed_before,
                        ) + texts(queue_before));
                    },
                    None => {
                        break ;
                    },
                }
            }
            assert(texts(flushed@) =~= texts(flushed@) + texts(self.typing_queue@));
            self.typing_text = String::new();
            self.typing_target = String::new();
            self.typing_index = 0;
            self.is_typing = false;
            assert(texts(self.typing_queue@) =~= Seq::<Seq<char>>::empty());
        } else {
            assert(texts(flushed@) =~= Seq::<Seq<char>>::empty());
        }
        flushed
    }

    /// Changes the cadence from now on; what is shown stays as it is.
    pub fn set_speed(&mut self, interval: u64)
        requires
            old(self).wf(),
        ensures
            final(self).wf(),
            final(self)@ == old(self)@.with_interval(interval as nat),
    {
        self.typing_speed = interval;
    }
}

/// One operation on the engine.
pub enum Step {
    /// A line is queued at a time.
    Enqueue(Seq<char>, nat),
    /// The animation ticks at a time.
    Tick(nat),
    /// The animation is skipped.
    Skip,
    /// The reveal interval changes.
    SetSpeed(nat),
}

impl TypingView {
    /// The engine after one operation.
    pub open spec fn step(self, op: Step) -> TypingView {
        match op {
            Step::Enqueue(line, now) => self.enqueue(line, now),
            Step::Tick(now) => self.tick(now),
            Step::Skip => self.skip(),
            Step::SetSpeed(interval) => self.with_interval(interval),
        }
    }

    /// The whole lines that one operation hands on.
    pub open spec fn handed_on(self, op: Step) -> Seq<Seq<char>> {
        match op {
            Step::Enqueue(_, _) => Seq::empty(),
            Step::Tick(now) => self.emitted(now),
            Step::Skip => self.flushed(),
            Step::SetSpeed(_) => Seq::empty(),
        }
    }
}

/// The engine after the operations `ops`, in order, from `start`.
pub open spec fn run(start: TypingView, ops: Seq<Step>) -> TypingView
    decreases ops.len(),
{
    if ops.len() == 0 {
        start
    } else {
        run(start, ops.drop_last()).step(ops.last())
    }
}

/// All lines handed on while `ops` ran from `start`, in the order in which
/// they left the engine.
pub open spec fn produced(start: TypingView, ops: Seq<Step>) -> Seq<Seq<char>>
    decreases ops.len(),
{
    if ops.len() == 0 {
        Seq::empty()
    } else {
        produced(start, ops.drop_last()) + run(start, ops.drop_last()).handed_on(ops.last())
    }
}

/// The lines that `ops` queue, in order.
pub open spec fn enqueued(ops: Seq<Step>) -> Seq<Seq<char>>
    decreases ops.len(),
{
    if ops.len() == 0 {
        Seq::empty()
    } else {
        match ops.last() {
            Step::Enqueue(line, _) => enqueued(ops.drop_last()).push(line),
            _ => enqueued(ops.drop_last()),
        }
    }
}

/// Every operation keeps the engine well formed and loses no line: what it
/// hands on, followed by what the engine then holds, is what the engine held
/// before, followed by the line that the operation queued.
pub proof fn lemma_step_conserves_lines(v: TypingView, op: Step)
    requires
        v.wf(),
    ensures
        v.step(op).wf(),
        v.handed_on(op) + v.step(op).lines_held() == v.lines_held() + enqueued(seq![op]),
{
    let ops = seq![op];
    assert(ops.drop_last() =~= Seq::<Step>::empty());
    assert(enqueued(ops.drop_last()) =~= Seq::<Seq<char>>::empty());
    match op {
        Step::Enqueue(line, now) => {
            assert(enqueued(ops) =~= seq![line]);
            if v.active is None {
                assert(v.pending.push(line).drop_first() =~= Seq::<Seq<char>>::empty());
            }
            assert(v.handed_on(op) + v.step(op).lines_held() =~= v.lines_held() + seq![line]);
        },
        Step::Tick(now) => {
            assert(enqueued(ops) =~= Seq::<Seq<char>>::empty());
            if v.completes(now) && v.pending.len() > 0 {
                assert(seq![v.pending[0]] + v.pending.drop_first() =~= v.pending);
            }
            assert(v.handed_on(op) + v.step(op).lines_held() =~= v.lines_held());
        },
        Step::Skip => {
            assert(enqueued(ops) =~= Seq::<Seq<char>>::empty());
            assert(v.handed_on(op) + v.step(op).lines_held() =~= v.lines_held());
        },
        Step::SetSpeed(_) => {
            assert(enqueued(ops) =~= Seq::<Seq<char>>::empty());
            assert(v.handed_on(op) + v.step(op).lines_held() =~= v.lines_held());
        },
    }
}

/// Whatever lines are queued, and however ticks, skips and changes of speed
/// fall between them, the engine stays well formed and the lines come out
/// whole, each once and in the order of arrival: the lines handed on, followed
/// by the lines still held, are the lines held at the start followed by the
/// lines queued since.
pub proof fn lemma_lines_conserved(start: TypingView, ops: Seq<Step>)
    requires
        start.wf(),
    ensures
        run(start, ops).wf(),
        produced(start, ops) + run(start, ops).lines_held() == start.lines_held() + enqueued(ops),
    decreases ops.len(),
{
    if ops.len() == 0 {
        assert(produced(start, ops) + run(start, ops).lines_held() =~= start.lines_held()
            + enqueued(ops));
    } else {
        let before = run(start, ops.drop_last());
        let op = ops.last();
        lemma_lines_conserved(start, ops.drop_last());
        lemma_step_conserves_lines(before, op);
        let single = seq![op];
        assert(single.drop_last() =~= Seq::<Step>::empty());
        assert(enqueued(single.drop_last()) =~= Seq::<Seq<char>>::empty());
        assert(enqueued(ops) =~= enqueued(ops.drop_last()) + enqueued(single));
        assert(produced(start, ops) + run(start, ops).lines_held() =~= produced(
            start,
            ops.drop_last(),
        ) + (before.handed_on(op) + before.step(op).lines_held()));
        assert(produced(start, ops) + run(start, ops).lines_held() =~= (produced(
            start,
            ops.drop_last(),
        ) + before.lines_held()) + enqueued(single));
        assert(produced(start, ops) + run(start, ops).lines_held() =~= start.lines_held()
            + enqueued(ops));
    }
}

/// A tick never takes back what is shown. While the job stays active its
/// target is unchanged, the count of shown scalars stays or grows by one, and
/// what was shown before is the start of what is shown after. The tick that
/// reveals the last scalar finishes the job: at most one scalar was missing
/// before it, the line handed on is the target itself, whole, and what was
/// shown before is the start of it.
pub proof fn lemma_tick_reveals_in_order(v: TypingView, now: nat)
    requires
        v.wf(),
        v.active is Some,
    ensures
        v.tick(now).wf(),
        !v.due(now) ==> v.tick(now) == v,
        v.due(now) && !v.completes(now) ==> {
            &&& v.tick(now).active is Some
            &&& v.tick(now).active->0.target == v.active->0.target
            &&& v.tick(now).active->0.revealed == v.active->0.revealed + 1
            &&& v.tick(now).active->0.revealed < v.active->0.target.len()
            &&& v.tick(now).revealed_text().take(v.active->0.revealed as int) == v.revealed_text()
            &&& v.emitted(now).len() == 0
        },
        v.completes(now) ==> {
            &&& v.active->0.revealed + 1 >= v.active->0.target.len()
            &&& v.emitted(now) == seq![v.active->0.target]
            &&& v.emitted(now)[0].take(v.active->0.revealed as int) == v.revealed_text()
        },
        v.due(now) && v.active->0.revealed + 1 == v.active->0.target.len() ==> v.completes(now),
{
    let job = v.active->0;
    if v.due(now) && !v.completes(now) {
        let after = v.tick(now).active->0;
        assert(job.target.take(after.revealed as int).take(job.revealed as int)
            =~= job.target.take(job.revealed as int));
    }
}

/// The engine after ticks at the times `times`, in order.
pub open spec fn tick_all(v: TypingView, times: Seq<nat>) -> TypingView
    decreases times.len(),
{
    if times.len() == 0 {
        v
    } else {
        tick_all(v, times.drop_last()).tick(times.last())
    }
}

/// Whether each of `times` lies at least `interval` after the one before it,
/// the first after `start`.
pub open spec fn paced(start: nat, times: Seq<nat>, interval: nat) -> bool {
    forall|i: int|
        0 <= i < times.len() ==> #[trigger] times[i] >= (if i == 0 {
            start
        } else {
            times[i - 1]
        }) + interval
}

/// Ticks that come at the pace of the reveal interval show one scalar each:
/// while scalars are left behind them, `k` such ticks show `k` more scalars
/// of the active line and change nothing else.
pub proof fn lemma_paced_ticks_reveal_one_each(v: TypingView, times: Seq<nat>)
    requires
        v.wf(),
        v.active is Some,
        paced(v.active->0.last_advance, times, v.interval),
        v.active->0.revealed + times.len() < v.active->0.target.len(),
    ensures
        tick_all(v, times).pending == v.pending,
        tick_all(v, times).interval == v.interval,
        tick_all(v, times).active is Some,
        tick_all(v, times).active->0.target == v.active->0.target,
        tick_all(v, times).active->0.revealed == v.active->0.revealed + times.len(),
        tick_all(v, times).active->0.last_advance == if times.len() == 0 {
            v.active->0.last_advance
        } else {
            times.last()
        },
    decreases times.len(),
{
    if times.len() > 0 {
        let earlier = times.drop_last();
        assert forall|i: int| 0 <= i < earlier.len() implies #[trigger] earlier[i] >= (if i == 0 {
            v.active->0.last_advance
        } else {
            earlier[i - 1]
        }) + v.interval by {
            assert(earlier[i] == times[i]);
        }
        lemma_paced_ticks_reveal_one_each(v, earlier);
        let before = tick_all(v, earlier);
        let i = times.len() - 1;
        assert(times[i] >= (if i == 0 {
            v.active->0.last_advance
        } else {
            times[i - 1]
        }) + v.interval);
        if i > 0 {
            assert(earlier.last() == times[i - 1]);
        }
        assert(before.due(times.last()));
    }
}

/// A line of `n` scalars, `n` at least one, is handed on by the `n`-th tick
/// at the pace of the reveal interval, and not before: after `n - 1` such
/// ticks the job is still active with one scalar left, and the next one
/// finishes it, hands on the whole line, and activates the oldest waiting
/// line or leaves the engine idle.
pub proof fn lemma_line_completes_on_its_last_scalar(v: TypingView, times: Seq<nat>)
    requires
        v.wf(),
        v.active is Some,
        v.active->0.revealed == 0,
        times.len() == v.active->0.target.len(),
        times.len() >= 1,
        paced(v.active->0.last_advance, times, v.interval),
    ensures
        tick_all(v, times.drop_last()).active is Some,
        tick_all(v, times.drop_last()).active->0.revealed + 1 == v.active->0.target.len(),
        tick_all(v, times.drop_last()).completes(times.last()),
        tick_all(v, times.drop_last()).emitted(times.last()) == seq![v.active->0.target],
        tick_all(v, times) == v.activate_next(times.last()),
{
    let earlier = times.drop_last();
    assert forall|i: int| 0 <= i < earlier.len() implies #[trigger] earlier[i] >= (if i == 0 {
        v.active->0.last_advance
    } else {
        earlier[i - 1]
    }) + v.interval by {
        assert(earlier[i] == times[i]);
    }
    lemma_paced_ticks_reveal_one_each(v, earlier);
    let before = tick_all(v, earlier);
    let i = times.len() - 1;
    assert(times[i] >= (if i == 0 {
        v.active->0.last_advance
    } else {
        times[i - 1]
    }) + v.interval);
    if i > 0 {
        assert(earlier.last() == times[i - 1]);
    }
    assert(before.due(times.last()));
}

/// A skip on one active line and `n` waiting lines hands on `n + 1` lines:
/// the whole active line, then the waiting lines in the order of arrival.
/// The engine is idle afterwards and holds nothing.
pub proof fn lemma_skip_hands_on_all(v: TypingView)
    requires
        v.wf(),
        v.active is Some,
    ensures
        v.flushed().len() == v.pending.len() + 1,
        v.flushed() == seq![v.active->0.target] + v.pending,
        v.skip().wf(),
        v.skip().active is None,
        v.skip().lines_held().len() == 0,
{
}

} // verus!
