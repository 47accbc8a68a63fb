//! The completion wait: a state machine that decides, poll by poll, when an
//! assistant turn is over. The caller performs each `Action` (removing or
//! probing the sentinel file, sleeping, capturing the pane) and feeds back
//! what it saw as an `Event`, together with the milliseconds elapsed since
//! the wait began. One budget covers the whole wait, both tiers together.
use vstd::prelude::*;
use crate::markers::{classification, classify, lower_of, opt_chars, Classification};

verus! {

/// Milliseconds between two probes of the sentinel file.
pub const HOOK_POLL_MS: u64 = 500;

/// Milliseconds left for trailing output to reach the pane once the sentinel is seen.
pub const GRACE_MS: u64 = 500;

/// Milliseconds between two heuristic polls of the pane.
pub const HEURISTIC_POLL_MS: u64 = 3000;

/// Where the sentinel of a session lives: a file per session under the
/// runtime directory of the manager of the assistant called `assistant`.
pub open spec fn sentinel_of(assistant: Seq<char>, session: Seq<char>) -> Seq<char> {
    "/tmp/"@ + assistant + "-code-manager/"@ + session + ".done"@
}

/// The sentinel path of a session.
pub fn sentinel_path(assistant: &str, session: &str) -> (r: String)
    ensures
        r@ == sentinel_of(assistant@, session@),
{
    let mut p = "/tmp/".to_owned();
    p.append(assistant);
    p.append("-code-manager/");
    p.append(session);
    p.append(".done");
    p
}

/// Where a wait stands.
#[derive(Debug, Clone, Copy, PartialEq, Eq, Structural)]
pub enum Phase {
    /// A stale sentinel is being removed; nothing has been probed yet.
    Clearing,
    /// Probing for the sentinel.
    Hook,
    /// The sentinel was seen; letting the output settle, then capturing it.
    Flushing,
    /// Polling the pane text, the hook tier having failed.
    Heuristic,
    /// The wait has ended.
    Finished,
}

/// What the caller saw while carrying out the last action.
pub enum Event {
    /// The action completed with nothing to report (a removal or a sleep).
    Ready,
    /// The sentinel probe: whether the file exists.
    Sentinel(bool),
    /// The sentinel could not be probed: its directory is missing, so no
    /// hook integration writes it, or the probe itself failed.
    SentinelUnavailable,
    /// The pane capture succeeded with this text.
    Captured(String),
    /// The pane capture failed.
    CaptureFailed,
}

/// What the caller is to do next.
pub enum Action {
    /// Remove the sentinel file if there is one, ignoring failure; then report `Ready`.
    ClearSentinel,
    /// Probe whether the sentinel file exists; then report `Sentinel` or
    /// `SentinelUnavailable`.
    CheckSentinel,
    /// Sleep this many milliseconds; then report `Ready`.
    Sleep(u64),
    /// Capture the whole pane; then report `Captured` or `CaptureFailed`.
    Capture,
    /// The turn is over with this output; remove the sentinel first where asked.
    Complete { output: String, consume_sentinel: bool },
    /// No completion was observed in time.
    TimedOut,
    /// Capturing the pane failed while polling it.
    DriverFailed,
}

/// The state of a completion wait.
pub struct CompletionWait {
    /// The session waited on.
    pub session: String,
    /// Its sentinel path.
    pub sentinel: String,
    /// The budget of the whole wait, in seconds.
    pub timeout_secs: u64,
    pub phase: Phase,
    /// The output seen at the last heuristic poll; none before the first.
    pub previous: Option<String>,
    /// How many polls in a row found the output unchanged.
    pub stable_count: u64,
}

/// The abstract state of a completion wait.
pub struct WaitView {
    pub session: Seq<char>,
    pub sentinel: Seq<char>,
    pub timeout_secs: nat,
    pub phase: Phase,
    pub previous: Option<Seq<char>>,
    pub stable_count: nat,
}

pub enum EventView {
    Ready,
    Sentinel(bool),
    SentinelUnavailable,
    Captured(Seq<char>),
    CaptureFailed,
}

pub enum ActionView {
    ClearSentinel,
    CheckSentinel,
    Sleep(nat),
    Capture,
    Complete { output: Seq<char>, consume_sentinel: bool },
    TimedOut,
    DriverFailed,
}

impl View for CompletionWait {
    type V = WaitView;

    open spec fn view(&self) -> WaitView {
        WaitView {
            session: self.session@,
            sentinel: self.sentinel@,
            timeout_secs: self.timeout_secs as nat,
            phase: self.phase,
            previous: opt_chars(self.previous),
            stable_count: self.stable_count as nat,
        }
    }
}

impl View for Event {
    type V = EventView;

    open spec fn view(&self) -> EventView {
        match self {
            Event::Ready => EventView::Ready,
            Event::Sentinel(b) => EventView::Sentinel(*b),
            Event::SentinelUnavailable => EventView::SentinelUnavailable,
            Event::Captured(s) => EventView::Captured(s@),
            Event::CaptureFailed => EventView::CaptureFailed,
        }
    }
}

impl View for Action {
    type V = ActionView;

    open spec fn view(&self) -> ActionView {
        match self {
            Action::ClearSentinel => ActionView::ClearSentinel,
            Action::CheckSentinel => ActionView::CheckSentinel,
            Action::Sleep(ms) => ActionView::Sleep(*ms as nat),
            Action::Capture => ActionView::Capture,
            Action::Complete { output, consume_sentinel } => ActionView::Complete {
                output: output@,
                consume_sentinel: *consume_sentinel,
            },
            Action::TimedOut => ActionView::TimedOut,
            Action::DriverFailed => ActionView::DriverFailed,
        }
    }
}

/// A fresh wait on `session` (of the assistant called `assistant`) with a
/// budget of `timeout_secs`.
pub open spec fn initial(assistant: Seq<char>, session: Seq<char>, timeout_secs: nat) -> WaitView {
    WaitView {
        session,
        sentinel: sentinel_of(assistant, session),
        timeout_secs,
        phase: Phase::Clearing,
        previous: None,
        stable_count: 0,
    }
}

/// The budget is spent at `now` milliseconds after the wait began.
pub open spec fn expired(s: WaitView, now: nat) -> bool {
    now > s.timeout_secs * 1000
}

/// The wait ends with a timeout.
pub open spec fn time_out(s: WaitView) -> (WaitView, ActionView) {
    (WaitView { phase: Phase::Finished, ..s }, ActionView::TimedOut)
}

/// The hook tier has failed at time `now`: the heuristic tier takes over
/// with no output seen yet, unless the budget is spent.
pub open spec fn enter_heuristic(s: WaitView, now: nat) -> (WaitView, ActionView) {
    if expired(s, now) {
        time_out(s)
    } else {
        (
            WaitView { phase: Phase::Heuristic, previous: None, stable_count: 0, ..s },
            ActionView::Capture,
        )
    }
}

/// The hook tier's next probe, unless the budget is spent.
pub open spec fn hook_poll(s: WaitView, now: nat) -> (WaitView, ActionView) {
    if expired(s, now) {
        time_out(s)
    } else {
        (WaitView { phase: Phase::Hook, ..s }, ActionView::CheckSentinel)
    }
}

/// The heuristic tier's next capture, unless the budget is spent.
pub open spec fn heuristic_poll(s: WaitView, now: nat) -> (WaitView, ActionView) {
    if expired(s, now) {
        time_out(s)
    } else {
        (s, ActionView::Capture)
    }
}

/// The heuristic reading of a captured output.
pub open spec fn heuristic_seen(s: WaitView, out: Seq<char>) -> (WaitView, ActionView) {
    match classification(s.previous, out, lower_of(out), s.stable_count) {
        Classification::Complete => (
            WaitView { phase: Phase::Finished, ..s },
            ActionView::Complete { output: out, consume_sentinel: false },
        ),
        Classification::Unchanged => (
            WaitView { stable_count: s.stable_count + 1, ..s },
            ActionView::Sleep(HEURISTIC_POLL_MS as nat),
        ),
        _ => (
            WaitView { previous: Some(out), stable_count: 0, ..s },
            ActionView::Sleep(HEURISTIC_POLL_MS as nat),
        ),
    }
}

/// The next state and action after event `e` at time `now` (milliseconds
/// since the wait began). An event that does not answer the last action is
/// read as `Ready`; a finished wait stays finished and answers `TimedOut`.
pub open spec fn next(s: WaitView, now: nat, e: EventView) -> (WaitView, ActionView) {
    match s.phase {
        Phase::Clearing => hook_poll(s, now),
        Phase::Hook => match e {
            EventView::Sentinel(true) => (
                WaitView { phase: Phase::Flushing, ..s },
                ActionView::Sleep(GRACE_MS as nat),
            ),
            EventView::Sentinel(false) => (s, ActionView::Sleep(HOOK_POLL_MS as nat)),
            EventView::SentinelUnavailable => enter_heuristic(s, now),
            _ => hook_poll(s, now),
        },
        Phase::Flushing => match e {
            EventView::Captured(out) => (
                WaitView { phase: Phase::Finished, ..s },
                ActionView::Complete { output: out, consume_sentinel: true },
            ),
            EventView::CaptureFailed => enter_heuristic(s, now),
            _ => (s, ActionView::Capture),
        },
        Phase::Heuristic => match e {
            EventView::Captured(out) => heuristic_seen(s, out),
            EventView::CaptureFailed => (
                WaitView { phase: Phase::Finished, ..s },
                ActionView::DriverFailed,
            ),
            _ => heuristic_poll(s, now),
        },
        Phase::Finished => (s, ActionView::TimedOut),
    }
}

/// Whether `n` or fewer further heuristic polls that each capture `out`
/// end the wait with `out` as its output.
pub open spec fn completes_within(s: WaitView, out: Seq<char>, n: nat) -> bool
    decreases n,
{
    n > 0 && {
        let (s1, a1) = heuristic_seen(s, out);
        a1 == (ActionView::Complete { output: out, consume_sentinel: false })
            || completes_within(s1, out, (n - 1) as nat)
    }
}

/// No stale sentinel: the first action of a wait removes the sentinel (see
/// `CompletionWait::new`), and whatever is reported before that removal is
/// answered, the wait neither ends nor starts its flush on it.
pub proof fn lemma_no_stale_sentinel(
    assistant: Seq<char>,
    session: Seq<char>,
    timeout_secs: nat,
    now: nat,
    e: EventView,
)
    requires
        now <= timeout_secs * 1000,
    ensures
        next(initial(assistant, session, timeout_secs), now, e).0.phase == Phase::Hook,
        next(initial(assistant, session, timeout_secs), now, e).1 == ActionView::CheckSentinel,
{
}

/// The state after answering each of `events` (a time and what was seen)
/// in turn, starting from `s`.
pub open spec fn run(s: WaitView, events: Seq<(nat, EventView)>) -> WaitView
    decreases events.len(),
{
    if events.len() == 0 {
        s
    } else {
        next(run(s, events.drop_last()), events.last().0, events.last().1).0
    }
}

/// Nothing in the event reports a sentinel or a failure: a wake-up, or a
/// probe that found no sentinel.
pub open spec fn quiet(e: EventView) -> bool {
    e == EventView::Ready || e == EventView::Sentinel(false)
}

/// No stale sentinel, over a whole wait: once the stale sentinel is removed,
/// a wait whose probes never find a sentinel (and whose hook integration
/// is there) never completes; it can only time out.
pub proof fn lemma_no_sentinel_no_completion(
    assistant: Seq<char>,
    session: Seq<char>,
    timeout_secs: nat,
    events: Seq<(nat, EventView)>,
)
    requires
        forall|i: int| 0 <= i < events.len() ==> quiet(#[trigger] events[i].1),
    ensures
        ({
            let p = run(initial(assistant, session, timeout_secs), events).phase;
            p == Phase::Clearing || p == Phase::Hook || p == Phase::Finished
        }),
        forall|i: int|
            0 <= i < events.len() ==> !(#[trigger] next(
                run(initial(assistant, session, timeout_secs), events.take(i)),
                events[i].0,
                events[i].1,
            ).1 is Complete),
    decreases events.len(),
{
    let s0 = initial(assistant, session, timeout_secs);
    if events.len() > 0 {
        let before = events.drop_last();
        assert forall|i: int| 0 <= i < before.len() implies quiet(#[trigger] before[i].1) by {
            assert(before[i] == events[i]);
        }
        lemma_no_sentinel_no_completion(assistant, session, timeout_secs, before);
        let n = events.len() - 1;
        assert(events.take(n) =~= before);
        assert(quiet(events[n].1));
        assert forall|i: int|
            0 <= i < events.len() implies !(#[trigger] next(
                run(s0, events.take(i)),
                events[i].0,
                events[i].1,
            ).1 is Complete) by {
            if i < n {
                assert(events.take(i) =~= before.take(i));
                assert(before[i] == events[i]);
            }
        }
    }
}

/// A sentinel seen by a probe made within the budget ends the wait with the
/// output captured after the grace period, whatever that output holds, and
/// asks for the sentinel to be removed.
pub proof fn lemma_sentinel_completes(s: WaitView, t0: nat, t1: nat, t2: nat, t3: nat, out: Seq<char>)
    requires
        s.phase == Phase::Hook,
        !expired(s, t0),
    ensures
        ({
            let (s1, a1) = next(s, t0, EventView::Ready);
            let (s2, a2) = next(s1, t1, EventView::Sentinel(true));
            let (s3, a3) = next(s2, t2, EventView::Ready);
            let (s4, a4) = next(s3, t3, EventView::Captured(out));
            &&& a1 == ActionView::CheckSentinel
            &&& a2 == ActionView::Sleep(GRACE_MS as nat)
            &&& a3 == ActionView::Capture
            &&& a4 == (ActionView::Complete { output: out, consume_sentinel: true })
            &&& s4.phase == Phase::Finished
        }),
{
}

/// Stability: once a heuristic poll has seen `out`, at most four further
/// polls that capture the same `out`, with no progress marker in it, end the
/// wait with `out`.
pub proof fn lemma_stable_output_completes(s: WaitView, out: Seq<char>)
    requires
        s.previous == Some(out),
        !crate::markers::still_working(out),
    ensures
        completes_within(s, out, 4),
{
    reveal_with_fuel(completes_within, 5);
    let done = ActionView::Complete { output: out, consume_sentinel: false };
    let (s1, a1) = heuristic_seen(s, out);
    let (s2, a2) = heuristic_seen(s1, out);
    let (s3, a3) = heuristic_seen(s2, out);
    let (s4, a4) = heuristic_seen(s3, out);
    if a1 != done {
        assert(s1.previous == Some(out) && s1.stable_count == s.stable_count + 1);
        if a2 != done {
            assert(s2.stable_count == s.stable_count + 2);
            if a3 != done {
                assert(s3.stable_count == s.stable_count + 3);
                assert(a4 == done);
            }
        }
    }
}

/// Stability from the start of the heuristic tier: when the hook tier is
/// unavailable, the first poll records the output `out`, and at most four
/// further polls that capture the same `out`, with no progress marker in
/// it, end the wait with `out`, whatever `out` is (the empty text included).
pub proof fn lemma_fallback_stable_output_completes(s: WaitView, now: nat, out: Seq<char>)
    requires
        s.phase == Phase::Hook,
        !expired(s, now),
        !crate::markers::still_working(out),
    ensures
        ({
            let (s1, a1) = next(s, now, EventView::SentinelUnavailable);
            let (s2, a2) = next(s1, now, EventView::Captured(out));
            &&& a1 == ActionView::Capture
            &&& s1.previous is None
            &&& (a2 == (ActionView::Complete { output: out, consume_sentinel: false })
                || (s2.phase == Phase::Heuristic && completes_within(s2, out, 4)))
        }),
{
    let (s1, a1) = next(s, now, EventView::SentinelUnavailable);
    let (s2, a2) = next(s1, now, EventView::Captured(out));
    if a2 != (ActionView::Complete { output: out, consume_sentinel: false }) {
        lemma_stable_output_completes(s2, out);
    }
}

/// A heuristic poll whose output shows a progress marker never ends the
/// wait, even when a completion or error marker shows too.
pub proof fn lemma_working_never_completes(s: WaitView, now: nat, out: Seq<char>)
    requires
        s.phase == Phase::Heuristic,
        crate::markers::still_working(out),
    ensures
        next(s, now, EventView::Captured(out)).0.phase == Phase::Heuristic,
        next(s, now, EventView::Captured(out)).1 == ActionView::Sleep(HEURISTIC_POLL_MS as nat),
{
}

/// Timeout, no earlier: a wait reports a timeout only once the budget of
/// `timeout_secs`, counted from the start of the wait, is spent.
pub proof fn lemma_timeout_not_early(s: WaitView, now: nat, e: EventView)
    requires
        s.phase != Phase::Finished,
        next(s, now, e).1 is TimedOut,
    ensures
        now > s.timeout_secs * 1000,
{
}

/// Timeout, no later than one poll interval past the budget, in the hook
/// tier: a probe made within the budget that finds no sentinel is followed
/// by one sleep of the probe interval, and the wake-up after it reports the
/// timeout as soon as the budget is spent.
pub proof fn lemma_hook_timeout_within_one_poll(s: WaitView, c: nat)
    requires
        s.phase == Phase::Hook || s.phase == Phase::Clearing,
        !expired(s, c),
    ensures
        ({
            let (s1, a1) = next(s, c, EventView::Ready);
            let (s2, a2) = next(s1, c, EventView::Sentinel(false));
            &&& a1 == ActionView::CheckSentinel
            &&& a2 == ActionView::Sleep(HOOK_POLL_MS as nat)
            &&& s2.phase == Phase::Hook
            &&& (expired(s, (c + HOOK_POLL_MS) as nat) ==> next(
                s2,
                (c + HOOK_POLL_MS) as nat,
                EventView::Ready,
            ).1 == ActionView::TimedOut)
        }),
{
}

/// Timeout, no later than one poll interval past the budget, in the
/// heuristic tier: a poll made within the budget that does not end the wait
/// is followed by one sleep of the poll interval, and the wake-up after it
/// reports the timeout as soon as the budget is spent.
pub proof fn lemma_heuristic_timeout_within_one_poll(s: WaitView, c: nat, out: Seq<char>)
    requires
        s.phase == Phase::Heuristic,
        !expired(s, c),
    ensures
        ({
            let (s1, a1) = next(s, c, EventView::Ready);
            let (s2, a2) = next(s1, c, EventView::Captured(out));
            &&& a1 == ActionView::Capture
            &&& (a2 is Complete || a2 == ActionView::Sleep(HEURISTIC_POLL_MS as nat))
            &&& (!(a2 is Complete) ==> s2.phase == Phase::Heuristic)
            &&& (!(a2 is Complete) && expired(s, (c + HEURISTIC_POLL_MS) as nat) ==> next(
                s2,
                (c + HEURISTIC_POLL_MS) as nat,
                EventView::Ready,
            ).1 == ActionView::TimedOut)
        }),
{
}

impl CompletionWait {
    /// A fresh wait on `session` (of the assistant called `assistant`) with a
    /// budget of `timeout_secs`, and its first action: removing a stale sentinel.
    pub fn new(assistant: &str, session: &str, timeout_secs: u64) -> (r: (CompletionWait, Action))
        ensures
            r.0@ == initial(assistant@, session@, timeout_secs as nat),
            r.1@ == ActionView::ClearSentinel,
    {
        let w = CompletionWait {
            session: session.to_owned(),
            sentinel: sentinel_path(assistant, session),
            timeout_secs,
            phase: Phase::Clearing,
            previous: None,
            stable_count: 0,
        };
        (w, Action::ClearSentinel)
    }

    /// Whether the wait has ended.
    pub fn is_finished(&self) -> (r: bool)
        ensures
            r == (self.phase == Phase::Finished),
    {
        self.phase == Phase::Finished
    }

    fn is_expired(&self, now_ms: u64) -> (r: bool)
        ensures
            r == expired(self@, now_ms as nat),
    {
        (now_ms as u128) > (self.timeout_secs as u128) * 1000
    }

    fn time_out(&mut self) -> (r: Action)
        ensures
            (final(self)@, r@) == time_out(old(self)@),
    {
        self.phase = Phase::Finished;
        Action::TimedOut
    }

    fn enter_heuristic(&mut self, now_ms: u64) -> (r: Action)
        ensures
            (final(self)@, r@) == enter_heuristic(old(self)@, now_ms as nat),
    {
        if self.is_expired(now_ms) {
            return self.time_out();
        }
        self.phase = Phase::Heuristic;
        self.previous = None;
        self.stable_count = 0;
        Action::Capture
    }

    fn hook_poll(&mut self, now_ms: u64) -> (r: Action)
        ensures
            (final(self)@, r@) == hook_poll(old(self)@, now_ms as nat),
    {
        if self.is_expired(now_ms) {
            self.time_out()
        } else {
            self.phase = Phase::Hook;
            Action::CheckSentinel
        }
    }

    fn heuristic_poll(&mut self, now_ms: u64) -> (r: Action)
        ensures
            (final(self)@, r@) == heuristic_poll(old(self)@, now_ms as nat),
    {
        if self.is_expired(now_ms) {
            self.time_out()
        } else {
            Action::Capture
        }
    }

    fn heuristic_seen(&mut self, out: String) -> (r: Action)
        ensures
            (final(self)@, r@) == heuristic_seen(old(self)@, out@),
    {
        match classify(&self.previous, out.as_str(), self.stable_count) {
            Classification::Complete => {
                self.phase = Phase::Finished;
                Action::Complete { output: out, consume_sentinel: false }
            },
            Classification::Unchanged => {
                self.stable_count = self.stable_count + 1;
                Action::Sleep(HEURISTIC_POLL_MS)
            },
            _ => {
                self.previous = Some(out);
                self.stable_count = 0;
                Action::Sleep(HEURISTIC_POLL_MS)
            },
        }
    }

    /// Takes in what the last action produced, at `now_ms` milliseconds after
    /// the wait began, and decides the next action. A timeout comes only
    /// once the budget is spent, and at the first wake-up or probe after it.
    pub fn step(&mut self, now_ms: u64, event: Event) -> (r: Action)
        ensures
            (final(self)@, r@) == next(old(self)@, now_ms as nat, event@),
            old(self).phase != Phase::Finished && r@ is TimedOut ==> now_ms as nat
                > old(self).timeout_secs * 1000,
            (old(self).phase == Phase::Clearing || old(self).phase == Phase::Hook || old(self).phase
                == Phase::Heuristic) && event@ == EventView::Ready && now_ms as nat
                > old(self).timeout_secs * 1000 ==> r@ == ActionView::TimedOut,
    {
        match self.phase {
            Phase::Clearing => self.hook_poll(now_ms),
            Phase::Hook => match event {
                Event::Sentinel(true) => {
                    self.phase = Phase::Flushing;
                    Action::Sleep(GRACE_MS)
                },
                Event::Sentinel(false) => Action::Sleep(HOOK_POLL_MS),
                Event::SentinelUnavailable => self.enter_heuristic(now_ms),
                _ => self.hook_poll(now_ms),
            },
            Phase::Flushing => match event {
                Event::Captured(out) => {
                    self.phase = Phase::Finished;
                    Action::Complete { output: out, consume_sentinel: true }
                },
                Event::CaptureFailed => self.enter_heuristic(now_ms),
                _ => Action::Capture,
            },
            Phase::Heuristic => match event {
                Event::Captured(out) => self.heuristic_seen(out),
                Event::CaptureFailed => self.fail_capture(),
                _ => self.heuristic_poll(now_ms),
            },
            Phase::Finished => Action::TimedOut,
        }
    }

    fn fail_capture(&mut self) -> (r: Action)
        ensures
            final(self)@ == (WaitView { phase: Phase::Finished, ..old(self)@ }),
            r@ == ActionView::DriverFailed,
    {
        self.phase = Phase::Finished;
        Action::DriverFailed
    }
}

} // verus!
