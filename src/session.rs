//! Session lifecycle: naming, starting, addressing and tearing down
//! sessions. Every operation on a named session first needs to know whether
//! the session exists, and refuses with `NotFound` before any change if not.
use vstd::prelude::*;
use crate::claude::{send_ops, start_ops, ClaudeCodeManager};
use crate::detect::{initial, Action, ActionView, CompletionWait};
use crate::driver::{digit, digit_char, opt_view, ops_view, string_of, DriverOp, DriverOpView, TmuxManager};

verus! {

/// How a session is doing.
#[derive(Debug, Clone, Copy, PartialEq, Eq, Structural)]
pub enum SessionStatus {
    /// The terminal session exists and responds.
    Active,
    /// The terminal session exists but looks inactive.
    Idle,
    /// Querying the terminal session failed.
    Failed,
}

impl SessionStatus {
    /// The status in words: "active", "idle" or "failed".
    pub fn label(&self) -> (r: String)
        ensures
            r@ == match *self {
                SessionStatus::Active => "active"@,
                SessionStatus::Idle => "idle"@,
                SessionStatus::Failed => "failed"@,
            },
    {
        match self {
            SessionStatus::Active => "active".to_owned(),
            SessionStatus::Idle => "idle".to_owned(),
            SessionStatus::Failed => "failed".to_owned(),
        }
    }
}

/// Why an operation on a session did not happen.
#[derive(Debug, Clone, Copy, PartialEq, Eq, Structural)]
pub enum SessionError {
    /// The session does not exist.
    NotFound,
    /// No completion was observed within the budget.
    Timeout,
    /// A terminal or file-system operation failed.
    DriverError,
    /// The driver returned data of an unexpected shape.
    ParseError,
}

/// A point in time in UTC, to the second.
#[derive(Debug, Clone, Copy, PartialEq, Eq, Structural)]
pub struct Stamp {
    pub year: i32,
    pub month: u32,
    pub day: u32,
    pub hour: u32,
    pub minute: u32,
    pub second: u32,
}

impl Stamp {
    /// Each field lies in its calendar range.
    pub open spec fn wf(&self) -> bool {
        &&& 1 <= self.month <= 12
        &&& 1 <= self.day <= 31
        &&& self.hour < 24
        &&& self.minute < 60
        &&& self.second < 60
    }
}

/// Two decimal digits of `n < 100`.
pub open spec fn two_digits(n: nat) -> Seq<char> {
    seq![digit_char(n / 10), digit_char(n % 10)]
}

/// The name given to a session of the assistant called `assistant`, started
/// at `t` without a name of its own: the assistant's name as a prefix, then
/// month, day, hour, minute and second.
pub open spec fn generated_name(assistant: Seq<char>, t: Stamp) -> Seq<char> {
    assistant + "-"@ + two_digits(t.month as nat) + two_digits(t.day as nat) + "-"@ + two_digits(
        t.hour as nat,
    ) + two_digits(t.minute as nat) + two_digits(t.second as nat)
}

fn push_two_digits(v: &mut Vec<char>, n: u32)
    requires
        n < 100,
    ensures
        final(v)@ == old(v)@ + two_digits(n as nat),
{
    v.push(digit((n / 10) as u64));
    v.push(digit((n % 10) as u64));
    assert(final(v)@ =~= old(v)@ + two_digits(n as nat));
}

/// A session of the assistant.
pub struct Session {
    /// The terminal session name.
    pub id: String,
    /// The name shown to people (the same as `id`).
    pub name: String,
    pub working_dir: Option<String>,
    pub created_at: Stamp,
    pub status: SessionStatus,
}

/// Where a session's history comes from.
pub enum History {
    /// The session's log file, read already.
    Logged(String),
    /// No log could be read: capture the pane instead.
    Capture(DriverOp),
}

/// The ANSI scanner's state after a prefix: the kept text, and whether it
/// is in plain text (0), just after an escape (1) or inside a colour code (2).
pub open spec fn ansi_scan(s: Seq<char>) -> (Seq<char>, nat)
    decreases s.len(),
{
    if s.len() == 0 {
        (Seq::empty(), 0)
    } else {
        let (kept, mode) = ansi_scan(s.drop_last());
        let c = s.last();
        if mode == 2 {
            (kept, if c == 'm' { 0 } else { 2 })
        } else if mode == 1 && c == '[' {
            (kept, 2)
        } else if c == '\x1b' {
            (kept, 1)
        } else {
            (kept.push(c), 0)
        }
    }
}

/// `s` without its colour codes: an escape character is dropped, and when a
/// `[` follows it, everything up to and including the next `m` is dropped too.
pub open spec fn strip_ansi(s: Seq<char>) -> Seq<char> {
    ansi_scan(s).0
}

/// How many of `outcomes` are successes.
pub open spec fn successes(outcomes: Seq<bool>) -> nat
    decreases outcomes.len(),
{
    if outcomes.len() == 0 {
        0
    } else {
        successes(outcomes.drop_last()) + if outcomes.last() { 1nat } else { 0nat }
    }
}

/// `s` records the session `name`, found at `now`, which answered if `alive`.
pub open spec fn listed(s: Session, name: String, alive: bool, now: Stamp) -> bool {
    &&& s.id == name
    &&& s.name == name
    &&& s.working_dir is None
    &&& s.created_at == now
    &&& s.status == if alive { SessionStatus::Active } else { SessionStatus::Failed }
}

/// Owns the sessions of the assistant.
pub struct SessionManager {
    pub claude: ClaudeCodeManager,
    pub tmux: TmuxManager,
}

fn ensure_exists(exists: bool) -> (r: Result<(), SessionError>)
    ensures
        exists <==> r is Ok,
        !exists ==> r == Err::<(), SessionError>(SessionError::NotFound),
{
    if exists {
        Ok(())
    } else {
        Err(SessionError::NotFound)
    }
}

impl SessionManager {
    /// A manager of the sessions of the assistant called `assistant`.
    pub fn new(assistant: &str) -> (r: SessionManager)
        ensures
            r.claude.assistant@ == assistant@,
            r.tmux.assistant@ == assistant@,
    {
        SessionManager { claude: ClaudeCodeManager::new(assistant), tmux: TmuxManager::new(assistant) }
    }

    /// The name of a new session: `requested` if given, else one made from
    /// the time `now`.
    pub fn session_name(&self, requested: Option<String>, now: Stamp) -> (r: String)
        requires
            now.wf(),
        ensures
            r@ == match requested {
                Some(n) => n@,
                None => generated_name(self.claude.assistant@, now),
            },
    {
        match requested {
            Some(n) => n,
            None => {
                let mut v = crate::text::to_chars(self.claude.assistant.as_str());
                v.push('-');
                push_two_digits(&mut v, now.month);
                push_two_digits(&mut v, now.day);
                v.push('-');
                push_two_digits(&mut v, now.hour);
                push_two_digits(&mut v, now.minute);
                push_two_digits(&mut v, now.second);
                proof {
                    reveal_strlit("-");
                }
                assert(v@ =~= generated_name(self.claude.assistant@, now));
                string_of(v)
            },
        }
    }

    /// The operations that start the assistant in `session_name` and send
    /// it `message`. A session of that name (`exists`) is destroyed first
    /// and created anew: nothing of it is kept.
    pub fn start_session(
        &self,
        session_name: &str,
        message: &str,
        working_dir: &Option<String>,
        exists: bool,
    ) -> (r: Vec<DriverOp>)
        ensures
            ops_view(r@) == start_ops(
                self.claude.assistant@,
                session_name@,
                opt_view(*working_dir),
                message@,
                exists,
            ),
    {
        self.claude.start_claude_session(session_name, working_dir, message, exists)
    }

    /// The records of the assistant's sessions `names` (as
    /// `ClaudeCodeManager::list_claude_sessions` finds them), each `Active`
    /// if it answered (`alive`) and `Failed` if not, all stamped `now`.
    pub fn list_sessions(&self, names: &Vec<String>, alive: &Vec<bool>, now: Stamp) -> (r: Vec<
        Session,
    >)
        requires
            alive@.len() == names@.len(),
        ensures
            r@.len() == names@.len(),
            forall|i: int| 0 <= i < r@.len() ==> #[trigger] listed(r@[i], names@[i], alive@[i], now),
    {
        let mut out: Vec<Session> = Vec::new();
        let mut i: usize = 0;
        while i < names.len()
            invariant
                alive@.len() == names@.len(),
                i <= names@.len(),
                out@.len() == i,
                forall|k: int| 0 <= k < i ==> #[trigger] listed(out@[k], names@[k], alive@[k], now),
            decreases names@.len() - i,
        {
            let s = Session {
                id: names[i].clone(),
                name: names[i].clone(),
                working_dir: None,
                created_at: now,
                status: if alive[i] {
                    SessionStatus::Active
                } else {
                    SessionStatus::Failed
                },
            };
            out.push(s);
            i = i + 1;
        }
        out
    }

    /// The operations that deliver `message` to `session_name`, or `NotFound`
    /// when the session does not exist (`exists`), in which case no text is typed.
    pub fn send_message(&self, session_name: &str, message: &str, exists: bool) -> (r: Result<
        Vec<DriverOp>,
        SessionError,
    >)
        ensures
            exists <==> r is Ok,
            !exists ==> r == Err::<Vec<DriverOp>, SessionError>(SessionError::NotFound),
            r is Ok ==> ops_view(r->Ok_0@) == send_ops(session_name@, message@),
    {
        ensure_exists(exists)?;
        Ok(self.claude.send_message_to_claude(session_name, message))
    }

    /// Begins a wait for the end of the current turn in `session_name`, or
    /// `NotFound` when the session does not exist.
    pub fn wait_for_completion(&self, session_name: &str, timeout: u64, exists: bool) -> (r: Result<
        (CompletionWait, Action),
        SessionError,
    >)
        ensures
            exists <==> r is Ok,
            !exists ==> r == Err::<(CompletionWait, Action), SessionError>(SessionError::NotFound),
            r is Ok ==> r->Ok_0.0@ == initial(self.claude.assistant@, session_name@, timeout as nat) && r->Ok_0.1@
                == ActionView::ClearSentinel,
    {
        ensure_exists(exists)?;
        Ok(self.claude.wait_for_claude_completion(session_name, timeout))
    }

    /// The capture that shows the last `lines` lines of `session_name`, or
    /// `NotFound` when the session does not exist.
    pub fn get_session_status(&self, session_name: &str, lines: u64, exists: bool) -> (r: Result<
        DriverOp,
        SessionError,
    >)
        ensures
            exists <==> r is Ok,
            !exists ==> r == Err::<DriverOp, SessionError>(SessionError::NotFound),
            r is Ok ==> r->Ok_0@ == (DriverOpView::Capture {
                session: session_name@,
                lines: Some(lines as nat),
            }),
    {
        ensure_exists(exists)?;
        Ok(self.claude.get_claude_output(session_name, Some(lines)))
    }

    /// The operation that hands the terminal to `session_name`, or `NotFound`
    /// when the session does not exist.
    pub fn attach_session(&self, session_name: &str, exists: bool) -> (r: Result<
        DriverOp,
        SessionError,
    >)
        ensures
            exists <==> r is Ok,
            !exists ==> r == Err::<DriverOp, SessionError>(SessionError::NotFound),
            r is Ok ==> r->Ok_0@ == (DriverOpView::Attach { session: session_name@ }),
    {
        ensure_exists(exists)?;
        Ok(self.claude.attach_to_session(session_name))
    }

    /// The operation that tears `session_name` down, or `NotFound` when the
    /// session does not exist.
    pub fn kill_session(&self, session_name: &str, exists: bool) -> (r: Result<
        DriverOp,
        SessionError,
    >)
        ensures
            exists <==> r is Ok,
            !exists ==> r == Err::<DriverOp, SessionError>(SessionError::NotFound),
            r is Ok ==> r->Ok_0@ == (DriverOpView::Destroy { session: session_name@ }),
    {
        ensure_exists(exists)?;
        Ok(self.claude.kill_claude_session(session_name))
    }

    /// The count that a sweep over all sessions reports: how many of the
    /// per-session kills (`outcomes`) succeeded. A failure stops nothing.
    pub fn kill_all_sessions(&self, outcomes: &Vec<bool>) -> (r: usize)
        ensures
            r == successes(outcomes@),
    {
        let mut n: usize = 0;
        let mut i: usize = 0;
        while i < outcomes.len()
            invariant
                i <= outcomes@.len(),
                n == successes(outcomes@.take(i as int)),
                n <= i,
            decreases outcomes@.len() - i,
        {
            assert(outcomes@.take(i + 1).drop_last() =~= outcomes@.take(i as int));
            if outcomes[i] {
                n = n + 1;
            }
            i = i + 1;
        }
        assert(outcomes@.take(i as int) =~= outcomes@);
        n
    }

    /// Where the history of `session_name` comes from: its log (`logged`,
    /// when it could be read), else a capture of `lines` lines or of the
    /// whole pane; `NotFound` when the session does not exist.
    pub fn get_session_history(
        &self,
        session_name: &str,
        lines: Option<u64>,
        exists: bool,
        logged: Option<String>,
    ) -> (r: Result<History, SessionError>)
        ensures
            exists <==> r is Ok,
            !exists ==> r == Err::<History, SessionError>(SessionError::NotFound),
            r is Ok ==> match r->Ok_0 {
                History::Logged(text) => logged == Some(text),
                History::Capture(op) => logged is None && op@ == (DriverOpView::Capture {
                    session: session_name@,
                    lines: match lines {
                        Some(n) => Some(n as nat),
                        None => None,
                    },
                }),
            },
    {
        ensure_exists(exists)?;
        match logged {
            Some(text) => Ok(History::Logged(text)),
            None => Ok(History::Capture(self.claude.get_claude_output(session_name, lines))),
        }
    }

    /// The operations that turn logging on for each of `sessions`.
    pub fn enable_logging_for_existing_sessions(&self, sessions: &Vec<String>) -> (r: Vec<DriverOp>)
        ensures
            r@.len() == sessions@.len(),
            forall|i: int|
                0 <= i < r@.len() ==> #[trigger] r@[i]@ == (DriverOpView::EnableLogging {
                    session: sessions@[i]@,
                }),
    {
        let mut ops: Vec<DriverOp> = Vec::new();
        let mut i: usize = 0;
        while i < sessions.len()
            invariant
                i <= sessions@.len(),
                ops@.len() == i,
                forall|k: int|
                    0 <= k < i ==> #[trigger] ops@[k]@ == (DriverOpView::EnableLogging {
                        session: sessions@[k]@,
                    }),
            decreases sessions@.len() - i,
        {
            ops.push(DriverOp::EnableLogging { session: sessions[i].clone() });
            i = i + 1;
        }
        ops
    }

    /// `text` without its ANSI colour codes.
    pub fn strip_ansi_codes(&self, text: &str) -> (r: String)
        ensures
            r@ == strip_ansi(text@),
    {
        let chars = crate::text::to_chars(text);
        let mut kept: Vec<char> = Vec::new();
        let mut mode: u8 = 0;
        let mut i: usize = 0;
        while i < chars.len()
            invariant
                chars@ == text@,
                i <= chars@.len(),
                (kept@, mode as nat) == ansi_scan(chars@.take(i as int)),
            decreases chars@.len() - i,
        {
            assert(chars@.take(i + 1).drop_last() =~= chars@.take(i as int));
            let c = chars[i];
            if mode == 2 {
                if c == 'm' {
                    mode = 0;
                }
            } else if mode == 1 && c == '[' {
                mode = 2;
            } else if c == '\x1b' {
                mode = 1;
            } else {
                kept.push(c);
                mode = 0;
            }
            i = i + 1;
        }
        assert(chars@.take(i as int) =~= text@);
        string_of(kept)
    }
}

} // verus!
