//! The terminal operations that the library asks for, and how each one is
//! spelled as a tmux command line.
use vstd::prelude::*;
use crate::parse::{parse_unsigned, parsed_unsigned, split_chars, split_on, trim_chars, trimmed};
use crate::session::SessionError;
use crate::text::{contains_seq, contains_str, to_chars};

verus! {

/// One operation on the terminal multiplexer, or a pause between two.
pub enum DriverOp {
    /// Start a detached session, optionally in a directory and running a command.
    Create { session: String, working_dir: Option<String>, command: Option<String> },
    /// Append everything the session shows to its log file.
    EnableLogging { session: String },
    /// Tear the session down.
    Destroy { session: String },
    /// Type literal text into the session.
    SendText { session: String, text: String },
    /// Press the key that submits the typed text.
    Submit { session: String },
    /// Wait this many milliseconds.
    Pause(u64),
    /// Capture the pane text, optionally reaching this many lines back.
    Capture { session: String, lines: Option<u64> },
    /// Hand the terminal over to the session.
    Attach { session: String },
}

pub enum DriverOpView {
    Create { session: Seq<char>, working_dir: Option<Seq<char>>, command: Option<Seq<char>> },
    EnableLogging { session: Seq<char> },
    Destroy { session: Seq<char> },
    SendText { session: Seq<char>, text: Seq<char> },
    Submit { session: Seq<char> },
    Pause(nat),
    Capture { session: Seq<char>, lines: Option<nat> },
    Attach { session: Seq<char> },
}

/// The characters of an optional string.
pub open spec fn opt_view(o: Option<String>) -> Option<Seq<char>> {
    match o {
        Some(s) => Some(s@),
        None => None,
    }
}

impl View for DriverOp {
    type V = DriverOpView;

    open spec fn view(&self) -> DriverOpView {
        match self {
            DriverOp::Create { session, working_dir, command } => DriverOpView::Create {
                session: session@,
                working_dir: opt_view(*working_dir),
                command: opt_view(*command),
            },
            DriverOp::EnableLogging { session } => DriverOpView::EnableLogging { session: session@ },
            DriverOp::Destroy { session } => DriverOpView::Destroy { session: session@ },
            DriverOp::SendText { session, text } => DriverOpView::SendText {
                session: session@,
                text: text@,
            },
            DriverOp::Submit { session } => DriverOpView::Submit { session: session@ },
            DriverOp::Pause(ms) => DriverOpView::Pause(*ms as nat),
            DriverOp::Capture { session, lines } => DriverOpView::Capture {
                session: session@,
                lines: match lines {
                    Some(n) => Some(*n as nat),
                    None => None,
                },
            },
            DriverOp::Attach { session } => DriverOpView::Attach { session: session@ },
        }
    }
}

/// The abstract form of a list of operations.
pub open spec fn ops_view(ops: Seq<DriverOp>) -> Seq<DriverOpView> {
    ops.map_values(|o: DriverOp| o@)
}

/// A copy of an optional string.
pub fn copy_opt(o: &Option<String>) -> (r: Option<String>)
    ensures
        opt_view(r) == opt_view(*o),
{
    match o {
        Some(s) => Some(s.clone()),
        None => None,
    }
}

/// The operations that create a session: the session of that name, if there
/// is one, is torn down first; then the new one starts with logging on.
pub open spec fn create_ops(
    session: Seq<char>,
    working_dir: Option<Seq<char>>,
    command: Option<Seq<char>>,
    exists: bool,
) -> Seq<DriverOpView> {
    let fresh = seq![
        DriverOpView::Create { session, working_dir, command },
        DriverOpView::EnableLogging { session },
    ];
    if exists {
        seq![DriverOpView::Destroy { session }] + fresh
    } else {
        fresh
    }
}

/// Where a session's log lives, under the home directory `home`, for the
/// manager of the assistant called `assistant`.
pub open spec fn log_file_of(assistant: Seq<char>, home: Seq<char>, session: Seq<char>) -> Seq<
    char,
> {
    home + "/."@ + assistant + "-code-manager/logs/"@ + session + ".log"@
}

/// The decimal digits of `n`.
pub open spec fn decimal_of(n: nat) -> Seq<char>
    decreases n,
{
    if n < 10 {
        seq![digit_char(n)]
    } else {
        decimal_of(n / 10).push(digit_char(n % 10))
    }
}

/// The digit character of `d < 10`.
pub open spec fn digit_char(d: nat) -> char {
    if d == 0 { '0' }
    else if d == 1 { '1' }
    else if d == 2 { '2' }
    else if d == 3 { '3' }
    else if d == 4 { '4' }
    else if d == 5 { '5' }
    else if d == 6 { '6' }
    else if d == 7 { '7' }
    else if d == 8 { '8' }
    else { '9' }
}

/// The digit character of `d < 10`.
pub fn digit(d: u64) -> (r: char)
    requires
        d < 10,
    ensures
        r == digit_char(d as nat),
{
    if d == 0 { '0' }
    else if d == 1 { '1' }
    else if d == 2 { '2' }
    else if d == 3 { '3' }
    else if d == 4 { '4' }
    else if d == 5 { '5' }
    else if d == 6 { '6' }
    else if d == 7 { '7' }
    else if d == 8 { '8' }
    else { '9' }
}

/// Relies on `String::from_iter`: a string holding exactly the given characters.
#[verifier::external_body]
pub(crate) fn string_of(chars: Vec<char>) -> (r: String)
    ensures
        r@ == chars@,
{
    String::from_iter(chars)
}

/// The decimal digits of `n`.
pub fn decimal_digits(n: u64) -> (r: Vec<char>)
    ensures
        r@ == decimal_of(n as nat),
    decreases n,
{
    if n < 10 {
        let mut v: Vec<char> = Vec::new();
        v.push(digit(n));
        assert(v@ =~= decimal_of(n as nat));
        v
    } else {
        let mut v = decimal_digits(n / 10);
        v.push(digit(n % 10));
        v
    }
}

/// `n` written in decimal.
pub fn decimal(n: u64) -> (r: String)
    ensures
        r@ == decimal_of(n as nat),
{
    string_of(decimal_digits(n))
}

/// The driver for tmux: spells each operation as a tmux command line.
pub struct TmuxManager {
    /// The name of the assistant whose sessions are driven.
    pub assistant: String,
}

/// The tmux arguments for operation `op`, with the log file under `home`;
/// none for a pause, which involves no tmux command.
pub open spec fn args_of(op: DriverOpView, assistant: Seq<char>, home: Seq<char>) -> Option<
    Seq<Seq<char>>,
> {
    match op {
        DriverOpView::Create { session, working_dir, command } => Some(
            seq!["new-session"@, "-d"@, "-s"@, session] + match working_dir {
                Some(d) => seq!["-c"@, d],
                None => Seq::empty(),
            } + match command {
                Some(c) => seq![c],
                None => Seq::empty(),
            },
        ),
        DriverOpView::EnableLogging { session } => Some(
            seq!["pipe-pane"@, "-t"@, session, "cat >> '"@ + log_file_of(assistant, home, session) + "'"@],
        ),
        DriverOpView::Destroy { session } => Some(seq!["kill-session"@, "-t"@, session]),
        DriverOpView::SendText { session, text } => Some(
            seq!["send-keys"@, "-t"@, session, "-l"@, text],
        ),
        DriverOpView::Submit { session } => Some(seq!["send-keys"@, "-t"@, session, "C-m"@]),
        DriverOpView::Pause(_) => None,
        DriverOpView::Capture { session, lines } => Some(
            seq!["capture-pane"@, "-t"@, session, "-p"@] + match lines {
                Some(n) => seq!["-S"@, "-"@ + decimal_of(n)],
                None => Seq::empty(),
            },
        ),
        DriverOpView::Attach { session } => Some(seq!["attach-session"@, "-t"@, session]),
    }
}

/// The characters of each string.
pub open spec fn strings_view(v: Seq<String>) -> Seq<Seq<char>> {
    v.map_values(|s: String| s@)
}

/// The standard error of a failed `kill-session` that means there was nothing to kill.
pub open spec fn nothing_to_kill(stderr: Seq<char>) -> bool {
    contains_seq(stderr, "no server running"@) || contains_seq(stderr, "session not found"@)
}

/// The session names in a listing that tmux printed one per line: each line
/// trimmed, blank ones left out.
pub open spec fn listed_names(lines: Seq<Seq<char>>) -> Seq<Seq<char>>
    decreases lines.len(),
{
    if lines.len() == 0 {
        Seq::empty()
    } else {
        let rest = listed_names(lines.drop_last());
        if trimmed(lines.last()).len() > 0 {
            rest.push(trimmed(lines.last()))
        } else {
            rest
        }
    }
}

/// What tmux reports of one session.
pub struct SessionInfo {
    pub name: String,
    /// When it was created, in seconds since the Unix epoch.
    pub created: u64,
    /// How many windows it has.
    pub windows: u32,
    /// Whether a client is attached to it.
    pub attached: bool,
}

/// The fields of a status line `name:created:windows:attached`, once trimmed.
pub open spec fn info_fields(text: Seq<char>) -> Seq<Seq<char>> {
    split_on(trimmed(text), ':')
}

/// A number read from a field, zero when the field is not one.
pub open spec fn number_or_zero(field: Seq<char>, max: nat) -> nat {
    match parsed_unsigned(field, max) {
        Some(v) => v,
        None => 0,
    }
}

fn unsigned_or_zero(field: &Vec<char>, max: u64) -> (r: u64)
    ensures
        r as nat == number_or_zero(field@, max as nat),
{
    match parse_unsigned(field, max) {
        Some(v) => v,
        None => 0,
    }
}

impl TmuxManager {
    pub fn new(assistant: &str) -> (r: TmuxManager)
        ensures
            r.assistant@ == assistant@,
    {
        TmuxManager { assistant: assistant.to_owned() }
    }

    /// The operations that create session `session_name`, replacing one of
    /// that name if `exists`, with logging on.
    pub fn create_session(
        &self,
        session_name: &str,
        working_dir: &Option<String>,
        command: &Option<String>,
        exists: bool,
    ) -> (r: Vec<DriverOp>)
        ensures
            ops_view(r@) == create_ops(session_name@, opt_view(*working_dir), opt_view(*command), exists),
    {
        self.create_session_with_logging(session_name, working_dir, command, exists, true)
    }

    /// The operations that create session `session_name`, replacing one of
    /// that name if `exists`, and turning logging on if `enable_logging`.
    pub fn create_session_with_logging(
        &self,
        session_name: &str,
        working_dir: &Option<String>,
        command: &Option<String>,
        exists: bool,
        enable_logging: bool,
    ) -> (r: Vec<DriverOp>)
        ensures
            ops_view(r@) == if enable_logging {
                create_ops(session_name@, opt_view(*working_dir), opt_view(*command), exists)
            } else {
                create_ops(session_name@, opt_view(*working_dir), opt_view(*command), exists).drop_last()
            },
    {
        let mut ops: Vec<DriverOp> = Vec::new();
        if exists {
            ops.push(DriverOp::Destroy { session: session_name.to_owned() });
        }
        ops.push(
            DriverOp::Create {
                session: session_name.to_owned(),
                working_dir: copy_opt(working_dir),
                command: copy_opt(command),
            },
        );
        let ghost created = ops_view(ops@);
        assert(created =~= create_ops(
            session_name@,
            opt_view(*working_dir),
            opt_view(*command),
            exists,
        ).drop_last());
        if enable_logging {
            ops.push(DriverOp::EnableLogging { session: session_name.to_owned() });
            assert(ops_view(ops@) =~= create_ops(
                session_name@,
                opt_view(*working_dir),
                opt_view(*command),
                exists,
            ));
        }
        ops
    }

    /// The log file of `session_name` under the home directory `home`.
    pub fn get_log_file_path(&self, home: &str, session_name: &str) -> (r: String)
        ensures
            r@ == log_file_of(self.assistant@, home@, session_name@),
    {
        let mut p = home.to_owned();
        p.append("/.");
        p.append(self.assistant.as_str());
        p.append("-code-manager/logs/");
        p.append(session_name);
        p.append(".log");
        p
    }

    /// The tmux arguments that carry out `op`, with log files under `home`.
    pub fn command_args(&self, op: &DriverOp, home: &str) -> (r: Option<Vec<String>>)
        ensures
            match r {
                Some(v) => args_of(op@, self.assistant@, home@) == Some(strings_view(v@)),
                None => args_of(op@, self.assistant@, home@) is None,
            },
    {
        let mut a: Vec<String> = Vec::new();
        match op {
            DriverOp::Create { session, working_dir, command } => {
                a.push("new-session".to_owned());
                a.push("-d".to_owned());
                a.push("-s".to_owned());
                a.push(session.clone());
                match working_dir {
                    Some(d) => {
                        a.push("-c".to_owned());
                        a.push(d.clone());
                    },
                    None => {},
                }
                match command {
                    Some(c) => a.push(c.clone()),
                    None => {},
                }
            },
            DriverOp::EnableLogging { session } => {
                a.push("pipe-pane".to_owned());
                a.push("-t".to_owned());
                a.push(session.clone());
                let mut pipe = "cat >> '".to_owned();
                let log = self.get_log_file_path(home, session.as_str());
                pipe.append(log.as_str());
                pipe.append("'");
                a.push(pipe);
            },
            DriverOp::Destroy { session } => {
                a.push("kill-session".to_owned());
                a.push("-t".to_owned());
                a.push(session.clone());
            },
            DriverOp::SendText { session, text } => {
                a.push("send-keys".to_owned());
                a.push("-t".to_owned());
                a.push(session.clone());
                a.push("-l".to_owned());
                a.push(text.clone());
            },
            DriverOp::Submit { session } => {
                a.push("send-keys".to_owned());
                a.push("-t".to_owned());
                a.push(session.clone());
                a.push("C-m".to_owned());
            },
            DriverOp::Pause(_) => {
                return None;
            },
            DriverOp::Capture { session, lines } => {
                a.push("capture-pane".to_owned());
                a.push("-t".to_owned());
                a.push(session.clone());
                a.push("-p".to_owned());
                match lines {
                    Some(n) => {
                        a.push("-S".to_owned());
                        let mut back = "-".to_owned();
                        let digits = decimal(*n);
                        back.append(digits.as_str());
                        a.push(back);
                    },
                    None => {},
                }
            },
            DriverOp::Attach { session } => {
                a.push("attach-session".to_owned());
                a.push("-t".to_owned());
                a.push(session.clone());
            },
        }
        assert(args_of(op@, self.assistant@, home@) == Some(strings_view(a@))) by {
            assert(strings_view(a@) =~= args_of(op@, self.assistant@, home@)->0);
        }
        Some(a)
    }

    /// The session names in the output of `list-sessions`; none when the
    /// command failed, which is what tmux does when no session exists.
    pub fn list_sessions(&self, succeeded: bool, stdout: &str) -> (r: Vec<String>)
        ensures
            !succeeded ==> r@.len() == 0,
            succeeded ==> strings_view(r@) == listed_names(split_on(stdout@, '\n')),
    {
        let mut names: Vec<String> = Vec::new();
        if !succeeded {
            return names;
        }
        let chars = to_chars(stdout);
        let lines = split_chars(&chars, '\n');
        let ghost all = split_on(stdout@, '\n');
        let mut i: usize = 0;
        while i < lines.len()
            invariant
                lines@.len() == all.len(),
                forall|k: int| 0 <= k < lines@.len() ==> #[trigger] lines@[k]@ == all[k],
                i <= lines@.len(),
                strings_view(names@) == listed_names(all.take(i as int)),
            decreases lines@.len() - i,
        {
            assert(all.take(i + 1).drop_last() =~= all.take(i as int));
            let t = trim_chars(&lines[i]);
            if t.len() > 0 {
                let ghost before = names@;
                names.push(string_of(t));
                assert(strings_view(names@) =~= strings_view(before).push(trimmed(all[i as int])));
            }
            i = i + 1;
        }
        assert(all.take(i as int) =~= all);
        names
    }

    /// Reads the status line `name:created:windows:attached` of a session.
    /// A line without exactly four fields is a `ParseError`; a number that
    /// does not read counts as zero, and the session is attached when the
    /// last field is `1`.
    pub fn get_session_info(&self, text: &str) -> (r: Result<SessionInfo, SessionError>)
        ensures
            info_fields(text@).len() == 4 <==> r is Ok,
            r is Err ==> r == Err::<SessionInfo, SessionError>(SessionError::ParseError),
            r is Ok ==> ({
                let f = info_fields(text@);
                let info = r->Ok_0;
                &&& info.name@ == f[0]
                &&& info.created as nat == number_or_zero(f[1], u64::MAX as nat)
                &&& info.windows as nat == number_or_zero(f[2], u32::MAX as nat)
                &&& info.attached == (f[3] == seq!['1'])
            }),
    {
        let chars = to_chars(text);
        let t = trim_chars(&chars);
        let mut parts = split_chars(&t, ':');
        if parts.len() != 4 {
            return Err(SessionError::ParseError);
        }
        let ghost f = info_fields(text@);
        let p3 = parts.pop().unwrap();
        let p2 = parts.pop().unwrap();
        let p1 = parts.pop().unwrap();
        let p0 = parts.pop().unwrap();
        assert(p3@ == f[3] && p2@ == f[2] && p1@ == f[1] && p0@ == f[0]);
        let attached = p3.len() == 1 && p3[0] == '1';
        assert(attached == (f[3] == seq!['1'])) by {
            if p3.len() == 1 && p3[0] == '1' {
                assert(p3@ =~= seq!['1']);
            }
        }
        let created = unsigned_or_zero(&p1, u64::MAX);
        let windows = unsigned_or_zero(&p2, 4294967295u64);
        Ok(SessionInfo { name: string_of(p0), created, windows: windows as u32, attached })
    }

    /// Whether a failed `kill-session` with this standard error still counts
    /// as done, the session being gone already.
    pub fn kill_tolerated(&self, stderr: &str) -> (r: bool)
        ensures
            r == nothing_to_kill(stderr@),
    {
        contains_str(stderr, "no server running") || contains_str(stderr, "session not found")
    }
}

} // verus!
