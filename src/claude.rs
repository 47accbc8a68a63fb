//! The assistant's side of a session: how it is launched and addressed, how
//! its output is read, and which terminal sessions belong to it.
use vstd::prelude::*;
use crate::detect::{initial, Action, ActionView, CompletionWait};
use crate::driver::{create_ops, opt_view, ops_view, DriverOp, DriverOpView, TmuxManager};
use crate::markers::{
    identity_marked, is_ready_folded, looks_complete, looks_like_completion_folded, lower_of,
    lowercase, ready_marked, shows_identity_folded,
};
use crate::text::{join2, starts_with_seq, starts_with_str};

verus! {

/// Milliseconds that the assistant is given to start before the first message.
pub const STARTUP_MS: u64 = 5000;

/// Milliseconds between typing a message and submitting it.
pub const SUBMIT_PAUSE_MS: u64 = 500;

/// The command that launches the assistant called `assistant` in a new
/// session, with its permission prompts off.
pub open spec fn launch_command(assistant: Seq<char>) -> Seq<char> {
    assistant + "-code --dangerously-skip-permissions"@
}

/// Typing `message` into `session` and submitting it, with a pause between.
pub open spec fn send_ops(session: Seq<char>, message: Seq<char>) -> Seq<DriverOpView> {
    seq![
        DriverOpView::SendText { session, text: message },
        DriverOpView::Pause(SUBMIT_PAUSE_MS as nat),
        DriverOpView::Submit { session },
    ]
}

/// Starting the assistant in `session` and giving it its first message.
pub open spec fn start_ops(
    assistant: Seq<char>,
    session: Seq<char>,
    working_dir: Option<Seq<char>>,
    message: Seq<char>,
    exists: bool,
) -> Seq<DriverOpView> {
    create_ops(session, working_dir, Some(launch_command(assistant)), exists) + seq![
        DriverOpView::Pause(STARTUP_MS as nat),
    ] + send_ops(session, message)
}

/// Starting a session under a name already in use tears the old session
/// down before anything else and then creates the new one, so nothing of
/// the old session is kept; under a free name nothing is torn down.
pub proof fn lemma_start_replaces(
    assistant: Seq<char>,
    session: Seq<char>,
    working_dir: Option<Seq<char>>,
    message: Seq<char>,
)
    ensures
        start_ops(assistant, session, working_dir, message, true)[0] == (DriverOpView::Destroy {
            session,
        }),
        start_ops(assistant, session, working_dir, message, true)[1] == (DriverOpView::Create {
            session,
            working_dir,
            command: Some(launch_command(assistant)),
        }),
        start_ops(assistant, session, working_dir, message, true).drop_first() == start_ops(
            assistant,
            session,
            working_dir,
            message,
            false,
        ),
        forall|i: int|
            0 <= i < start_ops(assistant, session, working_dir, message, false).len()
                ==> !(#[trigger] start_ops(assistant, session, working_dir, message, false)[i] is Destroy),
{
    assert(start_ops(assistant, session, working_dir, message, true).drop_first() =~= start_ops(
        assistant,
        session,
        working_dir,
        message,
        false,
    ));
}

/// A pane sample shows the assistant called `assistant` (`folded_sample`:
/// the lower-cased sample, if one could be taken).
pub open spec fn sample_shows_assistant(assistant: Seq<char>, folded_sample: Option<Seq<char>>) -> bool {
    folded_sample is Some && identity_marked(assistant, folded_sample->0)
}

/// A session belongs to the assistant called `assistant`: its name starts
/// with the assistant's prefix, or a sample of its pane shows the assistant.
pub open spec fn claude_session(
    assistant: Seq<char>,
    name: Seq<char>,
    folded_sample: Option<Seq<char>>,
) -> bool {
    starts_with_seq(name, assistant + "-"@) || sample_shows_assistant(assistant, folded_sample)
}

/// The lower-cased form of an optional sample.
pub open spec fn folded_opt(sample: Option<String>) -> Option<Seq<char>> {
    match sample {
        Some(s) => Some(lower_of(s@)),
        None => None,
    }
}

/// The names among `names` that belong to the assistant, in order;
/// `samples[i]` is the pane sample of `names[i]`, if one could be taken.
pub open spec fn claude_sessions(
    assistant: Seq<char>,
    names: Seq<String>,
    samples: Seq<Option<String>>,
) -> Seq<String>
    decreases names.len(),
{
    if names.len() == 0 {
        Seq::empty()
    } else {
        let rest = claude_sessions(assistant, names.drop_last(), samples.take(names.len() - 1));
        if claude_session(assistant, names.last()@, folded_opt(samples[names.len() - 1])) {
            rest.push(names.last())
        } else {
            rest
        }
    }
}

/// Drives the assistant through the terminal multiplexer.
pub struct ClaudeCodeManager {
    pub tmux: TmuxManager,
    /// The assistant's name, as its command and its sessions spell it.
    pub assistant: String,
}

impl ClaudeCodeManager {
    /// A manager for the assistant called `assistant`, a lower-case name as
    /// its command and its sessions spell it.
    pub fn new(assistant: &str) -> (r: ClaudeCodeManager)
        ensures
            r.assistant@ == assistant@,
            r.tmux.assistant@ == assistant@,
    {
        ClaudeCodeManager { tmux: TmuxManager::new(assistant), assistant: assistant.to_owned() }
    }

    /// The operations that start the assistant in `session_name` (replacing a
    /// session of that name if `exists`), let it initialise, and send it
    /// `initial_message`.
    pub fn start_claude_session(
        &self,
        session_name: &str,
        working_dir: &Option<String>,
        initial_message: &str,
        exists: bool,
    ) -> (r: Vec<DriverOp>)
        ensures
            ops_view(r@) == start_ops(
                self.assistant@,
                session_name@,
                opt_view(*working_dir),
                initial_message@,
                exists,
            ),
    {
        let command = Some(
            join2(self.assistant.as_str(), "-code --dangerously-skip-permissions"),
        );
        let mut ops = self.tmux.create_session(session_name, working_dir, &command, exists);
        ops.push(DriverOp::Pause(STARTUP_MS));
        let mut send = self.send_message_to_claude(session_name, initial_message);
        let ghost created = ops@;
        let ghost sent = send@;
        ops.append(&mut send);
        assert(ops_view(ops@) =~= ops_view(created) + ops_view(sent));
        assert(ops_view(ops@) =~= start_ops(
            self.assistant@,
            session_name@,
            opt_view(*working_dir),
            initial_message@,
            exists,
        ));
        ops
    }

    /// The operations that type `message` into `session_name` and submit it.
    pub fn send_message_to_claude(&self, session_name: &str, message: &str) -> (r: Vec<DriverOp>)
        ensures
            ops_view(r@) == send_ops(session_name@, message@),
    {
        let mut ops: Vec<DriverOp> = Vec::new();
        ops.push(DriverOp::SendText { session: session_name.to_owned(), text: message.to_owned() });
        ops.push(DriverOp::Pause(SUBMIT_PAUSE_MS));
        ops.push(DriverOp::Submit { session: session_name.to_owned() });
        assert(ops_view(ops@) =~= send_ops(session_name@, message@));
        ops
    }

    /// The capture of the output of `session_name`, reaching `lines` lines back if given.
    pub fn get_claude_output(&self, session_name: &str, lines: Option<u64>) -> (r: DriverOp)
        ensures
            r@ == (DriverOpView::Capture {
                session: session_name@,
                lines: match lines {
                    Some(n) => Some(n as nat),
                    None => None,
                },
            }),
    {
        DriverOp::Capture { session: session_name.to_owned(), lines }
    }

    /// Whether captured output shows the assistant waiting for input.
    pub fn is_claude_ready(&self, output: &str) -> (r: bool)
        ensures
            r == ready_marked(self.assistant@, lower_of(output@)),
    {
        let folded = lowercase(output);
        is_ready_folded(self.assistant.as_str(), folded.as_str())
    }

    /// Begins a wait for the end of the current turn in `session_name`, with
    /// a budget of `timeout_secs` for the whole wait; the first action removes
    /// a stale sentinel.
    pub fn wait_for_claude_completion(&self, session_name: &str, timeout_secs: u64) -> (r: (
        CompletionWait,
        Action,
    ))
        ensures
            r.0@ == initial(self.assistant@, session_name@, timeout_secs as nat),
            r.1@ == ActionView::ClearSentinel,
    {
        CompletionWait::new(self.assistant.as_str(), session_name, timeout_secs)
    }

    /// Whether captured output reads as a finished turn: no progress marker,
    /// and a completion or error marker in any case.
    pub fn looks_like_completion(&self, output: &str) -> (r: bool)
        ensures
            r == looks_complete(output@, lower_of(output@)),
    {
        let folded = lowercase(output);
        looks_like_completion_folded(output, folded.as_str())
    }

    /// The operation that tears `session_name` down.
    pub fn kill_claude_session(&self, session_name: &str) -> (r: DriverOp)
        ensures
            r@ == (DriverOpView::Destroy { session: session_name@ }),
    {
        DriverOp::Destroy { session: session_name.to_owned() }
    }

    /// Whether a pane sample of a session (`sample`, if one could be taken)
    /// shows the assistant.
    pub fn is_claude_session(&self, sample: &Option<String>) -> (r: bool)
        ensures
            r == sample_shows_assistant(self.assistant@, folded_opt(*sample)),
    {
        match sample {
            Some(s) => {
                let folded = lowercase(s.as_str());
                shows_identity_folded(self.assistant.as_str(), folded.as_str())
            },
            None => false,
        }
    }

    /// The sessions among `sessions` that belong to the assistant, in order;
    /// `samples[i]` is the pane sample of `sessions[i]`, if one could be taken.
    pub fn list_claude_sessions(&self, sessions: &Vec<String>, samples: &Vec<Option<String>>) -> (r:
        Vec<String>)
        requires
            samples@.len() == sessions@.len(),
        ensures
            r@ == claude_sessions(self.assistant@, sessions@, samples@),
    {
        let mut kept: Vec<String> = Vec::new();
        let mut i: usize = 0;
        while i < sessions.len()
            invariant
                samples@.len() == sessions@.len(),
                i <= sessions@.len(),
                kept@ == claude_sessions(
                    self.assistant@,
                    sessions@.take(i as int),
                    samples@.take(i as int),
                ),
            decreases sessions@.len() - i,
        {
            proof {
                let names = sessions@.take(i + 1);
                assert(names.drop_last() =~= sessions@.take(i as int));
                assert(samples@.take(i + 1).take(i as int) =~= samples@.take(i as int));
                assert(names.last() == sessions@[i as int]);
            }
            let prefix = join2(self.assistant.as_str(), "-");
            if starts_with_str(sessions[i].as_str(), prefix.as_str()) || self.is_claude_session(
                &samples[i],
            ) {
                kept.push(sessions[i].clone());
            }
            i = i + 1;
        }
        assert(sessions@.take(i as int) =~= sessions@);
        assert(samples@.take(i as int) =~= samples@);
        kept
    }

    /// The operation that hands the terminal over to `session_name`.
    pub fn attach_to_session(&self, session_name: &str) -> (r: DriverOp)
        ensures
            r@ == (DriverOpView::Attach { session: session_name@ }),
    {
        DriverOp::Attach { session: session_name.to_owned() }
    }
}

} // verus!
