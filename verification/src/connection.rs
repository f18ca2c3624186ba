//! The connection handle: one remote shell session, driven strictly one
//! command at a time.
//!
//! A handle is created `Idle` after successful setup, or `Failed` with the
//! stored setup error.  `Failed` is permanent and sticky: every later
//! operation short-circuits with the stored message and never touches the
//! session.  A command moves an idle handle to `Executing`; the surrounding
//! program performs the session I/O the command asks for — writing the
//! command line, pumping shell output bytes into the [`ExecJob`], moving file
//! blocks — and reports back, after which [`Connection::command_finished`]
//! returns the handle to `Idle`.

use vstd::prelude::*;
use vstd::pervasive::unreached;
use crate::prompt::{regex_match, regex_valid, Prompt};
use crate::scan::{decode_step, extract_output, OutputScanner};
use crate::session::{phase_of, phase_step_allowed, ConnectionState};

verus! {

/// The message used when an operation is refused and no error is stored.
pub open spec fn spec_unknown_error() -> Seq<char> {
    "Unknown error"@
}

/// The message reported for a prompt override or pattern that does not
/// compile.
pub open spec fn spec_msg_incorrect_prompt(p: Seq<char>) -> Seq<char> {
    "Incorrect prompt regexp '"@ + p + "'"@
}

/// A running command: the output scanner, the effective prompt for this
/// command, how many leading characters to skip (the echoed command and its
/// terminator) and whether the prompt stays in the output.
pub struct ExecJob {
    pub scanner: OutputScanner,
    pub prompt: Prompt,
    pub skip: usize,
    pub with_prompt: bool,
}

impl ExecJob {
    /// Consumes one byte of shell output; returns the command's output once
    /// the effective prompt matches, per the scanner's contract.
    pub fn feed(&mut self, b: u8) -> (r: Option<String>)
        ensures
            final(self).prompt == old(self).prompt,
            final(self).skip == old(self).skip,
            final(self).with_prompt == old(self).with_prompt,
            final(self).scanner.pending@ == decode_step(old(self).scanner.pending@, b).0,
            decode_step(old(self).scanner.pending@, b).1 matches Some(ch) ==> {
                let t2 = old(self).scanner.text@.push(ch);
                &&& final(self).scanner.text@ == t2
                &&& (regex_match(old(self).prompt@, t2) matches Some(m) ==> r matches Some(out)
                    && out@ == extract_output(
                    t2,
                    old(self).skip as int,
                    m.0 as int,
                    old(self).with_prompt,
                ))
                &&& (regex_match(old(self).prompt@, t2) is None ==> r is None)
            },
            decode_step(old(self).scanner.pending@, b).1 is None ==> final(self).scanner.text@
                == old(self).scanner.text@ && r is None,
    {
        self.scanner.feed(&self.prompt, b, self.skip, self.with_prompt)
    }
}

/// How an `execute` command starts: refused outright (failed or closed
/// handle), abandoned because the prompt override does not compile, or
/// started as a scan job.
pub enum ExecStart {
    Refused(String),
    BadPrompt(String),
    Started(ExecJob),
}

/// How a `send_file` command starts: refused outright, or started — the
/// carried string is the console body `source -> dest`.
pub enum TransferStart {
    Refused(String),
    Started(String),
}

/// The fields a job must have when `execute` starts it: a fresh scanner, the
/// effective prompt pattern, the echo skip of the command length plus its
/// terminator, and the caller's prompt-inclusion choice (absent means
/// excluded).
pub open spec fn exec_job_ok(
    job: ExecJob,
    pattern: Seq<char>,
    cmd: Seq<char>,
    with_prompt: Option<bool>,
) -> bool {
    &&& job.prompt@ == pattern
    &&& job.scanner.text@ == Seq::<char>::empty()
    &&& job.scanner.pending@ == Seq::<u8>::empty()
    &&& job.skip == cmd.len() + 2
    &&& job.with_prompt == (with_prompt == Some(true))
}

/// One remote shell session as the caller sees it.
pub struct Connection {
    /// The lifecycle state; `Failed` carries the stored error.
    pub state: ConnectionState,
    /// The session's current default prompt, present while the session lives.
    pub prompt: Option<Prompt>,
}

/// The default prompt pattern of a connection, when the session lives.
pub open spec fn spec_prompt_view(c: Connection) -> Option<Seq<char>> {
    match c.prompt {
        Some(p) => Some(p@),
        None => None,
    }
}

/// What one `set_prompt` call does: on an idle connection it succeeds exactly
/// for a valid pattern, replacing the default prompt and leaving it unchanged
/// otherwise; on any other connection it fails and changes nothing.  The
/// lifecycle state never changes.
pub open spec fn set_prompt_post(
    pre: Connection,
    post: Connection,
    pattern: Seq<char>,
    r: bool,
) -> bool {
    &&& post.state == pre.state
    &&& (pre.state is Idle ==> {
        &&& r == regex_valid(pattern)
        &&& (r ==> spec_prompt_view(post) == Some(pattern))
        &&& (!r ==> spec_prompt_view(post) == spec_prompt_view(pre))
    })
    &&& (!(pre.state is Idle) ==> r == false && spec_prompt_view(post) == spec_prompt_view(pre))
}

/// Closing affects only an idle connection, which becomes `Closed`; terminal
/// and in-flight states stay as they are.
pub open spec fn spec_close(c: Connection) -> Connection {
    if c.state is Idle {
        Connection { state: ConnectionState::Closed, ..c }
    } else {
        c
    }
}

impl Connection {
    /// A live session holds a default prompt.
    pub open spec fn wf(self) -> bool {
        (self.state is Idle || self.state is Executing) ==> self.prompt is Some
    }

    /// A handle over a session whose setup succeeded, idle with the given
    /// default prompt.
    pub fn ready(prompt: Prompt) -> (c: Connection)
        ensures
            c.wf(),
            c.state is Idle,
            spec_prompt_view(c) == Some(prompt@),
    {
        Connection { state: ConnectionState::Idle, prompt: Some(prompt) }
    }

    /// A handle whose setup failed: permanently failed with the stored error.
    pub fn failed(error: String) -> (c: Connection)
        ensures
            c.wf(),
            c.state matches ConnectionState::Failed(e) && e@ == error@,
            spec_prompt_view(c) is None,
    {
        Connection { state: ConnectionState::Failed(error), prompt: None }
    }

    /// The stored error: present exactly when the connection has failed.
    pub fn get_error(&self) -> (r: Option<String>)
        ensures
            match self.state {
                ConnectionState::Failed(e) => r matches Some(m) && m@ == e@,
                _ => r is None,
            },
    {
        match &self.state {
            ConnectionState::Failed(e) => Some(e.clone()),
            _ => None,
        }
    }

    /// Starts an `execute` command.  A failed connection refuses with its
    /// stored error and a closed (or otherwise unavailable) one with
    /// `Unknown error`; a prompt override that does not compile abandons the
    /// command, reporting the pattern, and leaves the connection idle and
    /// usable; otherwise the command starts with the override or the default
    /// prompt as its effective prompt.
    pub fn exec(&mut self, cmd: String, prompt_override: Option<String>, with_prompt: Option<
        bool,
    >) -> (r: ExecStart)
        requires
            old(self).wf(),
            cmd@.len() + 2 <= usize::MAX,
        ensures
            final(self).wf(),
            final(self).prompt == old(self).prompt,
            phase_step_allowed(phase_of(old(self).state), phase_of(final(self).state)),
            match old(self).state {
                ConnectionState::Idle => match prompt_override {
                    Some(p) => {
                        &&& (regex_valid(p@) ==> final(self).state is Executing && (
                        r matches ExecStart::Started(job) && exec_job_ok(
                            job,
                            p@,
                            cmd@,
                            with_prompt,
                        )))
                        &&& (!regex_valid(p@) ==> final(self).state is Idle && (
                        r matches ExecStart::BadPrompt(m) && m@ == spec_msg_incorrect_prompt(p@)))
                    },
                    None => final(self).state is Executing && (r matches ExecStart::Started(job)
                        && exec_job_ok(
                        job,
                        spec_prompt_view(*old(self))->Some_0,
                        cmd@,
                        with_prompt,
                    )),
                },
                ConnectionState::Failed(e) => final(self).state == old(self).state && (
                r matches ExecStart::Refused(m) && m@ == e@),
                _ => final(self).state == old(self).state && (r matches ExecStart::Refused(m)
                    && m@ == spec_unknown_error()),
            },
    {
        match &self.state {
            ConnectionState::Idle => {},
            ConnectionState::Failed(e) => {
                return ExecStart::Refused(e.clone());
            },
            _ => {
                return ExecStart::Refused(String::from_str("Unknown error"));
            },
        }
        let wp = match with_prompt {
            Some(true) => true,
            _ => false,
        };
        let skip = cmd.as_str().unicode_len() + 2;
        let job_prompt = match prompt_override {
            Some(p) => {
                match Prompt::new(p.as_str()) {
                    Some(compiled) => compiled,
                    None => {
                        let m = String::from_str("Incorrect prompt regexp '").concat(
                            p.as_str(),
                        ).concat("'");
                        return ExecStart::BadPrompt(m);
                    },
                }
            },
            None => {
                match &self.prompt {
                    Some(dp) => dp.duplicate(),
                    None => unreached(),
                }
            },
        };
        self.state = ConnectionState::Executing;
        ExecStart::Started(
            ExecJob { scanner: OutputScanner::new(), prompt: job_prompt, skip, with_prompt: wp },
        )
    }

    /// Starts a `send_file` command.  Refusals are as for `exec`; otherwise
    /// the command starts and the returned string is the console body
    /// `source -> dest`.  The file work itself — opening both ends, moving
    /// blocks — is outside work, accounted by [`crate::transfer::Transfer`].
    pub fn send_file(&mut self, source: String, dest: String) -> (r: TransferStart)
        requires
            old(self).wf(),
        ensures
            final(self).wf(),
            final(self).prompt == old(self).prompt,
            phase_step_allowed(phase_of(old(self).state), phase_of(final(self).state)),
            match old(self).state {
                ConnectionState::Idle => final(self).state is Executing && (
                r matches TransferStart::Started(m) && m@ == source@ + " -> "@ + dest@),
                ConnectionState::Failed(e) => final(self).state == old(self).state && (
                r matches TransferStart::Refused(m) && m@ == e@),
                _ => final(self).state == old(self).state && (r matches TransferStart::Refused(m)
                    && m@ == spec_unknown_error()),
            },
    {
        match &self.state {
            ConnectionState::Idle => {},
            ConnectionState::Failed(e) => {
                return TransferStart::Refused(e.clone());
            },
            _ => {
                return TransferStart::Refused(String::from_str("Unknown error"));
            },
        }
        self.state = ConnectionState::Executing;
        TransferStart::Started(source.concat(" -> ").concat(dest.as_str()))
    }

    /// Replaces the session's default prompt, per [`set_prompt_post`]: `true`
    /// exactly when the connection is idle and the pattern compiles.
    pub fn set_prompt(&mut self, pattern: String) -> (r: bool)
        requires
            old(self).wf(),
        ensures
            final(self).wf(),
            set_prompt_post(*old(self), *final(self), pattern@, r),
            phase_step_allowed(phase_of(old(self).state), phase_of(final(self).state)),
    {
        let idle = match &self.state {
            ConnectionState::Idle => true,
            _ => false,
        };
        if idle {
            match Prompt::new(pattern.as_str()) {
                Some(p) => {
                    self.prompt = Some(p);
                    true
                },
                None => false,
            }
        } else {
            false
        }
    }

    /// Marks the in-flight command as answered: an executing connection
    /// returns to idle, every other state is left as it is.
    pub fn command_finished(&mut self)
        requires
            old(self).wf(),
        ensures
            final(self).wf(),
            final(self).prompt == old(self).prompt,
            old(self).state is Executing ==> final(self).state is Idle,
            !(old(self).state is Executing) ==> final(self).state == old(self).state,
            phase_step_allowed(phase_of(old(self).state), phase_of(final(self).state)),
    {
        let executing = match &self.state {
            ConnectionState::Executing => true,
            _ => false,
        };
        if executing {
            self.state = ConnectionState::Idle;
        }
    }

    /// Closes the connection, per [`spec_close`].
    pub fn close(&mut self)
        requires
            old(self).wf(),
        ensures
            final(self).wf(),
            *final(self) == spec_close(*old(self)),
            phase_step_allowed(phase_of(old(self).state), phase_of(final(self).state)),
    {
        let idle = match &self.state {
            ConnectionState::Idle => true,
            _ => false,
        };
        if idle {
            self.state = ConnectionState::Closed;
        }
    }
}

/// Idempotence of `set_prompt`: after two successive calls with the same
/// pattern, the second call returns what the first did, and the connection's
/// lifecycle state and effective prompt — everything later `execute`
/// behaviour depends on — are exactly as after the first call alone.
pub proof fn lemma_set_prompt_idempotent(
    c0: Connection,
    c1: Connection,
    c2: Connection,
    pattern: Seq<char>,
    r1: bool,
    r2: bool,
)
    requires
        set_prompt_post(c0, c1, pattern, r1),
        set_prompt_post(c1, c2, pattern, r2),
    ensures
        r2 == r1,
        c2.state == c1.state,
        spec_prompt_view(c2) == spec_prompt_view(c1),
{
}

} // verus!
