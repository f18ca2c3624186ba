//! Console state printers.
//!
//! The console shows one state at a time — a one-line state (a titled line,
//! as for a command execution) or a progress state (a titled line above a
//! progress bar).  Each operation on the printer replaces or updates the
//! current state and yields the sequence of rendering operations the terminal
//! must perform, as data ([`RenderOp`]); the surrounding program writes them
//! out, holding its console lock for the whole sequence so that concurrent
//! sessions never interleave.  Operations that only make sense for a progress
//! state fail on a line state with a typed [`PrinterError`] instead of
//! rendering anything.  A silent variant drops all formatting and yields
//! plain error and message lines only.

use vstd::prelude::*;
use vstd::string::*;
use crate::text::{chars_to_string, repeat_char, spaces, spec_spaces};

verus! {

/// Width of the console line layout, in characters of text.
pub const LINE_SIZE: usize = 100;

/// One rendering operation for the terminal.
pub enum RenderOp {
    /// Write this text.
    Text(String),
    /// Switch to bold style.
    Bold,
    /// Reset all styling.
    ResetStyle,
    /// Switch to the error (red) colour.
    ErrorColor,
    /// Move the cursor left this many columns.
    CursorLeft(usize),
    /// Move the cursor right this many columns.
    CursorRight(usize),
}

/// `op` writes exactly the text `t`.
pub open spec fn is_text(op: RenderOp, t: Seq<char>) -> bool {
    op matches RenderOp::Text(s) && s@ == t
}

/// The padding that fills a state line out to `LINE_SIZE` characters after
/// the title, the body and the 7 characters of decoration; empty when they
/// already overflow the line.
pub open spec fn spec_filler(title: Seq<char>, body: Seq<char>) -> Seq<char> {
    spec_spaces(LINE_SIZE as int - 7 - title.len() as int - body.len() as int)
}

/// The text of a state's title line.
pub open spec fn spec_state_line(title: Seq<char>, body: Seq<char>, filler: Seq<char>) -> Seq<
    char,
> {
    "\u{2299} | "@ + title + " : "@ + body + filler + "\n"@
}

/// The rendering of an error under the current state: the error text in the
/// error colour, then a blank line.
pub open spec fn spec_error_ops(ops: Seq<RenderOp>, text: Seq<char>) -> bool {
    &&& ops.len() == 5
    &&& is_text(ops[0], "  | "@)
    &&& ops[1] is ErrorColor
    &&& is_text(ops[2], "ERROR: "@ + text)
    &&& ops[3] is ResetStyle
    &&& is_text(ops[4], "\n \n"@)
}

/// The rendering of a read request: the prompt after the input marker.
pub open spec fn spec_read_request_ops(ops: Seq<RenderOp>, prompt: Seq<char>) -> bool {
    &&& ops.len() == 1
    &&& is_text(ops[0], "  | <- "@ + prompt)
}

/// How many lines a message of `n` characters wraps into, at one more than
/// `LINE_SIZE` characters per line.
pub open spec fn spec_chunk_count(n: int) -> int {
    if n <= 0 {
        0
    } else {
        (n - 1) / (LINE_SIZE as int + 1) + 1
    }
}

/// Line `k` (0-based) of a wrapped message.
pub open spec fn spec_chunk(t: Seq<char>, k: int) -> Seq<char> {
    let w = LINE_SIZE as int + 1;
    let lo = k * w;
    let hi = if t.len() < lo + w {
        t.len() as int
    } else {
        lo + w
    };
    t.subrange(lo, hi)
}

/// The rendering of a message printed under a line state: each wrapped line
/// marked as script output.
pub open spec fn spec_print_ops(ops: Seq<RenderOp>, t: Seq<char>) -> bool {
    &&& ops.len() == spec_chunk_count(t.len() as int)
    &&& forall|k: int|
        0 <= k < ops.len() ==> is_text(#[trigger] ops[k], "  | -> "@ + spec_chunk(t, k) + "\n"@)
}

/// The rendering of a fresh one-line state: its title line, in bold.
pub open spec fn spec_one_line_render_ops(ops: Seq<RenderOp>, s: OneLineState) -> bool {
    &&& ops.len() == 2
    &&& ops[0] is Bold
    &&& is_text(ops[1], spec_state_line(s.title@, s.body@, s.filler@))
}

/// The rendering of a fresh progress state: its title line and an empty
/// 50-column bar followed by the bar title, in bold.
pub open spec fn spec_progress_render_ops(ops: Seq<RenderOp>, p: ProgressState) -> bool {
    &&& ops.len() == 4
    &&& ops[0] is Bold
    &&& is_text(ops[1], spec_state_line(p.title@, p.body@, p.filler@))
    &&& ops[2] is Bold
    &&& is_text(ops[3], "  | ["@ + spec_spaces(50) + "] "@ + p.bar_title@)
}

/// The rendering of a progress-bar update from `pre_ticks` to `ticks` filled
/// columns (of 50): empty when nothing changed, else a redraw in place — back
/// across the bar title and the bar, the bar cleared and refilled, and the
/// cursor restored past the bar title.
pub open spec fn spec_set_progress_ops(
    ops: Seq<RenderOp>,
    bar_len: int,
    pre_ticks: u8,
    ticks: u8,
) -> bool {
    if pre_ticks == ticks {
        ops.len() == 0
    } else {
        &&& ops.len() == 7
        &&& (ops[0] matches RenderOp::CursorLeft(n) && n == bar_len)
        &&& (ops[1] matches RenderOp::CursorLeft(n) && n == 52)
        &&& is_text(ops[2], spec_spaces(50))
        &&& (ops[3] matches RenderOp::CursorLeft(n) && n == 50)
        &&& is_text(ops[4], Seq::new(ticks as nat, |i: int| '#'))
        &&& (ops[5] matches RenderOp::CursorRight(n) && n == 52 - ticks)
        &&& (ops[6] matches RenderOp::CursorRight(n) && n == bar_len)
    }
}

/// The rendering of a bar-title replacement: back across the old title, blank
/// it, back again, write the new one.
pub open spec fn spec_update_bar_ops(
    ops: Seq<RenderOp>,
    old_len: int,
    new_title: Seq<char>,
) -> bool {
    &&& ops.len() == 4
    &&& (ops[0] matches RenderOp::CursorLeft(n) && n == old_len)
    &&& is_text(ops[1], spec_spaces(old_len))
    &&& (ops[2] matches RenderOp::CursorLeft(n) && n == old_len)
    &&& is_text(ops[3], new_title)
}

/// A state with one titled text line.
pub struct OneLineState {
    /// Text of the title.
    pub title: String,
    /// Text of the body.
    pub body: String,
    /// Padding out to the line width.
    pub filler: String,
}

impl OneLineState {
    /// A new state with the given title and body.
    pub fn new(title: &str, body: &str) -> (s: OneLineState)
        ensures
            s.title@ == title@,
            s.body@ == body@,
            s.filler@ == spec_filler(title@, body@),
    {
        let filler = filler_for(title, body);
        OneLineState { title: String::from_str(title), body: String::from_str(body), filler }
    }

    /// The operations that draw this state.
    pub fn render(&self) -> (ops: Vec<RenderOp>)
        ensures
            spec_one_line_render_ops(ops@, *self),
    {
        let mut ops: Vec<RenderOp> = Vec::new();
        ops.push(RenderOp::Bold);
        ops.push(RenderOp::Text(state_line(&self.title, &self.body, &self.filler)));
        ops
    }
}

/// A state with a titled line above a progress bar.
pub struct ProgressState {
    /// Text of the title.
    pub title: String,
    /// Text of the body.
    pub body: String,
    /// Padding out to the line width.
    pub filler: String,
    /// Text shown after the bar.
    pub bar_title: String,
    /// Filled bar columns, out of 50.
    pub progress_ticks: u8,
}

impl ProgressState {
    /// A new state with the given texts and an empty bar.
    pub fn new(title: &str, body: &str, bar_title: &str) -> (p: ProgressState)
        ensures
            p.title@ == title@,
            p.body@ == body@,
            p.filler@ == spec_filler(title@, body@),
            p.bar_title@ == bar_title@,
            p.progress_ticks == 0,
    {
        let filler = filler_for(title, body);
        ProgressState {
            title: String::from_str(title),
            body: String::from_str(body),
            filler,
            bar_title: String::from_str(bar_title),
            progress_ticks: 0,
        }
    }

    /// The operations that draw this state.
    pub fn render(&self) -> (ops: Vec<RenderOp>)
        ensures
            spec_progress_render_ops(ops@, *self),
    {
        let mut bar = String::from_str("  | [");
        let pad = spaces(50);
        bar.append(pad.as_str());
        bar.append("] ");
        bar.append(self.bar_title.as_str());
        let mut ops: Vec<RenderOp> = Vec::new();
        ops.push(RenderOp::Bold);
        ops.push(RenderOp::Text(state_line(&self.title, &self.body, &self.filler)));
        ops.push(RenderOp::Bold);
        ops.push(RenderOp::Text(bar));
        ops
    }

    /// Sets the bar to `percent` of 100, redrawing it in place when the
    /// filled column count changes.
    pub fn set_progress(&mut self, percent: u8) -> (ops: Vec<RenderOp>)
        requires
            percent <= 100,
        ensures
            final(self).title == old(self).title,
            final(self).body == old(self).body,
            final(self).filler == old(self).filler,
            final(self).bar_title == old(self).bar_title,
            final(self).progress_ticks == percent / 2,
            spec_set_progress_ops(
                ops@,
                old(self).bar_title@.len() as int,
                old(self).progress_ticks,
                percent / 2,
            ),
    {
        let ticks = percent / 2;
        let mut ops: Vec<RenderOp> = Vec::new();
        if self.progress_ticks != ticks {
            let bar_len = self.bar_title.as_str().unicode_len();
            ops.push(RenderOp::CursorLeft(bar_len));
            ops.push(RenderOp::CursorLeft(52));
            ops.push(RenderOp::Text(spaces(50)));
            ops.push(RenderOp::CursorLeft(50));
            ops.push(RenderOp::Text(repeat_char('#', ticks as usize)));
            ops.push(RenderOp::CursorRight(52 - ticks as usize));
            ops.push(RenderOp::CursorRight(bar_len));
        }
        self.progress_ticks = ticks;
        ops
    }

    /// Replaces the text behind the bar, blanking the old text in place.
    pub fn update_bar_title(&mut self, bar_title: &str) -> (ops: Vec<RenderOp>)
        ensures
            final(self).title == old(self).title,
            final(self).body == old(self).body,
            final(self).filler == old(self).filler,
            final(self).progress_ticks == old(self).progress_ticks,
            final(self).bar_title@ == bar_title@,
            spec_update_bar_ops(ops@, old(self).bar_title@.len() as int, bar_title@),
    {
        let old_len = self.bar_title.as_str().unicode_len();
        let mut ops: Vec<RenderOp> = Vec::new();
        ops.push(RenderOp::CursorLeft(old_len));
        ops.push(RenderOp::Text(spaces(old_len)));
        ops.push(RenderOp::CursorLeft(old_len));
        ops.push(RenderOp::Text(String::from_str(bar_title)));
        self.bar_title = String::from_str(bar_title);
        ops
    }

    /// Ends the state: the cursor moves to a fresh line.
    pub fn complete(&self) -> (ops: Vec<RenderOp>)
        ensures
            ops@.len() == 1,
            is_text(ops@[0], "\n"@),
    {
        let mut ops: Vec<RenderOp> = Vec::new();
        ops.push(RenderOp::Text(String::from_str("\n")));
        ops
    }
}

/// The current console state: exactly one of the two kinds at a time,
/// consumed by exhaustive matching.
pub enum ScreenState {
    Line(OneLineState),
    Progress(ProgressState),
}

/// An operation that is invalid for the current state kind.
#[derive(Debug)]
pub enum PrinterError {
    InvalidStateTransition,
}

/// The default printer: a feed of styled states on the console.
pub struct DefaultStatePrinter {
    /// The state currently on screen.
    pub current: ScreenState,
}

impl DefaultStatePrinter {
    /// A printer showing an empty placeholder state.
    pub fn new() -> (p: DefaultStatePrinter)
        ensures
            p.current matches ScreenState::Line(s) && s.title@ == "-"@ && s.body@ == "-"@
                && s.filler@ == spec_filler("-"@, "-"@),
    {
        DefaultStatePrinter { current: ScreenState::Line(OneLineState::new("-", "-")) }
    }

    /// Replaces the current state with a one-line state and draws it.
    pub fn add_one_line(&mut self, title: &str, body: &str) -> (ops: Vec<RenderOp>)
        ensures
            final(self).current matches ScreenState::Line(s) && s.title@ == title@ && s.body@
                == body@ && s.filler@ == spec_filler(title@, body@) && spec_one_line_render_ops(
                ops@,
                s,
            ),
    {
        let s = OneLineState::new(title, body);
        let ops = s.render();
        self.current = ScreenState::Line(s);
        ops
    }

    /// Replaces the current state with a progress state and draws it.
    pub fn add_progress(&mut self, title: &str, body: &str, bar_title: &str) -> (ops: Vec<
        RenderOp,
    >)
        ensures
            final(self).current matches ScreenState::Progress(p) && p.title@ == title@ && p.body@
                == body@ && p.filler@ == spec_filler(title@, body@) && p.bar_title@ == bar_title@
                && p.progress_ticks == 0 && spec_progress_render_ops(ops@, p),
    {
        let p = ProgressState::new(title, body, bar_title);
        let ops = p.render();
        self.current = ScreenState::Progress(p);
        ops
    }

    /// Updates the progress bar of the current state; invalid for a line
    /// state, which is left unchanged.
    pub fn set_progress(&mut self, percent: u8) -> (r: Result<Vec<RenderOp>, PrinterError>)
        requires
            percent <= 100,
        ensures
            old(self).current is Line ==> final(self).current == old(self).current && (
            r matches Err(e) && e is InvalidStateTransition),
            old(self).current matches ScreenState::Progress(p) ==> (
            final(self).current matches ScreenState::Progress(q) && q.title == p.title && q.body
                == p.body && q.filler == p.filler && q.bar_title == p.bar_title
                && q.progress_ticks == percent / 2 && (r matches Ok(ops)
                && spec_set_progress_ops(
                ops@,
                p.bar_title@.len() as int,
                p.progress_ticks,
                percent / 2,
            ))),
    {
        let (next, result) = match &self.current {
            ScreenState::Line(s) => {
                return Err(PrinterError::InvalidStateTransition);
            },
            ScreenState::Progress(p) => {
                let mut q = ProgressState {
                    title: p.title.clone(),
                    body: p.body.clone(),
                    filler: p.filler.clone(),
                    bar_title: p.bar_title.clone(),
                    progress_ticks: p.progress_ticks,
                };
                let ops = q.set_progress(percent);
                (ScreenState::Progress(q), ops)
            },
        };
        self.current = next;
        Ok(result)
    }

    /// Replaces the bar title of the current state; invalid for a line state,
    /// which is left unchanged.
    pub fn update_bar_title(&mut self, bar_title: &str) -> (r: Result<Vec<RenderOp>, PrinterError>)
        ensures
            old(self).current is Line ==> final(self).current == old(self).current && (
            r matches Err(e) && e is InvalidStateTransition),
            old(self).current matches ScreenState::Progress(p) ==> (
            final(self).current matches ScreenState::Progress(q) && q.title == p.title && q.body
                == p.body && q.filler == p.filler && q.progress_ticks == p.progress_ticks
                && q.bar_title@ == bar_title@ && (r matches Ok(ops)
                && spec_update_bar_ops(ops@, p.bar_title@.len() as int, bar_title@))),
    {
        let (next, result) = match &self.current {
            ScreenState::Line(s) => {
                return Err(PrinterError::InvalidStateTransition);
            },
            ScreenState::Progress(p) => {
                let mut q = ProgressState {
                    title: p.title.clone(),
                    body: p.body.clone(),
                    filler: p.filler.clone(),
                    bar_title: p.bar_title.clone(),
                    progress_ticks: p.progress_ticks,
                };
                let ops = q.update_bar_title(bar_title);
                (ScreenState::Progress(q), ops)
            },
        };
        self.current = next;
        Ok(result)
    }

    /// Completes the current state; invalid for a line state.
    pub fn complete_current(&self) -> (r: Result<Vec<RenderOp>, PrinterError>)
        ensures
            self.current is Line ==> (r matches Err(e) && e is InvalidStateTransition),
            self.current is Progress ==> (r matches Ok(ops) && ops@.len() == 1 && is_text(
                ops@[0],
                "\n"@,
            )),
    {
        match &self.current {
            ScreenState::Line(_) => Err(PrinterError::InvalidStateTransition),
            ScreenState::Progress(p) => Ok(p.complete()),
        }
    }

    /// Fails the current state with an error line; valid for both kinds.
    pub fn error_current(&self, text: &str) -> (ops: Vec<RenderOp>)
        ensures
            spec_error_ops(ops@, text@),
    {
        error_ops(text)
    }

    /// Prints a message under the current state: wrapped output lines under a
    /// line state, and rendered as an error under a progress state (whose bar
    /// line a plain message would corrupt).
    pub fn print_to_current(&self, text: &str) -> (ops: Vec<RenderOp>)
        ensures
            self.current is Line ==> spec_print_ops(ops@, text@),
            self.current is Progress ==> spec_error_ops(ops@, text@),
    {
        match &self.current {
            ScreenState::Line(_) => print_ops(text),
            ScreenState::Progress(_) => error_ops(text),
        }
    }

    /// Shows a read request for user input.
    pub fn print_read_request(&self, prompt: &str) -> (ops: Vec<RenderOp>)
        ensures
            spec_read_request_ops(ops@, prompt@),
    {
        let mut line = String::from_str("  | <- ");
        line.append(prompt);
        let mut ops: Vec<RenderOp> = Vec::new();
        ops.push(RenderOp::Text(line));
        ops
    }
}

/// The silent printer: drops all formatting and bar handling, and emits only
/// plain error and message lines.
pub struct SilentStatePrinter {}

impl SilentStatePrinter {
    /// A new silent printer.
    pub fn new() -> (p: SilentStatePrinter) {
        SilentStatePrinter {  }
    }

    /// Dropped: nothing is rendered.
    pub fn add_one_line(&mut self, title: &str, body: &str) -> (ops: Vec<RenderOp>)
        ensures
            ops@.len() == 0,
    {
        Vec::new()
    }

    /// Dropped: nothing is rendered.
    pub fn add_progress(&mut self, title: &str, body: &str, bar_title: &str) -> (ops: Vec<
        RenderOp,
    >)
        ensures
            ops@.len() == 0,
    {
        Vec::new()
    }

    /// Dropped: nothing is rendered.
    pub fn set_progress(&mut self, percent: u8) -> (ops: Vec<RenderOp>)
        ensures
            ops@.len() == 0,
    {
        Vec::new()
    }

    /// Dropped: nothing is rendered.
    pub fn update_bar_title(&mut self, bar_title: &str) -> (ops: Vec<RenderOp>)
        ensures
            ops@.len() == 0,
    {
        Vec::new()
    }

    /// Dropped: nothing is rendered.
    pub fn complete_current(&self) -> (ops: Vec<RenderOp>)
        ensures
            ops@.len() == 0,
    {
        Vec::new()
    }

    /// A plain error line.
    pub fn error_current(&self, text: &str) -> (ops: Vec<RenderOp>)
        ensures
            ops@.len() == 1,
            is_text(ops@[0], "ERROR: "@ + text@ + "\n"@),
    {
        let mut line = String::from_str("ERROR: ");
        line.append(text);
        line.append("\n");
        let mut ops: Vec<RenderOp> = Vec::new();
        ops.push(RenderOp::Text(line));
        ops
    }

    /// The message as a plain line.
    pub fn print_to_current(&self, text: &str) -> (ops: Vec<RenderOp>)
        ensures
            ops@.len() == 1,
            is_text(ops@[0], text@ + "\n"@),
    {
        let mut line = String::from_str(text);
        line.append("\n");
        let mut ops: Vec<RenderOp> = Vec::new();
        ops.push(RenderOp::Text(line));
        ops
    }

    /// The read prompt as a plain line.
    pub fn print_read_request(&self, prompt: &str) -> (ops: Vec<RenderOp>)
        ensures
            ops@.len() == 1,
            is_text(ops@[0], prompt@ + "\n"@),
    {
        let mut line = String::from_str(prompt);
        line.append("\n");
        let mut ops: Vec<RenderOp> = Vec::new();
        ops.push(RenderOp::Text(line));
        ops
    }
}

/// The padding of a state line, per [`spec_filler`].
fn filler_for(title: &str, body: &str) -> (r: String)
    ensures
        r@ == spec_filler(title@, body@),
{
    let tl = title.unicode_len();
    let bl = body.unicode_len();
    let n: usize = if tl > LINE_SIZE {
        0
    } else {
        let rem = LINE_SIZE - tl;
        if rem < 7 {
            0
        } else {
            let rem2 = rem - 7;
            if bl > rem2 {
                0
            } else {
                rem2 - bl
            }
        }
    };
    spaces(n)
}

/// The text of a state's title line, per [`spec_state_line`].
fn state_line(title: &String, body: &String, filler: &String) -> (r: String)
    ensures
        r@ == spec_state_line(title@, body@, filler@),
{
    let mut line = String::from_str("\u{2299} | ");
    line.append(title.as_str());
    line.append(" : ");
    line.append(body.as_str());
    line.append(filler.as_str());
    line.append("\n");
    line
}

/// The error rendering shared by both state kinds, per [`spec_error_ops`].
pub fn error_ops(text: &str) -> (ops: Vec<RenderOp>)
    ensures
        spec_error_ops(ops@, text@),
{
    let mut msg = String::from_str("ERROR: ");
    msg.append(text);
    let mut ops: Vec<RenderOp> = Vec::new();
    ops.push(RenderOp::Text(String::from_str("  | ")));
    ops.push(RenderOp::ErrorColor);
    ops.push(RenderOp::Text(msg));
    ops.push(RenderOp::ResetStyle);
    ops.push(RenderOp::Text(String::from_str("\n \n")));
    ops
}

/// The wrapped rendering of a script message, per [`spec_print_ops`]: one
/// output-marked line for every run of `LINE_SIZE + 1` characters.
pub fn print_ops(text: &str) -> (ops: Vec<RenderOp>)
    ensures
        spec_print_ops(ops@, text@),
{
    let n = text.unicode_len();
    let mut chars: Vec<char> = Vec::new();
    let mut i: usize = 0;
    while i < n
        invariant
            i <= n,
            n == text@.len(),
            chars@ =~= text@.take(i as int),
        decreases n - i,
    {
        chars.push(text.get_char(i));
        i = i + 1;
    }
    proof {
        assert(chars@ =~= text@);
    }
    let w: usize = LINE_SIZE + 1;
    let mut ops: Vec<RenderOp> = Vec::new();
    let mut lo: usize = 0;
    while lo < n
        invariant
            w == LINE_SIZE + 1,
            lo <= n,
            n == chars@.len(),
            chars@ == text@,
            ops@.len() <= spec_chunk_count(n as int),
            lo == ops@.len() * (LINE_SIZE as int + 1) || (lo == n && ops@.len()
                == spec_chunk_count(n as int)),
            forall|k: int|
                0 <= k < ops@.len() ==> is_text(
                    #[trigger] ops@[k],
                    "  | -> "@ + spec_chunk(text@, k) + "\n"@,
                ),
        decreases n - lo,
    {
        let rem = n - lo;
        let hi = if rem < w {
            n
        } else {
            lo + w
        };
        let mut chunk: Vec<char> = Vec::new();
        let mut j: usize = lo;
        while j < hi
            invariant
                lo <= j <= hi <= n,
                n == chars@.len(),
                chunk@ =~= chars@.subrange(lo as int, j as int),
            decreases hi - j,
        {
            chunk.push(chars[j]);
            j = j + 1;
        }
        let ghost k = ops@.len() as int;
        let ghost lo0 = lo as int;
        let ghost wi = LINE_SIZE as int + 1;
        proof {
            assert(lo0 == k * wi);
            assert(chunk@ =~= spec_chunk(text@, k));
        }
        let mut line = String::from_str("  | -> ");
        let body = chars_to_string(&chunk);
        line.append(body.as_str());
        line.append("\n");
        ops.push(RenderOp::Text(line));
        lo = hi;
        proof {
            if lo == n {
                assert(k * wi <= n as int - 1);
                assert(n as int - 1 < (k + 1) * wi) by (nonlinear_arith)
                    requires
                        n as int <= lo0 + wi,
                        lo0 == k * wi,
                        wi == 101,
                {
                }
                assert((n as int - 1) / wi == k) by (nonlinear_arith)
                    requires
                        k * wi <= n as int - 1,
                        n as int - 1 < (k + 1) * wi,
                        wi == 101,
                        k >= 0,
                {
                }
                assert(spec_chunk_count(n as int) == k + 1);
            } else {
                assert(lo as int == (k + 1) * wi) by (nonlinear_arith)
                    requires
                        lo as int == lo0 + wi,
                        lo0 == k * wi,
                        wi == 101,
                {
                }
            }
        }
    }
    proof {
        if n == 0 {
            assert(spec_chunk_count(n as int) == 0);
        }
    }
    ops
}

} // verus!
