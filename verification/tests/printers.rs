use trs::printer::{
    DefaultStatePrinter, OneLineState, PrinterError, ProgressState, RenderOp, SilentStatePrinter,
    LINE_SIZE,
};

fn text_of(op: &RenderOp) -> &str {
    match op {
        RenderOp::Text(t) => t.as_str(),
        _ => panic!("expected a text operation"),
    }
}

fn cursor_left(op: &RenderOp) -> usize {
    match op {
        RenderOp::CursorLeft(n) => *n,
        _ => panic!("expected a cursor-left operation"),
    }
}

fn cursor_right(op: &RenderOp) -> usize {
    match op {
        RenderOp::CursorRight(n) => *n,
        _ => panic!("expected a cursor-right operation"),
    }
}

#[test]
fn one_line_state_pads_to_the_line_width() {
    let s = OneLineState::new("EXEC", "ls");
    assert_eq!(s.title, "EXEC");
    assert_eq!(s.body, "ls");
    // 100 columns minus 7 of decoration minus the title and body.
    assert_eq!(s.filler.len(), LINE_SIZE - 7 - 4 - 2);
    assert!(s.filler.chars().all(|c| c == ' '));
}

#[test]
fn overlong_texts_get_no_filler() {
    let long = "x".repeat(200);
    let s = OneLineState::new(&long, "body");
    assert_eq!(s.filler, "");
}

#[test]
fn one_line_render_is_a_bold_titled_line() {
    let s = OneLineState::new("EXEC", "ls");
    let ops = s.render();
    assert_eq!(ops.len(), 2);
    assert!(matches!(ops[0], RenderOp::Bold));
    let line = text_of(&ops[1]);
    assert!(line.starts_with("\u{2299} | EXEC : ls"));
    assert!(line.ends_with("\n"));
    // marker, title, separator, body, filler, newline
    assert_eq!(line.chars().count(), 4 + 4 + 3 + 2 + (LINE_SIZE - 7 - 4 - 2) + 1);
}

#[test]
fn progress_render_shows_an_empty_bar() {
    let p = ProgressState::new("SEND FILE", "a -> b", "0/0");
    let ops = p.render();
    assert_eq!(ops.len(), 4);
    assert!(matches!(ops[0], RenderOp::Bold));
    assert!(text_of(&ops[1]).starts_with("\u{2299} | SEND FILE : a -> b"));
    assert!(matches!(ops[2], RenderOp::Bold));
    let bar = text_of(&ops[3]);
    assert_eq!(bar, format!("  | [{}] 0/0", " ".repeat(50)));
}

#[test]
fn set_progress_redraws_the_bar_in_place() {
    let mut p = ProgressState::new("SEND FILE", "a -> b", "123/456");
    let ops = p.set_progress(50);
    assert_eq!(p.progress_ticks, 25);
    assert_eq!(ops.len(), 7);
    assert_eq!(cursor_left(&ops[0]), "123/456".len());
    assert_eq!(cursor_left(&ops[1]), 52);
    assert_eq!(text_of(&ops[2]), " ".repeat(50));
    assert_eq!(cursor_left(&ops[3]), 50);
    assert_eq!(text_of(&ops[4]), "#".repeat(25));
    assert_eq!(cursor_right(&ops[5]), 52 - 25);
    assert_eq!(cursor_right(&ops[6]), "123/456".len());
}

#[test]
fn unchanged_progress_renders_nothing() {
    let mut p = ProgressState::new("SEND FILE", "a -> b", "t");
    let first = p.set_progress(10);
    assert_eq!(first.len(), 7);
    let second = p.set_progress(10);
    assert_eq!(second.len(), 0);
    let third = p.set_progress(11);
    assert_eq!(third.len(), 0, "10 and 11 percent both fill 5 of 50 columns");
    let fourth = p.set_progress(12);
    assert_eq!(fourth.len(), 7);
}

#[test]
fn update_bar_title_blanks_the_old_text() {
    let mut p = ProgressState::new("SEND FILE", "a -> b", "old-title");
    let ops = p.update_bar_title("new");
    assert_eq!(p.bar_title, "new");
    assert_eq!(ops.len(), 4);
    assert_eq!(cursor_left(&ops[0]), "old-title".len());
    assert_eq!(text_of(&ops[1]), " ".repeat("old-title".len()));
    assert_eq!(cursor_left(&ops[2]), "old-title".len());
    assert_eq!(text_of(&ops[3]), "new");
}

#[test]
fn default_printer_replaces_its_state() {
    let mut printer = DefaultStatePrinter::new();
    let ops = printer.add_one_line("EXEC", "echo hi");
    assert_eq!(ops.len(), 2);
    // Progress operations are invalid for a line state.
    assert!(matches!(
        printer.set_progress(10),
        Err(PrinterError::InvalidStateTransition)
    ));
    assert!(matches!(
        printer.update_bar_title("x"),
        Err(PrinterError::InvalidStateTransition)
    ));
    assert!(matches!(
        printer.complete_current(),
        Err(PrinterError::InvalidStateTransition)
    ));

    let ops = printer.add_progress("SEND FILE", "a -> b", "0/9");
    assert_eq!(ops.len(), 4);
    let ops = printer.set_progress(100).unwrap();
    assert_eq!(ops.len(), 7);
    assert_eq!(text_of(&ops[4]), "#".repeat(50));
    assert_eq!(cursor_right(&ops[5]), 2);
    let ops = printer.update_bar_title("9/9").unwrap();
    assert_eq!(ops.len(), 4);
    let ops = printer.complete_current().unwrap();
    assert_eq!(ops.len(), 1);
    assert_eq!(text_of(&ops[0]), "\n");
}

#[test]
fn error_rendering_is_highlighted() {
    let printer = DefaultStatePrinter::new();
    let ops = printer.error_current("boom");
    assert_eq!(ops.len(), 5);
    assert_eq!(text_of(&ops[0]), "  | ");
    assert!(matches!(ops[1], RenderOp::ErrorColor));
    assert_eq!(text_of(&ops[2]), "ERROR: boom");
    assert!(matches!(ops[3], RenderOp::ResetStyle));
    assert_eq!(text_of(&ops[4]), "\n \n");
}

#[test]
fn printed_messages_wrap_at_the_line_width() {
    let printer = DefaultStatePrinter::new();
    let text = "a".repeat(250);
    let ops = printer.print_to_current(&text);
    assert_eq!(ops.len(), 3);
    assert_eq!(text_of(&ops[0]), format!("  | -> {}\n", "a".repeat(101)));
    assert_eq!(text_of(&ops[1]), format!("  | -> {}\n", "a".repeat(101)));
    assert_eq!(text_of(&ops[2]), format!("  | -> {}\n", "a".repeat(48)));

    let empty = printer.print_to_current("");
    assert_eq!(empty.len(), 0);

    let short = printer.print_to_current("hi");
    assert_eq!(short.len(), 1);
    assert_eq!(text_of(&short[0]), "  | -> hi\n");
}

#[test]
fn printing_under_a_progress_state_renders_as_an_error() {
    let mut printer = DefaultStatePrinter::new();
    printer.add_progress("SEND FILE", "a -> b", "0/9");
    let ops = printer.print_to_current("note");
    assert_eq!(ops.len(), 5);
    assert_eq!(text_of(&ops[2]), "ERROR: note");
}

#[test]
fn read_requests_show_the_input_marker() {
    let printer = DefaultStatePrinter::new();
    let ops = printer.print_read_request("password: ");
    assert_eq!(ops.len(), 1);
    assert_eq!(text_of(&ops[0]), "  | <- password: ");
}

#[test]
fn silent_printer_keeps_only_plain_lines() {
    let mut p = SilentStatePrinter::new();
    assert_eq!(p.add_one_line("EXEC", "x").len(), 0);
    assert_eq!(p.add_progress("SEND FILE", "x", "y").len(), 0);
    assert_eq!(p.set_progress(10).len(), 0);
    assert_eq!(p.update_bar_title("z").len(), 0);
    assert_eq!(p.complete_current().len(), 0);
    let err = p.error_current("boom");
    assert_eq!(err.len(), 1);
    assert_eq!(text_of(&err[0]), "ERROR: boom\n");
    let out = p.print_to_current("hello");
    assert_eq!(out.len(), 1);
    assert_eq!(text_of(&out[0]), "hello\n");
    let req = p.print_read_request("name: ");
    assert_eq!(req.len(), 1);
    assert_eq!(text_of(&req[0]), "name: \n");
}
