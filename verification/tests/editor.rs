use shrs_line::line::{Line, LineEvent, LineStep};

fn chars(s: &str) -> Vec<char> {
    s.chars().collect()
}

fn typed(s: &str) -> Vec<LineEvent> {
    s.chars().map(LineEvent::Printable).collect()
}

#[test]
fn typing_ls_dash_l_commits_and_records_history() {
    let mut line = Line::default();
    let mut events = typed("ls -l");
    events.push(LineEvent::Enter);
    let out = line.read_line(&events);
    assert_eq!(out, Some(chars("ls -l")));
    // the committed line is now the most recent history entry
    let mut replay = vec![LineEvent::ArrowUp];
    replay.push(LineEvent::Enter);
    let again = line.read_line(&replay);
    assert_eq!(again, Some(chars("ls -l")));
}

#[test]
fn typing_printables_concatenates_in_order_with_cursor_at_end() {
    let mut line = Line::default();
    for c in "echo hi".chars() {
        let step = line.handle_event(LineEvent::Printable(c));
        assert_eq!(step, LineStep::Continue);
    }
    assert_eq!(line.buffer(), &chars("echo hi"));
    assert_eq!(line.cursor_index(), 7);
}

#[test]
fn backspace_on_empty_buffer_is_a_no_op() {
    let mut line = Line::default();
    line.handle_event(LineEvent::Backspace);
    assert_eq!(line.buffer(), &chars(""));
    assert_eq!(line.cursor_index(), 0);
}

#[test]
fn backspace_removes_character_before_cursor() {
    let mut line = Line::default();
    for c in "abc".chars() {
        line.handle_event(LineEvent::Printable(c));
    }
    line.handle_event(LineEvent::Backspace);
    assert_eq!(line.buffer(), &chars("ab"));
    assert_eq!(line.cursor_index(), 2);
}

#[test]
fn arrows_clamp_cursor_to_buffer_bounds() {
    let mut line = Line::default();
    for c in "ab".chars() {
        line.handle_event(LineEvent::Printable(c));
    }
    for _ in 0..5 {
        line.handle_event(LineEvent::ArrowLeft);
        assert!(line.cursor_index() <= line.buffer().len());
    }
    assert_eq!(line.cursor_index(), 0);
    for _ in 0..7 {
        line.handle_event(LineEvent::ArrowRight);
        assert!(line.cursor_index() <= line.buffer().len());
    }
    assert_eq!(line.cursor_index(), 2);
    assert_eq!(line.buffer(), &chars("ab"));
}

#[test]
fn insertion_happens_at_the_cursor() {
    let mut line = Line::default();
    for c in "ac".chars() {
        line.handle_event(LineEvent::Printable(c));
    }
    line.handle_event(LineEvent::ArrowLeft);
    line.handle_event(LineEvent::Printable('b'));
    assert_eq!(line.buffer(), &chars("abc"));
    assert_eq!(line.cursor_index(), 2);
}

#[test]
fn enter_with_menu_inactive_commits() {
    let mut line = Line::default();
    let step = line.handle_event(LineEvent::Enter);
    assert_eq!(step, LineStep::Commit);
}

#[test]
fn read_line_without_enter_commits_nothing() {
    let mut line = Line::default();
    let events = typed("pending");
    assert_eq!(line.read_line(&events), None);
}

#[test]
fn read_line_starts_fresh_each_call() {
    let mut line = Line::default();
    let mut first = typed("abc");
    first.push(LineEvent::Enter);
    assert_eq!(line.read_line(&first), Some(chars("abc")));
    let mut second = typed("xyz");
    second.push(LineEvent::Enter);
    // the previous buffer must not leak into the new line
    assert_eq!(line.read_line(&second), Some(chars("xyz")));
}

#[test]
fn backspace_at_line_start_removes_the_first_character() {
    // the dispatch table clamps the cursor at 0 and then removes the
    // character sitting there
    let mut line = Line::default();
    for c in "ab".chars() {
        line.handle_event(LineEvent::Printable(c));
    }
    line.handle_event(LineEvent::ArrowLeft);
    line.handle_event(LineEvent::ArrowLeft);
    assert_eq!(line.cursor_index(), 0);
    line.handle_event(LineEvent::Backspace);
    assert_eq!(line.buffer(), &chars("b"));
    assert_eq!(line.cursor_index(), 0);
}

#[test]
fn read_line_recalls_history_and_commits_it() {
    let mut line = Line::default();
    let mut first = typed("cd /tmp");
    first.push(LineEvent::Enter);
    line.read_line(&first);
    let mut second = typed("ls -la");
    second.push(LineEvent::Enter);
    line.read_line(&second);
    // browse: up once = most recent, up again = older, down = back
    let replay = vec![
        LineEvent::ArrowUp,
        LineEvent::ArrowUp,
        LineEvent::ArrowDown,
        LineEvent::Enter,
    ];
    assert_eq!(line.read_line(&replay), Some(chars("ls -la")));
}

#[test]
fn events_after_the_committing_enter_are_not_consumed() {
    let mut line = Line::default();
    let mut events = typed("ok");
    events.push(LineEvent::Enter);
    events.push(LineEvent::Printable('z'));
    assert_eq!(line.read_line(&events), Some(chars("ok")));
    assert_eq!(line.buffer(), &chars("ok"));
}
