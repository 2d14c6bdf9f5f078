use shrs_line::completion::{CompletionCtx, DefaultCompleter};
use shrs_line::history::DefaultHistory;
use shrs_line::line::{Line, LineBuilder, LineEvent};
use shrs_line::menu::DefaultMenu;

fn chars(s: &str) -> Vec<char> {
    s.chars().collect()
}

fn words(ws: &[&str]) -> Vec<Vec<char>> {
    ws.iter().map(|w| chars(w)).collect()
}

fn completer_line(ws: &[&str]) -> Line {
    LineBuilder::default()
        .with_completer(DefaultCompleter::new(words(ws)))
        .build()
}

#[test]
fn completer_returns_prefix_matches_in_order() {
    let completer = DefaultCompleter::new(words(&["git", "grep", "cat", "git-lfs"]));
    let ctx = CompletionCtx { arg_num: 1 };
    let out = completer.complete(&chars("gi"), &ctx);
    assert_eq!(out, words(&["git", "git-lfs"]));
}

#[test]
fn tab_with_single_candidate_splices_without_menu() {
    let mut line = completer_line(&["grep"]);
    for c in "gr".chars() {
        line.handle_event(LineEvent::Printable(c));
    }
    line.handle_event(LineEvent::Tab);
    assert_eq!(line.buffer(), &chars("grep"));
    assert_eq!(line.cursor_index(), 4);
    assert!(!line.menu().is_active());
}

#[test]
fn tab_replaces_only_the_word_before_the_cursor() {
    let mut line = completer_line(&["-la"]);
    for c in "ls -l".chars() {
        line.handle_event(LineEvent::Printable(c));
    }
    line.handle_event(LineEvent::Tab);
    assert_eq!(line.buffer(), &chars("ls -la"));
    assert_eq!(line.cursor_index(), 6);
}

#[test]
fn tab_with_many_candidates_opens_menu_in_completer_order() {
    let mut line = completer_line(&["git", "grep", "gzip"]);
    line.handle_event(LineEvent::Printable('g'));
    line.handle_event(LineEvent::Tab);
    assert!(line.menu().is_active());
    assert_eq!(line.menu().items(), &words(&["git", "grep", "gzip"]));
    assert_eq!(line.menu().cursor(), 0);
    // buffer untouched until a candidate is accepted
    assert_eq!(line.buffer(), &chars("g"));
}

#[test]
fn tab_caps_menu_at_ten_items() {
    let many: Vec<&str> = vec![
        "x0", "x1", "x2", "x3", "x4", "x5", "x6", "x7", "x8", "x9", "x10", "x11",
    ];
    let mut line = completer_line(&many);
    line.handle_event(LineEvent::Printable('x'));
    line.handle_event(LineEvent::Tab);
    assert!(line.menu().is_active());
    assert_eq!(line.menu().len(), 10);
    assert_eq!(line.menu().items()[9], chars("x9"));
}

#[test]
fn tab_with_no_candidate_changes_nothing() {
    let mut line = completer_line(&["git"]);
    line.handle_event(LineEvent::Printable('z'));
    line.handle_event(LineEvent::Tab);
    assert_eq!(line.buffer(), &chars("z"));
    assert!(!line.menu().is_active());
    assert_eq!(line.menu().len(), 0);
}

#[test]
fn menu_enter_accepts_selected_candidate() {
    let mut line = completer_line(&["git", "grep"]);
    line.handle_event(LineEvent::Printable('g'));
    line.handle_event(LineEvent::Tab);
    assert!(line.menu().is_active());
    line.handle_event(LineEvent::ArrowDown);
    assert_eq!(line.menu().cursor(), 1);
    line.handle_event(LineEvent::Enter);
    assert_eq!(line.buffer(), &chars("grep"));
    assert_eq!(line.cursor_index(), 4);
}

#[test]
fn menu_escape_hides_but_keeps_items() {
    let mut line = completer_line(&["git", "grep"]);
    line.handle_event(LineEvent::Printable('g'));
    line.handle_event(LineEvent::Tab);
    line.handle_event(LineEvent::Escape);
    assert!(!line.menu().is_active());
    assert_eq!(line.menu().len(), 2);
}

#[test]
fn menu_navigation_clamps_at_both_ends() {
    let mut menu = DefaultMenu::new();
    menu.set_items(words(&["a", "b", "c"]));
    assert_eq!(menu.cursor(), 0);
    menu.previous();
    assert_eq!(menu.cursor(), 0);
    menu.next();
    menu.next();
    assert_eq!(menu.cursor(), 2);
    menu.next();
    assert_eq!(menu.cursor(), 2);
    assert_eq!(menu.accept(), Some(chars("c")));
}

#[test]
fn empty_menu_accepts_nothing() {
    let menu = DefaultMenu::new();
    assert_eq!(menu.accept(), None);
}

#[test]
fn history_is_ordered_most_recent_first() {
    let mut history = DefaultHistory::new();
    history.add(chars("cd /tmp"));
    history.add(chars("ls -la"));
    assert_eq!(history.len(), 2);
    assert_eq!(history.get(0), Some(chars("ls -la")));
    assert_eq!(history.get(1), Some(chars("cd /tmp")));
    assert_eq!(history.get(2), None);
}

#[test]
fn history_up_up_down_recalls_entries() {
    let mut history = DefaultHistory::new();
    history.add(chars("cd /tmp"));
    history.add(chars("ls -la"));
    let mut line = LineBuilder::default().with_history(history).build();
    line.handle_event(LineEvent::ArrowUp);
    assert_eq!(line.buffer(), &chars("ls -la"));
    assert_eq!(line.cursor_index(), 6);
    line.handle_event(LineEvent::ArrowUp);
    assert_eq!(line.buffer(), &chars("cd /tmp"));
    line.handle_event(LineEvent::ArrowDown);
    assert_eq!(line.buffer(), &chars("ls -la"));
}

#[test]
fn history_up_clamps_at_oldest_entry() {
    let mut history = DefaultHistory::new();
    history.add(chars("one"));
    history.add(chars("two"));
    let mut line = LineBuilder::default().with_history(history).build();
    for _ in 0..5 {
        line.handle_event(LineEvent::ArrowUp);
    }
    assert_eq!(line.buffer(), &chars("one"));
}

#[test]
fn history_keys_on_empty_history_leave_buffer_alone() {
    let mut line = Line::default();
    line.handle_event(LineEvent::Printable('a'));
    line.handle_event(LineEvent::ArrowUp);
    assert_eq!(line.buffer(), &chars("a"));
    line.handle_event(LineEvent::ArrowDown);
    assert_eq!(line.buffer(), &chars("a"));
}

#[test]
fn tab_after_trailing_space_completes_the_empty_word() {
    let mut line = completer_line(&["git", "grep"]);
    for c in "ls ".chars() {
        line.handle_event(LineEvent::Printable(c));
    }
    line.handle_event(LineEvent::Tab);
    // every word matches the empty prefix
    assert!(line.menu().is_active());
    assert_eq!(line.menu().items(), &words(&["git", "grep"]));
    assert_eq!(line.buffer(), &chars("ls "));
}

#[test]
fn menu_selection_keys_while_menu_active() {
    let mut line = completer_line(&["aa", "ab", "ac"]);
    line.handle_event(LineEvent::Printable('a'));
    line.handle_event(LineEvent::Tab);
    line.handle_event(LineEvent::Tab); // menu-active Tab moves down
    line.handle_event(LineEvent::Tab);
    assert_eq!(line.menu().cursor(), 2);
    line.handle_event(LineEvent::BackTab); // shift-tab moves back up
    assert_eq!(line.menu().cursor(), 1);
    line.handle_event(LineEvent::ArrowUp);
    assert_eq!(line.menu().cursor(), 0);
    line.handle_event(LineEvent::Enter);
    assert_eq!(line.buffer(), &chars("aa"));
}
