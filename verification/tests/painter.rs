use shrs_line::cursor::{CursorShape, DefaultCursor};
use shrs_line::menu::DefaultMenu;
use shrs_line::painter::{PaintCmd, Painter};

fn chars(s: &str) -> Vec<char> {
    s.chars().collect()
}

fn words(ws: &[&str]) -> Vec<Vec<char>> {
    ws.iter().map(|w| chars(w)).collect()
}

#[test]
fn init_advances_to_next_row_when_mid_line() {
    let mut painter = Painter::new();
    painter.init(80, 24, 5, 3);
    assert_eq!(painter.remaining_lines(), 20);
    let mut painter2 = Painter::new();
    painter2.init(80, 24, 0, 3);
    assert_eq!(painter2.remaining_lines(), 21);
}

#[test]
fn menu_that_does_not_fit_scrolls_and_raises_prompt_row() {
    let mut painter = Painter::new();
    painter.init(80, 10, 0, 8);
    assert_eq!(painter.remaining_lines(), 2);
    let mut menu = DefaultMenu::new();
    menu.set_items(words(&["a", "b", "c", "d"]));
    menu.activate();
    let cursor = DefaultCursor::default();
    let cmds = painter.paint(&chars("> "), &menu, &chars(""), 0, &cursor);
    // four menu rows with two available: scroll by 2, prompt row 8 -> 6
    assert_eq!(cmds[0], PaintCmd::HideCursor);
    assert_eq!(cmds[1], PaintCmd::ScrollUp(2));
    assert_eq!(cmds[2], PaintCmd::MoveTo(0, 6));
    assert_eq!(painter.remaining_lines(), 4);
}

#[test]
fn scroll_never_pushes_prompt_row_below_zero() {
    let mut painter = Painter::new();
    painter.init(80, 1, 0, 1);
    let mut menu = DefaultMenu::new();
    menu.set_items(words(&["a", "b", "c", "d"]));
    menu.activate();
    let cursor = DefaultCursor::default();
    let cmds = painter.paint(&chars("> "), &menu, &chars(""), 0, &cursor);
    assert_eq!(cmds[1], PaintCmd::ScrollUp(4));
    assert_eq!(cmds[2], PaintCmd::MoveTo(0, 0));
}

#[test]
fn paint_orders_prompt_buffer_and_saved_cursor() {
    let mut painter = Painter::new();
    painter.init(80, 24, 0, 0);
    let menu = DefaultMenu::new();
    let cursor = DefaultCursor::default();
    let cmds = painter.paint(&chars("> "), &menu, &chars("ls -l"), 2, &cursor);
    let expected = vec![
        PaintCmd::HideCursor,
        PaintCmd::MoveTo(0, 0),
        PaintCmd::ClearFromCursorDown,
        PaintCmd::Print(chars("> ")),
        PaintCmd::Print(chars("ls")),
        PaintCmd::SavePosition,
        PaintCmd::Print(chars(" -l")),
        PaintCmd::RestorePosition,
        PaintCmd::ShowCursor,
        PaintCmd::SetCursorShape(CursorShape::Line),
    ];
    assert_eq!(cmds, expected);
}

#[test]
fn paint_bolds_only_the_selected_menu_item() {
    let mut painter = Painter::new();
    painter.init(80, 24, 0, 0);
    let mut menu = DefaultMenu::new();
    menu.set_items(words(&["aa", "bb"]));
    menu.activate();
    menu.next();
    let cursor = DefaultCursor::default();
    let cmds = painter.paint(&chars("$ "), &menu, &chars("a"), 1, &cursor);
    let expected = vec![
        PaintCmd::HideCursor,
        PaintCmd::MoveTo(0, 0),
        PaintCmd::ClearFromCursorDown,
        PaintCmd::Print(chars("$ ")),
        PaintCmd::Print(chars("a")),
        PaintCmd::SavePosition,
        PaintCmd::Print(chars("")),
        PaintCmd::LineBreak,
        PaintCmd::Print(chars("aa")),
        PaintCmd::ResetBold,
        PaintCmd::LineBreak,
        PaintCmd::SetBold,
        PaintCmd::Print(chars("bb")),
        PaintCmd::ResetBold,
        PaintCmd::LineBreak,
        PaintCmd::MoveUp(1),
        PaintCmd::RestorePosition,
        PaintCmd::ShowCursor,
        PaintCmd::SetCursorShape(CursorShape::Line),
    ];
    assert_eq!(cmds, expected);
}

#[test]
fn newline_emits_a_single_line_break() {
    let mut painter = Painter::new();
    let cmds = painter.newline();
    assert_eq!(cmds, vec![PaintCmd::LineBreak]);
}

#[test]
fn configured_cursor_shape_reaches_the_paint_stream() {
    let mut painter = Painter::new();
    painter.init(80, 24, 0, 0);
    let menu = DefaultMenu::new();
    let cursor = DefaultCursor::new(CursorShape::Block);
    let cmds = painter.paint(&chars("> "), &menu, &chars(""), 0, &cursor);
    assert_eq!(cmds.last(), Some(&PaintCmd::SetCursorShape(CursorShape::Block)));
}

#[test]
fn inactive_menu_with_items_needs_no_scroll() {
    let mut painter = Painter::new();
    painter.init(80, 5, 0, 5);
    let mut menu = DefaultMenu::new();
    menu.set_items(words(&["a", "b", "c"]));
    // menu not activated: zero rows required, no scroll command
    let cursor = DefaultCursor::default();
    let cmds = painter.paint(&chars("> "), &menu, &chars(""), 0, &cursor);
    assert_eq!(cmds[1], PaintCmd::MoveTo(0, 5));
}
