//! The painter: turns the abstract (prompt, buffer, cursor, menu) tuple
//! into an ordered stream of terminal paint commands, tracking terminal
//! geometry and scrolling so the menu always fits below the prompt.
//!
//! The painter emits [`PaintCmd`] values instead of writing escape
//! sequences itself; the driver that owns the output channel performs
//! them in order and flushes. Reordering them produces visible
//! artifacts, so the contract fixes the exact sequence.

use vstd::prelude::*;
use crate::chars::{copy_chars, copy_range};
use crate::cursor::{CursorShape, DefaultCursor};
use crate::menu::{menu_wf, DefaultMenu, MenuModel};

verus! {

/// One terminal operation, in the order it must be performed.
#[derive(Clone, Debug, PartialEq, Eq)]
pub enum PaintCmd {
    /// Hide the visual cursor while redrawing.
    HideCursor,
    /// Scroll the terminal contents up by this many rows.
    ScrollUp(u16),
    /// Move the write cursor to (column, row).
    MoveTo(u16, u16),
    /// Clear from the write cursor to the end of the screen.
    ClearFromCursorDown,
    /// Write this text.
    Print(Vec<char>),
    /// Remember the current write position (the visual cursor location).
    SavePosition,
    /// Start bold text.
    SetBold,
    /// Stop bold text.
    ResetBold,
    /// Move to the start of the next row.
    LineBreak,
    /// Move the write cursor up by this many rows.
    MoveUp(u16),
    /// Return to the remembered position.
    RestorePosition,
    /// Show the visual cursor again.
    ShowCursor,
    /// Apply the configured cursor glyph.
    SetCursorShape(CursorShape),
}

/// The abstract form of a paint command.
#[verifier::ext_equal]
pub ghost enum PaintOp {
    HideCursor,
    ScrollUp(int),
    MoveTo(int, int),
    ClearFromCursorDown,
    Print(Seq<char>),
    SavePosition,
    SetBold,
    ResetBold,
    LineBreak,
    MoveUp(int),
    RestorePosition,
    ShowCursor,
    SetCursorShape(CursorShape),
}

impl View for PaintCmd {
    type V = PaintOp;

    open spec fn view(&self) -> PaintOp {
        match *self {
            PaintCmd::HideCursor => PaintOp::HideCursor,
            PaintCmd::ScrollUp(n) => PaintOp::ScrollUp(n as int),
            PaintCmd::MoveTo(c, r) => PaintOp::MoveTo(c as int, r as int),
            PaintCmd::ClearFromCursorDown => PaintOp::ClearFromCursorDown,
            PaintCmd::Print(ref s) => PaintOp::Print(s@),
            PaintCmd::SavePosition => PaintOp::SavePosition,
            PaintCmd::SetBold => PaintOp::SetBold,
            PaintCmd::ResetBold => PaintOp::ResetBold,
            PaintCmd::LineBreak => PaintOp::LineBreak,
            PaintCmd::MoveUp(n) => PaintOp::MoveUp(n as int),
            PaintCmd::RestorePosition => PaintOp::RestorePosition,
            PaintCmd::ShowCursor => PaintOp::ShowCursor,
            PaintCmd::SetCursorShape(s) => PaintOp::SetCursorShape(s),
        }
    }
}

/// The abstract form of a command stream.
pub open spec fn ops_of(s: Seq<PaintCmd>) -> Seq<PaintOp> {
    s.map_values(|c: PaintCmd| c@)
}

/// Abstract state of the painter: terminal geometry and the row the
/// prompt currently sits on.
#[verifier::ext_equal]
pub ghost struct PainterModel {
    pub cols: int,
    pub rows: int,
    pub prompt_line: int,
}

/// Well-formedness: the prompt row never lies below the screen.
pub open spec fn painter_wf(p: PainterModel) -> bool {
    0 <= p.prompt_line <= p.rows
}

/// Rows the menu needs below the prompt: its item count while visible,
/// otherwise none.
pub open spec fn required_lines(m: MenuModel) -> int {
    if m.active {
        m.items.len() as int
    } else {
        0
    }
}

/// Rows available below the prompt.
pub open spec fn remaining_of(p: PainterModel) -> int {
    if p.prompt_line <= p.rows {
        p.rows - p.prompt_line
    } else {
        0
    }
}

/// How far a repaint must scroll the terminal up so the menu fits.
pub open spec fn scroll_amount(p: PainterModel, m: MenuModel) -> int {
    if required_lines(m) > remaining_of(p) {
        required_lines(m) - remaining_of(p)
    } else {
        0
    }
}

/// The prompt row after a repaint: moved up by the scroll amount,
/// floored at row 0.
pub open spec fn painted_prompt_line(p: PainterModel, m: MenuModel) -> int {
    let e = scroll_amount(p, m);
    if e <= p.prompt_line {
        p.prompt_line - e
    } else {
        0
    }
}

/// The commands that render the menu items in order: the selected item
/// in bold, each item on a row of its own.
pub open spec fn menu_ops(items: Seq<Seq<char>>, sel: int) -> Seq<PaintOp>
    decreases items.len(),
{
    if items.len() == 0 {
        Seq::empty()
    } else {
        menu_ops(items.drop_last(), sel)
            + (if sel == items.len() - 1 {
                seq![PaintOp::SetBold]
            } else {
                Seq::<PaintOp>::empty()
            })
            + seq![PaintOp::Print(items.last()), PaintOp::ResetBold, PaintOp::LineBreak]
    }
}

/// The exact command stream one repaint emits: hide the cursor, scroll
/// if the menu needs more rows than remain, move to the prompt row and
/// clear downward, write the prompt and the buffer with the visual
/// cursor position saved at the edit cursor, render the menu if it is
/// visible, then restore, show the cursor and apply its glyph.
pub open spec fn paint_ops(
    prompt: Seq<char>,
    m: MenuModel,
    buf: Seq<char>,
    ind: int,
    shape: CursorShape,
    p: PainterModel,
) -> Seq<PaintOp> {
    let e = scroll_amount(p, m);
    let npl = painted_prompt_line(p, m);
    seq![PaintOp::HideCursor]
        + (if e > 0 {
            seq![PaintOp::ScrollUp(e)]
        } else {
            Seq::<PaintOp>::empty()
        })
        + seq![
            PaintOp::MoveTo(0, npl),
            PaintOp::ClearFromCursorDown,
            PaintOp::Print(prompt),
            PaintOp::Print(buf.subrange(0, ind)),
            PaintOp::SavePosition,
            PaintOp::Print(buf.subrange(ind, buf.len() as int)),
        ]
        + (if m.active {
            seq![PaintOp::LineBreak] + menu_ops(m.items, m.sel)
                + seq![PaintOp::MoveUp(if m.items.len() > 0 { m.items.len() - 1 } else { 0int })]
        } else {
            Seq::<PaintOp>::empty()
        })
        + seq![PaintOp::RestorePosition, PaintOp::ShowCursor, PaintOp::SetCursorShape(shape)]
}

/// Tracks terminal geometry and renders repaints as command streams.
pub struct Painter {
    term_cols: u16,
    term_rows: u16,
    prompt_line: u16,
}

impl View for Painter {
    type V = PainterModel;

    closed spec fn view(&self) -> PainterModel {
        PainterModel {
            cols: self.term_cols as int,
            rows: self.term_rows as int,
            prompt_line: self.prompt_line as int,
        }
    }
}

impl Painter {
    /// A painter that has not seen the terminal yet.
    pub fn new() -> (r: Self)
        ensures
            r@ == (PainterModel { cols: 0, rows: 0, prompt_line: 0 }),
            painter_wf(r@),
    {
        Painter { term_cols: 0, term_rows: 0, prompt_line: 0 }
    }

    /// Record the terminal size and pick the starting prompt row from
    /// the current cursor position: the next row when the cursor sits
    /// mid-line, else the current row, clamped onto the screen.
    pub fn init(&mut self, cols: u16, rows: u16, cursor_col: u16, cursor_row: u16)
        ensures
            final(self)@.cols == cols as int,
            final(self)@.rows == rows as int,
            final(self)@.prompt_line == {
                let want: int = if cursor_col > 0 {
                    cursor_row + 1
                } else {
                    cursor_row as int
                };
                if want <= rows as int {
                    want
                } else {
                    rows as int
                }
            },
            painter_wf(final(self)@),
    {
        self.term_cols = cols;
        self.term_rows = rows;
        let want = if cursor_col > 0 && cursor_row < u16::MAX {
            cursor_row + 1
        } else {
            cursor_row
        };
        self.prompt_line = if want <= rows {
            want
        } else {
            rows
        };
        proof {
            assert(cursor_col > 0 && cursor_row == u16::MAX ==> cursor_row + 1 > rows as int);
        }
    }

    /// Rows left below the prompt.
    pub fn remaining_lines(&self) -> (r: u16)
        ensures
            r as int == remaining_of(self@),
    {
        if self.prompt_line <= self.term_rows {
            self.term_rows - self.prompt_line
        } else {
            0
        }
    }

    /// One repaint: returns the exact command stream for the given
    /// prompt, buffer, cursor index and menu, and moves the prompt row
    /// up by however much the menu forced the terminal to scroll (never
    /// below row 0).
    pub fn paint(
        &mut self,
        prompt: &Vec<char>,
        menu: &DefaultMenu,
        buf: &Vec<char>,
        cursor_ind: usize,
        cursor: &DefaultCursor,
    ) -> (cmds: Vec<PaintCmd>)
        requires
            cursor_ind <= buf@.len(),
            menu_wf(menu@),
            painter_wf(old(self)@),
        ensures
            final(self)@.cols == old(self)@.cols,
            final(self)@.rows == old(self)@.rows,
            final(self)@.prompt_line == painted_prompt_line(old(self)@, menu@),
            painter_wf(final(self)@),
            ops_of(cmds@) == paint_ops(
                prompt@,
                menu@,
                buf@,
                cursor_ind as int,
                cursor.style(),
                old(self)@,
            ),
    {
        let ghost target = paint_ops(prompt@, menu@, buf@, cursor_ind as int, cursor.style(), old(self)@);
        let mut cmds: Vec<PaintCmd> = Vec::new();
        cmds.push(PaintCmd::HideCursor);

        let required: u16 = if menu.is_active() {
            let n = menu.len();
            proof {
                assert(n <= 10);
            }
            n as u16
        } else {
            0
        };
        proof {
            assert(required as int == required_lines(menu@));
        }
        let remaining = self.remaining_lines();
        if required > remaining {
            let extra = required - remaining;
            cmds.push(PaintCmd::ScrollUp(extra));
            self.prompt_line = if extra <= self.prompt_line {
                self.prompt_line - extra
            } else {
                0
            };
        }
        proof {
            assert(self@.prompt_line == painted_prompt_line(old(self)@, menu@));
        }

        cmds.push(PaintCmd::MoveTo(0, self.prompt_line));
        cmds.push(PaintCmd::ClearFromCursorDown);
        cmds.push(PaintCmd::Print(copy_chars(prompt)));
        cmds.push(PaintCmd::Print(copy_range(buf, 0, cursor_ind)));
        cmds.push(PaintCmd::SavePosition);
        cmds.push(PaintCmd::Print(copy_range(buf, cursor_ind, buf.len())));

        let ghost e = scroll_amount(old(self)@, menu@);
        let ghost head = seq![PaintOp::HideCursor]
            + (if e > 0 {
                seq![PaintOp::ScrollUp(e)]
            } else {
                Seq::<PaintOp>::empty()
            })
            + seq![
                PaintOp::MoveTo(0, painted_prompt_line(old(self)@, menu@)),
                PaintOp::ClearFromCursorDown,
                PaintOp::Print(prompt@),
                PaintOp::Print(buf@.subrange(0, cursor_ind as int)),
                PaintOp::SavePosition,
                PaintOp::Print(buf@.subrange(cursor_ind as int, buf@.len() as int)),
            ];
        proof {
            assert(ops_of(cmds@) =~~= head);
        }

        if menu.is_active() {
            cmds.push(PaintCmd::LineBreak);
            let items = menu.items();
            let sel = menu.cursor();
            let mut i: usize = 0;
            while i < items.len()
                invariant
                    i <= items@.len(),
                    items.deep_view() == menu@.items,
                    sel as int == menu@.sel,
                    menu_wf(menu@),
                    ops_of(cmds@) =~~= head + seq![PaintOp::LineBreak]
                        + menu_ops(menu@.items.subrange(0, i as int), menu@.sel),
                decreases items@.len() - i,
            {
                let ghost pre_items = menu@.items.subrange(0, i as int);
                let ghost cur_items = menu@.items.subrange(0, i + 1);
                proof {
                    assert(cur_items.drop_last() =~= pre_items);
                    assert(cur_items.last() == items@[i as int]@);
                }
                if i == sel {
                    cmds.push(PaintCmd::SetBold);
                }
                cmds.push(PaintCmd::Print(copy_chars(&items[i])));
                cmds.push(PaintCmd::ResetBold);
                cmds.push(PaintCmd::LineBreak);
                proof {
                    let per = (if menu@.sel == i as int {
                        seq![PaintOp::SetBold]
                    } else {
                        Seq::<PaintOp>::empty()
                    }) + seq![
                        PaintOp::Print(items@[i as int]@),
                        PaintOp::ResetBold,
                        PaintOp::LineBreak,
                    ];
                    assert(menu_ops(cur_items, menu@.sel) =~~= menu_ops(pre_items, menu@.sel)
                        + per);
                    assert(ops_of(cmds@) =~~= (head + seq![PaintOp::LineBreak]
                        + menu_ops(pre_items, menu@.sel)) + per);
                    assert(ops_of(cmds@) =~~= head + seq![PaintOp::LineBreak]
                        + menu_ops(cur_items, menu@.sel));
                }
                i = i + 1;
            }
            proof {
                assert(menu@.items.subrange(0, menu@.items.len() as int) =~= menu@.items);
            }
            let up: u16 = if items.len() > 0 {
                let n = items.len();
                proof {
                    assert(menu@.items.len() <= 10);
                }
                (n - 1) as u16
            } else {
                0
            };
            cmds.push(PaintCmd::MoveUp(up));
            proof {
                assert(up as int == if menu@.items.len() > 0 {
                    menu@.items.len() - 1
                } else {
                    0int
                });
                assert(ops_of(cmds@) =~~= (head + seq![PaintOp::LineBreak]
                    + menu_ops(menu@.items, menu@.sel)) + seq![PaintOp::MoveUp(up as int)]);
                assert(ops_of(cmds@) =~~= head + (seq![PaintOp::LineBreak]
                    + menu_ops(menu@.items, menu@.sel)
                    + seq![PaintOp::MoveUp(
                        if menu@.items.len() > 0 { menu@.items.len() - 1 } else { 0int },
                    )]));
            }
        }
        let ghost menupart: Seq<PaintOp> = if menu@.active {
            seq![PaintOp::LineBreak] + menu_ops(menu@.items, menu@.sel)
                + seq![PaintOp::MoveUp(
                    if menu@.items.len() > 0 { menu@.items.len() - 1 } else { 0int },
                )]
        } else {
            Seq::<PaintOp>::empty()
        };
        proof {
            assert(ops_of(cmds@) =~~= head + menupart);
        }

        cmds.push(PaintCmd::RestorePosition);
        cmds.push(PaintCmd::ShowCursor);
        cmds.push(PaintCmd::SetCursorShape(cursor.get_cursor()));
        proof {
            let tail = seq![
                PaintOp::RestorePosition,
                PaintOp::ShowCursor,
                PaintOp::SetCursorShape(cursor.style()),
            ];
            assert(ops_of(cmds@) =~~= (head + menupart) + tail);
            assert(target =~~= head + menupart + tail);
            assert(ops_of(cmds@) =~~= target);
        }
        cmds
    }

    /// The single line break emitted after the terminating Enter, to
    /// move the terminal past the editing region.
    pub fn newline(&mut self) -> (cmds: Vec<PaintCmd>)
        ensures
            final(self)@ == old(self)@,
            ops_of(cmds@) =~= seq![PaintOp::LineBreak],
    {
        let mut cmds: Vec<PaintCmd> = Vec::new();
        cmds.push(PaintCmd::LineBreak);
        proof {
            assert(ops_of(cmds@) =~~= seq![PaintOp::LineBreak]);
        }
        cmds
    }
}

} // verus!
