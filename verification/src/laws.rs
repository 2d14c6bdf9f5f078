//! Laws of the editor, stated over the spec-level state machine and
//! proved once for every state and input.

use vstd::prelude::*;
use crate::line::{
    current_word_of, line_wf, run, session, splice_model, step, tab_candidates, LineEvent,
    LineModel,
};
use crate::menu::{MenuModel, MENU_CAPACITY};
use crate::painter::{painted_prompt_line, painter_wf, required_lines, PainterModel};

verus! {

/// Every event is a printable character.
pub open spec fn printable_only(evs: Seq<LineEvent>) -> bool {
    forall|i: int| 0 <= i < evs.len() ==> evs[i] is Printable
}

/// The characters of a printable-only event sequence, in order.
pub open spec fn chars_of(evs: Seq<LineEvent>) -> Seq<char> {
    evs.map_values(
        |e: LineEvent|
            match e {
                LineEvent::Printable(c) => c,
                _ => ' ',
            },
    )
}

/// Typing printable characters with the cursor at the end of the buffer
/// appends exactly those characters in order and keeps the cursor at the
/// end.
pub proof fn lemma_typing_appends(m: LineModel, evs: Seq<LineEvent>)
    requires
        line_wf(m),
        !m.menu.active,
        m.ind == m.buf.len(),
        printable_only(evs),
    ensures
        run(m, evs).buf =~= m.buf + chars_of(evs),
        run(m, evs).ind == m.buf.len() + evs.len(),
        line_wf(run(m, evs)),
        !run(m, evs).menu.active,
    decreases evs.len(),
{
    if evs.len() == 0 {
        assert(run(m, evs).buf =~= m.buf + chars_of(evs));
    } else {
        let ev = evs[0];
        let c = ev->Printable_0;
        let m1 = step(m, ev);
        assert(m1.buf =~= m.buf.push(c));
        crate::line::lemma_step_wf(m, ev);
        lemma_typing_appends(m1, evs.drop_first());
        assert(chars_of(evs).drop_first() =~= chars_of(evs.drop_first()));
        assert(run(m, evs).buf =~= m.buf + chars_of(evs));
    }
}

/// Starting from an empty buffer, a sequence of printable-character
/// events with no other keys leaves the buffer equal to the events'
/// characters concatenated in order, with the cursor at its end.
pub proof fn lemma_printable_typing(m: LineModel, evs: Seq<LineEvent>)
    requires
        line_wf(m),
        !m.menu.active,
        m.buf.len() == 0,
        printable_only(evs),
    ensures
        run(m, evs).buf =~= chars_of(evs),
        run(m, evs).ind == evs.len(),
{
    lemma_typing_appends(m, evs);
    assert(run(m, evs).buf =~= chars_of(evs));
}

/// Backspace on an empty buffer changes neither the buffer nor the
/// cursor, whichever dispatch table is active.
pub proof fn lemma_backspace_empty_noop(m: LineModel)
    requires
        m.buf.len() == 0,
    ensures
        step(m, LineEvent::Backspace).buf == m.buf,
        step(m, LineEvent::Backspace).ind == m.ind,
{
}

/// Every event is an arrow-left or arrow-right press.
pub open spec fn arrows_only(evs: Seq<LineEvent>) -> bool {
    forall|i: int| 0 <= i < evs.len() ==> evs[i] is ArrowLeft || evs[i] is ArrowRight
}

/// However many Left/Right presses arrive and wherever the cursor
/// starts, the buffer is untouched and the cursor index never leaves
/// `[0, buf.len()]`.
pub proof fn lemma_arrows_keep_cursor_in_range(m: LineModel, evs: Seq<LineEvent>)
    requires
        line_wf(m),
        arrows_only(evs),
    ensures
        run(m, evs).buf == m.buf,
        0 <= run(m, evs).ind <= m.buf.len(),
    decreases evs.len(),
{
    if evs.len() == 0 {
    } else {
        let ev = evs[0];
        crate::line::lemma_step_wf(m, ev);
        lemma_arrows_keep_cursor_in_range(step(m, ev), evs.drop_first());
    }
}

/// History Up/Down only ever produce a browsing index inside
/// `[0, hist.len() - 1]`; on empty history the buffer, cursor and
/// browsing position are all unchanged (no entry is looked up at all).
pub proof fn lemma_history_stays_in_range(m: LineModel, ev: LineEvent)
    requires
        line_wf(m),
        ev is ArrowUp || ev is ArrowDown,
    ensures
        step(m, ev).hist_ind matches Some(i) ==> 0 <= i < m.hist.len(),
        m.hist.len() == 0 ==> step(m, ev).buf == m.buf && step(m, ev).ind == m.ind && step(
            m,
            ev,
        ).hist_ind == m.hist_ind,
{
}

/// Splicing replaces exactly the trailing `word` characters ending at
/// the cursor (clamped at the start of the buffer) with the accepted
/// text: the part before the removed span and the part after the cursor
/// are untouched, and the cursor lands immediately after the inserted
/// text.
pub proof fn lemma_splice_exact(m: LineModel, accepted: Seq<char>)
    requires
        line_wf(m),
    ensures
        ({
            let w = if m.word.len() <= m.ind {
                m.word.len() as int
            } else {
                m.ind
            };
            let start = m.ind - w;
            let s = splice_model(m, accepted);
            &&& s.buf.len() == m.buf.len() - w + accepted.len()
            &&& s.buf.subrange(0, start) =~= m.buf.subrange(0, start)
            &&& s.buf.subrange(start, start + accepted.len()) =~= accepted
            &&& s.buf.subrange(start + accepted.len(), s.buf.len() as int) =~= m.buf.subrange(
                m.ind,
                m.buf.len() as int,
            )
            &&& s.ind == start + accepted.len()
        }),
{
}

/// Tab with exactly one candidate splices it into the buffer directly
/// and does not activate (or otherwise touch) the menu.
pub proof fn lemma_tab_single_candidate(m: LineModel)
    requires
        line_wf(m),
        !m.menu.active,
        tab_candidates(m).len() == 1,
    ensures
        step(m, LineEvent::Tab).menu == m.menu,
        step(m, LineEvent::Tab) == splice_model(
            (LineModel { word: current_word_of(m.buf.subrange(0, m.ind)), ..m }),
            tab_candidates(m)[0],
        ),
{
}

/// Typing printable characters with the cursor at the end and then
/// pressing Enter commits the buffer extended by exactly those
/// characters, and records the committed text as the most recent
/// history entry.
pub proof fn lemma_typing_then_enter_commits(m: LineModel, typed: Seq<LineEvent>)
    requires
        line_wf(m),
        !m.menu.active,
        m.ind == m.buf.len(),
        printable_only(typed),
    ensures
        session(m, typed.push(LineEvent::Enter)).committed == Some(m.buf + chars_of(typed)),
        session(m, typed.push(LineEvent::Enter)).state.hist =~= seq![m.buf + chars_of(typed)]
            + m.hist,
    decreases typed.len(),
{
    let evs = typed.push(LineEvent::Enter);
    if typed.len() == 0 {
        assert(evs[0] is Enter);
        assert(m.buf + chars_of(typed) =~= m.buf);
        assert(session(m, evs).state.hist =~= seq![m.buf + chars_of(typed)] + m.hist);
    } else {
        let ev = typed[0];
        let c = ev->Printable_0;
        let m1 = step(m, ev);
        assert(m1.buf =~= m.buf.push(c));
        crate::line::lemma_step_wf(m, ev);
        lemma_typing_then_enter_commits(m1, typed.drop_first());
        assert(evs.drop_first() =~= typed.drop_first().push(LineEvent::Enter));
        assert(m1.buf + chars_of(typed.drop_first()) =~= m.buf + chars_of(typed));
        assert(session(m, evs).state.hist =~= seq![m.buf + chars_of(typed)] + m.hist);
    }
}

/// Starting from an empty buffer, typing characters and pressing Enter
/// returns exactly those characters and leaves them as the most recent
/// history entry.
pub proof fn lemma_read_line_of_typed_text(m: LineModel, typed: Seq<LineEvent>)
    requires
        line_wf(m),
        !m.menu.active,
        m.buf.len() == 0,
        printable_only(typed),
    ensures
        session(m, typed.push(LineEvent::Enter)).committed == Some(chars_of(typed)),
        session(m, typed.push(LineEvent::Enter)).state.hist =~= seq![chars_of(typed)] + m.hist,
{
    lemma_typing_then_enter_commits(m, typed);
    assert(m.buf + chars_of(typed) =~= chars_of(typed));
    assert(session(m, typed.push(LineEvent::Enter)).state.hist =~= seq![chars_of(typed)]
        + m.hist);
}

/// A repaint never produces a prompt row below 0, never moves the
/// prompt down, and after scrolling the menu fits: whenever the menu
/// needs no more rows than the screen has, the rows below the repainted
/// prompt suffice for it.
pub proof fn lemma_menu_fits_after_scroll(p: PainterModel, m: MenuModel)
    requires
        painter_wf(p),
        required_lines(m) <= p.rows,
    ensures
        0 <= painted_prompt_line(p, m) <= p.prompt_line,
        p.rows - painted_prompt_line(p, m) >= required_lines(m),
{
}

/// Tab with two or more candidates activates the menu, fills it with
/// the candidates in completer order — never more than `MENU_CAPACITY`
/// of them — and selects the first; the buffer and cursor stay as they
/// were.
pub proof fn lemma_tab_many_candidates(m: LineModel)
    requires
        line_wf(m),
        !m.menu.active,
        tab_candidates(m).len() >= 2,
    ensures
        step(m, LineEvent::Tab).menu.active,
        step(m, LineEvent::Tab).menu.items == tab_candidates(m),
        step(m, LineEvent::Tab).menu.sel == 0,
        tab_candidates(m).len() <= MENU_CAPACITY,
        step(m, LineEvent::Tab).buf == m.buf,
        step(m, LineEvent::Tab).ind == m.ind,
{
}

} // verus!


