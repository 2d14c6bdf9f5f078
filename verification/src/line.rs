//! The line editor: an editable command buffer with cursor, history
//! recall, and a completion menu, driven one key event at a time.
//!
//! The editor itself performs no terminal work. A driver owns the blocking
//! poll loop: it decodes each key press into a [`LineEvent`], hands it to
//! [`Line::handle_event`], repaints, and on [`LineStep::Commit`] calls
//! [`Line::commit`]. [`Line::read_line`] plays a whole sequence of events
//! through that discipline and returns the committed text.
//!
//! The meaning of every operation is fixed by the spec-level state machine
//! ([`LineModel`], [`step`], [`session`]); each executable method is proved
//! to follow it.

use vstd::prelude::*;
use crate::chars::{copy_chars, copy_range};
use crate::completion::{completions_of, CompletionCtx, DefaultCompleter};
use crate::cursor::{CursorShape, DefaultCursor};
use crate::history::DefaultHistory;
use crate::menu::{menu_wf, DefaultMenu, MenuModel, MENU_CAPACITY};

verus! {

/// A key event the editor reacts to. Anything else the terminal can
/// produce is ignored before it reaches the editor.
#[derive(Clone, Copy, PartialEq, Eq, Structural, Debug)]
pub enum LineEvent {
    Enter,
    Escape,
    Tab,
    BackTab,
    ArrowUp,
    ArrowDown,
    ArrowLeft,
    ArrowRight,
    Backspace,
    Printable(char),
}

/// What the driver must do after an event was handled: keep polling (and
/// repaint), or commit the line and stop.
#[derive(Clone, Copy, PartialEq, Eq, Structural, Debug)]
pub enum LineStep {
    Continue,
    Commit,
}

/// Abstract state of the whole editor.
#[verifier::ext_equal]
pub ghost struct LineModel {
    /// The in-progress command text, one Unicode scalar value per element.
    pub buf: Seq<char>,
    /// The insertion point, a scalar-value offset into `buf`.
    pub ind: int,
    /// The word most recently handed to the completer; stale between
    /// completion requests.
    pub word: Seq<char>,
    /// Committed lines, most recent first.
    pub hist: Seq<Seq<char>>,
    /// The history browsing position; `None` while not browsing.
    pub hist_ind: Option<int>,
    /// The completion menu.
    pub menu: MenuModel,
    /// The completer's word list.
    pub dict: Seq<Seq<char>>,
    /// The configured cursor glyph.
    pub shape: CursorShape,
}

/// Well-formedness of an editor state: the cursor stays inside the
/// buffer, the menu is well formed, and a history browsing position
/// points at an entry.
pub open spec fn line_wf(m: LineModel) -> bool {
    &&& 0 <= m.ind <= m.buf.len()
    &&& menu_wf(m.menu)
    &&& m.hist_ind matches Some(i) ==> 0 <= i < m.hist.len()
}

/// Where the whitespace-delimited word that ends `s` begins: one past
/// the last space, or 0 when there is no space.
pub open spec fn word_start(s: Seq<char>) -> int
    decreases s.len(),
{
    if s.len() == 0 {
        0
    } else if s.last() == ' ' {
        s.len() as int
    } else {
        word_start(s.drop_last())
    }
}

/// The word start lies inside `s`.
pub proof fn lemma_word_start_bounds(s: Seq<char>)
    ensures
        0 <= word_start(s) <= s.len(),
    decreases s.len(),
{
    if s.len() == 0 {
    } else if s.last() == ' ' {
    } else {
        lemma_word_start_bounds(s.drop_last());
    }
}

/// The whitespace-delimited word that ends `s`: the current word when
/// `s` is the buffer up to the cursor.
pub open spec fn current_word_of(s: Seq<char>) -> Seq<char> {
    s.subrange(word_start(s), s.len() as int)
}

/// How many spaces `s` holds; splitting on every single space yields one
/// more token than this.
pub open spec fn space_count(s: Seq<char>) -> int
    decreases s.len(),
{
    if s.len() == 0 {
        0
    } else {
        space_count(s.drop_last()) + if s.last() == ' ' { 1int } else { 0int }
    }
}

/// The first `n` elements of `s`, or all of `s` when it is shorter.
pub open spec fn take_at_most(s: Seq<Seq<char>>, n: int) -> Seq<Seq<char>> {
    if s.len() <= n {
        s
    } else {
        s.subrange(0, n)
    }
}

/// Splicing `accepted` into the buffer: the trailing `word` characters
/// ending at the cursor are removed (clamped so the removal never runs
/// past the start), `accepted` takes their place, and the cursor lands
/// immediately after it.
pub open spec fn splice_model(m: LineModel, accepted: Seq<char>) -> LineModel {
    let w = if m.word.len() <= m.ind {
        m.word.len() as int
    } else {
        m.ind
    };
    let start = m.ind - w;
    LineModel {
        buf: m.buf.subrange(0, start) + accepted + m.buf.subrange(m.ind, m.buf.len() as int),
        ind: start + accepted.len(),
        ..m
    }
}

/// The candidates a completion request yields: the completer's matches
/// for the word under the cursor, capped at the menu capacity.
pub open spec fn tab_candidates(m: LineModel) -> Seq<Seq<char>> {
    take_at_most(
        completions_of(m.dict, current_word_of(m.buf.subrange(0, m.ind))),
        MENU_CAPACITY as int,
    )
}

/// A completion request: recompute the current word; with exactly one
/// candidate splice it in directly, with two or more show the menu, and
/// with none change nothing further (the menu is not activated for an
/// empty candidate list).
pub open spec fn complete_step(m: LineModel) -> LineModel {
    let m1 = LineModel { word: current_word_of(m.buf.subrange(0, m.ind)), ..m };
    let cands = tab_candidates(m);
    if cands.len() == 1 {
        splice_model(m1, cands[0])
    } else if cands.len() >= 2 {
        LineModel { menu: MenuModel { active: true, items: cands, sel: 0 }, ..m1 }
    } else {
        m1
    }
}

/// The history index an Up press moves to: one step toward older
/// entries, clamped at the oldest. Meaningful only when history is
/// non-empty.
pub open spec fn history_up_index(m: LineModel) -> int {
    match m.hist_ind {
        None => 0,
        Some(i) => if i + 1 < m.hist.len() {
            i + 1
        } else {
            m.hist.len() - 1
        },
    }
}

/// The history index a Down press moves to: one step toward the most
/// recent entry, clamped at index 0.
pub open spec fn history_down_index(m: LineModel) -> int {
    match m.hist_ind {
        None => 0,
        Some(i) => if i > 0 {
            i - 1
        } else {
            0
        },
    }
}

/// Recalling entry `i`: the buffer is replaced wholesale and the cursor
/// moves to its end.
pub open spec fn history_recall(m: LineModel, i: int) -> LineModel {
    LineModel { buf: m.hist[i], ind: m.hist[i].len() as int, hist_ind: Some(i), ..m }
}

/// One event while the menu is inactive (ordinary editing).
pub open spec fn edit_step(m: LineModel, ev: LineEvent) -> LineModel {
    match ev {
        LineEvent::Enter => m,
        LineEvent::Tab => complete_step(m),
        LineEvent::ArrowLeft => LineModel {
            ind: if m.ind > 0 { m.ind - 1 } else { 0 },
            ..m
        },
        LineEvent::ArrowRight => LineModel {
            ind: if m.ind < m.buf.len() { m.ind + 1 } else { m.ind },
            ..m
        },
        LineEvent::Backspace => if m.buf.len() > 0 {
            let i = if m.ind > 0 { m.ind - 1 } else { 0 };
            LineModel { buf: m.buf.remove(i), ind: i, ..m }
        } else {
            m
        },
        LineEvent::ArrowUp => if m.hist.len() == 0 {
            m
        } else {
            history_recall(m, history_up_index(m))
        },
        LineEvent::ArrowDown => if m.hist.len() == 0 {
            m
        } else {
            history_recall(m, history_down_index(m))
        },
        LineEvent::Printable(c) => LineModel {
            buf: m.buf.insert(m.ind, c),
            ind: m.ind + 1,
            ..m
        },
        _ => m,
    }
}

/// One event while the menu is active (completion browsing): Enter
/// accepts the selected candidate, Escape hides the menu, Tab/Down and
/// Shift-Tab/Up move the selection, everything else is ignored.
pub open spec fn menu_step(m: LineModel, ev: LineEvent) -> LineModel {
    match ev {
        LineEvent::Enter => if m.menu.items.len() > 0 {
            splice_model(m, m.menu.items[m.menu.sel])
        } else {
            m
        },
        LineEvent::Escape => LineModel { menu: MenuModel { active: false, ..m.menu }, ..m },
        LineEvent::BackTab | LineEvent::ArrowUp => LineModel {
            menu: MenuModel {
                sel: if m.menu.sel > 0 { m.menu.sel - 1 } else { 0 },
                ..m.menu
            },
            ..m
        },
        LineEvent::Tab | LineEvent::ArrowDown => LineModel {
            menu: MenuModel {
                sel: if m.menu.sel + 1 < m.menu.items.len() { m.menu.sel + 1 } else { m.menu.sel },
                ..m.menu
            },
            ..m
        },
        _ => m,
    }
}

/// One event, whichever dispatch table applies.
pub open spec fn step(m: LineModel, ev: LineEvent) -> LineModel {
    if m.menu.active {
        menu_step(m, ev)
    } else {
        edit_step(m, ev)
    }
}

/// Whether `ev` ends the session: Enter pressed while the menu is
/// inactive.
pub open spec fn commits(m: LineModel, ev: LineEvent) -> bool {
    !m.menu.active && ev is Enter
}

/// Committing: the buffer becomes the most recent history entry; the
/// editing state is otherwise untouched.
pub open spec fn commit_model(m: LineModel) -> LineModel {
    LineModel { hist: seq![m.buf] + m.hist, ..m }
}

/// A sequence of events, none of which commits.
pub open spec fn run(m: LineModel, evs: Seq<LineEvent>) -> LineModel
    decreases evs.len(),
{
    if evs.len() == 0 {
        m
    } else {
        run(step(m, evs[0]), evs.drop_first())
    }
}

/// The outcome of playing a sequence of events: the final editor state
/// and, if Enter was reached with the menu inactive, the committed text.
#[verifier::ext_equal]
pub ghost struct SessionOut {
    pub state: LineModel,
    pub committed: Option<Seq<char>>,
}

/// Playing events in order until one commits; events after the
/// committing Enter are not consumed.
pub open spec fn session(m: LineModel, evs: Seq<LineEvent>) -> SessionOut
    decreases evs.len(),
{
    if evs.len() == 0 {
        SessionOut { state: m, committed: None }
    } else if commits(m, evs[0]) {
        SessionOut { state: commit_model(m), committed: Some(m.buf) }
    } else {
        session(step(m, evs[0]), evs.drop_first())
    }
}

/// The state a `read_line` call starts from: empty buffer, cursor at 0,
/// no stale word, not browsing history, fresh inactive menu; the
/// completer, history and cursor shape carry over.
pub open spec fn fresh_model(m: LineModel) -> LineModel {
    LineModel {
        buf: Seq::empty(),
        ind: 0,
        word: Seq::empty(),
        hist_ind: None,
        menu: MenuModel { active: false, items: Seq::empty(), sel: 0 },
        ..m
    }
}

/// Every step preserves well-formedness; in particular the cursor can
/// never leave `[0, buf.len()]` and a history browsing position can
/// never leave `[0, hist.len() - 1]`.
pub proof fn lemma_step_wf(m: LineModel, ev: LineEvent)
    requires
        line_wf(m),
    ensures
        line_wf(step(m, ev)),
{
    if m.menu.active {
        match ev {
            LineEvent::Enter => {
                if m.menu.items.len() > 0 {
                }
            },
            _ => {},
        }
    } else {
        match ev {
            LineEvent::Tab => {
                lemma_word_start_bounds(m.buf.subrange(0, m.ind));
            },
            _ => {},
        }
    }
}

/// Where the word under the cursor begins in `buf`, scanning left from
/// `ind` to the nearest space.
fn compute_word_start(buf: &Vec<char>, ind: usize) -> (r: usize)
    requires
        ind <= buf@.len(),
    ensures
        r == word_start(buf@.subrange(0, ind as int)),
        r <= ind,
{
    let mut j: usize = ind;
    while j > 0 && buf[j - 1] != ' '
        invariant
            j <= ind <= buf@.len(),
            word_start(buf@.subrange(0, ind as int)) == word_start(buf@.subrange(0, j as int)),
        decreases j,
    {
        proof {
            let s = buf@.subrange(0, j as int);
            assert(s.last() == buf@[j - 1]);
            assert(s.drop_last() =~= buf@.subrange(0, j - 1));
        }
        j = j - 1;
    }
    proof {
        if j > 0 {
            let s = buf@.subrange(0, j as int);
            assert(s.last() == buf@[j - 1]);
        }
    }
    j
}

/// How many spaces `buf` holds before `ind`.
fn count_spaces(buf: &Vec<char>, ind: usize) -> (r: usize)
    requires
        ind <= buf@.len(),
    ensures
        r == space_count(buf@.subrange(0, ind as int)),
        r <= ind,
{
    let mut c: usize = 0;
    let mut i: usize = 0;
    while i < ind
        invariant
            i <= ind <= buf@.len(),
            c <= i,
            c == space_count(buf@.subrange(0, i as int)),
        decreases ind - i,
    {
        proof {
            let s = buf@.subrange(0, i + 1);
            assert(s.last() == buf@[i as int]);
            assert(s.drop_last() =~= buf@.subrange(0, i as int));
        }
        if buf[i] == ' ' {
            c = c + 1;
        }
        i = i + 1;
    }
    c
}

/// The line editor: owns the edit buffer, cursor, menu, history and the
/// completer and cursor-shape capabilities.
pub struct Line {
    menu: DefaultMenu,
    completer: DefaultCompleter,
    history: DefaultHistory,
    cursor: DefaultCursor,
    buf: Vec<char>,
    ind: usize,
    current_word: Vec<char>,
    history_ind: Option<usize>,
}

impl View for Line {
    type V = LineModel;

    closed spec fn view(&self) -> LineModel {
        LineModel {
            buf: self.buf@,
            ind: self.ind as int,
            word: self.current_word@,
            hist: self.history@,
            hist_ind: match self.history_ind {
                Some(i) => Some(i as int),
                None => None,
            },
            menu: self.menu@,
            dict: self.completer@,
            shape: self.cursor.style(),
        }
    }
}

impl Line {
    /// The current buffer contents.
    pub fn buffer(&self) -> (r: &Vec<char>)
        ensures
            r@ == self@.buf,
    {
        &self.buf
    }

    /// The cursor index into the buffer.
    pub fn cursor_index(&self) -> (r: usize)
        ensures
            r == self@.ind,
    {
        self.ind
    }

    /// The completion menu, for painting.
    pub fn menu(&self) -> (r: &DefaultMenu)
        ensures
            r@ == self@.menu,
    {
        &self.menu
    }

    /// The configured cursor glyph, for painting.
    pub fn cursor_shape(&self) -> (r: CursorShape)
        ensures
            r == self@.shape,
    {
        self.cursor.get_cursor()
    }

    /// Replace the word at the cursor with an accepted completion
    /// candidate: the trailing `word` characters ending at the cursor
    /// are removed (never running past the start of the buffer),
    /// `accepted` is inserted in their place, and the cursor ends up
    /// immediately after the inserted text. The rest of the buffer is
    /// untouched.
    pub fn accept_completion(&mut self, accepted: &Vec<char>)
        requires
            line_wf(old(self)@),
        ensures
            final(self)@ == splice_model(old(self)@, accepted@),
            line_wf(final(self)@),
    {
        let w = if self.current_word.len() <= self.ind {
            self.current_word.len()
        } else {
            self.ind
        };
        let start = self.ind - w;
        let mut nb = copy_range(&self.buf, 0, start);
        let mut i: usize = 0;
        while i < accepted.len()
            invariant
                i <= accepted@.len(),
                nb@ == old(self).buf@.subrange(0, start as int) + accepted@.subrange(0, i as int),
            decreases accepted@.len() - i,
        {
            nb.push(accepted[i]);
            proof {
                assert(nb@ =~= old(self).buf@.subrange(0, start as int)
                    + accepted@.subrange(0, i + 1));
            }
            i = i + 1;
        }
        let new_ind = nb.len();
        let mut k: usize = self.ind;
        while k < self.buf.len()
            invariant
                old(self).ind <= k <= old(self).buf@.len(),
                self.buf@ == old(self).buf@,
                self.ind == old(self).ind,
                self.current_word@ == old(self).current_word@,
                nb@ == old(self).buf@.subrange(0, start as int)
                    + accepted@.subrange(0, accepted@.len() as int)
                    + old(self).buf@.subrange(old(self).ind as int, k as int),
            decreases self.buf@.len() - k,
        {
            nb.push(self.buf[k]);
            proof {
                assert(nb@ =~= old(self).buf@.subrange(0, start as int)
                    + accepted@.subrange(0, accepted@.len() as int)
                    + old(self).buf@.subrange(old(self).ind as int, k + 1));
            }
            k = k + 1;
        }
        self.buf = nb;
        self.ind = new_ind;
        proof {
            assert(accepted@.subrange(0, accepted@.len() as int) =~= accepted@);
            assert(self@ =~= splice_model(old(self)@, accepted@));
        }
    }

    /// A completion request (the Tab key): recompute the word under the
    /// cursor, ask the completer, keep at most `MENU_CAPACITY`
    /// candidates; a single candidate is spliced in directly, two or
    /// more open the menu, none leaves everything but the recorded word
    /// unchanged.
    fn complete_request(&mut self)
        requires
            line_wf(old(self)@),
        ensures
            final(self)@ == complete_step(old(self)@),
            line_wf(final(self)@),
    {
        proof {
            lemma_word_start_bounds(old(self).buf@.subrange(0, old(self).ind as int));
        }
        let start = compute_word_start(&self.buf, self.ind);
        let word = copy_range(&self.buf, start, self.ind);
        self.current_word = word;
        proof {
            let pre = old(self).buf@.subrange(0, old(self).ind as int);
            assert(pre.subrange(word_start(pre), pre.len() as int)
                =~= old(self).buf@.subrange(start as int, old(self).ind as int));
            assert(self.current_word@ == current_word_of(pre));
        }
        let spaces = count_spaces(&self.buf, self.ind);
        let arg_num = if spaces < usize::MAX { spaces + 1 } else { spaces };
        let ctx = CompletionCtx { arg_num };
        let mut owned = self.completer.complete(&self.current_word, &ctx);
        let ghost cands = tab_candidates(old(self)@);
        proof {
            assert(cands =~= take_at_most(owned.deep_view(), MENU_CAPACITY as int));
        }
        while owned.len() > MENU_CAPACITY
            invariant
                cands =~= take_at_most(owned.deep_view(), MENU_CAPACITY as int),
            decreases owned@.len(),
        {
            let ghost before = owned.deep_view();
            owned.pop();
            proof {
                assert(owned.deep_view() =~= before.drop_last());
                assert(take_at_most(owned.deep_view(), MENU_CAPACITY as int)
                    =~= take_at_most(before, MENU_CAPACITY as int));
            }
        }
        if owned.len() == 1 {
            proof {
                assert(cands =~= owned.deep_view());
                assert(cands[0] == owned@[0]@);
            }
            let item = &owned[0];
            self.accept_completion(item);
            proof {
                assert(self@ =~= complete_step(old(self)@));
            }
        } else if owned.len() >= 2 {
            proof {
                assert(cands =~= owned.deep_view());
            }
            self.menu.set_items(owned);
            self.menu.activate();
            proof {
                assert(self@ =~= complete_step(old(self)@));
            }
        } else {
            proof {
                assert(cands.len() == 0);
                assert(self@ =~= complete_step(old(self)@));
            }
        }
    }

    /// Handle one key event according to the active dispatch table and
    /// say whether the driver should keep going or commit the line.
    pub fn handle_event(&mut self, ev: LineEvent) -> (r: LineStep)
        requires
            line_wf(old(self)@),
        ensures
            final(self)@ == step(old(self)@, ev),
            line_wf(final(self)@),
            r == (if commits(old(self)@, ev) { LineStep::Commit } else { LineStep::Continue }),
    {
        if self.menu.is_active() {
            match ev {
                LineEvent::Enter => {
                    let accepted = self.menu.accept();
                    match accepted {
                        Some(a) => {
                            self.accept_completion(&a);
                            proof {
                                assert(self@ =~= step(old(self)@, ev));
                            }
                        },
                        None => {
                            proof {
                                assert(self@ =~= step(old(self)@, ev));
                            }
                        },
                    }
                },
                LineEvent::Escape => {
                    self.menu.deactivate();
                    proof {
                        assert(self@ =~= step(old(self)@, ev));
                    }
                },
                LineEvent::BackTab | LineEvent::ArrowUp => {
                    self.menu.previous();
                    proof {
                        assert(self@ =~= step(old(self)@, ev));
                    }
                },
                LineEvent::Tab | LineEvent::ArrowDown => {
                    self.menu.next();
                    proof {
                        assert(self@ =~= step(old(self)@, ev));
                    }
                },
                _ => {
                    proof {
                        assert(self@ =~= step(old(self)@, ev));
                    }
                },
            }
            LineStep::Continue
        } else {
            match ev {
                LineEvent::Enter => {
                    proof {
                        assert(self@ =~= step(old(self)@, ev));
                    }
                    return LineStep::Commit;
                },
                LineEvent::Tab => {
                    self.complete_request();
                },
                LineEvent::ArrowLeft => {
                    if self.ind > 0 {
                        self.ind = self.ind - 1;
                    }
                    proof {
                        assert(self@ =~= step(old(self)@, ev));
                    }
                },
                LineEvent::ArrowRight => {
                    if self.ind < self.buf.len() {
                        self.ind = self.ind + 1;
                    }
                    proof {
                        assert(self@ =~= step(old(self)@, ev));
                    }
                },
                LineEvent::Backspace => {
                    if self.buf.len() > 0 {
                        if self.ind > 0 {
                            self.ind = self.ind - 1;
                        }
                        self.buf.remove(self.ind);
                    }
                    proof {
                        assert(self@ =~= step(old(self)@, ev));
                    }
                },
                LineEvent::ArrowUp => {
                    let hl = self.history.len();
                    if hl > 0 {
                        let cur = self.history_ind;
                        let ni: usize = match cur {
                            None => 0,
                            Some(i) => if i + 1 < hl {
                                i + 1
                            } else {
                                hl - 1
                            },
                        };
                        self.history_ind = Some(ni);
                        let item = self.history.get(ni);
                        match item {
                            Some(it) => {
                                self.buf = it;
                                self.ind = self.buf.len();
                            },
                            None => {
                                proof {
                                    assert(false);
                                }
                            },
                        }
                    }
                    proof {
                        assert(self@ =~= step(old(self)@, ev));
                    }
                },
                LineEvent::ArrowDown => {
                    let hl = self.history.len();
                    if hl > 0 {
                        let cur = self.history_ind;
                        let ni: usize = match cur {
                            None => 0,
                            Some(i) => if i > 0 {
                                i - 1
                            } else {
                                0
                            },
                        };
                        self.history_ind = Some(ni);
                        let item = self.history.get(ni);
                        match item {
                            Some(it) => {
                                self.buf = it;
                                self.ind = self.buf.len();
                            },
                            None => {
                                proof {
                                    assert(false);
                                }
                            },
                        }
                    }
                    proof {
                        assert(self@ =~= step(old(self)@, ev));
                    }
                },
                LineEvent::Printable(c) => {
                    self.buf.insert(self.ind, c);
                    let l = self.buf.len();
                    proof {
                        assert(self.ind < l);
                    }
                    self.ind = self.ind + 1;
                    proof {
                        assert(self@ =~= step(old(self)@, ev));
                    }
                },
                _ => {
                    proof {
                        assert(self@ =~= step(old(self)@, ev));
                    }
                },
            }
            LineStep::Continue
        }
    }

    /// Commit the current buffer: it becomes the most recent history
    /// entry and a copy of it is returned. The editing state is
    /// otherwise untouched.
    pub fn commit(&mut self) -> (r: Vec<char>)
        requires
            line_wf(old(self)@),
        ensures
            final(self)@ == commit_model(old(self)@),
            r@ == old(self)@.buf,
            line_wf(final(self)@),
    {
        let text = copy_chars(&self.buf);
        let stored = copy_chars(&self.buf);
        self.history.add(stored);
        proof {
            assert(self@ =~= commit_model(old(self)@));
        }
        text
    }

    /// Play a whole editing session: start fresh (empty buffer, cursor
    /// at 0, menu inactive, not browsing history) and feed the events in
    /// order. The first Enter pressed while the menu is inactive commits:
    /// the buffer at that point is appended to history and returned.
    /// With no such Enter among the events, nothing is committed.
    pub fn read_line(&mut self, events: &Vec<LineEvent>) -> (r: Option<Vec<char>>)
        requires
            line_wf(old(self)@),
        ensures
            final(self)@ == session(fresh_model(old(self)@), events@).state,
            (r is Some) == (session(fresh_model(old(self)@), events@).committed is Some),
            (r matches Some(v) ==> Some(v@) == session(fresh_model(old(self)@), events@).committed),
            line_wf(final(self)@),
    {
        self.buf = Vec::new();
        self.ind = 0;
        self.current_word = Vec::new();
        self.history_ind = None;
        self.menu = DefaultMenu::new();
        proof {
            assert(self@ =~= fresh_model(old(self)@));
        }
        let ghost m0 = self@;
        proof {
            assert(events@.subrange(0, events@.len() as int) =~= events@);
        }
        let mut i: usize = 0;
        while i < events.len()
            invariant
                i <= events@.len(),
                line_wf(self@),
                m0 == fresh_model(old(self)@),
                session(m0, events@) == session(
                    self@,
                    events@.subrange(i as int, events@.len() as int),
                ),
            decreases events@.len() - i,
        {
            let ev = events[i];
            let ghost pre = self@;
            let ghost rest = events@.subrange(i as int, events@.len() as int);
            proof {
                assert(rest[0] == ev);
                assert(rest.drop_first() =~= events@.subrange(i + 1, events@.len() as int));
            }
            let stepr = self.handle_event(ev);
            match stepr {
                LineStep::Commit => {
                    proof {
                        assert(self@ == pre);
                        assert(commits(pre, ev));
                    }
                    let text = self.commit();
                    proof {
                        assert(session(pre, rest) =~= (SessionOut {
                            state: commit_model(pre),
                            committed: Some(pre.buf),
                        }));
                    }
                    return Some(text);
                },
                LineStep::Continue => {
                    proof {
                        assert(!commits(pre, ev));
                        assert(session(pre, rest) == session(step(pre, ev), rest.drop_first()));
                    }
                },
            }
            i = i + 1;
        }
        proof {
            assert(events@.subrange(events@.len() as int, events@.len() as int)
                =~= Seq::<LineEvent>::empty());
        }
        None
    }
}

/// Abstract state of a builder: the components the built editor will
/// start with.
#[verifier::ext_equal]
pub ghost struct BuilderModel {
    pub menu: MenuModel,
    pub dict: Seq<Seq<char>>,
    pub hist: Seq<Seq<char>>,
    pub shape: CursorShape,
}

/// Assembles a [`Line`], component by component; anything not supplied
/// keeps its default.
pub struct LineBuilder {
    menu: DefaultMenu,
    completer: DefaultCompleter,
    history: DefaultHistory,
    cursor: DefaultCursor,
}

impl View for LineBuilder {
    type V = BuilderModel;

    closed spec fn view(&self) -> BuilderModel {
        BuilderModel {
            menu: self.menu@,
            dict: self.completer@,
            hist: self.history@,
            shape: self.cursor.style(),
        }
    }
}

impl Default for LineBuilder {
    /// All components at their defaults: a fresh inactive menu, an empty
    /// completer word list, empty history, and the default cursor glyph.
    fn default() -> (r: Self)
        ensures
            r@.menu.active == false,
            r@.menu.items =~= Seq::<Seq<char>>::empty(),
            r@.menu.sel == 0,
            menu_wf(r@.menu),
            r@.dict =~= Seq::<Seq<char>>::empty(),
            r@.hist =~= Seq::<Seq<char>>::empty(),
            r@.shape == CursorShape::Line,
    {
        LineBuilder {
            menu: DefaultMenu::new(),
            completer: DefaultCompleter::new(Vec::new()),
            history: DefaultHistory::new(),
            cursor: DefaultCursor::default(),
        }
    }
}

impl LineBuilder {
    /// Use this menu.
    pub fn with_menu(self, menu: DefaultMenu) -> (r: Self)
        ensures
            r@ == (BuilderModel { menu: menu@, ..self@ }),
    {
        let mut this = self;
        this.menu = menu;
        proof {
            assert(this@ =~= (BuilderModel { menu: menu@, ..self@ }));
        }
        this
    }

    /// Use this completer.
    pub fn with_completer(self, completer: DefaultCompleter) -> (r: Self)
        ensures
            r@ == (BuilderModel { dict: completer@, ..self@ }),
    {
        let mut this = self;
        this.completer = completer;
        proof {
            assert(this@ =~= (BuilderModel { dict: completer@, ..self@ }));
        }
        this
    }

    /// Use this history.
    pub fn with_history(self, history: DefaultHistory) -> (r: Self)
        ensures
            r@ == (BuilderModel { hist: history@, ..self@ }),
    {
        let mut this = self;
        this.history = history;
        proof {
            assert(this@ =~= (BuilderModel { hist: history@, ..self@ }));
        }
        this
    }

    /// Use this cursor capability.
    pub fn with_cursor(self, cursor: DefaultCursor) -> (r: Self)
        ensures
            r@ == (BuilderModel { shape: cursor.style(), ..self@ }),
    {
        let mut this = self;
        this.cursor = cursor;
        proof {
            assert(this@ =~= (BuilderModel { shape: cursor.style(), ..self@ }));
        }
        this
    }

    /// The assembled editor: empty buffer, cursor at 0, menu as
    /// supplied, not browsing history.
    pub fn build(self) -> (r: Line)
        requires
            menu_wf(self@.menu),
        ensures
            r@ == (LineModel {
                buf: Seq::<char>::empty(),
                ind: 0,
                word: Seq::<char>::empty(),
                hist: self@.hist,
                hist_ind: None,
                menu: self@.menu,
                dict: self@.dict,
                shape: self@.shape,
            }),
            line_wf(r@),
    {
        let r = Line {
            menu: self.menu,
            completer: self.completer,
            history: self.history,
            cursor: self.cursor,
            buf: Vec::new(),
            ind: 0,
            current_word: Vec::new(),
            history_ind: None,
        };
        proof {
            assert(r@ =~= (LineModel {
                buf: Seq::<char>::empty(),
                ind: 0,
                word: Seq::<char>::empty(),
                hist: self@.hist,
                hist_ind: None,
                menu: self@.menu,
                dict: self@.dict,
                shape: self@.shape,
            }));
        }
        r
    }
}

impl Default for Line {
    /// An editor with every component at its default.
    fn default() -> (r: Self)
        ensures
            r@.buf =~= Seq::<char>::empty(),
            r@.ind == 0,
            r@.hist =~= Seq::<Seq<char>>::empty(),
            r@.hist_ind is None,
            r@.menu.active == false,
            r@.dict =~= Seq::<Seq<char>>::empty(),
            line_wf(r@),
    {
        LineBuilder::default().build()
    }
}

} // verus!
