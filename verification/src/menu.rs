//! The completion menu: an active/inactive flag, an ordered candidate
//! list, and a selection cursor.
//!
//! Policy choices that the menu commits to: the selection cursor clamps
//! at the list boundaries (`next` on the last item and `previous` on the
//! first are no-ops, no wraparound), and the list never holds more than
//! `MENU_CAPACITY` items.

use vstd::prelude::*;

verus! {

/// Largest number of candidates the menu will hold.
pub const MENU_CAPACITY: usize = 10;

/// Abstract state of the menu: what a `DefaultMenu` value means.
pub ghost struct MenuModel {
    /// Whether the menu is currently shown and intercepting navigation keys.
    pub active: bool,
    /// The ordered candidate list.
    pub items: Seq<Seq<char>>,
    /// The selection cursor; meaningful only while `items` is non-empty.
    pub sel: int,
}

/// A selection menu for completion browsing.
pub struct DefaultMenu {
    active: bool,
    items: Vec<Vec<char>>,
    sel: usize,
}

impl View for DefaultMenu {
    type V = MenuModel;

    closed spec fn view(&self) -> MenuModel {
        MenuModel {
            active: self.active,
            items: self.items.deep_view(),
            sel: self.sel as int,
        }
    }
}

/// Well-formedness of a menu model: the list is within capacity and the
/// selection cursor points at an item (at 0 when the list is empty).
pub open spec fn menu_wf(m: MenuModel) -> bool {
    &&& m.items.len() <= MENU_CAPACITY
    &&& if m.items.len() == 0 {
            m.sel == 0
        } else {
            0 <= m.sel < m.items.len()
        }
}

impl DefaultMenu {
    /// A fresh menu: inactive, empty list, selection at the start.
    pub fn new() -> (r: Self)
        ensures
            r@.active == false,
            r@.items =~= Seq::<Seq<char>>::empty(),
            r@.sel == 0,
            menu_wf(r@),
    {
        DefaultMenu { active: false, items: Vec::new(), sel: 0 }
    }

    /// Replace the candidate list and reset the selection cursor to the
    /// first item; the active flag is untouched.
    pub fn set_items(&mut self, items: Vec<Vec<char>>)
        requires
            items@.len() <= MENU_CAPACITY,
        ensures
            final(self)@.items == items.deep_view(),
            final(self)@.sel == 0,
            final(self)@.active == old(self)@.active,
            menu_wf(final(self)@),
    {
        self.items = items;
        self.sel = 0;
    }

    /// Make the menu visible; the list and selection are untouched.
    pub fn activate(&mut self)
        ensures
            final(self)@.active == true,
            final(self)@.items == old(self)@.items,
            final(self)@.sel == old(self)@.sel,
    {
        self.active = true;
    }

    /// Hide the menu; the list and selection are preserved, not cleared.
    pub fn deactivate(&mut self)
        ensures
            final(self)@.active == false,
            final(self)@.items == old(self)@.items,
            final(self)@.sel == old(self)@.sel,
    {
        self.active = false;
    }

    /// Whether the menu is currently shown.
    pub fn is_active(&self) -> (r: bool)
        ensures
            r == self@.active,
    {
        self.active
    }

    /// Move the selection cursor to the next item, clamping at the end of
    /// the list (no wraparound).
    pub fn next(&mut self)
        requires
            menu_wf(old(self)@),
        ensures
            final(self)@.active == old(self)@.active,
            final(self)@.items == old(self)@.items,
            final(self)@.sel == if old(self)@.sel + 1 < old(self)@.items.len() {
                old(self)@.sel + 1
            } else {
                old(self)@.sel
            },
            menu_wf(final(self)@),
    {
        if self.items.len() > 0 && self.sel + 1 < self.items.len() {
            self.sel = self.sel + 1;
        }
    }

    /// Move the selection cursor to the previous item, clamping at the
    /// start of the list (no wraparound).
    pub fn previous(&mut self)
        requires
            menu_wf(old(self)@),
        ensures
            final(self)@.active == old(self)@.active,
            final(self)@.items == old(self)@.items,
            final(self)@.sel == if old(self)@.sel > 0 {
                old(self)@.sel - 1
            } else {
                0int
            },
            menu_wf(final(self)@),
    {
        if self.sel > 0 {
            self.sel = self.sel - 1;
        }
    }

    /// The item under the selection cursor, or nothing if the list is empty.
    pub fn accept(&self) -> (r: Option<Vec<char>>)
        requires
            menu_wf(self@),
        ensures
            self@.items.len() == 0 ==> r is None,
            self@.items.len() > 0 ==> {
                &&& r is Some
                &&& r->Some_0@ == self@.items[self@.sel]
            },
    {
        if self.items.len() == 0 {
            None
        } else {
            let copy = crate::chars::copy_chars(&self.items[self.sel]);
            proof {
                assert(self.items.deep_view()[self.sel as int] == self.items@[self.sel as int]@);
            }
            Some(copy)
        }
    }

    /// The candidate list, in order.
    pub fn items(&self) -> (r: &Vec<Vec<char>>)
        ensures
            r.deep_view() == self@.items,
    {
        &self.items
    }

    /// The selection cursor index.
    pub fn cursor(&self) -> (r: usize)
        ensures
            r == self@.sel,
    {
        self.sel
    }

    /// The number of items in the list.
    pub fn len(&self) -> (r: usize)
        ensures
            r == self@.items.len(),
    {
        self.items.len()
    }
}

} // verus!
