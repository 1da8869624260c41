//! A pager: a list of pages, one of which is the current one.

use crate::text::{decimal, decimal_string};
use vstd::prelude::*;
use vstd::string::*;

verus! {

/// Pages of type `P` and the index of the current one, with what is to be
/// done on a click on either button of the pager. The index may lie behind
/// the last page: then there is no current page.
pub struct PopoverPage<P, F, G> {
    pages: Vec<P>,
    current: usize,
    on_click_previous: F,
    on_click_next: G,
}

/// What a pager shows.
pub enum PageLayout<P, F, G> {
    /// Nothing: there is no current page.
    Empty,
    /// The only page, without buttons.
    Single { page: P },
    /// The current page of several, beside the two buttons and the position
    /// of the page among them, such as `2 / 3`.
    Paged {
        page: P,
        position: String,
        previous_disabled: bool,
        next_disabled: bool,
        on_click_previous: F,
        on_click_next: G,
    },
}

/// The position of the page at index `current` among `count` pages, as the
/// pager writes it: counted from one, a slash, and the number of pages.
pub open spec fn position_label(current: nat, count: nat) -> Seq<char> {
    decimal(current + 1) + " / "@ + decimal(count)
}

impl<P, F, G> PopoverPage<P, F, G> {
    /// The pages, in order.
    pub closed spec fn pages(&self) -> Seq<P> {
        self.pages@
    }

    /// The index of the current page.
    pub closed spec fn current(&self) -> nat {
        self.current as nat
    }

    /// What a click on the button for the previous page does.
    pub closed spec fn on_click_previous(&self) -> F {
        self.on_click_previous
    }

    /// What a click on the button for the next page does.
    pub closed spec fn on_click_next(&self) -> G {
        self.on_click_next
    }

    pub fn new(pages: Vec<P>, current: usize, on_click_previous: F, on_click_next: G) -> (pager:
        Self)
        ensures
            pager.pages() == pages@,
            pager.current() == current,
            pager.on_click_previous() == on_click_previous,
            pager.on_click_next() == on_click_next,
    {
        Self { pages, current, on_click_previous, on_click_next }
    }

    /// Whether a page follows the current one.
    pub fn has_next_page(&self) -> (has: bool)
        ensures
            has == (self.current() + 1 < self.pages().len()),
    {
        self.current < self.pages.len() && self.current + 1 < self.pages.len()
    }

    /// Whether a page stands before the current one.
    pub fn has_previous_page(&self) -> (has: bool)
        ensures
            has == (self.current() > 0),
    {
        self.current > 0
    }

    /// Adds a page behind the last one.
    pub fn add_page(&mut self, page: P)
        ensures
            final(self).pages() == old(self).pages().push(page),
            final(self).current() == old(self).current(),
            final(self).on_click_previous() == old(self).on_click_previous(),
            final(self).on_click_next() == old(self).on_click_next(),
    {
        self.pages.push(page);
    }

    /// Goes to the next page, if there is one, and says whether it did.
    pub fn next_page(&mut self) -> (moved: bool)
        ensures
            moved == (old(self).current() + 1 < old(self).pages().len()),
            final(self).current() == if moved {
                old(self).current() + 1
            } else {
                old(self).current()
            },
            final(self).pages() == old(self).pages(),
            final(self).on_click_previous() == old(self).on_click_previous(),
            final(self).on_click_next() == old(self).on_click_next(),
    {
        if self.has_next_page() {
            assert(self.current + 1 < self.pages.len());
            self.current += 1;
            true
        } else {
            false
        }
    }

    /// Goes to the previous page, if there is one, and says whether it did.
    pub fn previous_page(&mut self) -> (moved: bool)
        ensures
            moved == (old(self).current() > 0),
            final(self).current() == if moved {
                old(self).current() - 1
            } else {
                old(self).current() as int
            },
            final(self).pages() == old(self).pages(),
            final(self).on_click_previous() == old(self).on_click_previous(),
            final(self).on_click_next() == old(self).on_click_next(),
    {
        if self.has_previous_page() {
            self.current -= 1;
            true
        } else {
            false
        }
    }

    /// Lays the pager out. Without a current page it shows nothing. A pager
    /// of one page shows that page alone. A pager of several pages shows the
    /// current page and, beside it, its position and the two buttons; the
    /// button that leads nowhere is disabled.
    pub fn render(self) -> (layout: PageLayout<P, F, G>)
        ensures
            match layout {
                PageLayout::Empty => self.current() >= self.pages().len(),
                PageLayout::Single { page } => {
                    &&& self.pages().len() == 1
                    &&& self.current() == 0
                    &&& page == self.pages()[0]
                },
                PageLayout::Paged {
                    page,
                    position,
                    previous_disabled,
                    next_disabled,
                    on_click_previous,
                    on_click_next,
                } => {
                    &&& self.pages().len() > 1
                    &&& self.current() < self.pages().len()
                    &&& page == self.pages()[self.current() as int]
                    &&& position@ == position_label(self.current(), self.pages().len())
                    &&& previous_disabled == (self.current() == 0)
                    &&& next_disabled == (self.current() + 1 == self.pages().len())
                    &&& on_click_previous == self.on_click_previous()
                    &&& on_click_next == self.on_click_next()
                },
            },
    {
        let mut popover_page = self;
        let previous_disabled = !popover_page.has_previous_page();
        let next_disabled = !popover_page.has_next_page();
        let length = popover_page.pages.len();
        if popover_page.current >= length {
            return PageLayout::Empty;
        }
        let page = popover_page.pages.remove(popover_page.current);
        if length > 1 {
            let mut position = decimal_string(popover_page.current + 1);
            position.append(" / ");
            position.append(decimal_string(length).as_str());
            PageLayout::Paged {
                page,
                position,
                previous_disabled,
                next_disabled,
                on_click_previous: popover_page.on_click_previous,
                on_click_next: popover_page.on_click_next,
            }
        } else {
            PageLayout::Single { page }
        }
    }
}

} // verus!
