//! The popover that shows formatted signatures, one page for each.

use crate::formatter::HighlightKind;
use crate::popover_page::{position_label, PageLayout, PopoverPage};
use std::ops::Range;
use vstd::prelude::*;
use vstd::std_specs::cmp::PartialEqSpecImpl;

verus! {

/// A text that is ready for display, with the ranges of bytes to highlight.
#[derive(Clone, Debug)]
pub struct ParsedMarkdown {
    pub text: String,
    pub highlights: Vec<(Range<usize>, HighlightKind)>,
}

/// One page of the popover: a signature and, where the active parameter is
/// documented, that documentation.
#[derive(Clone, Debug)]
pub struct SignatureHelpMarkdown {
    pub signature: ParsedMarkdown,
    pub signature_description: Option<ParsedMarkdown>,
}

/// A part of a page, from top to bottom.
#[derive(Debug)]
pub enum PopoverSection<'a> {
    Signature(&'a ParsedMarkdown),
    Border,
    Description(&'a ParsedMarkdown),
}

/// The pages of the popover and the index of the one to show.
#[derive(Debug, Default, PartialEq)]
pub struct SignatureHelpPopover {
    pub signature_help_markdowns: Vec<SignatureHelpMarkdown>,
    pub active_signature: usize,
}

/// Whether two descriptions read the same: both absent, or both present
/// with the same text.
pub open spec fn same_description(a: Option<ParsedMarkdown>, b: Option<ParsedMarkdown>) -> bool {
    match (a, b) {
        (Some(a), Some(b)) => a.text@ == b.text@,
        (None, None) => true,
        _ => false,
    }
}

fn same_highlights(
    a: &Vec<(Range<usize>, HighlightKind)>,
    b: &Vec<(Range<usize>, HighlightKind)>,
) -> (same: bool)
    ensures
        same == (a@ == b@),
{
    if a.len() != b.len() {
        return false;
    }
    let mut i: usize = 0;
    while i < a.len()
        invariant
            i <= a.len(),
            a.len() == b.len(),
            forall|k: int| 0 <= k < i ==> a@[k] == b@[k],
        decreases a.len() - i,
    {
        let same_range = a[i].0.start == b[i].0.start && a[i].0.end == b[i].0.end;
        if !same_range || a[i].1 != b[i].1 {
            assert(a@[i as int] != b@[i as int]);
            return false;
        }
        i += 1;
    }
    assert(a@ =~= b@);
    true
}

impl PartialEq for SignatureHelpMarkdown {
    /// Two pages are equal when their signatures have the same text and the
    /// same highlights and their descriptions read the same.
    fn eq(&self, other: &Self) -> (equal: bool) {
        let signature_str_equality = self.signature.text == other.signature.text;
        let signature_highlight_equality = same_highlights(
            &self.signature.highlights,
            &other.signature.highlights,
        );
        let signature_description_str_equality = match (
            &self.signature_description,
            &other.signature_description,
        ) {
            (Some(text), Some(other_text)) => text.text == other_text.text,
            (None, None) => true,
            _ => false,
        };
        signature_str_equality && signature_highlight_equality
            && signature_description_str_equality
    }
}

impl PartialEqSpecImpl for SignatureHelpMarkdown {
    open spec fn obeys_eq_spec() -> bool {
        true
    }

    open spec fn eq_spec(&self, other: &Self) -> bool {
        &&& self.signature.text@ == other.signature.text@
        &&& self.signature.highlights@ == other.signature.highlights@
        &&& same_description(self.signature_description, other.signature_description)
    }
}

impl SignatureHelpMarkdown {
    /// The parts of the page: the signature, and below it, behind a
    /// border, the description where there is one.
    pub fn sections(&self) -> (sections: Vec<PopoverSection<'_>>)
        ensures
            sections@ == match self.signature_description {
                Some(description) => seq![
                    PopoverSection::Signature(&self.signature),
                    PopoverSection::Border,
                    PopoverSection::Description(&description),
                ],
                None => seq![PopoverSection::Signature(&self.signature)],
            },
    {
        let mut sections: Vec<PopoverSection<'_>> = Vec::new();
        sections.push(PopoverSection::Signature(&self.signature));
        match &self.signature_description {
            Some(description) => {
                sections.push(PopoverSection::Border);
                sections.push(PopoverSection::Description(description));
            },
            None => {},
        }
        sections
    }
}

impl SignatureHelpPopover {
    /// Lays the popover out: the page of the active signature, alone
    /// where it is the only page, else beside its position among the pages
    /// and the two buttons of the pager, on which a click does nothing.
    /// Where the active signature has no page, the popover shows nothing.
    pub fn render(&self) -> (layout: PageLayout<&SignatureHelpMarkdown, (), ()>)
        ensures
            match layout {
                PageLayout::Empty => self.active_signature >= self.signature_help_markdowns@.len(),
                PageLayout::Single { page } => {
                    &&& self.signature_help_markdowns@.len() == 1
                    &&& self.active_signature == 0
                    &&& *page == self.signature_help_markdowns@[0]
                },
                PageLayout::Paged {
                    page,
                    position,
                    previous_disabled,
                    next_disabled,
                    on_click_previous,
                    on_click_next,
                } => {
                    let count = self.signature_help_markdowns@.len();
                    &&& count > 1
                    &&& self.active_signature < count
                    &&& *page == self.signature_help_markdowns@[self.active_signature as int]
                    &&& position@ == position_label(self.active_signature as nat, count)
                    &&& previous_disabled == (self.active_signature == 0)
                    &&& next_disabled == (self.active_signature + 1 == count)
                },
            },
    {
        let mut pages: Vec<&SignatureHelpMarkdown> = Vec::new();
        let mut i: usize = 0;
        while i < self.signature_help_markdowns.len()
            invariant
                i <= self.signature_help_markdowns@.len(),
                pages@.len() == i,
                forall|k: int| 0 <= k < i ==> *pages@[k] == self.signature_help_markdowns@[k],
            decreases self.signature_help_markdowns@.len() - i,
        {
            pages.push(&self.signature_help_markdowns[i]);
            i += 1;
        }
        PopoverPage::new(pages, self.active_signature, (), ()).render()
    }
}

} // verus!
