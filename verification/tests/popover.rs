use signature_help::formatter::HighlightKind;
use signature_help::popover::{
    ParsedMarkdown, PopoverSection, SignatureHelpMarkdown, SignatureHelpPopover,
};
use signature_help::popover_page::{PageLayout, PopoverPage};

fn pager(pages: usize, current: usize) -> PopoverPage<usize, &'static str, &'static str> {
    PopoverPage::new((0..pages).collect(), current, "previous", "next")
}

fn page(text: &str, description: Option<&str>) -> SignatureHelpMarkdown {
    SignatureHelpMarkdown {
        signature: ParsedMarkdown {
            text: text.to_string(),
            highlights: vec![(0..1, HighlightKind::Current)],
        },
        signature_description: description
            .map(|text| ParsedMarkdown { text: text.to_string(), highlights: vec![] }),
    }
}

#[test]
fn pager_knows_its_neighbours() {
    assert!(pager(3, 0).has_next_page());
    assert!(!pager(3, 0).has_previous_page());
    assert!(pager(3, 1).has_next_page());
    assert!(pager(3, 1).has_previous_page());
    assert!(!pager(3, 2).has_next_page());
    assert!(pager(3, 2).has_previous_page());
    assert!(!pager(0, 0).has_next_page());
    assert!(!pager(3, usize::MAX).has_next_page());
    assert!(pager(3, usize::MAX).has_previous_page());
}

#[test]
fn pager_moves_between_its_pages() {
    let mut pages = pager(2, 0);
    assert!(!pages.previous_page());
    assert!(pages.next_page());
    assert!(!pages.next_page());
    assert!(pages.has_previous_page());
    pages.add_page(2);
    assert!(pages.next_page());
    assert!(!pages.has_next_page());
    assert!(pages.previous_page());
    assert!(pages.previous_page());
    assert!(!pages.previous_page());
}

#[test]
fn pager_without_current_page_shows_nothing() {
    assert!(matches!(pager(0, 0).render(), PageLayout::Empty));
    assert!(matches!(pager(2, 2).render(), PageLayout::Empty));
}

#[test]
fn pager_of_one_page_shows_it_alone() {
    match pager(1, 0).render() {
        PageLayout::Single { page } => assert_eq!(page, 0),
        _ => panic!("one page is shown without a pager"),
    }
}

#[test]
fn pager_of_several_pages_shows_position_and_buttons() {
    match pager(3, 1).render() {
        PageLayout::Paged {
            page,
            position,
            previous_disabled,
            next_disabled,
            on_click_previous,
            on_click_next,
        } => {
            assert_eq!(page, 1);
            assert_eq!(position, "2 / 3");
            assert!(!previous_disabled);
            assert!(!next_disabled);
            assert_eq!(on_click_previous, "previous");
            assert_eq!(on_click_next, "next");
        }
        _ => panic!("several pages are shown with a pager"),
    }
    match pager(12, 0).render() {
        PageLayout::Paged { page, position, previous_disabled, next_disabled, .. } => {
            assert_eq!(page, 0);
            assert_eq!(position, "1 / 12");
            assert!(previous_disabled);
            assert!(!next_disabled);
        }
        _ => panic!("several pages are shown with a pager"),
    }
    match pager(12, 11).render() {
        PageLayout::Paged { page, position, previous_disabled, next_disabled, .. } => {
            assert_eq!(page, 11);
            assert_eq!(position, "12 / 12");
            assert!(!previous_disabled);
            assert!(next_disabled);
        }
        _ => panic!("several pages are shown with a pager"),
    }
}

#[test]
fn pages_are_equal_by_text_and_highlights() {
    assert_eq!(page("a", None), page("a", None));
    assert_eq!(page("a", Some("of a")), page("a", Some("of a")));
    assert_ne!(page("a", None), page("b", None));
    assert_ne!(page("a", Some("of a")), page("a", None));
    assert_ne!(page("a", None), page("a", Some("of a")));
    assert_ne!(page("a", Some("of a")), page("a", Some("of b")));
    let mut other = page("a", None);
    other.signature.highlights = vec![(0..1, HighlightKind::Overload)];
    assert_ne!(page("a", None), other);
    other.signature.highlights = vec![(0..2, HighlightKind::Current)];
    assert_ne!(page("a", None), other);
    other.signature.highlights = vec![];
    assert_ne!(page("a", None), other);
    let mut described = page("a", Some("of a"));
    described.signature_description.as_mut().unwrap().highlights =
        vec![(0..2, HighlightKind::Current)];
    assert_eq!(page("a", Some("of a")), described);
}

#[test]
fn page_has_a_border_above_its_description() {
    let plain = page("a", None);
    let sections = plain.sections();
    assert_eq!(sections.len(), 1);
    assert!(matches!(sections[0], PopoverSection::Signature(text) if text.text == "a"));
    let described = page("a", Some("of a"));
    let sections = described.sections();
    assert_eq!(sections.len(), 3);
    assert!(matches!(sections[0], PopoverSection::Signature(text) if text.text == "a"));
    assert!(matches!(sections[1], PopoverSection::Border));
    assert!(matches!(sections[2], PopoverSection::Description(text) if text.text == "of a"));
}

#[test]
fn popover_shows_the_page_of_the_active_signature() {
    let popover = SignatureHelpPopover {
        signature_help_markdowns: vec![page("a", None), page("b", Some("of b")), page("c", None)],
        active_signature: 1,
    };
    match popover.render() {
        PageLayout::Paged { page, position, previous_disabled, next_disabled, .. } => {
            assert_eq!(page.signature.text, "b");
            assert_eq!(position, "2 / 3");
            assert!(!previous_disabled);
            assert!(!next_disabled);
        }
        _ => panic!("several pages are shown with a pager"),
    }
    let single =
        SignatureHelpPopover { signature_help_markdowns: vec![page("a", None)], active_signature: 0 };
    assert!(matches!(single.render(), PageLayout::Single { page } if page.signature.text == "a"));
    let out_of_range =
        SignatureHelpPopover { signature_help_markdowns: vec![page("a", None)], active_signature: 1 };
    assert!(matches!(out_of_range.render(), PageLayout::Empty));
    assert!(matches!(SignatureHelpPopover::default().render(), PageLayout::Empty));
    assert_eq!(SignatureHelpPopover::default(), SignatureHelpPopover {
        signature_help_markdowns: vec![],
        active_signature: 0
    });
}
