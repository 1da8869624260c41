//! The formatter: from a signature-help response to one line of highlighted
//! text per signature.
//!
//! The line of a signature holds the labels of its parameters, joined by a
//! comma and a space, inside a code fence. Where the response has more than
//! one signature, a note on the others follows: `(+2 overloads)`. Highlights
//! are ranges of bytes of the whole line.

use crate::raw::{
    Documentation, DocumentationView, ParameterLabel, ParameterLabelView, RawSignature,
    RawSignatureHelp, RawSignatureHelpView, RawSignatureView,
};
use crate::text::{
    byte_len, decimal, decimal_string, lemma_byte_len_concat, lowercase, to_lowercase, utf8_len,
};
use std::ops::Range;
use vstd::prelude::*;
use vstd::string::*;

verus! {

/// What a highlight marks.
#[derive(Clone, Copy, Debug, PartialEq, Eq, Structural)]
pub enum HighlightKind {
    /// The parameter that is being typed.
    Current,
    /// The note on the other signatures.
    Overload,
}

/// The kind of highlight on the parameter that is being typed.
pub const SIGNATURE_HELP_HIGHLIGHT_CURRENT: HighlightKind = HighlightKind::Current;

/// The kind of highlight on the note on the other signatures.
pub const SIGNATURE_HELP_HIGHLIGHT_OVERLOAD: HighlightKind = HighlightKind::Overload;

/// The line of one signature.
#[derive(Clone, Debug, PartialEq, Eq)]
pub struct SignatureHelp {
    pub signature_markdown: String,
    /// The documentation of the active parameter, where it has one.
    pub description_markdown: Option<String>,
    /// Ranges of bytes of `signature_markdown`, in the order of the line.
    pub highlights: Vec<(Range<usize>, HighlightKind)>,
}

/// A highlight as a range of bytes `start..end` of its line.
pub struct HighlightView {
    pub start: nat,
    pub end: nat,
    pub kind: HighlightKind,
}

/// A line as text, with its description and its highlights in order.
pub struct SignatureHelpView {
    pub text: Seq<char>,
    pub description: Option<Seq<char>>,
    pub highlights: Seq<HighlightView>,
}

impl View for SignatureHelp {
    type V = SignatureHelpView;

    open spec fn view(&self) -> SignatureHelpView {
        SignatureHelpView {
            text: self.signature_markdown@,
            description: match self.description_markdown {
                Some(description) => Some(description@),
                None => None,
            },
            highlights: Seq::new(
                self.highlights@.len(),
                |i: int|
                    HighlightView {
                        start: self.highlights@[i].0.start as nat,
                        end: self.highlights@[i].0.end as nat,
                        kind: self.highlights@[i].1,
                    },
            ),
        }
    }
}

/// The lines of a response, with the response they were made from.
#[derive(Clone, Debug, PartialEq, Eq)]
pub struct SignatureHelps {
    /// One line for each signature that has a parameter, in their order.
    pub signature_helps: Vec<SignatureHelp>,
    /// The active signature, as the response numbers it.
    pub active_signature: usize,
    pub original_data: RawSignatureHelp,
}

/// The lines in order, the active signature and the response itself.
pub struct SignatureHelpsView {
    pub entries: Seq<SignatureHelpView>,
    pub active_signature: nat,
    pub original: RawSignatureHelpView,
}

impl View for SignatureHelps {
    type V = SignatureHelpsView;

    open spec fn view(&self) -> SignatureHelpsView {
        SignatureHelpsView {
            entries: Seq::new(self.signature_helps@.len(), |i: int| self.signature_helps@[i]@),
            active_signature: self.active_signature as nat,
            original: self.original_data@,
        }
    }
}

/// What stands between two labels.
pub open spec fn separator() -> Seq<char> {
    ", "@
}

/// The marker of a code fence.
pub open spec fn fence() -> Seq<char> {
    "```"@
}

/// The text of a parameter's label. A label given by offsets is the range
/// of characters `start..end` of the signature's label; offsets that are no
/// such range (`start` after `end`, or `end` past the last character) give
/// the empty text.
pub open spec fn resolved_label(signature_label: Seq<char>, label: ParameterLabelView) -> Seq<
    char,
> {
    match label {
        ParameterLabelView::Simple(text) => text,
        ParameterLabelView::LabelOffsets(start, end) => if start <= end && end
            <= signature_label.len() {
            signature_label.subrange(start as int, end as int)
        } else {
            Seq::empty()
        },
    }
}

/// The texts of the labels of a signature's parameters, in order.
pub open spec fn labels(signature: RawSignatureView) -> Seq<Seq<char>> {
    Seq::new(
        signature.parameters.len(),
        |k: int| resolved_label(signature.label, signature.parameters[k].label),
    )
}

/// The part of the joined labels that stands before the `j`-th label: each
/// earlier label, followed by the separator.
pub open spec fn before_label(labels: Seq<Seq<char>>, j: int) -> Seq<char>
    decreases j,
{
    if j <= 0 {
        Seq::empty()
    } else {
        before_label(labels, j - 1) + labels[j - 1] + separator()
    }
}

/// The labels joined by the separator.
pub open spec fn joined(labels: Seq<Seq<char>>) -> Seq<char> {
    if labels.len() == 0 {
        Seq::empty()
    } else {
        before_label(labels, labels.len() - 1) + labels.last()
    }
}

/// What a line starts with: the fence, and, where the name of the source
/// language is known, that name (in lower case already) and a line break.
pub open spec fn opening(tag: Option<Seq<char>>) -> Seq<char> {
    match tag {
        Some(name) => fence() + name + "\n"@,
        None => fence(),
    }
}

/// What follows the labels: nothing where the language is known, the fence
/// where it is not.
pub open spec fn closing(tag: Option<Seq<char>>) -> Seq<char> {
    match tag {
        Some(_) => Seq::empty(),
        None => fence(),
    }
}

/// The note that `others` more signatures exist, in its parentheses.
pub open spec fn overload_note(others: nat) -> Seq<char> {
    "(+"@ + decimal(others) + " overload"@ + (if others != 1 {
        "s"@
    } else {
        Seq::empty()
    }) + ")"@
}

/// What ends the line of a response with `count` signatures: a space and
/// the note on the others, where there are others.
pub open spec fn overload_suffix(count: nat) -> Seq<char> {
    if count > 1 {
        " "@ + overload_note((count - 1) as nat)
    } else {
        Seq::empty()
    }
}

/// The line up to the end of the labels and of the fence.
pub open spec fn fenced(signature: RawSignatureView, tag: Option<Seq<char>>) -> Seq<char> {
    opening(tag) + joined(labels(signature)) + closing(tag)
}

/// The whole line of a signature, in a response with `count` signatures.
pub open spec fn line(signature: RawSignatureView, count: nat, tag: Option<Seq<char>>) -> Seq<
    char,
> {
    fenced(signature, tag) + overload_suffix(count)
}

/// The highlight of the `j`-th parameter: the bytes of its label in the
/// line.
pub open spec fn current_highlight(
    signature: RawSignatureView,
    j: int,
    tag: Option<Seq<char>>,
) -> HighlightView {
    let start = byte_len(opening(tag) + before_label(labels(signature), j));
    HighlightView {
        start,
        end: start + byte_len(labels(signature)[j]),
        kind: HighlightKind::Current,
    }
}

/// The highlight of the note on the other signatures: from behind the space
/// to the end of the line.
pub open spec fn overload_highlight(
    signature: RawSignatureView,
    count: nat,
    tag: Option<Seq<char>>,
) -> HighlightView {
    HighlightView {
        start: byte_len(fenced(signature, tag) + " "@),
        end: byte_len(line(signature, count, tag)),
        kind: HighlightKind::Overload,
    }
}

/// The highlights of a line: that of the active parameter, on the active
/// signature and where the signature has such a parameter, then that of the
/// note, where there is one.
pub open spec fn highlights(
    signature: RawSignatureView,
    is_active: bool,
    active_parameter: int,
    count: nat,
    tag: Option<Seq<char>>,
) -> Seq<HighlightView> {
    (if is_active && 0 <= active_parameter < signature.parameters.len() {
        seq![current_highlight(signature, active_parameter, tag)]
    } else {
        Seq::empty()
    }) + (if count > 1 {
        seq![overload_highlight(signature, count, tag)]
    } else {
        Seq::empty()
    })
}

/// The text of a documentation.
pub open spec fn documentation_text(documentation: DocumentationView) -> Seq<char> {
    match documentation {
        DocumentationView::String(text) => text,
        DocumentationView::MarkupContent(content) => content.value,
    }
}

/// The documentation of the signature's parameter at `active_parameter`,
/// where the signature has such a parameter and it is documented.
pub open spec fn description(signature: RawSignatureView, active_parameter: int) -> Option<
    Seq<char>,
> {
    if 0 <= active_parameter < signature.parameters.len() {
        match signature.parameters[active_parameter].documentation {
            Some(documentation) => Some(documentation_text(documentation)),
            None => None,
        }
    } else {
        None
    }
}

/// The entry of a signature that has a parameter.
pub open spec fn entry(
    signature: RawSignatureView,
    is_active: bool,
    active_parameter: int,
    count: nat,
    tag: Option<Seq<char>>,
) -> SignatureHelpView {
    SignatureHelpView {
        text: line(signature, count, tag),
        description: description(signature, active_parameter),
        highlights: highlights(signature, is_active, active_parameter, count, tag),
    }
}

/// Whether the response names the signature at `index` as the active one.
pub open spec fn is_active(help: RawSignatureHelpView, index: int) -> bool {
    help.active_signature matches Some(active) && active == index
}

/// The entry of the signature at `index` of a response with both indices.
pub open spec fn entry_at(help: RawSignatureHelpView, index: int, tag: Option<Seq<char>>)
    -> SignatureHelpView {
    entry(
        help.signatures[index],
        is_active(help, index),
        help.active_parameter->0 as int,
        help.signatures.len(),
        tag,
    )
}

/// The entries of the first `upto` signatures: one for each that has a
/// parameter, in their order. A signature without parameters has none.
pub open spec fn entries(help: RawSignatureHelpView, upto: int, tag: Option<Seq<char>>) -> Seq<
    SignatureHelpView,
>
    decreases upto,
{
    if upto <= 0 {
        Seq::empty()
    } else if help.signatures[upto - 1].parameters.len() == 0 {
        entries(help, upto - 1, tag)
    } else {
        entries(help, upto - 1, tag).push(entry_at(help, upto - 1, tag))
    }
}

/// Whether there is nothing to show: the response names no active
/// signature, or no active parameter, or has no signature.
pub open spec fn not_available(help: RawSignatureHelpView) -> bool {
    help.active_signature is None || help.active_parameter is None || help.signatures.len() == 0
}

/// What the response is formatted to, with `tag` behind the opening fence.
pub open spec fn formatted(help: RawSignatureHelpView, tag: Option<Seq<char>>) -> Option<
    SignatureHelpsView,
> {
    if not_available(help) {
        None
    } else {
        Some(
            SignatureHelpsView {
                entries: entries(help, help.signatures.len() as int, tag),
                active_signature: help.active_signature->0 as nat,
                original: help,
            },
        )
    }
}

/// The tag that the name of a source language gives: the name in lower
/// case.
pub open spec fn tag_of(language_name: Option<Seq<char>>) -> Option<Seq<char>> {
    match language_name {
        Some(name) => Some(lowercase(name)),
        None => None,
    }
}

/// The characters of a text that may be absent.
pub open spec fn optional_text(text: Option<&str>) -> Option<Seq<char>> {
    match text {
        Some(text) => Some(text@),
        None => None,
    }
}

/// The view of formatted lines that may be absent.
pub open spec fn optional_view(helps: Option<SignatureHelps>) -> Option<SignatureHelpsView> {
    match helps {
        Some(helps) => Some(helps@),
        None => None,
    }
}

/// The text of a parameter's label.
pub fn resolve_label(signature_label: &str, label: &ParameterLabel) -> (text: String)
    ensures
        text@ == resolved_label(signature_label@, label@),
{
    match label {
        ParameterLabel::Simple(text) => text.clone(),
        ParameterLabel::LabelOffsets(start, end) => {
            let length = signature_label.unicode_len();
            if *start <= *end && *end as usize <= length {
                signature_label.substring_char(*start as usize, *end as usize).to_owned()
            } else {
                String::new()
            }
        },
    }
}

fn description_of(signature: &RawSignature, active_parameter: usize) -> (text: Option<String>)
    ensures
        match text {
            Some(text) => Some(text@),
            None => None,
        } == description(signature@, active_parameter as int),
{
    if active_parameter < signature.parameters.len() {
        match &signature.parameters[active_parameter].documentation {
            Some(Documentation::String(text)) => Some(text.clone()),
            Some(Documentation::MarkupContent(content)) => Some(content.value.clone()),
            None => None,
        }
    } else {
        None
    }
}

fn open_fence(tag: Option<&str>) -> (text: String)
    ensures
        text@ == opening(optional_text(tag)),
{
    let mut text = "```".to_owned();
    match tag {
        Some(name) => {
            text.append(name);
            text.append("\n");
        },
        None => {},
    }
    text
}

fn format_signature(
    signature: &RawSignature,
    active: bool,
    active_parameter: usize,
    count: usize,
    tag: Option<&str>,
) -> (formatted: SignatureHelp)
    requires
        signature.parameters@.len() > 0,
        count >= 1,
    ensures
        formatted@ == entry(
            signature@,
            active,
            active_parameter as int,
            count as nat,
            optional_text(tag),
        ),
{
    let ghost tag_text = optional_text(tag);
    let ghost texts = labels(signature@);
    let parameter_count = signature.parameters.len();
    let mut text = open_fence(tag);
    let mut marks: Vec<(Range<usize>, HighlightKind)> = Vec::new();
    let mut i: usize = 0;
    while i < parameter_count
        invariant
            i <= parameter_count,
            parameter_count == signature.parameters@.len(),
            parameter_count > 0,
            texts == labels(signature@),
            tag_text == optional_text(tag),
            text@ == opening(tag_text) + (if i < parameter_count {
                before_label(texts, i as int)
            } else {
                joined(texts)
            }),
            marks@.len() == (if active && active_parameter < i {
                1nat
            } else {
                0nat
            }),
            active && active_parameter < i ==> {
                let expected = current_highlight(signature@, active_parameter as int, tag_text);
                &&& marks@[0].0.start == expected.start
                &&& marks@[0].0.end == expected.end
                &&& marks@[0].1 == HighlightKind::Current
            },
        decreases parameter_count - i,
    {
        let label = resolve_label(signature.label.as_str(), &signature.parameters[i].label);
        assert(label@ == texts[i as int]);
        let start = utf8_len(text.as_str());
        text.append(label.as_str());
        if active && i == active_parameter {
            let end = utf8_len(text.as_str());
            proof {
                lemma_byte_len_concat(opening(tag_text) + before_label(texts, i as int), label@);
            }
            marks.push((start..end, HighlightKind::Current));
        }
        if i + 1 < parameter_count {
            text.append(", ");
            assert(text@ =~= opening(tag_text) + before_label(texts, i + 1));
        } else {
            assert(text@ =~= opening(tag_text) + joined(texts));
        }
        i += 1;
    }
    match tag {
        Some(_) => {},
        None => {
            text.append("```");
        },
    }
    assert(text@ =~= fenced(signature@, tag_text));
    if count > 1 {
        text.append(" ");
        let start = utf8_len(text.as_str());
        text.append("(+");
        let others = decimal_string(count - 1);
        text.append(others.as_str());
        text.append(" overload");
        if count - 1 != 1 {
            text.append("s");
        }
        text.append(")");
        assert(text@ =~= line(signature@, count as nat, tag_text));
        let end = utf8_len(text.as_str());
        marks.push((start..end, HighlightKind::Overload));
    }
    assert(text@ =~= line(signature@, count as nat, tag_text));
    let formatted = SignatureHelp {
        signature_markdown: text,
        description_markdown: description_of(signature, active_parameter),
        highlights: marks,
    };
    assert(formatted@.highlights =~= entry(
        signature@,
        active,
        active_parameter as int,
        count as nat,
        tag_text,
    ).highlights);
    formatted
}

impl SignatureHelps {
    /// Formats a response for display, for a source language of the given
    /// name, if it is known. The name stands in lower case behind the
    /// opening fence of every line.
    ///
    /// Returns `None` where there is nothing to show.
    pub fn new(help: RawSignatureHelp, language_name: Option<&str>) -> (helps: Option<Self>)
        ensures
            helps is None <==> help.active_signature is None || help.active_parameter is None
                || help.signatures@.len() == 0,
            optional_view(helps) == formatted(help@, tag_of(optional_text(language_name))),
    {
        match language_name {
            Some(name) => {
                let tag = to_lowercase(name);
                Self::with_tag(help, Some(tag.as_str()))
            },
            None => Self::with_tag(help, None),
        }
    }

    /// Formats a response for display, with `tag` as it is behind the
    /// opening fence of every line.
    ///
    /// Returns `None` where there is nothing to show.
    pub fn with_tag(help: RawSignatureHelp, tag: Option<&str>) -> (helps: Option<Self>)
        ensures
            helps is None <==> help.active_signature is None || help.active_parameter is None
                || help.signatures@.len() == 0,
            optional_view(helps) == formatted(help@, optional_text(tag)),
    {
        let active_signature = match help.active_signature {
            Some(index) => index as usize,
            None => {
                return None;
            },
        };
        let active_parameter = match help.active_parameter {
            Some(index) => index as usize,
            None => {
                return None;
            },
        };
        let count = help.signatures.len();
        if count == 0 {
            return None;
        }
        let mut signature_helps: Vec<SignatureHelp> = Vec::new();
        let mut index: usize = 0;
        while index < count
            invariant
                index <= count,
                count == help.signatures@.len(),
                count >= 1,
                help.active_signature matches Some(active) && active == active_signature,
                help.active_parameter matches Some(active) && active == active_parameter,
                Seq::new(signature_helps@.len(), |i: int| signature_helps@[i]@) == entries(
                    help@,
                    index as int,
                    optional_text(tag),
                ),
            decreases count - index,
        {
            let signature = &help.signatures[index];
            if signature.parameters.len() > 0 {
                let ghost earlier = Seq::new(
                    signature_helps@.len(),
                    |i: int| signature_helps@[i]@,
                );
                let formatted = format_signature(
                    signature,
                    index == active_signature,
                    active_parameter,
                    count,
                    tag,
                );
                signature_helps.push(formatted);
                assert(help@.signatures[index as int] == signature@);
                assert(formatted@ == entry_at(help@, index as int, optional_text(tag)));
                assert(Seq::new(signature_helps@.len(), |i: int| signature_helps@[i]@)
                    =~= earlier.push(formatted@));
            } else {
                assert(help@.signatures[index as int] == signature@);
            }
            index += 1;
        }
        Some(SignatureHelps { signature_helps, active_signature, original_data: help })
    }
}

} // verus!
