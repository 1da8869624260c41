//! What holds of every formatted response.

use crate::formatter::{
    before_label, closing, current_highlight, entries, entry, entry_at, fence, fenced, formatted,
    is_active, joined, labels, line, not_available, opening, overload_highlight, overload_note,
    overload_suffix, resolved_label, separator, HighlightKind, HighlightView, SignatureHelpView,
};
use crate::raw::{ParameterLabelView, RawSignatureHelpView, RawSignatureView};
use crate::text::{byte_len, lemma_byte_len_ascii, lemma_byte_len_concat, lemma_encode_concat};
use vstd::prelude::*;
use vstd::utf8::*;

verus! {

/// The bytes of `text` that the highlight covers.
pub open spec fn covered(text: Seq<char>, highlight: HighlightView) -> Seq<u8> {
    encode_utf8(text).subrange(highlight.start as int, highlight.end as int)
}

/// How many of the highlights are of the given kind.
pub open spec fn count_of(highlights: Seq<HighlightView>, kind: HighlightKind) -> nat
    decreases highlights.len(),
{
    if highlights.len() == 0 {
        0
    } else {
        count_of(highlights.drop_last(), kind) + if highlights.last().kind == kind {
            1nat
        } else {
            0nat
        }
    }
}

/// The running total of the formatter: what the lengths of the first `j`
/// labels add up to, each counted with the separator behind it.
pub open spec fn running_total(labels: Seq<Seq<char>>, j: int) -> nat
    decreases j,
{
    if j <= 0 {
        0
    } else {
        running_total(labels, j - 1) + byte_len(labels[j - 1]) + 2
    }
}

/// The signatures among the first `upto` that have a parameter, by their
/// index in the response and in that order.
pub open spec fn shown(help: RawSignatureHelpView, upto: int) -> Seq<int>
    decreases upto,
{
    if upto <= 0 {
        Seq::empty()
    } else if help.signatures[upto - 1].parameters.len() == 0 {
        shown(help, upto - 1)
    } else {
        shown(help, upto - 1).push(upto - 1)
    }
}

/// The separator takes two bytes, the fence three, a line break and a
/// space one each.
pub proof fn lemma_marker_lengths()
    ensures
        byte_len(separator()) == 2,
        byte_len(fence()) == 3,
        byte_len("\n"@) == 1,
        byte_len(" "@) == 1,
{
    reveal_strlit(", ");
    reveal_strlit("```");
    reveal_strlit("\n");
    reveal_strlit(" ");
    lemma_byte_len_ascii(", "@);
    lemma_byte_len_ascii("```"@);
    lemma_byte_len_ascii("\n"@);
    lemma_byte_len_ascii(" "@);
}

/// What a line starts with takes three bytes for the fence and, where the
/// language is known, the bytes of its name and one for the line break.
pub proof fn lemma_opening_len(tag: Option<Seq<char>>)
    ensures
        byte_len(opening(tag)) == match tag {
            Some(name) => 3 + byte_len(name) + 1,
            None => 3,
        },
{
    lemma_marker_lengths();
    if let Some(name) = tag {
        lemma_byte_len_concat(fence(), name);
        lemma_byte_len_concat(fence() + name, "\n"@);
    }
}

/// The text before the `j`-th label is as long as the running total says.
pub proof fn lemma_before_label_len(labels: Seq<Seq<char>>, j: int)
    ensures
        byte_len(before_label(labels, j)) == running_total(labels, j),
    decreases j,
{
    if j > 0 {
        lemma_before_label_len(labels, j - 1);
        lemma_marker_lengths();
        lemma_byte_len_concat(before_label(labels, j - 1), labels[j - 1]);
        lemma_byte_len_concat(before_label(labels, j - 1) + labels[j - 1], separator());
    } else {
        assert(encode_utf8(before_label(labels, j)) =~= Seq::<u8>::empty());
    }
}

/// The joined labels hold the `j`-th label right behind what stands before
/// it: they are that text, the label, and a rest.
pub proof fn lemma_label_in_joined(labels: Seq<Seq<char>>, j: int)
    requires
        0 <= j < labels.len(),
    ensures
        (before_label(labels, j) + labels[j]).is_prefix_of(joined(labels)),
{
    let n = labels.len() as int;
    let head = before_label(labels, j) + labels[j];
    if j < n - 1 {
        lemma_label_before_later(labels, j, n - 1);
        assert(head.is_prefix_of(before_label(labels, n - 1) + labels.last()));
    }
}

/// What stands before a later label starts with what stands before an
/// earlier one, and with the earlier label.
proof fn lemma_label_before_later(labels: Seq<Seq<char>>, j: int, k: int)
    requires
        0 <= j < k,
    ensures
        (before_label(labels, j) + labels[j]).is_prefix_of(before_label(labels, k)),
    decreases k,
{
    let head = before_label(labels, j) + labels[j];
    if k > j + 1 {
        lemma_label_before_later(labels, j, k - 1);
        assert(head.is_prefix_of(before_label(labels, k - 1) + labels[k - 1] + separator()));
    } else {
        assert(head.is_prefix_of(head + separator()));
    }
}

/// The highlight of the active parameter covers its label and nothing
/// else. For a signature and one of its parameters, the `j`-th: the line
/// holds the label of that parameter right behind the opening fence and
/// the earlier labels with their separators; the highlight starts at the
/// byte where the label starts, that is at the length of the opening fence
/// plus the running total, and spans the bytes of the label.
pub proof fn lemma_current_highlight_covers_label(
    signature: RawSignatureView,
    j: int,
    count: nat,
    tag: Option<Seq<char>>,
)
    requires
        0 <= j < signature.parameters.len(),
    ensures
        ({
            let text = line(signature, count, tag);
            let label = labels(signature)[j];
            let before = opening(tag) + before_label(labels(signature), j);
            let highlight = current_highlight(signature, j, tag);
            &&& (before + label).is_prefix_of(text)
            &&& highlight.start == byte_len(before)
            &&& highlight.start == byte_len(opening(tag)) + running_total(labels(signature), j)
            &&& highlight.end == highlight.start + byte_len(label)
            &&& highlight.end <= byte_len(fenced(signature, tag))
            &&& covered(text, highlight) == encode_utf8(label)
        }),
{
    let text = line(signature, count, tag);
    let all = labels(signature);
    let label = all[j];
    let before = opening(tag) + before_label(all, j);
    let highlight = current_highlight(signature, j, tag);
    lemma_label_in_joined(all, j);
    let inner = before_label(all, j) + label;
    let inner_rest = joined(all).subrange(inner.len() as int, joined(all).len() as int);
    assert(joined(all) =~= inner + inner_rest);
    let rest = inner_rest + closing(tag) + overload_suffix(count);
    assert(text =~= before + label + rest);
    assert(fenced(signature, tag) =~= before + label + (inner_rest + closing(tag)));
    lemma_byte_len_concat(opening(tag), before_label(all, j));
    lemma_before_label_len(all, j);
    lemma_byte_len_concat(before, label);
    lemma_byte_len_concat(before + label, inner_rest + closing(tag));
    lemma_encode_concat(before, label);
    lemma_encode_concat(before + label, rest);
    assert(covered(text, highlight) =~= encode_utf8(label));
}

/// The highlight of the note covers the note and nothing else. For a
/// response with two signatures or more, the line of every signature ends
/// with a space and the note on the others, and the highlight spans the
/// bytes of the note, from behind the space to the end of the line.
pub proof fn lemma_overload_highlight_covers_note(
    signature: RawSignatureView,
    count: nat,
    tag: Option<Seq<char>>,
)
    requires
        count >= 2,
    ensures
        ({
            let text = line(signature, count, tag);
            let note = overload_note((count - 1) as nat);
            let highlight = overload_highlight(signature, count, tag);
            &&& text == fenced(signature, tag) + " "@ + note
            &&& highlight.start == byte_len(fenced(signature, tag)) + 1
            &&& highlight.end == highlight.start + byte_len(note)
            &&& highlight.end == byte_len(text)
            &&& covered(text, highlight) == encode_utf8(note)
        }),
{
    let text = line(signature, count, tag);
    let note = overload_note((count - 1) as nat);
    let before = fenced(signature, tag) + " "@;
    let highlight = overload_highlight(signature, count, tag);
    assert(text =~= before + note);
    lemma_marker_lengths();
    lemma_byte_len_concat(fenced(signature, tag), " "@);
    lemma_byte_len_concat(before, note);
    lemma_encode_concat(before, note);
    assert(covered(text, highlight) =~= encode_utf8(note));
}

/// The note on the others, for every line. With two signatures or more,
/// the line ends with a space and the note, `(+1 overload)` for one other
/// signature and `(+K overloads)` for `K` others, and exactly one highlight
/// marks the note: the last one, which covers the note without the space.
/// With one signature the line ends with the fenced labels and no
/// highlight marks a note.
pub proof fn lemma_overload_note(
    signature: RawSignatureView,
    is_active: bool,
    active_parameter: int,
    count: nat,
    tag: Option<Seq<char>>,
)
    ensures
        ({
            let formatted = entry(signature, is_active, active_parameter, count, tag);
            let note = overload_note((count - 1) as nat);
            &&& count >= 2 ==> {
                &&& formatted.text == fenced(signature, tag) + " "@ + note
                &&& count == 2 ==> note == "(+"@ + seq!['1'] + " overload"@ + ")"@
                &&& count > 2 ==> note == "(+"@ + crate::text::decimal((count - 1) as nat)
                    + " overload"@ + "s"@ + ")"@
                &&& count_of(formatted.highlights, HighlightKind::Overload) == 1
                &&& formatted.highlights.last().kind == HighlightKind::Overload
                &&& covered(formatted.text, formatted.highlights.last()) == encode_utf8(note)
            }
            &&& count <= 1 ==> {
                &&& formatted.text == fenced(signature, tag)
                &&& count_of(formatted.highlights, HighlightKind::Overload) == 0
            }
        }),
{
    let formatted = entry(signature, is_active, active_parameter, count, tag);
    let note = overload_note((count - 1) as nat);
    let marked = is_active && 0 <= active_parameter < signature.parameters.len();
    reveal_with_fuel(count_of, 3);
    if count >= 2 {
        lemma_overload_highlight_covers_note(signature, count, tag);
        let overload = overload_highlight(signature, count, tag);
        if marked {
            let current = current_highlight(signature, active_parameter, tag);
            assert(formatted.highlights =~= seq![current, overload]);
            assert(formatted.highlights.drop_last() =~= seq![current]);
            assert(seq![current].drop_last() =~= Seq::<HighlightView>::empty());
        } else {
            assert(formatted.highlights =~= seq![overload]);
            assert(formatted.highlights.drop_last() =~= Seq::<HighlightView>::empty());
        }
        if count == 2 {
            assert(note =~= "(+"@ + seq!['1'] + " overload"@ + ")"@);
        }
    } else {
        assert(formatted.text =~= fenced(signature, tag));
        if marked {
            let current = current_highlight(signature, active_parameter, tag);
            assert(formatted.highlights =~= seq![current]);
            assert(formatted.highlights.drop_last() =~= Seq::<HighlightView>::empty());
        } else {
            assert(formatted.highlights =~= Seq::<HighlightView>::empty());
        }
    }
}

/// The highlights of a line lie within the line and do not overlap: each
/// ends where it starts or later and at the end of the line at the latest,
/// and of two highlights the earlier one ends before the later one starts.
pub proof fn lemma_highlights_in_line(
    signature: RawSignatureView,
    is_active: bool,
    active_parameter: int,
    count: nat,
    tag: Option<Seq<char>>,
)
    ensures
        ({
            let formatted = entry(signature, is_active, active_parameter, count, tag);
            &&& formatted.highlights.len() <= 2
            &&& forall|k: int|
                0 <= k < formatted.highlights.len() ==> {
                    let highlight = #[trigger] formatted.highlights[k];
                    highlight.start <= highlight.end <= byte_len(formatted.text)
                }
            &&& forall|k: int, l: int|
                0 <= k < l < formatted.highlights.len() ==> (#[trigger] formatted.highlights[k]).end
                    < (#[trigger] formatted.highlights[l]).start
        }),
{
    let formatted = entry(signature, is_active, active_parameter, count, tag);
    let marked = is_active && 0 <= active_parameter < signature.parameters.len();
    lemma_byte_len_concat(fenced(signature, tag), overload_suffix(count));
    if marked {
        lemma_current_highlight_covers_label(signature, active_parameter, count, tag);
    }
    if count >= 2 {
        lemma_overload_highlight_covers_note(signature, count, tag);
    }
}

/// Which signatures have an entry. The entries of a response are those of
/// the signatures that have a parameter, one for each and in the order of
/// the response: a signature without parameters has none.
pub proof fn lemma_entries_are_of_shown(help: RawSignatureHelpView, upto: int, tag: Option<Seq<char>>)
    requires
        upto <= help.signatures.len(),
    ensures
        entries(help, upto, tag).len() == shown(help, upto).len(),
        forall|k: int|
            0 <= k < shown(help, upto).len() ==> {
                let index = #[trigger] shown(help, upto)[k];
                &&& 0 <= index < upto
                &&& help.signatures[index].parameters.len() > 0
                &&& entries(help, upto, tag)[k] == entry_at(help, index, tag)
            },
        forall|k: int, l: int|
            0 <= k < l < shown(help, upto).len() ==> shown(help, upto)[k] < shown(help, upto)[l],
        forall|index: int|
            0 <= index < upto && help.signatures[index].parameters.len() > 0 ==> shown(
                help,
                upto,
            ).contains(index),
    decreases upto,
{
    if upto > 0 {
        lemma_entries_are_of_shown(help, upto - 1, tag);
        let earlier = shown(help, upto - 1);
        let now = shown(help, upto);
        assert forall|index: int|
            0 <= index < upto && help.signatures[index].parameters.len() > 0 implies now.contains(
            index,
        ) by {
            if index < upto - 1 {
                assert(earlier.contains(index));
                let k = choose|k: int| 0 <= k < earlier.len() && earlier[k] == index;
                assert(now[k] == index);
            } else {
                assert(now[now.len() - 1] == index);
            }
        }
    }
}

/// A signature that has a parameter has its entry behind those of the
/// signatures before it.
pub proof fn lemma_entry_position(help: RawSignatureHelpView, index: int, tag: Option<Seq<char>>)
    requires
        0 <= index < help.signatures.len(),
        help.signatures[index].parameters.len() > 0,
    ensures
        ({
            let all = entries(help, help.signatures.len() as int, tag);
            let position = entries(help, index, tag).len() as int;
            &&& position < all.len()
            &&& all[position] == entry_at(help, index, tag)
        }),
{
    let all = entries(help, help.signatures.len() as int, tag);
    let first = entries(help, index + 1, tag);
    let position = entries(help, index, tag).len() as int;
    lemma_entries_grow(help, index + 1, help.signatures.len() as int, tag);
    assert(first[position] == entry_at(help, index, tag));
    assert(all.subrange(0, first.len() as int)[position] == all[position]);
}

/// The entries of fewer signatures are the first entries of more.
proof fn lemma_entries_grow(
    help: RawSignatureHelpView,
    fewer: int,
    more: int,
    tag: Option<Seq<char>>,
)
    requires
        0 <= fewer <= more,
    ensures
        entries(help, fewer, tag).is_prefix_of(entries(help, more, tag)),
    decreases more - fewer,
{
    if fewer < more {
        lemma_entries_grow(help, fewer, more - 1, tag);
    }
}

/// The active parameter of the active signature is highlighted. For a
/// response whose active signature exists and whose active parameter is one
/// of that signature's: the response is formatted, the active signature has
/// an entry, and among the highlights of that entry exactly one marks the
/// active parameter: the first. It starts where the label of that parameter
/// starts in the line, behind the opening fence and the earlier labels with
/// their separators, and covers the bytes of the label.
pub proof fn lemma_active_parameter_highlighted(
    help: RawSignatureHelpView,
    tag: Option<Seq<char>>,
)
    requires
        help.active_signature matches Some(i) && i < help.signatures.len(),
        help.active_parameter matches Some(j) && j < help.signatures[
            help.active_signature->0 as int
        ].parameters.len(),
    ensures
        formatted(help, tag) matches Some(helps) && {
            let i = help.active_signature->0 as int;
            let j = help.active_parameter->0 as int;
            let position = entries(help, i, tag).len() as int;
            let label = labels(help.signatures[i])[j];
            let before = opening(tag) + before_label(labels(help.signatures[i]), j);
            &&& position < helps.entries.len()
            &&& helps.entries[position] == entry_at(help, i, tag)
            &&& count_of(helps.entries[position].highlights, HighlightKind::Current) == 1
            &&& helps.entries[position].highlights[0].kind == HighlightKind::Current
            &&& (before + label).is_prefix_of(helps.entries[position].text)
            &&& helps.entries[position].highlights[0].start == byte_len(before)
            &&& helps.entries[position].highlights[0].end == byte_len(before) + byte_len(label)
            &&& covered(helps.entries[position].text, helps.entries[position].highlights[0])
                == encode_utf8(label)
        },
{
    let i = help.active_signature->0 as int;
    let j = help.active_parameter->0 as int;
    let signature = help.signatures[i];
    let count = help.signatures.len();
    lemma_entry_position(help, i, tag);
    lemma_current_highlight_covers_label(signature, j, count, tag);
    lemma_current_count(signature, true, j, count, tag);
}

/// How many highlights mark a parameter: one on the active signature, where
/// it has a parameter at the active index, and none on any other line.
pub proof fn lemma_current_count(
    signature: RawSignatureView,
    is_active: bool,
    active_parameter: int,
    count: nat,
    tag: Option<Seq<char>>,
)
    ensures
        count_of(
            entry(signature, is_active, active_parameter, count, tag).highlights,
            HighlightKind::Current,
        ) == if is_active && 0 <= active_parameter < signature.parameters.len() {
            1nat
        } else {
            0nat
        },
{
    let formatted = entry(signature, is_active, active_parameter, count, tag);
    let marked = is_active && 0 <= active_parameter < signature.parameters.len();
    let current = current_highlight(signature, active_parameter, tag);
    let overload = overload_highlight(signature, count, tag);
    reveal_with_fuel(count_of, 3);
    if marked && count > 1 {
        assert(formatted.highlights =~= seq![current, overload]);
        assert(formatted.highlights.drop_last() =~= seq![current]);
        assert(seq![current].drop_last() =~= Seq::<HighlightView>::empty());
    } else if marked {
        assert(formatted.highlights =~= seq![current]);
        assert(formatted.highlights.drop_last() =~= Seq::<HighlightView>::empty());
    } else if count > 1 {
        assert(formatted.highlights =~= seq![overload]);
        assert(formatted.highlights.drop_last() =~= Seq::<HighlightView>::empty());
    } else {
        assert(formatted.highlights =~= Seq::<HighlightView>::empty());
    }
}

/// Whether `text` ends with `ending`.
pub open spec fn ends_with(text: Seq<char>, ending: Seq<char>) -> bool {
    ending.len() <= text.len() && text.subrange(text.len() - ending.len(), text.len() as int)
        == ending
}

/// What holds of a line of a response with `count` signatures: its
/// highlights lie in the line, in order and apart from each other; at most
/// one marks a parameter; with two signatures or more the line ends with a
/// space and the note on the others, and exactly one highlight, the last,
/// marks the note and covers it; with one signature none marks a note.
pub open spec fn well_marked(formatted: SignatureHelpView, count: nat) -> bool {
    let note = overload_note((count - 1) as nat);
    &&& forall|k: int|
        0 <= k < formatted.highlights.len() ==> {
            let highlight = #[trigger] formatted.highlights[k];
            highlight.start <= highlight.end <= byte_len(formatted.text)
        }
    &&& forall|k: int, l: int|
        0 <= k < l < formatted.highlights.len() ==> (#[trigger] formatted.highlights[k]).end
            < (#[trigger] formatted.highlights[l]).start
    &&& count_of(formatted.highlights, HighlightKind::Current) <= 1
    &&& count >= 2 ==> {
        &&& ends_with(formatted.text, " "@ + note)
        &&& count_of(formatted.highlights, HighlightKind::Overload) == 1
        &&& formatted.highlights.last().kind == HighlightKind::Overload
        &&& covered(formatted.text, formatted.highlights.last()) == encode_utf8(note)
    }
    &&& count <= 1 ==> count_of(formatted.highlights, HighlightKind::Overload) == 0
}

/// Every line of a formatted response is well marked.
pub proof fn lemma_every_line_well_marked(help: RawSignatureHelpView, tag: Option<Seq<char>>)
    requires
        !not_available(help),
    ensures
        formatted(help, tag) matches Some(helps) && forall|k: int|
            0 <= k < helps.entries.len() ==> well_marked(
                #[trigger] helps.entries[k],
                help.signatures.len(),
            ),
{
    let count = help.signatures.len();
    let all = entries(help, count as int, tag);
    lemma_entries_are_of_shown(help, count as int, tag);
    assert forall|k: int| 0 <= k < all.len() implies well_marked(#[trigger] all[k], count) by {
        let index = shown(help, count as int)[k];
        let signature = help.signatures[index];
        let active = is_active(help, index);
        let j = help.active_parameter->0 as int;
        assert(all[k] == entry(signature, active, j, count, tag));
        lemma_highlights_in_line(signature, active, j, count, tag);
        lemma_current_count(signature, active, j, count, tag);
        lemma_overload_note(signature, active, j, count, tag);
        if count >= 2 {
            let ending = " "@ + overload_note((count - 1) as nat);
            assert(all[k].text =~= fenced(signature, tag) + ending);
            assert(all[k].text.subrange(all[k].text.len() - ending.len(), all[k].text.len() as int)
                =~= ending);
        }
    }
}

/// There is nothing to show exactly where the response names no active
/// signature, or no active parameter, or has no signature.
pub proof fn lemma_not_available(help: RawSignatureHelpView, tag: Option<Seq<char>>)
    ensures
        formatted(help, tag) is None <==> (help.active_signature is None
            || help.active_parameter is None || help.signatures.len() == 0),
{
}

/// Offsets that end past the last character of the signature's label give
/// the empty label, and so do offsets that start behind their end.
pub proof fn lemma_offsets_out_of_range(signature_label: Seq<char>, start: u32, end: u32)
    requires
        end > signature_label.len() || start > end,
    ensures
        resolved_label(signature_label, ParameterLabelView::LabelOffsets(start, end))
            == Seq::<char>::empty(),
{
}

/// Offsets that are a range of the signature's label give the characters
/// of that range.
pub proof fn lemma_offsets_in_range(signature_label: Seq<char>, start: u32, end: u32)
    requires
        start <= end <= signature_label.len(),
    ensures
        resolved_label(signature_label, ParameterLabelView::LabelOffsets(start, end))
            == signature_label.subrange(start as int, end as int),
{
}

} // verus!
