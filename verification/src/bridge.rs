//! The bridge between the response of a language server and the message
//! that peers exchange.
//!
//! Lowering writes a response as a message and loses nothing. Raising reads
//! a message back; a peer may have left out the tag of a union, and raising
//! drops what has none: a parameter without a label tag leaves the parameter
//! list, a documentation without a content tag counts as absent.

use crate::raw::{
    documentation_view, parameters_view, signatures_view, Documentation, DocumentationView,
    MarkupContent, MarkupContentView, MarkupKind, ParameterLabel, ParameterLabelView,
    RawParameter, RawParameterView, RawSignature, RawSignatureHelp, RawSignatureHelpView,
    RawSignatureView,
};
use crate::wire::{
    wire_documentation_view, wire_parameters_view, wire_signatures_view, WireContent,
    WireContentView, WireDocumentation, WireDocumentationView, WireLabel, WireLabelView,
    WireParameter, WireParameterView, WireSignature, WireSignatureHelp, WireSignatureHelpView,
    WireSignatureView,
};
use vstd::prelude::*;

verus! {

/// The content that a documentation is lowered to: free text stays free
/// text, and tagged text keeps its value with a flag for Markdown.
pub open spec fn lower_documentation(documentation: DocumentationView) -> WireDocumentationView {
    WireDocumentationView {
        content: Some(
            match documentation {
                DocumentationView::String(text) => WireContentView::PlainOrMarkup(text),
                DocumentationView::MarkupContent(content) => WireContentView::Markup {
                    is_markdown: content.kind == MarkupKind::Markdown,
                    value: content.value,
                },
            },
        ),
    }
}

/// The documentation that a message's documentation is raised to: none
/// where the content has no tag.
pub open spec fn raise_documentation(documentation: WireDocumentationView) -> Option<
    DocumentationView,
> {
    match documentation.content {
        None => None,
        Some(WireContentView::PlainOrMarkup(text)) => Some(DocumentationView::String(text)),
        Some(WireContentView::Markup { is_markdown, value }) => Some(
            DocumentationView::MarkupContent(
                MarkupContentView {
                    kind: if is_markdown {
                        MarkupKind::Markdown
                    } else {
                        MarkupKind::PlainText
                    },
                    value,
                },
            ),
        ),
    }
}

/// Lowering of a documentation that may be absent.
pub open spec fn lower_optional_documentation(documentation: Option<DocumentationView>) -> Option<
    WireDocumentationView,
> {
    match documentation {
        Some(documentation) => Some(lower_documentation(documentation)),
        None => None,
    }
}

/// Raising of a documentation that may be absent.
pub open spec fn raise_optional_documentation(
    documentation: Option<WireDocumentationView>,
) -> Option<DocumentationView> {
    match documentation {
        Some(documentation) => raise_documentation(documentation),
        None => None,
    }
}

/// The tagged label that a label is lowered to.
pub open spec fn lower_label(label: ParameterLabelView) -> WireLabelView {
    match label {
        ParameterLabelView::Simple(text) => WireLabelView::Simple(text),
        ParameterLabelView::LabelOffsets(start, end) => WireLabelView::Offsets { start, end },
    }
}

/// The label that a tagged label is raised to.
pub open spec fn raise_label(label: WireLabelView) -> ParameterLabelView {
    match label {
        WireLabelView::Simple(text) => ParameterLabelView::Simple(text),
        WireLabelView::Offsets { start, end } => ParameterLabelView::LabelOffsets(start, end),
    }
}

pub open spec fn lower_parameter(parameter: RawParameterView) -> WireParameterView {
    WireParameterView {
        label: Some(lower_label(parameter.label)),
        documentation: lower_optional_documentation(parameter.documentation),
    }
}

/// The parameter that a message's parameter is raised to: none where its
/// label has no tag.
pub open spec fn raise_parameter(parameter: WireParameterView) -> Option<RawParameterView> {
    match parameter.label {
        Some(label) => Some(
            RawParameterView {
                label: raise_label(label),
                documentation: raise_optional_documentation(parameter.documentation),
            },
        ),
        None => None,
    }
}

pub open spec fn lower_parameters(parameters: Seq<RawParameterView>) -> Seq<WireParameterView> {
    Seq::new(parameters.len(), |i: int| lower_parameter(parameters[i]))
}

/// The parameters that raise to one, raised and in their order.
pub open spec fn raise_parameters(parameters: Seq<WireParameterView>) -> Seq<RawParameterView>
    decreases parameters.len(),
{
    if parameters.len() == 0 {
        Seq::empty()
    } else {
        let earlier = raise_parameters(parameters.drop_last());
        match raise_parameter(parameters.last()) {
            Some(parameter) => earlier.push(parameter),
            None => earlier,
        }
    }
}

pub open spec fn lower_signature(signature: RawSignatureView) -> WireSignatureView {
    WireSignatureView {
        label: signature.label,
        documentation: lower_optional_documentation(signature.documentation),
        parameters: lower_parameters(signature.parameters),
        active_parameter: signature.active_parameter,
    }
}

pub open spec fn raise_signature(signature: WireSignatureView) -> RawSignatureView {
    RawSignatureView {
        label: signature.label,
        documentation: raise_optional_documentation(signature.documentation),
        parameters: raise_parameters(signature.parameters),
        active_parameter: signature.active_parameter,
    }
}

/// The message that a response is lowered to, field for field.
pub open spec fn lower(help: RawSignatureHelpView) -> WireSignatureHelpView {
    WireSignatureHelpView {
        signatures: Seq::new(help.signatures.len(), |i: int| lower_signature(help.signatures[i])),
        active_signature: help.active_signature,
        active_parameter: help.active_parameter,
    }
}

/// The response that a message is raised to. Every signature of the message
/// has one in the response, at the same place.
pub open spec fn raise(help: WireSignatureHelpView) -> RawSignatureHelpView {
    RawSignatureHelpView {
        signatures: Seq::new(help.signatures.len(), |i: int| raise_signature(help.signatures[i])),
        active_signature: help.active_signature,
        active_parameter: help.active_parameter,
    }
}

/// Every union of the message has its tag: each parameter a label, each
/// documentation that is there a content.
pub open spec fn every_tag_set(help: WireSignatureHelpView) -> bool {
    forall|i: int|
        0 <= i < help.signatures.len() ==> signature_tags_set(#[trigger] help.signatures[i])
}

pub open spec fn signature_tags_set(signature: WireSignatureView) -> bool {
    &&& documentation_tag_set(signature.documentation)
    &&& forall|k: int|
        0 <= k < signature.parameters.len() ==> parameter_tags_set(
            #[trigger] signature.parameters[k],
        )
}

pub open spec fn parameter_tags_set(parameter: WireParameterView) -> bool {
    &&& parameter.label is Some
    &&& documentation_tag_set(parameter.documentation)
}

pub open spec fn documentation_tag_set(documentation: Option<WireDocumentationView>) -> bool {
    documentation matches Some(documentation) ==> documentation.content is Some
}

/// A documentation that is lowered and raised again comes back as it was.
pub proof fn lemma_documentation_round_trip(documentation: Option<DocumentationView>)
    ensures
        raise_optional_documentation(lower_optional_documentation(documentation))
            == documentation,
        documentation_tag_set(lower_optional_documentation(documentation)),
{
}

/// Parameters that are lowered and raised again come back as they were:
/// none is dropped, since lowering sets every tag.
pub proof fn lemma_parameters_round_trip(parameters: Seq<RawParameterView>)
    ensures
        raise_parameters(lower_parameters(parameters)) == parameters,
    decreases parameters.len(),
{
    let lowered = lower_parameters(parameters);
    if parameters.len() > 0 {
        assert(lowered.drop_last() =~= lower_parameters(parameters.drop_last()));
        lemma_parameters_round_trip(parameters.drop_last());
        lemma_documentation_round_trip(parameters.last().documentation);
        assert(raise_parameter(lowered.last()) == Some(parameters.last()));
        assert(parameters.drop_last().push(parameters.last()) =~= parameters);
    } else {
        assert(raise_parameters(lowered) =~= parameters);
    }
}

/// Raising keeps every parameter whose label has its tag, so the raised
/// list of parameters that all have one lowers to the list itself.
pub proof fn lemma_parameters_raise_lower(parameters: Seq<WireParameterView>)
    requires
        forall|k: int| 0 <= k < parameters.len() ==> parameter_tags_set(#[trigger] parameters[k]),
    ensures
        raise_parameters(parameters).len() == parameters.len(),
        lower_parameters(raise_parameters(parameters)) == parameters,
    decreases parameters.len(),
{
    if parameters.len() > 0 {
        let earlier = parameters.drop_last();
        assert forall|k: int| 0 <= k < earlier.len() implies parameter_tags_set(
            #[trigger] earlier[k],
        ) by {
            assert(earlier[k] == parameters[k]);
        }
        lemma_parameters_raise_lower(earlier);
        let last = parameters.last();
        assert(parameter_tags_set(last));
        let raised = raise_parameter(last)->0;
        assert(lower_parameter(raised) == last);
        assert(lower_parameters(raise_parameters(parameters)) =~= lower_parameters(
            raise_parameters(earlier),
        ).push(last));
        assert(earlier.push(last) =~= parameters);
    } else {
        assert(lower_parameters(raise_parameters(parameters)) =~= parameters);
    }
}

/// Round trip from the response: for every response `help`, raising the
/// message that `help` is lowered to gives a response structurally equal to
/// `help`.
pub proof fn lemma_raise_lower(help: RawSignatureHelpView)
    ensures
        raise(lower(help)) == help,
        every_tag_set(lower(help)),
{
    let lowered = lower(help);
    assert forall|i: int| 0 <= i < help.signatures.len() implies raise_signature(
        #[trigger] lowered.signatures[i],
    ) == help.signatures[i] && signature_tags_set(lowered.signatures[i]) by {
        let signature = help.signatures[i];
        lemma_documentation_round_trip(signature.documentation);
        lemma_parameters_round_trip(signature.parameters);
        assert forall|k: int| 0 <= k < signature.parameters.len() implies parameter_tags_set(
            #[trigger] lower_signature(signature).parameters[k],
        ) by {
            lemma_documentation_round_trip(signature.parameters[k].documentation);
        }
    }
    assert(raise(lowered).signatures =~= help.signatures);
}

/// Round trip from the message: for every message `help` in which every
/// union has its tag, lowering the response that `help` is raised to gives
/// a message structurally equal to `help`.
pub proof fn lemma_lower_raise(help: WireSignatureHelpView)
    requires
        every_tag_set(help),
    ensures
        lower(raise(help)) == help,
{
    let raised = raise(help);
    assert forall|i: int| 0 <= i < help.signatures.len() implies lower_signature(
        #[trigger] raised.signatures[i],
    ) == help.signatures[i] by {
        let signature = help.signatures[i];
        assert(signature_tags_set(signature));
        lemma_parameters_raise_lower(signature.parameters);
    }
    assert(lower(raised).signatures =~= help.signatures);
}

pub fn lsp_to_proto_documentation(documentation: Documentation) -> (lowered: WireDocumentation)
    ensures
        lowered@ == lower_documentation(documentation@),
{
    WireDocumentation {
        content: Some(
            match documentation {
                Documentation::String(text) => WireContent::PlainOrMarkup(text),
                Documentation::MarkupContent(content) => WireContent::Markup {
                    is_markdown: matches!(content.kind, MarkupKind::Markdown),
                    value: content.value,
                },
            },
        ),
    }
}

pub fn proto_to_lsp_documentation(documentation: WireDocumentation) -> (raised: Option<
    Documentation,
>)
    ensures
        documentation_view(raised) == raise_documentation(documentation@),
{
    match documentation.content {
        None => None,
        Some(WireContent::PlainOrMarkup(text)) => Some(Documentation::String(text)),
        Some(WireContent::Markup { is_markdown, value }) => Some(
            Documentation::MarkupContent(
                if is_markdown {
                    MarkupContent { kind: MarkupKind::Markdown, value }
                } else {
                    MarkupContent { kind: MarkupKind::PlainText, value }
                },
            ),
        ),
    }
}

fn lower_optional(documentation: Option<Documentation>) -> (lowered: Option<WireDocumentation>)
    ensures
        wire_documentation_view(lowered) == lower_optional_documentation(
            documentation_view(documentation),
        ),
{
    match documentation {
        Some(documentation) => Some(lsp_to_proto_documentation(documentation)),
        None => None,
    }
}

fn raise_optional(documentation: Option<WireDocumentation>) -> (raised: Option<Documentation>)
    ensures
        documentation_view(raised) == raise_optional_documentation(
            wire_documentation_view(documentation),
        ),
{
    match documentation {
        Some(documentation) => proto_to_lsp_documentation(documentation),
        None => None,
    }
}

fn lower_one_parameter(parameter: RawParameter) -> (lowered: WireParameter)
    ensures
        lowered@ == lower_parameter(parameter@),
{
    WireParameter {
        label: Some(
            match parameter.label {
                ParameterLabel::Simple(text) => WireLabel::Simple(text),
                ParameterLabel::LabelOffsets(start, end) => WireLabel::Offsets { start, end },
            },
        ),
        documentation: lower_optional(parameter.documentation),
    }
}

fn raise_one_parameter(parameter: WireParameter) -> (raised: Option<RawParameter>)
    ensures
        match raised {
            Some(raised) => Some(raised@),
            None => None,
        } == raise_parameter(parameter@),
{
    match parameter.label {
        Some(label) => Some(
            RawParameter {
                label: match label {
                    WireLabel::Simple(text) => ParameterLabel::Simple(text),
                    WireLabel::Offsets { start, end } => ParameterLabel::LabelOffsets(start, end),
                },
                documentation: raise_optional(parameter.documentation),
            },
        ),
        None => None,
    }
}

fn lower_one_signature(signature: RawSignature) -> (lowered: WireSignature)
    ensures
        lowered@ == lower_signature(signature@),
{
    let ghost given = signature.parameters@;
    let mut parameters: Vec<WireParameter> = Vec::new();
    for parameter in iter: signature.parameters.into_iter()
        invariant
            iter.seq() == given,
            parameters@.len() == iter.index(),
            forall|k: int|
                0 <= k < iter.index() ==> (#[trigger] parameters@[k])@ == lower_parameter(
                    given[k]@,
                ),
    {
        parameters.push(lower_one_parameter(parameter));
    }
    assert(wire_parameters_view(parameters@) =~= lower_parameters(parameters_view(given)));
    WireSignature {
        label: signature.label,
        documentation: lower_optional(signature.documentation),
        parameters,
        active_parameter: signature.active_parameter,
    }
}

fn raise_one_signature(signature: WireSignature) -> (raised: RawSignature)
    ensures
        raised@ == raise_signature(signature@),
{
    let ghost given = signature.parameters@;
    let mut parameters: Vec<RawParameter> = Vec::new();
    for parameter in iter: signature.parameters.into_iter()
        invariant
            iter.seq() == given,
            parameters_view(parameters@) == raise_parameters(
                wire_parameters_view(given.take(iter.index())),
            ),
    {
        proof {
            let before = wire_parameters_view(given.take(iter.index()));
            let after = wire_parameters_view(given.take(iter.index() + 1));
            assert(after.drop_last() =~= before);
            assert(after.last() == parameter@);
        }
        let ghost earlier = parameters@;
        match raise_one_parameter(parameter) {
            Some(raised) => {
                parameters.push(raised);
                assert(parameters_view(parameters@) =~= parameters_view(earlier).push(raised@));
            },
            None => {},
        }
    }
    assert(given.take(given.len() as int) =~= given);
    RawSignature {
        label: signature.label,
        documentation: raise_optional(signature.documentation),
        parameters,
        active_parameter: signature.active_parameter,
    }
}

/// Lowers a response to the message for peers.
pub fn lsp_to_proto_signature(lsp_help: RawSignatureHelp) -> (proto_help: WireSignatureHelp)
    ensures
        proto_help@ == lower(lsp_help@),
{
    let ghost given = lsp_help.signatures@;
    let mut signatures: Vec<WireSignature> = Vec::new();
    for signature in iter: lsp_help.signatures.into_iter()
        invariant
            iter.seq() == given,
            signatures@.len() == iter.index(),
            forall|i: int|
                0 <= i < iter.index() ==> (#[trigger] signatures@[i])@ == lower_signature(
                    given[i]@,
                ),
    {
        signatures.push(lower_one_signature(signature));
    }
    assert(wire_signatures_view(signatures@) =~= lower(lsp_help@).signatures);
    WireSignatureHelp {
        signatures,
        active_signature: lsp_help.active_signature,
        active_parameter: lsp_help.active_parameter,
    }
}

/// Raises a message from a peer to a response.
pub fn proto_to_lsp_signature(proto_help: WireSignatureHelp) -> (lsp_help: RawSignatureHelp)
    ensures
        lsp_help@ == raise(proto_help@),
{
    let ghost given = proto_help.signatures@;
    let mut signatures: Vec<RawSignature> = Vec::new();
    for signature in iter: proto_help.signatures.into_iter()
        invariant
            iter.seq() == given,
            signatures@.len() == iter.index(),
            forall|i: int|
                0 <= i < iter.index() ==> (#[trigger] signatures@[i])@ == raise_signature(
                    given[i]@,
                ),
    {
        signatures.push(raise_one_signature(signature));
    }
    assert(signatures_view(signatures@) =~= raise(proto_help@).signatures);
    RawSignatureHelp {
        signatures,
        active_signature: proto_help.active_signature,
        active_parameter: proto_help.active_parameter,
    }
}

} // verus!
