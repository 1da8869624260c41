//! The signature-help response as a language server gives it.
//!
//! Each type has a view that holds its texts as sequences of characters;
//! two values are structurally equal when their views are equal.

use vstd::prelude::*;

verus! {

/// How the text of a [`MarkupContent`] is to be read.
#[derive(Clone, Copy, Debug, PartialEq, Eq)]
pub enum MarkupKind {
    PlainText,
    Markdown,
}

/// A text together with the format it is written in.
#[derive(Clone, Debug, PartialEq, Eq)]
pub struct MarkupContent {
    pub kind: MarkupKind,
    pub value: String,
}

pub struct MarkupContentView {
    pub kind: MarkupKind,
    pub value: Seq<char>,
}

impl View for MarkupContent {
    type V = MarkupContentView;

    open spec fn view(&self) -> MarkupContentView {
        MarkupContentView { kind: self.kind, value: self.value@ }
    }
}

/// The documentation of a signature or of a parameter: free text, or text
/// tagged with its format.
#[derive(Clone, Debug, PartialEq, Eq)]
pub enum Documentation {
    String(String),
    MarkupContent(MarkupContent),
}

pub enum DocumentationView {
    String(Seq<char>),
    MarkupContent(MarkupContentView),
}

impl View for Documentation {
    type V = DocumentationView;

    open spec fn view(&self) -> DocumentationView {
        match self {
            Documentation::String(text) => DocumentationView::String(text@),
            Documentation::MarkupContent(content) => DocumentationView::MarkupContent(content@),
        }
    }
}

/// The label of a parameter: its text, or the half-open range of characters
/// that it occupies in the label of its signature.
#[derive(Clone, Debug, PartialEq, Eq)]
pub enum ParameterLabel {
    Simple(String),
    LabelOffsets(u32, u32),
}

pub enum ParameterLabelView {
    Simple(Seq<char>),
    LabelOffsets(u32, u32),
}

impl View for ParameterLabel {
    type V = ParameterLabelView;

    open spec fn view(&self) -> ParameterLabelView {
        match self {
            ParameterLabel::Simple(text) => ParameterLabelView::Simple(text@),
            ParameterLabel::LabelOffsets(start, end) => ParameterLabelView::LabelOffsets(
                *start,
                *end,
            ),
        }
    }
}

/// One parameter of a signature.
#[derive(Clone, Debug, PartialEq, Eq)]
pub struct RawParameter {
    pub label: ParameterLabel,
    pub documentation: Option<Documentation>,
}

pub struct RawParameterView {
    pub label: ParameterLabelView,
    pub documentation: Option<DocumentationView>,
}

impl View for RawParameter {
    type V = RawParameterView;

    open spec fn view(&self) -> RawParameterView {
        RawParameterView {
            label: self.label@,
            documentation: documentation_view(self.documentation),
        }
    }
}

/// One candidate signature.
#[derive(Clone, Debug, PartialEq, Eq)]
pub struct RawSignature {
    /// The whole signature as text; offset labels point into it.
    pub label: String,
    pub documentation: Option<Documentation>,
    pub parameters: Vec<RawParameter>,
    /// An active parameter of this signature's own. It is carried along and
    /// not read when the signature is formatted.
    pub active_parameter: Option<u32>,
}

pub struct RawSignatureView {
    pub label: Seq<char>,
    pub documentation: Option<DocumentationView>,
    pub parameters: Seq<RawParameterView>,
    pub active_parameter: Option<u32>,
}

impl View for RawSignature {
    type V = RawSignatureView;

    open spec fn view(&self) -> RawSignatureView {
        RawSignatureView {
            label: self.label@,
            documentation: documentation_view(self.documentation),
            parameters: parameters_view(self.parameters@),
            active_parameter: self.active_parameter,
        }
    }
}

/// The response: the signatures in the order in which they are shown, and
/// which signature and which parameter are active.
#[derive(Clone, Debug, PartialEq, Eq)]
pub struct RawSignatureHelp {
    pub signatures: Vec<RawSignature>,
    pub active_signature: Option<u32>,
    pub active_parameter: Option<u32>,
}

pub struct RawSignatureHelpView {
    pub signatures: Seq<RawSignatureView>,
    pub active_signature: Option<u32>,
    pub active_parameter: Option<u32>,
}

impl View for RawSignatureHelp {
    type V = RawSignatureHelpView;

    open spec fn view(&self) -> RawSignatureHelpView {
        RawSignatureHelpView {
            signatures: signatures_view(self.signatures@),
            active_signature: self.active_signature,
            active_parameter: self.active_parameter,
        }
    }
}

/// The view of a documentation that may be absent.
pub open spec fn documentation_view(documentation: Option<Documentation>) -> Option<
    DocumentationView,
> {
    match documentation {
        Some(documentation) => Some(documentation@),
        None => None,
    }
}

/// The views of `parameters`, in order.
pub open spec fn parameters_view(parameters: Seq<RawParameter>) -> Seq<RawParameterView> {
    Seq::new(parameters.len(), |i: int| parameters[i]@)
}

/// The views of `signatures`, in order.
pub open spec fn signatures_view(signatures: Seq<RawSignature>) -> Seq<RawSignatureView> {
    Seq::new(signatures.len(), |i: int| signatures[i]@)
}

} // verus!
