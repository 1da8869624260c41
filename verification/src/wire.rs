//! The signature-help message that is sent to collaborating peers.
//!
//! The message has the shape of the response, with its two choices written
//! as tagged unions. A message that comes from a peer may lack a tag: the
//! label of a parameter and the content of a documentation are optional.

use vstd::prelude::*;

verus! {

/// The label of a parameter: its text, or the range of characters that it
/// occupies in the label of its signature.
#[derive(Clone, Debug, PartialEq, Eq)]
pub enum WireLabel {
    Simple(String),
    Offsets { start: u32, end: u32 },
}

pub enum WireLabelView {
    Simple(Seq<char>),
    Offsets { start: u32, end: u32 },
}

impl View for WireLabel {
    type V = WireLabelView;

    open spec fn view(&self) -> WireLabelView {
        match self {
            WireLabel::Simple(text) => WireLabelView::Simple(text@),
            WireLabel::Offsets { start, end } => WireLabelView::Offsets {
                start: *start,
                end: *end,
            },
        }
    }
}

/// The content of a documentation: free text, or text with a flag that says
/// whether it is Markdown.
#[derive(Clone, Debug, PartialEq, Eq)]
pub enum WireContent {
    PlainOrMarkup(String),
    Markup { is_markdown: bool, value: String },
}

pub enum WireContentView {
    PlainOrMarkup(Seq<char>),
    Markup { is_markdown: bool, value: Seq<char> },
}

impl View for WireContent {
    type V = WireContentView;

    open spec fn view(&self) -> WireContentView {
        match self {
            WireContent::PlainOrMarkup(text) => WireContentView::PlainOrMarkup(text@),
            WireContent::Markup { is_markdown, value } => WireContentView::Markup {
                is_markdown: *is_markdown,
                value: value@,
            },
        }
    }
}

/// A documentation; `content` is `None` where the message gave no tag.
#[derive(Clone, Debug, PartialEq, Eq)]
pub struct WireDocumentation {
    pub content: Option<WireContent>,
}

pub struct WireDocumentationView {
    pub content: Option<WireContentView>,
}

impl View for WireDocumentation {
    type V = WireDocumentationView;

    open spec fn view(&self) -> WireDocumentationView {
        WireDocumentationView {
            content: match self.content {
                Some(content) => Some(content@),
                None => None,
            },
        }
    }
}

/// One parameter; `label` is `None` where the message gave no tag.
#[derive(Clone, Debug, PartialEq, Eq)]
pub struct WireParameter {
    pub label: Option<WireLabel>,
    pub documentation: Option<WireDocumentation>,
}

pub struct WireParameterView {
    pub label: Option<WireLabelView>,
    pub documentation: Option<WireDocumentationView>,
}

impl View for WireParameter {
    type V = WireParameterView;

    open spec fn view(&self) -> WireParameterView {
        WireParameterView {
            label: match self.label {
                Some(label) => Some(label@),
                None => None,
            },
            documentation: wire_documentation_view(self.documentation),
        }
    }
}

/// One candidate signature.
#[derive(Clone, Debug, PartialEq, Eq)]
pub struct WireSignature {
    pub label: String,
    pub documentation: Option<WireDocumentation>,
    pub parameters: Vec<WireParameter>,
    pub active_parameter: Option<u32>,
}

pub struct WireSignatureView {
    pub label: Seq<char>,
    pub documentation: Option<WireDocumentationView>,
    pub parameters: Seq<WireParameterView>,
    pub active_parameter: Option<u32>,
}

impl View for WireSignature {
    type V = WireSignatureView;

    open spec fn view(&self) -> WireSignatureView {
        WireSignatureView {
            label: self.label@,
            documentation: wire_documentation_view(self.documentation),
            parameters: wire_parameters_view(self.parameters@),
            active_parameter: self.active_parameter,
        }
    }
}

/// The message.
#[derive(Clone, Debug, PartialEq, Eq)]
pub struct WireSignatureHelp {
    pub signatures: Vec<WireSignature>,
    pub active_signature: Option<u32>,
    pub active_parameter: Option<u32>,
}

pub struct WireSignatureHelpView {
    pub signatures: Seq<WireSignatureView>,
    pub active_signature: Option<u32>,
    pub active_parameter: Option<u32>,
}

impl View for WireSignatureHelp {
    type V = WireSignatureHelpView;

    open spec fn view(&self) -> WireSignatureHelpView {
        WireSignatureHelpView {
            signatures: wire_signatures_view(self.signatures@),
            active_signature: self.active_signature,
            active_parameter: self.active_parameter,
        }
    }
}

/// The view of a documentation that may be absent.
pub open spec fn wire_documentation_view(documentation: Option<WireDocumentation>) -> Option<
    WireDocumentationView,
> {
    match documentation {
        Some(documentation) => Some(documentation@),
        None => None,
    }
}

/// The views of `parameters`, in order.
pub open spec fn wire_parameters_view(parameters: Seq<WireParameter>) -> Seq<WireParameterView> {
    Seq::new(parameters.len(), |i: int| parameters[i]@)
}

/// The views of `signatures`, in order.
pub open spec fn wire_signatures_view(signatures: Seq<WireSignature>) -> Seq<WireSignatureView> {
    Seq::new(signatures.len(), |i: int| signatures[i]@)
}

} // verus!
