use signature_help::bridge::{
    lsp_to_proto_documentation, lsp_to_proto_signature, proto_to_lsp_documentation,
    proto_to_lsp_signature,
};
use signature_help::raw::{
    Documentation, MarkupContent, MarkupKind, ParameterLabel, RawParameter, RawSignature,
    RawSignatureHelp,
};
use signature_help::wire::{
    WireContent, WireDocumentation, WireLabel, WireParameter, WireSignature, WireSignatureHelp,
};

fn response() -> RawSignatureHelp {
    RawSignatureHelp {
        signatures: vec![
            RawSignature {
                label: "fn test1(foo: u8, bar: &str)".to_string(),
                documentation: Some(Documentation::String("a test".to_string())),
                parameters: vec![
                    RawParameter {
                        label: ParameterLabel::Simple("foo: u8".to_string()),
                        documentation: Some(Documentation::MarkupContent(MarkupContent {
                            kind: MarkupKind::Markdown,
                            value: "a **byte**".to_string(),
                        })),
                    },
                    RawParameter {
                        label: ParameterLabel::LabelOffsets(18, 27),
                        documentation: Some(Documentation::MarkupContent(MarkupContent {
                            kind: MarkupKind::PlainText,
                            value: "a text".to_string(),
                        })),
                    },
                ],
                active_parameter: Some(1),
            },
            RawSignature {
                label: "fn test2()".to_string(),
                documentation: None,
                parameters: vec![],
                active_parameter: None,
            },
        ],
        active_signature: Some(1),
        active_parameter: Some(3),
    }
}

fn message() -> WireSignatureHelp {
    WireSignatureHelp {
        signatures: vec![
            WireSignature {
                label: "fn test1(foo: u8, bar: &str)".to_string(),
                documentation: Some(WireDocumentation {
                    content: Some(WireContent::PlainOrMarkup("a test".to_string())),
                }),
                parameters: vec![
                    WireParameter {
                        label: Some(WireLabel::Simple("foo: u8".to_string())),
                        documentation: Some(WireDocumentation {
                            content: Some(WireContent::Markup {
                                is_markdown: true,
                                value: "a **byte**".to_string(),
                            }),
                        }),
                    },
                    WireParameter {
                        label: Some(WireLabel::Offsets { start: 18, end: 27 }),
                        documentation: Some(WireDocumentation {
                            content: Some(WireContent::Markup {
                                is_markdown: false,
                                value: "a text".to_string(),
                            }),
                        }),
                    },
                ],
                active_parameter: Some(1),
            },
            WireSignature {
                label: "fn test2()".to_string(),
                documentation: None,
                parameters: vec![],
                active_parameter: None,
            },
        ],
        active_signature: Some(1),
        active_parameter: Some(3),
    }
}

#[test]
fn lowering_maps_field_for_field() {
    assert_eq!(lsp_to_proto_signature(response()), message());
}

#[test]
fn raising_maps_field_for_field() {
    assert_eq!(proto_to_lsp_signature(message()), response());
}

#[test]
fn raising_what_was_lowered_gives_the_response_back() {
    let help = response();
    assert_eq!(proto_to_lsp_signature(lsp_to_proto_signature(help.clone())), help);
    let empty =
        RawSignatureHelp { signatures: vec![], active_signature: None, active_parameter: None };
    assert_eq!(proto_to_lsp_signature(lsp_to_proto_signature(empty.clone())), empty);
}

#[test]
fn lowering_what_was_raised_gives_the_message_back() {
    let help = message();
    assert_eq!(lsp_to_proto_signature(proto_to_lsp_signature(help.clone())), help);
}

#[test]
fn parameter_without_label_tag_is_dropped() {
    let mut help = message();
    help.signatures[0].parameters.insert(
        1,
        WireParameter {
            label: None,
            documentation: Some(WireDocumentation {
                content: Some(WireContent::PlainOrMarkup("lost".to_string())),
            }),
        },
    );
    help.signatures[1].parameters.push(WireParameter { label: None, documentation: None });
    let raised = proto_to_lsp_signature(help);
    assert_eq!(raised, response());
    assert_eq!(raised.signatures[0].parameters.len(), 2);
    assert!(raised.signatures[1].parameters.is_empty());
}

#[test]
fn documentation_without_content_tag_is_absent() {
    let mut help = message();
    help.signatures[0].documentation = Some(WireDocumentation { content: None });
    help.signatures[0].parameters[1].documentation = Some(WireDocumentation { content: None });
    let raised = proto_to_lsp_signature(help);
    let mut expected = response();
    expected.signatures[0].documentation = None;
    expected.signatures[0].parameters[1].documentation = None;
    assert_eq!(raised, expected);
}

#[test]
fn documentation_is_lowered_by_its_shape() {
    assert_eq!(
        lsp_to_proto_documentation(Documentation::String("text".to_string())),
        WireDocumentation { content: Some(WireContent::PlainOrMarkup("text".to_string())) }
    );
    assert_eq!(
        lsp_to_proto_documentation(Documentation::MarkupContent(MarkupContent {
            kind: MarkupKind::Markdown,
            value: "# text".to_string(),
        })),
        WireDocumentation {
            content: Some(WireContent::Markup { is_markdown: true, value: "# text".to_string() })
        }
    );
    assert_eq!(
        lsp_to_proto_documentation(Documentation::MarkupContent(MarkupContent {
            kind: MarkupKind::PlainText,
            value: "text".to_string(),
        })),
        WireDocumentation {
            content: Some(WireContent::Markup { is_markdown: false, value: "text".to_string() })
        }
    );
}

#[test]
fn documentation_is_raised_by_its_tag() {
    assert_eq!(proto_to_lsp_documentation(WireDocumentation { content: None }), None);
    assert_eq!(
        proto_to_lsp_documentation(WireDocumentation {
            content: Some(WireContent::PlainOrMarkup("text".to_string()))
        }),
        Some(Documentation::String("text".to_string()))
    );
    assert_eq!(
        proto_to_lsp_documentation(WireDocumentation {
            content: Some(WireContent::Markup { is_markdown: true, value: "# text".to_string() })
        }),
        Some(Documentation::MarkupContent(MarkupContent {
            kind: MarkupKind::Markdown,
            value: "# text".to_string(),
        }))
    );
    assert_eq!(
        proto_to_lsp_documentation(WireDocumentation {
            content: Some(WireContent::Markup { is_markdown: false, value: "text".to_string() })
        }),
        Some(Documentation::MarkupContent(MarkupContent {
            kind: MarkupKind::PlainText,
            value: "text".to_string(),
        }))
    );
}
