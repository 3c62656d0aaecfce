use dbflux::value_format::{
    compact_value, detect_format, format_value, parse_xml, validate_value, ValueFormat, XmlLayout,
};

#[test]
fn detect_recognises_json_objects_and_arrays() {
    assert_eq!(detect_format(r#"{"a":1}"#), ValueFormat::Json);
    assert_eq!(detect_format("[1, 2, 3]"), ValueFormat::Json);
}

#[test]
fn detect_falls_back_to_text_for_json_shaped_but_invalid_input() {
    // A text column starting with `{` must not open in JSON mode and
    // greet the user with a parse error.
    assert_eq!(detect_format("{not json"), ValueFormat::Text);
}

#[test]
fn detect_recognises_xml() {
    assert_eq!(detect_format("<root><a>1</a></root>"), ValueFormat::Xml);
}

#[test]
fn detect_treats_empty_as_text() {
    assert_eq!(detect_format("   "), ValueFormat::Text);
}

#[test]
fn format_json_indents_and_compact_restores_one_line() {
    let compact = r#"{"a":1,"b":[2,3]}"#;

    let pretty = format_value(compact, ValueFormat::Json).expect("valid json");
    assert!(pretty.contains('\n'), "pretty json must span lines");

    let round_tripped = compact_value(&pretty, ValueFormat::Json).expect("valid json");
    assert_eq!(round_tripped, compact);
}

#[test]
fn format_xml_indents_nested_elements() {
    let pretty =
        format_value("<root><a>1</a></root>", ValueFormat::Xml).expect("well-formed xml");
    assert!(pretty.contains('\n'), "pretty xml must span lines");
    assert!(pretty.contains("<a>1</a>"));
}

#[test]
fn format_xml_preserves_attributes_containing_angle_brackets() {
    let source = r#"<root note="a &gt; b"><child/></root>"#;
    let pretty = format_value(source, ValueFormat::Xml).expect("well-formed xml");
    assert!(
        pretty.contains("a &gt; b"),
        "attribute must survive: {pretty}"
    );
}

#[test]
fn malformed_xml_is_rejected_with_the_parser_message() {
    let error = format_value("<root><a></root>", ValueFormat::Xml).unwrap_err();
    assert!(!error.is_empty());
    assert!(!error.contains('\n'), "errors are shown on one line");
}

#[test]
fn plain_text_is_not_accepted_as_xml() {
    assert!(validate_value("just a sentence", ValueFormat::Xml).is_err());
}

#[test]
fn text_format_never_rewrites_or_rejects() {
    let value = "{ not json <not xml";
    assert_eq!(
        format_value(value, ValueFormat::Text).expect("text always formats"),
        value
    );
    assert!(validate_value(value, ValueFormat::Text).is_ok());
}

#[test]
fn empty_values_validate_in_every_format() {
    for format in ValueFormat::ALL {
        assert!(
            validate_value("", format).is_ok(),
            "clearing a cell must be allowed in {:?}",
            format
        );
    }
}

#[test]
fn blank_values_validate_in_every_format() {
    for format in ValueFormat::ALL {
        assert!(validate_value(" \t\n\u{3000}", format).is_ok());
    }
}

#[test]
fn json_errors_carry_the_parser_message_on_one_line() {
    let error = validate_value("{\n\"a\": }", ValueFormat::Json).unwrap_err();
    assert!(!error.is_empty());
    assert!(!error.contains('\n'));
    assert!(format_value("{\n\"a\": }", ValueFormat::Json).unwrap_err().contains("line"));
}

#[test]
fn compact_json_collapses_whitespace() {
    assert_eq!(
        compact_value("{ \"a\" : [ 1 , 2 ] }", ValueFormat::Json).unwrap(),
        r#"{"a":[1,2]}"#
    );
}

#[test]
fn pretty_json_indents_by_two_spaces() {
    assert_eq!(
        format_value(r#"{"a":1}"#, ValueFormat::Json).unwrap(),
        "{\n  \"a\": 1\n}"
    );
}

#[test]
fn compact_xml_drops_indentation() {
    assert_eq!(
        compact_value("<root>\n  <a>1</a>\n</root>", ValueFormat::Xml).unwrap(),
        "<root><a>1</a></root>"
    );
}

#[test]
fn xml_without_an_element_is_refused() {
    let error = parse_xml("just words", XmlLayout::Compact).unwrap_err();
    assert_eq!(error, "components.value_panel.error.not_xml");
    assert_eq!(
        parse_xml("<!-- only a comment -->", XmlLayout::Compact).unwrap_err(),
        "components.value_panel.error.not_xml"
    );
}

#[test]
fn detect_trims_before_looking() {
    assert_eq!(detect_format("  \n {\"a\": 1}  "), ValueFormat::Json);
    assert_eq!(detect_format("  <a/> "), ValueFormat::Xml);
    assert_eq!(detect_format("plain"), ValueFormat::Text);
    assert_eq!(detect_format("<not xml"), ValueFormat::Text);
}

#[test]
fn format_names_and_languages() {
    assert_eq!(ValueFormat::Json.label(), "JSON");
    assert_eq!(ValueFormat::Xml.label(), "XML");
    assert_eq!(ValueFormat::Text.label(), "Text");
    assert_eq!(ValueFormat::Json.editor_language(), "json");
    assert_eq!(ValueFormat::Xml.editor_language(), "xml");
    assert_eq!(ValueFormat::Text.editor_language(), "text");
    assert!(ValueFormat::Json.is_structured());
    assert!(ValueFormat::Xml.is_structured());
    assert!(!ValueFormat::Text.is_structured());
}
