use xml::attribute::Attribute;
use xml::config::EmitterConfig;
use xml::emitter::EmitterError;
use xml::events::XmlEvent;
use xml::events::XmlVersion;
use xml::name::Name;
use xml::writer::EventWriter;

fn quiet_config() -> EmitterConfig {
    let mut config = EmitterConfig::new();
    config.write_document_declaration = false;
    config.pad_self_closing = false;
    config
}

#[test]
fn characters_escaping_text_context() {
    let mut w = EventWriter::new();
    w.write(XmlEvent::Characters("&<>\"'")).unwrap();
    assert_eq!(w.into_inner(), "&amp;&lt;&gt;\"'");
}

#[test]
fn attribute_value_escaping_in_tag() {
    let mut w = EventWriter::new_with_config(quiet_config());
    let attrs = vec![Attribute::new(Name::local("v"), "&<>\"'")];
    w.write(XmlEvent::StartElement {
        name: Name::local("a"),
        attributes: attrs,
        namespace: vec![],
    })
    .unwrap();
    w.write(XmlEvent::EndElement { name: None }).unwrap();
    assert_eq!(w.into_inner(), "<a v=\"&amp;&lt;&gt;&quot;&apos;\"/>");
}

#[test]
fn empty_element_with_namespace_collapses() {
    let mut w = EventWriter::new_with_config(quiet_config());
    w.write(XmlEvent::StartElement {
        name: Name::qualified("a", "urn:namespace", Some("n")),
        attributes: vec![],
        namespace: vec![("n", "urn:namespace")],
    })
    .unwrap();
    w.write(XmlEvent::EndElement { name: None }).unwrap();
    assert_eq!(w.into_inner(), "<n:a xmlns:n=\"urn:namespace\"/>");
}

#[test]
fn empty_element_padded_by_default() {
    let mut config = EmitterConfig::new();
    config.write_document_declaration = false;
    let mut w = EventWriter::new_with_config(config);
    w.write(XmlEvent::StartElement {
        name: Name::local("a"),
        attributes: vec![],
        namespace: vec![],
    })
    .unwrap();
    w.write(XmlEvent::EndElement { name: None }).unwrap();
    assert_eq!(w.into_inner(), "<a />");
}

#[test]
fn empty_element_expanded_when_not_normalized() {
    let mut config = quiet_config();
    config.normalize_empty_elements = false;
    let mut w = EventWriter::new_with_config(config);
    w.write(XmlEvent::StartElement {
        name: Name::local("a"),
        attributes: vec![],
        namespace: vec![],
    })
    .unwrap();
    w.write(XmlEvent::EndElement { name: None }).unwrap();
    assert_eq!(w.into_inner(), "<a></a>");
}

#[test]
fn element_with_characters() {
    let mut w = EventWriter::new_with_config(quiet_config());
    w.write(XmlEvent::StartElement {
        name: Name::local("a"),
        attributes: vec![],
        namespace: vec![],
    })
    .unwrap();
    w.write(XmlEvent::Characters("one < two")).unwrap();
    w.write(XmlEvent::EndElement { name: None }).unwrap();
    assert_eq!(w.into_inner(), "<a>one &lt; two</a>");
}

#[test]
fn default_namespace_declaration() {
    let mut w = EventWriter::new_with_config(quiet_config());
    w.write(XmlEvent::StartElement {
        name: Name::qualified("a", "urn:d", None),
        attributes: vec![],
        namespace: vec![("", "urn:d")],
    })
    .unwrap();
    w.write(XmlEvent::EndElement { name: None }).unwrap();
    assert_eq!(w.into_inner(), "<a xmlns=\"urn:d\"/>");
}

#[test]
fn comment_content_checks() {
    let mut w = EventWriter::new();
    assert_eq!(
        w.write(XmlEvent::Comment("a--b")),
        Err(EmitterError::IllegalCommentContent)
    );
    assert_eq!(
        w.write(XmlEvent::Comment("trailing-")),
        Err(EmitterError::IllegalCommentContent)
    );
    assert!(w.write(XmlEvent::Comment("fine")).is_ok());
    assert_eq!(w.into_inner(), "<!--fine-->");
}

#[test]
fn end_element_name_mismatch() {
    let mut w = EventWriter::new_with_config(quiet_config());
    w.write(XmlEvent::StartElement {
        name: Name::local("a"),
        attributes: vec![],
        namespace: vec![],
    })
    .unwrap();
    assert_eq!(
        w.write(XmlEvent::EndElement { name: Some(Name::local("b")) }),
        Err(EmitterError::EndElementNameMismatch)
    );
    // The structural pop still occurred on the mismatch, so there is no
    // open element left to close.
    assert_eq!(
        w.write(XmlEvent::EndElement { name: None }),
        Err(EmitterError::NoOpenElement)
    );
}

#[test]
fn end_element_matching_name_closes() {
    let mut w = EventWriter::new_with_config(quiet_config());
    w.write(XmlEvent::StartElement {
        name: Name::qualified("a", "urn:n", Some("p")),
        attributes: vec![],
        namespace: vec![],
    })
    .unwrap();
    // The prefix is presentational: a different prefix still matches.
    w.write(XmlEvent::EndElement { name: Some(Name::qualified("a", "urn:n", Some("q"))) })
        .unwrap();
    assert_eq!(w.into_inner(), "<p:a/>");
}

#[test]
fn end_element_with_nothing_open() {
    let mut w = EventWriter::new();
    assert_eq!(
        w.write(XmlEvent::EndElement { name: None }),
        Err(EmitterError::NoOpenElement)
    );
    assert_eq!(w.into_inner(), "");
}

#[test]
fn explicit_declaration() {
    let mut w = EventWriter::new();
    w.write(XmlEvent::StartDocument {
        version: XmlVersion::Version11,
        encoding: Some("ISO-8859-1"),
        standalone: Some(true),
    })
    .unwrap();
    assert_eq!(
        w.into_inner(),
        "<?xml version=\"1.1\" encoding=\"ISO-8859-1\" standalone=\"yes\"?>"
    );
}

#[test]
fn declaration_defaults_and_duplicate() {
    let mut w = EventWriter::new();
    w.write(XmlEvent::StartDocument {
        version: XmlVersion::Version10,
        encoding: None,
        standalone: None,
    })
    .unwrap();
    assert_eq!(
        w.write(XmlEvent::StartDocument {
            version: XmlVersion::Version10,
            encoding: None,
            standalone: None,
        }),
        Err(EmitterError::DocumentStartAlreadyEmitted)
    );
    assert_eq!(w.into_inner(), "<?xml version=\"1.0\" encoding=\"UTF-8\"?>");
}

#[test]
fn declaration_after_root_fails() {
    let mut w = EventWriter::new_with_config(quiet_config());
    w.write(XmlEvent::StartElement {
        name: Name::local("a"),
        attributes: vec![],
        namespace: vec![],
    })
    .unwrap();
    assert_eq!(
        w.write(XmlEvent::StartDocument {
            version: XmlVersion::Version10,
            encoding: None,
            standalone: Some(false),
        }),
        Err(EmitterError::DocumentStartAfterRootElement)
    );
}

#[test]
fn automatic_declaration_before_root() {
    let mut w = EventWriter::new();
    w.write(XmlEvent::StartElement {
        name: Name::local("root"),
        attributes: vec![],
        namespace: vec![],
    })
    .unwrap();
    w.write(XmlEvent::EndElement { name: None }).unwrap();
    assert_eq!(
        w.into_inner(),
        "<?xml version=\"1.0\" encoding=\"UTF-8\"?><root />"
    );
}

#[test]
fn processing_instruction_forms() {
    let mut w = EventWriter::new();
    w.write(XmlEvent::ProcessingInstruction { name: "target", data: Some("with data") })
        .unwrap();
    w.write(XmlEvent::ProcessingInstruction { name: "bare", data: None }).unwrap();
    assert_eq!(w.into_inner(), "<?target with data?><?bare?>");
}

#[test]
fn processing_instruction_reserved_name() {
    let mut w = EventWriter::new();
    assert_eq!(
        w.write(XmlEvent::ProcessingInstruction { name: "xml", data: None }),
        Err(EmitterError::ReservedProcessingInstructionName)
    );
    assert_eq!(
        w.write(XmlEvent::ProcessingInstruction { name: "XmL", data: None }),
        Err(EmitterError::ReservedProcessingInstructionName)
    );
    assert!(
        w.write(XmlEvent::ProcessingInstruction { name: "xmlx", data: None }).is_ok()
    );
}

#[test]
fn cdata_literal_and_terminator() {
    let mut w = EventWriter::new();
    w.write(XmlEvent::CData("raw <>&")).unwrap();
    assert_eq!(
        w.write(XmlEvent::CData("bad ]]> bad")),
        Err(EmitterError::IllegalCdataContent)
    );
    assert_eq!(w.into_inner(), "<![CDATA[raw <>&]]>");
}

#[test]
fn cdata_redirected_to_characters() {
    let mut config = EmitterConfig::new();
    config.cdata_to_characters = true;
    let mut w = EventWriter::new_with_config(config);
    w.write(XmlEvent::CData("a ]]> b & c")).unwrap();
    assert_eq!(w.into_inner(), "a ]]&gt; b &amp; c");
}

#[test]
fn indentation_around_structural_tags() {
    let mut config = quiet_config();
    config.perform_indent = true;
    let mut w = EventWriter::new_with_config(config);
    w.write(XmlEvent::StartElement {
        name: Name::local("a"),
        attributes: vec![],
        namespace: vec![],
    })
    .unwrap();
    w.write(XmlEvent::StartElement {
        name: Name::local("b"),
        attributes: vec![],
        namespace: vec![],
    })
    .unwrap();
    w.write(XmlEvent::EndElement { name: None }).unwrap();
    w.write(XmlEvent::EndElement { name: None }).unwrap();
    assert_eq!(w.into_inner(), "<a>\n  <b/>\n</a>");
}

#[test]
fn custom_indentation_unit() {
    let mut config = quiet_config();
    config.perform_indent = true;
    config.indent_char = '\t';
    config.indent_size = 1;
    config.line_separator = String::from("\r\n");
    let mut w = EventWriter::new_with_config(config);
    w.write(XmlEvent::StartElement {
        name: Name::local("a"),
        attributes: vec![],
        namespace: vec![],
    })
    .unwrap();
    w.write(XmlEvent::StartElement {
        name: Name::local("b"),
        attributes: vec![],
        namespace: vec![],
    })
    .unwrap();
    w.write(XmlEvent::EndElement { name: None }).unwrap();
    w.write(XmlEvent::EndElement { name: None }).unwrap();
    assert_eq!(w.into_inner(), "<a>\r\n\t<b/>\r\n</a>");
}

#[test]
fn document_with_prolog_and_nesting() {
    let mut w = EventWriter::new();
    w.write(XmlEvent::StartDocument {
        version: XmlVersion::Version10,
        encoding: None,
        standalone: None,
    })
    .unwrap();
    w.write(XmlEvent::ProcessingInstruction { name: "pi", data: None }).unwrap();
    w.write(XmlEvent::StartElement {
        name: Name::local("root"),
        attributes: vec![],
        namespace: vec![],
    })
    .unwrap();
    w.write(XmlEvent::Comment("c")).unwrap();
    let attrs = vec![Attribute::new(Name::local("k"), "1")];
    w.write(XmlEvent::StartElement {
        name: Name::local("item"),
        attributes: attrs,
        namespace: vec![],
    })
    .unwrap();
    w.write(XmlEvent::Characters("v")).unwrap();
    w.write(XmlEvent::EndElement { name: Some(Name::local("item")) }).unwrap();
    w.write(XmlEvent::EndElement { name: Some(Name::local("root")) }).unwrap();
    assert_eq!(
        w.into_inner(),
        "<?xml version=\"1.0\" encoding=\"UTF-8\"?><?pi?><root><!--c--><item k=\"1\">v</item></root>"
    );
}

#[test]
fn escaping_disabled_passes_text_through() {
    let mut config = quiet_config();
    config.perform_escaping = false;
    let mut w = EventWriter::new_with_config(config);
    let attrs = vec![Attribute::new(Name::local("v"), "a&b")];
    w.write(XmlEvent::StartElement {
        name: Name::local("a"),
        attributes: attrs,
        namespace: vec![],
    })
    .unwrap();
    w.write(XmlEvent::Characters("x < y")).unwrap();
    w.write(XmlEvent::EndElement { name: None }).unwrap();
    assert_eq!(w.into_inner(), "<a v=\"a&b\">x < y</a>");
}

#[test]
fn into_inner_reclaims_sink() {
    let mut w = EventWriter::new();
    w.write(XmlEvent::Characters("payload")).unwrap();
    let sink = w.into_inner();
    assert_eq!(sink, "payload");
}

#[test]
fn inner_mut_gives_sink_access() {
    let mut w = EventWriter::new();
    w.write(XmlEvent::Characters("ab")).unwrap();
    assert_eq!(w.inner_mut().len(), 2);
}
