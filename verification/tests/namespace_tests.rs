use xml::escape::escape_str_attribute;
use xml::escape::escape_str_pcdata;
use xml::namespace::NamespaceStack;

#[test]
fn escaping_contexts_differ_on_quotes() {
    assert_eq!(escape_str_pcdata("&<>\"'"), "&amp;&lt;&gt;\"'");
    assert_eq!(escape_str_attribute("&<>\"'"), "&amp;&lt;&gt;&quot;&apos;");
}

#[test]
fn escaping_passes_plain_text_through() {
    assert_eq!(escape_str_pcdata("plain text"), "plain text");
    assert_eq!(escape_str_attribute(""), "");
}

#[test]
fn resolve_scans_innermost_first() {
    let mut ns = NamespaceStack::new();
    ns.push_scope();
    ns.bind("p", "urn:outer");
    ns.bind("q", "urn:q");
    ns.push_scope();
    ns.bind("p", "urn:inner");
    assert_eq!(ns.resolve("p"), Some(String::from("urn:inner")));
    assert_eq!(ns.resolve("q"), Some(String::from("urn:q")));
    assert_eq!(ns.resolve("r"), None);
    ns.pop_scope();
    assert_eq!(ns.resolve("p"), Some(String::from("urn:outer")));
}

#[test]
fn later_binding_shadows_within_scope() {
    let mut ns = NamespaceStack::new();
    ns.push_scope();
    ns.extend(&vec![("p", "urn:first"), ("p", "urn:second")]);
    assert_eq!(ns.resolve("p"), Some(String::from("urn:second")));
}

#[test]
fn depth_matches_opens_and_closes() {
    let mut ns = NamespaceStack::new();
    assert_eq!(ns.depth(), 0);
    ns.push_scope();
    ns.push_scope();
    assert_eq!(ns.depth(), 2);
    ns.pop_scope();
    ns.pop_scope();
    assert_eq!(ns.depth(), 0);
}

#[test]
fn popping_past_empty_is_a_no_op() {
    let mut ns = NamespaceStack::new();
    ns.pop_scope();
    assert_eq!(ns.depth(), 0);
    ns.push_scope();
    ns.pop_scope();
    ns.pop_scope();
    ns.pop_scope();
    assert_eq!(ns.depth(), 0);
    ns.push_scope();
    assert_eq!(ns.depth(), 1);
}
