use xml::attribute::Attribute;
use xml::attribute::OwnedAttribute;
use xml::name::Name;

#[test]
fn attribute_display() {
    let attr = Attribute::new(
        Name::qualified("attribute", "urn:namespace", Some("n")),
        "its value with > & \" ' < weird symbols",
    );

    assert_eq!(
        &*attr.display_string(),
        "{urn:namespace}n:attribute=\"its value with &gt; &amp; &quot; &apos; &lt; weird symbols\""
    );
}

#[test]
fn attribute_display_without_namespace() {
    let attr = Attribute::new(Name::local("id"), "x<y");
    assert_eq!(&*attr.display_string(), "id=\"x&lt;y\"");
}

#[test]
fn owned_attribute_round_trip() {
    let attr = Attribute::new(Name::qualified("a", "urn:u", Some("p")), "v&w");
    let owned = attr.to_owned();
    assert_eq!(&*owned.display_string(), "{urn:u}p:a=\"v&amp;w\"");
    let borrowed = owned.borrow();
    assert_eq!(borrowed.value, "v&w");
    assert_eq!(borrowed.name.local_name, "a");
    assert_eq!(borrowed.name.namespace, Some("urn:u"));
    assert_eq!(borrowed.name.prefix, Some("p"));
}

#[test]
fn owned_attribute_new_keeps_parts() {
    let name = Name::qualified("key", "urn:k", None).to_owned();
    let attr = OwnedAttribute::new(name, String::from("plain"));
    assert_eq!(&*attr.display_string(), "{urn:k}key=\"plain\"");
}

#[test]
fn owned_name_identity_ignores_prefix() {
    let a = Name::qualified("item", "urn:x", Some("p")).to_owned();
    let b = Name::qualified("item", "urn:x", Some("q")).to_owned();
    let c = Name::qualified("item", "urn:y", Some("p")).to_owned();
    let d = Name::local("item").to_owned();
    assert!(a == b);
    assert!(a != c);
    assert!(a != d);
}

#[test]
fn name_display_forms() {
    assert_eq!(&*Name::local("root").display_string(), "root");
    assert_eq!(&*Name::qualified("a", "urn:n", None).display_string(), "{urn:n}a");
    assert_eq!(&*Name::qualified("a", "urn:n", Some("n")).display_string(), "{urn:n}n:a");
}
