//! The document events a writer consumes, one per call.

use vstd::prelude::*;

use crate::attribute::Attribute;
use crate::attribute::AttributeModel;
use crate::attribute::attrs_view;
use crate::name::Name;
use crate::name::NameModel;
use crate::namespace::bindings_view;

verus! {

/// The XML version named in a document declaration.
#[derive(Clone, Copy, Debug, PartialEq, Eq, Structural)]
pub enum XmlVersion {
    /// XML 1.0.
    Version10,
    /// XML 1.1.
    Version11,
}

/// The text of a version as it stands in a declaration.
pub open spec fn version_repr(v: XmlVersion) -> Seq<char> {
    match v {
        XmlVersion::Version10 => "1.0"@,
        XmlVersion::Version11 => "1.1"@,
    }
}

/// The mathematical content of one document event.
pub ghost enum EventModel {
    StartDocument { version: XmlVersion, encoding: Option<Seq<char>>, standalone: Option<bool> },
    ProcessingInstruction { name: Seq<char>, data: Option<Seq<char>> },
    StartElement {
        name: NameModel,
        attributes: Seq<AttributeModel>,
        namespace: Seq<(Seq<char>, Seq<char>)>,
    },
    EndElement { name: Option<NameModel> },
    Comment(Seq<char>),
    CData(Seq<char>),
    Characters(Seq<char>),
}

/// One document event, borrowing the caller's text. Exactly one variant is
/// submitted per write call.
pub enum XmlEvent<'a> {
    /// The document declaration. Optional; if submitted it must come first.
    StartDocument {
        /// XML version to declare.
        version: XmlVersion,
        /// Encoding to declare; the writer declares `UTF-8` when absent.
        encoding: Option<&'a str>,
        /// The `standalone` pseudo-attribute; left out when absent.
        standalone: Option<bool>,
    },
    /// A processing instruction `<?name data?>`. Its name must not be the
    /// reserved `xml` in any letter case.
    ProcessingInstruction {
        /// Target of the instruction.
        name: &'a str,
        /// Payload of the instruction, if any.
        data: Option<&'a str>,
    },
    /// The start of an element, with its attributes in order and the
    /// namespace bindings introduced at this element.
    StartElement {
        /// The element's qualified name.
        name: Name<'a>,
        /// The attributes, written in submitted order; duplicates pass
        /// through unchanged.
        attributes: Vec<Attribute<'a>>,
        /// Prefix-to-URI bindings introduced by this element; the empty
        /// prefix stands for the default namespace.
        namespace: Vec<(&'a str, &'a str)>,
    },
    /// The end of an element. An absent name closes the innermost open
    /// element; a present one is checked against it.
    EndElement {
        /// The expected name of the element being closed, if the caller
        /// wants it checked.
        name: Option<Name<'a>>,
    },
    /// A comment `<!--text-->`. The text may not contain `--` nor end in `-`.
    Comment(&'a str),
    /// A CDATA section `<![CDATA[text]]>`, written verbatim unless the
    /// writer is configured to redirect it through text escaping.
    CData(&'a str),
    /// Character data, written through the escaping engine in text context
    /// unless escaping is disabled.
    Characters(&'a str),
}

impl<'a> View for XmlEvent<'a> {
    type V = EventModel;

    open spec fn view(&self) -> EventModel {
        match self {
            XmlEvent::StartDocument { version, encoding, standalone } => EventModel::StartDocument {
                version: *version,
                encoding: match encoding {
                    Some(e) => Some(e@),
                    None => None,
                },
                standalone: *standalone,
            },
            XmlEvent::ProcessingInstruction { name, data } => EventModel::ProcessingInstruction {
                name: name@,
                data: match data {
                    Some(d) => Some(d@),
                    None => None,
                },
            },
            XmlEvent::StartElement { name, attributes, namespace } => EventModel::StartElement {
                name: name@,
                attributes: attrs_view(attributes@),
                namespace: bindings_view(namespace@),
            },
            XmlEvent::EndElement { name } => EventModel::EndElement {
                name: match name {
                    Some(n) => Some(n@),
                    None => None,
                },
            },
            XmlEvent::Comment(text) => EventModel::Comment(text@),
            XmlEvent::CData(text) => EventModel::CData(text@),
            XmlEvent::Characters(text) => EventModel::Characters(text@),
        }
    }
}

} // verus!
