//! XML attributes: a qualified name paired with a text value, in a borrowed
//! and an owned form.

use vstd::prelude::*;

use crate::escape::escape_into;
use crate::escape::escaped;
use crate::escape::push_char;
use crate::name::full_repr;
use crate::name::Name;
use crate::name::NameModel;
use crate::name::OwnedName;

verus! {

/// The mathematical content of an attribute.
pub ghost struct AttributeModel {
    pub name: NameModel,
    pub value: Seq<char>,
}

/// The mathematical content of a sequence of borrowed attributes.
pub open spec fn attrs_view<'a>(s: Seq<Attribute<'a>>) -> Seq<AttributeModel> {
    s.map_values(|a: Attribute<'a>| a@)
}

/// The spelled-out textual form of an attribute in isolation:
/// `{uri}prefix:local="value"`, the value escaped in attribute context.
pub open spec fn attribute_repr(a: AttributeModel) -> Seq<char> {
    full_repr(a.name) + "=\""@ + escaped(a.value, true) + "\""@
}

/// A borrowed version of an XML attribute.
///
/// Consists of a borrowed qualified name and a borrowed string value.
#[derive(Clone, Copy, Debug)]
pub struct Attribute<'a> {
    /// Attribute name.
    pub name: Name<'a>,
    /// Attribute value.
    pub value: &'a str,
}

impl<'a> View for Attribute<'a> {
    type V = AttributeModel;

    open spec fn view(&self) -> AttributeModel {
        AttributeModel { name: self.name@, value: self.value@ }
    }
}

impl<'a> Attribute<'a> {
    /// Creates a borrowed attribute using the provided borrowed name and a
    /// borrowed string value.
    pub fn new(name: Name<'a>, value: &'a str) -> (r: Attribute<'a>)
        ensures
            r@ == (AttributeModel { name: name@, value: value@ }),
    {
        Attribute { name, value }
    }

    /// Creates an owned attribute out of this borrowed one.
    pub fn to_owned(&self) -> (r: OwnedAttribute)
        ensures
            r@ == self@,
    {
        OwnedAttribute { name: self.name.to_owned(), value: String::from_str(self.value) }
    }

    /// Renders this attribute in its spelled-out textual form
    /// `{uri}prefix:local="escaped value"`.
    pub fn display_string(&self) -> (r: String)
        ensures
            r@ == attribute_repr(self@),
    {
        let mut r = self.name.display_string();
        push_char(&mut r, '=');
        push_char(&mut r, '"');
        proof {
            reveal_strlit("=\"");
            assert(r@ =~= full_repr(self.name@) + "=\""@);
        }
        escape_into(&mut r, self.value, true);
        push_char(&mut r, '"');
        proof {
            reveal_strlit("\"");
            assert(r@ =~= attribute_repr(self@));
        }
        r
    }
}

/// An owned version of an XML attribute.
///
/// Consists of an owned qualified name and an owned string value.
#[derive(Clone, Debug)]
pub struct OwnedAttribute {
    /// Attribute name.
    pub name: OwnedName,
    /// Attribute value.
    pub value: String,
}

impl View for OwnedAttribute {
    type V = AttributeModel;

    open spec fn view(&self) -> AttributeModel {
        AttributeModel { name: self.name@, value: self.value@ }
    }
}

impl OwnedAttribute {
    /// Returns a borrowed `Attribute` out of this owned one.
    pub fn borrow(&self) -> (r: Attribute<'_>)
        ensures
            r@ == self@,
    {
        Attribute { name: self.name.borrow(), value: self.value.as_str() }
    }

    /// Creates a new owned attribute using the provided owned name and an
    /// owned string value.
    pub fn new(name: OwnedName, value: String) -> (r: OwnedAttribute)
        ensures
            r@ == (AttributeModel { name: name@, value: value@ }),
    {
        OwnedAttribute { name, value }
    }

    /// Renders this attribute in its spelled-out textual form
    /// `{uri}prefix:local="escaped value"`.
    pub fn display_string(&self) -> (r: String)
        ensures
            r@ == attribute_repr(self@),
    {
        self.borrow().display_string()
    }
}

} // verus!
