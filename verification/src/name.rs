//! Qualified XML names: a local part with an optional namespace URI and an
//! optional presentational prefix, in a borrowed and an owned form.

use vstd::prelude::*;

use crate::escape::push_char;

verus! {

/// The mathematical content of a qualified name.
///
/// A prefix is meaningful only paired with a namespace URI; the prefix is
/// presentational and excluded from name identity.
pub ghost struct NameModel {
    pub local_name: Seq<char>,
    pub namespace: Option<Seq<char>>,
    pub prefix: Option<Seq<char>>,
}

/// The form of a name as it stands in a tag: `prefix:local`, or the bare
/// local part when there is no prefix.
pub open spec fn qualified_repr(n: NameModel) -> Seq<char> {
    match n.prefix {
        Some(p) => p + ":"@ + n.local_name,
        None => n.local_name,
    }
}

/// The fully spelled-out textual form: `{uri}prefix:local`, the braced URI
/// present only when the name carries a namespace.
pub open spec fn full_repr(n: NameModel) -> Seq<char> {
    (match n.namespace {
        Some(u) => "{"@ + u + "}"@,
        None => Seq::empty(),
    }) + qualified_repr(n)
}

/// A borrowed qualified name, referencing caller-owned text.
#[derive(Clone, Copy, Debug)]
pub struct Name<'a> {
    /// The local part of the name.
    pub local_name: &'a str,
    /// The namespace URI, if the name lives in a namespace.
    pub namespace: Option<&'a str>,
    /// The presentational prefix, if one was chosen.
    pub prefix: Option<&'a str>,
}

impl<'a> View for Name<'a> {
    type V = NameModel;

    open spec fn view(&self) -> NameModel {
        NameModel {
            local_name: self.local_name@,
            namespace: match self.namespace {
                Some(u) => Some(u@),
                None => None,
            },
            prefix: match self.prefix {
                Some(p) => Some(p@),
                None => None,
            },
        }
    }
}

impl<'a> Name<'a> {
    /// Creates a name that has only a local part.
    pub fn local(local_name: &'a str) -> (r: Name<'a>)
        ensures
            r@ == (NameModel { local_name: local_name@, namespace: None, prefix: None }),
    {
        Name { local_name, namespace: None, prefix: None }
    }

    /// Creates a name qualified with a namespace URI and, optionally, a
    /// prefix.
    pub fn qualified(local_name: &'a str, namespace: &'a str, prefix: Option<&'a str>) -> (r:
        Name<'a>)
        ensures
            r@ == (NameModel {
                local_name: local_name@,
                namespace: Some(namespace@),
                prefix: match prefix {
                    Some(p) => Some(p@),
                    None => None,
                },
            }),
    {
        Name { local_name, namespace: Some(namespace), prefix }
    }

    /// Copies this borrowed name into an independently owned one.
    pub fn to_owned(&self) -> (r: OwnedName)
        ensures
            r@ == self@,
    {
        OwnedName {
            local_name: String::from_str(self.local_name),
            namespace: match self.namespace {
                Some(u) => Some(String::from_str(u)),
                None => None,
            },
            prefix: match self.prefix {
                Some(p) => Some(String::from_str(p)),
                None => None,
            },
        }
    }

    /// Renders this name in its spelled-out textual form `{uri}prefix:local`.
    pub fn display_string(&self) -> (r: String)
        ensures
            r@ == full_repr(self@),
    {
        let mut r = String::new();
        match self.namespace {
            Some(u) => {
                push_char(&mut r, '{');
                r.append(u);
                push_char(&mut r, '}');
                proof {
                    reveal_strlit("{");
                    reveal_strlit("}");
                    assert(r@ =~= "{"@ + u@ + "}"@);
                }
            },
            None => {},
        }
        append_qualified(&mut r, self);
        proof {
            assert(r@ =~= full_repr(self@));
        }
        r
    }
}

/// Appends the tag form `prefix:local` of `name` to `out`.
pub(crate) fn append_qualified(out: &mut String, name: &Name<'_>)
    ensures
        final(out)@ == old(out)@ + qualified_repr(name@),
{
    match name.prefix {
        Some(p) => {
            out.append(p);
            push_char(out, ':');
            out.append(name.local_name);
            proof {
                reveal_strlit(":");
                assert(out@ =~= old(out)@ + qualified_repr(name@));
            }
        },
        None => {
            out.append(name.local_name);
        },
    }
}

/// An owned qualified name, holding independent copies of its parts.
#[derive(Clone, Debug)]
pub struct OwnedName {
    /// The local part of the name.
    pub local_name: String,
    /// The namespace URI, if the name lives in a namespace.
    pub namespace: Option<String>,
    /// The presentational prefix, if one was chosen.
    pub prefix: Option<String>,
}

impl View for OwnedName {
    type V = NameModel;

    open spec fn view(&self) -> NameModel {
        NameModel {
            local_name: self.local_name@,
            namespace: match self.namespace {
                Some(u) => Some(u@),
                None => None,
            },
            prefix: match self.prefix {
                Some(p) => Some(p@),
                None => None,
            },
        }
    }
}

impl OwnedName {
    /// Returns a borrowed `Name` referencing this owned one, without copying.
    pub fn borrow(&self) -> (r: Name<'_>)
        ensures
            r@ == self@,
    {
        Name {
            local_name: self.local_name.as_str(),
            namespace: match &self.namespace {
                Some(u) => Some(u.as_str()),
                None => None,
            },
            prefix: match &self.prefix {
                Some(p) => Some(p.as_str()),
                None => None,
            },
        }
    }

    /// Renders this name in its spelled-out textual form `{uri}prefix:local`.
    pub fn display_string(&self) -> (r: String)
        ensures
            r@ == full_repr(self@),
    {
        self.borrow().display_string()
    }
}

/// Two names are the same name when namespace URI and local part agree; the
/// prefix is presentational and excluded from identity.
impl PartialEq for OwnedName {
    fn eq(&self, other: &OwnedName) -> (r: bool) {
        let ns_eq = match (&self.namespace, &other.namespace) {
            (Some(a), Some(b)) => *a == *b,
            (None, None) => true,
            _ => false,
        };
        ns_eq && self.local_name == other.local_name
    }
}

impl vstd::std_specs::cmp::PartialEqSpecImpl for OwnedName {
    open spec fn obeys_eq_spec() -> bool {
        true
    }

    open spec fn eq_spec(&self, other: &OwnedName) -> bool {
        self@.namespace == other@.namespace && self@.local_name == other@.local_name
    }
}

} // verus!
