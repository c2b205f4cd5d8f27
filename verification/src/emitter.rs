//! The emitter state machine: consumes one document event at a time,
//! owns the namespace stack, the open-element name stack and the
//! pending-open-tag flag, and writes markup into the sink.
//!
//! A start tag is written up through its name, attributes and namespace
//! declarations, but its terminator (`>` if the element gets content, `/>`
//! if it stays empty) is withheld until the next event reveals whether the
//! element has content. Every structural operation therefore first resolves
//! a pending open tag by terminating it with `>`.
//!
//! Every operation either appends an exactly specified sequence of
//! characters to the sink and updates the state, or returns a typed error
//! with no character appended. On an end-element name mismatch the
//! structural pop of the namespace and open-name stacks still occurs — the
//! nesting level did close — but nothing is written; this policy is fixed
//! here and covered by a test.

use vstd::prelude::*;

use crate::attribute::Attribute;
use crate::attribute::AttributeModel;
use crate::attribute::attrs_view;
use crate::config::ConfigModel;
use crate::config::EmitterConfig;
use crate::escape::escape_into;
use crate::escape::escaped;
use crate::escape::push_char;
use crate::events::EventModel;
use crate::events::XmlVersion;
use crate::events::version_repr;
use crate::name::Name;
use crate::name::NameModel;
use crate::name::OwnedName;
use crate::name::append_qualified;
use crate::name::qualified_repr;
use crate::namespace::NamespaceStack;
use crate::namespace::bindings_view;

verus! {

/// A typed failure of one emit operation. Every error is recoverable at
/// the library level; no operation panics.
#[derive(Clone, Copy, Debug, PartialEq, Eq, Structural)]
pub enum EmitterError {
    /// A document declaration was already written.
    DocumentStartAlreadyEmitted,
    /// The root element was already opened, so a declaration can no longer
    /// be written.
    DocumentStartAfterRootElement,
    /// The processing-instruction name `xml`, in any letter case, is
    /// reserved for the document declaration.
    ReservedProcessingInstructionName,
    /// An explicit end-element name did not equal the name of the innermost
    /// open element.
    EndElementNameMismatch,
    /// An end-element event arrived while no element was open.
    NoOpenElement,
    /// Comment text contained `--` or ended with `-`, both illegal in a
    /// comment.
    IllegalCommentContent,
    /// CDATA content contained the terminator `]]>`, for which no escape
    /// exists inside a CDATA section.
    IllegalCdataContent,
}

/// The mathematical content of the emitter state.
pub ghost struct EmitterModel {
    /// The configuration, fixed at construction.
    pub config: ConfigModel,
    /// The namespace scopes, innermost last; one per open element.
    pub scopes: Seq<Seq<(Seq<char>, Seq<char>)>>,
    /// The names of the open elements, innermost last.
    pub open_names: Seq<NameModel>,
    /// Whether a document declaration has been written.
    pub start_document_emitted: bool,
    /// Whether a start tag's terminator is still pending.
    pub pending_open: bool,
    /// Whether any markup has been written yet.
    pub wrote_markup: bool,
    /// Whether a root element was ever opened.
    pub root_started: bool,
}

impl EmitterModel {
    /// The stacks run in parallel: one namespace scope per open element.
    pub open spec fn wf(self) -> bool {
        self.scopes.len() == self.open_names.len()
    }

    /// The current nesting depth.
    pub open spec fn depth(self) -> nat {
        self.open_names.len()
    }
}

/// The state of a freshly constructed emitter: nothing written, no open
/// element, no namespace scope.
pub open spec fn initial_model(config: ConfigModel) -> EmitterModel {
    EmitterModel {
        config,
        scopes: Seq::empty(),
        open_names: Seq::empty(),
        start_document_emitted: false,
        pending_open: false,
        wrote_markup: false,
        root_started: false,
    }
}

/// `n` copies of one character.
pub open spec fn char_repeat(c: char, n: nat) -> Seq<char> {
    Seq::new(n, |i| c)
}

/// The indentation worth `depth` nesting levels.
pub open spec fn indent_seq(config: ConfigModel, depth: nat) -> Seq<char>
    decreases depth,
{
    if depth == 0 {
        Seq::empty()
    } else {
        indent_seq(config, (depth - 1) as nat) + char_repeat(config.indent_char, config.indent_size)
    }
}

/// What is written in front of a structural tag at nesting level `depth`:
/// a line separator plus depth-proportional indentation when indentation is
/// configured and some markup was already written, nothing otherwise.
pub open spec fn indentation_at(m: EmitterModel, depth: nat) -> Seq<char> {
    if m.config.perform_indent && m.wrote_markup {
        m.config.line_separator + indent_seq(m.config, depth)
    } else {
        Seq::empty()
    }
}

/// The `>` that terminates a start tag whose terminator was deferred, if
/// one is pending.
pub open spec fn pending_close(m: EmitterModel) -> Seq<char> {
    if m.pending_open {
        ">"@
    } else {
        Seq::empty()
    }
}

/// The `standalone` pseudo-attribute of a declaration.
pub open spec fn standalone_repr(standalone: Option<bool>) -> Seq<char> {
    match standalone {
        Some(true) => " standalone=\"yes\""@,
        Some(false) => " standalone=\"no\""@,
        None => Seq::empty(),
    }
}

/// The text of a document declaration.
pub open spec fn declaration_repr(
    version: XmlVersion,
    encoding: Seq<char>,
    standalone: Option<bool>,
) -> Seq<char> {
    "<?xml version=\""@ + version_repr(version) + "\" encoding=\""@ + encoding + "\""@
        + standalone_repr(standalone) + "?>"@
}

/// The declared encoding: what the caller named, or `UTF-8`.
pub open spec fn encoding_or_default(encoding: Option<Seq<char>>) -> Seq<char> {
    match encoding {
        Some(e) => e,
        None => "UTF-8"@,
    }
}

/// The processing-instruction name `xml` is reserved, in any letter case.
pub open spec fn is_reserved_pi_name(s: Seq<char>) -> bool {
    s.len() == 3 && (s[0] == 'x' || s[0] == 'X') && (s[1] == 'm' || s[1] == 'M') && (s[2] == 'l'
        || s[2] == 'L')
}

/// The payload of a processing instruction, preceded by one space when
/// present.
pub open spec fn pi_data_repr(data: Option<Seq<char>>) -> Seq<char> {
    match data {
        Some(d) => " "@ + d,
        None => Seq::empty(),
    }
}

/// What a processing instruction appends to the sink.
pub open spec fn pi_emitted(m: EmitterModel, name: Seq<char>, data: Option<Seq<char>>) -> Seq<
    char,
> {
    pending_close(m) + indentation_at(m, m.depth()) + "<?"@ + name + pi_data_repr(data) + "?>"@
}

/// One attribute as it stands inside a start tag, its value escaped in
/// attribute context unless escaping is disabled.
pub open spec fn attr_in_tag_repr(a: AttributeModel, esc: bool) -> Seq<char> {
    " "@ + qualified_repr(a.name) + "=\""@ + (if esc {
        escaped(a.value, true)
    } else {
        a.value
    }) + "\""@
}

/// All attributes of a start tag, in submitted order; duplicates pass
/// through unchanged.
pub open spec fn attrs_repr(attrs: Seq<AttributeModel>, esc: bool) -> Seq<char>
    decreases attrs.len(),
{
    if attrs.len() == 0 {
        Seq::empty()
    } else {
        attrs_repr(attrs.drop_last(), esc) + attr_in_tag_repr(attrs.last(), esc)
    }
}

/// One namespace declaration: `xmlns="uri"` for the default namespace
/// (empty prefix), `xmlns:prefix="uri"` otherwise.
pub open spec fn ns_decl_repr(b: (Seq<char>, Seq<char>)) -> Seq<char> {
    if b.0.len() == 0 {
        " xmlns=\""@ + b.1 + "\""@
    } else {
        " xmlns:"@ + b.0 + "=\""@ + b.1 + "\""@
    }
}

/// All namespace declarations newly bound at this element, in order.
pub open spec fn ns_decls_repr(bs: Seq<(Seq<char>, Seq<char>)>) -> Seq<char>
    decreases bs.len(),
{
    if bs.len() == 0 {
        Seq::empty()
    } else {
        ns_decls_repr(bs.drop_last()) + ns_decl_repr(bs.last())
    }
}

/// Whether a start element must be preceded by an automatic default
/// declaration: one is configured and none was written yet.
pub open spec fn auto_decl_needed(m: EmitterModel) -> bool {
    m.config.write_document_declaration && !m.start_document_emitted
}

/// The state after the automatic declaration, if one is due.
pub open spec fn after_auto_decl(m: EmitterModel) -> EmitterModel {
    if auto_decl_needed(m) {
        EmitterModel { start_document_emitted: true, wrote_markup: true, ..m }
    } else {
        m
    }
}

/// What a start element appends to the sink: the automatic declaration if
/// one is due, the deferred `>` of an enclosing start tag, indentation,
/// then `<name`, the attributes and the new namespace declarations. The
/// tag's own terminator stays pending.
pub open spec fn start_element_emitted(
    m: EmitterModel,
    name: NameModel,
    attrs: Seq<AttributeModel>,
    ns: Seq<(Seq<char>, Seq<char>)>,
) -> Seq<char> {
    let m2 = after_auto_decl(m);
    (if auto_decl_needed(m) {
        declaration_repr(XmlVersion::Version10, "UTF-8"@, None)
    } else {
        Seq::empty()
    }) + pending_close(m2) + indentation_at(m2, m2.depth()) + "<"@ + qualified_repr(name)
        + attrs_repr(attrs, m.config.perform_escaping) + ns_decls_repr(ns)
}

/// The state after a start element: one name and one namespace scope
/// pushed, the tag pending.
pub open spec fn start_element_state(
    m: EmitterModel,
    name: NameModel,
    ns: Seq<(Seq<char>, Seq<char>)>,
) -> EmitterModel {
    let m2 = after_auto_decl(m);
    EmitterModel {
        scopes: m2.scopes.push(ns),
        open_names: m2.open_names.push(name),
        pending_open: true,
        wrote_markup: true,
        root_started: true,
        ..m2
    }
}

/// Whether an explicit end-element name matches the innermost open
/// element. The prefix is presentational and excluded from identity.
pub open spec fn end_name_matches(m: EmitterModel, name: Option<NameModel>) -> bool {
    match name {
        None => true,
        Some(n) => n.local_name == m.open_names.last().local_name && n.namespace
            == m.open_names.last().namespace,
    }
}

/// What closing the innermost open element appends to the sink. A tag
/// still pending collapses to `/>` (with a configured padding space) or is
/// expanded to `></name>`; an element with content gets an indented
/// `</name>` at the enclosing level.
pub open spec fn end_element_emitted(m: EmitterModel) -> Seq<char>
    recommends
        m.open_names.len() > 0,
{
    if m.pending_open {
        if m.config.normalize_empty_elements {
            if m.config.pad_self_closing {
                " />"@
            } else {
                "/>"@
            }
        } else {
            "></"@ + qualified_repr(m.open_names.last()) + ">"@
        }
    } else {
        indentation_at(m, (m.open_names.len() - 1) as nat) + "</"@ + qualified_repr(
            m.open_names.last(),
        ) + ">"@
    }
}

/// Comment text is illegal when it contains `--` or ends in `-`.
pub open spec fn has_double_dash(s: Seq<char>) -> bool {
    exists|i: int| 0 <= i && i + 1 < s.len() && #[trigger] s[i] == '-' && s[i + 1] == '-'
}

/// See `has_double_dash`.
pub open spec fn illegal_comment(s: Seq<char>) -> bool {
    has_double_dash(s) || (s.len() > 0 && s.last() == '-')
}

/// CDATA content is illegal when it contains the terminator `]]>`.
pub open spec fn has_cdata_end(s: Seq<char>) -> bool {
    exists|i: int| 0 <= i && i + 2 < s.len() && #[trigger] s[i] == ']' && s[i + 1] == ']' && s[i
        + 2] == '>'
}

/// What a comment appends to the sink.
pub open spec fn comment_emitted(m: EmitterModel, text: Seq<char>) -> Seq<char> {
    pending_close(m) + indentation_at(m, m.depth()) + "<!--"@ + text + "-->"@
}

/// What a literal CDATA section appends to the sink.
pub open spec fn cdata_emitted(m: EmitterModel, text: Seq<char>) -> Seq<char> {
    pending_close(m) + "<![CDATA["@ + text + "]]>"@
}

/// What character data appends to the sink: the text through the escaping
/// engine in text context, or raw when escaping is disabled.
pub open spec fn characters_emitted(m: EmitterModel, text: Seq<char>) -> Seq<char> {
    pending_close(m) + (if m.config.perform_escaping {
        escaped(text, false)
    } else {
        text
    })
}

/// Whether one event succeeds on the given state and, if not, with which
/// error it fails.
pub open spec fn event_outcome(m: EmitterModel, e: EventModel) -> Result<(), EmitterError> {
    match e {
        EventModel::StartDocument { .. } => if m.start_document_emitted {
            Err(EmitterError::DocumentStartAlreadyEmitted)
        } else if m.root_started {
            Err(EmitterError::DocumentStartAfterRootElement)
        } else {
            Ok(())
        },
        EventModel::ProcessingInstruction { name, .. } => if is_reserved_pi_name(name) {
            Err(EmitterError::ReservedProcessingInstructionName)
        } else {
            Ok(())
        },
        EventModel::StartElement { .. } => Ok(()),
        EventModel::EndElement { name } => if m.open_names.len() == 0 {
            Err(EmitterError::NoOpenElement)
        } else if !end_name_matches(m, name) {
            Err(EmitterError::EndElementNameMismatch)
        } else {
            Ok(())
        },
        EventModel::Comment(text) => if illegal_comment(text) {
            Err(EmitterError::IllegalCommentContent)
        } else {
            Ok(())
        },
        EventModel::CData(text) => if !m.config.cdata_to_characters && has_cdata_end(text) {
            Err(EmitterError::IllegalCdataContent)
        } else {
            Ok(())
        },
        EventModel::Characters(_) => Ok(()),
    }
}

/// Exactly what one event appends to the sink: nothing on failure, the
/// rendered markup on success.
pub open spec fn event_emitted(m: EmitterModel, e: EventModel) -> Seq<char> {
    if event_outcome(m, e) is Err {
        Seq::empty()
    } else {
        match e {
            EventModel::StartDocument { version, encoding, standalone } => declaration_repr(
                version,
                encoding_or_default(encoding),
                standalone,
            ),
            EventModel::ProcessingInstruction { name, data } => pi_emitted(m, name, data),
            EventModel::StartElement { name, attributes, namespace } => start_element_emitted(
                m,
                name,
                attributes,
                namespace,
            ),
            EventModel::EndElement { .. } => end_element_emitted(m),
            EventModel::Comment(text) => comment_emitted(m, text),
            EventModel::CData(text) => if m.config.cdata_to_characters {
                characters_emitted(m, text)
            } else {
                cdata_emitted(m, text)
            },
            EventModel::Characters(text) => characters_emitted(m, text),
        }
    }
}

/// Exactly how one event changes the emitter state. On failure the state
/// is unchanged, except for an end-element name mismatch, where the
/// structural pop of both stacks still occurs.
pub open spec fn event_step(m: EmitterModel, e: EventModel) -> EmitterModel {
    match e {
        EventModel::StartDocument { .. } => if event_outcome(m, e) is Ok {
            EmitterModel { start_document_emitted: true, wrote_markup: true, ..m }
        } else {
            m
        },
        EventModel::ProcessingInstruction { .. } => if event_outcome(m, e) is Ok {
            EmitterModel { pending_open: false, wrote_markup: true, ..m }
        } else {
            m
        },
        EventModel::StartElement { name, namespace, .. } => start_element_state(
            m,
            name,
            namespace,
        ),
        EventModel::EndElement { .. } => if m.open_names.len() == 0 {
            m
        } else if event_outcome(m, e) is Ok {
            EmitterModel {
                scopes: m.scopes.drop_last(),
                open_names: m.open_names.drop_last(),
                pending_open: false,
                wrote_markup: true,
                ..m
            }
        } else {
            EmitterModel {
                scopes: m.scopes.drop_last(),
                open_names: m.open_names.drop_last(),
                ..m
            }
        },
        EventModel::Comment(_) => if event_outcome(m, e) is Ok {
            EmitterModel { pending_open: false, wrote_markup: true, ..m }
        } else {
            m
        },
        EventModel::CData(_) => if event_outcome(m, e) is Ok {
            EmitterModel { pending_open: false, wrote_markup: true, ..m }
        } else {
            m
        },
        EventModel::Characters(_) => EmitterModel { pending_open: false, wrote_markup: true, ..m },
    }
}

/// The names of the open elements, as models.
pub open spec fn names_view(s: Seq<OwnedName>) -> Seq<NameModel> {
    s.map_values(|n: OwnedName| n@)
}

/// The emitter: the owner of all mutable serialization state.
pub struct Emitter {
    config: EmitterConfig,
    nst: NamespaceStack,
    element_names: Vec<OwnedName>,
    start_document_emitted: bool,
    just_wrote_start_element: bool,
    wrote_markup: bool,
    root_started: bool,
}

impl View for Emitter {
    type V = EmitterModel;

    closed spec fn view(&self) -> EmitterModel {
        EmitterModel {
            config: self.config@,
            scopes: self.nst@,
            open_names: names_view(self.element_names@),
            start_document_emitted: self.start_document_emitted,
            pending_open: self.just_wrote_start_element,
            wrote_markup: self.wrote_markup,
            root_started: self.root_started,
        }
    }
}

impl Emitter {
    /// Creates an emitter with the given configuration and no state.
    pub fn new(config: EmitterConfig) -> (r: Emitter)
        ensures
            r@ == initial_model(config@),
    {
        let r = Emitter {
            config,
            nst: NamespaceStack::new(),
            element_names: Vec::new(),
            start_document_emitted: false,
            just_wrote_start_element: false,
            wrote_markup: false,
            root_started: false,
        };
        proof {
            assert(names_view(r.element_names@) =~= Seq::<NameModel>::empty());
        }
        r
    }

    /// Terminates a pending start tag with `>`, if one is pending.
    fn close_pending(&mut self, sink: &mut String)
        ensures
            final(sink)@ == old(sink)@ + pending_close(old(self)@),
            final(self)@ == (EmitterModel { pending_open: false, ..old(self)@ }),
    {
        if self.just_wrote_start_element {
            sink.append(">");
            self.just_wrote_start_element = false;
        }
    }

    /// Writes the indentation due in front of a structural tag at nesting
    /// level `depth`.
    fn write_indentation(&self, sink: &mut String, depth: usize)
        ensures
            final(sink)@ == old(sink)@ + indentation_at(self@, depth as nat),
    {
        if self.config.perform_indent && self.wrote_markup {
            sink.append(self.config.line_separator.as_str());
            let mut lvl: usize = 0;
            while lvl < depth
                invariant
                    lvl <= depth,
                    sink@ == old(sink)@ + self@.config.line_separator + indent_seq(
                        self@.config,
                        lvl as nat,
                    ),
                decreases depth - lvl,
            {
                let mut j: usize = 0;
                while j < self.config.indent_size
                    invariant
                        j <= self@.config.indent_size,
                        sink@ == old(sink)@ + self@.config.line_separator + indent_seq(
                            self@.config,
                            lvl as nat,
                        ) + char_repeat(self@.config.indent_char, j as nat),
                    decreases self.config.indent_size - j,
                {
                    push_char(sink, self.config.indent_char);
                    proof {
                        assert(char_repeat(self@.config.indent_char, (j + 1) as nat) =~= char_repeat(
                            self@.config.indent_char,
                            j as nat,
                        ).push(self@.config.indent_char));
                    }
                    j = j + 1;
                }
                proof {
                    assert(sink@ =~= old(sink)@ + self@.config.line_separator + indent_seq(
                        self@.config,
                        (lvl + 1) as nat,
                    ));
                }
                lvl = lvl + 1;
            }
        } else {
            proof {
                assert(sink@ =~= old(sink)@ + indentation_at(self@, depth as nat));
            }
        }
    }

    /// Writes the document declaration.
    ///
    /// Fails if a declaration was already written or the root element was
    /// already opened: it must be the first event, and is optional.
    pub fn emit_start_document(
        &mut self,
        sink: &mut String,
        version: XmlVersion,
        encoding: &str,
        standalone: Option<bool>,
    ) -> (r: Result<(), EmitterError>)
        ensures
            ({
                let m = old(self)@;
                let e = EventModel::StartDocument {
                    version,
                    encoding: Some(encoding@),
                    standalone,
                };
                &&& r == event_outcome(m, e)
                &&& final(self)@ == event_step(m, e)
                &&& final(sink)@ == old(sink)@ + event_emitted(m, e)
            }),
    {
        if self.start_document_emitted {
            return Err(EmitterError::DocumentStartAlreadyEmitted);
        }
        if self.root_started {
            return Err(EmitterError::DocumentStartAfterRootElement);
        }
        write_declaration(sink, version, encoding, standalone);
        self.start_document_emitted = true;
        self.wrote_markup = true;
        Ok(())
    }

    /// Writes a processing instruction `<?name data?>` or `<?name?>`.
    ///
    /// Fails if `name` equals `xml` in any letter case, which is reserved
    /// for the declaration.
    pub fn emit_processing_instruction(
        &mut self,
        sink: &mut String,
        name: &str,
        data: Option<&str>,
    ) -> (r: Result<(), EmitterError>)
        ensures
            ({
                let m = old(self)@;
                let e = EventModel::ProcessingInstruction {
                    name: name@,
                    data: match data {
                        Some(d) => Some(d@),
                        None => None,
                    },
                };
                &&& r == event_outcome(m, e)
                &&& final(self)@ == event_step(m, e)
                &&& final(sink)@ == old(sink)@ + event_emitted(m, e)
            }),
    {
        if is_reserved_name(name) {
            return Err(EmitterError::ReservedProcessingInstructionName);
        }
        let ghost m = self@;
        self.close_pending(sink);
        let depth: usize = self.element_names.len();
        self.write_indentation(sink, depth);
        sink.append("<?");
        sink.append(name);
        match data {
            Some(d) => {
                sink.append(" ");
                sink.append(d);
            },
            None => {},
        }
        sink.append("?>");
        self.wrote_markup = true;
        proof {
            assert(sink@ =~= old(sink)@ + pi_emitted(
                m,
                name@,
                match data {
                    Some(d) => Some(d@),
                    None => None,
                },
            ));
        }
        Ok(())
    }

    /// Writes character data through the escaping engine in text context,
    /// or raw when escaping is disabled. Never fails.
    pub fn emit_characters(&mut self, sink: &mut String, text: &str)
        ensures
            ({
                let m = old(self)@;
                let e = EventModel::Characters(text@);
                &&& final(self)@ == event_step(m, e)
                &&& final(sink)@ == old(sink)@ + event_emitted(m, e)
            }),
    {
        let ghost m = self@;
        self.close_pending(sink);
        if self.config.perform_escaping {
            escape_into(sink, text, false);
        } else {
            sink.append(text);
        }
        self.wrote_markup = true;
        proof {
            assert(sink@ =~= old(sink)@ + characters_emitted(m, text@));
        }
    }

    /// Opens an element: terminates a pending enclosing start tag with `>`,
    /// writes the automatic declaration if one is due and indentation if
    /// configured, then `<name`, the attributes in submitted order and the
    /// namespace declarations newly bound here. The tag's own terminator
    /// stays pending; one namespace scope and the element's name are
    /// pushed. Never fails.
    #[verifier::rlimit(60)]
    pub fn emit_start_element(
        &mut self,
        sink: &mut String,
        name: Name<'_>,
        attributes: &Vec<Attribute<'_>>,
        namespace: &Vec<(&str, &str)>,
    )
        requires
            old(self)@.wf(),
        ensures
            ({
                let m = old(self)@;
                let e = EventModel::StartElement {
                    name: name@,
                    attributes: attrs_view(attributes@),
                    namespace: bindings_view(namespace@),
                };
                &&& final(self)@ == event_step(m, e)
                &&& final(sink)@ == old(sink)@ + event_emitted(m, e)
                &&& final(self)@.wf()
            }),
    {
        let ghost m = self@;
        if self.config.write_document_declaration && !self.start_document_emitted {
            write_declaration(sink, XmlVersion::Version10, "UTF-8", None);
            self.start_document_emitted = true;
            self.wrote_markup = true;
        }
        let ghost m2 = self@;
        proof {
            assert(m2 == after_auto_decl(m));
        }
        self.close_pending(sink);
        let depth: usize = self.element_names.len();
        self.write_indentation(sink, depth);
        sink.append("<");
        append_qualified(sink, &name);
        write_attributes(sink, attributes, self.config.perform_escaping);
        write_ns_decls(sink, namespace);
        self.element_names.push(name.to_owned());
        self.nst.push_scope();
        self.nst.extend(namespace);
        self.just_wrote_start_element = true;
        self.root_started = true;
        self.wrote_markup = true;
        proof {
            assert(names_view(self.element_names@) =~= m2.open_names.push(name@));
            assert(self.nst@ =~~= m2.scopes.push(bindings_view(namespace@)));
            assert(self@ == start_element_state(m, name@, bindings_view(namespace@)));
            assert(sink@ =~= old(sink)@ + start_element_emitted(
                m,
                name@,
                attrs_view(attributes@),
                bindings_view(namespace@),
            ));
        }
    }

    /// Closes the innermost open element. A still-pending start tag
    /// collapses to `/>` or is expanded to `></name>` according to
    /// configuration; otherwise an indented `</name>` is written. One
    /// namespace scope and one open name are popped — also on a name
    /// mismatch, where the structural nesting still closed but nothing is
    /// written and the mismatch is reported.
    pub fn emit_end_element(&mut self, sink: &mut String, name: Option<Name<'_>>) -> (r: Result<
        (),
        EmitterError,
    >)
        requires
            old(self)@.wf(),
        ensures
            ({
                let m = old(self)@;
                let e = EventModel::EndElement {
                    name: match name {
                        Some(n) => Some(n@),
                        None => None,
                    },
                };
                &&& r == event_outcome(m, e)
                &&& final(self)@ == event_step(m, e)
                &&& final(sink)@ == old(sink)@ + event_emitted(m, e)
                &&& final(self)@.wf()
            }),
    {
        let ghost m = self@;
        if self.element_names.len() == 0 {
            return Err(EmitterError::NoOpenElement);
        }
        let popped_opt = self.element_names.pop();
        let popped = popped_opt.unwrap();
        self.nst.pop_scope();
        proof {
            assert(names_view(self.element_names@) =~= m.open_names.drop_last());
            assert(popped@ == m.open_names.last());
        }
        let mismatch = match &name {
            Some(n) => {
                let owned = n.to_owned();
                !(owned == popped)
            },
            None => false,
        };
        if mismatch {
            return Err(EmitterError::EndElementNameMismatch);
        }
        if self.just_wrote_start_element {
            if self.config.normalize_empty_elements {
                if self.config.pad_self_closing {
                    sink.append(" />");
                } else {
                    sink.append("/>");
                }
            } else {
                sink.append("></");
                let b = popped.borrow();
                append_qualified(sink, &b);
                sink.append(">");
            }
            self.just_wrote_start_element = false;
        } else {
            let depth: usize = self.element_names.len();
            self.write_indentation(sink, depth);
            sink.append("</");
            let b = popped.borrow();
            append_qualified(sink, &b);
            sink.append(">");
        }
        self.wrote_markup = true;
        proof {
            assert(sink@ =~= old(sink)@ + end_element_emitted(m));
        }
        Ok(())
    }

    /// Writes `<!--text-->`.
    ///
    /// Fails if `text` contains `--` or ends with `-`, both illegal in a
    /// comment; nothing is written then.
    pub fn emit_comment(&mut self, sink: &mut String, text: &str) -> (r: Result<
        (),
        EmitterError,
    >)
        ensures
            ({
                let m = old(self)@;
                let e = EventModel::Comment(text@);
                &&& r == event_outcome(m, e)
                &&& final(self)@ == event_step(m, e)
                &&& final(sink)@ == old(sink)@ + event_emitted(m, e)
            }),
    {
        if contains_double_dash(text) || ends_with_dash(text) {
            return Err(EmitterError::IllegalCommentContent);
        }
        let ghost m = self@;
        self.close_pending(sink);
        let depth: usize = self.element_names.len();
        self.write_indentation(sink, depth);
        sink.append("<!--");
        sink.append(text);
        sink.append("-->");
        self.wrote_markup = true;
        proof {
            assert(sink@ =~= old(sink)@ + comment_emitted(m, text@));
        }
        Ok(())
    }

    /// Writes `<![CDATA[text]]>` verbatim, or redirects the text through
    /// the escaping engine when so configured.
    ///
    /// Fails if the literal content contains the terminator `]]>`, for
    /// which no escape exists; redirected content cannot fail.
    pub fn emit_cdata(&mut self, sink: &mut String, text: &str) -> (r: Result<(), EmitterError>)
        ensures
            ({
                let m = old(self)@;
                let e = EventModel::CData(text@);
                &&& r == event_outcome(m, e)
                &&& final(self)@ == event_step(m, e)
                &&& final(sink)@ == old(sink)@ + event_emitted(m, e)
            }),
    {
        if self.config.cdata_to_characters {
            self.emit_characters(sink, text);
            return Ok(());
        }
        if contains_cdata_end(text) {
            return Err(EmitterError::IllegalCdataContent);
        }
        let ghost m = self@;
        self.close_pending(sink);
        sink.append("<![CDATA[");
        sink.append(text);
        sink.append("]]>");
        self.wrote_markup = true;
        proof {
            assert(sink@ =~= old(sink)@ + cdata_emitted(m, text@));
        }
        Ok(())
    }
}

/// Writes the attributes of a start tag, in submitted order.
fn write_attributes(sink: &mut String, attributes: &Vec<Attribute<'_>>, esc: bool)
    ensures
        final(sink)@ == old(sink)@ + attrs_repr(attrs_view(attributes@), esc),
{
    let mut i: usize = 0;
    while i < attributes.len()
        invariant
            i <= attributes@.len(),
            sink@ == old(sink)@ + attrs_repr(attrs_view(attributes@).take(i as int), esc),
        decreases attributes@.len() - i,
    {
        let a = attributes[i];
        sink.append(" ");
        append_qualified(sink, &a.name);
        sink.append("=\"");
        if esc {
            escape_into(sink, a.value, true);
        } else {
            sink.append(a.value);
        }
        sink.append("\"");
        proof {
            let av = attrs_view(attributes@);
            assert(av[i as int] == attributes@[i as int]@);
            assert(av.take(i + 1).drop_last() =~= av.take(i as int));
            assert(av.take(i + 1).last() == av[i as int]);
            assert(sink@ =~= old(sink)@ + attrs_repr(av.take(i + 1), esc));
        }
        i = i + 1;
    }
    proof {
        assert(attrs_view(attributes@).take(attributes@.len() as int) =~= attrs_view(attributes@));
    }
}

/// Writes the namespace declarations newly bound at a start tag, in order.
fn write_ns_decls(sink: &mut String, namespace: &Vec<(&str, &str)>)
    ensures
        final(sink)@ == old(sink)@ + ns_decls_repr(bindings_view(namespace@)),
{
    let mut k: usize = 0;
    while k < namespace.len()
        invariant
            k <= namespace@.len(),
            sink@ == old(sink)@ + ns_decls_repr(bindings_view(namespace@).take(k as int)),
        decreases namespace@.len() - k,
    {
        let b = namespace[k];
        if b.0.is_empty() {
            sink.append(" xmlns=\"");
        } else {
            sink.append(" xmlns:");
            sink.append(b.0);
            sink.append("=\"");
        }
        sink.append(b.1);
        sink.append("\"");
        proof {
            let nv = bindings_view(namespace@);
            assert(nv[k as int] == (namespace@[k as int].0@, namespace@[k as int].1@));
            assert(nv.take(k + 1).drop_last() =~= nv.take(k as int));
            assert(nv.take(k + 1).last() == nv[k as int]);
            assert(sink@ =~= old(sink)@ + ns_decls_repr(nv.take(k + 1)));
        }
        k = k + 1;
    }
    proof {
        assert(bindings_view(namespace@).take(namespace@.len() as int) =~= bindings_view(
            namespace@,
        ));
    }
}

/// Writes the text of a document declaration into the sink.
fn write_declaration(
    sink: &mut String,
    version: XmlVersion,
    encoding: &str,
    standalone: Option<bool>,
)
    ensures
        final(sink)@ == old(sink)@ + declaration_repr(version, encoding@, standalone),
{
    sink.append("<?xml version=\"");
    match version {
        XmlVersion::Version10 => sink.append("1.0"),
        XmlVersion::Version11 => sink.append("1.1"),
    }
    sink.append("\" encoding=\"");
    sink.append(encoding);
    sink.append("\"");
    match standalone {
        Some(true) => sink.append(" standalone=\"yes\""),
        Some(false) => sink.append(" standalone=\"no\""),
        None => {},
    }
    sink.append("?>");
    proof {
        assert(sink@ =~= old(sink)@ + declaration_repr(version, encoding@, standalone));
    }
}

/// Whether a processing-instruction name is the reserved `xml`.
fn is_reserved_name(name: &str) -> (r: bool)
    ensures
        r == is_reserved_pi_name(name@),
{
    let n: usize = name.unicode_len();
    if n != 3 {
        return false;
    }
    let c0 = name.get_char(0);
    let c1 = name.get_char(1);
    let c2 = name.get_char(2);
    (c0 == 'x' || c0 == 'X') && (c1 == 'm' || c1 == 'M') && (c2 == 'l' || c2 == 'L')
}

/// Whether the text contains two adjacent dashes.
fn contains_double_dash(text: &str) -> (r: bool)
    ensures
        r == has_double_dash(text@),
{
    let n: usize = text.unicode_len();
    if n < 2 {
        return false;
    }
    let mut i: usize = 0;
    while i + 1 < n
        invariant
            n == text@.len(),
            i + 1 <= n,
            forall|k: int| 0 <= k < i ==> !(#[trigger] text@[k] == '-' && text@[k + 1] == '-'),
        decreases n - i,
    {
        if text.get_char(i) == '-' && text.get_char(i + 1) == '-' {
            return true;
        }
        i = i + 1;
    }
    false
}

/// Whether the text ends with a dash.
fn ends_with_dash(text: &str) -> (r: bool)
    ensures
        r == (text@.len() > 0 && text@.last() == '-'),
{
    let n: usize = text.unicode_len();
    n > 0 && text.get_char(n - 1) == '-'
}

/// Whether the text contains the CDATA terminator `]]>`.
fn contains_cdata_end(text: &str) -> (r: bool)
    ensures
        r == has_cdata_end(text@),
{
    let n: usize = text.unicode_len();
    if n < 3 {
        return false;
    }
    let mut i: usize = 0;
    while i + 2 < n
        invariant
            n == text@.len(),
            i + 2 <= n,
            forall|k: int|
                0 <= k < i ==> !(#[trigger] text@[k] == ']' && text@[k + 1] == ']' && text@[k + 2]
                    == '>'),
        decreases n - i,
    {
        if text.get_char(i) == ']' && text.get_char(i + 1) == ']' && text.get_char(i + 2) == '>' {
            return true;
        }
        i = i + 1;
    }
    false
}

} // verus!
