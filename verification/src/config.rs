//! The immutable set of options bound once at writer construction and
//! consulted on every emit operation.

use vstd::prelude::*;

verus! {

/// The mathematical content of a configuration.
pub ghost struct ConfigModel {
    pub line_separator: Seq<char>,
    pub indent_char: char,
    pub indent_size: nat,
    pub perform_indent: bool,
    pub perform_escaping: bool,
    pub write_document_declaration: bool,
    pub normalize_empty_elements: bool,
    pub cdata_to_characters: bool,
    pub pad_self_closing: bool,
}

/// Emitter configuration. All options are bound at construction; the
/// emitter never changes them.
#[derive(Debug)]
pub struct EmitterConfig {
    /// Newline sequence written between indented lines.
    pub line_separator: String,
    /// The whitespace character used for indentation.
    pub indent_char: char,
    /// How many indentation characters one nesting level is worth.
    pub indent_size: usize,
    /// Whether to insert a newline and depth-proportional indentation
    /// around structural tags.
    pub perform_indent: bool,
    /// Whether the escaping engine runs at all. When disabled, the caller
    /// accepts responsibility for well-formedness.
    pub perform_escaping: bool,
    /// Whether to auto-emit a default declaration just before the root
    /// element if the caller never submits a start-document event.
    pub write_document_declaration: bool,
    /// Whether an element that stays empty collapses to self-closing form.
    pub normalize_empty_elements: bool,
    /// Whether CDATA events are redirected through text escaping instead of
    /// literal CDATA markers.
    pub cdata_to_characters: bool,
    /// Whether a space is inserted before `/>` in a self-closing tag.
    pub pad_self_closing: bool,
}

impl View for EmitterConfig {
    type V = ConfigModel;

    open spec fn view(&self) -> ConfigModel {
        ConfigModel {
            line_separator: self.line_separator@,
            indent_char: self.indent_char,
            indent_size: self.indent_size as nat,
            perform_indent: self.perform_indent,
            perform_escaping: self.perform_escaping,
            write_document_declaration: self.write_document_declaration,
            normalize_empty_elements: self.normalize_empty_elements,
            cdata_to_characters: self.cdata_to_characters,
            pad_self_closing: self.pad_self_closing,
        }
    }
}

/// The configuration a new writer gets when none is supplied.
pub open spec fn default_config_model() -> ConfigModel {
    ConfigModel {
        line_separator: "\n"@,
        indent_char: ' ',
        indent_size: 2,
        perform_indent: false,
        perform_escaping: true,
        write_document_declaration: true,
        normalize_empty_elements: true,
        cdata_to_characters: false,
        pad_self_closing: true,
    }
}

impl EmitterConfig {
    /// Creates the default configuration: no indentation, escaping on, a
    /// declaration written automatically, empty elements collapsed with a
    /// padding space, CDATA kept literal.
    pub fn new() -> (r: EmitterConfig)
        ensures
            r@ == default_config_model(),
    {
        EmitterConfig {
            line_separator: String::from_str("\n"),
            indent_char: ' ',
            indent_size: 2,
            perform_indent: false,
            perform_escaping: true,
            write_document_declaration: true,
            normalize_empty_elements: true,
            cdata_to_characters: false,
            pad_self_closing: true,
        }
    }
}

impl Clone for EmitterConfig {
    /// An exact copy: the clone has the same options.
    fn clone(&self) -> (r: EmitterConfig)
        ensures
            r@ == self@,
    {
        EmitterConfig {
            line_separator: self.line_separator.clone(),
            indent_char: self.indent_char,
            indent_size: self.indent_size,
            perform_indent: self.perform_indent,
            perform_escaping: self.perform_escaping,
            write_document_declaration: self.write_document_declaration,
            normalize_empty_elements: self.normalize_empty_elements,
            cdata_to_characters: self.cdata_to_characters,
            pad_self_closing: self.pad_self_closing,
        }
    }
}

} // verus!
