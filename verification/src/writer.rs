//! The high-level interface for the events-based XML emitter: an
//! `EventWriter` binds an emitter and a string sink behind a small
//! event-submission API.

use vstd::prelude::*;

pub use crate::config::EmitterConfig;
pub use crate::emitter::EmitterError;
pub use crate::events::XmlEvent;
pub use crate::events::XmlVersion;

use crate::config::default_config_model;
use crate::emitter::Emitter;
use crate::emitter::EmitterModel;
use crate::emitter::event_emitted;
use crate::emitter::event_outcome;
use crate::emitter::event_step;
use crate::emitter::initial_model;

verus! {

/// The mathematical content of a writer: what stands in the sink and the
/// emitter state.
pub ghost struct WriterModel {
    pub sink: Seq<char>,
    pub emitter: EmitterModel,
}

/// A wrapper around a `String` sink which emits an XML document according
/// to the provided events.
pub struct EventWriter {
    sink: String,
    emitter: Emitter,
}

impl View for EventWriter {
    type V = WriterModel;

    closed spec fn view(&self) -> WriterModel {
        WriterModel { sink: self.sink@, emitter: self.emitter@ }
    }
}

impl EventWriter {
    /// Creates a new `EventWriter` using the default configuration.
    pub fn new() -> (r: EventWriter)
        ensures
            r@.sink == Seq::<char>::empty(),
            r@.emitter == initial_model(default_config_model()),
    {
        EventWriter::new_with_config(EmitterConfig::new())
    }

    /// Creates a new `EventWriter` using the provided configuration.
    pub fn new_with_config(config: EmitterConfig) -> (r: EventWriter)
        ensures
            r@.sink == Seq::<char>::empty(),
            r@.emitter == initial_model(config@),
    {
        EventWriter { sink: String::new(), emitter: Emitter::new(config) }
    }

    /// Writes the next piece of the XML document according to the provided
    /// event: exactly `event_emitted` is appended to the sink, the emitter
    /// state advances by `event_step`, and the result is `event_outcome` —
    /// an error leaves the sink untouched.
    ///
    /// The output may not correspond verbatim to the event: an end-element
    /// event may collapse the element to self-closing form, and a CDATA
    /// event may be written as escaped character data, according to the
    /// configuration.
    pub fn write(&mut self, event: XmlEvent<'_>) -> (r: Result<(), EmitterError>)
        requires
            old(self)@.emitter.wf(),
        ensures
            r == event_outcome(old(self)@.emitter, event@),
            final(self)@.emitter == event_step(old(self)@.emitter, event@),
            final(self)@.sink == old(self)@.sink + event_emitted(old(self)@.emitter, event@),
            final(self)@.emitter.wf(),
    {
        match event {
            XmlEvent::StartDocument { version, encoding, standalone } => {
                let enc = match encoding {
                    Some(e) => e,
                    None => "UTF-8",
                };
                self.emitter.emit_start_document(&mut self.sink, version, enc, standalone)
            },
            XmlEvent::ProcessingInstruction { name, data } => self.emitter.emit_processing_instruction(
                &mut self.sink,
                name,
                data,
            ),
            XmlEvent::StartElement { name, attributes, namespace } => {
                self.emitter.emit_start_element(&mut self.sink, name, &attributes, &namespace);
                Ok(())
            },
            XmlEvent::EndElement { name } => self.emitter.emit_end_element(&mut self.sink, name),
            XmlEvent::Comment(text) => self.emitter.emit_comment(&mut self.sink, text),
            XmlEvent::CData(text) => self.emitter.emit_cdata(&mut self.sink, text),
            XmlEvent::Characters(text) => {
                self.emitter.emit_characters(&mut self.sink, text);
                Ok(())
            },
        }
    }

    /// Returns a mutable reference to the underlying sink, for sink-level
    /// operations that add no markup.
    pub fn inner_mut(&mut self) -> (r: &mut String)
        ensures
            r@ == old(self)@.sink,
            final(self)@.sink == final(r)@,
            final(self)@.emitter == old(self)@.emitter,
    {
        &mut self.sink
    }

    /// Unwraps this `EventWriter`, returning the `String` the writer has
    /// written to. This consumes the writer and discards all emitter state:
    /// reclaiming the sink is a one-time, ownership-transferring operation.
    pub fn into_inner(self) -> (r: String)
        ensures
            r@ == self@.sink,
    {
        self.sink
    }
}

} // verus!
