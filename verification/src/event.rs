//! Inbound events: what a received text frame says.
//!
//! A frame is decoded in two steps. The first reads, from the parsed
//! document, the positions that the protocol uses and collects them in an
//! [`Envelope`]. The second applies the protocol's rules to the envelope:
//! which kinds of event exist and which fields each of them must carry.

use crate::accumulator::{Transcription, TranscriptionView};
use crate::document::{
    count_at, document_nodes, flag_at, has_object, object_at, parse_document, parsed_nodes,
    read_count, read_flag, read_text, text_at, Node,
};
use crate::error::GummyError;
use crate::text::{chars_of, spells};
use vstd::prelude::*;

verus! {

/// The mathematical value of an [`Envelope`].
pub struct EnvelopeView {
    pub event: Option<Seq<char>>,
    pub task_id: Option<Seq<char>>,
    pub has_transcription: bool,
    pub sentence_id: Option<u64>,
    pub begin_time: Option<u64>,
    pub end_time: Option<u64>,
    pub text: Option<Seq<char>>,
    pub sentence_end: Option<bool>,
    pub has_translation: bool,
    pub translation_text: Option<Seq<char>>,
}

/// The fields of a frame that the protocol reads, each present only if the
/// frame holds it with the expected type.
#[derive(Debug)]
pub struct Envelope {
    /// `header.event`.
    pub event: Option<String>,
    /// `header.task_id`.
    pub task_id: Option<String>,
    /// Whether `payload.output.transcription` is an object.
    pub has_transcription: bool,
    pub sentence_id: Option<u64>,
    pub begin_time: Option<u64>,
    pub end_time: Option<u64>,
    pub text: Option<String>,
    pub sentence_end: Option<bool>,
    /// Whether the frame holds a translation object, in any of the shapes
    /// that the service uses.
    pub has_translation: bool,
    pub translation_text: Option<String>,
}

impl View for Envelope {
    type V = EnvelopeView;

    open spec fn view(&self) -> EnvelopeView {
        EnvelopeView {
            event: chars_of(self.event),
            task_id: chars_of(self.task_id),
            has_transcription: self.has_transcription,
            sentence_id: self.sentence_id,
            begin_time: self.begin_time,
            end_time: self.end_time,
            text: chars_of(self.text),
            sentence_end: self.sentence_end,
            has_translation: self.has_translation,
            translation_text: chars_of(self.translation_text),
        }
    }
}

/// The mathematical value of an [`InboundEvent`].
pub enum EventView {
    TaskStarted { task_id: Seq<char> },
    ResultGenerated {
        task_id: Seq<char>,
        sentence_id: u64,
        update: TranscriptionView,
        sentence_end: bool,
    },
    TaskFinished { task_id: Seq<char> },
    TaskFailed { task_id: Seq<char> },
    Other,
}

/// An event of the service.
#[derive(Debug)]
pub enum InboundEvent {
    /// The service accepted the task.
    TaskStarted { task_id: String },
    /// A new or revised sentence. The update carries a translation only if
    /// the frame did.
    ResultGenerated { task_id: String, sentence_id: u64, update: Transcription, sentence_end: bool },
    /// The service has sent every result of the task.
    TaskFinished { task_id: String },
    /// The service gave the task up.
    TaskFailed { task_id: String },
    /// An event of a kind that this client does not know.
    Other,
}

impl View for InboundEvent {
    type V = EventView;

    open spec fn view(&self) -> EventView {
        match *self {
            InboundEvent::TaskStarted { task_id } => EventView::TaskStarted { task_id: task_id@ },
            InboundEvent::ResultGenerated {
                task_id,
                sentence_id,
                update,
                sentence_end,
            } => EventView::ResultGenerated {
                task_id: task_id@,
                sentence_id,
                update: update@,
                sentence_end,
            },
            InboundEvent::TaskFinished { task_id } => EventView::TaskFinished { task_id: task_id@ },
            InboundEvent::TaskFailed { task_id } => EventView::TaskFailed { task_id: task_id@ },
            InboundEvent::Other => EventView::Other,
        }
    }
}

/// The value of a decoding result.
pub open spec fn outcome_view(r: Result<InboundEvent, GummyError>) -> Result<
    EventView,
    GummyError,
> {
    match r {
        Ok(event) => Ok(event@),
        Err(e) => Err(e),
    }
}

/// Whether a document holds a translation object: directly under
/// `translation`, as the first element of a list there, or as the first
/// element of a list under `translations`.
pub open spec fn translation_found(nodes: Map<Seq<char>, Node>) -> bool {
    object_at(nodes, "/payload/output/translation"@) || object_at(
        nodes,
        "/payload/output/translation/0"@,
    ) || object_at(nodes, "/payload/output/translations/0"@)
}

/// The text of the translation object of a document: of the first of the
/// three shapes that is present.
pub open spec fn translation_text_of(nodes: Map<Seq<char>, Node>) -> Option<Seq<char>> {
    if object_at(nodes, "/payload/output/translation"@) {
        text_at(nodes, "/payload/output/translation/text"@)
    } else if object_at(nodes, "/payload/output/translation/0"@) {
        text_at(nodes, "/payload/output/translation/0/text"@)
    } else if object_at(nodes, "/payload/output/translations/0"@) {
        text_at(nodes, "/payload/output/translations/0/text"@)
    } else {
        None
    }
}

/// The envelope of a document.
pub open spec fn envelope_of(nodes: Map<Seq<char>, Node>) -> EnvelopeView {
    EnvelopeView {
        event: text_at(nodes, "/header/event"@),
        task_id: text_at(nodes, "/header/task_id"@),
        has_transcription: object_at(nodes, "/payload/output/transcription"@),
        sentence_id: count_at(nodes, "/payload/output/transcription/sentence_id"@),
        begin_time: count_at(nodes, "/payload/output/transcription/begin_time"@),
        end_time: count_at(nodes, "/payload/output/transcription/end_time"@),
        text: text_at(nodes, "/payload/output/transcription/text"@),
        sentence_end: flag_at(nodes, "/payload/output/transcription/sentence_end"@),
        has_translation: translation_found(nodes),
        translation_text: translation_text_of(nodes),
    }
}

/// Whether an event kind is one that this client knows.
pub open spec fn known_kind(kind: Seq<char>) -> bool {
    kind == "task-started"@ || kind == "result-generated"@ || kind == "task-finished"@ || kind
        == "task-failed"@
}

/// Whether an envelope carries all that a `result-generated` event must:
/// the transcription object with its five fields, and the text of the
/// translation object where there is one.
pub open spec fn result_complete(e: EnvelopeView) -> bool {
    &&& e.has_transcription
    &&& e.sentence_id is Some
    &&& e.begin_time is Some
    &&& e.end_time is Some
    &&& e.text is Some
    &&& e.sentence_end is Some
    &&& e.has_translation ==> e.translation_text is Some
}

/// The update that a complete `result-generated` envelope carries.
pub open spec fn update_of(e: EnvelopeView) -> TranscriptionView {
    TranscriptionView {
        begin_time: e.begin_time->0,
        end_time: e.end_time->0,
        text: e.text->0,
        translated_text: if e.has_translation {
            e.translation_text
        } else {
            None
        },
    }
}

/// The event that an envelope stands for.
///
/// An envelope without an event kind is malformed. One of an unknown kind is
/// `Other`, whatever else it holds. One of a known kind must name its task,
/// and a `result-generated` one must be complete.
pub open spec fn classified(e: EnvelopeView) -> Result<EventView, GummyError> {
    if e.event is None {
        Err(GummyError::MalformedMessage)
    } else if !known_kind(e.event->0) {
        Ok(EventView::Other)
    } else if e.task_id is None {
        Err(GummyError::MalformedMessage)
    } else if e.event->0 == "task-started"@ {
        Ok(EventView::TaskStarted { task_id: e.task_id->0 })
    } else if e.event->0 == "task-finished"@ {
        Ok(EventView::TaskFinished { task_id: e.task_id->0 })
    } else if e.event->0 == "task-failed"@ {
        Ok(EventView::TaskFailed { task_id: e.task_id->0 })
    } else if result_complete(e) {
        Ok(
            EventView::ResultGenerated {
                task_id: e.task_id->0,
                sentence_id: e.sentence_id->0,
                update: update_of(e),
                sentence_end: e.sentence_end->0,
            },
        )
    } else {
        Err(GummyError::MalformedMessage)
    }
}

/// The event that a text frame stands for: text that is not JSON is
/// malformed; any other is classified by its envelope.
pub open spec fn decoded(text: Seq<char>) -> Result<EventView, GummyError> {
    match parsed_nodes(text) {
        Some(nodes) => classified(envelope_of(nodes)),
        None => Err(GummyError::MalformedMessage),
    }
}

/// Reads the text of the translation object, in whichever shape it has.
fn read_translation(doc: &serde_json::Value) -> (r: (bool, Option<String>))
    ensures
        r.0 == translation_found(document_nodes(*doc)),
        chars_of(r.1) == translation_text_of(document_nodes(*doc)),
{
    if has_object(doc, "/payload/output/translation") {
        (true, read_text(doc, "/payload/output/translation/text"))
    } else if has_object(doc, "/payload/output/translation/0") {
        (true, read_text(doc, "/payload/output/translation/0/text"))
    } else if has_object(doc, "/payload/output/translations/0") {
        (true, read_text(doc, "/payload/output/translations/0/text"))
    } else {
        (false, None)
    }
}

/// Collects the fields of a parsed frame.
pub fn read_envelope(doc: &serde_json::Value) -> (r: Envelope)
    ensures
        r@ == envelope_of(document_nodes(*doc)),
{
    let (has_translation, translation_text) = read_translation(doc);
    Envelope {
        event: read_text(doc, "/header/event"),
        task_id: read_text(doc, "/header/task_id"),
        has_transcription: has_object(doc, "/payload/output/transcription"),
        sentence_id: read_count(doc, "/payload/output/transcription/sentence_id"),
        begin_time: read_count(doc, "/payload/output/transcription/begin_time"),
        end_time: read_count(doc, "/payload/output/transcription/end_time"),
        text: read_text(doc, "/payload/output/transcription/text"),
        sentence_end: read_flag(doc, "/payload/output/transcription/sentence_end"),
        has_translation,
        translation_text,
    }
}

/// Applies the protocol's rules to an envelope.
pub fn classify(envelope: Envelope) -> (r: Result<InboundEvent, GummyError>)
    ensures
        outcome_view(r) == classified(envelope@),
{
    let Envelope {
        event,
        task_id,
        has_transcription,
        sentence_id,
        begin_time,
        end_time,
        text,
        sentence_end,
        has_translation,
        translation_text,
    } = envelope;
    let kind = match event {
        Some(kind) => kind,
        None => {
            return Err(GummyError::MalformedMessage);
        },
    };
    let started = spells(&kind, "task-started");
    let generated = spells(&kind, "result-generated");
    let finished = spells(&kind, "task-finished");
    let failed = spells(&kind, "task-failed");
    if !(started || generated || finished || failed) {
        return Ok(InboundEvent::Other);
    }
    let task_id = match task_id {
        Some(task_id) => task_id,
        None => {
            return Err(GummyError::MalformedMessage);
        },
    };
    if started {
        return Ok(InboundEvent::TaskStarted { task_id });
    }
    if finished {
        return Ok(InboundEvent::TaskFinished { task_id });
    }
    if failed {
        return Ok(InboundEvent::TaskFailed { task_id });
    }
    if !has_transcription || (has_translation && translation_text.is_none()) {
        return Err(GummyError::MalformedMessage);
    }
    match (sentence_id, begin_time, end_time, text, sentence_end) {
        (Some(sentence_id), Some(begin_time), Some(end_time), Some(text), Some(sentence_end)) => {
            let translated_text = if has_translation {
                translation_text
            } else {
                None
            };
            let update = Transcription { begin_time, end_time, text, translated_text };
            Ok(InboundEvent::ResultGenerated { task_id, sentence_id, update, sentence_end })
        },
        _ => Err(GummyError::MalformedMessage),
    }
}

/// Decodes a text frame into the event it stands for.
///
/// Text that is not JSON is malformed. So is a frame without an event kind,
/// a frame of a known kind without a task identifier, and a
/// `result-generated` frame that lacks a field. A frame of an unknown kind
/// is `Other`.
pub fn decode_event(text: &str) -> (r: Result<InboundEvent, GummyError>)
    ensures
        outcome_view(r) == decoded(text@),
{
    match parse_document(text) {
        Ok(doc) => classify(read_envelope(&doc)),
        Err(_) => Err(GummyError::MalformedMessage),
    }
}

} // verus!
