//! The two control messages that a client sends: one starts a task, the
//! other asks the service to finish it.

use crate::text::{chars_of, text_or};
use vstd::prelude::*;

verus! {

/// The mathematical value of a [`Header`].
pub struct HeaderView {
    pub task_id: Seq<char>,
    pub action: Seq<char>,
    pub streaming: Seq<char>,
}

/// The mathematical value of a [`Parameters`].
pub struct ParametersView {
    pub sample_rate: u32,
    pub format: Seq<char>,
    pub source_language: Option<Seq<char>>,
    pub transcription_enabled: bool,
    pub translation_enabled: bool,
    pub translation_target_languages: Seq<Seq<char>>,
}

/// The mathematical value of a [`Payload`].
pub struct PayloadView {
    pub model: Option<Seq<char>>,
    pub parameters: Option<ParametersView>,
    pub input: Input,
    pub task: Option<Seq<char>>,
    pub task_group: Option<Seq<char>>,
    pub function: Option<Seq<char>>,
}

/// The mathematical value of a control message.
pub struct MessageView {
    pub header: HeaderView,
    pub payload: PayloadView,
}

/// Names the task that a message is about and what is asked for it.
#[derive(Debug)]
pub struct Header {
    pub task_id: String,
    pub action: String,
    pub streaming: String,
}

/// How the audio is encoded and what the service is to do with it.
#[derive(Debug)]
pub struct Parameters {
    pub sample_rate: u32,
    pub format: String,
    pub source_language: Option<String>,
    pub transcription_enabled: bool,
    pub translation_enabled: bool,
    pub translation_target_languages: Vec<String>,
}

/// The input block of a payload. It is always empty: the audio travels in
/// binary frames.
#[derive(Debug, Clone, Copy, PartialEq, Eq, Structural)]
pub struct Input {}

/// The body of a control message.
#[derive(Debug)]
pub struct Payload {
    pub model: Option<String>,
    pub parameters: Option<Parameters>,
    pub input: Input,
    pub task: Option<String>,
    pub task_group: Option<String>,
    pub function: Option<String>,
}

/// The message that starts a task.
#[derive(Debug)]
pub struct StartMessage {
    pub header: Header,
    pub payload: Payload,
}

/// The message that asks the service to finish a task.
#[derive(Debug)]
pub struct FinishMessage {
    pub header: Header,
    pub payload: Payload,
}

impl View for Header {
    type V = HeaderView;

    open spec fn view(&self) -> HeaderView {
        HeaderView { task_id: self.task_id@, action: self.action@, streaming: self.streaming@ }
    }
}

impl View for Parameters {
    type V = ParametersView;

    open spec fn view(&self) -> ParametersView {
        ParametersView {
            sample_rate: self.sample_rate,
            format: self.format@,
            source_language: chars_of(self.source_language),
            transcription_enabled: self.transcription_enabled,
            translation_enabled: self.translation_enabled,
            translation_target_languages: self.translation_target_languages@.map_values(
                |s: String| s@,
            ),
        }
    }
}

/// The value of an optional parameter block.
pub open spec fn parameters_view(parameters: Option<Parameters>) -> Option<ParametersView> {
    match parameters {
        Some(p) => Some(p@),
        None => None,
    }
}

impl View for Payload {
    type V = PayloadView;

    open spec fn view(&self) -> PayloadView {
        PayloadView {
            model: chars_of(self.model),
            parameters: parameters_view(self.parameters),
            input: self.input,
            task: chars_of(self.task),
            task_group: chars_of(self.task_group),
            function: chars_of(self.function),
        }
    }
}

impl View for StartMessage {
    type V = MessageView;

    open spec fn view(&self) -> MessageView {
        MessageView { header: self.header@, payload: self.payload@ }
    }
}

impl View for FinishMessage {
    type V = MessageView;

    open spec fn view(&self) -> MessageView {
        MessageView { header: self.header@, payload: self.payload@ }
    }
}

/// The characters of an optional string slice, or of the default in its
/// place.
pub open spec fn word_or(given: Option<&str>, default: Seq<char>) -> Seq<char> {
    match given {
        Some(s) => s@,
        None => default,
    }
}

/// The sample rate that is sent where the caller names none.
pub const DEFAULT_SAMPLE_RATE: u32 = 48000;

/// The start message for a task: the action `run-task` in duplex mode, the
/// recognition pipeline of the service, transcription and translation both
/// switched on, and the caller's choices with their defaults: format `pcm`,
/// 48000 Hz, source language `auto`, target language `zh`.
pub open spec fn start_request(
    task_id: Seq<char>,
    format: Option<&str>,
    sample_rate: Option<u32>,
    source_language: Option<&str>,
    target_language: Option<&str>,
) -> MessageView {
    MessageView {
        header: HeaderView { task_id, action: "run-task"@, streaming: "duplex"@ },
        payload: PayloadView {
            model: Some("gummy-realtime-v1"@),
            parameters: Some(
                ParametersView {
                    sample_rate: match sample_rate {
                        Some(rate) => rate,
                        None => DEFAULT_SAMPLE_RATE,
                    },
                    format: word_or(format, "pcm"@),
                    source_language: Some(word_or(source_language, "auto"@)),
                    transcription_enabled: true,
                    translation_enabled: true,
                    translation_target_languages: seq![word_or(target_language, "zh"@)],
                },
            ),
            input: Input {  },
            task: Some("asr"@),
            task_group: Some("audio"@),
            function: Some("recognition"@),
        },
    }
}

/// The finish message for a task: the action `finish-task` in duplex mode
/// and a payload that names nothing.
pub open spec fn finish_request(task_id: Seq<char>) -> MessageView {
    MessageView {
        header: HeaderView { task_id, action: "finish-task"@, streaming: "duplex"@ },
        payload: PayloadView {
            model: None,
            parameters: None,
            input: Input {  },
            task: None,
            task_group: None,
            function: None,
        },
    }
}

/// `uuid::Uuid::new_v4`, written out by its `Display`: a random identifier.
/// Two calls differ, so nothing is claimed of the string.
#[verifier::external_body]
pub(crate) fn fresh_task_id() -> String {
    uuid::Uuid::new_v4().to_string()
}

impl StartMessage {
    /// The start message of a new task, under a fresh random identifier.
    pub fn new(
        format: Option<&str>,
        sample_rate: Option<u32>,
        source_language: Option<&str>,
        target_language: Option<&str>,
    ) -> (r: Self)
        ensures
            r@ == start_request(
                r@.header.task_id,
                format,
                sample_rate,
                source_language,
                target_language,
            ),
    {
        StartMessage::with_task_id(
            fresh_task_id(),
            format,
            sample_rate,
            source_language,
            target_language,
        )
    }

    /// The start message of the task with the given identifier.
    pub fn with_task_id(
        task_id: String,
        format: Option<&str>,
        sample_rate: Option<u32>,
        source_language: Option<&str>,
        target_language: Option<&str>,
    ) -> (r: Self)
        ensures
            r@ == start_request(task_id@, format, sample_rate, source_language, target_language),
    {
        let mut targets: Vec<String> = Vec::new();
        targets.push(text_or(target_language, "zh"));
        let parameters = Parameters {
            sample_rate: match sample_rate {
                Some(rate) => rate,
                None => DEFAULT_SAMPLE_RATE,
            },
            format: text_or(format, "pcm"),
            source_language: Some(text_or(source_language, "auto")),
            transcription_enabled: true,
            translation_enabled: true,
            translation_target_languages: targets,
        };
        assert(parameters@.translation_target_languages =~= seq![word_or(target_language, "zh"@)]);
        StartMessage {
            header: Header {
                task_id,
                action: "run-task".to_owned(),
                streaming: "duplex".to_owned(),
            },
            payload: Payload {
                model: Some("gummy-realtime-v1".to_owned()),
                parameters: Some(parameters),
                input: Input {  },
                task: Some("asr".to_owned()),
                task_group: Some("audio".to_owned()),
                function: Some("recognition".to_owned()),
            },
        }
    }

    /// The identifier of the task that this message starts.
    pub fn id(&self) -> (r: &str)
        ensures
            r@ == self@.header.task_id,
    {
        self.header.task_id.as_str()
    }
}

impl FinishMessage {
    /// The finish message of the task with the given identifier.
    pub fn new(task_id: &str) -> (r: Self)
        ensures
            r@ == finish_request(task_id@),
    {
        FinishMessage {
            header: Header {
                task_id: task_id.to_owned(),
                action: "finish-task".to_owned(),
                streaming: "duplex".to_owned(),
            },
            payload: Payload {
                model: None,
                parameters: None,
                input: Input {  },
                task: None,
                task_group: None,
                function: None,
            },
        }
    }

    /// The identifier of the task that this message finishes.
    pub fn id(&self) -> (r: &str)
        ensures
            r@ == self@.header.task_id,
    {
        self.header.task_id.as_str()
    }
}

} // verus!
