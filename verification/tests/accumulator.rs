use gummy::accumulator::{Accumulator, Transcription};
use gummy::error::GummyError;

fn sentence(begin: u64, end: u64, text: &str, translated: Option<&str>) -> Transcription {
    Transcription {
        begin_time: begin,
        end_time: end,
        text: text.to_string(),
        translated_text: translated.map(|t| t.to_string()),
    }
}

#[test]
fn new_accumulator_is_empty() {
    let acc = Accumulator::new();
    assert_eq!(acc.len(), 0);
    assert!(acc.snapshot().is_empty());
}

#[test]
fn index_equal_to_length_appends() {
    let mut acc = Accumulator::new();
    assert_eq!(acc.apply(sentence(0, 10, "hello", None), 0), Ok(()));
    assert_eq!(acc.apply(sentence(10, 20, "world", Some("monde")), 1), Ok(()));
    let snap = acc.snapshot();
    assert_eq!(snap.len(), 2);
    assert_eq!(snap[0].text, "hello");
    assert_eq!(snap[0].begin_time, 0);
    assert_eq!(snap[0].end_time, 10);
    assert_eq!(snap[0].translated_text, None);
    assert_eq!(snap[1].text, "world");
    assert_eq!(snap[1].begin_time, 10);
    assert_eq!(snap[1].end_time, 20);
    assert_eq!(snap[1].translated_text.as_deref(), Some("monde"));
}

#[test]
fn smaller_index_overwrites_in_place() {
    let mut acc = Accumulator::new();
    acc.apply(sentence(0, 10, "hel", None), 0).unwrap();
    acc.apply(sentence(10, 20, "wor", None), 1).unwrap();
    assert_eq!(acc.apply(sentence(1, 12, "hello", Some("bonjour")), 0), Ok(()));
    let snap = acc.snapshot();
    assert_eq!(snap.len(), 2);
    assert_eq!(snap[0].text, "hello");
    assert_eq!(snap[0].begin_time, 1);
    assert_eq!(snap[0].end_time, 12);
    assert_eq!(snap[0].translated_text.as_deref(), Some("bonjour"));
    assert_eq!(snap[1].text, "wor");
}

#[test]
fn index_beyond_length_is_rejected_without_a_gap() {
    let mut acc = Accumulator::new();
    assert_eq!(
        acc.apply(sentence(0, 1, "late", None), 1),
        Err(GummyError::MalformedMessage)
    );
    assert_eq!(acc.len(), 0);
    acc.apply(sentence(0, 1, "a", None), 0).unwrap();
    assert_eq!(
        acc.apply(sentence(0, 1, "far", None), 7),
        Err(GummyError::MalformedMessage)
    );
    assert_eq!(
        acc.apply(sentence(0, 1, "huge", None), u64::MAX),
        Err(GummyError::MalformedMessage)
    );
    let snap = acc.snapshot();
    assert_eq!(snap.len(), 1);
    assert_eq!(snap[0].text, "a");
}

#[test]
fn update_without_translation_keeps_the_recorded_one() {
    let mut acc = Accumulator::new();
    acc.apply(sentence(0, 5, "good", Some("bon")), 0).unwrap();
    acc.apply(sentence(0, 9, "good day", None), 0).unwrap();
    let snap = acc.snapshot();
    assert_eq!(snap.len(), 1);
    assert_eq!(snap[0].text, "good day");
    assert_eq!(snap[0].end_time, 9);
    assert_eq!(snap[0].translated_text.as_deref(), Some("bon"));
}

#[test]
fn update_with_translation_replaces_the_recorded_one() {
    let mut acc = Accumulator::new();
    acc.apply(sentence(0, 5, "good", Some("bon")), 0).unwrap();
    acc.apply(sentence(0, 9, "good day", Some("bonne journee")), 0).unwrap();
    assert_eq!(
        acc.snapshot()[0].translated_text.as_deref(),
        Some("bonne journee")
    );
}

#[test]
fn length_is_the_number_of_distinct_indices() {
    let mut acc = Accumulator::new();
    let indices: [u64; 9] = [0, 0, 1, 1, 1, 2, 0, 2, 3];
    for (n, index) in indices.iter().enumerate() {
        let text = format!("rev{}", n);
        assert_eq!(acc.apply(sentence(0, 1, &text, None), *index), Ok(()));
    }
    assert_eq!(acc.len(), 4);
    let snap = acc.snapshot();
    assert_eq!(snap.len(), 4);
    assert_eq!(snap[0].text, "rev6");
    assert_eq!(snap[1].text, "rev4");
    assert_eq!(snap[2].text, "rev7");
    assert_eq!(snap[3].text, "rev8");
}

#[test]
fn snapshot_is_a_copy() {
    let mut acc = Accumulator::new();
    acc.apply(sentence(0, 1, "one", None), 0).unwrap();
    let before = acc.snapshot();
    acc.apply(sentence(0, 2, "uno", None), 0).unwrap();
    assert_eq!(before[0].text, "one");
    assert_eq!(acc.snapshot()[0].text, "uno");
    let again = acc.snapshot();
    assert_eq!(again.len(), acc.snapshot().len());
    assert_eq!(again[0].text, acc.snapshot()[0].text);
}

#[test]
fn clone_of_a_transcription_keeps_every_field() {
    let t = sentence(3, 4, "text", Some("texte"));
    let c = t.clone();
    assert_eq!(c.begin_time, 3);
    assert_eq!(c.end_time, 4);
    assert_eq!(c.text, "text");
    assert_eq!(c.translated_text.as_deref(), Some("texte"));
}
