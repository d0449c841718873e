use neosynth::{Dispatch, SpeechElement, SpeechMixer, SynthState};

fn text(s: &str) -> SpeechElement {
    SpeechElement::Text(s.to_string())
}

fn bookmark(s: &str) -> SpeechElement {
    SpeechElement::Bookmark(s.to_string())
}

fn plays(e: SpeechElement) -> Dispatch {
    Dispatch { bookmarks: Vec::new(), element: Some(e) }
}

fn drained(bookmarks: &[&str]) -> Dispatch {
    Dispatch { bookmarks: bookmarks.iter().map(|b| b.to_string()).collect(), element: None }
}

#[test]
fn end_to_end_text_bookmark_text() {
    let mut m = SpeechMixer::new();
    let first = m.speak(vec![text("a"), bookmark("b1"), text("c")], SynthState::Ready);
    assert_eq!(first, Some(plays(text("a"))));
    assert_eq!(m.len(), 2);
    // the player reports that "a" has finished
    let second = m.process_queue();
    assert_eq!(second, Dispatch { bookmarks: vec!["b1".to_string()], element: Some(text("c")) });
    assert!(m.is_empty());
    // the player reports that "c" has finished
    let third = m.process_queue();
    assert_eq!(third, drained(&[]));
    assert!(third.is_drained());
    assert!(m.is_empty());
}

#[test]
fn batch_is_dispatched_in_push_order() {
    let mut m = SpeechMixer::new();
    let batch = vec![
        text("one"),
        SpeechElement::Ssml("<speak>two</speak>".to_string()),
        bookmark("three"),
        SpeechElement::Audio("four.wav".to_string()),
        bookmark("five"),
        bookmark("six"),
        text("seven"),
    ];
    let mut seen: Vec<SpeechElement> = Vec::new();
    let mut d = m.speak(batch.clone(), SynthState::Ready).unwrap();
    loop {
        seen.extend(d.bookmarks.iter().map(|b| bookmark(b)));
        match d.element {
            Some(e) => seen.push(e),
            None => break,
        }
        d = m.process_queue();
    }
    assert_eq!(seen, batch);
    assert!(m.is_empty());
}

#[test]
fn speak_while_busy_only_enqueues() {
    let mut m = SpeechMixer::new();
    assert_eq!(m.speak(vec![text("a"), text("b")], SynthState::Busy), None);
    assert_eq!(m.len(), 2);
    assert_eq!(m.speak(vec![text("c")], SynthState::Busy), None);
    assert_eq!(m.len(), 3);
    // draining resumes from the next completion
    assert_eq!(m.process_queue(), plays(text("a")));
    assert_eq!(m.process_queue(), plays(text("b")));
    assert_eq!(m.process_queue(), plays(text("c")));
    assert_eq!(m.process_queue(), drained(&[]));
}

#[test]
fn speak_while_paused_only_enqueues() {
    let mut m = SpeechMixer::new();
    assert_eq!(m.speak(vec![bookmark("x"), text("a")], SynthState::Paused), None);
    assert_eq!(m.len(), 2);
}

#[test]
fn speak_nothing_when_ready_dispatches_nothing() {
    let mut m = SpeechMixer::new();
    assert_eq!(m.speak(Vec::new(), SynthState::Ready), None);
    assert!(m.is_empty());
}

#[test]
fn speak_when_ready_takes_from_head_of_queue() {
    let mut m = SpeechMixer::new();
    assert_eq!(m.speak(vec![text("old")], SynthState::Busy), None);
    assert_eq!(m.speak(vec![text("new")], SynthState::Ready), Some(plays(text("old"))));
    assert_eq!(m.len(), 1);
}

#[test]
fn stop_twice_is_ready_and_empty() {
    let mut m = SpeechMixer::new();
    assert_eq!(m.speak(vec![text("a"), bookmark("b"), text("c")], SynthState::Busy), None);
    let first = m.stop();
    assert_eq!(first, drained(&[]));
    assert!(m.is_empty());
    let second = m.stop();
    assert_eq!(second, drained(&[]));
    assert!(m.is_empty());
}

#[test]
fn stop_drops_pending_bookmarks_unreported() {
    let mut m = SpeechMixer::new();
    m.speak(vec![bookmark("never")], SynthState::Busy);
    assert_eq!(m.stop(), drained(&[]));
}

#[test]
fn bookmark_then_text_in_one_pass() {
    let mut m = SpeechMixer::new();
    let d = m.speak(vec![bookmark("mark"), text("after"), text("later")], SynthState::Ready);
    assert_eq!(d, Some(Dispatch { bookmarks: vec!["mark".to_string()], element: Some(text("after")) }));
    assert_eq!(m.len(), 1);
}

#[test]
fn only_bookmarks_drain_to_ready() {
    let mut m = SpeechMixer::new();
    let d = m.speak(vec![bookmark("p"), bookmark("q")], SynthState::Ready);
    assert_eq!(d, Some(drained(&["p", "q"])));
    assert!(m.is_empty());
}

#[test]
fn empty_queue_pass_reports_ready() {
    let mut m = SpeechMixer::new();
    assert_eq!(m.process_queue(), drained(&[]));
}

#[test]
fn process_bookmark_element_continues_into_queue() {
    let mut m = SpeechMixer::new();
    m.speak(vec![bookmark("q1"), SpeechElement::Audio("x.wav".to_string())], SynthState::Busy);
    let d = m.process_speech_element(bookmark("head"));
    assert_eq!(
        d,
        Dispatch {
            bookmarks: vec!["head".to_string(), "q1".to_string()],
            element: Some(SpeechElement::Audio("x.wav".to_string())),
        }
    );
    assert!(m.is_empty());
}

#[test]
fn process_audio_element_leaves_queue() {
    let mut m = SpeechMixer::new();
    m.speak(vec![text("queued")], SynthState::Busy);
    let d = m.process_speech_element(SpeechElement::Audio("clip.wav".to_string()));
    assert_eq!(d, plays(SpeechElement::Audio("clip.wav".to_string())));
    assert_eq!(m.len(), 1);
}
