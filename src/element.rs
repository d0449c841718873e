use vstd::prelude::*;

verus! {

/// One item of a playback timeline.
#[derive(Debug, Clone, PartialEq, Eq)]
pub enum SpeechElement {
    /// Plain text to synthesize.
    Text(String),
    /// Markup-annotated text to synthesize.
    Ssml(String),
    /// A named marker: it plays nothing and is reported to the event sink.
    Bookmark(String),
    /// The path of a recorded audio file, played as it is.
    Audio(String),
}

/// An ordered batch of speech elements, built up one element at a time.
#[derive(Debug, Clone)]
pub struct SpeechUtterance {
    content: Vec<SpeechElement>,
}

impl SpeechUtterance {
    /// The elements of the utterance, in order.
    pub closed spec fn view(&self) -> Seq<SpeechElement> {
        self.content@
    }

    pub fn new() -> (r: Self)
        ensures
            r.view() == Seq::<SpeechElement>::empty(),
    {
        SpeechUtterance { content: Vec::new() }
    }

    pub fn add_text(&mut self, text: String)
        ensures
            final(self).view() == old(self).view().push(SpeechElement::Text(text)),
    {
        self.content.push(SpeechElement::Text(text));
    }

    pub fn add_ssml(&mut self, ssml: String)
        ensures
            final(self).view() == old(self).view().push(SpeechElement::Ssml(ssml)),
    {
        self.content.push(SpeechElement::Ssml(ssml));
    }

    pub fn add_bookmark(&mut self, bookmark: String)
        ensures
            final(self).view() == old(self).view().push(SpeechElement::Bookmark(bookmark)),
    {
        self.content.push(SpeechElement::Bookmark(bookmark));
    }

    pub fn add_audio(&mut self, audio_path: String)
        ensures
            final(self).view() == old(self).view().push(SpeechElement::Audio(audio_path)),
    {
        self.content.push(SpeechElement::Audio(audio_path));
    }

    /// Moves all elements of `utterance` to the end of this one, leaving
    /// `utterance` empty.
    pub fn add_utterance(&mut self, utterance: &mut Self)
        ensures
            final(self).view() == old(self).view() + old(utterance).view(),
            final(utterance).view() == Seq::<SpeechElement>::empty(),
    {
        self.content.append(&mut utterance.content);
    }

    pub fn len(&self) -> (r: usize)
        ensures
            r == self.view().len(),
    {
        self.content.len()
    }

    /// The elements of the utterance, in order.
    pub fn into_elements(self) -> (r: Vec<SpeechElement>)
        ensures
            r@ == self.view(),
    {
        self.content
    }
}

impl Default for SpeechUtterance {
    fn default() -> (r: Self)
        ensures
            r.view() == Seq::<SpeechElement>::empty(),
    {
        SpeechUtterance::new()
    }
}

} // verus!
