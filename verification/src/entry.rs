//! The data model of a dictionary entry.
//!
//! Every type is a plain container. Each has a view that replaces `String` by
//! `Seq<char>` and `Vec` by `Seq`; the contracts of the crate speak of views.

use vstd::prelude::*;

verus! {

/// The views of the items of a sequence, in their order.
pub open spec fn views<T: View>(items: Seq<T>) -> Seq<T::V> {
    items.map_values(|item: T| item@)
}

/// The view of what an option holds.
pub open spec fn option_view<T: View>(option: Option<T>) -> Option<T::V> {
    match option {
        Some(item) => Some(item@),
        None => None,
    }
}

/// The views of the items of a list that may be absent.
pub open spec fn option_views<T: View>(option: Option<Vec<T>>) -> Option<Seq<T::V>> {
    match option {
        Some(list) => Some(views(list@)),
        None => None,
    }
}

/// A single sense of a word.
#[derive(Debug, Clone, PartialEq, Eq)]
pub struct Definition {
    pub definition: String,
    pub synonyms: Option<Vec<String>>,
    pub example: Option<String>,
}

/// The mathematical model of a [`Definition`].
pub struct DefinitionView {
    pub definition: Seq<char>,
    pub synonyms: Option<Seq<Seq<char>>>,
    pub example: Option<Seq<char>>,
}

impl View for Definition {
    type V = DefinitionView;

    open spec fn view(&self) -> DefinitionView {
        DefinitionView {
            definition: self.definition@,
            synonyms: option_views(self.synonyms),
            example: option_view(self.example),
        }
    }
}

/// The definitions of a word under one part of speech.
#[derive(Debug, Clone, PartialEq, Eq)]
pub struct Meaning {
    pub part_of_speech: String,
    pub definitions: Vec<Definition>,
}

/// The mathematical model of a [`Meaning`].
pub struct MeaningView {
    pub part_of_speech: Seq<char>,
    pub definitions: Seq<DefinitionView>,
}

impl View for Meaning {
    type V = MeaningView;

    open spec fn view(&self) -> MeaningView {
        MeaningView {
            part_of_speech: self.part_of_speech@,
            definitions: views(self.definitions@),
        }
    }
}

/// One pronunciation of a word: a transcription and a link to a recording.
#[derive(Debug, Clone, PartialEq, Eq)]
pub struct Phonetic {
    pub text: Option<String>,
    pub audio: Option<String>,
}

/// The mathematical model of a [`Phonetic`].
pub struct PhoneticView {
    pub text: Option<Seq<char>>,
    pub audio: Option<Seq<char>>,
}

impl View for Phonetic {
    type V = PhoneticView;

    open spec fn view(&self) -> PhoneticView {
        PhoneticView {
            text: option_view(self.text),
            audio: option_view(self.audio),
        }
    }
}

/// One dictionary result for a word.
#[derive(Debug, Clone, PartialEq, Eq)]
pub struct Word {
    pub word: String,
    pub origin: Option<String>,
    pub phonetics: Option<Vec<Phonetic>>,
    pub meanings: Vec<Meaning>,
}

/// The mathematical model of a [`Word`].
pub struct WordView {
    pub word: Seq<char>,
    pub origin: Option<Seq<char>>,
    pub phonetics: Option<Seq<PhoneticView>>,
    pub meanings: Seq<MeaningView>,
}

impl View for Word {
    type V = WordView;

    open spec fn view(&self) -> WordView {
        WordView {
            word: self.word@,
            origin: option_view(self.origin),
            phonetics: option_views(self.phonetics),
            meanings: views(self.meanings@),
        }
    }
}

} // verus!
