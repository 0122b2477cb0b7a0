//! Rendering of a dictionary entry as display text.
//!
//! The text of an entry is its word, a space, the phonetics in square
//! brackets, the origin, and one block per meaning: the part of speech on a
//! line of its own, then one bulleted line per definition. Parts that are
//! absent contribute nothing, and nothing is reordered or left out.

use vstd::prelude::*;
use vstd::string::StringExecFns;
use crate::concat::{concat_map, lemma_concat_map_next};
use crate::entry::{
    Definition, DefinitionView, Meaning, MeaningView, Phonetic, PhoneticView, Word, WordView,
};

verus! {

/// What introduces each definition: a line break, a tab, a bullet and a space.
pub open spec fn bullet() -> Seq<char> {
    seq!['\n', '\t', '\u{2022}', ' ']
}

/// What stands between two phonetic transcriptions: a comma and a space.
pub open spec fn list_separator() -> Seq<char> {
    seq![',', ' ']
}

/// The parts in their order, each but the first preceded by the separator.
pub open spec fn joined(parts: Seq<Seq<char>>, separator: Seq<char>) -> Seq<char> {
    Seq::new(
        parts.len(),
        |i: int|
            if i == 0 {
                parts[i]
            } else {
                separator + parts[i]
            },
    ).flatten()
}

/// The line of one definition.
pub open spec fn definition_line(definition: DefinitionView) -> Seq<char> {
    bullet() + definition.definition
}

/// The lines of the definitions, in their order.
pub open spec fn definition_lines(definitions: Seq<DefinitionView>) -> Seq<char> {
    concat_map(definitions, |d: DefinitionView| definition_line(d))
}

/// The block of one meaning: a line break, the part of speech, the lines of
/// its definitions.
pub open spec fn meaning_block(meaning: MeaningView) -> Seq<char> {
    seq!['\n'] + meaning.part_of_speech + definition_lines(meaning.definitions)
}

/// The blocks of the meanings, in their order, with nothing between them.
pub open spec fn meanings_segment(meanings: Seq<MeaningView>) -> Seq<char> {
    concat_map(meanings, |m: MeaningView| meaning_block(m))
}

/// What one phonetic adds to the list: its transcription, or nothing.
pub open spec fn phonetic_text(phonetic: PhoneticView) -> Seq<char> {
    match phonetic.text {
        Some(text) => text,
        None => Seq::empty(),
    }
}

/// The transcriptions of the phonetics, in their order.
pub open spec fn phonetic_texts(phonetics: Seq<PhoneticView>) -> Seq<Seq<char>> {
    phonetics.map_values(|p: PhoneticView| phonetic_text(p))
}

/// Whether an entry shows its phonetics: they are present, there is at least
/// one, and the first one has a transcription. Later ones are not consulted.
pub open spec fn shows_phonetics(phonetics: Option<Seq<PhoneticView>>) -> bool {
    phonetics matches Some(list) && list.len() > 0 && list[0].text is Some
}

/// The phonetics in square brackets, separated by commas; empty where
/// [`shows_phonetics`] does not hold.
pub open spec fn phonetics_segment(phonetics: Option<Seq<PhoneticView>>) -> Seq<char> {
    if shows_phonetics(phonetics) {
        seq!['['] + joined(phonetic_texts(phonetics->0), list_separator()) + seq![']']
    } else {
        Seq::empty()
    }
}

/// The origin as it is, or nothing.
pub open spec fn origin_segment(origin: Option<Seq<char>>) -> Seq<char> {
    match origin {
        Some(text) => text,
        None => Seq::empty(),
    }
}

/// The text of an entry.
pub open spec fn rendered_word(word: WordView) -> Seq<char> {
    word.word + seq![' '] + phonetics_segment(word.phonetics) + origin_segment(word.origin)
        + meanings_segment(word.meanings)
}

/// An entry without meanings is rendered as its word, a space, its phonetics
/// and its origin, with nothing after them.
pub proof fn lemma_render_without_meanings(word: WordView)
    requires
        word.meanings.len() == 0,
    ensures
        rendered_word(word) == word.word + seq![' '] + phonetics_segment(word.phonetics)
            + origin_segment(word.origin),
{
    assert(meanings_segment(word.meanings) =~= Seq::<char>::empty());
    assert(rendered_word(word) =~= word.word + seq![' '] + phonetics_segment(word.phonetics)
        + origin_segment(word.origin));
}

/// Phonetics that are absent and phonetics that are an empty list both give
/// the empty segment.
pub proof fn lemma_no_phonetics_no_segment(phonetics: Option<Seq<PhoneticView>>)
    requires
        phonetics is None || phonetics->0.len() == 0,
    ensures
        phonetics_segment(phonetics) == Seq::<char>::empty(),
{
}

/// An entry whose phonetics are absent and one whose phonetics are an empty
/// list, alike in all else, are rendered as the same text.
pub proof fn lemma_absent_and_empty_phonetics_render_alike(absent: WordView, empty: WordView)
    requires
        absent.phonetics is None,
        empty.phonetics matches Some(list) && list.len() == 0,
        absent.word == empty.word,
        absent.origin == empty.origin,
        absent.meanings == empty.meanings,
    ensures
        rendered_word(absent) == rendered_word(empty),
{
}

/// Rendering is a function of the entry: two texts that each are a rendering
/// of entries with the same view are the same text.
pub proof fn lemma_render_deterministic(first: Word, second: Word, text: String, again: String)
    requires
        first@ == second@,
        text@ == rendered_word(first@),
        again@ == rendered_word(second@),
    ensures
        text@ == again@,
{
}

/// Joining one part more appends the separator and the part.
proof fn lemma_joined_next(parts: Seq<Seq<char>>, separator: Seq<char>, i: int)
    requires
        1 <= i < parts.len(),
    ensures
        joined(parts.take(i + 1), separator) == joined(parts.take(i), separator) + separator
            + parts[i],
{
    let shorter = parts.take(i);
    let longer = parts.take(i + 1);
    let pieces = Seq::new(
        shorter.len(),
        |j: int|
            if j == 0 {
                shorter[j]
            } else {
                separator + shorter[j]
            },
    );
    let more = Seq::new(
        longer.len(),
        |j: int|
            if j == 0 {
                longer[j]
            } else {
                separator + longer[j]
            },
    );
    assert(more =~= pieces.push(separator + parts[i]));
    pieces.lemma_flatten_push(separator + parts[i]);
    assert(pieces.flatten() + (separator + parts[i]) =~= pieces.flatten() + separator + parts[i]);
}

/// Joining a single part gives the part.
proof fn lemma_joined_first(parts: Seq<Seq<char>>, separator: Seq<char>)
    requires
        parts.len() > 0,
    ensures
        joined(parts.take(1), separator) == parts[0],
{
    let first = parts.take(1);
    let pieces = Seq::new(
        first.len(),
        |j: int|
            if j == 0 {
                first[j]
            } else {
                separator + first[j]
            },
    );
    pieces.lemma_flatten_singleton();
}

impl Definition {
    /// The definition as one bulleted line, led by a line break.
    pub fn render(&self) -> (text: String)
        ensures
            text@ == definition_line(self@),
    {
        let mut text = String::new();
        proof {
            reveal_strlit("\n\t\u{2022} ");
        }
        text.append("\n\t\u{2022} ");
        assert("\n\t\u{2022} "@ =~= bullet());
        text.append(self.definition.as_str());
        text
    }
}

impl Phonetic {
    /// The transcription, or the empty text where there is none.
    pub fn render(&self) -> (text: String)
        ensures
            text@ == phonetic_text(self@),
    {
        match &self.text {
            Some(text) => text.clone(),
            None => String::new(),
        }
    }
}

impl Meaning {
    /// The part of speech on a line of its own, then the definitions, one
    /// bulleted line each, in their order.
    pub fn render(&self) -> (text: String)
        ensures
            text@ == meaning_block(self@),
    {
        let mut lines = String::new();
        let mut i: usize = 0;
        assert(self@.definitions.take(0) =~= Seq::empty());
        while i < self.definitions.len()
            invariant
                i <= self.definitions.len(),
                self@.definitions.len() == self.definitions.len(),
                lines@ == definition_lines(self@.definitions.take(i as int)),
            decreases self.definitions.len() - i,
        {
            let line = self.definitions[i].render();
            proof {
                lemma_concat_map_next(
                    self@.definitions,
                    |d: DefinitionView| definition_line(d),
                    i as int,
                );
            }
            lines.append(line.as_str());
            i += 1;
        }
        assert(self@.definitions.take(i as int) =~= self@.definitions);
        let mut text = String::new();
        proof {
            reveal_strlit("\n");
        }
        text.append("\n");
        assert("\n"@ =~= seq!['\n']);
        text.append(self.part_of_speech.as_str());
        text.append(lines.as_str());
        text
    }
}

impl Word {
    /// The phonetics of the entry in square brackets, or the empty text where
    /// the entry shows none.
    pub fn render_phonetics(&self) -> (text: String)
        ensures
            text@ == phonetics_segment(self@.phonetics),
    {
        let mut text = String::new();
        if let Some(list) = &self.phonetics {
            if list.len() > 0 && list[0].text.is_some() {
                let ghost texts = phonetic_texts(self@.phonetics->0);
                proof {
                    reveal_strlit("[");
                    reveal_strlit(", ");
                    reveal_strlit("]");
                    lemma_joined_first(texts, list_separator());
                }
                assert("["@ =~= seq!['[']);
                assert(", "@ =~= list_separator());
                assert("]"@ =~= seq![']']);
                text.append("[");
                text.append(list[0].render().as_str());
                let mut i: usize = 1;
                while i < list.len()
                    invariant
                        1 <= i <= list.len(),
                        texts.len() == list.len(),
                        forall|j: int| 0 <= j < list.len() ==> texts[j] == phonetic_text(list[j]@),
                        ", "@ == list_separator(),
                        text@ == seq!['['] + joined(texts.take(i as int), list_separator()),
                    decreases list.len() - i,
                {
                    proof {
                        lemma_joined_next(texts, list_separator(), i as int);
                    }
                    text.append(", ");
                    text.append(list[i].render().as_str());
                    i += 1;
                }
                assert(texts.take(i as int) =~= texts);
                text.append("]");
            }
        }
        text
    }

    /// The blocks of the meanings of the entry, in their order.
    pub fn render_meanings(&self) -> (text: String)
        ensures
            text@ == meanings_segment(self@.meanings),
    {
        let mut text = String::new();
        let mut i: usize = 0;
        assert(self@.meanings.take(0) =~= Seq::empty());
        while i < self.meanings.len()
            invariant
                i <= self.meanings.len(),
                self@.meanings.len() == self.meanings.len(),
                text@ == meanings_segment(self@.meanings.take(i as int)),
            decreases self.meanings.len() - i,
        {
            let block = self.meanings[i].render();
            proof {
                lemma_concat_map_next(self@.meanings, |m: MeaningView| meaning_block(m), i as int);
            }
            text.append(block.as_str());
            i += 1;
        }
        assert(self@.meanings.take(i as int) =~= self@.meanings);
        text
    }

    /// The text of the entry: the word, a space, the phonetics, the origin and
    /// the meanings.
    pub fn render(&self) -> (text: String)
        ensures
            text@ == rendered_word(self@),
    {
        let phonetics = self.render_phonetics();
        let meanings = self.render_meanings();
        let mut text = String::new();
        proof {
            reveal_strlit(" ");
        }
        text.append(self.word.as_str());
        text.append(" ");
        assert(" "@ =~= seq![' ']);
        text.append(phonetics.as_str());
        if let Some(origin) = &self.origin {
            text.append(origin.as_str());
        }
        text.append(meanings.as_str());
        text
    }
}

} // verus!
