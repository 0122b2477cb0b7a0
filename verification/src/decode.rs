//! Decoding of dictionary entries from JSON documents.
//!
//! An entry, a phonetic, a meaning and a definition are each a JSON object.
//! A member that the model holds as an option may be missing or `null`; any
//! other member must be there. A member of the wrong kind makes the whole
//! document malformed, and members that the model does not know are passed
//! over.

use vstd::prelude::*;
use crate::entry::{
    option_view, option_views, views, Definition, DefinitionView, Meaning, MeaningView, Phonetic,
    PhoneticView, Word, WordView,
};
use crate::error::LookupError;
use crate::json::{json_view, json_views, member, member_of, parse, parsed_json, JsonView};

verus! {

/// A type whose values are read from JSON documents.
pub trait FromJson: View + Sized {
    /// What a document decodes to; `None` where it has not the shape of
    /// the type.
    spec fn decoded(tree: JsonView) -> Option<Self::V>;

    /// Decodes the document that a value holds.
    fn from_json(value: &serde_json::Value) -> (result: Result<Self, LookupError>)
        ensures
            match result {
                Ok(item) => Self::decoded(json_view(*value)) == Some(item@),
                Err(error) => error == LookupError::MalformedResponse && Self::decoded(
                    json_view(*value),
                ) is None,
            },
    ;
}

/// What an array decodes to, item by item; `None` where the document is no
/// array or one of its items does not decode.
pub open spec fn decoded_list<T: FromJson>(tree: JsonView) -> Option<Seq<T::V>> {
    match tree {
        JsonView::Array(items) => if forall|i: int|
            0 <= i < items.len() ==> (#[trigger] T::decoded(items[i])) is Some {
            Some(Seq::new(items.len(), |i: int| T::decoded(items[i])->0))
        } else {
            None
        },
        _ => None,
    }
}

/// A member that must be there.
pub open spec fn required<T: FromJson>(tree: JsonView, key: Seq<char>) -> Option<T::V> {
    match member_of(tree, key) {
        Some(found) => T::decoded(found),
        None => None,
    }
}

/// A member that may be missing or `null`: the outer option tells whether
/// the document is well formed, the inner one whether the member is there.
pub open spec fn optional<T: FromJson>(tree: JsonView, key: Seq<char>) -> Option<Option<T::V>> {
    match member_of(tree, key) {
        None => Some(None),
        Some(JsonView::Null) => Some(None),
        Some(found) => match T::decoded(found) {
            Some(item) => Some(Some(item)),
            None => None,
        },
    }
}

/// A member that must be there and be an array.
pub open spec fn required_list<T: FromJson>(tree: JsonView, key: Seq<char>) -> Option<Seq<T::V>> {
    match member_of(tree, key) {
        Some(found) => decoded_list::<T>(found),
        None => None,
    }
}

/// A member that is an array, or is missing or `null`.
pub open spec fn optional_list<T: FromJson>(tree: JsonView, key: Seq<char>) -> Option<
    Option<Seq<T::V>>,
> {
    match member_of(tree, key) {
        None => Some(None),
        Some(JsonView::Null) => Some(None),
        Some(found) => match decoded_list::<T>(found) {
            Some(list) => Some(Some(list)),
            None => None,
        },
    }
}

/// Decodes an array item by item, and fails at the first item that does not
/// decode.
pub fn list_from_json<T: FromJson>(value: &serde_json::Value) -> (result: Result<
    Vec<T>,
    LookupError,
>)
    ensures
        match result {
            Ok(list) => decoded_list::<T>(json_view(*value)) == Some(views(list@)),
            Err(error) => error == LookupError::MalformedResponse && decoded_list::<T>(
                json_view(*value),
            ) is None,
        },
{
    match value.as_array() {
        None => Err(LookupError::MalformedResponse),
        Some(items) => {
            let ghost trees = json_views(items@);
            let mut list: Vec<T> = Vec::new();
            let mut i: usize = 0;
            while i < items.len()
                invariant
                    i <= items.len(),
                    list.len() == i,
                    trees == json_views(items@),
                    json_view(*value) == JsonView::Array(trees),
                    forall|j: int|
                        0 <= j < i ==> (#[trigger] T::decoded(trees[j])) == Some(list@[j]@),
                decreases items.len() - i,
            {
                match T::from_json(&items[i]) {
                    Ok(item) => {
                        list.push(item);
                    },
                    Err(error) => {
                        assert(T::decoded(trees[i as int]) is None);
                        return Err(error);
                    },
                }
                i += 1;
            }
            assert(views(list@) =~= Seq::new(trees.len(), |j: int| T::decoded(trees[j])->0));
            Ok(list)
        },
    }
}

/// What the document of a text decodes to; `None` where the text is no
/// document, or the document has not the shape of the type.
pub open spec fn decoded_document<T: FromJson>(document: Option<JsonView>) -> Option<T::V> {
    match document {
        Some(tree) => T::decoded(tree),
        None => None,
    }
}

/// Reads a text as a JSON document and decodes it.
pub fn from_text<T: FromJson>(text: &str) -> (result: Result<T, LookupError>)
    ensures
        match result {
            Ok(item) => decoded_document::<T>(parsed_json(text@)) == Some(item@),
            Err(error) => error == LookupError::MalformedResponse && decoded_document::<T>(
                parsed_json(text@),
            ) is None,
        },
{
    match parse(text) {
        Ok(document) => T::from_json(&document),
        Err(_) => Err(LookupError::MalformedResponse),
    }
}

/// Decodes the member under a key, which must be there.
pub fn required_member<T: FromJson>(value: &serde_json::Value, key: &str) -> (result: Result<
    T,
    LookupError,
>)
    ensures
        match result {
            Ok(item) => required::<T>(json_view(*value), key@) == Some(item@),
            Err(error) => error == LookupError::MalformedResponse && required::<T>(
                json_view(*value),
                key@,
            ) is None,
        },
{
    match member(value, key) {
        Some(found) => T::from_json(found),
        None => Err(LookupError::MalformedResponse),
    }
}

/// Decodes the member under a key, which may be missing or `null`.
pub fn optional_member<T: FromJson>(value: &serde_json::Value, key: &str) -> (result: Result<
    Option<T>,
    LookupError,
>)
    ensures
        match result {
            Ok(item) => optional::<T>(json_view(*value), key@) == Some(option_view(item)),
            Err(error) => error == LookupError::MalformedResponse && optional::<T>(
                json_view(*value),
                key@,
            ) is None,
        },
{
    match member(value, key) {
        None => Ok(None),
        Some(found) => {
            if found.is_null() {
                Ok(None)
            } else {
                match T::from_json(found) {
                    Ok(item) => Ok(Some(item)),
                    Err(error) => Err(error),
                }
            }
        },
    }
}

/// Decodes the array under a key, which must be there.
pub fn required_list_member<T: FromJson>(value: &serde_json::Value, key: &str) -> (result: Result<
    Vec<T>,
    LookupError,
>)
    ensures
        match result {
            Ok(list) => required_list::<T>(json_view(*value), key@) == Some(views(list@)),
            Err(error) => error == LookupError::MalformedResponse && required_list::<T>(
                json_view(*value),
                key@,
            ) is None,
        },
{
    match member(value, key) {
        Some(found) => list_from_json::<T>(found),
        None => Err(LookupError::MalformedResponse),
    }
}

/// Decodes the array under a key, which may be missing or `null`.
pub fn optional_list_member<T: FromJson>(value: &serde_json::Value, key: &str) -> (result: Result<
    Option<Vec<T>>,
    LookupError,
>)
    ensures
        match result {
            Ok(list) => optional_list::<T>(json_view(*value), key@) == Some(option_views(list)),
            Err(error) => error == LookupError::MalformedResponse && optional_list::<T>(
                json_view(*value),
                key@,
            ) is None,
        },
{
    match member(value, key) {
        None => Ok(None),
        Some(found) => {
            if found.is_null() {
                Ok(None)
            } else {
                match list_from_json::<T>(found) {
                    Ok(list) => Ok(Some(list)),
                    Err(error) => Err(error),
                }
            }
        },
    }
}

impl FromJson for String {
    /// A text is a JSON string.
    open spec fn decoded(tree: JsonView) -> Option<Seq<char>> {
        match tree {
            JsonView::Text(text) => Some(text),
            _ => None,
        }
    }

    fn from_json(value: &serde_json::Value) -> (result: Result<String, LookupError>) {
        match value.as_str() {
            Some(text) => Ok(text.to_owned()),
            None => Err(LookupError::MalformedResponse),
        }
    }
}

impl FromJson for Definition {
    /// A definition is an object with the text `definition`, and with
    /// `synonyms` and `example` where it has them.
    open spec fn decoded(tree: JsonView) -> Option<DefinitionView> {
        match (
            tree,
            required::<String>(tree, "definition"@),
            optional_list::<String>(tree, "synonyms"@),
            optional::<String>(tree, "example"@),
        ) {
            (JsonView::Object(_), Some(definition), Some(synonyms), Some(example)) => Some(
                DefinitionView { definition, synonyms, example },
            ),
            _ => None,
        }
    }

    fn from_json(value: &serde_json::Value) -> (result: Result<Definition, LookupError>) {
        if !value.is_object() {
            return Err(LookupError::MalformedResponse);
        }
        let definition = match required_member::<String>(value, "definition") {
            Ok(text) => text,
            Err(error) => { return Err(error); },
        };
        let synonyms = match optional_list_member::<String>(value, "synonyms") {
            Ok(list) => list,
            Err(error) => { return Err(error); },
        };
        let example = match optional_member::<String>(value, "example") {
            Ok(text) => text,
            Err(error) => { return Err(error); },
        };
        Ok(Definition { definition, synonyms, example })
    }
}

impl FromJson for Meaning {
    /// A meaning is an object with the text `partOfSpeech` and the array
    /// `definitions`.
    open spec fn decoded(tree: JsonView) -> Option<MeaningView> {
        match (
            tree,
            required::<String>(tree, "partOfSpeech"@),
            required_list::<Definition>(tree, "definitions"@),
        ) {
            (JsonView::Object(_), Some(part_of_speech), Some(definitions)) => Some(
                MeaningView { part_of_speech, definitions },
            ),
            _ => None,
        }
    }

    fn from_json(value: &serde_json::Value) -> (result: Result<Meaning, LookupError>) {
        if !value.is_object() {
            return Err(LookupError::MalformedResponse);
        }
        let part_of_speech = match required_member::<String>(value, "partOfSpeech") {
            Ok(text) => text,
            Err(error) => { return Err(error); },
        };
        let definitions = match required_list_member::<Definition>(value, "definitions") {
            Ok(list) => list,
            Err(error) => { return Err(error); },
        };
        Ok(Meaning { part_of_speech, definitions })
    }
}

impl FromJson for Phonetic {
    /// A phonetic is an object, with `text` and `audio` where it has them.
    open spec fn decoded(tree: JsonView) -> Option<PhoneticView> {
        match (tree, optional::<String>(tree, "text"@), optional::<String>(tree, "audio"@)) {
            (JsonView::Object(_), Some(text), Some(audio)) => Some(PhoneticView { text, audio }),
            _ => None,
        }
    }

    fn from_json(value: &serde_json::Value) -> (result: Result<Phonetic, LookupError>) {
        if !value.is_object() {
            return Err(LookupError::MalformedResponse);
        }
        let text = match optional_member::<String>(value, "text") {
            Ok(text) => text,
            Err(error) => { return Err(error); },
        };
        let audio = match optional_member::<String>(value, "audio") {
            Ok(audio) => audio,
            Err(error) => { return Err(error); },
        };
        Ok(Phonetic { text, audio })
    }
}

impl FromJson for Word {
    /// An entry is an object with the text `word` and the array `meanings`,
    /// and with `origin` and `phonetics` where it has them.
    open spec fn decoded(tree: JsonView) -> Option<WordView> {
        match (
            tree,
            required::<String>(tree, "word"@),
            optional::<String>(tree, "origin"@),
            optional_list::<Phonetic>(tree, "phonetics"@),
            required_list::<Meaning>(tree, "meanings"@),
        ) {
            (JsonView::Object(_), Some(word), Some(origin), Some(phonetics), Some(meanings)) => Some(
                WordView { word, origin, phonetics, meanings },
            ),
            _ => None,
        }
    }

    fn from_json(value: &serde_json::Value) -> (result: Result<Word, LookupError>) {
        if !value.is_object() {
            return Err(LookupError::MalformedResponse);
        }
        let word = match required_member::<String>(value, "word") {
            Ok(text) => text,
            Err(error) => { return Err(error); },
        };
        let origin = match optional_member::<String>(value, "origin") {
            Ok(text) => text,
            Err(error) => { return Err(error); },
        };
        let phonetics = match optional_list_member::<Phonetic>(value, "phonetics") {
            Ok(list) => list,
            Err(error) => { return Err(error); },
        };
        let meanings = match required_list_member::<Meaning>(value, "meanings") {
            Ok(list) => list,
            Err(error) => { return Err(error); },
        };
        Ok(Word { word, origin, phonetics, meanings })
    }
}

/// The object `members` with one member more, where there is one to add.
pub open spec fn with_member(
    members: Map<Seq<char>, JsonView>,
    key: Seq<char>,
    member: Option<JsonView>,
) -> Map<Seq<char>, JsonView> {
    match member {
        Some(tree) => members.insert(key, tree),
        None => members,
    }
}

/// A text as a document: a JSON string.
pub open spec fn encoded_text(text: Seq<char>) -> JsonView {
    JsonView::Text(text)
}

/// A text that may be absent: a JSON string, or no member.
pub open spec fn encoded_optional_text(text: Option<Seq<char>>) -> Option<JsonView> {
    match text {
        Some(text) => Some(encoded_text(text)),
        None => None,
    }
}

/// A definition as a document: an object that holds what the definition
/// has, and no member for what it has not.
pub open spec fn encoded_definition(definition: DefinitionView) -> JsonView {
    JsonView::Object(
        with_member(
            with_member(
                Map::empty().insert("definition"@, encoded_text(definition.definition)),
                "synonyms"@,
                match definition.synonyms {
                    Some(list) => Some(
                        JsonView::Array(list.map_values(|t: Seq<char>| encoded_text(t))),
                    ),
                    None => None,
                },
            ),
            "example"@,
            encoded_optional_text(definition.example),
        ),
    )
}

/// A meaning as a document.
pub open spec fn encoded_meaning(meaning: MeaningView) -> JsonView {
    JsonView::Object(
        Map::empty().insert("partOfSpeech"@, encoded_text(meaning.part_of_speech)).insert(
            "definitions"@,
            JsonView::Array(
                meaning.definitions.map_values(|d: DefinitionView| encoded_definition(d)),
            ),
        ),
    )
}

/// A phonetic as a document.
pub open spec fn encoded_phonetic(phonetic: PhoneticView) -> JsonView {
    JsonView::Object(
        with_member(
            with_member(Map::empty(), "text"@, encoded_optional_text(phonetic.text)),
            "audio"@,
            encoded_optional_text(phonetic.audio),
        ),
    )
}

/// An entry as a document.
pub open spec fn encoded_word(word: WordView) -> JsonView {
    JsonView::Object(
        with_member(
            with_member(
                Map::empty().insert("word"@, encoded_text(word.word)).insert(
                    "meanings"@,
                    JsonView::Array(
                        word.meanings.map_values(|m: MeaningView| encoded_meaning(m)),
                    ),
                ),
                "origin"@,
                encoded_optional_text(word.origin),
            ),
            "phonetics"@,
            match word.phonetics {
                Some(list) => Some(
                    JsonView::Array(list.map_values(|p: PhoneticView| encoded_phonetic(p))),
                ),
                None => None,
            },
        ),
    )
}

/// A list of entries as a document: the array of the entries.
pub open spec fn encoded_entries(entries: Seq<WordView>) -> JsonView {
    JsonView::Array(entries.map_values(|w: WordView| encoded_word(w)))
}

/// An array whose items each decode to what they were made from decodes to
/// the list of what they were made from.
proof fn lemma_decode_encoded_list<T: FromJson>(
    items: Seq<T::V>,
    encoded: spec_fn(T::V) -> JsonView,
)
    requires
        forall|i: int| 0 <= i < items.len() ==> T::decoded(#[trigger] encoded(items[i])) == Some(items[i]),
    ensures
        decoded_list::<T>(JsonView::Array(items.map_values(encoded))) == Some(items),
{
    let trees = items.map_values(encoded);
    assert forall|i: int| 0 <= i < trees.len() implies (#[trigger] T::decoded(trees[i])) is Some by {
        assert(trees[i] == encoded(items[i]));
    }
    assert(Seq::new(trees.len(), |i: int| T::decoded(trees[i])->0) =~= items) by {
        assert forall|i: int| 0 <= i < trees.len() implies T::decoded(trees[i])->0 == items[i] by {
            assert(trees[i] == encoded(items[i]));
        }
    }
}

/// Decoding undoes encoding: the document of a definition decodes to the
/// definition.
pub proof fn lemma_decode_encoded_definition(definition: DefinitionView)
    ensures
        Definition::decoded(encoded_definition(definition)) == Some(definition),
{
    reveal_strlit("definition");
    reveal_strlit("synonyms");
    reveal_strlit("example");
    assert("definition"@.len() == 10 && "synonyms"@.len() == 8 && "example"@.len() == 7);
    let tree = encoded_definition(definition);
    assert(required::<String>(tree, "definition"@) == Some(definition.definition));
    assert(optional::<String>(tree, "example"@) == Some(definition.example));
    match definition.synonyms {
        Some(list) => {
            lemma_decode_encoded_list::<String>(list, |t: Seq<char>| encoded_text(t));
            assert(member_of(tree, "synonyms"@) == Some(
                JsonView::Array(list.map_values(|t: Seq<char>| encoded_text(t))),
            ));
        },
        None => {
            assert(member_of(tree, "synonyms"@) is None);
        },
    }
    assert(optional_list::<String>(tree, "synonyms"@) == Some(definition.synonyms));
}

/// Decoding undoes encoding: the document of a meaning decodes to the
/// meaning.
pub proof fn lemma_decode_encoded_meaning(meaning: MeaningView)
    ensures
        Meaning::decoded(encoded_meaning(meaning)) == Some(meaning),
{
    reveal_strlit("partOfSpeech");
    reveal_strlit("definitions");
    assert("partOfSpeech"@.len() == 12 && "definitions"@.len() == 11);
    let tree = encoded_meaning(meaning);
    assert forall|i: int| 0 <= i < meaning.definitions.len() implies Definition::decoded(
        #[trigger] encoded_definition(meaning.definitions[i]),
    ) == Some(meaning.definitions[i]) by {
        lemma_decode_encoded_definition(meaning.definitions[i]);
    }
    lemma_decode_encoded_list::<Definition>(
        meaning.definitions,
        |d: DefinitionView| encoded_definition(d),
    );
    assert(required::<String>(tree, "partOfSpeech"@) == Some(meaning.part_of_speech));
    assert(member_of(tree, "definitions"@) == Some(
        JsonView::Array(meaning.definitions.map_values(|d: DefinitionView| encoded_definition(d))),
    ));
    assert(required_list::<Definition>(tree, "definitions"@) == Some(meaning.definitions));
}

/// Decoding undoes encoding: the document of a phonetic decodes to the
/// phonetic.
pub proof fn lemma_decode_encoded_phonetic(phonetic: PhoneticView)
    ensures
        Phonetic::decoded(encoded_phonetic(phonetic)) == Some(phonetic),
{
    reveal_strlit("text");
    reveal_strlit("audio");
    assert("text"@.len() == 4 && "audio"@.len() == 5);
    let tree = encoded_phonetic(phonetic);
    assert(optional::<String>(tree, "text"@) == Some(phonetic.text));
    assert(optional::<String>(tree, "audio"@) == Some(phonetic.audio));
}

/// Decoding undoes encoding: the document of an entry decodes to the entry.
pub proof fn lemma_decode_encoded_word(word: WordView)
    ensures
        Word::decoded(encoded_word(word)) == Some(word),
{
    reveal_strlit("word");
    reveal_strlit("origin");
    reveal_strlit("phonetics");
    reveal_strlit("meanings");
    assert("word"@.len() == 4 && "origin"@.len() == 6 && "phonetics"@.len() == 9
        && "meanings"@.len() == 8);
    let tree = encoded_word(word);
    assert forall|i: int| 0 <= i < word.meanings.len() implies Meaning::decoded(
        #[trigger] encoded_meaning(word.meanings[i]),
    ) == Some(word.meanings[i]) by {
        lemma_decode_encoded_meaning(word.meanings[i]);
    }
    lemma_decode_encoded_list::<Meaning>(word.meanings, |m: MeaningView| encoded_meaning(m));
    assert(required::<String>(tree, "word"@) == Some(word.word));
    assert(optional::<String>(tree, "origin"@) == Some(word.origin));
    assert(member_of(tree, "meanings"@) == Some(
        JsonView::Array(word.meanings.map_values(|m: MeaningView| encoded_meaning(m))),
    ));
    assert(required_list::<Meaning>(tree, "meanings"@) == Some(word.meanings));
    match word.phonetics {
        Some(list) => {
            assert forall|i: int| 0 <= i < list.len() implies Phonetic::decoded(
                #[trigger] encoded_phonetic(list[i]),
            ) == Some(list[i]) by {
                lemma_decode_encoded_phonetic(list[i]);
            }
            lemma_decode_encoded_list::<Phonetic>(list, |p: PhoneticView| encoded_phonetic(p));
            assert(member_of(tree, "phonetics"@) == Some(
                JsonView::Array(list.map_values(|p: PhoneticView| encoded_phonetic(p))),
            ));
        },
        None => {
            assert(member_of(tree, "phonetics"@) is None);
        },
    }
    assert(optional_list::<Phonetic>(tree, "phonetics"@) == Some(word.phonetics));
}

/// Decoding undoes encoding: the document of a list of entries decodes to
/// the list, entry for entry and in the same order.
pub proof fn lemma_decode_encoded_entries(entries: Seq<WordView>)
    ensures
        decoded_list::<Word>(encoded_entries(entries)) == Some(entries),
{
    assert forall|i: int| 0 <= i < entries.len() implies Word::decoded(
        #[trigger] encoded_word(entries[i]),
    ) == Some(entries[i]) by {
        lemma_decode_encoded_word(entries[i]);
    }
    lemma_decode_encoded_list::<Word>(entries, |w: WordView| encoded_word(w));
}

} // verus!
