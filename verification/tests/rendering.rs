use define::entry::{Definition, Meaning, Phonetic, Word};

fn text(s: &str) -> String {
    String::from(s)
}

fn definition(s: &str) -> Definition {
    Definition { definition: text(s), synonyms: None, example: None }
}

fn meaning(part_of_speech: &str, definitions: &[&str]) -> Meaning {
    Meaning {
        part_of_speech: text(part_of_speech),
        definitions: definitions.iter().map(|d| definition(d)).collect(),
    }
}

fn phonetic(transcription: Option<&str>) -> Phonetic {
    Phonetic { text: transcription.map(text), audio: None }
}

fn hello() -> Word {
    Word {
        word: text("hello"),
        origin: None,
        phonetics: Some(vec![phonetic(Some("/həˈloʊ/")), phonetic(Some("/hɛˈloʊ/"))]),
        meanings: vec![
            meaning("noun", &["An utterance of \"hello\"; a greeting."]),
            meaning("intransitive verb", &["Say or shout \"hello\"; greet someone."]),
            meaning("exclamation", &["Used as a greeting or to begin a phone conversation."]),
        ],
    }
}

#[test]
fn renders_hello_with_two_phonetics_and_three_meanings() {
    assert_eq!(
        hello().render(),
        "hello [/həˈloʊ/, /hɛˈloʊ/]\nnoun\n\t• An utterance of \"hello\"; a greeting.\nintransitive verb\n\t• Say or shout \"hello\"; greet someone.\nexclamation\n\t• Used as a greeting or to begin a phone conversation."
    );
}

#[test]
fn renders_dog_with_eight_definitions_under_two_headers() {
    let dog = Word {
        word: text("dog"),
        origin: None,
        phonetics: Some(vec![phonetic(Some("/dɔɡ/"))]),
        meanings: vec![
            meaning(
                "transitive verb",
                &[
                    "Follow (someone or their movements) closely and persistently.",
                    "Act lazily; fail to try one's hardest.",
                    "Grip (something) with a mechanical device.",
                ],
            ),
            meaning(
                "noun",
                &[
                    "A domesticated carnivorous mammal.",
                    "An unpleasant, contemptible, or wicked man.",
                    "A mechanical device for gripping.",
                    "Feet.",
                    "short for firedog",
                ],
            ),
        ],
    };
    let rendered = dog.render();
    assert_eq!(
        rendered,
        "dog [/dɔɡ/]\
         \ntransitive verb\
         \n\t• Follow (someone or their movements) closely and persistently.\
         \n\t• Act lazily; fail to try one's hardest.\
         \n\t• Grip (something) with a mechanical device.\
         \nnoun\
         \n\t• A domesticated carnivorous mammal.\
         \n\t• An unpleasant, contemptible, or wicked man.\
         \n\t• A mechanical device for gripping.\
         \n\t• Feet.\
         \n\t• short for firedog"
    );
    assert_eq!(rendered.matches("\n\t• ").count(), 8);
}

#[test]
fn entry_without_meanings_ends_after_the_origin() {
    let word = Word {
        word: text("zyx"),
        origin: Some(text("from nowhere")),
        phonetics: Some(vec![phonetic(Some("/zɪks/"))]),
        meanings: vec![],
    };
    assert_eq!(word.render(), "zyx [/zɪks/]from nowhere");
    let bare = Word { word: text("zyx"), origin: None, phonetics: None, meanings: vec![] };
    assert_eq!(bare.render(), "zyx ");
}

#[test]
fn absent_and_empty_phonetics_render_alike() {
    let absent = Word {
        word: text("cat"),
        origin: None,
        phonetics: None,
        meanings: vec![meaning("noun", &["A small animal."])],
    };
    let empty = Word { phonetics: Some(vec![]), ..absent.clone() };
    assert_eq!(absent.render_phonetics(), "");
    assert_eq!(empty.render_phonetics(), "");
    assert_eq!(absent.render(), "cat \nnoun\n\t• A small animal.");
    assert_eq!(empty.render(), absent.render());
}

#[test]
fn rendering_twice_gives_the_same_text() {
    let word = hello();
    let first = word.render();
    let second = word.render();
    assert_eq!(first, second);
    assert_eq!(word.clone().render(), first);
}

#[test]
fn phonetics_are_shown_only_if_the_first_has_a_transcription() {
    let hidden = Word {
        word: text("cat"),
        origin: None,
        phonetics: Some(vec![phonetic(None), phonetic(Some("/kæt/"))]),
        meanings: vec![],
    };
    assert_eq!(hidden.render_phonetics(), "");
    assert_eq!(hidden.render(), "cat ");
}

#[test]
fn later_phonetic_without_transcription_leaves_an_empty_place() {
    let word = Word {
        word: text("cat"),
        origin: None,
        phonetics: Some(vec![phonetic(Some("/kæt/")), phonetic(None), phonetic(Some("/kat/"))]),
        meanings: vec![],
    };
    assert_eq!(word.render_phonetics(), "[/kæt/, , /kat/]");
    assert_eq!(word.render(), "cat [/kæt/, , /kat/]");
}

#[test]
fn present_but_empty_transcription_still_shows_brackets() {
    let word = Word {
        word: text("cat"),
        origin: None,
        phonetics: Some(vec![phonetic(Some(""))]),
        meanings: vec![],
    };
    assert_eq!(word.render(), "cat []");
}

#[test]
fn origin_follows_the_phonetics_without_a_separator() {
    let word = Word {
        word: text("cat"),
        origin: Some(text("Old English catt")),
        phonetics: Some(vec![phonetic(Some("/kæt/"))]),
        meanings: vec![meaning("noun", &["A small animal."])],
    };
    assert_eq!(word.render(), "cat [/kæt/]Old English catt\nnoun\n\t• A small animal.");
    let without_phonetics = Word { phonetics: None, ..word.clone() };
    assert_eq!(without_phonetics.render(), "cat Old English catt\nnoun\n\t• A small animal.");
}

#[test]
fn meanings_keep_their_order_and_their_duplicates() {
    let word = Word {
        word: text("run"),
        origin: None,
        phonetics: None,
        meanings: vec![
            meaning("verb", &["b", "a", "b"]),
            meaning("noun", &[]),
            meaning("verb", &["b"]),
        ],
    };
    assert_eq!(word.render_meanings(), "\nverb\n\t• b\n\t• a\n\t• b\nnoun\nverb\n\t• b");
    assert_eq!(word.render(), "run \nverb\n\t• b\n\t• a\n\t• b\nnoun\nverb\n\t• b");
}

#[test]
fn parts_render_on_their_own() {
    let with_extras = Definition {
        definition: text("A greeting."),
        synonyms: Some(vec![text("welcome"), text("salutation")]),
        example: Some(text("hello there")),
    };
    assert_eq!(with_extras.render(), "\n\t• A greeting.");
    assert_eq!(definition("").render(), "\n\t• ");
    assert_eq!(
        Phonetic { text: Some(text("/kæt/")), audio: Some(text("https://example.org/cat.mp3")) }
            .render(),
        "/kæt/"
    );
    assert_eq!(phonetic(None).render(), "");
    assert_eq!(meaning("noun", &["one", "two"]).render(), "\nnoun\n\t• one\n\t• two");
    assert_eq!(meaning("noun", &[]).render(), "\nnoun");
}
