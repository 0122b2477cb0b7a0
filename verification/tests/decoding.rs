use define::decode::{
    from_text, list_from_json, optional_list_member, optional_member, required_list_member,
    required_member, FromJson,
};
use define::entry::{Definition, Meaning, Phonetic, Word};
use define::error::LookupError;

fn document(text: &str) -> serde_json::Value {
    serde_json::from_str(text).unwrap()
}

fn text(s: &str) -> String {
    String::from(s)
}

const MALFORMED: LookupError = LookupError::MalformedResponse;

#[test]
fn decodes_an_entry_with_every_member() {
    let word: Word = from_text(
        r#"{
            "word": "cat",
            "origin": "Old English catt",
            "phonetics": [{"text": "/kæt/", "audio": "https://example.org/cat.mp3"}, {}],
            "meanings": [
                {
                    "partOfSpeech": "noun",
                    "definitions": [
                        {"definition": "A small animal.", "synonyms": ["feline", "puss"], "example": "the cat sat"},
                        {"definition": "A person."}
                    ]
                },
                {"partOfSpeech": "verb", "definitions": []}
            ]
        }"#,
    )
    .unwrap();
    assert_eq!(
        word,
        Word {
            word: text("cat"),
            origin: Some(text("Old English catt")),
            phonetics: Some(vec![
                Phonetic { text: Some(text("/kæt/")), audio: Some(text("https://example.org/cat.mp3")) },
                Phonetic { text: None, audio: None },
            ]),
            meanings: vec![
                Meaning {
                    part_of_speech: text("noun"),
                    definitions: vec![
                        Definition {
                            definition: text("A small animal."),
                            synonyms: Some(vec![text("feline"), text("puss")]),
                            example: Some(text("the cat sat")),
                        },
                        Definition { definition: text("A person."), synonyms: None, example: None },
                    ],
                },
                Meaning { part_of_speech: text("verb"), definitions: vec![] },
            ],
        }
    );
}

#[test]
fn optional_members_may_be_missing_or_null() {
    let missing: Word = from_text(r#"{"word":"cat","meanings":[]}"#).unwrap();
    let null: Word =
        from_text(r#"{"word":"cat","origin":null,"phonetics":null,"meanings":[]}"#).unwrap();
    let expected = Word { word: text("cat"), origin: None, phonetics: None, meanings: vec![] };
    assert_eq!(missing, expected);
    assert_eq!(null, expected);

    let definition: Definition =
        from_text(r#"{"definition":"d","synonyms":null,"example":null}"#).unwrap();
    assert_eq!(definition, Definition { definition: text("d"), synonyms: None, example: None });
    let phonetic: Phonetic = from_text(r#"{"text":null,"audio":null}"#).unwrap();
    assert_eq!(phonetic, Phonetic { text: None, audio: None });
}

#[test]
fn empty_lists_and_texts_are_present() {
    let word: Word =
        from_text(r#"{"word":"","origin":"","phonetics":[],"meanings":[]}"#).unwrap();
    assert_eq!(
        word,
        Word { word: text(""), origin: Some(text("")), phonetics: Some(vec![]), meanings: vec![] }
    );
    let definition: Definition = from_text(r#"{"definition":"","synonyms":[]}"#).unwrap();
    assert_eq!(definition.synonyms, Some(vec![]));
}

#[test]
fn required_members_must_be_there() {
    assert_eq!(from_text::<Word>(r#"{"meanings":[]}"#), Err(MALFORMED));
    assert_eq!(from_text::<Word>(r#"{"word":"cat"}"#), Err(MALFORMED));
    assert_eq!(from_text::<Word>(r#"{"word":null,"meanings":[]}"#), Err(MALFORMED));
    assert_eq!(from_text::<Word>(r#"{"word":"cat","meanings":null}"#), Err(MALFORMED));
    assert_eq!(from_text::<Meaning>(r#"{"definitions":[]}"#), Err(MALFORMED));
    assert_eq!(from_text::<Meaning>(r#"{"partOfSpeech":"noun"}"#), Err(MALFORMED));
    assert_eq!(from_text::<Meaning>(r#"{"part_of_speech":"noun","definitions":[]}"#), Err(MALFORMED));
    assert_eq!(from_text::<Definition>(r#"{}"#), Err(MALFORMED));
    assert_eq!(from_text::<Definition>(r#"{"example":"e","synonyms":[]}"#), Err(MALFORMED));
    assert_eq!(
        from_text::<Word>(
            r#"{"word":"cat","meanings":[{"partOfSpeech":"noun","definitions":[{"example":"e"}]}]}"#
        ),
        Err(MALFORMED)
    );
    assert_eq!(
        from_text::<Word>(r#"{"word":"cat","meanings":[{"definitions":[{"definition":"d"}]}]}"#),
        Err(MALFORMED)
    );
}

#[test]
fn members_of_the_wrong_kind_are_malformed() {
    assert_eq!(from_text::<Word>(r#"{"word":7,"meanings":[]}"#), Err(MALFORMED));
    assert_eq!(from_text::<Word>(r#"{"word":["cat"],"meanings":[]}"#), Err(MALFORMED));
    assert_eq!(from_text::<Word>(r#"{"word":"cat","meanings":{}}"#), Err(MALFORMED));
    assert_eq!(from_text::<Word>(r#"{"word":"cat","meanings":"none"}"#), Err(MALFORMED));
    assert_eq!(from_text::<Word>(r#"{"word":"cat","origin":7,"meanings":[]}"#), Err(MALFORMED));
    assert_eq!(from_text::<Word>(r#"{"word":"cat","origin":false,"meanings":[]}"#), Err(MALFORMED));
    assert_eq!(from_text::<Word>(r#"{"word":"cat","phonetics":{},"meanings":[]}"#), Err(MALFORMED));
    assert_eq!(from_text::<Word>(r#"{"word":"cat","phonetics":["/k/"],"meanings":[]}"#), Err(MALFORMED));
    assert_eq!(from_text::<Word>(r#"{"word":"cat","phonetics":[null],"meanings":[]}"#), Err(MALFORMED));
    assert_eq!(from_text::<Word>(r#"{"word":"cat","meanings":["noun"]}"#), Err(MALFORMED));
    assert_eq!(from_text::<Phonetic>(r#"{"text":1}"#), Err(MALFORMED));
    assert_eq!(from_text::<Phonetic>(r#"{"audio":[]}"#), Err(MALFORMED));
    assert_eq!(from_text::<Definition>(r#"{"definition":"d","synonyms":"s"}"#), Err(MALFORMED));
    assert_eq!(from_text::<Definition>(r#"{"definition":"d","synonyms":["s",1]}"#), Err(MALFORMED));
    assert_eq!(from_text::<Definition>(r#"{"definition":"d","synonyms":[null]}"#), Err(MALFORMED));
    assert_eq!(from_text::<Definition>(r#"{"definition":"d","example":{}}"#), Err(MALFORMED));
    assert_eq!(from_text::<Definition>(r#"{"definition":true}"#), Err(MALFORMED));
}

#[test]
fn only_an_object_is_an_entry() {
    for tree in ["null", "true", "0", "\"cat\"", "[]", r#"["cat",null,null,[]]"#] {
        assert_eq!(Word::from_json(&document(tree)), Err(MALFORMED));
        assert_eq!(Meaning::from_json(&document(tree)), Err(MALFORMED));
        assert_eq!(Definition::from_json(&document(tree)), Err(MALFORMED));
        assert_eq!(Phonetic::from_json(&document(tree)), Err(MALFORMED));
    }
    assert_eq!(Phonetic::from_json(&document("{}")), Ok(Phonetic { text: None, audio: None }));
}

#[test]
fn only_a_string_is_a_text() {
    assert_eq!(String::from_json(&document("\"a \\\"b\\\" \\u00e9\\n\"")), Ok(text("a \"b\" é\n")));
    assert_eq!(String::from_json(&document("\"\"")), Ok(text("")));
    for tree in ["null", "false", "1.5", "[]", "{}", "[\"a\"]"] {
        assert_eq!(String::from_json(&document(tree)), Err(MALFORMED));
    }
}

#[test]
fn unknown_members_are_passed_over() {
    let word: Word = from_text(
        r#"{"word":"cat","license":{"name":"CC"},"sourceUrls":["u"],"phonetic":"/k/","meanings":[{"partOfSpeech":"noun","antonyms":[],"definitions":[{"definition":"d","antonyms":[1,2]}]}]}"#,
    )
    .unwrap();
    assert_eq!(word.word, "cat");
    assert_eq!(word.meanings[0].definitions[0].definition, "d");
    assert_eq!(word.phonetics, None);
}

#[test]
fn text_that_is_no_document_is_malformed() {
    for body in ["", "   ", "{", "{\"word\":\"cat\",}", "{\"word\":\"cat\"} x", "nul", "{'word':'cat'}"] {
        assert_eq!(from_text::<Word>(body), Err(MALFORMED));
        assert_eq!(from_text::<String>(body), Err(MALFORMED));
    }
    assert_eq!(from_text::<String>(" \"cat\" "), Ok(text("cat")));
}

#[test]
fn lists_decode_item_by_item_in_order() {
    assert_eq!(
        list_from_json::<String>(&document(r#"["b","a","b",""]"#)),
        Ok(vec![text("b"), text("a"), text("b"), text("")])
    );
    assert_eq!(list_from_json::<String>(&document("[]")), Ok(vec![]));
    assert_eq!(list_from_json::<Word>(&document("[]")), Ok(vec![]));
    assert_eq!(list_from_json::<String>(&document(r#"["a",null]"#)), Err(MALFORMED));
    assert_eq!(list_from_json::<String>(&document(r#"{"0":"a"}"#)), Err(MALFORMED));
    assert_eq!(list_from_json::<String>(&document("\"a\"")), Err(MALFORMED));
    assert_eq!(list_from_json::<String>(&document("null")), Err(MALFORMED));
    let phonetics = list_from_json::<Phonetic>(&document(r#"[{"text":"1"},{"text":"2"}]"#)).unwrap();
    assert_eq!(phonetics[0].text, Some(text("1")));
    assert_eq!(phonetics[1].text, Some(text("2")));
}

#[test]
fn members_are_found_by_their_key() {
    let object = document(r#"{"a":"x","b":null,"c":["y"],"d":7,"":"empty key","A":"upper"}"#);
    assert_eq!(required_member::<String>(&object, "a"), Ok(text("x")));
    assert_eq!(required_member::<String>(&object, ""), Ok(text("empty key")));
    assert_eq!(required_member::<String>(&object, "A"), Ok(text("upper")));
    assert_eq!(required_member::<String>(&object, "b"), Err(MALFORMED));
    assert_eq!(required_member::<String>(&object, "d"), Err(MALFORMED));
    assert_eq!(required_member::<String>(&object, "z"), Err(MALFORMED));
    assert_eq!(optional_member::<String>(&object, "a"), Ok(Some(text("x"))));
    assert_eq!(optional_member::<String>(&object, "b"), Ok(None));
    assert_eq!(optional_member::<String>(&object, "z"), Ok(None));
    assert_eq!(optional_member::<String>(&object, "c"), Err(MALFORMED));
    assert_eq!(required_list_member::<String>(&object, "c"), Ok(vec![text("y")]));
    assert_eq!(required_list_member::<String>(&object, "a"), Err(MALFORMED));
    assert_eq!(required_list_member::<String>(&object, "b"), Err(MALFORMED));
    assert_eq!(required_list_member::<String>(&object, "z"), Err(MALFORMED));
    assert_eq!(optional_list_member::<String>(&object, "c"), Ok(Some(vec![text("y")])));
    assert_eq!(optional_list_member::<String>(&object, "b"), Ok(None));
    assert_eq!(optional_list_member::<String>(&object, "z"), Ok(None));
    assert_eq!(optional_list_member::<String>(&object, "d"), Err(MALFORMED));
}

#[test]
fn a_value_that_is_no_object_has_no_members() {
    for tree in ["null", "[\"a\"]", "\"a\"", "1"] {
        let value = document(tree);
        assert_eq!(required_member::<String>(&value, "a"), Err(MALFORMED));
        assert_eq!(optional_member::<String>(&value, "a"), Ok(None));
        assert_eq!(required_list_member::<String>(&value, "0"), Err(MALFORMED));
        assert_eq!(optional_list_member::<String>(&value, "0"), Ok(None));
    }
}

#[test]
fn decoding_then_rendering_gives_the_documented_text() {
    let word: Word = from_text(
        r#"{"word":"hello","phonetics":[{"text":"/həˈloʊ/"},{"text":"/hɛˈloʊ/"}],"meanings":[{"partOfSpeech":"noun","definitions":[{"definition":"An utterance of \"hello\"; a greeting."}]},{"partOfSpeech":"intransitive verb","definitions":[{"definition":"Say or shout \"hello\"; greet someone."}]},{"partOfSpeech":"exclamation","definitions":[{"definition":"Used as a greeting or to begin a phone conversation."}]}]}"#,
    )
    .unwrap();
    assert_eq!(
        word.render(),
        "hello [/həˈloʊ/, /hɛˈloʊ/]\nnoun\n\t• An utterance of \"hello\"; a greeting.\nintransitive verb\n\t• Say or shout \"hello\"; greet someone.\nexclamation\n\t• Used as a greeting or to begin a phone conversation."
    );
}
