//! Decoding and encoding of single records: the serde round trip, missing
//! and null fields, numeric strictness, and the tokenized-array rules.

use tifu_data::data_entry::DataEntry;
use tifu_data::errors::{Error, FieldId, SchemaError};
use tifu_data::json::{JsonNum, JsonValue};

const VALID_ENTRY: &str = r#"{"title_tokenized": ["tifu", "by", "forgetting", "to", "pull", "my", "underwear", "down", "before", "i", "pooped"], "permalink": "/r/tifu/comments/1ghd5r/tifu_by_forgetting_to_pull_my_underwear_down/", "title": "TIFU by forgetting to pull my underwear down before I pooped.", "url": "https://www.reddit.com/r/tifu/comments/1ghd5r/tifu_by_forgetting_to_pull_my_underwear_down/", "num_comments": 13, "tldr": null, "created_utc": 1371426179.0, "trimmed_title_tokenized": ["forgetting", "to", "pull", "my", "underwear", "down", "before", "i", "pooped"], "id": "1ghd5r", "selftext_html": "<!-- SC_OFF --><div class=\"md\"><p>I was on Skype on my tablet as I went to the toilet IMing a friend. I don&#39;t multitask very well, so I forgot one of the most important things to do before pooping. I think the best part was when I realised and told my mate who just freaked out because I was talking to him on the John!</p>\n</div><!-- SC_ON -->", "score": 50, "upvote_ratio": 0.77, "tldr_tokenized": null, "selftext": "I was on Skype on my tablet as I went to the toilet IMing a friend. I don't multitask very well, so I forgot one of the most important things to do before pooping. I think the best part was when I realised and told my mate who just freaked out because I was talking to him on the John!", "trimmed_title": "forgetting to pull my underwear down before i pooped.", "selftext_without_tldr_tokenized": ["i", "was", "on", "skype", "on", "my", "tablet", "as", "i", "went", "to", "the", "toilet", "iming", "a", "friend", "i", "do", "n't", "multitask", "very", "well", "so", "i", "forgot", "one", "of", "the", "most", "important", "things", "to", "do", "before", "pooping", "i", "think", "the", "best", "part", "was", "when", "i", "realised", "and", "told", "my", "mate", "who", "just", "freaked", "out", "because", "i", "was", "talking", "to", "him", "on", "the", "john"], "ups": 50, "selftext_without_tldr": "i was on skype on my tablet as i went to the toilet iming a friend. i don't multitask very well, so i forgot one of the most important things to do before pooping. i think the best part was when i realised and told my mate who just freaked out because i was talking to him on the john!"}"#;

fn s(x: &str) -> JsonValue {
    JsonValue::Str(x.to_string())
}

fn arr(words: &[&str]) -> JsonValue {
    JsonValue::Arr(words.iter().map(|w| s(w)).collect())
}

fn member(key: &str, value: JsonValue) -> (String, JsonValue) {
    (key.to_string(), value)
}

/// The same record as `VALID_ENTRY`, built directly in the JSON model.
fn valid_value() -> JsonValue {
    JsonValue::Obj(vec![
        member("title_tokenized", arr(&["tifu", "by", "forgetting", "to", "pull", "my", "underwear", "down", "before", "i", "pooped"])),
        member("permalink", s("/r/tifu/comments/1ghd5r/tifu_by_forgetting_to_pull_my_underwear_down/")),
        member("title", s("TIFU by forgetting to pull my underwear down before I pooped.")),
        member("url", s("https://www.reddit.com/r/tifu/comments/1ghd5r/tifu_by_forgetting_to_pull_my_underwear_down/")),
        member("num_comments", JsonValue::Num(JsonNum::UInt(13))),
        member("tldr", JsonValue::Null),
        member("created_utc", JsonValue::Num(JsonNum::Other(serde_json::Number::from_f64(1371426179.0).unwrap()))),
        member("trimmed_title_tokenized", arr(&["forgetting", "to", "pull", "my", "underwear", "down", "before", "i", "pooped"])),
        member("id", s("1ghd5r")),
        member("selftext_html", s("<!-- SC_OFF --><div class=\"md\"><p>I was on Skype on my tablet as I went to the toilet IMing a friend. I don&#39;t multitask very well, so I forgot one of the most important things to do before pooping. I think the best part was when I realised and told my mate who just freaked out because I was talking to him on the John!</p>\n</div><!-- SC_ON -->")),
        member("score", JsonValue::Num(JsonNum::UInt(50))),
        member("upvote_ratio", JsonValue::Num(JsonNum::Other(serde_json::Number::from_f64(0.77).unwrap()))),
        member("tldr_tokenized", JsonValue::Null),
        member("selftext", s("I was on Skype on my tablet as I went to the toilet IMing a friend. I don't multitask very well, so I forgot one of the most important things to do before pooping. I think the best part was when I realised and told my mate who just freaked out because I was talking to him on the John!")),
        member("trimmed_title", s("forgetting to pull my underwear down before i pooped.")),
        member("selftext_without_tldr_tokenized", arr(&["i", "was", "on", "skype", "on", "my", "tablet", "as", "i", "went", "to", "the", "toilet", "iming", "a", "friend", "i", "do", "n't", "multitask", "very", "well", "so", "i", "forgot", "one", "of", "the", "most", "important", "things", "to", "do", "before", "pooping", "i", "think", "the", "best", "part", "was", "when", "i", "realised", "and", "told", "my", "mate", "who", "just", "freaked", "out", "because", "i", "was", "talking", "to", "him", "on", "the", "john"])),
        member("ups", JsonValue::Num(JsonNum::UInt(50))),
        member("selftext_without_tldr", s("i was on skype on my tablet as i went to the toilet iming a friend. i don't multitask very well, so i forgot one of the most important things to do before pooping. i think the best part was when i realised and told my mate who just freaked out because i was talking to him on the john!")),
    ])
}

/// `valid_value()` without the member named `key`.
fn without(key: &str) -> JsonValue {
    match valid_value() {
        JsonValue::Obj(m) => JsonValue::Obj(m.into_iter().filter(|(k, _)| k != key).collect()),
        _ => unreachable!(),
    }
}

/// `valid_value()` with the member named `key` replaced by `value`.
fn with(key: &str, value: JsonValue) -> JsonValue {
    let mut value = Some(value);
    match valid_value() {
        JsonValue::Obj(m) => JsonValue::Obj(
            m.into_iter()
                .map(|(k, v)| if k == key { let w = value.take().unwrap(); (k, w) } else { (k, v) })
                .collect(),
        ),
        _ => unreachable!(),
    }
}

fn frac(x: f64) -> JsonValue {
    JsonValue::Num(JsonNum::Other(serde_json::Number::from_f64(x).unwrap()))
}

#[test]
fn test_serialize_entry() {
    let res = DataEntry::from_json_string(VALID_ENTRY);
    assert!(res.is_ok());
    let data_entry_0 = res.unwrap();
    let res = data_entry_0.to_json_string();
    assert!(res.is_ok());
    let json_string_data_entry_0 = res.unwrap();
    assert_eq!(data_entry_0, DataEntry::from_json_string(&json_string_data_entry_0).unwrap());

    let json_value = valid_value();
    let res = DataEntry::from_json_value(&json_value);
    assert!(res.is_ok());
    let data_entry_1 = res.unwrap();
    let res = data_entry_1.to_json_string();
    assert!(res.is_ok());
    let json_string_data_entry_1 = res.unwrap();
    assert_eq!(data_entry_1, DataEntry::from_json_string(&json_string_data_entry_1).unwrap());

    let valid_entry_bytes = String::from(VALID_ENTRY).into_bytes();
    let res = DataEntry::from_json_bytes(&valid_entry_bytes);
    assert!(res.is_ok());
    let data_entry_2 = res.unwrap();
    let res = data_entry_2.to_json_bytes();
    assert!(res.is_ok());
    let json_bytes_data_entry_2 = res.unwrap();
    assert_eq!(data_entry_2, DataEntry::from_json_bytes(&json_bytes_data_entry_2).unwrap());

    assert_eq!(data_entry_0, data_entry_1);
    assert_eq!(data_entry_1, data_entry_2);
}

#[test]
fn test_missing_fields() {
    let res = DataEntry::from_json_value(&without("title"));
    assert!(res.is_err());

    let res = DataEntry::from_json_value(&without("ups"));
    assert!(res.is_err());

    let res = DataEntry::from_json_value(&without("tldr_tokenized"));
    assert!(res.is_ok());
}

#[test]
fn test_null_fields() {
    let res = DataEntry::from_json_value(&with("selftext", JsonValue::Null));
    assert!(res.is_err());

    let res = DataEntry::from_json_value(&with("score", JsonValue::Null));
    assert!(res.is_err());

    let res = DataEntry::from_json_value(&with("tldr", JsonValue::Null));
    assert!(res.is_ok());
}

#[test]
fn test_num_fields() {
    let res = DataEntry::from_json_value(&with("num_comments", frac(0.1234)));
    assert!(res.is_err());

    let res = DataEntry::from_json_value(&with("score", frac(0.1234)));
    assert!(res.is_err());

    let res = DataEntry::from_json_value(&with("ups", frac(0.1234)));
    assert!(res.is_err());

    let res = DataEntry::from_json_value(&with("created_utc", JsonValue::Num(JsonNum::UInt(1234))));
    assert!(res.is_ok());
}

#[test]
fn test_decoded_field_values() {
    let e = DataEntry::from_json_string(VALID_ENTRY).unwrap();
    assert_eq!(e.id, "1ghd5r");
    assert_eq!(e.title, "TIFU by forgetting to pull my underwear down before I pooped.");
    assert_eq!(e.trimmed_title, "forgetting to pull my underwear down before i pooped.");
    assert_eq!(e.num_comments, 13);
    assert_eq!(e.score, 50);
    assert_eq!(e.ups, 50);
    assert_eq!(e.tldr, None);
    assert_eq!(e.tldr_tokenized, None);
    assert!(e.selftext_html.is_some());
    assert_eq!(e.title_tokenized.len(), 11);
    assert_eq!(e.title_tokenized[0], "tifu");
    assert_eq!(e.selftext_without_tldr_tokenized.len(), 61);
}

#[test]
fn test_parse_error() {
    let res = DataEntry::from_json_string("this is not json");
    assert!(matches!(res, Err(Error::Parse(_))));

    let res = DataEntry::from_json_bytes(&[0xff, 0xfe, 0x01]);
    assert!(matches!(res, Err(Error::Parse(_))));
}

#[test]
fn test_schema_error_names_field() {
    let res = DataEntry::from_json_value(&without("title"));
    assert_eq!(res, Err(SchemaError::Field(FieldId::Title)));

    let res = DataEntry::from_json_value(&with("score", JsonValue::Null));
    assert_eq!(res, Err(SchemaError::Field(FieldId::Score)));

    let res = DataEntry::from_json_string(r#"{"title": 3}"#);
    assert!(matches!(res, Err(Error::Schema(_))));
}

#[test]
fn test_element_error_names_index() {
    let bad = JsonValue::Arr(vec![s("ok"), JsonValue::Num(JsonNum::UInt(5)), s("late")]);
    let res = DataEntry::from_json_value(&with("title_tokenized", bad));
    assert_eq!(res, Err(SchemaError::Elem(FieldId::TitleTokenized, 1)));
}

#[test]
fn test_tokenized_sibling_rule() {
    // While `selftext_without_tldr_tokenized` stands, a missing tokenized
    // array is a failure...
    let res = DataEntry::from_json_value(&without("title_tokenized"));
    assert_eq!(res, Err(SchemaError::Field(FieldId::TitleTokenized)));

    // ...but with the sibling gone too, every tokenized array defaults empty.
    let both = match without("title_tokenized") {
        JsonValue::Obj(m) => JsonValue::Obj(
            m.into_iter().filter(|(k, _)| k != "selftext_without_tldr_tokenized").collect(),
        ),
        _ => unreachable!(),
    };
    let e = DataEntry::from_json_value(&both).unwrap();
    assert!(e.title_tokenized.is_empty());
    assert!(e.selftext_without_tldr_tokenized.is_empty());
}

#[test]
fn test_empty_tldr_tokenized_stays_unset() {
    let e = DataEntry::from_json_value(&with("tldr_tokenized", arr(&[]))).unwrap();
    assert_eq!(e.tldr_tokenized, None);
}

#[test]
fn test_wrong_typed_optional_strings_are_masked() {
    // `tldr` and `selftext_html` silently collapse to unset on a wrong type...
    let e = DataEntry::from_json_value(&with("tldr", JsonValue::Num(JsonNum::UInt(3)))).unwrap();
    assert_eq!(e.tldr, None);
    let e = DataEntry::from_json_value(&with("selftext_html", arr(&["x"]))).unwrap();
    assert_eq!(e.selftext_html, None);

    // ...while a wrong-typed non-null `tldr_tokenized` is a failure.
    let res = DataEntry::from_json_value(&with("tldr_tokenized", s("x")));
    assert_eq!(res, Err(SchemaError::Field(FieldId::TldrTokenized)));
}

#[test]
fn test_rendered_text_is_real_json() {
    let e = DataEntry::from_json_string(VALID_ENTRY).unwrap();
    let text = e.to_json_string().unwrap();
    let v: serde_json::Value = serde_json::from_str(&text).unwrap();
    assert_eq!(v["id"], serde_json::Value::String("1ghd5r".to_string()));
    assert_eq!(v["num_comments"], serde_json::Value::from(13u64));
    assert_eq!(v["tldr"], serde_json::Value::Null);
    assert_eq!(v["upvote_ratio"], serde_json::Value::from(0.77f64));
}
