//! Bulk loading of newline-delimited JSON: counted and uncounted loads,
//! line endings, and the fail-fast rule.

use tifu_data::errors::Error;
use tifu_data::long_data_entries::LongDataEntries;
use tifu_data::raw_data_entries::RawDataEntries;
use tifu_data::short_data_entries::ShortDataEntries;

const VALID_LINE: &str = r#"{"title_tokenized": ["tifu", "by", "forgetting", "to", "pull", "my", "underwear", "down", "before", "i", "pooped"], "permalink": "/r/tifu/comments/1ghd5r/tifu_by_forgetting_to_pull_my_underwear_down/", "title": "TIFU by forgetting to pull my underwear down before I pooped.", "url": "https://www.reddit.com/r/tifu/comments/1ghd5r/tifu_by_forgetting_to_pull_my_underwear_down/", "num_comments": 13, "tldr": null, "created_utc": 1371426179.0, "trimmed_title_tokenized": ["forgetting", "to", "pull", "my", "underwear", "down", "before", "i", "pooped"], "id": "1ghd5r", "selftext_html": "<!-- SC_OFF --><div class=\"md\"><p>I was on Skype on my tablet as I went to the toilet IMing a friend. I don&#39;t multitask very well, so I forgot one of the most important things to do before pooping. I think the best part was when I realised and told my mate who just freaked out because I was talking to him on the John!</p>\n</div><!-- SC_ON -->", "score": 50, "upvote_ratio": 0.77, "tldr_tokenized": null, "selftext": "I was on Skype on my tablet as I went to the toilet IMing a friend. I don't multitask very well, so I forgot one of the most important things to do before pooping. I think the best part was when I realised and told my mate who just freaked out because I was talking to him on the John!", "trimmed_title": "forgetting to pull my underwear down before i pooped.", "selftext_without_tldr_tokenized": ["i", "was", "on", "skype", "on", "my", "tablet", "as", "i", "went", "to", "the", "toilet", "iming", "a", "friend", "i", "do", "n't", "multitask", "very", "well", "so", "i", "forgot", "one", "of", "the", "most", "important", "things", "to", "do", "before", "pooping", "i", "think", "the", "best", "part", "was", "when", "i", "realised", "and", "told", "my", "mate", "who", "just", "freaked", "out", "because", "i", "was", "talking", "to", "him", "on", "the", "john"], "ups": 50, "selftext_without_tldr": "i was on skype on my tablet as i went to the toilet iming a friend. i don't multitask very well, so i forgot one of the most important things to do before pooping. i think the best part was when i realised and told my mate who just freaked out because i was talking to him on the john!"}"#;

/// `n` copies of the valid record, one per line.
fn dataset(n: usize) -> Vec<u8> {
    let mut text = String::new();
    for _ in 0..n {
        text.push_str(VALID_LINE);
        text.push('\n');
    }
    text.into_bytes()
}

#[test]
fn test_raw_data_entries_from_tifu_dataset_bytes() {
    let bytes = dataset(25);
    let count_1 = 0;
    let count_2 = 10;
    let count_3 = 20;

    let res = RawDataEntries::from_tifu_dataset_bytes(&bytes, count_1);
    assert!(res.is_ok());
    let ds_1 = res.unwrap();
    assert_eq!(ds_1.len(), count_1 as usize);

    let res = RawDataEntries::from_tifu_dataset_bytes(&bytes, count_2);
    assert!(res.is_ok());
    let ds_2 = res.unwrap();
    assert_eq!(ds_2.len(), count_2 as usize);

    let res = RawDataEntries::from_tifu_dataset_bytes(&bytes, count_3);
    assert!(res.is_ok());
    let ds_3 = res.unwrap();
    assert_eq!(ds_3.len(), count_3 as usize);
}

#[test]
fn test_short_data_entries_from_tifu_dataset_bytes() {
    let bytes = dataset(25);
    let res = ShortDataEntries::from_tifu_dataset_bytes(&bytes, 10);
    assert!(res.is_ok());
    assert_eq!(res.unwrap().len(), 10);

    let res = ShortDataEntries::from_tifu_dataset_bytes_all(&bytes);
    assert!(res.is_ok());
    assert_eq!(res.unwrap().len(), 25);
}

#[test]
fn test_long_data_entries_from_tifu_dataset_bytes() {
    let bytes = dataset(25);
    let res = LongDataEntries::from_tifu_dataset_bytes(&bytes, 10);
    assert!(res.is_ok());
    assert_eq!(res.unwrap().len(), 10);

    let res = LongDataEntries::from_tifu_dataset_bytes_all(&bytes);
    assert!(res.is_ok());
    assert_eq!(res.unwrap().len(), 25);
}

#[test]
fn test_load_negative_count_reads_all() {
    let bytes = dataset(7);
    let ds = RawDataEntries::from_tifu_dataset_bytes(&bytes, -1).unwrap();
    assert_eq!(ds.len(), 7);
    let ds = RawDataEntries::from_tifu_dataset_bytes_all(&bytes).unwrap();
    assert_eq!(ds.len(), 7);
}

#[test]
fn test_load_count_beyond_end_reads_all() {
    let bytes = dataset(4);
    let ds = RawDataEntries::from_tifu_dataset_bytes(&bytes, 100).unwrap();
    assert_eq!(ds.len(), 4);
}

#[test]
fn test_load_empty_input() {
    let ds = RawDataEntries::from_tifu_dataset_bytes(&[], -1).unwrap();
    assert_eq!(ds.len(), 0);
}

#[test]
fn test_load_without_trailing_newline() {
    let mut text = String::from(VALID_LINE);
    text.push('\n');
    text.push_str(VALID_LINE);
    let ds = RawDataEntries::from_tifu_dataset_bytes(text.as_bytes(), -1).unwrap();
    assert_eq!(ds.len(), 2);
}

#[test]
fn test_load_crlf_line_endings() {
    let mut text = String::from(VALID_LINE);
    text.push_str("\r\n");
    text.push_str(VALID_LINE);
    text.push_str("\r\n");
    let ds = RawDataEntries::from_tifu_dataset_bytes(text.as_bytes(), -1).unwrap();
    assert_eq!(ds.len(), 2);
}

#[test]
fn test_load_aborts_on_first_bad_line() {
    let mut text = String::new();
    text.push_str(VALID_LINE);
    text.push('\n');
    text.push_str("this is not json\n");
    text.push_str(VALID_LINE);
    text.push('\n');
    let res = RawDataEntries::from_tifu_dataset_bytes(text.as_bytes(), -1);
    assert!(matches!(res, Err(Error::Parse(_))));

    // A syntactically valid line that misses the schema is a schema failure.
    let mut text = String::new();
    text.push_str(VALID_LINE);
    text.push('\n');
    text.push_str("{}\n");
    let res = RawDataEntries::from_tifu_dataset_bytes(text.as_bytes(), -1);
    assert!(matches!(res, Err(Error::Schema(_))));

    // The bad line is beyond the count, so it is never read.
    let res = RawDataEntries::from_tifu_dataset_bytes(text.as_bytes(), 1);
    assert!(res.is_ok());
    assert_eq!(res.unwrap().len(), 1);
}
