use open_pr::builder::build_pr_url;
use open_pr::encode::{decode_query_value, encode_query_value};
use open_pr::service::GitService;
use url::form_urlencoded;

fn decoded_by_url_crate(value: &str) -> String {
    let query = format!("k={}", value);
    let mut pairs = form_urlencoded::parse(query.as_bytes());
    let (_, v) = pairs.next().unwrap();
    assert!(pairs.next().is_none());
    v.into_owned()
}

#[test]
fn reserved_characters_are_encoded() {
    assert_eq!(encode_query_value("a b&c=d#e"), "a+b%26c%3Dd%23e");
    assert_eq!(encode_query_value("Fix bug & add feature #1 = done"), "Fix+bug+%26+add+feature+%231+%3D+done");
}

#[test]
fn safe_characters_are_kept() {
    let safe = "ABCXYZabcxyz0189*-._";
    assert_eq!(encode_query_value(safe), safe);
    assert_eq!(encode_query_value(""), "");
}

#[test]
fn other_bytes_become_upper_case_hex() {
    assert_eq!(encode_query_value("~/+%"), "%7E%2F%2B%25");
    assert_eq!(encode_query_value("\n\u{7f}"), "%0A%7F");
    assert_eq!(encode_query_value("é"), "%C3%A9");
    assert_eq!(encode_query_value("日本"), "%E6%97%A5%E6%9C%AC");
}

#[test]
fn encoded_value_decodes_to_the_text() {
    for text in ["a b&c=d#e", "Fix bug & add feature #1 = done", "100% + 1", "", "é日本 ok?", "a+b"] {
        let encoded = encode_query_value(text);
        assert_eq!(decode_query_value(&encoded), text.as_bytes().to_vec());
        assert_eq!(decoded_by_url_crate(&encoded), text);
    }
}

#[test]
fn title_in_a_built_url_decodes_to_the_text() {
    let title = "Fix: a & b = c #42";
    let url = build_pr_url(GitService::GitHub, "o", "r", "s", "t", Some(title), None, false).unwrap();
    let query = url.split_once('?').unwrap().1;
    let found = form_urlencoded::parse(query.as_bytes())
        .find(|(k, _)| k == "title")
        .map(|(_, v)| v.into_owned());
    assert_eq!(found, Some(title.to_string()));
}

#[test]
fn decoding_reads_plus_and_escapes() {
    assert_eq!(decode_query_value("a+b"), b"a b".to_vec());
    assert_eq!(decode_query_value("%41%2f%2F"), b"A//".to_vec());
    assert_eq!(decode_query_value("plain"), b"plain".to_vec());
}

#[test]
fn decoding_keeps_what_is_no_escape() {
    assert_eq!(decode_query_value("%"), b"%".to_vec());
    assert_eq!(decode_query_value("%4"), b"%4".to_vec());
    assert_eq!(decode_query_value("%zz1"), b"%zz1".to_vec());
    assert_eq!(decode_query_value("%4g"), b"%4g".to_vec());
    assert_eq!(decode_query_value("%%41"), b"%A".to_vec());
}

#[test]
fn decoding_agrees_with_the_url_crate() {
    for value in ["%", "%4", "%zz1", "a+b%20c", "%C3%A9", "%e6%97%a5", "x%2"] {
        let ours = String::from_utf8(decode_query_value(value)).unwrap();
        assert_eq!(ours, decoded_by_url_crate(value));
    }
}
