use discord_spotify_bot::spotify::connect::{
    extract_jam_url, jam_url_from_fields, normalise_jam_url, parse_jam_url_from_json, PayloadValue, SessionFields,
};

fn link(token: &str) -> Option<String> {
    Some(format!("spotify://socialsession/{token}"))
}

fn no_fields() -> SessionFields {
    SessionFields { token: None, token_snake: None, url: None, url_snake: None, uri: None, uri_snake: None }
}

fn some(text: &str) -> Option<String> {
    Some(text.to_string())
}

#[test]
fn the_internal_form_is_normalised() {
    assert_eq!(normalise_jam_url("hm://social-connect/v2/sessions/join/abc"), link("abc"));
    assert_eq!(normalise_jam_url("hm://social-connect/v2/sessions/join/a?b"), link("a?b"));
    assert_eq!(normalise_jam_url("hm://social-connect/v2/sessions/join/"), None);
}

#[test]
fn the_web_form_is_normalised() {
    assert_eq!(normalise_jam_url("https://open.spotify.com/socialsession/abc"), link("abc"));
    assert_eq!(normalise_jam_url("https://open.spotify.com/socialsession/abc?si=1&x=2?3"), link("abc"));
    assert_eq!(normalise_jam_url("https://open.spotify.com/socialsession/?si=1"), None);
    assert_eq!(normalise_jam_url("https://open.spotify.com/socialsession/"), None);
}

#[test]
fn a_deep_link_stays() {
    assert_eq!(normalise_jam_url("spotify://socialsession/abc?si=1"), link("abc?si=1"));
    assert_eq!(normalise_jam_url("spotify://socialsession/"), link(""));
}

#[test]
fn other_forms_are_dropped() {
    for raw in ["", "abc", "http://open.spotify.com/socialsession/abc", "spotify:socialsession:abc", " spotify://socialsession/a"] {
        assert_eq!(normalise_jam_url(raw), None, "{raw:?}");
    }
}

#[test]
fn normalising_twice_changes_nothing() {
    for raw in ["hm://social-connect/v2/sessions/join/x", "https://open.spotify.com/socialsession/x?y", "spotify://socialsession/x"] {
        let once = normalise_jam_url(raw).unwrap();
        assert_eq!(once, "spotify://socialsession/x");
        assert_eq!(normalise_jam_url(&once), Some(once.clone()));
    }
}

#[test]
fn the_token_goes_first() {
    let fields = SessionFields { token: some("t"), url: some("spotify://socialsession/u"), ..no_fields() };
    assert_eq!(jam_url_from_fields(&fields), link("t"));
    let fields = SessionFields { token: some(""), token_snake: some("s"), ..no_fields() };
    assert_eq!(jam_url_from_fields(&fields), link("s"));
    let fields = SessionFields { token: some("t"), token_snake: some("s"), ..no_fields() };
    assert_eq!(jam_url_from_fields(&fields), link("t"));
    let fields = SessionFields {
        token_snake: some("s"),
        url: some("spotify://socialsession/u"),
        uri_snake: some("hm://social-connect/v2/sessions/join/d"),
        ..no_fields()
    };
    assert_eq!(jam_url_from_fields(&fields), link("s"));
}

#[test]
fn links_are_tried_in_order() {
    let fields = SessionFields {
        token: some(""),
        token_snake: some(""),
        url: some("ftp://junk"),
        url_snake: some(""),
        uri: some("hm://social-connect/v2/sessions/join/c"),
        uri_snake: some("hm://social-connect/v2/sessions/join/d"),
    };
    assert_eq!(jam_url_from_fields(&fields), link("c"));
    let fields = SessionFields { uri: None, ..fields };
    assert_eq!(jam_url_from_fields(&fields), link("d"));
    assert_eq!(jam_url_from_fields(&no_fields()), None);
}

#[test]
fn the_spellings_agree() {
    let camel = SessionFields { url: some("spotify://socialsession/u"), uri: some("x"), ..no_fields() };
    let snake = SessionFields { url_snake: some("spotify://socialsession/u"), uri_snake: some("x"), ..no_fields() };
    assert_eq!(jam_url_from_fields(&camel), link("u"));
    assert_eq!(jam_url_from_fields(&snake), link("u"));
}

#[test]
fn json_is_read_at_the_root_and_under_session() {
    assert_eq!(parse_jam_url_from_json("{\"joinSessionToken\":\"abc\"}"), link("abc"));
    assert_eq!(parse_jam_url_from_json("{\"session\":{\"join_session_token\":\"abc\"}}"), link("abc"));
    let both = "{\"joinSessionToken\":\"root\",\"session\":{\"joinSessionToken\":\"inner\"}}";
    assert_eq!(parse_jam_url_from_json(both), link("inner"));
    let url = "{\"session\":{\"joinSessionUrl\":\"https:\\/\\/open.spotify.com\\/socialsession\\/\\u0061bc?si=1\"}}";
    assert_eq!(parse_jam_url_from_json(url), link("abc"));
}

#[test]
fn a_session_hides_the_root_whatever_it_is() {
    assert_eq!(parse_jam_url_from_json("{\"joinSessionToken\":\"root\",\"session\":null}"), None);
    assert_eq!(parse_jam_url_from_json("{\"joinSessionToken\":\"root\",\"session\":{}}"), None);
}

#[test]
fn what_is_no_text_is_passed_over() {
    let json = "{\"joinSessionToken\":7,\"joinSessionUrl\":[\"x\"],\"join_session_uri\":\"spotify://socialsession/u\"}";
    assert_eq!(parse_jam_url_from_json(json), link("u"));
}

#[test]
fn what_is_no_object_gives_no_link() {
    for json in ["", "{", "null", "[]", "\"joinSessionToken\"", "7", "{} {}", "[{\"joinSessionToken\":\"a\"}]"] {
        assert_eq!(parse_jam_url_from_json(json), None, "{json:?}");
    }
}

#[test]
fn payloads_are_read() {
    let json = "{\"joinSessionToken\":\"\u{00e9}\"}";
    assert_eq!(extract_jam_url(&PayloadValue::Json(json.to_string())), link("\u{00e9}"));
    assert_eq!(extract_jam_url(&PayloadValue::Raw(json.as_bytes().to_vec())), link("\u{00e9}"));
    assert_eq!(extract_jam_url(&PayloadValue::Empty), None);
}

#[test]
fn bytes_that_are_no_text_give_no_link() {
    let mut bytes = b"{\"joinSessionToken\":\"a\"}".to_vec();
    bytes[21] = 0xff;
    assert_eq!(extract_jam_url(&PayloadValue::Raw(bytes)), None);
    assert_eq!(extract_jam_url(&PayloadValue::Raw(Vec::new())), None);
}
