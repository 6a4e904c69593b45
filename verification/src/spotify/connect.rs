//! The Spotify Connect device, and the Jam links that reach it.

use serde_json::Value;
use vstd::prelude::*;
use vstd::string::*;
use vstd::utf8::*;

use crate::json::{
    has_member, json_content, json_document, member, member_content, member_text, parse_document, text_member,
};
use crate::text::{
    before_char, cut_before, law_stripping_undoes_prepending, law_text_before_a_character, lemma_first_index_behind,
    strip_prefix, stripped, text_of,
};

verus! {

/// How many pieces of sound, of about 20 ms each, wait for the voice channel at most. The
/// player is held back to the speed of the music by it; it would otherwise decode a whole
/// track at once, and the app would jump to the next one.
pub const PCM_SLOTS: usize = 64;

/// The volume that the device begins with: half of what a `u16` can hold.
pub const INITIAL_VOLUME: u16 = 0x8000;

/// Where the dealer tells of Jam sessions.
pub const JAM_TOPIC: &'static str = "social-connect/v2/session_update";

/// What a Jam link begins with; the session's token follows.
pub const DEEP_LINK: &'static str = "spotify://socialsession/";

/// What Spotify's internal form of a Jam link begins with.
pub const INTERNAL_LINK: &'static str = "hm://social-connect/v2/sessions/join/";

/// What the web form of a Jam link begins with.
pub const WEB_LINK: &'static str = "https://open.spotify.com/socialsession/";

/// The deep link to the session of `token`.
pub open spec fn deep_link(token: Seq<char>) -> Seq<char> {
    DEEP_LINK@ + token
}

/// The token of an internal link.
pub open spec fn internal_token(raw: Seq<char>) -> Option<Seq<char>> {
    match stripped(raw, INTERNAL_LINK@) {
        Some(token) => if token.len() > 0 {
            Some(token)
        } else {
            None
        },
        None => None,
    }
}

/// The token of a web link: what stands before the query.
pub open spec fn web_token(raw: Seq<char>) -> Option<Seq<char>> {
    match stripped(raw, WEB_LINK@) {
        Some(rest) => if before_char(rest, '?').len() > 0 {
            Some(before_char(rest, '?'))
        } else {
            None
        },
        None => None,
    }
}

/// The deep link that a link of any known form stands for.
pub open spec fn normalised(raw: Seq<char>) -> Option<Seq<char>> {
    match internal_token(raw) {
        Some(token) => Some(deep_link(token)),
        None => match web_token(raw) {
            Some(token) => Some(deep_link(token)),
            None => if DEEP_LINK@.is_prefix_of(raw) {
                Some(raw)
            } else {
                None
            },
        },
    }
}

/// The deep link to the session of `token`.
fn link_to(token: &str) -> (link: String)
    ensures
        link@ == deep_link(token@),
{
    DEEP_LINK.to_owned().concat(token)
}

/// Converts a link of any known form into a deep link that opens the Spotify app.
/// A link of another form gives `None`, so that nothing else is passed on.
pub fn normalise_jam_url(raw: &str) -> (link: Option<String>)
    ensures
        text_of(link) == normalised(raw@),
{
    if let Some(token) = strip_prefix(raw, INTERNAL_LINK) {
        if !token.is_empty() {
            return Some(link_to(token));
        }
    }
    if let Some(rest) = strip_prefix(raw, WEB_LINK) {
        let token = cut_before(rest, '?');
        if !token.is_empty() {
            return Some(link_to(token));
        }
    }
    if strip_prefix(raw, DEEP_LINK).is_some() {
        return Some(raw.to_owned());
    }
    None
}

/// What a session update says of the way into a Jam: the texts of the members that
/// name its token or its link, each under both spellings.
pub struct SessionFields {
    pub token: Option<String>,
    pub token_snake: Option<String>,
    pub url: Option<String>,
    pub url_snake: Option<String>,
    pub uri: Option<String>,
    pub uri_snake: Option<String>,
}

/// The texts of `SessionFields`.
pub struct SessionTexts {
    pub token: Option<Seq<char>>,
    pub token_snake: Option<Seq<char>>,
    pub url: Option<Seq<char>>,
    pub url_snake: Option<Seq<char>>,
    pub uri: Option<Seq<char>>,
    pub uri_snake: Option<Seq<char>>,
}

impl View for SessionFields {
    type V = SessionTexts;

    open spec fn view(&self) -> SessionTexts {
        SessionTexts {
            token: text_of(self.token),
            token_snake: text_of(self.token_snake),
            url: text_of(self.url),
            url_snake: text_of(self.url_snake),
            uri: text_of(self.uri),
            uri_snake: text_of(self.uri_snake),
        }
    }
}

/// The object that a session update is about: its member `session`, or itself where
/// it has none.
pub open spec fn session_content(
    content: Map<Seq<Seq<char>>, Option<Seq<char>>>,
) -> Map<Seq<Seq<char>>, Option<Seq<char>>> {
    if has_member(content, "session"@) {
        member_content(content, "session"@)
    } else {
        content
    }
}

/// What a session update with this content says of the way into a Jam.
pub open spec fn session_texts(content: Map<Seq<Seq<char>>, Option<Seq<char>>>) -> SessionTexts {
    let session = session_content(content);
    SessionTexts {
        token: member_text(session, "joinSessionToken"@),
        token_snake: member_text(session, "join_session_token"@),
        url: member_text(session, "joinSessionUrl"@),
        url_snake: member_text(session, "join_session_url"@),
        uri: member_text(session, "joinSessionUri"@),
        uri_snake: member_text(session, "join_session_uri"@),
    }
}

/// The first of two results that is one.
pub open spec fn first_of(first: Option<Seq<char>>, second: Option<Seq<char>>) -> Option<Seq<char>> {
    if first is Some {
        first
    } else {
        second
    }
}

/// The deep link that a token gives: none where the token is missing or empty.
pub open spec fn token_link(token: Option<Seq<char>>) -> Option<Seq<char>> {
    match token {
        Some(token) => if token.len() > 0 {
            Some(deep_link(token))
        } else {
            None
        },
        None => None,
    }
}

/// The deep link that a link gives: none where it is missing, empty or of an unknown
/// form.
pub open spec fn url_link(url: Option<Seq<char>>) -> Option<Seq<char>> {
    match url {
        Some(url) => if url.len() > 0 {
            normalised(url)
        } else {
            None
        },
        None => None,
    }
}

/// The deep link that a session update gives. A token goes before a link, and a link
/// before another in the order of the fields.
pub open spec fn session_link(texts: SessionTexts) -> Option<Seq<char>> {
    first_of(
        token_link(texts.token),
        first_of(
            token_link(texts.token_snake),
            first_of(
                url_link(texts.url),
                first_of(
                    url_link(texts.url_snake),
                    first_of(url_link(texts.uri), url_link(texts.uri_snake)),
                ),
            ),
        ),
    )
}

/// The deep link that a JSON document gives, `None` standing for what is no document.
pub open spec fn document_link(
    document: Option<Map<Seq<Seq<char>>, Option<Seq<char>>>>,
) -> Option<Seq<char>> {
    match document {
        Some(content) => session_link(session_texts(content)),
        None => None,
    }
}

/// Reads from a session update what it says of the way into a Jam.
fn read_session(update: &Value) -> (fields: SessionFields)
    ensures
        fields@ == session_texts(json_content(*update)),
{
    let session = match member(update, "session") {
        Some(session) => session,
        None => update,
    };
    SessionFields {
        token: text_member(session, "joinSessionToken"),
        token_snake: text_member(session, "join_session_token"),
        url: text_member(session, "joinSessionUrl"),
        url_snake: text_member(session, "join_session_url"),
        uri: text_member(session, "joinSessionUri"),
        uri_snake: text_member(session, "join_session_uri"),
    }
}

/// The deep link that a token gives.
fn link_from_token(token: &Option<String>) -> (link: Option<String>)
    ensures
        text_of(link) == token_link(text_of(*token)),
{
    match token {
        Some(token) => {
            let token = token.as_str();
            if token.is_empty() {
                None
            } else {
                Some(link_to(token))
            }
        },
        None => None,
    }
}

/// The deep link that a link gives.
fn link_from_url(url: &Option<String>) -> (link: Option<String>)
    ensures
        text_of(link) == url_link(text_of(*url)),
{
    match url {
        Some(url) => {
            let url = url.as_str();
            if url.is_empty() {
                None
            } else {
                normalise_jam_url(url)
            }
        },
        None => None,
    }
}

/// The deep link into the Jam that a session update tells of. The token is preferred,
/// because it gives the link directly; a link has to be of a known form.
pub fn jam_url_from_fields(fields: &SessionFields) -> (link: Option<String>)
    ensures
        text_of(link) == session_link(fields@),
{
    let link = link_from_token(&fields.token);
    if link.is_some() {
        return link;
    }
    let link = link_from_token(&fields.token_snake);
    if link.is_some() {
        return link;
    }
    let link = link_from_url(&fields.url);
    if link.is_some() {
        return link;
    }
    let link = link_from_url(&fields.url_snake);
    if link.is_some() {
        return link;
    }
    let link = link_from_url(&fields.uri);
    if link.is_some() {
        return link;
    }
    link_from_url(&fields.uri_snake)
}

/// The deep link into the Jam that a session update in JSON tells of.
pub fn parse_jam_url_from_json(json: &str) -> (link: Option<String>)
    ensures
        text_of(link) == document_link(json_document(json@)),
{
    match parse_document(json) {
        Some(update) => jam_url_from_fields(&read_session(&update)),
        None => None,
    }
}

/// What a dealer message carries.
pub enum PayloadValue {
    Json(String),
    Raw(Vec<u8>),
    Empty,
}

/// The text that a payload carries: JSON as it is, raw bytes where they are UTF-8.
pub open spec fn payload_text(payload: PayloadValue) -> Option<Seq<char>> {
    match payload {
        PayloadValue::Json(json) => Some(json@),
        PayloadValue::Raw(bytes) => if valid_utf8(bytes@) {
            Some(decode_utf8(bytes@))
        } else {
            None
        },
        PayloadValue::Empty => None,
    }
}

/// The deep link that a payload gives.
pub open spec fn payload_link(payload: PayloadValue) -> Option<Seq<char>> {
    match payload_text(payload) {
        Some(text) => document_link(json_document(text)),
        None => None,
    }
}

/// Calls `std::str::from_utf8`, and drops what it says of an error.
///
/// Believed of it: it gives the text whose UTF-8 encoding the bytes are, and fails on
/// bytes that are not valid UTF-8.
#[verifier::external_body]
fn utf8_text(bytes: &[u8]) -> (text: Option<&str>)
    ensures
        match text {
            Some(text) => encode_utf8(text@) == bytes@,
            None => !valid_utf8(bytes@),
        },
{
    std::str::from_utf8(bytes).ok()
}

/// The deep link into the Jam that a dealer message tells of. Its payload is JSON,
/// or, against expectation, raw bytes, which are read as JSON if they are UTF-8.
pub fn extract_jam_url(payload: &PayloadValue) -> (link: Option<String>)
    ensures
        text_of(link) == payload_link(*payload),
{
    match payload {
        PayloadValue::Json(json) => parse_jam_url_from_json(json.as_str()),
        PayloadValue::Raw(bytes) => match utf8_text(bytes.as_slice()) {
            Some(text) => {
                proof {
                    encode_utf8_valid_utf8(text@);
                    encode_utf8_decode_utf8(text@);
                }
                parse_jam_url_from_json(text)
            },
            None => None,
        },
        PayloadValue::Empty => None,
    }
}

/// The three forms of a link begin differently.
proof fn lemma_forms_differ(raw: Seq<char>)
    ensures
        DEEP_LINK@.is_prefix_of(raw) ==> !INTERNAL_LINK@.is_prefix_of(raw) && !WEB_LINK@.is_prefix_of(raw),
        WEB_LINK@.is_prefix_of(raw) ==> !INTERNAL_LINK@.is_prefix_of(raw),
{
    reveal_strlit("spotify://socialsession/");
    reveal_strlit("hm://social-connect/v2/sessions/join/");
    reveal_strlit("https://open.spotify.com/socialsession/");
    assert(DEEP_LINK@[0] == 's');
    assert(INTERNAL_LINK@[0] == 'h' && INTERNAL_LINK@[1] == 'm');
    assert(WEB_LINK@[0] == 'h' && WEB_LINK@[1] == 't');
}

/// A text that ends in front of the first `end` is what stands before it.
proof fn lemma_before_char_of(head: Seq<char>, tail: Seq<char>, end: char)
    requires
        !head.contains(end),
        tail.len() == 0 || tail[0] == end,
    ensures
        before_char(head + tail, end) == head,
{
    lemma_first_index_behind(head, tail, end);
    assert((head + tail).take(head.len() as int) =~= head);
}

/// Every link that comes out is a deep link, whatever form went in.
pub proof fn law_normalised_is_deep_link(raw: Seq<char>)
    ensures
        normalised(raw) matches Some(link) ==> DEEP_LINK@.is_prefix_of(link),
{
}

/// A link that came out of normalising is not changed by normalising it again.
pub proof fn law_normalised_is_stable(raw: Seq<char>)
    ensures
        normalised(raw) matches Some(link) ==> normalised(link) == Some(link),
{
    if let Some(link) = normalised(raw) {
        law_normalised_is_deep_link(raw);
        lemma_forms_differ(link);
    }
}

/// A link that begins in none of the three known ways is dropped.
pub proof fn law_unknown_form_is_dropped(raw: Seq<char>)
    requires
        !INTERNAL_LINK@.is_prefix_of(raw),
        !WEB_LINK@.is_prefix_of(raw),
        !DEEP_LINK@.is_prefix_of(raw),
    ensures
        normalised(raw) is None,
{
}

/// The forms of a link to one session all give the same deep link, and a query behind
/// the web form makes no difference.
pub proof fn law_forms_agree(token: Seq<char>, query: Seq<char>)
    requires
        token.len() > 0,
        !token.contains('?'),
    ensures
        normalised(INTERNAL_LINK@ + token) == Some(deep_link(token)),
        normalised(WEB_LINK@ + token) == Some(deep_link(token)),
        normalised(WEB_LINK@ + token + seq!['?'] + query) == Some(deep_link(token)),
        normalised(deep_link(token)) == Some(deep_link(token)),
{
    let internal = INTERNAL_LINK@ + token;
    assert(internal.skip(INTERNAL_LINK@.len() as int) =~= token);
    assert(INTERNAL_LINK@.is_prefix_of(internal));

    let web = WEB_LINK@ + token;
    lemma_forms_differ(web);
    assert(WEB_LINK@.is_prefix_of(web));
    assert(web.skip(WEB_LINK@.len() as int) =~= token + Seq::empty());
    lemma_before_char_of(token, Seq::empty(), '?');

    let queried = WEB_LINK@ + token + seq!['?'] + query;
    lemma_forms_differ(queried);
    assert(WEB_LINK@.is_prefix_of(queried));
    assert(queried.skip(WEB_LINK@.len() as int) =~= token + (seq!['?'] + query));
    lemma_before_char_of(token, seq!['?'] + query, '?');

    let deep = deep_link(token);
    lemma_forms_differ(deep);
    assert(DEEP_LINK@.is_prefix_of(deep));
}

/// Every link that a dealer message gives is a deep link.
pub proof fn law_payload_link_is_deep_link(payload: PayloadValue)
    ensures
        payload_link(payload) matches Some(link) ==> DEEP_LINK@.is_prefix_of(link),
{
}

/// Every link that a session update gives names a session, unless a link in the update
/// was a deep link that named none.
pub proof fn law_session_link_names_a_session(texts: SessionTexts)
    requires
        texts.url != Some(DEEP_LINK@),
        texts.url_snake != Some(DEEP_LINK@),
        texts.uri != Some(DEEP_LINK@),
        texts.uri_snake != Some(DEEP_LINK@),
    ensures
        session_link(texts) matches Some(link) ==> DEEP_LINK@.is_prefix_of(link) && link.len() > DEEP_LINK@.len(),
{
    lemma_url_link_names_a_session(texts.url);
    lemma_url_link_names_a_session(texts.url_snake);
    lemma_url_link_names_a_session(texts.uri);
    lemma_url_link_names_a_session(texts.uri_snake);
}

/// A link other than the bare beginning of a deep link names a session.
proof fn lemma_url_link_names_a_session(url: Option<Seq<char>>)
    requires
        url != Some(DEEP_LINK@),
    ensures
        url_link(url) matches Some(link) ==> DEEP_LINK@.is_prefix_of(link) && link.len() > DEEP_LINK@.len(),
{
    if let Some(url) = url {
        if DEEP_LINK@.is_prefix_of(url) && url.len() == DEEP_LINK@.len() {
            assert(url =~= DEEP_LINK@);
        }
    }
}

/// A token that is there decides the link, whatever links are there too, and under either
/// spelling.
pub proof fn law_token_is_preferred(texts: SessionTexts)
    ensures
        texts.token is Some && texts.token->0.len() > 0 ==> session_link(texts) == Some(deep_link(texts.token->0)),
        token_link(texts.token) is None && texts.token_snake is Some && texts.token_snake->0.len() > 0
            ==> session_link(texts) == Some(deep_link(texts.token_snake->0)),
{
}

/// An update gives the same link under either spelling of its members.
pub proof fn law_spellings_agree(token: Option<Seq<char>>, url: Option<Seq<char>>, uri: Option<Seq<char>>)
    ensures
        session_link(
            (SessionTexts { token, token_snake: None, url, url_snake: None, uri, uri_snake: None }),
        ) == session_link(
            (SessionTexts {
                token: None,
                token_snake: token,
                url: None,
                url_snake: url,
                uri: None,
                uri_snake: uri,
            }),
        ),
{
}

/// A session update says the same whether it stands at the root or under `session`, as
/// long as there is not another one inside.
pub proof fn law_nesting_makes_no_difference(content: Map<Seq<Seq<char>>, Option<Seq<char>>>)
    requires
        has_member(content, "session"@),
        !has_member(member_content(content, "session"@), "session"@),
    ensures
        session_texts(content) == session_texts(member_content(content, "session"@)),
{
}

/// Raw bytes give the link that their text gives as JSON.
pub proof fn law_raw_and_json_agree(raw: Vec<u8>, json: String)
    requires
        raw@ == encode_utf8(json@),
    ensures
        payload_link(PayloadValue::Raw(raw)) == payload_link(PayloadValue::Json(json)),
{
    encode_utf8_valid_utf8(json@);
    encode_utf8_decode_utf8(json@);
}

/// The link to a session is the fixed beginning with the whole token behind it: taking the
/// beginning away gives the token back, and links to different tokens differ.
pub proof fn law_link_holds_the_whole_token(token: Seq<char>, other: Seq<char>)
    ensures
        stripped(deep_link(token), "spotify://socialsession/"@) == Some(token),
        deep_link(token).len() == 24 + token.len(),
        deep_link(token) == deep_link(other) ==> token == other,
{
    reveal_strlit("spotify://socialsession/");
    law_stripping_undoes_prepending("spotify://socialsession/"@, token);
    law_stripping_undoes_prepending("spotify://socialsession/"@, other);
}

/// An internal link leads into the session of its token, which is all that stands behind
/// the beginning; without a token it leads nowhere.
pub proof fn law_internal_link_keeps_its_token(token: Seq<char>)
    ensures
        normalised("hm://social-connect/v2/sessions/join/"@ + token) == (if token.len() > 0 {
            Some("spotify://socialsession/"@ + token)
        } else {
            None
        }),
{
    let raw = "hm://social-connect/v2/sessions/join/"@ + token;
    law_stripping_undoes_prepending("hm://social-connect/v2/sessions/join/"@, token);
    lemma_forms_differ(raw);
    assert("hm://social-connect/v2/sessions/join/"@.is_prefix_of(raw));
}

/// A web link leads into the session of its token, which is all that stands behind the
/// beginning, up to a query; without a token it leads nowhere.
pub proof fn law_web_link_keeps_its_token(token: Seq<char>, query: Seq<char>)
    requires
        !token.contains('?'),
    ensures
        normalised("https://open.spotify.com/socialsession/"@ + token) == (if token.len() > 0 {
            Some("spotify://socialsession/"@ + token)
        } else {
            None
        }),
        normalised("https://open.spotify.com/socialsession/"@ + (token + seq!['?'] + query)) == (if token.len() > 0 {
            Some("spotify://socialsession/"@ + token)
        } else {
            None
        }),
{
    let start = "https://open.spotify.com/socialsession/"@;
    law_text_before_a_character(token, query, '?');
    law_stripping_undoes_prepending(start, token);
    law_stripping_undoes_prepending(start, token + seq!['?'] + query);
    lemma_forms_differ(start + token);
    lemma_forms_differ(start + (token + seq!['?'] + query));
    assert(start.is_prefix_of(start + token));
    assert(start.is_prefix_of(start + (token + seq!['?'] + query)));
}

/// A deep link is passed on as it came, to the last character.
pub proof fn law_deep_link_is_kept(rest: Seq<char>)
    ensures
        normalised("spotify://socialsession/"@ + rest) == Some("spotify://socialsession/"@ + rest),
{
    let raw = "spotify://socialsession/"@ + rest;
    assert("spotify://socialsession/"@.is_prefix_of(raw));
    lemma_forms_differ(raw);
}

/// An empty text is a link of no form.
proof fn lemma_empty_is_no_link()
    ensures
        normalised(Seq::empty()) is None,
{
    reveal_strlit("spotify://socialsession/");
    reveal_strlit("hm://social-connect/v2/sessions/join/");
    reveal_strlit("https://open.spotify.com/socialsession/");
}

/// Whatever links are there too, a token gives the link that consists of the fixed
/// beginning and the whole token; the second spelling counts where the first is missing or
/// empty.
pub proof fn law_token_gives_the_link(texts: SessionTexts, token: Seq<char>)
    requires
        token.len() > 0,
        texts.token == Some(token) || (texts.token_snake == Some(token) && (texts.token is None || texts.token->0.len()
            == 0)),
    ensures
        session_link(texts) == Some("spotify://socialsession/"@ + token),
{
}

/// Without a token, the first link of a known form is the one that counts, and without
/// such a link there is none.
pub proof fn law_links_are_tried_in_order(texts: SessionTexts)
    requires
        texts.token is None || texts.token->0.len() == 0,
        texts.token_snake is None || texts.token_snake->0.len() == 0,
    ensures
        texts.url is Some && normalised(texts.url->0) is Some
            ==> session_link(texts) == normalised(texts.url->0),
        (texts.url is None || normalised(texts.url->0) is None)
            && texts.url_snake is Some && normalised(texts.url_snake->0) is Some
            ==> session_link(texts) == normalised(texts.url_snake->0),
        (texts.url is None || normalised(texts.url->0) is None)
            && (texts.url_snake is None || normalised(texts.url_snake->0) is None)
            && texts.uri is Some && normalised(texts.uri->0) is Some
            ==> session_link(texts) == normalised(texts.uri->0),
        (texts.url is None || normalised(texts.url->0) is None)
            && (texts.url_snake is None || normalised(texts.url_snake->0) is None)
            && (texts.uri is None || normalised(texts.uri->0) is None)
            && texts.uri_snake is Some && normalised(texts.uri_snake->0) is Some
            ==> session_link(texts) == normalised(texts.uri_snake->0),
        (texts.url is None || normalised(texts.url->0) is None)
            && (texts.url_snake is None || normalised(texts.url_snake->0) is None)
            && (texts.uri is None || normalised(texts.uri->0) is None)
            && (texts.uri_snake is None || normalised(texts.uri_snake->0) is None)
            ==> session_link(texts) is None,
{
    lemma_empty_is_no_link();
    assert forall|url: Seq<char>| url.len() == 0 implies #[trigger] normalised(url) is None by {
        assert(url =~= Seq::empty());
    }
}

/// A session update is read by its members, those of `session` where there is one and its
/// own otherwise. Each is taken whole where it is a text, and counts as missing where it is
/// something else.
pub proof fn law_members_are_read(content: Map<Seq<Seq<char>>, Option<Seq<char>>>, path: Seq<Seq<char>>)
    requires
        path == (if content.contains_key(seq!["session"@]) {
            seq!["session"@]
        } else {
            Seq::empty()
        }),
    ensures
        session_texts(content).token == (if content.contains_key(path.push("joinSessionToken"@)) {
            content[path.push("joinSessionToken"@)]
        } else {
            None
        }),
        session_texts(content).token_snake == (if content.contains_key(path.push("join_session_token"@)) {
            content[path.push("join_session_token"@)]
        } else {
            None
        }),
        session_texts(content).url == (if content.contains_key(path.push("joinSessionUrl"@)) {
            content[path.push("joinSessionUrl"@)]
        } else {
            None
        }),
        session_texts(content).url_snake == (if content.contains_key(path.push("join_session_url"@)) {
            content[path.push("join_session_url"@)]
        } else {
            None
        }),
        session_texts(content).uri == (if content.contains_key(path.push("joinSessionUri"@)) {
            content[path.push("joinSessionUri"@)]
        } else {
            None
        }),
        session_texts(content).uri_snake == (if content.contains_key(path.push("join_session_uri"@)) {
            content[path.push("join_session_uri"@)]
        } else {
            None
        }),
{
    assert(path.push("joinSessionToken"@) =~= path + seq!["joinSessionToken"@]);
    assert(path.push("join_session_token"@) =~= path + seq!["join_session_token"@]);
    assert(path.push("joinSessionUrl"@) =~= path + seq!["joinSessionUrl"@]);
    assert(path.push("join_session_url"@) =~= path + seq!["join_session_url"@]);
    assert(path.push("joinSessionUri"@) =~= path + seq!["joinSessionUri"@]);
    assert(path.push("join_session_uri"@) =~= path + seq!["join_session_uri"@]);
    if !content.contains_key(seq!["session"@]) {
        assert(path.push("joinSessionToken"@) =~= seq!["joinSessionToken"@]);
        assert(path.push("join_session_token"@) =~= seq!["join_session_token"@]);
        assert(path.push("joinSessionUrl"@) =~= seq!["joinSessionUrl"@]);
        assert(path.push("join_session_url"@) =~= seq!["join_session_url"@]);
        assert(path.push("joinSessionUri"@) =~= seq!["joinSessionUri"@]);
        assert(path.push("join_session_uri"@) =~= seq!["join_session_uri"@]);
    }
}

/// From the message to the link: a document that holds a token, under `session` or at its
/// root, gives the link to the session of that very token.
pub proof fn law_session_update_gives_its_link(
    json: String,
    content: Map<Seq<Seq<char>>, Option<Seq<char>>>,
    token: Seq<char>,
)
    requires
        json_document(json@) == Some(content),
        token.len() > 0,
        if content.contains_key(seq!["session"@]) {
            content.contains_key(seq!["session"@, "joinSessionToken"@]) && content[seq![
                "session"@,
                "joinSessionToken"@,
            ]] == Some(token)
        } else {
            content.contains_key(seq!["joinSessionToken"@]) && content[seq!["joinSessionToken"@]] == Some(token)
        },
    ensures
        payload_link(PayloadValue::Json(json)) == Some("spotify://socialsession/"@ + token),
{
    let path = if content.contains_key(seq!["session"@]) {
        seq!["session"@]
    } else {
        Seq::empty()
    };
    law_members_are_read(content, path);
    assert(seq!["session"@].push("joinSessionToken"@) =~= seq!["session"@, "joinSessionToken"@]);
    assert(Seq::<Seq<char>>::empty().push("joinSessionToken"@) =~= seq!["joinSessionToken"@]);
}

/// A message that carries no text, or a text that is no document, gives no link; one that
/// carries a document gives the link of what the document holds.
pub proof fn law_payload_is_read_as_a_document(json: String, raw: Vec<u8>)
    ensures
        payload_link(PayloadValue::Empty) is None,
        !valid_utf8(raw@) ==> payload_link(PayloadValue::Raw(raw)) is None,
        json_document(json@) is None ==> payload_link(PayloadValue::Json(json)) is None,
        json_document(json@) matches Some(content) ==> payload_link(PayloadValue::Json(json)) == session_link(
            session_texts(content),
        ),
{
}

/// The texts of a session update are those of its fields, each in its own place.
pub proof fn law_fields_are_whole(fields: SessionFields)
    ensures
        fields@.token == text_of(fields.token),
        fields@.token_snake == text_of(fields.token_snake),
        fields@.url == text_of(fields.url),
        fields@.url_snake == text_of(fields.url_snake),
        fields@.uri == text_of(fields.uri),
        fields@.uri_snake == text_of(fields.uri_snake),
{
}

/// The device begins at half of the volume that there is, and a little more than a second
/// of sound waits at most, at fifty pieces a second.
pub proof fn law_device_begins_at_half_volume()
    ensures
        INITIAL_VOLUME * 2 == u16::MAX + 1,
        50 < PCM_SLOTS < 75,
{
}

} // verus!
