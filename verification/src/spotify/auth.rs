//! Spotify's OAuth: the authorization link, the exchange of a code for tokens, and
//! the profile behind a token.

use base64::engine::general_purpose::STANDARD;
use base64::Engine;
use vstd::prelude::*;
use vstd::string::*;
use vstd::utf8::*;

use crate::config::{Config, ConfigView};
use crate::text::{
    before_char, decimal, first_index, is_digit, law_stripping_undoes_prepending, lemma_concat_lacks,
    lemma_decimal_digits, lemma_first_index_behind, lemma_split_last, lemma_split_on, split_on, stripped,
};

verus! {

/// What the bot asks leave for.
pub const SCOPES: &'static str = "streaming user-read-email user-read-private user-read-playback-state user-modify-playback-state user-read-currently-playing";

/// Whether form encoding leaves a byte as it is.
pub open spec fn is_form_safe(byte: u8) -> bool {
    ||| byte == 42  // *
    ||| byte == 45  // -
    ||| byte == 46  // .
    ||| byte == 95  // _
    ||| 48 <= byte <= 57  // 0 to 9
    ||| 65 <= byte <= 90  // A to Z
    ||| 97 <= byte <= 122  // a to z
}

/// A hexadecimal digit, in upper case.
pub open spec fn hex_char(digit: nat) -> char {
    if digit < 10 {
        (48 + digit) as char
    } else {
        (55 + digit) as char
    }
}

/// A byte in form encoding: itself where that is safe, a plus sign for a space, and a
/// percent sign with two hexadecimal digits otherwise.
pub open spec fn form_byte(byte: u8) -> Seq<char> {
    if is_form_safe(byte) {
        seq![byte as char]
    } else if byte == 32 {
        seq!['+']
    } else {
        seq!['%', hex_char(byte as nat / 16), hex_char(byte as nat % 16)]
    }
}

/// Bytes in form encoding, one after the other.
pub open spec fn form_encoded(bytes: Seq<u8>) -> Seq<char>
    decreases bytes.len(),
{
    if bytes.len() == 0 {
        Seq::empty()
    } else {
        form_byte(bytes[0]) + form_encoded(bytes.skip(1))
    }
}

/// Calls `url::form_urlencoded::byte_serialize`, and joins the pieces that it yields.
///
/// Believed of it: the pieces together are the bytes in form encoding.
#[verifier::external_body]
fn byte_serialize(bytes: &[u8]) -> (text: String)
    ensures
        text@ == form_encoded(bytes@),
{
    url::form_urlencoded::byte_serialize(bytes).collect()
}

/// A text in form encoding, as it may stand in a query.
pub fn encode(s: &str) -> (text: String)
    ensures
        text@ == form_encoded(encode_utf8(s@)),
{
    byte_serialize(s.as_bytes())
}

/// The authorization link.
pub open spec fn auth_url(cfg: ConfigView, state: Seq<char>) -> Seq<char> {
    "https://accounts.spotify.com/authorize?response_type=code&client_id="@ + cfg.spotify_client_id
        + "&scope="@ + form_encoded(encode_utf8(SCOPES@)) + "&redirect_uri="@ + form_encoded(
        encode_utf8(cfg.spotify_redirect_uri),
    ) + "&state="@ + state
}

/// Builds the authorization link for a user. The `state` is the Discord user id, so
/// that the callback can route the tokens back.
pub fn build_auth_url(cfg: &Config, state: &str) -> (url: String)
    ensures
        url@ == auth_url(cfg@, state@),
{
    let scope = encode(SCOPES);
    let redirect = encode(cfg.spotify_redirect_uri.as_str());
    let mut url = "https://accounts.spotify.com/authorize?response_type=code&client_id=".to_owned();
    url.append(cfg.spotify_client_id.as_str());
    url.append("&scope=");
    url.append(scope.as_str());
    url.append("&redirect_uri=");
    url.append(redirect.as_str());
    url.append("&state=");
    url.append(state);
    url
}

/// A base64 digit of the standard alphabet.
pub open spec fn base64_char(value: int) -> char {
    if value < 26 {
        (65 + value) as char  // A to Z
    } else if value < 52 {
        (71 + value) as char  // a to z
    } else if value < 62 {
        (value - 4) as char  // 0 to 9
    } else if value == 62 {
        '+'
    } else {
        '/'
    }
}

/// Bytes in base64, with the standard alphabet and padding.
pub open spec fn base64_text(bytes: Seq<u8>) -> Seq<char>
    decreases bytes.len(),
{
    let a = bytes[0] as int;
    let b = bytes[1] as int;
    let c = bytes[2] as int;
    if bytes.len() == 0 {
        Seq::empty()
    } else if bytes.len() == 1 {
        seq![base64_char(a / 4), base64_char(a % 4 * 16), '=', '=']
    } else if bytes.len() == 2 {
        seq![base64_char(a / 4), base64_char(a % 4 * 16 + b / 16), base64_char(b % 16 * 4), '=']
    } else {
        seq![
            base64_char(a / 4),
            base64_char(a % 4 * 16 + b / 16),
            base64_char(b % 16 * 4 + c / 64),
            base64_char(c % 64),
        ] + base64_text(bytes.skip(3))
    }
}

/// How many characters so many bytes take in base64.
pub open spec fn base64_len(count: nat) -> nat {
    (count + 2) / 3 * 4
}

/// Calls `Engine::encode` of `base64`'s `STANDARD` engine.
///
/// Believed of it: it gives the bytes in base64, with the standard alphabet and padding.
/// It allocates the result at once, and panics where that is more than can be allocated.
#[verifier::external_body]
fn encode_base64(bytes: &[u8]) -> (text: String)
    requires
        base64_len(bytes@.len()) <= isize::MAX,
    ensures
        text@ == base64_text(bytes@),
{
    STANDARD.encode(bytes)
}

/// The credentials of the bot: its client id and its secret, with a colon between.
pub open spec fn credentials(cfg: ConfigView) -> Seq<char> {
    cfg.spotify_client_id + ":"@ + cfg.spotify_client_secret
}

/// The value of the header that names the bot to Spotify.
pub open spec fn basic_header(cfg: ConfigView) -> Seq<char> {
    "Basic "@ + base64_text(encode_utf8(credentials(cfg)))
}

/// The tokens that Spotify answers with.
#[derive(Debug)]
pub struct TokenResponse {
    pub access_token: String,
    pub refresh_token: Option<String>,
    pub expires_in: u64,
    pub token_type: String,
}

/// A request for tokens.
pub struct TokenRequest {
    pub url: String,
    pub authorization: String,
    pub grant_type: String,
    pub code: String,
    pub redirect_uri: String,
}

/// What a `TokenRequest` holds.
pub struct TokenRequestView {
    pub url: Seq<char>,
    pub authorization: Seq<char>,
    pub grant_type: Seq<char>,
    pub code: Seq<char>,
    pub redirect_uri: Seq<char>,
}

impl View for TokenRequest {
    type V = TokenRequestView;

    open spec fn view(&self) -> TokenRequestView {
        TokenRequestView {
            url: self.url@,
            authorization: self.authorization@,
            grant_type: self.grant_type@,
            code: self.code@,
            redirect_uri: self.redirect_uri@,
        }
    }
}

/// The request that exchanges an authorization code for tokens.
pub open spec fn exchange_request(cfg: ConfigView, code: Seq<char>) -> TokenRequestView {
    TokenRequestView {
        url: "https://accounts.spotify.com/api/token"@,
        authorization: basic_header(cfg),
        grant_type: "authorization_code"@,
        code,
        redirect_uri: cfg.spotify_redirect_uri,
    }
}

/// The request that exchanges an authorization code for tokens: where it goes, its
/// `Authorization` header and the fields of its form.
pub fn token_request(cfg: &Config, code: &str) -> (request: TokenRequest)
    requires
        base64_len(encode_utf8(credentials(cfg@)).len()) <= isize::MAX,
    ensures
        request@ == (TokenRequestView {
            url: "https://accounts.spotify.com/api/token"@,
            authorization: basic_header(cfg@),
            grant_type: "authorization_code"@,
            code: code@,
            redirect_uri: cfg@.spotify_redirect_uri,
        }),
        request@ == exchange_request(cfg@, code@),
        request.code@ == code@,
{
    let mut pair = cfg.spotify_client_id.clone();
    pair.append(":");
    pair.append(cfg.spotify_client_secret.as_str());
    let encoded = encode_base64(pair.as_str().as_bytes());
    TokenRequest {
        url: "https://accounts.spotify.com/api/token".to_owned(),
        authorization: "Basic ".to_owned().concat(encoded.as_str()),
        grant_type: "authorization_code".to_owned(),
        code: code.to_owned(),
        redirect_uri: cfg.spotify_redirect_uri.clone(),
    }
}

/// What came of a request for tokens.
pub enum TokenReply {
    /// The request was not answered.
    Unanswered,
    /// Spotify answered: the HTTP status, the body as text, if it could be read, and
    /// the body as tokens, if it could be read so.
    Answered { status: u16, body: Option<String>, tokens: Option<TokenResponse> },
}

/// Why there are no tokens.
#[derive(Debug)]
pub enum ExchangeError {
    /// The request was not answered.
    RequestFailed,
    /// Spotify refused, with this body.
    Refused(String),
    /// The answer could not be read.
    Unreadable,
}

/// What an `ExchangeError` holds.
pub enum ExchangeErrorView {
    RequestFailed,
    Refused(Seq<char>),
    Unreadable,
}

impl View for ExchangeError {
    type V = ExchangeErrorView;

    open spec fn view(&self) -> ExchangeErrorView {
        match self {
            ExchangeError::RequestFailed => ExchangeErrorView::RequestFailed,
            ExchangeError::Refused(body) => ExchangeErrorView::Refused(body@),
            ExchangeError::Unreadable => ExchangeErrorView::Unreadable,
        }
    }
}

impl ExchangeErrorView {
    /// The sentence that reports the error.
    pub open spec fn message(self) -> Seq<char> {
        match self {
            ExchangeErrorView::RequestFailed => "Token exchange request failed"@,
            ExchangeErrorView::Refused(body) => "Spotify token exchange error: "@ + body,
            ExchangeErrorView::Unreadable => "Failed to parse token response"@,
        }
    }
}

impl ExchangeError {
    /// The sentence that reports the error.
    pub fn message(&self) -> (message: String)
        ensures
            message@ == self@.message(),
    {
        match self {
            ExchangeError::RequestFailed => "Token exchange request failed".to_owned(),
            ExchangeError::Refused(body) => "Spotify token exchange error: ".to_owned().concat(body.as_str()),
            ExchangeError::Unreadable => "Failed to parse token response".to_owned(),
        }
    }
}

/// Whether an HTTP status reports success.
pub open spec fn is_success_status(status: u16) -> bool {
    200 <= status < 300
}

/// Whether an HTTP status reports success.
pub fn is_success(status: u16) -> (success: bool)
    ensures
        success == is_success_status(status),
{
    200 <= status && status < 300
}

/// The error that a reply amounts to, if it is one. A status that reports no success
/// is a refusal, whatever else is there; a body that could not be read counts as empty.
pub open spec fn reply_error(reply: TokenReply) -> Option<ExchangeErrorView> {
    match reply {
        TokenReply::Unanswered => Some(ExchangeErrorView::RequestFailed),
        TokenReply::Answered { status, body, tokens } => if !is_success_status(status) {
            Some(
                ExchangeErrorView::Refused(
                    match body {
                        Some(body) => body@,
                        None => Seq::empty(),
                    },
                ),
            )
        } else if tokens is None {
            Some(ExchangeErrorView::Unreadable)
        } else {
            None
        },
    }
}

/// The tokens that a reply brings, or why it brings none.
pub fn token_outcome(reply: TokenReply) -> (result: Result<TokenResponse, ExchangeError>)
    ensures
        match result {
            Ok(response) => reply_error(reply) is None && reply->tokens == Some(response),
            Err(error) => reply_error(reply) == Some(error@),
        },
{
    match reply {
        TokenReply::Unanswered => Err(ExchangeError::RequestFailed),
        TokenReply::Answered { status, body, tokens } => {
            if !is_success(status) {
                let body = match body {
                    Some(body) => body,
                    None => String::new(),
                };
                return Err(ExchangeError::Refused(body));
            }
            match tokens {
                Some(response) => Ok(response),
                None => Err(ExchangeError::Unreadable),
            }
        },
    }
}

/// Where the profile behind a token is found.
pub const PROFILE_URL: &'static str = "https://api.spotify.com/v1/me";

/// A Spotify profile.
pub struct Profile {
    pub display_name: Option<String>,
    pub id: String,
}

/// What came of a request for a profile.
pub enum ProfileReply {
    /// The request was not answered.
    Unanswered,
    /// The answer could not be read.
    Unreadable,
    /// The answer.
    Found(Profile),
}

/// Why there is no profile.
#[derive(Debug, Clone, Copy, PartialEq, Eq, Structural)]
pub enum ProfileError {
    RequestFailed,
    Unreadable,
}

impl ProfileError {
    /// The sentence that reports the error.
    pub fn message(&self) -> (message: String)
        ensures
            message@ == (match *self {
                ProfileError::RequestFailed => "Profile request failed"@,
                ProfileError::Unreadable => "Failed to parse profile"@,
            }),
    {
        match self {
            ProfileError::RequestFailed => "Profile request failed".to_owned(),
            ProfileError::Unreadable => "Failed to parse profile".to_owned(),
        }
    }
}

/// The name of the user whose profile it is: the display name, or else the id.
pub open spec fn profile_name(profile: Profile) -> Seq<char> {
    match profile.display_name {
        Some(name) => name@,
        None => profile.id@,
    }
}

/// The name of the user that a reply tells of, or why it tells of none.
pub open spec fn reply_name(reply: ProfileReply) -> Result<Seq<char>, ProfileError> {
    match reply {
        ProfileReply::Unanswered => Err(ProfileError::RequestFailed),
        ProfileReply::Unreadable => Err(ProfileError::Unreadable),
        ProfileReply::Found(profile) => Ok(profile_name(profile)),
    }
}

/// The name of the user that a reply tells of, or why it tells of none.
pub fn profile_outcome(reply: ProfileReply) -> (result: Result<String, ProfileError>)
    ensures
        match result {
            Ok(name) => reply_name(reply) == Ok::<_, ProfileError>(name@),
            Err(error) => reply_name(reply) == Err::<Seq<char>, _>(error),
        },
{
    match reply {
        ProfileReply::Unanswered => Err(ProfileError::RequestFailed),
        ProfileReply::Unreadable => Err(ProfileError::Unreadable),
        ProfileReply::Found(profile) => Ok(
            match profile.display_name {
                Some(name) => name,
                None => profile.id,
            },
        ),
    }
}

/// Whether a character has no meaning of its own in the query of a link, but for the
/// plus and the percent sign that form encoding puts there itself.
pub open spec fn is_query_safe(c: char) -> bool {
    ||| 'a' <= c <= 'z'
    ||| 'A' <= c <= 'Z'
    ||| '0' <= c <= '9'
    ||| c == '*'
    ||| c == '-'
    ||| c == '.'
    ||| c == '_'
    ||| c == '+'
    ||| c == '%'
}

/// Form encoding leaves nothing that could end a parameter or begin another.
pub proof fn law_form_encoding_is_query_safe(bytes: Seq<u8>)
    ensures
        forall|i: int| 0 <= i < form_encoded(bytes).len() ==> is_query_safe(#[trigger] form_encoded(bytes)[i]),
    decreases bytes.len(),
{
    if bytes.len() > 0 {
        let head = form_byte(bytes[0]);
        let rest = form_encoded(bytes.skip(1));
        law_form_encoding_is_query_safe(bytes.skip(1));
        assert forall|i: int| 0 <= i < form_encoded(bytes).len() implies is_query_safe(
            #[trigger] form_encoded(bytes)[i],
        ) by {
            if i >= head.len() {
                assert(form_encoded(bytes)[i] == rest[i - head.len()]);
            } else {
                assert(form_encoded(bytes)[i] == head[i]);
            }
        }
    }
}

/// Bytes that differ differ in form encoding.
#[verifier::spinoff_prover]
pub proof fn law_form_encoding_is_injective(left: Seq<u8>, right: Seq<u8>)
    requires
        form_encoded(left) == form_encoded(right),
    ensures
        left == right,
    decreases left.len(),
{
    let l = form_encoded(left);
    let r = form_encoded(right);
    if left.len() == 0 {
        if right.len() > 0 {
            assert(r.len() >= form_byte(right[0]).len());
        }
        assert(left =~= right);
    } else {
        assert(l.len() >= form_byte(left[0]).len());
        assert(right.len() > 0);
        let lh = form_byte(left[0]);
        let rh = form_byte(right[0]);
        assert(l[0] == lh[0] && r[0] == rh[0]);
        assert(lh.len() == rh.len());
        assert forall|i: int| 0 <= i < lh.len() implies lh[i] == rh[i] by {
            assert(l[i] == lh[i]);
            assert(r[i] == rh[i]);
        }
        assert(left[0] == right[0]);
        assert(l.skip(lh.len() as int) =~= form_encoded(left.skip(1)));
        assert(r.skip(rh.len() as int) =~= form_encoded(right.skip(1)));
        law_form_encoding_is_injective(left.skip(1), right.skip(1));
        assert(left =~= seq![left[0]] + left.skip(1));
        assert(right =~= seq![right[0]] + right.skip(1));
    }
}

/// The parameters of a link: what stands behind the first question mark, up to a fragment,
/// parted at the ampersands.
pub open spec fn query_parameters(url: Seq<char>) -> Seq<Seq<char>> {
    let sent = before_char(url, '#');
    split_on(sent.skip(first_index(sent, '?') + 1), '&')
}

/// The authorization link carries five parameters and no others: the kind of answer,
/// the client, the scope, the place to come back to and, last, the state. The client id
/// and the state stand in it as they are, so they must not hold an ampersand or a hash.
#[verifier::spinoff_prover]
pub proof fn law_auth_url_parameters(cfg: ConfigView, state: Seq<char>)
    requires
        !cfg.spotify_client_id.contains('&'),
        !cfg.spotify_client_id.contains('#'),
        !state.contains('&'),
        !state.contains('#'),
    ensures
        query_parameters(auth_url(cfg, state)) == seq![
            "response_type=code"@,
            "client_id="@ + cfg.spotify_client_id,
            "scope="@ + form_encoded(encode_utf8(SCOPES@)),
            "redirect_uri="@ + form_encoded(encode_utf8(cfg.spotify_redirect_uri)),
            "state="@ + state,
        ],
{
    lemma_auth_url_literals();
    let page = "https://accounts.spotify.com/authorize"@;
    let kind = "response_type=code"@;
    let client = "client_id="@ + cfg.spotify_client_id;
    let scopes = form_encoded(encode_utf8(SCOPES@));
    let scope = "scope="@ + scopes;
    let place = form_encoded(encode_utf8(cfg.spotify_redirect_uri));
    let redirect = "redirect_uri="@ + place;
    let last = "state="@ + state;
    lemma_form_encoding_lacks(encode_utf8(SCOPES@), '&');
    lemma_form_encoding_lacks(encode_utf8(cfg.spotify_redirect_uri), '&');
    lemma_concat_lacks("client_id="@, cfg.spotify_client_id, '&');
    lemma_concat_lacks("scope="@, scopes, '&');
    lemma_concat_lacks("redirect_uri="@, place, '&');
    lemma_concat_lacks("state="@, state, '&');

    let from_redirect = redirect + seq!['&'] + last;
    let from_scope = scope + seq!['&'] + from_redirect;
    let from_client = client + seq!['&'] + from_scope;
    let from_kind = kind + seq!['&'] + from_client;
    let url = auth_url(cfg, state);
    lemma_auth_url_has_no_fragment(cfg, state);
    lemma_regroup(
        page,
        kind,
        "client_id="@,
        cfg.spotify_client_id,
        "scope="@,
        scopes,
        "redirect_uri="@,
        place,
        "state="@,
        state,
    );
    lemma_first_index_behind(page, seq!['?'] + from_kind, '?');
    assert(url.skip(page.len() as int + 1) =~= from_kind);

    lemma_split_on(last, Seq::empty(), '&');
    lemma_split_on(redirect, last, '&');
    lemma_split_on(scope, from_redirect, '&');
    lemma_split_on(client, from_scope, '&');
    lemma_split_on(kind, from_client, '&');
    assert(query_parameters(url) =~= seq![kind, client, scope, redirect, last]);
}

/// A row of texts is the same however it is bracketed.
proof fn lemma_bracket(a: Seq<char>, b: Seq<char>, c: Seq<char>)
    ensures
        a + b + c == a + (b + c),
{
    assert(a + b + c =~= a + (b + c));
}

/// The parts of the authorization link, bracketed as they are appended and as the
/// parameters are read.
proof fn lemma_regroup(
    page: Seq<char>,
    kind: Seq<char>,
    client_key: Seq<char>,
    client: Seq<char>,
    scope_key: Seq<char>,
    scope: Seq<char>,
    redirect_key: Seq<char>,
    redirect: Seq<char>,
    state_key: Seq<char>,
    state: Seq<char>,
)
    ensures
        (page + seq!['?'] + kind + seq!['&'] + client_key) + client + (seq!['&'] + scope_key) + scope + (seq!['&']
            + redirect_key) + redirect + (seq!['&'] + state_key) + state == page + (seq!['?'] + (kind + seq!['&'] + ((
        client_key + client) + seq!['&'] + ((scope_key + scope) + seq!['&'] + ((redirect_key + redirect) + seq!['&'] + (
        state_key + state)))))),
{
    let amp = seq!['&'];
    let ask = seq!['?'];
    let p5 = state_key + state;
    let p4 = redirect_key + redirect;
    let p3 = scope_key + scope;
    let p2 = client_key + client;
    let t5 = amp + p5;
    let t4 = amp + (p4 + t5);
    let t3 = amp + (p3 + t4);
    let t2 = amp + (p2 + t3);
    let front = page + ask + kind + amp + client_key;
    let a1 = front + client;
    let a2 = a1 + (amp + scope_key);
    let a3 = a2 + scope;
    let a4 = a3 + (amp + redirect_key);
    let a5 = a4 + redirect;
    let a6 = a5 + (amp + state_key);
    // From the back: each key and its value are drawn together behind their ampersand.
    lemma_bracket(a5, amp + state_key, state);
    lemma_bracket(amp, state_key, state);
    assert(a6 + state == a5 + t5);
    lemma_bracket(a4, redirect, t5);
    lemma_bracket(a3, amp + redirect_key, redirect + t5);
    lemma_bracket(amp, redirect_key, redirect + t5);
    lemma_bracket(redirect_key, redirect, t5);
    assert(a5 + t5 == a3 + t4);
    lemma_bracket(a2, scope, t4);
    lemma_bracket(a1, amp + scope_key, scope + t4);
    lemma_bracket(amp, scope_key, scope + t4);
    lemma_bracket(scope_key, scope, t4);
    assert(a3 + t4 == a1 + t3);
    lemma_bracket(front, client, t3);
    lemma_bracket(page + ask + kind + amp, client_key, client + t3);
    lemma_bracket(client_key, client, t3);
    lemma_bracket(page + ask + kind, amp, p2 + t3);
    lemma_bracket(page + ask, kind, t2);
    lemma_bracket(page, ask, kind + t2);
    assert(a1 + t3 == page + (ask + (kind + t2)));
    // The ampersands go with what stands in front of them.
    lemma_bracket(p4, amp, p5);
    lemma_bracket(p3, amp, p4 + t5);
    lemma_bracket(p2, amp, p3 + t4);
    lemma_bracket(kind, amp, p2 + t3);
}

/// How the fixed parts of the authorization link are made up.
proof fn lemma_auth_url_literals()
    ensures
        "https://accounts.spotify.com/authorize?response_type=code&client_id="@
            == "https://accounts.spotify.com/authorize"@ + seq!['?'] + "response_type=code"@ + seq!['&']
            + "client_id="@,
        "&scope="@ == seq!['&'] + "scope="@,
        "&redirect_uri="@ == seq!['&'] + "redirect_uri="@,
        "&state="@ == seq!['&'] + "state="@,
        !"https://accounts.spotify.com/authorize"@.contains('?'),
        !"response_type=code"@.contains('&'),
        !"client_id="@.contains('&'),
        !"scope="@.contains('&'),
        !"redirect_uri="@.contains('&'),
        !"state="@.contains('&'),
{
    reveal_strlit("https://accounts.spotify.com/authorize?response_type=code&client_id=");
    reveal_strlit("https://accounts.spotify.com/authorize");
    reveal_strlit("&scope=");
    reveal_strlit("&redirect_uri=");
    reveal_strlit("&state=");
    reveal_strlit("response_type=code");
    reveal_strlit("client_id=");
    reveal_strlit("scope=");
    reveal_strlit("redirect_uri=");
    reveal_strlit("state=");
}

/// The fixed parts of the authorization link hold no hash.
proof fn lemma_auth_url_literals_lack_hash()
    ensures
        !"https://accounts.spotify.com/authorize?response_type=code&client_id="@.contains('#'),
        !"&scope="@.contains('#'),
        !"&redirect_uri="@.contains('#'),
        !"&state="@.contains('#'),
{
    reveal_strlit("https://accounts.spotify.com/authorize?response_type=code&client_id=");
    reveal_strlit("&scope=");
    reveal_strlit("&redirect_uri=");
    reveal_strlit("&state=");
}

/// The authorization link has no fragment, unless the client id or the state brings one.
#[verifier::spinoff_prover]
proof fn lemma_auth_url_has_no_fragment(cfg: ConfigView, state: Seq<char>)
    requires
        !cfg.spotify_client_id.contains('#'),
        !state.contains('#'),
    ensures
        before_char(auth_url(cfg, state), '#') == auth_url(cfg, state),
{
    lemma_auth_url_literals_lack_hash();
    let scopes = form_encoded(encode_utf8(SCOPES@));
    let place = form_encoded(encode_utf8(cfg.spotify_redirect_uri));
    lemma_form_encoding_lacks(encode_utf8(SCOPES@), '#');
    lemma_form_encoding_lacks(encode_utf8(cfg.spotify_redirect_uri), '#');
    let a0 = "https://accounts.spotify.com/authorize?response_type=code&client_id="@;
    let a1 = a0 + cfg.spotify_client_id;
    let a2 = a1 + "&scope="@;
    let a3 = a2 + scopes;
    let a4 = a3 + "&redirect_uri="@;
    let a5 = a4 + place;
    let a6 = a5 + "&state="@;
    lemma_concat_lacks(a0, cfg.spotify_client_id, '#');
    lemma_concat_lacks(a1, "&scope="@, '#');
    lemma_concat_lacks(a2, scopes, '#');
    lemma_concat_lacks(a3, "&redirect_uri="@, '#');
    lemma_concat_lacks(a4, place, '#');
    lemma_concat_lacks(a5, "&state="@, '#');
    lemma_concat_lacks(a6, state, '#');
    let url = auth_url(cfg, state);
    lemma_first_index_behind(url, Seq::empty(), '#');
    assert(url + Seq::empty() =~= url);
    assert(url.take(url.len() as int) =~= url);
}

/// Form encoding leaves nothing that is not safe in a query.
proof fn lemma_form_encoding_lacks(bytes: Seq<u8>, c: char)
    requires
        !is_query_safe(c),
    ensures
        !form_encoded(bytes).contains(c),
{
    law_form_encoding_is_query_safe(bytes);
    let text = form_encoded(bytes);
    if text.contains(c) {
        let i = choose|i: int| 0 <= i < text.len() && text[i] == c;
        assert(is_query_safe(text[i]));
    }
}

/// A number in base ten holds digits alone.
proof fn lemma_decimal_lacks(number: nat, c: char)
    requires
        !is_digit(c),
    ensures
        !decimal(number).contains(c),
{
    lemma_decimal_digits(number);
    if decimal(number).contains(c) {
        let i = choose|i: int| 0 <= i < decimal(number).len() && decimal(number)[i] == c;
        assert(is_digit(decimal(number)[i]));
    }
}

/// The link for a Discord user brings that user's id back: its last parameter is the
/// state, and the state is the id. A client id with a hash would cut it off.
pub proof fn law_auth_url_names_the_user(cfg: ConfigView, user: u64)
    requires
        !cfg.spotify_client_id.contains('#'),
    ensures
        query_parameters(auth_url(cfg, decimal(user as nat))).last() == "state="@ + decimal(user as nat),
{
    lemma_decimal_lacks(user as nat, '&');
    lemma_decimal_lacks(user as nat, '#');
    law_auth_url_brings_the_state_back(cfg, decimal(user as nat));
}

/// The link brings its state back: its last parameter is the very state that the link was
/// built for. An ampersand in the state would end it, and a hash in the state or the client
/// id would cut it off.
#[verifier::spinoff_prover]
pub proof fn law_auth_url_brings_the_state_back(cfg: ConfigView, state: Seq<char>)
    requires
        !cfg.spotify_client_id.contains('#'),
        !state.contains('&'),
        !state.contains('#'),
    ensures
        query_parameters(auth_url(cfg, state)).last() == "state="@ + state,
{
    lemma_auth_url_literals();
    lemma_auth_url_has_no_fragment(cfg, state);
    lemma_concat_lacks("state="@, state, '&');

    let page = "https://accounts.spotify.com/authorize"@;
    let kind = "response_type=code"@;
    let client_key = "client_id="@;
    let start = "https://accounts.spotify.com/authorize?response_type=code&client_id="@;
    let middle = cfg.spotify_client_id + "&scope="@ + form_encoded(encode_utf8(SCOPES@)) + "&redirect_uri="@
        + form_encoded(encode_utf8(cfg.spotify_redirect_uri));
    let last = "state="@ + state;
    let url = auth_url(cfg, state);
    lemma_front_and_last(
        start,
        cfg.spotify_client_id,
        "&scope="@,
        form_encoded(encode_utf8(SCOPES@)),
        "&redirect_uri="@,
        form_encoded(encode_utf8(cfg.spotify_redirect_uri)),
        "state="@,
        state,
    );
    assert(url == start + middle + seq!['&'] + last);
    let behind = kind + seq!['&'] + client_key + middle;
    assert(url =~= page + (seq!['?'] + (behind + seq!['&'] + last)));
    lemma_first_index_behind(page, seq!['?'] + (behind + seq!['&'] + last), '?');
    assert(url.skip(page.len() as int + 1) =~= behind + seq!['&'] + last);
    lemma_split_last(behind, last, '&');
    lemma_split_on(last, Seq::empty(), '&');
}

/// The parts of the authorization link in front of the state, drawn together.
proof fn lemma_front_and_last(
    start: Seq<char>,
    client: Seq<char>,
    scope_key: Seq<char>,
    scope: Seq<char>,
    redirect_key: Seq<char>,
    redirect: Seq<char>,
    state_key: Seq<char>,
    state: Seq<char>,
)
    ensures
        start + client + scope_key + scope + redirect_key + redirect + (seq!['&'] + state_key) + state == start + (
        client + scope_key + scope + redirect_key + redirect) + seq!['&'] + (state_key + state),
{
    lemma_bracket(start, client, scope_key);
    lemma_bracket(start, client + scope_key, scope);
    lemma_bracket(start, client + scope_key + scope, redirect_key);
    lemma_bracket(start, client + scope_key + scope + redirect_key, redirect);
    let front = start + (client + scope_key + scope + redirect_key + redirect);
    lemma_bracket(front, seq!['&'], state_key);
    lemma_bracket(front + seq!['&'], state_key, state);
}

/// Links for different states differ.
pub proof fn law_auth_url_is_injective_in_state(cfg: ConfigView, left: Seq<char>, right: Seq<char>)
    requires
        auth_url(cfg, left) == auth_url(cfg, right),
    ensures
        left == right,
{
    let empty = auth_url(cfg, Seq::empty());
    assert(auth_url(cfg, left).skip(empty.len() as int) =~= left);
    assert(auth_url(cfg, right).skip(empty.len() as int) =~= right);
}

/// So many bytes take so many characters.
pub proof fn law_base64_length(bytes: Seq<u8>)
    ensures
        base64_text(bytes).len() == base64_len(bytes.len()),
    decreases bytes.len(),
{
    if bytes.len() >= 3 {
        law_base64_length(bytes.skip(3));
    }
}

/// Base64 digits that differ are written differently, and none is written as padding.
proof fn lemma_base64_char(left: int, right: int)
    requires
        0 <= left < 64,
        0 <= right < 64,
    ensures
        base64_char(left) == base64_char(right) ==> left == right,
        base64_char(left) != '=',
{
}

/// The byte at `index`, or zero behind the end.
spec fn byte_or_zero(bytes: Seq<u8>, index: int) -> int {
    if index < bytes.len() {
        bytes[index] as int
    } else {
        0
    }
}

/// The first four characters in base64: the digits of the first three bytes, with padding
/// in place of those that belong to no byte.
proof fn lemma_base64_group(bytes: Seq<u8>)
    requires
        bytes.len() > 0,
    ensures
        ({
            let text = base64_text(bytes);
            let a = byte_or_zero(bytes, 0);
            let b = byte_or_zero(bytes, 1);
            let c = byte_or_zero(bytes, 2);
            &&& text.len() >= 4
            &&& text[0] == base64_char(a / 4)
            &&& text[1] == base64_char(a % 4 * 16 + b / 16)
            &&& text[2] == (if bytes.len() >= 2 {
                base64_char(b % 16 * 4 + c / 64)
            } else {
                '='
            })
            &&& text[3] == (if bytes.len() >= 3 {
                base64_char(c % 64)
            } else {
                '='
            })
        }),
{
}

/// Three bytes are made out from their four digits.
proof fn lemma_base64_digits(a: int, b: int, c: int, x: int, y: int, z: int)
    requires
        0 <= a < 256,
        0 <= b < 256,
        0 <= c < 256,
        0 <= x < 256,
        0 <= y < 256,
        0 <= z < 256,
        a / 4 == x / 4,
        a % 4 * 16 + b / 16 == x % 4 * 16 + y / 16,
        b % 16 * 4 + c / 64 == y % 16 * 4 + z / 64,
        c % 64 == z % 64,
    ensures
        a == x,
        b == y,
        c == z,
{
}

/// Texts in base64 that are alike begin with the same bytes, up to three of them.
proof fn lemma_base64_same_group(left: Seq<u8>, right: Seq<u8>)
    requires
        left.len() > 0,
        right.len() > 0,
        base64_text(left) == base64_text(right),
    ensures
        left.len() >= 3 <==> right.len() >= 3,
        left.len() < 3 ==> left.len() == right.len(),
        byte_or_zero(left, 0) == byte_or_zero(right, 0),
        byte_or_zero(left, 1) == byte_or_zero(right, 1),
        byte_or_zero(left, 2) == byte_or_zero(right, 2),
{
    lemma_base64_group(left);
    lemma_base64_group(right);
    let a = byte_or_zero(left, 0);
    let b = byte_or_zero(left, 1);
    let c = byte_or_zero(left, 2);
    let x = byte_or_zero(right, 0);
    let y = byte_or_zero(right, 1);
    let z = byte_or_zero(right, 2);
    lemma_base64_char(a / 4, x / 4);
    lemma_base64_char(a % 4 * 16 + b / 16, x % 4 * 16 + y / 16);
    lemma_base64_char(b % 16 * 4 + c / 64, y % 16 * 4 + z / 64);
    lemma_base64_char(y % 16 * 4 + z / 64, b % 16 * 4 + c / 64);
    lemma_base64_char(c % 64, z % 64);
    lemma_base64_char(z % 64, c % 64);
    lemma_base64_digits(a, b, c, x, y, z);
}

/// Bytes that differ differ in base64.
#[verifier::spinoff_prover]
pub proof fn law_base64_is_injective(left: Seq<u8>, right: Seq<u8>)
    requires
        base64_text(left) == base64_text(right),
    ensures
        left == right,
    decreases left.len(),
{
    law_base64_length(left);
    law_base64_length(right);
    if left.len() == 0 || right.len() == 0 {
        assert(left =~= right);
    } else {
        lemma_base64_same_group(left, right);
        assert(left[0] as int == byte_or_zero(left, 0) && right[0] as int == byte_or_zero(right, 0));
        if left.len() >= 3 {
            assert(base64_text(left).skip(4) =~= base64_text(left.skip(3)));
            assert(base64_text(right).skip(4) =~= base64_text(right.skip(3)));
            law_base64_is_injective(left.skip(3), right.skip(3));
            assert forall|i: int| 0 <= i < left.len() implies left[i] == right[i] by {
                if i >= 3 {
                    assert(left.skip(3)[i - 3] == right.skip(3)[i - 3]);
                }
            }
        }
        assert(left =~= right);
    }
}

/// The header names one client and one secret: two sets of settings with the same header
/// have the same of both. A client id with a colon could not be told from its secret.
#[verifier::spinoff_prover]
pub proof fn law_basic_header_is_injective(left: ConfigView, right: ConfigView)
    requires
        basic_header(left) == basic_header(right),
        !left.spotify_client_id.contains(':'),
        !right.spotify_client_id.contains(':'),
    ensures
        left.spotify_client_id == right.spotify_client_id,
        left.spotify_client_secret == right.spotify_client_secret,
{
    reveal_strlit(":");
    let prefix = "Basic "@;
    assert(basic_header(left).skip(prefix.len() as int) =~= base64_text(encode_utf8(credentials(left))));
    assert(basic_header(right).skip(prefix.len() as int) =~= base64_text(encode_utf8(credentials(right))));
    law_base64_is_injective(encode_utf8(credentials(left)), encode_utf8(credentials(right)));
    encode_utf8_decode_utf8(credentials(left));
    encode_utf8_decode_utf8(credentials(right));
    let l = ":"@ + left.spotify_client_secret;
    let r = ":"@ + right.spotify_client_secret;
    assert(credentials(left) =~= left.spotify_client_id + l);
    assert(credentials(right) =~= right.spotify_client_id + r);
    lemma_first_index_behind(left.spotify_client_id, l, ':');
    lemma_first_index_behind(right.spotify_client_id, r, ':');
    let at = left.spotify_client_id.len() as int;
    assert(credentials(left).take(at) =~= left.spotify_client_id);
    assert(credentials(right).take(at) =~= right.spotify_client_id);
    assert(credentials(left).skip(at + 1) =~= left.spotify_client_secret);
    assert(credentials(right).skip(at + 1) =~= right.spotify_client_secret);
}

/// The authorization link is the page of Spotify's, a question mark and five parameters
/// with ampersands between, whatever the settings and the state hold.
pub proof fn law_auth_url_is_made_of_its_parameters(cfg: ConfigView, state: Seq<char>)
    ensures
        auth_url(cfg, state) == "https://accounts.spotify.com/authorize"@ + (seq!['?'] + ("response_type=code"@ + seq![
            '&',
        ] + (("client_id="@ + cfg.spotify_client_id) + seq!['&'] + (("scope="@ + form_encoded(encode_utf8(SCOPES@)))
            + seq!['&'] + (("redirect_uri="@ + form_encoded(encode_utf8(cfg.spotify_redirect_uri))) + seq!['&'] + (
        "state="@ + state)))))),
{
    lemma_auth_url_literals();
    lemma_regroup(
        "https://accounts.spotify.com/authorize"@,
        "response_type=code"@,
        "client_id="@,
        cfg.spotify_client_id,
        "scope="@,
        form_encoded(encode_utf8(SCOPES@)),
        "redirect_uri="@,
        form_encoded(encode_utf8(cfg.spotify_redirect_uri)),
        "state="@,
        state,
    );
}

/// The authorization link ends with the state, all of it, behind the name of the parameter;
/// what stands in front of it does not depend on the state.
pub proof fn law_auth_url_ends_with_the_state(cfg: ConfigView, state: Seq<char>)
    ensures
        auth_url(cfg, state) == auth_url(cfg, Seq::empty()) + state,
        "&state="@.is_suffix_of(auth_url(cfg, Seq::empty())),
{
    let empty = auth_url(cfg, Seq::empty());
    assert(auth_url(cfg, state) =~= empty + state);
    assert(empty.subrange(empty.len() - "&state="@.len(), empty.len() as int) =~= "&state="@);
}

/// The request for tokens carries the code, all of it, and the place to come back to that
/// the authorization link names, and it names the bot by its id and its secret.
pub proof fn law_token_request_is_complete(cfg: ConfigView, code: Seq<char>)
    ensures
        exchange_request(cfg, code).code == code,
        exchange_request(cfg, code).redirect_uri == cfg.spotify_redirect_uri,
        exchange_request(cfg, code).grant_type == "authorization_code"@,
        exchange_request(cfg, code).url == "https://accounts.spotify.com/api/token"@,
        stripped(exchange_request(cfg, code).authorization, "Basic "@) == Some(
            base64_text(encode_utf8(cfg.spotify_client_id + seq![':'] + cfg.spotify_client_secret)),
        ),
{
    reveal_strlit(":");
    assert(":"@ =~= seq![':']);
    law_stripping_undoes_prepending("Basic "@, base64_text(encode_utf8(credentials(cfg))));
}

/// What a request for tokens holds is what its texts are, each in its own place.
pub proof fn law_request_is_whole(request: TokenRequest)
    ensures
        request@.url == request.url@,
        request@.authorization == request.authorization@,
        request@.grant_type == request.grant_type@,
        request@.code == request.code@,
        request@.redirect_uri == request.redirect_uri@,
{
}

/// Tokens come of an answer with a status in the two hundreds that could be read, and of
/// nothing else; a refusal keeps the body that it came with.
pub proof fn law_tokens_come_of_a_readable_success(
    status: u16,
    body: Option<String>,
    tokens: Option<TokenResponse>,
)
    ensures
        ({
            let error = reply_error(TokenReply::Answered { status, body, tokens });
            &&& error is None <==> status as int / 100 == 2 && tokens is Some
            &&& status as int / 100 == 2 && tokens is None ==> error == Some(ExchangeErrorView::Unreadable)
            &&& status as int / 100 != 2 ==> error is Some && error->0 is Refused
            &&& status as int / 100 != 2 && body is Some ==> error->0 == ExchangeErrorView::Refused(body->0@)
            &&& status as int / 100 != 2 && body is None ==> error->0 == ExchangeErrorView::Refused(Seq::empty())
        }),
        reply_error(TokenReply::Unanswered) == Some(ExchangeErrorView::RequestFailed),
        is_success_status(status) <==> status as int / 100 == 2,
{
}

/// An error is reported by its own sentence, and a refusal with all that Spotify said.
pub proof fn law_errors_are_reported_whole(body: String)
    ensures
        stripped(ExchangeError::Refused(body)@.message(), "Spotify token exchange error: "@) == Some(body@),
        ExchangeError::RequestFailed@.message() == "Token exchange request failed"@,
        ExchangeError::Unreadable@.message() == "Failed to parse token response"@,
{
    law_stripping_undoes_prepending("Spotify token exchange error: "@, body@);
}

/// A user goes by the display name where there is one, and by the id otherwise, and either
/// is taken whole; without a profile there is no name.
pub proof fn law_profile_gives_the_name(profile: Profile)
    ensures
        profile.display_name matches Some(name) ==> reply_name(ProfileReply::Found(profile)) == Ok::<_, ProfileError>(
            name@,
        ),
        profile.display_name is None ==> reply_name(ProfileReply::Found(profile)) == Ok::<_, ProfileError>(profile.id@),
        reply_name(ProfileReply::Unanswered) == Err::<Seq<char>, _>(ProfileError::RequestFailed),
        reply_name(ProfileReply::Unreadable) == Err::<Seq<char>, _>(ProfileError::Unreadable),
{
}

} // verus!
