//! OAuth sign-in: the providers' authorization and token endpoints, the request
//! parameters, and the reading of the callback and of the token answer.
use vstd::prelude::*;
use vstd::string::StringSliceAdditionalSpecFns;
use crate::text::{concat, owned, push_str, str_eq, to_uppercase, uppercase_of};

verus! {

/// OAuth flow parameters.
#[derive(Debug)]
pub struct OAuthFlowParams {
    pub provider: String,
    pub client_id: String,
    pub scope: String,
    pub redirect_uri: String,
}

/// The tokens an OAuth provider grants.
#[derive(Debug)]
pub struct OAuthResponse {
    pub access_token: String,
    pub refresh_token: Option<String>,
    pub expires_in: u64,
    pub token_type: String,
    pub id_token: Option<String>,
}

/// A byte that percent-encoding leaves as it is: an ASCII letter or digit, `-`, `.`,
/// `_` or `~`.
pub open spec fn url_safe(b: u8) -> bool {
    (48 <= b <= 57) || (65 <= b <= 90) || (97 <= b <= 122) || b == 45 || b == 46 || b == 95
        || b == 126
}

/// The upper-case hexadecimal digit for `d` (`0 <= d < 16`).
pub open spec fn upper_hex_digit(d: nat) -> char {
    if d < 10 {
        ((48 + d) as u8) as char
    } else {
        ((55 + d) as u8) as char
    }
}

/// Bytes percent-encoded: each safe byte as its character, every other byte as `%`
/// and two upper-case hexadecimal digits.
pub open spec fn percent_encoded(bytes: Seq<u8>) -> Seq<char>
    decreases bytes.len(),
{
    if bytes.len() == 0 {
        Seq::empty()
    } else {
        let b = bytes.last();
        percent_encoded(bytes.drop_last()) + if url_safe(b) {
            seq![b as char]
        } else {
            seq!['%', upper_hex_digit((b / 16) as nat), upper_hex_digit((b % 16) as nat)]
        }
    }
}

/// Percent-encodes the UTF-8 bytes of a text (urlencoding's `encode`).
///
/// Trusted: urlencoding's source keeps ASCII letters, digits, `-`, `.`, `_` and `~`
/// and writes every other byte as `%` and two upper-case hexadecimal digits.
#[verifier::external_body]
fn url_encode(s: &str) -> (res: String)
    ensures
        res@ == percent_encoded(s.spec_bytes()),
{
    urlencoding::encode(s).into_owned()
}

/// The redirect address of the local callback server on `port`.
pub fn redirect_uri(port: u16) -> (res: String)
    ensures
        res@ == "http://localhost:"@ + crate::text::decimal(port as nat),
{
    concat("http://localhost:", crate::text::decimal_string(port as u64).as_str())
}

/// The authorization page of a provider, without its parameters.
pub open spec fn authorize_base(provider: Seq<char>) -> Option<Seq<char>> {
    if provider == "google"@ {
        Some("https://accounts.google.com/o/oauth2/v2/auth"@)
    } else if provider == "github"@ {
        Some("https://github.com/login/oauth/authorize"@)
    } else if provider == "microsoft"@ {
        Some("https://login.microsoftonline.com/common/oauth2/v2.0/authorize"@)
    } else if provider == "facebook"@ {
        Some("https://www.facebook.com/v18.0/dialog/oauth"@)
    } else {
        None
    }
}

/// The provider asks for `response_type=code` in its authorization address.
pub open spec fn wants_response_type(provider: Seq<char>) -> bool {
    provider == "google"@ || provider == "microsoft"@
}

/// The authorization address: the provider's page with the client id, the encoded
/// redirect address, `response_type=code` for Google and Microsoft, and the encoded
/// scope.
pub open spec fn authorization_url_text(
    provider: Seq<char>,
    client_id: Seq<char>,
    redirect_bytes: Seq<u8>,
    scope_bytes: Seq<u8>,
) -> Option<Seq<char>> {
    match authorize_base(provider) {
        Some(base) => Some(
            base + "?client_id="@ + client_id + "&redirect_uri="@ + percent_encoded(redirect_bytes)
                + (if wants_response_type(provider) {
                "&response_type=code"@
            } else {
                Seq::empty()
            }) + "&scope="@ + percent_encoded(scope_bytes),
        ),
        None => None,
    }
}

/// The address that starts the sign-in with a provider; an unknown provider is the
/// error `Unsupported OAuth provider: ` and its name.
pub fn authorization_url(provider: &str, client_id: &str, redirect_uri: &str, scope: &str) -> (res:
    Result<String, String>)
    ensures
        match authorization_url_text(provider@, client_id@, redirect_uri.spec_bytes(), scope.spec_bytes()) {
            Some(u) => res matches Ok(r) && r@ == u,
            None => res matches Err(e) && e@ == "Unsupported OAuth provider: "@ + provider@,
        },
{
    let base: &str = if str_eq(provider, "google") {
        "https://accounts.google.com/o/oauth2/v2/auth"
    } else if str_eq(provider, "github") {
        "https://github.com/login/oauth/authorize"
    } else if str_eq(provider, "microsoft") {
        "https://login.microsoftonline.com/common/oauth2/v2.0/authorize"
    } else if str_eq(provider, "facebook") {
        "https://www.facebook.com/v18.0/dialog/oauth"
    } else {
        return Err(concat("Unsupported OAuth provider: ", provider));
    };
    let mut url = concat(base, "?client_id=");
    push_str(&mut url, client_id);
    push_str(&mut url, "&redirect_uri=");
    let r = url_encode(redirect_uri);
    push_str(&mut url, r.as_str());
    if str_eq(provider, "google") || str_eq(provider, "microsoft") {
        push_str(&mut url, "&response_type=code");
    } else {
        proof {
            reveal_strlit("google");
            reveal_strlit("microsoft");
        }
    }
    push_str(&mut url, "&scope=");
    let s = url_encode(scope);
    push_str(&mut url, s.as_str());
    proof {
        if !wants_response_type(provider@) {
            assert(url@ =~= base@ + "?client_id="@ + client_id@ + "&redirect_uri="@
                + percent_encoded(redirect_uri.spec_bytes()) + Seq::<char>::empty() + "&scope="@
                + percent_encoded(scope.spec_bytes()));
        }
    }
    Ok(url)
}

/// The sign-in address of each provider: its authorization page, then the client id,
/// the percent-encoded redirect address, `response_type=code` for Google and Microsoft
/// (not for GitHub and Facebook), and the percent-encoded scope; no other provider has
/// one.
pub proof fn authorization_addresses(
    provider: Seq<char>,
    client_id: Seq<char>,
    redirect_bytes: Seq<u8>,
    scope_bytes: Seq<u8>,
)
    ensures
        authorization_url_text("google"@, client_id, redirect_bytes, scope_bytes) == Some(
            "https://accounts.google.com/o/oauth2/v2/auth"@ + "?client_id="@ + client_id + "&redirect_uri="@
                + percent_encoded(redirect_bytes) + "&response_type=code"@ + "&scope="@ + percent_encoded(scope_bytes),
        ),
        authorization_url_text("microsoft"@, client_id, redirect_bytes, scope_bytes) == Some(
            "https://login.microsoftonline.com/common/oauth2/v2.0/authorize"@ + "?client_id="@ + client_id + "&redirect_uri="@
                + percent_encoded(redirect_bytes) + "&response_type=code"@ + "&scope="@ + percent_encoded(scope_bytes),
        ),
        authorization_url_text("github"@, client_id, redirect_bytes, scope_bytes) == Some(
            "https://github.com/login/oauth/authorize"@ + "?client_id="@ + client_id + "&redirect_uri="@
                + percent_encoded(redirect_bytes) + "&scope="@ + percent_encoded(scope_bytes),
        ),
        authorization_url_text("facebook"@, client_id, redirect_bytes, scope_bytes) == Some(
            "https://www.facebook.com/v18.0/dialog/oauth"@ + "?client_id="@ + client_id + "&redirect_uri="@
                + percent_encoded(redirect_bytes) + "&scope="@ + percent_encoded(scope_bytes),
        ),
        provider != "google"@ && provider != "microsoft"@ && provider != "github"@ && provider
            != "facebook"@ ==> authorization_url_text(provider, client_id, redirect_bytes, scope_bytes) is None,
{
    reveal_strlit("google");
    reveal_strlit("microsoft");
    reveal_strlit("github");
    reveal_strlit("facebook");
    assert("google"@.len() == 6);
    assert("github"@.len() == 6);
    assert("microsoft"@.len() == 9);
    assert("facebook"@.len() == 8);
    assert("google"@[1] != "github"@[1]);
    assert(authorize_base("microsoft"@) == Some("https://login.microsoftonline.com/common/oauth2/v2.0/authorize"@));
    assert(wants_response_type("microsoft"@));
    assert(!wants_response_type("github"@));
    let gh = "https://github.com/login/oauth/authorize"@ + "?client_id="@ + client_id + "&redirect_uri="@
        + percent_encoded(redirect_bytes);
    assert(gh + Seq::<char>::empty() =~= gh);
    let fb = "https://www.facebook.com/v18.0/dialog/oauth"@ + "?client_id="@ + client_id
        + "&redirect_uri="@ + percent_encoded(redirect_bytes);
    assert(fb + Seq::<char>::empty() =~= fb);
}

/// The token endpoint of each provider, used to exchange a code and (except for GitHub)
/// to refresh a token; no other provider has one.
pub proof fn token_endpoints(provider: Seq<char>)
    ensures
        token_endpoint_text("google"@) == Some("https://oauth2.googleapis.com/token"@),
        token_endpoint_text("github"@) == Some("https://github.com/login/oauth/access_token"@),
        token_endpoint_text("microsoft"@) == Some(
            "https://login.microsoftonline.com/common/oauth2/v2.0/token"@,
        ),
        token_endpoint_text("facebook"@) == Some("https://graph.facebook.com/v18.0/oauth/access_token"@),
        provider != "google"@ && provider != "microsoft"@ && provider != "github"@ && provider
            != "facebook"@ ==> token_endpoint_text(provider) is None,
{
    reveal_strlit("google");
    reveal_strlit("microsoft");
    reveal_strlit("github");
    reveal_strlit("facebook");
    assert("google"@.len() == 6);
    assert("github"@.len() == 6);
    assert("microsoft"@.len() == 9);
    assert("facebook"@.len() == 8);
    assert("google"@[1] != "github"@[1]);
}

/// A provider's token endpoint.
pub open spec fn token_endpoint_text(provider: Seq<char>) -> Option<Seq<char>> {
    if provider == "google"@ {
        Some("https://oauth2.googleapis.com/token"@)
    } else if provider == "github"@ {
        Some("https://github.com/login/oauth/access_token"@)
    } else if provider == "microsoft"@ {
        Some("https://login.microsoftonline.com/common/oauth2/v2.0/token"@)
    } else if provider == "facebook"@ {
        Some("https://graph.facebook.com/v18.0/oauth/access_token"@)
    } else {
        None
    }
}

/// The token endpoint for exchanging a code; an unknown provider is the error
/// `Unsupported provider: ` and its name.
pub fn token_endpoint(provider: &str) -> (res: Result<String, String>)
    ensures
        match token_endpoint_text(provider@) {
            Some(u) => res matches Ok(r) && r@ == u,
            None => res matches Err(e) && e@ == "Unsupported provider: "@ + provider@,
        },
{
    if str_eq(provider, "google") {
        Ok(owned("https://oauth2.googleapis.com/token"))
    } else if str_eq(provider, "github") {
        Ok(owned("https://github.com/login/oauth/access_token"))
    } else if str_eq(provider, "microsoft") {
        Ok(owned("https://login.microsoftonline.com/common/oauth2/v2.0/token"))
    } else if str_eq(provider, "facebook") {
        Ok(owned("https://graph.facebook.com/v18.0/oauth/access_token"))
    } else {
        Err(concat("Unsupported provider: ", provider))
    }
}

/// The token endpoint for refreshing a token: as for exchanging a code, except that
/// GitHub's tokens cannot be refreshed (the error
/// `GitHub tokens do not expire and cannot be refreshed`).
pub fn refresh_endpoint(provider: &str) -> (res: Result<String, String>)
    ensures
        provider@ == "github"@ ==> (res matches Err(e) && e@
            == "GitHub tokens do not expire and cannot be refreshed"@),
        provider@ != "github"@ ==> match token_endpoint_text(provider@) {
            Some(u) => res matches Ok(r) && r@ == u,
            None => res matches Err(e) && e@ == "Unsupported provider: "@ + provider@,
        },
{
    if str_eq(provider, "github") {
        return Err(owned("GitHub tokens do not expire and cannot be refreshed"));
    }
    token_endpoint(provider)
}

/// The name of the environment variable that holds a provider's client secret: the
/// provider in upper case followed by `_CLIENT_SECRET`.
pub fn client_secret_var(provider: &str) -> (res: String)
    ensures
        res@ == uppercase_of(provider@) + "_CLIENT_SECRET"@,
{
    let up = to_uppercase(provider);
    concat(up.as_str(), "_CLIENT_SECRET")
}

/// The name of the environment variable that holds a provider's client id: the
/// provider in upper case followed by `_CLIENT_ID`.
pub fn client_id_var(provider: &str) -> (res: String)
    ensures
        res@ == uppercase_of(provider@) + "_CLIENT_ID"@,
{
    let up = to_uppercase(provider);
    concat(up.as_str(), "_CLIENT_ID")
}

/// The form of a code exchange: grant type `authorization_code`, the code, the client
/// id, the client secret and the redirect address, in that order.
pub fn code_exchange_form(code: &str, client_id: &str, client_secret: &str, redirect_uri: &str) -> (res:
    Vec<(String, String)>)
    ensures
        res@.len() == 5,
        res@[0].0@ == "grant_type"@ && res@[0].1@ == "authorization_code"@,
        res@[1].0@ == "code"@ && res@[1].1@ == code@,
        res@[2].0@ == "client_id"@ && res@[2].1@ == client_id@,
        res@[3].0@ == "client_secret"@ && res@[3].1@ == client_secret@,
        res@[4].0@ == "redirect_uri"@ && res@[4].1@ == redirect_uri@,
{
    let mut v: Vec<(String, String)> = Vec::new();
    v.push((owned("grant_type"), owned("authorization_code")));
    v.push((owned("code"), owned(code)));
    v.push((owned("client_id"), owned(client_id)));
    v.push((owned("client_secret"), owned(client_secret)));
    v.push((owned("redirect_uri"), owned(redirect_uri)));
    v
}

/// The form of a token refresh: grant type `refresh_token`, the refresh token, the
/// client id and the client secret, in that order.
pub fn refresh_form(refresh_token: &str, client_id: &str, client_secret: &str) -> (res: Vec<
    (String, String),
>)
    ensures
        res@.len() == 4,
        res@[0].0@ == "grant_type"@ && res@[0].1@ == "refresh_token"@,
        res@[1].0@ == "refresh_token"@ && res@[1].1@ == refresh_token@,
        res@[2].0@ == "client_id"@ && res@[2].1@ == client_id@,
        res@[3].0@ == "client_secret"@ && res@[3].1@ == client_secret@,
{
    let mut v: Vec<(String, String)> = Vec::new();
    v.push((owned("grant_type"), owned("refresh_token")));
    v.push((owned("refresh_token"), owned(refresh_token)));
    v.push((owned("client_id"), owned(client_id)));
    v.push((owned("client_secret"), owned(client_secret)));
    v
}

/// What parsing a callback address gives: the parser's error text, or the address's
/// query parameters, decoded, in order.
pub uninterp spec fn callback_query(url: Seq<char>) -> Result<Seq<(Seq<char>, Seq<char>)>, Seq<char>>;

/// The views of a list of text pairs.
pub open spec fn pair_texts(v: Seq<(String, String)>) -> Seq<(Seq<char>, Seq<char>)> {
    v.map_values(|p: (String, String)| (p.0@, p.1@))
}

/// Parses a callback address and lists its query parameters (url's `Url::parse` and
/// `query_pairs`).
///
/// Trusted: URL parsing and query decoding are not written out here; the result is
/// named [`callback_query`] of the address, on which url's functions depend alone.
#[verifier::external_body]
fn parse_callback_query(url: &str) -> (res: Result<Vec<(String, String)>, String>)
    ensures
        match callback_query(url@) {
            Ok(pairs) => res matches Ok(v) && pair_texts(v@) == pairs,
            Err(e) => res matches Err(m) && m@ == e,
        },
{
    match url::Url::parse(url) {
        Ok(parsed) => Ok(parsed.query_pairs().map(|(k, v)| (k.to_string(), v.to_string())).collect()),
        Err(e) => Err(e.to_string()),
    }
}

/// The value of the first `code` parameter among the pairs, if any.
pub open spec fn first_code(pairs: Seq<(Seq<char>, Seq<char>)>) -> Option<Seq<char>>
    decreases pairs.len(),
{
    if pairs.len() == 0 {
        None
    } else if pairs[0].0 == "code"@ {
        Some(pairs[0].1)
    } else {
        first_code(pairs.drop_first())
    }
}

/// The value of the first `code` parameter among the query parameters, if any.
pub fn find_code(pairs: &Vec<(String, String)>) -> (res: Option<String>)
    ensures
        match first_code(pair_texts(pairs@)) {
            Some(c) => res matches Some(r) && r@ == c,
            None => res is None,
        },
{
    let mut k: usize = 0;
    assert(pair_texts(pairs@).skip(0) =~= pair_texts(pairs@));
    while k < pairs.len()
        invariant
            k <= pairs.len(),
            first_code(pair_texts(pairs@).skip(k as int)) == first_code(pair_texts(pairs@)),
        decreases pairs.len() - k,
    {
        let ghost rest = pair_texts(pairs@).skip(k as int);
        assert(rest[0] == (pairs@[k as int].0@, pairs@[k as int].1@));
        assert(rest.drop_first() =~= pair_texts(pairs@).skip(k + 1));
        if str_eq(pairs[k].0.as_str(), "code") {
            return Some(pairs[k].1.clone());
        }
        k = k + 1;
    }
    assert(pair_texts(pairs@).skip(k as int) =~= Seq::<(Seq<char>, Seq<char>)>::empty());
    None
}

/// The authorization code from the parsed callback: the parser's error becomes
/// `Failed to parse callback URL: ` and the error; a missing `code` parameter is the
/// error `No authorization code in callback URL`.
pub fn code_from_callback(parsed: Result<Vec<(String, String)>, String>) -> (res: Result<String, String>)
    ensures
        match parsed {
            Ok(pairs) => match first_code(pair_texts(pairs@)) {
                Some(c) => res matches Ok(r) && r@ == c,
                None => res matches Err(e) && e@ == "No authorization code in callback URL"@,
            },
            Err(m) => res matches Err(e) && e@ == "Failed to parse callback URL: "@ + m@,
        },
{
    match parsed {
        Ok(pairs) => match find_code(&pairs) {
            Some(c) => Ok(c),
            None => Err(owned("No authorization code in callback URL")),
        },
        Err(m) => Err(concat("Failed to parse callback URL: ", m.as_str())),
    }
}

/// The authorization code in the callback address the provider redirected to.
pub fn authorization_code(callback_url: &str) -> (res: Result<String, String>)
    ensures
        match callback_query(callback_url@) {
            Ok(pairs) => match first_code(pairs) {
                Some(c) => res matches Ok(r) && r@ == c,
                None => res matches Err(e) && e@ == "No authorization code in callback URL"@,
            },
            Err(m) => res matches Err(e) && e@ == "Failed to parse callback URL: "@ + m,
        },
{
    code_from_callback(parse_callback_query(callback_url))
}

/// `r` holds the tokens of an answer with the given fields (see [`token_response`]).
pub open spec fn grants(
    r: OAuthResponse,
    access_token: String,
    refresh_token: Option<String>,
    expires_in: Option<u64>,
    token_type: Option<String>,
    id_token: Option<String>,
    fallback_refresh: Option<String>,
) -> bool {
    &&& r.access_token == access_token
    &&& r.refresh_token == (if refresh_token is Some {
        refresh_token
    } else {
        fallback_refresh
    })
    &&& r.expires_in == (if expires_in is Some {
        expires_in->Some_0
    } else {
        3600
    })
    &&& (if token_type is Some {
        r.token_type == token_type->Some_0
    } else {
        r.token_type@ == "Bearer"@
    })
    &&& r.id_token == id_token
}

/// The tokens from the fields of a token answer: the access token is required (else
/// the error `Missing access_token`); the expiry defaults to 3600 seconds and the type to
/// `Bearer`; a missing refresh token is replaced by `fallback_refresh` (the token a
/// refresh was made with, none for a code exchange).
pub fn token_response(
    access_token: Option<String>,
    refresh_token: Option<String>,
    expires_in: Option<u64>,
    token_type: Option<String>,
    id_token: Option<String>,
    fallback_refresh: Option<String>,
) -> (res: Result<OAuthResponse, String>)
    ensures
        access_token is None ==> (res matches Err(e) && e@ == "Missing access_token"@),
        access_token is Some ==> (res matches Ok(r) && grants(
            r,
            access_token->Some_0,
            refresh_token,
            expires_in,
            token_type,
            id_token,
            fallback_refresh,
        )),
{
    let access = match access_token {
        Some(a) => a,
        None => {
            return Err(owned("Missing access_token"));
        },
    };
    let refresh = match refresh_token {
        Some(r) => Some(r),
        None => fallback_refresh,
    };
    let expires = match expires_in {
        Some(e) => e,
        None => 3600,
    };
    let kind = match token_type {
        Some(t) => t,
        None => owned("Bearer"),
    };
    Ok(OAuthResponse { access_token: access, refresh_token: refresh, expires_in: expires, token_type: kind, id_token })
}

/// The defaults of a token answer: without an expiry the tokens last 3600 seconds;
/// without a type they are `Bearer` tokens; without a refresh token the one held before
/// is kept; the access and identity tokens are taken as given.
pub proof fn token_defaults(r: OAuthResponse, access_token: String, id_token: Option<String>, fallback_refresh: Option<String>)
    requires
        grants(r, access_token, None, None, None, id_token, fallback_refresh),
    ensures
        r.expires_in == 3600,
        r.token_type@ == "Bearer"@,
        r.refresh_token == fallback_refresh,
        r.access_token == access_token,
        r.id_token == id_token,
{
}

} // verus!
