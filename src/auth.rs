use vstd::prelude::*;

verus! {

/// A URL of the `url` crate, carried through as it is.
#[verifier::external_type_specification]
#[verifier::external_body]
pub struct ExUrl(url::Url);

/// The provider's authorize endpoint; the login URL extends its query.
pub const AUTHORIZE_ENDPOINT: &'static str =
    "https://login.eveonline.com/v2/oauth/authorize/?response_type=code";

/// The provider's token endpoint, where a login code is exchanged.
pub const TOKEN_ENDPOINT: &'static str = "https://login.eveonline.com/v2/oauth/token";

/// The views of a sequence of scope names.
pub open spec fn scope_views(scopes: Seq<&str>) -> Seq<Seq<char>> {
    scopes.map_values(|s: &str| s@)
}

/// `parts` separated by single spaces, in order; empty when there are none.
pub open spec fn joined(parts: Seq<Seq<char>>) -> Seq<char>
    decreases parts.len(),
{
    if parts.len() == 0 {
        Seq::empty()
    } else if parts.len() == 1 {
        parts[0]
    } else {
        joined(parts.drop_last()) + seq![' '] + parts.last()
    }
}

/// Joining no scope gives the empty text, and joining one gives that scope.
pub proof fn lemma_joined_small(x: Seq<char>)
    ensures
        joined(Seq::empty()) == Seq::<char>::empty(),
        joined(seq![x]) == x,
{
}

/// Joining keeps order and puts one space at each seam: joining two
/// non-empty lists one after the other is joining each and putting a single
/// space between the two.
pub proof fn lemma_joined_concat(a: Seq<Seq<char>>, b: Seq<Seq<char>>)
    requires
        a.len() > 0,
        b.len() > 0,
    ensures
        joined(a + b) == joined(a) + seq![' '] + joined(b),
    decreases b.len(),
{
    assert((a + b).drop_last() =~= a + b.drop_last());
    assert((a + b).last() == b.last());
    if b.len() == 1 {
        assert(b.drop_last() =~= Seq::<Seq<char>>::empty());
        assert(a + b.drop_last() =~= a);
    } else {
        lemma_joined_concat(a, b.drop_last());
        assert(joined(a + b) =~= joined(a) + seq![' '] + joined(b));
    }
}

/// Joins the scope names with single spaces, keeping their order.
pub fn join_scopes(scopes: &[&str]) -> (r: String)
    ensures
        r@ == joined(scope_views(scopes@)),
{
    let mut r = String::new();
    let mut i: usize = 0;
    while i < scopes.len()
        invariant
            0 <= i <= scopes@.len(),
            r@ == joined(scope_views(scopes@).take(i as int)),
        decreases scopes@.len() - i,
    {
        let ghost parts = scope_views(scopes@);
        assert(parts.take(i + 1).drop_last() =~= parts.take(i as int));
        proof {
            reveal_strlit(" ");
        }
        if i > 0 {
            r.append(" ");
        }
        r.append(scopes[i]);
        assert(parts.take(i + 1).last() == scopes@[i as int]@);
        if i == 0 {
            assert(r@ =~= joined(parts.take(1)));
        }
        i = i + 1;
    }
    assert(scope_views(scopes@).take(i as int) =~= scope_views(scopes@));
    r
}

/// The views of a list of name/value pairs.
pub open spec fn pair_views(pairs: Seq<(String, String)>) -> Seq<(Seq<char>, Seq<char>)> {
    pairs.map_values(|p: (String, String)| (p.0@, p.1@))
}

/// The query pairs that the login URL adds to the authorize endpoint.
pub open spec fn login_pairs(
    redirect_uri: Seq<char>,
    client_id: Seq<char>,
    scopes: Seq<Seq<char>>,
    state: Seq<char>,
) -> Seq<(Seq<char>, Seq<char>)> {
    seq![
        ("redirect_uri"@, redirect_uri),
        ("client_id"@, client_id),
        ("scopes"@, joined(scopes)),
        ("state"@, state),
    ]
}

/// The value of the first pair named `key`, if any.
pub open spec fn query_value(pairs: Seq<(Seq<char>, Seq<char>)>, key: Seq<char>) -> Option<
    Seq<char>,
>
    decreases pairs.len(),
{
    if pairs.len() == 0 {
        None
    } else if pairs[0].0 == key {
        Some(pairs[0].1)
    } else {
        query_value(pairs.drop_first(), key)
    }
}

/// The whole decoded query of the login URL: the endpoint's own
/// `response_type=code`, then the login pairs.
pub open spec fn login_query(
    redirect_uri: Seq<char>,
    client_id: Seq<char>,
    scopes: Seq<Seq<char>>,
    state: Seq<char>,
) -> Seq<(Seq<char>, Seq<char>)> {
    seq![("response_type"@, "code"@)] + login_pairs(redirect_uri, client_id, scopes, state)
}

/// Reading the login URL's decoded query back by name gives exactly the
/// inputs: `response_type` is `code`, `redirect_uri`, `client_id` and `state`
/// are unchanged, and `scopes` is the scopes joined by single spaces in their
/// order.
pub proof fn lemma_login_query_read_back(
    redirect_uri: Seq<char>,
    client_id: Seq<char>,
    scopes: Seq<Seq<char>>,
    state: Seq<char>,
)
    ensures
        query_value(login_query(redirect_uri, client_id, scopes, state), "response_type"@) == Some(
            "code"@,
        ),
        query_value(login_query(redirect_uri, client_id, scopes, state), "redirect_uri"@) == Some(
            redirect_uri,
        ),
        query_value(login_query(redirect_uri, client_id, scopes, state), "client_id"@) == Some(
            client_id,
        ),
        query_value(login_query(redirect_uri, client_id, scopes, state), "scopes"@) == Some(
            joined(scopes),
        ),
        query_value(login_query(redirect_uri, client_id, scopes, state), "state"@) == Some(state),
{
    reveal_strlit("response_type");
    reveal_strlit("redirect_uri");
    reveal_strlit("client_id");
    reveal_strlit("scopes");
    reveal_strlit("state");
    let p = login_query(redirect_uri, client_id, scopes, state);
    assert("response_type"@[2] != "redirect_uri"@[2]);
    assert("response_type"@[0] != "client_id"@[0]);
    assert("response_type"@[0] != "scopes"@[0]);
    assert("response_type"@[0] != "state"@[0]);
    assert("redirect_uri"@[0] != "client_id"@[0]);
    assert("redirect_uri"@[0] != "scopes"@[0]);
    assert("redirect_uri"@[0] != "state"@[0]);
    assert("client_id"@[0] != "scopes"@[0]);
    assert("client_id"@[0] != "state"@[0]);
    assert("scopes"@[1] != "state"@[1]);
    let p1 = p.drop_first();
    let p2 = p1.drop_first();
    let p3 = p2.drop_first();
    let p4 = p3.drop_first();
    assert(p1[0] == p[1]);
    assert(p2[0] == p[2]);
    assert(p3[0] == p[3]);
    assert(p4[0] == p[4]);
    assert(query_value(p, "redirect_uri"@) == query_value(p1, "redirect_uri"@));
    assert(query_value(p, "client_id"@) == query_value(p1, "client_id"@));
    assert(query_value(p1, "client_id"@) == query_value(p2, "client_id"@));
    assert(query_value(p, "scopes"@) == query_value(p1, "scopes"@));
    assert(query_value(p1, "scopes"@) == query_value(p2, "scopes"@));
    assert(query_value(p2, "scopes"@) == query_value(p3, "scopes"@));
    assert(query_value(p, "state"@) == query_value(p1, "state"@));
    assert(query_value(p1, "state"@) == query_value(p2, "state"@));
    assert(query_value(p2, "state"@) == query_value(p3, "state"@));
    assert(query_value(p3, "state"@) == query_value(p4, "state"@));
}

/// The query pairs of the login URL for these inputs: each input unchanged,
/// the scopes joined by spaces in their order.
pub fn login_query_pairs(redirect_uri: &str, client_id: &str, scopes: &[&str], state: &str) -> (r:
    Vec<(String, String)>)
    ensures
        pair_views(r@) == login_pairs(redirect_uri@, client_id@, scope_views(scopes@), state@),
{
    let joined_scopes = join_scopes(scopes);
    let r = vec![
        (String::from_str("redirect_uri"), redirect_uri.to_owned()),
        (String::from_str("client_id"), client_id.to_owned()),
        (String::from_str("scopes"), joined_scopes),
        (String::from_str("state"), state.to_owned()),
    ];
    assert(pair_views(r@) =~= login_pairs(
        redirect_uri@,
        client_id@,
        scope_views(scopes@),
        state@,
    ));
    r
}

/// The URL that `url::Url::parse_with_params` makes of a base and query pairs.
pub uninterp spec fn url_with_params(base: Seq<char>, pairs: Seq<(Seq<char>, Seq<char>)>) -> url::Url;

/// The name/value pairs that `url::Url::query_pairs` decodes from a URL's
/// query, in order.
pub uninterp spec fn query_pairs_of(u: url::Url) -> Seq<(Seq<char>, Seq<char>)>;

/// Relies on `url::Url::parse_with_params`: parses `base` and appends the pairs,
/// form-urlencoded (`form_urlencoded::Serializer`) and in order, to its query.
/// `url::Url::query_pairs` decodes that query (`form_urlencoded::parse`) back
/// into the base's own pair followed by the given pairs. The one base admitted
/// is the authorize endpoint, an absolute https URL whose query is
/// `response_type=code`, which parses.
#[verifier::external_body]
fn authorize_url_with(base: &str, pairs: &Vec<(String, String)>) -> (r: url::Url)
    requires
        base@ == AUTHORIZE_ENDPOINT@,
    ensures
        r == url_with_params(base@, pair_views(pairs@)),
        query_pairs_of(r) == seq![("response_type"@, "code"@)] + pair_views(pairs@),
{
    url::Url::parse_with_params(base, pairs.iter()).expect("the authorize endpoint is a valid URL")
}

/// The login URL to redirect a user to: the authorize endpoint with the
/// query pairs `redirect_uri`, `client_id`, `scopes` (space-joined, in order)
/// and `state` appended. Its query decodes back to exactly those pairs after
/// `response_type=code`.
pub fn web_login_url(redirect_uri: &str, client_id: &str, scopes: &[&str], state: &str) -> (r:
    url::Url)
    ensures
        r == url_with_params(
            AUTHORIZE_ENDPOINT@,
            login_pairs(redirect_uri@, client_id@, scope_views(scopes@), state@),
        ),
        query_pairs_of(r) == login_query(redirect_uri@, client_id@, scope_views(scopes@), state@),
{
    let pairs = login_query_pairs(redirect_uri, client_id, scopes, state);
    authorize_url_with(AUTHORIZE_ENDPOINT, &pairs)
}

/// The standard, padded base64 encoding of the UTF-8 bytes of `text`.
pub uninterp spec fn base64_of(text: Seq<char>) -> Seq<char>;

/// Relies on `base64::Engine::encode` with the `STANDARD` engine: the padded
/// base64 of the text's UTF-8 bytes. The engine panics only where the encoded
/// length overflows `usize`, which the bound on the length leaves out.
#[verifier::external_body]
fn base64_encode(text: &str) -> (r: String)
    requires
        text@.len() <= usize::MAX / 8,
    ensures
        r@ == base64_of(text@),
{
    base64::Engine::encode(&base64::engine::general_purpose::STANDARD, text)
}

/// The value of the `Authorization` header of the token exchange.
pub open spec fn basic_auth(client_id: Seq<char>, secret: Seq<char>) -> Seq<char> {
    "Basic "@ + base64_of(client_id + ":"@ + secret)
}

/// HTTP Basic credentials for the token exchange: `Basic ` followed by the
/// base64 of `client_id:secret`.
pub fn basic_auth_value(client_id: &str, secret: &str) -> (r: String)
    requires
        client_id@.len() + secret@.len() < usize::MAX / 8,
    ensures
        r@ == basic_auth(client_id@, secret@),
{
    proof {
        reveal_strlit(":");
    }
    let credentials = client_id.to_owned().concat(":").concat(secret);
    let encoded = base64_encode(credentials.as_str());
    String::from_str("Basic ").concat(encoded.as_str())
}

/// The form body of the token exchange.
pub open spec fn token_form(code: Seq<char>) -> Seq<(Seq<char>, Seq<char>)> {
    seq![("grant_type"@, "authorization_code"@), ("code"@, code)]
}

/// The form fields posted to the token endpoint to exchange a login code.
pub fn token_request_form(code: &str) -> (r: Vec<(String, String)>)
    ensures
        pair_views(r@) == token_form(code@),
{
    let r = vec![
        (String::from_str("grant_type"), String::from_str("authorization_code")),
        (String::from_str("code"), code.to_owned()),
    ];
    assert(pair_views(r@) =~= token_form(code@));
    r
}

/// Claims carried in the signed access token.
#[derive(Clone, Debug)]
pub struct EsiClaims {
    /// Authorization scopes granted.
    pub scp: Vec<String>,
    /// Token id.
    pub jti: String,
    /// Key id, usually `JWT-Signature-Key`.
    pub kid: String,
    /// Subject, holding the character id, such as `CHARACTER:EVE:123456`.
    pub sub: String,
    /// Client id of the application the token was issued to.
    pub azp: String,
    /// Name of the authenticated character.
    pub name: String,
    /// Owner hash; it changes when the character moves to another account.
    pub owner: String,
    /// Expiry, in seconds after the Unix epoch.
    pub exp: u64,
    /// Issuer, which should be `login.eveonline.com`.
    pub iss: String,
}

/// The token endpoint's answer, before the access token is checked.
#[derive(Clone, Debug)]
pub struct UnvalidatedToken {
    /// The signed access token.
    pub access_token: String,
    /// Advisory lifetime in seconds; the signed `exp` claim is what counts.
    pub expires_in: u64,
    /// Kind of token issued.
    pub token_type: String,
    /// Token that mints new access tokens; keep it secret.
    pub refresh_token: String,
}

/// A validated token, usable for privileged calls.
#[derive(Clone, Debug)]
pub struct AuthToken {
    /// The signed access token.
    pub access_token: String,
    /// Its verified claims.
    pub claims: EsiClaims,
    /// When it expires, in seconds after the Unix epoch.
    pub expires_at: u64,
    /// Kind of token issued.
    pub token_type: String,
    /// Token that mints new access tokens; keep it secret.
    pub refresh_token: String,
}

/// Why a login attempt failed. Each is final for the attempt: a login code
/// is single-use, so nothing is retried.
#[derive(Debug)]
pub enum Code2TokenError {
    /// The token endpoint could not be reached, or the transfer failed.
    TransportError(String),
    /// The answer did not have the expected shape.
    DecodeError(String),
    /// The access token's signature or standard claims did not verify.
    ValidationError(String),
    /// The token verified but names another issuer, held here.
    IssuerMismatchError(String),
}

/// What became of the call to the token endpoint.
#[derive(Debug)]
pub enum ExchangeOutcome {
    /// The endpoint was not reached, or the transfer failed.
    TransportFailed(String),
    /// The body arrived but did not decode into a token.
    Undecodable(String),
    /// The body decoded into a token.
    Received(UnvalidatedToken),
}

/// The result of a token exchange, given what the call to the endpoint gave.
pub fn exchange_result(outcome: ExchangeOutcome) -> (r: Result<UnvalidatedToken, Code2TokenError>)
    ensures
        match outcome {
            ExchangeOutcome::TransportFailed(m) => r == Err::<UnvalidatedToken, Code2TokenError>(
                Code2TokenError::TransportError(m),
            ),
            ExchangeOutcome::Undecodable(m) => r == Err::<UnvalidatedToken, Code2TokenError>(
                Code2TokenError::DecodeError(m),
            ),
            ExchangeOutcome::Received(t) => r == Ok::<UnvalidatedToken, Code2TokenError>(t),
        },
{
    match outcome {
        ExchangeOutcome::TransportFailed(m) => Err(Code2TokenError::TransportError(m)),
        ExchangeOutcome::Undecodable(m) => Err(Code2TokenError::DecodeError(m)),
        ExchangeOutcome::Received(t) => Ok(t),
    }
}

/// Whether two texts are equal. Every character position is compared, so
/// how long it takes does not tell where the first difference is.
pub fn same_text(a: &str, b: &str) -> (r: bool)
    ensures
        r == (a@ == b@),
{
    let n = a.unicode_len();
    if n != b.unicode_len() {
        return false;
    }
    let mut same = true;
    let mut i: usize = 0;
    while i < n
        invariant
            n == a@.len() == b@.len(),
            0 <= i <= n,
            same == (forall|k: int| 0 <= k < i ==> a@[k] == b@[k]),
        decreases n - i,
    {
        let c = a.get_char(i);
        let d = b.get_char(i);
        let equal_here = c == d;
        same = same && equal_here;
        i = i + 1;
    }
    if same {
        assert(a@ =~= b@);
    }
    same
}

/// The token made of a raw token and its verified claims: it expires at the
/// signed `exp`, not after the advisory `expires_in`.
pub open spec fn token_of(raw: UnvalidatedToken, claims: EsiClaims) -> AuthToken {
    AuthToken {
        access_token: raw.access_token,
        claims: claims,
        expires_at: claims.exp,
        token_type: raw.token_type,
        refresh_token: raw.refresh_token,
    }
}

/// Validates a raw token, given what signature verification of its access
/// token gave: the decoded claims, or why they failed to verify. A failed
/// verification is a `ValidationError`; verified claims from another issuer
/// than `expected_issuer` are an `IssuerMismatchError`; otherwise the token
/// expires at the claims' `exp`.
pub fn validate_token(
    raw: UnvalidatedToken,
    verified: Result<EsiClaims, String>,
    expected_issuer: &str,
) -> (r: Result<AuthToken, Code2TokenError>)
    ensures
        match verified {
            Err(m) => r == Err::<AuthToken, Code2TokenError>(Code2TokenError::ValidationError(m)),
            Ok(c) => if c.iss@ == expected_issuer@ {
                r == Ok::<AuthToken, Code2TokenError>(token_of(raw, c))
            } else {
                r == Err::<AuthToken, Code2TokenError>(
                    Code2TokenError::IssuerMismatchError(c.iss),
                )
            },
        },
{
    match verified {
        Err(m) => Err(Code2TokenError::ValidationError(m)),
        Ok(claims) => {
            if same_text(claims.iss.as_str(), expected_issuer) {
                let expires_at = claims.exp;
                Ok(
                    AuthToken {
                        access_token: raw.access_token,
                        claims: claims,
                        expires_at: expires_at,
                        token_type: raw.token_type,
                        refresh_token: raw.refresh_token,
                    },
                )
            } else {
                Err(Code2TokenError::IssuerMismatchError(claims.iss))
            }
        },
    }
}

/// The login code of a callback, if its `state` is exactly the one issued in
/// the login URL; `None` rejects the callback, whatever its code.
pub fn accept_callback(issued_state: &str, code: &str, state: &str) -> (r: Option<String>)
    ensures
        state@ == issued_state@ ==> r is Some && r->Some_0@ == code@,
        state@ != issued_state@ ==> r is None,
{
    if same_text(state, issued_state) {
        Some(code.to_owned())
    } else {
        None
    }
}

} // verus!
