use vstd::prelude::*;
use crate::auth::error::{auth_error_status, AuthError};
use crate::text::{concat, owned, str_equal};

verus! {

/// Where the identity provider is and whom its tokens are for.
#[derive(Clone, Debug)]
pub struct Auth0Config {
    audience: String,
    domain: String,
}

/// The address of the identity provider's key set.
pub open spec fn jwks_url_of(domain: Seq<char>) -> Seq<char> {
    "https://"@ + domain + "/.well-known/jwks.json"@
}

/// The issuer the identity provider's tokens name.
pub open spec fn issuer_of(domain: Seq<char>) -> Seq<char> {
    "https://"@ + domain + "/"@
}

/// How a token is checked: signed with RS256, for the configured audience,
/// by the configured issuer.
#[derive(Clone, Debug)]
pub struct ClaimsValidation {
    pub algorithm: String,
    pub audience: String,
    pub issuer: String,
}

impl Auth0Config {
    pub closed spec fn audience_view(&self) -> Seq<char> {
        self.audience@
    }

    pub closed spec fn domain_view(&self) -> Seq<char> {
        self.domain@
    }

    pub fn new(audience: String, domain: String) -> (c: Auth0Config)
        ensures
            c.audience_view() == audience@,
            c.domain_view() == domain@,
    {
        Auth0Config { audience, domain }
    }

    pub fn domain(&self) -> (s: &str)
        ensures
            s@ == self.domain_view(),
    {
        self.domain.as_str()
    }

    /// The address the key set is fetched from.
    pub fn jwks_url(&self) -> (s: String)
        ensures
            s@ == jwks_url_of(self.domain_view()),
    {
        let s = concat("https://", self.domain.as_str());
        s.concat("/.well-known/jwks.json")
    }

    /// How tokens signed with an RSA key are checked.
    pub fn validation(&self) -> (v: ClaimsValidation)
        ensures
            v.algorithm@ == "RS256"@,
            v.audience@ == self.audience_view(),
            v.issuer@ == issuer_of(self.domain_view()),
    {
        let issuer = concat("https://", self.domain.as_str());
        ClaimsValidation {
            algorithm: owned("RS256"),
            audience: self.audience.clone(),
            issuer: issuer.concat("/"),
        }
    }
}

/// The claims a token carries.
#[derive(Debug, Clone)]
pub struct Claims {
    pub permissions: Option<Vec<String>>,
    pub sub: Option<String>,
    pub role: Option<String>,
    pub exp: Option<usize>,
    pub scope: Option<String>,
}

/// Whether a list of permissions holds the given permission.
pub open spec fn holds(held: Seq<String>, permission: Seq<char>) -> bool {
    exists|j: int| 0 <= j < held.len() && #[trigger] held[j]@ == permission
}

/// Whether a list of permissions holds every permission required.
pub open spec fn holds_all(held: Seq<String>, required: Seq<String>) -> bool {
    forall|i: int| 0 <= i < required.len() ==> #[trigger] holds(held, required[i]@)
}

impl Claims {
    /// Whether the token grants every required permission; a token without
    /// permissions grants none.
    pub fn validate_permissions(&self, required_permissions: &Vec<String>) -> (r: bool)
        ensures
            r == (self.permissions is Some && holds_all(self.permissions->0@, required_permissions@)),
    {
        let permissions = match &self.permissions {
            Some(p) => p,
            None => return false,
        };
        let mut i: usize = 0;
        while i < required_permissions.len()
            invariant
                i <= required_permissions@.len(),
                self.permissions == Some(*permissions),
                holds_all(permissions@, required_permissions@.subrange(0, i as int)),
            decreases required_permissions@.len() - i,
        {
            let mut found = false;
            let mut j: usize = 0;
            while j < permissions.len()
                invariant
                    j <= permissions@.len(),
                    i < required_permissions@.len(),
                    found == exists|k: int| 0 <= k < j && permissions@[k]@ == required_permissions@[i as int]@,
                decreases permissions@.len() - j,
            {
                if permissions[j] == required_permissions[i] {
                    found = true;
                }
                j = j + 1;
            }
            if !found {
                proof {
                    let r = required_permissions@[i as int];
                    assert(forall|k: int| 0 <= k < permissions@.len() ==> permissions@[k]@ != r@);
                    if holds_all(permissions@, required_permissions@) {
                        assert(holds(permissions@, r@));
                        assert(false);
                    }
                }
                return false;
            }
            assert forall|a: int| 0 <= a < i + 1 implies #[trigger] holds(permissions@, required_permissions@.subrange(0, i + 1)[a]@) by {
                if a < i {
                    assert(required_permissions@.subrange(0, i + 1)[a] == required_permissions@.subrange(0, i as int)[a]);
                }
            }
            i = i + 1;
        }
        assert(required_permissions@.subrange(0, i as int) =~= required_permissions@);
        true
    }
}

/// Requiring fewer permissions never turns a granted request down: a token
/// that grants a list grants every list drawn from it.
pub proof fn lemma_permissions_monotone(claims: Claims, required: Seq<String>, fewer: Seq<String>)
    requires
        claims.permissions is Some,
        holds_all(claims.permissions->0@, required),
        holds_all(required, fewer),
    ensures
        holds_all(claims.permissions->0@, fewer),
{
    let held = claims.permissions->0@;
    assert forall|i: int| 0 <= i < fewer.len() implies #[trigger] holds(held, fewer[i]@) by {
        assert(holds(required, fewer[i]@));
        let j = choose|j: int| 0 <= j < required.len() && #[trigger] required[j]@ == fewer[i]@;
        assert(holds(held, required[j]@));
    }
}

/// The points at which reading a request's claims can fail.
#[derive(Clone, Copy, Debug, PartialEq, Eq, Structural)]
pub enum ClaimsFailure {
    /// The application holds no identity provider configuration.
    ConfigNotFound,
    /// The request carries no bearer credentials.
    NoCredentials,
    /// The token's header cannot be decoded.
    HeaderNotDecoded,
    /// The token's header names no key.
    NoKeyId,
    /// The key set's address cannot be built from the domain.
    BadWellKnownAddress,
    /// The key set cannot be fetched.
    KeySetNotFetched,
    /// The key set cannot be read.
    KeySetNotRead,
    /// The key set holds no key with the header's key id.
    KeyNotFound,
    /// The key is not an RSA key.
    UnsupportedAlgorithm,
    /// No decoding key can be made from the RSA key.
    DecodingKeyNotMade,
    /// The token does not decode to claims under the validation.
    ClaimsNotDecoded,
}

/// The description a request is turned down with at each failure point.
pub open spec fn claims_failure_message(f: ClaimsFailure) -> Seq<char> {
    match f {
        ClaimsFailure::ConfigNotFound => "Config not found"@,
        ClaimsFailure::NoCredentials => "Can't get credentials"@,
        ClaimsFailure::HeaderNotDecoded => "Can't decode"@,
        ClaimsFailure::NoKeyId => "Can't get KID"@,
        ClaimsFailure::BadWellKnownAddress => "Can't get well known"@,
        ClaimsFailure::KeySetNotFetched => "JWKS Not found"@,
        ClaimsFailure::KeySetNotRead => "Can't deserialize JWKS"@,
        ClaimsFailure::KeyNotFound => "Can't find JWK"@,
        ClaimsFailure::UnsupportedAlgorithm => "Can't decode"@,
        ClaimsFailure::DecodingKeyNotMade => "Can't get decoding key"@,
        ClaimsFailure::ClaimsNotDecoded => "Can't get claims"@,
    }
}

/// Every failure to read a request's claims turns the request down as
/// unauthorized, with the description of the failure point.
pub fn claims_failure(f: ClaimsFailure) -> (e: AuthError)
    ensures
        e matches AuthError::Unauthorized(m) && m@ == claims_failure_message(f),
{
    let m = match f {
        ClaimsFailure::ConfigNotFound => "Config not found",
        ClaimsFailure::NoCredentials => "Can't get credentials",
        ClaimsFailure::HeaderNotDecoded => "Can't decode",
        ClaimsFailure::NoKeyId => "Can't get KID",
        ClaimsFailure::BadWellKnownAddress => "Can't get well known",
        ClaimsFailure::KeySetNotFetched => "JWKS Not found",
        ClaimsFailure::KeySetNotRead => "Can't deserialize JWKS",
        ClaimsFailure::KeyNotFound => "Can't find JWK",
        ClaimsFailure::UnsupportedAlgorithm => "Can't decode",
        ClaimsFailure::DecodingKeyNotMade => "Can't get decoding key",
        ClaimsFailure::ClaimsNotDecoded => "Can't get claims",
    };
    AuthError::Unauthorized(owned(m))
}

/// What `jsonwebtoken::decode_header` reads from a token: `None` when the
/// header does not decode, otherwise the key id the header names, if any.
pub uninterp spec fn token_key_id(token: Seq<char>) -> Option<Option<Seq<char>>>;

/// Whether the HTTP layer's URI builder accepts a scheme, an authority and
/// a path with query.
pub uninterp spec fn uri_accepted(scheme: Seq<char>, authority: Seq<char>, path_and_query: Seq<char>) -> bool;

/// The view of a decoded key id.
pub open spec fn key_id_view(k: Option<Option<String>>) -> Option<Option<Seq<char>>> {
    match k {
        None => None,
        Some(None) => Some(None),
        Some(Some(kid)) => Some(Some(kid@)),
    }
}

/// `jsonwebtoken::decode_header`, keeping the key id: the header is the
/// token's first dot-separated part, base64url-decoded and read as JSON, so
/// the result depends on the token alone.
#[verifier::external_body]
fn header_key_id(token: &str) -> (r: Option<Option<String>>)
    ensures
        key_id_view(r) == token_key_id(token@),
{
    match jsonwebtoken::decode_header(token) {
        Ok(header) => Some(header.kid),
        Err(_) => None,
    }
}

/// `Uri::builder()` of the HTTP layer with a scheme, an authority and a path
/// with query: whether `build` succeeds, which depends on the three parts
/// alone.
#[verifier::external_body]
fn uri_builds(scheme: &str, authority: &str, path_and_query: &str) -> (r: bool)
    ensures
        r == uri_accepted(scheme@, authority@, path_and_query@),
{
    actix_web::http::Uri::builder()
        .scheme(scheme)
        .authority(authority)
        .path_and_query(path_and_query)
        .build()
        .is_ok()
}

/// The modulus and exponent of an RSA public key, base64url-encoded.
#[derive(Clone, Debug)]
pub struct RsaComponents {
    pub n: String,
    pub e: String,
}

/// A key of the identity provider's key set, as far as reading claims looks
/// at it: the key id it names, if any, and its RSA components when it is an
/// RSA key.
#[derive(Clone, Debug)]
pub struct KeySetEntry {
    pub key_id: Option<String>,
    pub rsa: Option<RsaComponents>,
}

/// Whether a key of the key set names the given key id.
pub open spec fn names_key_id(entry: KeySetEntry, kid: Seq<char>) -> bool {
    entry.key_id matches Some(k) && k@ == kid
}

/// The key that a key id selects in a key set: the first that names it.
pub open spec fn selects_key(keys: Seq<KeySetEntry>, kid: Seq<char>, i: int) -> bool {
    &&& 0 <= i < keys.len()
    &&& names_key_id(keys[i], kid)
    &&& forall|j: int| 0 <= j < i ==> !names_key_id(#[trigger] keys[j], kid)
}

/// Finds the key a key id selects: the position of the first key of the set
/// that names it, or `None` when no key does.
pub fn select_key(keys: &Vec<KeySetEntry>, kid: &str) -> (r: Option<usize>)
    ensures
        match r {
            Some(i) => selects_key(keys@, kid@, i as int),
            None => forall|j: int| 0 <= j < keys@.len() ==> !names_key_id(#[trigger] keys@[j], kid@),
        },
{
    let mut i: usize = 0;
    while i < keys.len()
        invariant
            i <= keys@.len(),
            forall|j: int| 0 <= j < i ==> !names_key_id(#[trigger] keys@[j], kid@),
        decreases keys@.len() - i,
    {
        let named = match &keys[i].key_id {
            Some(k) => str_equal(k.as_str(), kid),
            None => false,
        };
        if named {
            return Some(i);
        }
        i = i + 1;
    }
    None
}

/// The stages of reading a request's claims, in order.
#[derive(Clone, Debug)]
pub enum ClaimsStage {
    /// Look up the identity provider configuration.
    Start,
    /// Read the bearer token from the request.
    NeedToken(Auth0Config),
    /// Fetch and read the key set from the given address; the token's
    /// header names the key id.
    NeedKeySet { config: Auth0Config, token: String, kid: String, url: String },
    /// Make a decoding key from the selected RSA key and decode the token
    /// under the validation.
    NeedClaims { validation: ClaimsValidation, token: String, key: RsaComponents },
}

/// What the caller learned at a stage.
#[derive(Clone, Debug)]
pub enum ClaimsEvent {
    Config(Option<Auth0Config>),
    Token(Option<String>),
    /// Whether the key set was fetched, and its keys when it was read.
    KeySet { fetched: bool, keys: Option<Vec<KeySetEntry>> },
    /// Whether a decoding key could be made, and the claims if decoded.
    Decoded { key_made: bool, claims: Option<Claims> },
}

/// Where reading the claims goes from a stage on an event.
#[derive(Debug)]
pub enum ClaimsStep {
    Next(ClaimsStage),
    Done(Result<Claims, AuthError>),
    /// The event does not belong to the stage.
    OutOfOrder,
}

/// Whether a step turns the request down as unauthorized at a failure point.
pub open spec fn refused_at(r: ClaimsStep, f: ClaimsFailure) -> bool {
    r matches ClaimsStep::Done(Err(AuthError::Unauthorized(m))) && m@ == claims_failure_message(f)
}

/// Where a token leads, given what its header names (`None` when it does
/// not decode) and whether the key set's address builds: the header must
/// name a key id, and the address must build.
pub open spec fn token_read_result(
    c: Auth0Config,
    t: String,
    key_id: Option<Option<Seq<char>>>,
    address_built: bool,
    r: ClaimsStep,
) -> bool {
    match key_id {
        None => refused_at(r, ClaimsFailure::HeaderNotDecoded),
        Some(None) => refused_at(r, ClaimsFailure::NoKeyId),
        Some(Some(kid)) => if !address_built {
            refused_at(r, ClaimsFailure::BadWellKnownAddress)
        } else {
            r matches ClaimsStep::Next(ClaimsStage::NeedKeySet { config, token, kid: k, url })
                && config == c && token == t && k@ == kid && url@ == jwks_url_of(c.domain_view())
        },
    }
}

/// Where a token leads once the configuration is known, given what its
/// header names and whether the key set's address builds.
pub fn token_read(c: Auth0Config, t: String, key_id: Option<Option<String>>, address_built: bool) -> (r: ClaimsStep)
    ensures
        token_read_result(c, t, key_id_view(key_id), address_built, r),
{
    match key_id {
        None => ClaimsStep::Done(Err(claims_failure(ClaimsFailure::HeaderNotDecoded))),
        Some(None) => ClaimsStep::Done(Err(claims_failure(ClaimsFailure::NoKeyId))),
        Some(Some(kid)) => {
            if !address_built {
                ClaimsStep::Done(Err(claims_failure(ClaimsFailure::BadWellKnownAddress)))
            } else {
                let url = c.jwks_url();
                ClaimsStep::Next(ClaimsStage::NeedKeySet { config: c, token: t, kid, url })
            }
        },
    }
}

/// Where a token leads once the configuration is known: its header is
/// decoded, and the key set's address built, by the outside crates.
pub open spec fn token_step(c: Auth0Config, t: String, r: ClaimsStep) -> bool {
    token_read_result(c, t, token_key_id(t@), uri_accepted("https"@, c.domain_view(), "/.well-known/jwks.json"@), r)
}

/// Where a read key set leads: the key the key id selects must exist and be
/// an RSA key; the token is then decoded with it, signed with RS256, for the
/// configured audience, by the configured issuer.
pub open spec fn key_selected(c: Auth0Config, t: String, kid: Seq<char>, keys: Seq<KeySetEntry>, r: ClaimsStep) -> bool {
    if forall|j: int| 0 <= j < keys.len() ==> !names_key_id(#[trigger] keys[j], kid) {
        refused_at(r, ClaimsFailure::KeyNotFound)
    } else {
        exists|i: int| #![trigger keys[i]] selects_key(keys, kid, i) && match keys[i].rsa {
            None => refused_at(r, ClaimsFailure::UnsupportedAlgorithm),
            Some(k) => r matches ClaimsStep::Next(ClaimsStage::NeedClaims { validation: v, token: t2, key })
                && t2 == t && key == k && v.algorithm@ == "RS256"@ && v.audience@ == c.audience_view()
                && v.issuer@ == issuer_of(c.domain_view()),
        }
    }
}

/// Where a read key set leads, by the key the token's key id selects.
pub fn key_read(c: Auth0Config, t: String, kid: &str, keys: Vec<KeySetEntry>) -> (r: ClaimsStep)
    ensures
        key_selected(c, t, kid@, keys@, r),
{
    let ghost all = keys@;
    match select_key(&keys, kid) {
        None => ClaimsStep::Done(Err(claims_failure(ClaimsFailure::KeyNotFound))),
        Some(i) => {
            let mut keys = keys;
            let entry = keys.remove(i);
            assert(entry == all[i as int]);
            match entry.rsa {
                None => ClaimsStep::Done(Err(claims_failure(ClaimsFailure::UnsupportedAlgorithm))),
                Some(key) => ClaimsStep::Next(ClaimsStage::NeedClaims { validation: c.validation(), token: t, key }),
            }
        },
    }
}

/// Takes reading a request's claims one stage further.
pub fn claims_step(stage: ClaimsStage, event: ClaimsEvent) -> (r: ClaimsStep)
    ensures
        match (stage, event) {
            (ClaimsStage::Start, ClaimsEvent::Config(None)) => refused_at(r, ClaimsFailure::ConfigNotFound),
            (ClaimsStage::Start, ClaimsEvent::Config(Some(c))) =>
                r matches ClaimsStep::Next(ClaimsStage::NeedToken(c2)) && c2 == c,
            (ClaimsStage::NeedToken(_), ClaimsEvent::Token(None)) => refused_at(r, ClaimsFailure::NoCredentials),
            (ClaimsStage::NeedToken(c), ClaimsEvent::Token(Some(t))) => token_step(c, t, r),
            (ClaimsStage::NeedKeySet { config, token, kid, url: _ }, ClaimsEvent::KeySet { fetched, keys }) =>
                if !fetched {
                    refused_at(r, ClaimsFailure::KeySetNotFetched)
                } else {
                    match keys {
                        None => refused_at(r, ClaimsFailure::KeySetNotRead),
                        Some(keys) => key_selected(config, token, kid@, keys@, r),
                    }
                },
            (ClaimsStage::NeedClaims { .. }, ClaimsEvent::Decoded { key_made, claims }) =>
                if !key_made {
                    refused_at(r, ClaimsFailure::DecodingKeyNotMade)
                } else {
                    match claims {
                        None => refused_at(r, ClaimsFailure::ClaimsNotDecoded),
                        Some(cl) => r matches ClaimsStep::Done(Ok(cl2)) && cl2 == cl,
                    }
                },
            _ => r is OutOfOrder,
        },
{
    match (stage, event) {
        (ClaimsStage::Start, ClaimsEvent::Config(config)) => match config {
            None => ClaimsStep::Done(Err(claims_failure(ClaimsFailure::ConfigNotFound))),
            Some(c) => ClaimsStep::Next(ClaimsStage::NeedToken(c)),
        },
        (ClaimsStage::NeedToken(c), ClaimsEvent::Token(token)) => match token {
            None => ClaimsStep::Done(Err(claims_failure(ClaimsFailure::NoCredentials))),
            Some(t) => {
                let key_id = header_key_id(t.as_str());
                let address_built = match key_id {
                    Some(Some(_)) => uri_builds("https", c.domain(), "/.well-known/jwks.json"),
                    _ => false,
                };
                proof {
                    assert(key_id matches Some(Some(_)) ==> address_built == uri_accepted("https"@, c.domain_view(), "/.well-known/jwks.json"@));
                }
                token_read(c, t, key_id, address_built)
            },
        },
        (ClaimsStage::NeedKeySet { config, token, kid, url: _ }, ClaimsEvent::KeySet { fetched, keys }) => {
            if !fetched {
                ClaimsStep::Done(Err(claims_failure(ClaimsFailure::KeySetNotFetched)))
            } else {
                match keys {
                    None => ClaimsStep::Done(Err(claims_failure(ClaimsFailure::KeySetNotRead))),
                    Some(keys) => key_read(config, token, kid.as_str(), keys),
                }
            }
        },
        (ClaimsStage::NeedClaims { .. }, ClaimsEvent::Decoded { key_made, claims }) => {
            if !key_made {
                ClaimsStep::Done(Err(claims_failure(ClaimsFailure::DecodingKeyNotMade)))
            } else {
                match claims {
                    None => ClaimsStep::Done(Err(claims_failure(ClaimsFailure::ClaimsNotDecoded))),
                    Some(cl) => ClaimsStep::Done(Ok(cl)),
                }
            }
        },
        _ => ClaimsStep::OutOfOrder,
    }
}

/// Whatever point reading a request's claims fails at, the request is
/// answered 401.
pub proof fn lemma_claims_refusals_are_unauthorized(r: ClaimsStep, f: ClaimsFailure)
    requires
        refused_at(r, f),
    ensures
        r matches ClaimsStep::Done(Err(e)) && auth_error_status(e) == 401,
{
}

} // verus!
