//! Minting of short-lived signed session tokens.
//!
//! A token is the standard three-segment compact form
//! `base64url(header) . base64url(claims) . base64url(signature)`: the
//! header declares HMAC-SHA384 and type JWT, the claims carry exactly
//! `sub`, `tid`, `iat`, `exp` and `iss` with `exp` fixed at `iat + 300`
//! seconds, and the signature is the HMAC-SHA384 tag over the first two
//! segments under the caller's secret. Both timestamps come from one clock
//! read. The issuer is injected once as configuration, not read from the
//! ambient environment; minting without it fails before anything is built.

use crate::b64::b64url_encode;
use crate::b64::spec_b64url;
use crate::errors::AuthError;
use crate::jsonfmt::claims_json;
use crate::jsonfmt::header_json;
use crate::jsonfmt::spec_claims_json;
use crate::jsonfmt::spec_header_json;
use hmac::Mac;
use vstd::prelude::*;
use vstd::string::StringExecFns;
use vstd::utf8::encode_utf8;

verus! {

/// The HMAC-SHA384 authentication tag over `msg` under `key`. Determined by
/// the two arguments alone.
pub uninterp spec fn hmac_sha384_of(key: Seq<u8>, msg: Seq<u8>) -> Seq<u8>;

/// Relies on `hmac::Hmac<sha2::Sha384>` through `Mac::new_from_slice`,
/// `Mac::update` and `Mac::finalize`: the tag is a function of key and
/// message alone, and a SHA-384 tag is 48 bytes. Key derivation accepts
/// keys of any length by padding or pre-hashing; a refused key surfaces as
/// `Err`.
#[verifier::external_body]
fn hmac_sha384(key: &[u8], msg: &[u8]) -> (r: Result<Vec<u8>, ()>)
    ensures
        r matches Ok(v) ==> v@ == hmac_sha384_of(key@, msg@) && v@.len() == 48,
{
    let mut mac: hmac::Hmac<sha2::Sha384> = match Mac::new_from_slice(key) {
        Ok(m) => m,
        Err(_) => return Err(()),
    };
    mac.update(msg);
    Ok(mac.finalize().into_bytes().to_vec())
}

/// Relies on `std::time::SystemTime::now` and
/// `SystemTime::duration_since(UNIX_EPOCH)`: whole seconds since the Unix
/// epoch, or `None` when the clock reads before the epoch. The value is
/// wall-clock time; nothing is promised of it.
#[verifier::external_body]
fn now_unix_secs() -> Option<u64> {
    match std::time::SystemTime::now().duration_since(std::time::UNIX_EPOCH) {
        Ok(d) => Some(d.as_secs()),
        Err(_) => None,
    }
}

/// The issuer configuration a minter is constructed with.
pub struct AuthConfig {
    /// The issuer (`iss` claim) written into every minted token, typically
    /// the service's domain name; `None` when the deployment supplied none.
    pub domain_name: Option<String>,
}

impl AuthConfig {
    /// True when a non-empty issuer was supplied.
    pub open spec fn has_issuer(&self) -> bool {
        match self.domain_name {
            Some(d) => d@.len() > 0,
            None => false,
        }
    }

    /// The issuer value, empty when none was supplied.
    pub open spec fn spec_issuer(&self) -> Seq<char> {
        match self.domain_name {
            Some(d) => d@,
            None => Seq::empty(),
        }
    }
}

/// The first two segments of a token: encoded header, a dot, encoded
/// claims, with `exp` fixed at `iat + 300`.
pub open spec fn spec_signing_input(
    sub: Seq<char>,
    tid: Seq<char>,
    iss: Seq<char>,
    iat: u64,
) -> Seq<char> {
    spec_b64url(encode_utf8(spec_header_json())) + seq!['.'] + spec_b64url(
        encode_utf8(spec_claims_json(sub, tid, iss, iat as nat, iat as nat + 300)),
    )
}

/// The complete token: the signing input, a dot, and the encoded
/// HMAC-SHA384 tag over the signing input's UTF-8 bytes under the secret's
/// UTF-8 bytes.
pub open spec fn spec_token(
    secret: Seq<char>,
    sub: Seq<char>,
    tid: Seq<char>,
    iss: Seq<char>,
    iat: u64,
) -> Seq<char> {
    spec_signing_input(sub, tid, iss, iat) + seq!['.'] + spec_b64url(
        hmac_sha384_of(
            encode_utf8(secret),
            encode_utf8(spec_signing_input(sub, tid, iss, iat)),
        ),
    )
}

/// Law: every minted token's claims name an expiry exactly 300 seconds
/// after its issued-at time — the claims serialized into the signing input
/// are those with `exp = iat + 300`, both derived from the one timestamp
/// `iat`.
pub proof fn lemma_exp_is_iat_plus_300(sub: Seq<char>, tid: Seq<char>, iss: Seq<char>, iat: u64)
    ensures
        spec_signing_input(sub, tid, iss, iat) == spec_b64url(encode_utf8(spec_header_json()))
            + seq!['.'] + spec_b64url(
            encode_utf8(spec_claims_json(sub, tid, iss, iat as nat, iat as nat + 300)),
        ),
{
}

/// Law: a token's signature segment round-trips — re-deriving the
/// HMAC-SHA384 tag over the token's header and claims segments under the
/// same secret and encoding it again yields exactly the token's third
/// segment.
pub proof fn lemma_signature_round_trip(
    secret: Seq<char>,
    sub: Seq<char>,
    tid: Seq<char>,
    iss: Seq<char>,
    iat: u64,
)
    ensures
        spec_token(secret, sub, tid, iss, iat) == spec_signing_input(sub, tid, iss, iat)
            + seq!['.'] + spec_b64url(
            hmac_sha384_of(
                encode_utf8(secret),
                encode_utf8(spec_signing_input(sub, tid, iss, iat)),
            ),
        ),
{
}

/// Mint a token for a fixed issued-at timestamp.
///
/// On success the result is exactly the compact token for these inputs:
/// header and claims as `spec_token` lays them out, `exp = iat + 300`. An
/// empty issuer is refused with `ConfigurationMissing` before anything is
/// built; the only other failure is the signing backend refusing the key,
/// surfaced as `SigningError`.
pub fn mint_token_at(
    access_secret: &str,
    sub: &str,
    tenant_id: &str,
    issuer: &str,
    iat: u64,
) -> (r: Result<String, AuthError>)
    requires
        iat + 300 <= u64::MAX,
    ensures
        issuer@.len() == 0 <==> r == Err::<String, AuthError>(AuthError::ConfigurationMissing),
        r matches Ok(t) ==> t@ == spec_token(access_secret@, sub@, tenant_id@, issuer@, iat),
        r matches Err(e) ==> e == AuthError::ConfigurationMissing || e == AuthError::SigningError,
{
    if issuer.is_empty() {
        return Err(AuthError::ConfigurationMissing);
    }
    let header = header_json();
    let exp = iat + 300;
    let claims = claims_json(sub, tenant_id, issuer, iat, exp);
    let mut signing_input = b64url_encode(header.as_str().as_bytes());
    signing_input.push('.');
    let claims_b64 = b64url_encode(claims.as_str().as_bytes());
    signing_input.append(claims_b64.as_str());
    proof {
        assert(signing_input@ =~= spec_signing_input(sub@, tenant_id@, issuer@, iat));
    }
    let sig = match hmac_sha384(access_secret.as_bytes(), signing_input.as_str().as_bytes()) {
        Ok(v) => v,
        Err(_) => {
            return Err(AuthError::SigningError);
        },
    };
    let sig_b64 = b64url_encode(sig.as_slice());
    let mut out = signing_input;
    out.push('.');
    out.append(sig_b64.as_str());
    proof {
        assert(out@ =~= spec_token(access_secret@, sub@, tenant_id@, issuer@, iat));
    }
    Ok(out)
}

/// Mint a token carrying `sub` and `tenant_id` for the configured issuer,
/// issued now.
///
/// The issued-at time is one clock read; the expiry is that same value plus
/// 300 seconds. Minting without a configured non-empty issuer fails with
/// `ConfigurationMissing` and never produces a token with an empty `iss`;
/// the only other failure is `SigningError`.
pub fn mint_token(access_secret: &str, sub: &str, tenant_id: &str, config: &AuthConfig) -> (r:
    Result<String, AuthError>)
    ensures
        !config.has_issuer() <==> r == Err::<String, AuthError>(AuthError::ConfigurationMissing),
        r matches Ok(t) ==> exists|iat: u64|
            iat + 300 <= u64::MAX && t@ == spec_token(
                access_secret@,
                sub@,
                tenant_id@,
                config.spec_issuer(),
                iat,
            ),
        r matches Err(e) ==> e == AuthError::ConfigurationMissing || e == AuthError::SigningError,
{
    let issuer: &str = match &config.domain_name {
        Some(d) => d.as_str(),
        None => {
            return Err(AuthError::ConfigurationMissing);
        },
    };
    if issuer.is_empty() {
        return Err(AuthError::ConfigurationMissing);
    }
    let iat = match now_unix_secs() {
        Some(t) => t,
        None => {
            return Err(AuthError::SigningError);
        },
    };
    if iat > u64::MAX - 300 {
        // A clock value this large cannot carry a 300 second offset; treat
        // it as the signing path being unable to produce a token.
        return Err(AuthError::SigningError);
    }
    let r = mint_token_at(access_secret, sub, tenant_id, issuer, iat);
    proof {
        if r is Ok {
            let t = r->Ok_0;
            assert(t@ == spec_token(access_secret@, sub@, tenant_id@, config.spec_issuer(), iat));
            assert(exists|i: u64|
                i + 300 <= u64::MAX && t@ == spec_token(
                    access_secret@,
                    sub@,
                    tenant_id@,
                    config.spec_issuer(),
                    i,
                ));
        }
    }
    r
}

} // verus!
