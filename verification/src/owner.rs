use vstd::prelude::*;
use jwt_simple::prelude::{Claims, Duration, Ed25519KeyPair, EdDSAKeyPairLike};

verus! {

/// Whether `Ed25519KeyPair::from_pem` accepts the text as an Ed25519 private
/// key (a PEM key pair, or a PEM secret key from whose seed the pair is made).
pub uninterp spec fn ed25519_pem_accepted(pem: Seq<char>) -> bool;

/// Whether `token` is a compact JWT (`header.claims.signature`, each part
/// Base64url) whose EdDSA signature over `header.claims` verifies under the
/// public half of the key pair that `Ed25519KeyPair::from_pem` reads from `pem`.
pub uninterp spec fn ed25519_jwt_signed_by(pem: Seq<char>, token: Seq<char>) -> bool;

/// The `exp` claim minus the `iat` claim of a compact JWT, in seconds.
pub uninterp spec fn jwt_lifetime_secs(token: Seq<char>) -> int;

/// Reads `pem` with `Ed25519KeyPair::from_pem` and signs with it, by
/// `EdDSAKeyPairLike::sign`, the claims of `Claims::create` valid for `hours`
/// hours from the system clock. Signing cannot fail (it serializes the JWT
/// header and these claims to JSON and Base64url), so the token comes back
/// exactly when the key is accepted; it is signed by that key and its `exp`
/// lies `hours` hours after its `iat`. The times themselves and the random
/// noise of the signature are left unsaid. Longer validities, or a clock past
/// 2106, overflow coarsetime's fixed-point seconds.
#[verifier::external_body]
fn sign_with_pem_key(pem: &str, hours: u64) -> (res: Result<String, String>)
    requires
        hours <= 24,
    ensures
        res is Ok <==> ed25519_pem_accepted(pem@),
        res matches Ok(t) ==> ed25519_jwt_signed_by(pem@, t@) && jwt_lifetime_secs(t@) == hours
            * 3600,
{
    let key = Ed25519KeyPair::from_pem(pem).map_err(|e| e.to_string())?;
    key.sign(Claims::create(Duration::from_hours(hours))).map_err(|e| e.to_string())
}

/// How many hours an owner's token stays valid.
pub const OWNER_TOKEN_HOURS: u64 = 2;

/// The bearer token with which the owner authenticates a request: claims
/// valid for two hours, signed with the owner's Ed25519 private key (PEM text
/// `auth_key`). A key that `Ed25519KeyPair::from_pem` refuses fails the request.
pub fn owner_token(auth_key: &str) -> (res: Result<String, String>)
    ensures
        res is Ok <==> ed25519_pem_accepted(auth_key@),
        res matches Ok(t) ==> ed25519_jwt_signed_by(auth_key@, t@) && jwt_lifetime_secs(t@) == 7200,
{
    sign_with_pem_key(auth_key, OWNER_TOKEN_HOURS)
}

} // verus!
