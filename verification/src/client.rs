use vstd::prelude::*;
use crate::encoding::{base64_encode, base64_standard, base64_standard_decode, law_base64_round_trip};
use crate::error::{ok_response_body, prefixed, request_failed_message};
use crate::owner::{ed25519_jwt_signed_by, ed25519_pem_accepted, jwt_lifetime_secs, owner_token};

verus! {

/// The path under which a broker serves its protocol.
pub const KBS_URL_PREFIX: &'static str = "kbs/v0";

/// The address of the broker's `endpoint` at root `url`: `<url>/kbs/v0/<endpoint>`.
pub open spec fn kbs_endpoint(url: Seq<char>, endpoint: Seq<char>) -> Seq<char> {
    url + "/"@ + KBS_URL_PREFIX@ + "/"@ + endpoint
}

fn endpoint_url(url: &str, endpoint: &str) -> (res: String)
    ensures
        res@ == kbs_endpoint(url@, endpoint@),
        res@ == url@ + "/kbs/v0/"@ + endpoint@,
{
    proof {
        reveal_strlit("/");
        reveal_strlit("kbs/v0");
        reveal_strlit("/kbs/v0/");
        assert(url@ + "/"@ + KBS_URL_PREFIX@ + "/"@ + endpoint@ =~= url@ + "/kbs/v0/"@ + endpoint@);
    }
    let mut res = url.to_string();
    res.append("/");
    res.append(KBS_URL_PREFIX);
    res.append("/");
    res.append(endpoint);
    res
}

/// The address that hands out evidence for `challenge`.
pub fn evidence_url(url: &str, challenge: &str) -> (res: String)
    ensures
        res@ == kbs_endpoint(url@, "evidence?challenge="@ + challenge@),
{
    let endpoint = prefixed("evidence?challenge=", challenge);
    endpoint_url(url, endpoint.as_str())
}

/// The address that sets the attestation policy.
pub fn attestation_policy_url(url: &str) -> (res: String)
    ensures
        res@ == kbs_endpoint(url@, "attestation-policy"@),
{
    endpoint_url(url, "attestation-policy")
}

/// The address that sets the resource policy.
pub fn resource_policy_url(url: &str) -> (res: String)
    ensures
        res@ == kbs_endpoint(url@, "resource-policy"@),
{
    endpoint_url(url, "resource-policy")
}

/// The address of the resource at `path` (`<repository>/<type>/<tag>`).
pub fn resource_url(url: &str, path: &str) -> (res: String)
    ensures
        res@ == kbs_endpoint(url@, "resource/"@ + path@),
{
    let endpoint = prefixed("resource/", path);
    endpoint_url(url, endpoint.as_str())
}

/// The resource URI of `path` on the broker the client talks to: `kbs:///<path>`.
pub fn resource_kbs_uri(path: &str) -> (res: String)
    ensures
        res@ == "kbs:///"@ + path@,
{
    prefixed("kbs:///", path)
}

/// The resource URI as a JSON string literal, the form in which it is parsed.
pub fn resource_uri_json(path: &str) -> (res: String)
    ensures
        res@ == "\""@ + "kbs:///"@ + path@ + "\""@,
{
    let uri = resource_kbs_uri(path);
    let mut res = prefixed("\"", uri.as_str());
    res.append("\"");
    res
}

/// The body of a request that sets an attestation policy.
#[derive(Debug)]
pub struct SetPolicyInput {
    /// The policy language.
    pub policy_type: String,
    pub policy_id: String,
    /// The policy, Base64-encoded.
    pub policy: String,
}

/// The request that sets `policy_bytes` as attestation policy; the type
/// defaults to `rego` and the identifier to `default`.
pub fn set_policy_input(policy_type: Option<String>, policy_id: Option<String>, policy_bytes: &[u8]) -> (res:
    SetPolicyInput)
    requires
        (policy_bytes@.len() + 2) / 3 * 4 <= isize::MAX,
    ensures
        res.policy_type@ == match policy_type {
            Some(t) => t@,
            None => "rego"@,
        },
        res.policy_id@ == match policy_id {
            Some(i) => i@,
            None => "default"@,
        },
        res.policy@ == base64_standard(policy_bytes@),
{
    let policy_type = match policy_type {
        Some(t) => t,
        None => "rego".to_string(),
    };
    let policy_id = match policy_id {
        Some(i) => i,
        None => "default".to_string(),
    };
    SetPolicyInput { policy_type, policy_id, policy: base64_encode(policy_bytes) }
}

/// The body of a request that sets a resource policy.
#[derive(Debug)]
pub struct ResourcePolicyData {
    /// The policy, Base64-encoded.
    pub policy: String,
}

/// The request that sets `policy_bytes` as resource policy.
pub fn resource_policy_data(policy_bytes: &[u8]) -> (res: ResourcePolicyData)
    requires
        (policy_bytes@.len() + 2) / 3 * 4 <= isize::MAX,
    ensures
        res.policy@ == base64_standard(policy_bytes@),
{
    ResourcePolicyData { policy: base64_encode(policy_bytes) }
}

/// The `Cookie` header that carries the session on: `<name>=<value>` of the
/// last cookie the broker set, or empty when it set none.
pub open spec fn session_cookie_header(cookies: Seq<(String, String)>) -> Seq<char> {
    if cookies.len() == 0 {
        Seq::empty()
    } else {
        cookies.last().0@ + "="@ + cookies.last().1@
    }
}

/// Builds the `Cookie` header from the cookies of the evidence answer, in order.
pub fn session_cookie(cookies: &Vec<(String, String)>) -> (res: String)
    ensures
        res@ == session_cookie_header(cookies@),
        cookies@.len() == 0 ==> res@ == Seq::<char>::empty(),
        cookies@.len() > 0 ==> res@ == cookies@.last().0@ + "="@ + cookies@.last().1@,
{
    let n: usize = cookies.len();
    if n == 0 {
        return String::new();
    }
    let mut res = cookies[n - 1].0.clone();
    res.append("=");
    res.append(cookies[n - 1].1.as_str());
    res
}

/// Accepts the broker's answer when its status is `200 OK`, else fails with
/// the message that quotes its body.
pub fn check_status(status: u16, body: String) -> (res: Result<(), String>)
    ensures
        status == 200 ==> res is Ok,
        status != 200 ==> (res matches Err(m) && m@ == request_failed_message(body@)),
{
    match ok_response_body(status, body) {
        Ok(_) => Ok(()),
        Err(m) => Err(m),
    }
}

/// A bearer token signed with the owner's key `auth_key` and valid two hours.
pub open spec fn owner_signed(auth_key: Seq<char>, token: Seq<char>) -> bool {
    ed25519_jwt_signed_by(auth_key, token) && jwt_lifetime_secs(token) == 7200
}

/// A request that only the broker's owner may make: its address, the owner's
/// bearer token and its body.
#[derive(Debug)]
pub struct OwnerRequest<B> {
    pub url: String,
    pub token: String,
    pub body: B,
}

/// The request that sets `policy_bytes` as attestation policy, signed by the
/// owner's key `auth_key`; a key that is no Ed25519 private key fails it.
pub fn attestation_policy_request(
    url: &str,
    auth_key: &str,
    policy_bytes: &[u8],
    policy_type: Option<String>,
    policy_id: Option<String>,
) -> (res: Result<OwnerRequest<SetPolicyInput>, String>)
    requires
        (policy_bytes@.len() + 2) / 3 * 4 <= isize::MAX,
    ensures
        res is Ok <==> ed25519_pem_accepted(auth_key@),
        res matches Ok(r) ==> {
            &&& r.url@ == kbs_endpoint(url@, "attestation-policy"@)
            &&& owner_signed(auth_key@, r.token@)
            &&& r.body.policy_type@ == match policy_type {
                Some(t) => t@,
                None => "rego"@,
            }
            &&& r.body.policy_id@ == match policy_id {
                Some(i) => i@,
                None => "default"@,
            }
            &&& r.body.policy@ == base64_standard(policy_bytes@)
            &&& base64_standard_decode(r.body.policy@) == policy_bytes@
        },
{
    proof {
        law_base64_round_trip(policy_bytes@);
    }
    let token = owner_token(auth_key)?;
    Ok(OwnerRequest {
        url: attestation_policy_url(url),
        token,
        body: set_policy_input(policy_type, policy_id, policy_bytes),
    })
}

/// The request that sets `policy_bytes` as resource policy, signed by the
/// owner's key `auth_key`; a key that is no Ed25519 private key fails it.
pub fn resource_policy_request(url: &str, auth_key: &str, policy_bytes: &[u8]) -> (res: Result<
    OwnerRequest<ResourcePolicyData>,
    String,
>)
    requires
        (policy_bytes@.len() + 2) / 3 * 4 <= isize::MAX,
    ensures
        res is Ok <==> ed25519_pem_accepted(auth_key@),
        res matches Ok(r) ==> {
            &&& r.url@ == kbs_endpoint(url@, "resource-policy"@)
            &&& owner_signed(auth_key@, r.token@)
            &&& r.body.policy@ == base64_standard(policy_bytes@)
            &&& base64_standard_decode(r.body.policy@) == policy_bytes@
        },
{
    proof {
        law_base64_round_trip(policy_bytes@);
    }
    let token = owner_token(auth_key)?;
    Ok(OwnerRequest { url: resource_policy_url(url), token, body: resource_policy_data(policy_bytes) })
}

/// Where a secret resource is uploaded and the owner's token that goes with
/// it; the body, encrypted to the broker's evidence key, follows later.
#[derive(Debug)]
pub struct OwnerTarget {
    pub url: String,
    pub token: String,
}

/// The target of uploading the resource at `path`, signed by the owner's key
/// `auth_key`; a key that is no Ed25519 private key fails it.
pub fn resource_upload_target(url: &str, auth_key: &str, path: &str) -> (res: Result<OwnerTarget, String>)
    ensures
        res is Ok <==> ed25519_pem_accepted(auth_key@),
        res matches Ok(t) ==> t.url@ == kbs_endpoint(url@, "resource/"@ + path@) && owner_signed(
            auth_key@,
            t.token@,
        ),
{
    let token = owner_token(auth_key)?;
    Ok(OwnerTarget { url: resource_url(url, path), token })
}

/// Law: a broker address is the root `url`, then `/kbs/v0/`, then the endpoint
/// text unchanged, character for character: it starts with `url`, ends with
/// the endpoint, and has exactly the eight characters `/kbs/v0/` between them.
pub proof fn law_endpoint_address(url: Seq<char>, endpoint: Seq<char>)
    ensures
        kbs_endpoint(url, endpoint) == url + "/kbs/v0/"@ + endpoint,
        kbs_endpoint(url, endpoint).len() == url.len() + 8 + endpoint.len(),
        kbs_endpoint(url, endpoint).subrange(0, url.len() as int) == url,
        kbs_endpoint(url, endpoint).subrange(
            url.len() as int + 8,
            kbs_endpoint(url, endpoint).len() as int,
        ) == endpoint,
{
    reveal_strlit("/");
    reveal_strlit("kbs/v0");
    reveal_strlit("/kbs/v0/");
    let a = kbs_endpoint(url, endpoint);
    assert(a =~= url + "/kbs/v0/"@ + endpoint);
    assert(a.subrange(0, url.len() as int) =~= url);
    assert(a.subrange(url.len() as int + 8, a.len() as int) =~= endpoint);
}

/// Law: the evidence address carries the challenge unchanged at its end, and
/// the resource address carries the resource path unchanged at its end.
pub proof fn law_challenge_and_path_unchanged(url: Seq<char>, challenge: Seq<char>, path: Seq<char>)
    ensures
        ({
            let e = kbs_endpoint(url, "evidence?challenge="@ + challenge);
            e.subrange(e.len() - challenge.len(), e.len() as int) == challenge
        }),
        ({
            let r = kbs_endpoint(url, "resource/"@ + path);
            r.subrange(r.len() - path.len(), r.len() as int) == path
        }),
{
    law_endpoint_address(url, "evidence?challenge="@ + challenge);
    law_endpoint_address(url, "resource/"@ + path);
    let e = kbs_endpoint(url, "evidence?challenge="@ + challenge);
    assert(e.subrange(e.len() - challenge.len(), e.len() as int) =~= challenge);
    let r = kbs_endpoint(url, "resource/"@ + path);
    assert(r.subrange(r.len() - path.len(), r.len() as int) =~= path);
}

/// Law: the session cookie header carries the last cookie the broker set as
/// `<name>=<value>`, whatever came before it; with no cookie it is empty.
pub proof fn law_session_cookie_is_last(cookies: Seq<(String, String)>, name: String, value: String)
    ensures
        session_cookie_header(cookies.push((name, value))) == name@ + "="@ + value@,
        cookies.len() > 0 ==> session_cookie_header(cookies) == cookies.last().0@ + "="@
            + cookies.last().1@,
        session_cookie_header(Seq::<(String, String)>::empty()) == Seq::<char>::empty(),
{
    assert(cookies.push((name, value)).last() == (name, value));
}

} // verus!
