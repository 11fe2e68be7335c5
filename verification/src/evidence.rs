use vstd::prelude::*;
use kbs_types::TeePubKey;
use crate::encoding::{hex_encode, hex_lower};
use crate::error::{missing_param, missing_param_message, prefixed, Error, ErrorView};

verus! {

#[verifier::external_type_specification]
#[verifier::external_body]
pub struct ExTeePubKey(TeePubKey);

/// Evidence of the trusted environment, with the public key of the key pair
/// that the broker generated for the session.
#[derive(Debug)]
pub struct Evidence {
    pub tee_pubkey: TeePubKey,
    pub evidence: String,
}

/// The name/value pairs that `form_urlencoded::parse` decodes from a query
/// string, in order.
pub uninterp spec fn urlencoded_pairs(query: Seq<char>) -> Seq<(Seq<char>, Seq<char>)>;

/// Calls `form_urlencoded::parse` on the query's bytes and keeps the decoded
/// pairs in order; the result is named `urlencoded_pairs`.
#[verifier::external_body]
pub(crate) fn parse_query(query: &str) -> (res: Vec<(String, String)>)
    ensures
        res@.len() == urlencoded_pairs(query@).len(),
        forall|i: int|
            0 <= i < res@.len() ==> (#[trigger] res@[i].0@, res@[i].1@) == urlencoded_pairs(
                query@,
            )[i],
{
    form_urlencoded::parse(query.as_bytes()).into_owned().collect()
}

/// The value that collecting `pairs` into a map keeps for `key`: that of the
/// last pair with that name.
pub open spec fn last_value(pairs: Seq<(Seq<char>, Seq<char>)>, key: Seq<char>) -> Option<Seq<char>>
    decreases pairs.len(),
{
    if pairs.len() == 0 {
        None
    } else if pairs.last().0 == key {
        Some(pairs.last().1)
    } else {
        last_value(pairs.drop_last(), key)
    }
}

proof fn lemma_last_value_at(pairs: Seq<(Seq<char>, Seq<char>)>, key: Seq<char>, j: int)
    requires
        0 <= j < pairs.len(),
        pairs[j].0 == key,
        forall|k: int| j < k < pairs.len() ==> #[trigger] pairs[k].0 != key,
    ensures
        last_value(pairs, key) == Some(pairs[j].1),
    decreases pairs.len(),
{
    if j < pairs.len() - 1 {
        let rest = pairs.drop_last();
        assert(pairs[pairs.len() - 1].0 != key);
        assert(rest[j] == pairs[j]);
        assert forall|k: int| j < k < rest.len() implies #[trigger] rest[k].0 != key by {
            assert(rest[k] == pairs[k]);
        }
        lemma_last_value_at(rest, key, j);
    }
}

proof fn lemma_last_value_some(pairs: Seq<(Seq<char>, Seq<char>)>, key: Seq<char>, i: int)
    requires
        0 <= i < pairs.len(),
        pairs[i].0 == key,
    ensures
        last_value(pairs, key) is Some,
    decreases pairs.len(),
{
    if pairs.last().0 != key {
        let rest = pairs.drop_last();
        assert(rest[i] == pairs[i]);
        lemma_last_value_some(rest, key, i);
    }
}

proof fn lemma_last_value_none(pairs: Seq<(Seq<char>, Seq<char>)>, key: Seq<char>)
    requires
        forall|i: int| 0 <= i < pairs.len() ==> #[trigger] pairs[i].0 != key,
    ensures
        last_value(pairs, key) is None,
    decreases pairs.len(),
{
    if pairs.len() > 0 {
        let rest = pairs.drop_last();
        assert(pairs[pairs.len() - 1].0 != key);
        assert forall|i: int| 0 <= i < rest.len() implies #[trigger] rest[i].0 != key by {
            assert(rest[i] == pairs[i]);
        }
        lemma_last_value_none(rest, key);
    }
}

/// Law: the value kept for `key` is that of the last pair with that name,
/// wherever it stands among the pairs; a name that some pair has always keeps
/// a value, and a name that no pair has keeps none.
pub proof fn law_last_value(pairs: Seq<(Seq<char>, Seq<char>)>, key: Seq<char>)
    ensures
        forall|j: int|
            0 <= j < pairs.len() && #[trigger] pairs[j].0 == key && (forall|k: int|
                j < k < pairs.len() ==> pairs[k].0 != key) ==> last_value(pairs, key) == Some(
                pairs[j].1,
            ),
        (exists|i: int| 0 <= i < pairs.len() && #[trigger] pairs[i].0 == key) ==> last_value(
            pairs,
            key,
        ) is Some,
        (forall|i: int| 0 <= i < pairs.len() ==> pairs[i].0 != key) ==> last_value(pairs, key) is None,
{
    assert forall|j: int|
        0 <= j < pairs.len() && #[trigger] pairs[j].0 == key && (forall|k: int|
            j < k < pairs.len() ==> pairs[k].0 != key) implies last_value(pairs, key) == Some(
        pairs[j].1,
    ) by {
        lemma_last_value_at(pairs, key, j);
    }
    if exists|i: int| 0 <= i < pairs.len() && #[trigger] pairs[i].0 == key {
        let i = choose|i: int| 0 <= i < pairs.len() && #[trigger] pairs[i].0 == key;
        lemma_last_value_some(pairs, key, i);
    }
    if forall|i: int| 0 <= i < pairs.len() ==> pairs[i].0 != key {
        lemma_last_value_none(pairs, key);
    }
}

/// The pairs as text.
pub open spec fn pairs_view(pairs: Seq<(String, String)>) -> Seq<(Seq<char>, Seq<char>)> {
    pairs.map_values(|p: (String, String)| (p.0@, p.1@))
}

/// The challenge among the decoded query pairs: the value of the last
/// `challenge` pair, or `InvalidRequest` when there is none.
pub fn challenge_from_pairs(pairs: &Vec<(String, String)>) -> (res: Result<String, Error>)
    ensures
        last_value(pairs_view(pairs@), "challenge"@) matches Some(c) ==> (res matches Ok(r) && r@
            == c),
        last_value(pairs_view(pairs@), "challenge"@) is None ==> (res matches Err(e) && e@
            == ErrorView::InvalidRequest(missing_param_message("challenge"@))),
        forall|j: int|
            0 <= j < pairs@.len() && #[trigger] pairs@[j].0@ == "challenge"@ && (forall|k: int|
                j < k < pairs@.len() ==> pairs@[k].0@ != "challenge"@) ==> (res matches Ok(r) && r@
                == pairs@[j].1@),
        (forall|i: int| 0 <= i < pairs@.len() ==> pairs@[i].0@ != "challenge"@) ==> (res matches Err(
            e,
        ) && e@ == ErrorView::InvalidRequest(missing_param_message("challenge"@))),
{
    proof {
        let pv = pairs_view(pairs@);
        assert forall|i: int| 0 <= i < pairs@.len() implies #[trigger] pv[i] == (
            pairs@[i].0@,
            pairs@[i].1@,
        ) by {}
        law_last_value(pv, "challenge"@);
        assert forall|j: int|
            0 <= j < pairs@.len() && #[trigger] pairs@[j].0@ == "challenge"@ && (forall|k: int|
                j < k < pairs@.len() ==> pairs@[k].0@ != "challenge"@) implies last_value(
            pv,
            "challenge"@,
        ) == Some(pairs@[j].1@) by {
            assert(pv[j].0 == "challenge"@);
            assert forall|k: int| j < k < pv.len() implies pv[k].0 != "challenge"@ by {
                assert(pv[k] == (pairs@[k].0@, pairs@[k].1@));
            }
        }
    }
    last_challenge(pairs)
}

fn last_challenge(pairs: &Vec<(String, String)>) -> (res: Result<String, Error>)
    ensures
        last_value(pairs_view(pairs@), "challenge"@) matches Some(c) ==> (res matches Ok(r) && r@
            == c),
        last_value(pairs_view(pairs@), "challenge"@) is None ==> (res matches Err(e) && e@
            == ErrorView::InvalidRequest(missing_param_message("challenge"@))),
{
    let ghost key = "challenge"@;
    let mut i: usize = pairs.len();
    assert(pairs_view(pairs@).take(i as int) =~= pairs_view(pairs@));
    while i > 0
        invariant
            i <= pairs@.len(),
            key == "challenge"@,
            last_value(pairs_view(pairs@), key) == last_value(pairs_view(pairs@).take(i as int), key),
        decreases i,
    {
        let ghost pv = pairs_view(pairs@).take(i as int);
        assert(pv.drop_last() =~= pairs_view(pairs@).take(i - 1));
        if crate::text::str_eq(pairs[i - 1].0.as_str(), "challenge") {
            return Ok(pairs[i - 1].1.clone());
        }
        i = i - 1;
    }
    assert(pairs_view(pairs@).take(0) =~= Seq::<(Seq<char>, Seq<char>)>::empty());
    Err(missing_param("challenge"))
}

/// The challenge of an evidence request's query string; a request without a
/// query has none.
pub fn challenge_from_query(query: Option<&str>) -> (res: Result<String, Error>)
    ensures
        ({
            let pairs = match query {
                Some(q) => urlencoded_pairs(q@),
                None => Seq::empty(),
            };
            &&& last_value(pairs, "challenge"@) matches Some(c) ==> (res matches Ok(r) && r@ == c)
            &&& last_value(pairs, "challenge"@) is None ==> (res matches Err(e) && e@
                == ErrorView::InvalidRequest(missing_param_message("challenge"@)))
        }),
{
    let pairs = match query {
        Some(q) => parse_query(q),
        None => Vec::new(),
    };
    assert(pairs_view(pairs@) =~= match query {
        Some(q) => urlencoded_pairs(q@),
        None => Seq::empty(),
    });
    challenge_from_pairs(&pairs)
}

/// What the 48-byte digest that becomes the runtime data is taken of: the
/// challenge followed by the JSON text of the session's public key.
pub fn runtime_data_preimage(challenge: &str, tee_pubkey: &str) -> (res: String)
    ensures
        res@ == challenge@ + tee_pubkey@,
{
    prefixed(challenge, tee_pubkey)
}

/// The runtime data handed to the attestation agent: the digest of the
/// preimage in lowercase hexadecimal.
pub fn get_runtime_data(digest: &[u8]) -> (res: String)
    requires
        2 * digest@.len() <= isize::MAX,
    ensures
        res@ == hex_lower(digest@),
{
    hex_encode(digest)
}

/// The attestation agent's address for evidence bound to `runtime_data`.
pub fn aa_evidence_url(agent_service_url: &str, runtime_data: &str) -> (res: String)
    ensures
        res@ == agent_service_url@ + "/aa/evidence_extra?runtime_data="@ + runtime_data@,
{
    let mut url = agent_service_url.to_string();
    url.append("/aa/evidence_extra?runtime_data=");
    url.append(runtime_data);
    url
}

/// The steps of an evidence request whose failure the broker reports.
#[derive(Debug)]
pub enum EvidenceStep {
    NewKeyPair,
    ExportPublicKey,
    EncodePublicKey,
    AgentEvidence,
    EncodeEvidence,
}

/// How the broker introduces the failure of each step.
pub open spec fn evidence_failure_prefix(step: EvidenceStep) -> Seq<char> {
    match step {
        EvidenceStep::NewKeyPair => "New TeeKeyPair failed "@,
        EvidenceStep::ExportPublicKey => "Export TeePubKey failed "@,
        EvidenceStep::EncodePublicKey => "Json TeePubKey failed "@,
        EvidenceStep::AgentEvidence => "Get evidence form AA failed "@,
        EvidenceStep::EncodeEvidence => "Serialize evidence failed "@,
    }
}

/// The error of an evidence request whose `step` failed with `detail`.
pub fn evidence_failure(step: EvidenceStep, detail: &str) -> (res: Error)
    ensures
        res@ == ErrorView::EvidenceIssueFailed(evidence_failure_prefix(step) + detail@),
{
    let prefix = match step {
        EvidenceStep::NewKeyPair => "New TeeKeyPair failed ",
        EvidenceStep::ExportPublicKey => "Export TeePubKey failed ",
        EvidenceStep::EncodePublicKey => "Json TeePubKey failed ",
        EvidenceStep::AgentEvidence => "Get evidence form AA failed ",
        EvidenceStep::EncodeEvidence => "Serialize evidence failed ",
    };
    Error::EvidenceIssueFailed(prefixed(prefix, detail))
}

} // verus!
