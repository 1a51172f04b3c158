//! The 1Shot permissionless relayer: the relay request that pays a
//! contributor, and the reading of the relayer's reply.
use vstd::prelude::*;
use crate::calldata::{USDC_SEPOLIA, encode_transfer_calldata, transfer_calldata};
use crate::json::{JsonStep, JsonStepView, json_is_valid, json_str_at, spec_json_valid, spec_json_str_at, opt_str_view};

verus! {

/// The relay endpoint used when `ONESHOT_API_URL` is not set.
pub const DEFAULT_RELAY_URL: &'static str = "https://relay.1shot.io/api/v1/relay";

/// The API key sent when `ONESHOT_API_KEY` is not set.
pub const MISSING_API_KEY: &'static str = "missing";

/// The body of a relay request: execute `calldata` on the token contract
/// `target` under the spending delegation `delegation`.
pub struct RelayRequest {
    pub delegation: String,
    pub target: String,
    pub calldata: String,
    pub value: String,
}

/// Builds the relay request that transfers `amount_micro` micro-USDC to
/// `to_address` under the delegation `delegation_hex`.
pub fn relay_request(to_address: &str, amount_micro: u64, delegation_hex: &str) -> (res:
    RelayRequest)
    ensures
        res.delegation@ == delegation_hex@,
        res.target@ == USDC_SEPOLIA@,
        res.calldata@ == transfer_calldata(to_address@, amount_micro),
        res.value@ == "0"@,
{
    RelayRequest {
        delegation: String::from_str(delegation_hex),
        target: String::from_str(USDC_SEPOLIA),
        calldata: encode_transfer_calldata(to_address, amount_micro),
        value: String::from_str("0"),
    }
}

/// Why a relay did not yield a transaction hash.
#[derive(Debug, Clone, Copy, PartialEq, Eq, Structural)]
pub enum RelayError {
    /// The relayer answered with a non-success HTTP status.
    Rejected,
    /// The reply body is not JSON.
    InvalidJson,
    /// The reply has no string `txHash`, `tx_hash` or `hash` member.
    MissingTxHash,
}

/// The path of a top-level member `key`.
pub open spec fn member(key: Seq<char>) -> Seq<JsonStepView> {
    seq![JsonStepView::Key(key)]
}

/// The transaction hash in a relayer reply: the first string among the
/// members `txHash`, `tx_hash` and `hash`.
pub open spec fn reply_tx_hash(body: Seq<u8>) -> Option<Seq<char>> {
    if spec_json_str_at(body, member("txHash"@)) is Some {
        spec_json_str_at(body, member("txHash"@))
    } else if spec_json_str_at(body, member("tx_hash"@)) is Some {
        spec_json_str_at(body, member("tx_hash"@))
    } else {
        spec_json_str_at(body, member("hash"@))
    }
}

/// The outcome of a relay whose reply had a success status or not and the
/// body `body`.
pub open spec fn spec_relay_outcome(success: bool, body: Seq<u8>) -> Result<Seq<char>, RelayError> {
    if !success {
        Err(RelayError::Rejected)
    } else if !spec_json_valid(body) {
        Err(RelayError::InvalidJson)
    } else {
        match reply_tx_hash(body) {
            Some(h) => Ok(h),
            None => Err(RelayError::MissingTxHash),
        }
    }
}

/// The relayer's reply is read as: a non-success status is a rejection
/// whatever the body; a body that is not JSON is an error; otherwise the
/// transaction hash is the string member `txHash`, else `tx_hash`, else
/// `hash`, in that order of preference, and none of them is an error.
pub proof fn lemma_relay_outcome_reading(success: bool, body: Seq<u8>)
    ensures
        ({
            let r = spec_relay_outcome(success, body);
            let a = spec_json_str_at(body, seq![JsonStepView::Key("txHash"@)]);
            let b = spec_json_str_at(body, seq![JsonStepView::Key("tx_hash"@)]);
            let c = spec_json_str_at(body, seq![JsonStepView::Key("hash"@)]);
            &&& !success ==> r == Err::<Seq<char>, RelayError>(RelayError::Rejected)
            &&& success && !spec_json_valid(body) ==> r == Err::<Seq<char>, RelayError>(RelayError::InvalidJson)
            &&& success && spec_json_valid(body) && a is Some ==> r == Ok::<Seq<char>, RelayError>(a->Some_0)
            &&& success && spec_json_valid(body) && a is None && b is Some ==> r == Ok::<
                Seq<char>,
                RelayError,
            >(b->Some_0)
            &&& success && spec_json_valid(body) && a is None && b is None && c is Some ==> r
                == Ok::<Seq<char>, RelayError>(c->Some_0)
            &&& success && spec_json_valid(body) && a is None && b is None && c is None ==> r == Err::<
                Seq<char>,
                RelayError,
            >(RelayError::MissingTxHash)
        }),
{
}

/// The string member `key` of the JSON object `body`.
fn member_str(body: &[u8], key: &str) -> (res: Option<String>)
    ensures
        opt_str_view(res) == spec_json_str_at(body@, member(key@)),
        !spec_json_valid(body@) ==> res is None,
{
    let path = vec![JsonStep::Key(key)];
    assert(crate::json::path_view(path@) =~= member(key@));
    json_str_at(body, &path)
}

/// Reads the transaction hash out of the relayer's reply.
pub fn relay_outcome(success: bool, body: &[u8]) -> (res: Result<String, RelayError>)
    ensures
        match (res, spec_relay_outcome(success, body@)) {
            (Ok(s), Ok(t)) => s@ == t,
            (Err(e), Err(f)) => e == f,
            _ => false,
        },
{
    if !success {
        return Err(RelayError::Rejected);
    }
    if !json_is_valid(body) {
        return Err(RelayError::InvalidJson);
    }
    if let Some(h) = member_str(body, "txHash") {
        return Ok(h);
    }
    if let Some(h) = member_str(body, "tx_hash") {
        return Ok(h);
    }
    match member_str(body, "hash") {
        Some(h) => Ok(h),
        None => Err(RelayError::MissingTxHash),
    }
}

} // verus!
