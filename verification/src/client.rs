//! The request and the reply of the `confirmTransaction` method.

use vstd::prelude::*;

verus! {

/// Where the server listens when nothing else is configured.
pub const LOCAL_LIGHT_RPC_ADDR: &'static str = "http://127.0.0.1:8890";

/// The name of the method that asks whether a transaction is confirmed.
pub const CONFIRM_METHOD: &'static str = "confirmTransaction";

/// The JSON text of an array whose one element is the string `item`.
pub uninterp spec fn json_array_of_one(item: Seq<char>) -> Seq<char>;

/// Builds a `serde_json::Value` that is an array of the one string and
/// calls `to_string` on it, which gives its compact JSON text. The text is a
/// function of the string alone.
#[verifier::external_body]
fn array_of_one(item: &String) -> (json: String)
    ensures
        json@ == json_array_of_one(item@),
{
    serde_json::Value::Array(vec![serde_json::Value::String(item.clone())]).to_string()
}

/// A call of the `confirmTransaction` method.
#[derive(Debug)]
pub struct ConfirmRequest {
    /// The method's name.
    pub method: String,
    /// The parameters as JSON text.
    pub params: String,
}

/// The call that asks whether the transaction signed `signature` is
/// confirmed: its parameters are an array that holds the signature alone.
pub fn confirm_request(signature: &String) -> (request: ConfirmRequest)
    ensures
        request.method@ == CONFIRM_METHOD@,
        request.params@ == json_array_of_one(signature@),
{
    ConfirmRequest { method: CONFIRM_METHOD.to_owned(), params: array_of_one(signature) }
}

/// Whether a poll with this reply counts as "confirmed": only a reply that
/// arrived and says so does.
pub open spec fn counts_as_confirmed(reply: Option<bool>) -> bool {
    reply == Some(true)
}

/// Whether a transaction counts as confirmed after a poll. `reply` is the
/// server's answer, or nothing where the poll failed on the way: such a poll
/// counts as "not yet confirmed" and is made again in the next round.
pub fn confirm_outcome(reply: Option<bool>) -> (confirmed: bool)
    ensures
        confirmed == counts_as_confirmed(reply),
{
    match reply {
        Some(answer) => answer,
        None => false,
    }
}

} // verus!
