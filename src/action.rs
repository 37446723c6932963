use vstd::prelude::*;

use crate::model::Blob;

verus! {

/// The actions a client can ask of the token contract.
pub enum Erc20Action {
    Transfer { recipient: String, amount: u128 },
}

/// Position of `Transfer` among the contract's action variants; the wire
/// form of an action starts with it.
pub const TRANSFER_VARIANT: u32 = 0;

/// The bytes that bincode's standard configuration writes for a tuple of a
/// variant index, a text and an amount.
pub uninterp spec fn bincode_standard(variant: u32, text: Seq<char>, amount: u128) -> Seq<u8>;

/// Relies on bincode::encode_to_vec with bincode::config::standard(): a tuple
/// is written field by field, and writing into a vector under a configuration
/// with no size limit never fails.
#[verifier::external_body]
fn encode_standard(variant: u32, text: &str, amount: u128) -> (r: Option<Vec<u8>>)
    ensures
        r is Some,
        r matches Some(b) ==> b@ == bincode_standard(variant, text@, amount),
{
    bincode::encode_to_vec((variant, text, amount), bincode::config::standard()).ok()
}

/// The canonical bytes of an action.
pub open spec fn action_bytes(a: Erc20Action) -> Seq<u8> {
    match a {
        Erc20Action::Transfer { recipient, amount } => bincode_standard(
            TRANSFER_VARIANT,
            recipient@,
            amount,
        ),
    }
}

/// Encodes an action into a blob addressed to the given contract.
pub fn encode_action(action: &Erc20Action, contract_name: &String) -> (r: Blob)
    ensures
        r.contract_name@ == contract_name@,
        r.data@ == action_bytes(*action),
{
    let data = match action {
        Erc20Action::Transfer { recipient, amount } => encode_standard(
            TRANSFER_VARIANT,
            recipient.as_str(),
            *amount,
        ).unwrap(),
    };
    Blob { contract_name: contract_name.clone(), data }
}

/// The blob sequence of a one-action transaction.
pub fn action_blobs(action: &Erc20Action, contract_name: &String) -> (r: Vec<Blob>)
    ensures
        r@.len() == 1,
        r@[0].contract_name@ == contract_name@,
        r@[0].data@ == action_bytes(*action),
{
    let mut r: Vec<Blob> = Vec::new();
    r.push(encode_action(action, contract_name));
    r
}

/// Encoding is deterministic: two actions with the same recipient and amount
/// give byte-identical blobs for the same contract.
pub proof fn law_encoding_deterministic(a: Erc20Action, b: Erc20Action)
    requires
        a->Transfer_recipient@ == b->Transfer_recipient@,
        a->Transfer_amount == b->Transfer_amount,
    ensures
        action_bytes(a) == action_bytes(b),
{
}

} // verus!
