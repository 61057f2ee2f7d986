//! Data of the Solana sensors and effectors: balance results, trade arguments,
//! and their errors.

use vstd::prelude::*;
use vstd::string::*;

use serde_json::Value;

use crate::json::{json_member, json_text, json_text_of, member};

verus! {

/// The result of the balance sensor: the balance in lamports.
#[derive(Debug, Clone, Copy, PartialEq, Eq, Structural)]
pub struct BalanceSensorResult {
    pub lamports: u64,
}

/// The arguments of the trade effector.
#[derive(Debug, Clone)]
pub struct TradeEffectorArgs {
    pub input_mint: String,
    pub output_mint: String,
    pub amount: String,
}

/// The text of the member `key` of the trade tool's arguments, as indexing
/// and writing it give it (`args[key].to_string()`): the member's JSON text, or
/// `null` when there is no such member.
pub open spec fn argument_text(args: Value, key: Seq<char>) -> Seq<char> {
    match json_member(args, key) {
        Some(v) => json_text_of(v),
        None => "null"@,
    }
}

/// The text of the member `key` of the arguments (see `argument_text`).
fn argument(args: &Value, key: &str) -> (r: String)
    ensures
        r@ == argument_text(*args, key@),
{
    match member(args, key) {
        Some(v) => json_text(&v),
        None => String::from_str("null"),
    }
}

impl TradeEffectorArgs {
    /// The trade arguments that the trade tool reads from its JSON arguments:
    /// the JSON text of `input_mint`, `output_mint` and `amount`.
    pub fn from_tool_args(args: &Value) -> (r: Self)
        ensures
            r.input_mint@ == argument_text(*args, "input_mint"@),
            r.output_mint@ == argument_text(*args, "output_mint"@),
            r.amount@ == argument_text(*args, "amount"@),
    {
        TradeEffectorArgs {
            input_mint: argument(args, "input_mint"),
            output_mint: argument(args, "output_mint"),
            amount: argument(args, "amount"),
        }
    }
}

/// An error of a trade.
#[derive(Debug, Clone, Copy, PartialEq, Eq, Structural)]
pub enum TradeError {
    ClientError,
}

impl TradeError {
    /// The text of the error.
    pub fn to_string(&self) -> (r: String)
        ensures
            r@ == "Client error"@,
    {
        String::from_str("Client error")
    }
}

/// An error of a Solana wallet.
#[derive(Debug, Clone)]
pub enum SolanaWalletError {
    KeypairError(String),
}

impl SolanaWalletError {
    /// The text of the error.
    pub fn to_string(&self) -> (r: String)
        ensures
            match self {
                SolanaWalletError::KeypairError(m) => r@ == "Solana keypair error: "@ + m@,
            },
    {
        match self {
            SolanaWalletError::KeypairError(m) => {
                let mut r = String::from_str("Solana keypair error: ");
                r.append(m.as_str());
                r
            },
        }
    }
}

} // verus!
