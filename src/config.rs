//! Connection settings for talking to a deployed token.

use vstd::prelude::*;

verus! {

/// Where the token and its collaborators live on a chain.
pub struct EnvVars {
    pub rpc_url: String,
    pub erc20aton_address: String,
    pub engine_address: String,
    pub vault_address: String,
    pub chain_id: u64,
}

/// The endpoint used when none is given.
pub open spec fn default_rpc_url() -> Seq<char> {
    "http://127.0.0.1:8547"@
}

/// The placeholder address used when none is given.
pub open spec fn default_address() -> Seq<char> {
    "0x000000000000000000000000000"@
}

/// The chain used when none is given: a local development node.
pub const DEFAULT_CHAIN_ID: u64 = 412346;

/// The given text, or `fallback` where none is given.
fn or_default(v: Option<String>, fallback: &str) -> (r: String)
    ensures
        r@ == (match v {
            Some(s) => s@,
            None => fallback@,
        }),
{
    match v {
        Some(s) => s,
        None => fallback.to_owned(),
    }
}

impl EnvVars {
    /// Settings from the values that were set; each missing one takes its default.
    pub fn resolve(
        rpc_url: Option<String>,
        erc20aton_address: Option<String>,
        engine_address: Option<String>,
        vault_address: Option<String>,
        chain_id: Option<u64>,
    ) -> (r: EnvVars)
        ensures
            r.rpc_url@ == (match rpc_url {
                Some(s) => s@,
                None => default_rpc_url(),
            }),
            r.erc20aton_address@ == (match erc20aton_address {
                Some(s) => s@,
                None => default_address(),
            }),
            r.engine_address@ == (match engine_address {
                Some(s) => s@,
                None => default_address(),
            }),
            r.vault_address@ == (match vault_address {
                Some(s) => s@,
                None => default_address(),
            }),
            r.chain_id == (match chain_id {
                Some(n) => n,
                None => DEFAULT_CHAIN_ID,
            }),
    {
        EnvVars {
            rpc_url: or_default(rpc_url, "http://127.0.0.1:8547"),
            erc20aton_address: or_default(erc20aton_address, "0x000000000000000000000000000"),
            engine_address: or_default(engine_address, "0x000000000000000000000000000"),
            vault_address: or_default(vault_address, "0x000000000000000000000000000"),
            chain_id: match chain_id {
                Some(n) => n,
                None => DEFAULT_CHAIN_ID,
            },
        }
    }
}

} // verus!
