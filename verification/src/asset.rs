//! Token contracts: which address a currency has on a chain.

use vstd::prelude::*;

use crate::text::same_text;

verus! {

/// The contract address of `currency` on the chain `chain_id`: the canonical
/// USDC contracts on Base, Arbitrum and Ethereum mainnet, the zero address for
/// ETH and WETH anywhere, and nothing for every other pair.
pub open spec fn token_address(currency: Seq<char>, chain_id: Seq<char>) -> Seq<char> {
    if currency == "USDC"@ && chain_id == "eip155:8453"@ {
        "0x833589fCD6eDb6E08f4c7C32D4f71b54bdA02913"@
    } else if currency == "USDC"@ && chain_id == "eip155:42161"@ {
        "0xaf88d065e77c8cC2239327C5EDb3A432268e5831"@
    } else if currency == "USDC"@ && chain_id == "eip155:1"@ {
        "0xA0b86991c6218b36c1d19D4a2e9Eb0cE3606eB48"@
    } else if currency == "ETH"@ || currency == "WETH"@ {
        "0x0000000000000000000000000000000000000000"@
    } else {
        Seq::empty()
    }
}

/// Maps a currency and a chain to the token's contract address. For a pair that
/// is not known the address is empty: the facilitator then needs to know the
/// token itself.
pub fn token_address_for_currency(currency: &str, chain_id: &str) -> (address: String)
    ensures
        address@ == token_address(currency@, chain_id@),
        currency@ == "ETH"@ || currency@ == "WETH"@ <==> address@
            == "0x0000000000000000000000000000000000000000"@,
{
    proof {
        crate::laws::eth_and_weth_have_the_zero_address(currency@, chain_id@);
    }
    let usdc: bool = same_text(currency, "USDC");
    if usdc && same_text(chain_id, "eip155:8453") {
        // USDC on Base
        "0x833589fCD6eDb6E08f4c7C32D4f71b54bdA02913".to_owned()
    } else if usdc && same_text(chain_id, "eip155:42161") {
        // USDC on Arbitrum
        "0xaf88d065e77c8cC2239327C5EDb3A432268e5831".to_owned()
    } else if usdc && same_text(chain_id, "eip155:1") {
        // USDC on Ethereum mainnet
        "0xA0b86991c6218b36c1d19D4a2e9Eb0cE3606eB48".to_owned()
    } else if same_text(currency, "ETH") || same_text(currency, "WETH") {
        // Native or wrapped ETH
        "0x0000000000000000000000000000000000000000".to_owned()
    } else {
        String::new()
    }
}

} // verus!
