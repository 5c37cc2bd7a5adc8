//! Limits, time windows, gas estimates and the recognised asset identifiers.

use vstd::prelude::*;
use crate::keys::Key;

verus! {

/// Number of members of an authorization list that decides by quorum.
pub const MAX_WHITELIST_LEN: usize = 5;

/// Number of matching signers that make a quorum.
pub const QUORUM: usize = 3;

/// Number of investment stages; a record's stage runs from 1 to this value.
pub const MAX_STAGE: usize = 3;

/// Largest number of records in one distribution batch.
pub const MAX_ENTRIES_PER_BATCH: usize = 30;

/// Seconds for which a distribution cache may still be executed: 25 days.
pub const SHARE_CACHE_EXPIRE_SECS: i64 = 25 * 86400;

/// First year index (0-based) in which refunds are paid.
pub const START_YEAR_INDEX: u8 = 3;

/// Last year index (inclusive) in which refunds are paid.
pub const MAX_YEAR_INDEX: u8 = 9;

/// Seconds in one refund year of 365 days.
pub const SECONDS_PER_YEAR: i64 = 365 * 24 * 60 * 60;

/// Gas reserved for one distribution, before its entries are counted.
pub const ESTIMATE_SOL_BASE: u64 = 100_000;

/// Gas reserved for each entry of a distribution.
pub const ESTIMATE_SOL_PER_ENTRY: u64 = 5_000;

/// One whole, in basis points.
pub const BASIS_POINTS: u64 = 10_000;

/// One whole, in percent.
pub const PERCENT: u64 = 100;

/// The deployment environment, which decides the recognised asset identifiers.
#[derive(Clone, Copy, Debug, PartialEq, Eq, Structural)]
pub enum Network {
    Localnet,
    Devnet,
    Mainnet,
}

/// `FTenRK9zPfxc19UUpZJ2Wm8CXrWV4k8rH8vLh2TNTp6q`
pub const LOCALNET_USDT_MINT: Key = [
    214, 215, 112, 129, 200, 236, 145, 237, 14, 233, 230, 74, 30, 231, 84, 76,
    22, 199, 146, 107, 38, 247, 105, 136, 39, 53, 181, 240, 49, 121, 34, 206,
];

/// `7zpxGbRXo7qbtx4WCRo8y1vUr86B8un5x5UeSR4NLBuM`
pub const DEVNET_USDT_MINT: Key = [
    103, 246, 114, 189, 144, 102, 81, 195, 165, 180, 141, 175, 89, 23, 4, 232,
    76, 109, 43, 248, 184, 93, 239, 183, 176, 27, 227, 36, 25, 35, 90, 236,
];

/// `Es9vMFrzaCERmJfrF4H2FYD4KCoNkY11McCe8BenwNYB`
pub const MAINNET_USDT_MINT: Key = [
    206, 1, 14, 96, 175, 237, 178, 39, 23, 189, 99, 25, 47, 84, 20, 90,
    63, 150, 90, 51, 187, 130, 210, 199, 2, 158, 178, 206, 30, 32, 130, 100,
];

/// `9PwAsgkYQTQ6RipNuCkn74EgoXiMQWTaYhVip4CinRgG`
pub const LOCALNET_HCOIN_MINT: Key = [
    124, 189, 134, 16, 231, 108, 15, 18, 216, 203, 66, 153, 194, 68, 16, 44,
    69, 192, 211, 179, 213, 230, 193, 189, 28, 84, 130, 176, 85, 48, 171, 253,
];

/// `7iB42yQCPgaE2aqLr8gv6irbMk8xhjVQ3sRzw5ycKAYf`
pub const DEVNET_HCOIN_MINT: Key = [
    99, 178, 77, 8, 177, 9, 122, 148, 253, 200, 117, 125, 130, 145, 88, 1,
    136, 50, 50, 148, 241, 204, 83, 142, 44, 108, 22, 176, 3, 215, 25, 112,
];

/// `CJA59jCAoEoPnsWZyVJuH2WCM9uDxvjjomQam9du3Lu6`
pub const MAINNET_HCOIN_MINT: Key = [
    167, 213, 175, 235, 168, 159, 64, 185, 75, 253, 34, 148, 148, 57, 142, 177,
    224, 238, 237, 42, 108, 15, 103, 149, 42, 79, 18, 168, 34, 32, 226, 137,
];

/// The token program, `TokenkegQfeZyiNwAJbNbGKPFXCWuBvf9Ss623VQ5DA`.
pub const TOKEN_PROGRAM_ID: Key = [
    6, 221, 246, 225, 215, 101, 161, 147, 217, 203, 225, 70, 206, 235, 121, 172,
    28, 180, 133, 237, 95, 91, 55, 145, 58, 140, 245, 133, 126, 255, 0, 169,
];

/// The associated-token program, `ATokenGPvbdGVxr1b2hvZbsiqW5xWH25efTNsLJA8knL`.
pub const ASSOCIATED_TOKEN_PROGRAM_ID: Key = [
    140, 151, 37, 143, 78, 36, 137, 241, 187, 61, 16, 41, 20, 142, 13, 131,
    11, 90, 19, 153, 218, 255, 16, 132, 4, 142, 123, 216, 219, 233, 248, 89,
];

/// The primary (USDT) asset of a network.
pub open spec fn usdt_mint(network: Network) -> Key {
    match network {
        Network::Localnet => LOCALNET_USDT_MINT,
        Network::Devnet => DEVNET_USDT_MINT,
        Network::Mainnet => MAINNET_USDT_MINT,
    }
}

/// The secondary (H2COIN) asset of a network.
pub open spec fn hcoin_mint(network: Network) -> Key {
    match network {
        Network::Localnet => LOCALNET_HCOIN_MINT,
        Network::Devnet => DEVNET_HCOIN_MINT,
        Network::Mainnet => MAINNET_HCOIN_MINT,
    }
}

/// The identifier of the primary asset, in which profit is paid.
pub fn get_usdt_mint(network: Network) -> (mint: Key)
    ensures
        mint == usdt_mint(network),
{
    match network {
        Network::Localnet => LOCALNET_USDT_MINT,
        Network::Devnet => DEVNET_USDT_MINT,
        Network::Mainnet => MAINNET_USDT_MINT,
    }
}

/// The identifier of the secondary asset, in which refunds are paid.
pub fn get_hcoin_mint(network: Network) -> (mint: Key)
    ensures
        mint == hcoin_mint(network),
{
    match network {
        Network::Localnet => LOCALNET_HCOIN_MINT,
        Network::Devnet => DEVNET_HCOIN_MINT,
        Network::Mainnet => MAINNET_HCOIN_MINT,
    }
}

} // verus!
