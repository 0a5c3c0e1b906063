use vstd::prelude::*;
use crate::address::Address;

verus! {

/// Mint of USDC on mainnet.
pub open spec fn usdc_mainnet_bytes() -> Seq<u8> {
    seq![
        198u8, 250, 122, 243, 190, 219, 173, 58, 61, 101, 243, 106, 171, 201, 116, 49, 177, 187,
        228, 194, 210, 246, 224, 228, 124, 166, 2, 3, 69, 47, 93, 97,
    ]
}

pub fn usdc_mainnet() -> (r: Address)
    ensures
        r@ == usdc_mainnet_bytes(),
{
    let r = Address {
        bytes: [
            198, 250, 122, 243, 190, 219, 173, 58, 61, 101, 243, 106, 171, 201, 116, 49, 177, 187,
            228, 194, 210, 246, 224, 228, 124, 166, 2, 3, 69, 47, 93, 97,
        ],
    };
    assert(r@ =~= usdc_mainnet_bytes());
    r
}

/// Mint of USDT on mainnet.
pub open spec fn usdt_mainnet_bytes() -> Seq<u8> {
    seq![
        206u8, 1, 14, 96, 175, 237, 178, 39, 23, 189, 99, 25, 47, 84, 20, 90, 63, 150, 90, 51,
        187, 130, 210, 199, 2, 158, 178, 206, 30, 32, 130, 100,
    ]
}

pub fn usdt_mainnet() -> (r: Address)
    ensures
        r@ == usdt_mainnet_bytes(),
{
    let r = Address {
        bytes: [
            206, 1, 14, 96, 175, 237, 178, 39, 23, 189, 99, 25, 47, 84, 20, 90, 63, 150, 90, 51,
            187, 130, 210, 199, 2, 158, 178, 206, 30, 32, 130, 100,
        ],
    };
    assert(r@ =~= usdt_mainnet_bytes());
    r
}

/// Mint of USDC on devnet.
pub open spec fn usdc_devnet_bytes() -> Seq<u8> {
    seq![
        233u8, 40, 57, 85, 9, 101, 255, 212, 214, 74, 202, 175, 70, 212, 93, 247, 49, 142, 91,
        79, 87, 201, 12, 72, 125, 96, 94, 89, 86, 98, 46, 123,
    ]
}

pub fn usdc_devnet() -> (r: Address)
    ensures
        r@ == usdc_devnet_bytes(),
{
    let r = Address {
        bytes: [
            233, 40, 57, 85, 9, 101, 255, 212, 214, 74, 202, 175, 70, 212, 93, 247, 49, 142, 91, 79,
            87, 201, 12, 72, 125, 96, 94, 89, 86, 98, 46, 123,
        ],
    };
    assert(r@ =~= usdc_devnet_bytes());
    r
}

/// Whether a token mint is one of the known stablecoins.
pub fn is_stablecoin(mint: &Address) -> (r: bool)
    ensures
        r == (mint@ == usdc_mainnet_bytes() || mint@ == usdt_mainnet_bytes() || mint@
            == usdc_devnet_bytes()),
{
    mint.same_as(&usdc_mainnet()) || mint.same_as(&usdt_mainnet()) || mint.same_as(&usdc_devnet())
}

} // verus!
