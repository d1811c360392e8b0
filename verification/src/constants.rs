//! The addresses that the engine knows by heart: programs, mints, banks,
//! the pool and the farm.
use crate::address::Address;
use vstd::prelude::*;

verus! {

/// The token program. In base 58 it reads
/// `TokenkegQfeZyiNwAJbNbGKPFXCWuBvf9Ss623VQ5DA`.
pub fn spl_token() -> (r: Address)
    ensures
        r == spl_token_address(),
        r@ == spl_token_bytes(),
{
    let r = Address::new([
        6, 221, 246, 225, 215, 101, 161, 147,
        217, 203, 225, 70, 206, 235, 121, 172,
        28, 180, 133, 237, 95, 91, 55, 145,
        58, 140, 245, 133, 126, 255, 0, 169,
    ]);
    assert(r@ =~= spl_token_bytes());
    r
}

/// The address of `spl_token`.
pub open spec fn spl_token_address() -> Address {
    Address {
        bytes: [
        6u8, 221u8, 246u8, 225u8, 215u8, 101u8, 161u8, 147u8,
        217u8, 203u8, 225u8, 70u8, 206u8, 235u8, 121u8, 172u8,
        28u8, 180u8, 133u8, 237u8, 95u8, 91u8, 55u8, 145u8,
        58u8, 140u8, 245u8, 133u8, 126u8, 255u8, 0u8, 169u8,
        ],
    }
}

/// The bytes of `spl_token`.
pub open spec fn spl_token_bytes() -> Seq<u8> {
    seq![
        6u8, 221u8, 246u8, 225u8, 215u8, 101u8, 161u8, 147u8,
        217u8, 203u8, 225u8, 70u8, 206u8, 235u8, 121u8, 172u8,
        28u8, 180u8, 133u8, 237u8, 95u8, 91u8, 55u8, 145u8,
        58u8, 140u8, 245u8, 133u8, 126u8, 255u8, 0u8, 169u8,
    ]
}

/// The program of associated token accounts. In base 58 it reads
/// `ATokenGPvbdGVxr1b2hvZbsiqW5xWH25efTNsLJA8knL`.
pub fn associated_token() -> (r: Address)
    ensures
        r == associated_token_address(),
        r@ == associated_token_bytes(),
{
    let r = Address::new([
        140, 151, 37, 143, 78, 36, 137, 241,
        187, 61, 16, 41, 20, 142, 13, 131,
        11, 90, 19, 153, 218, 255, 16, 132,
        4, 142, 123, 216, 219, 233, 248, 89,
    ]);
    assert(r@ =~= associated_token_bytes());
    r
}

/// The address of `associated_token`.
pub open spec fn associated_token_address() -> Address {
    Address {
        bytes: [
        140u8, 151u8, 37u8, 143u8, 78u8, 36u8, 137u8, 241u8,
        187u8, 61u8, 16u8, 41u8, 20u8, 142u8, 13u8, 131u8,
        11u8, 90u8, 19u8, 153u8, 218u8, 255u8, 16u8, 132u8,
        4u8, 142u8, 123u8, 216u8, 219u8, 233u8, 248u8, 89u8,
        ],
    }
}

/// The bytes of `associated_token`.
pub open spec fn associated_token_bytes() -> Seq<u8> {
    seq![
        140u8, 151u8, 37u8, 143u8, 78u8, 36u8, 137u8, 241u8,
        187u8, 61u8, 16u8, 41u8, 20u8, 142u8, 13u8, 131u8,
        11u8, 90u8, 19u8, 153u8, 218u8, 255u8, 16u8, 132u8,
        4u8, 142u8, 123u8, 216u8, 219u8, 233u8, 248u8, 89u8,
    ]
}

/// The mint of bSOL. In base 58 it reads
/// `bSo13r4TkiE4KumL71LsHTPpL2euBYLFx6h9HP3piy1`.
pub fn mint_bsol() -> (r: Address)
    ensures
        r == mint_bsol_address(),
        r@ == mint_bsol_bytes(),
{
    let r = Address::new([
        8, 210, 233, 112, 249, 60, 123, 61,
        80, 25, 30, 97, 26, 205, 147, 170,
        128, 165, 70, 180, 94, 201, 101, 225,
        139, 5, 135, 21, 86, 153, 200, 172,
    ]);
    assert(r@ =~= mint_bsol_bytes());
    r
}

/// The address of `mint_bsol`.
pub open spec fn mint_bsol_address() -> Address {
    Address {
        bytes: [
        8u8, 210u8, 233u8, 112u8, 249u8, 60u8, 123u8, 61u8,
        80u8, 25u8, 30u8, 97u8, 26u8, 205u8, 147u8, 170u8,
        128u8, 165u8, 70u8, 180u8, 94u8, 201u8, 101u8, 225u8,
        139u8, 5u8, 135u8, 21u8, 86u8, 153u8, 200u8, 172u8,
        ],
    }
}

/// The bytes of `mint_bsol`.
pub open spec fn mint_bsol_bytes() -> Seq<u8> {
    seq![
        8u8, 210u8, 233u8, 112u8, 249u8, 60u8, 123u8, 61u8,
        80u8, 25u8, 30u8, 97u8, 26u8, 205u8, 147u8, 170u8,
        128u8, 165u8, 70u8, 180u8, 94u8, 201u8, 101u8, 225u8,
        139u8, 5u8, 135u8, 21u8, 86u8, 153u8, 200u8, 172u8,
    ]
}

/// The mint of UXD. In base 58 it reads
/// `7kbnvuGBxxj8AG9qp8Scn56muWGaRaFqxg1FsRp3PaFT`.
pub fn mint_uxd() -> (r: Address)
    ensures
        r == mint_uxd_address(),
        r@ == mint_uxd_bytes(),
{
    let r = Address::new([
        100, 81, 111, 135, 74, 19, 30, 118,
        215, 231, 248, 167, 144, 27, 99, 158,
        233, 25, 197, 168, 55, 48, 118, 3,
        230, 58, 245, 78, 243, 59, 171, 218,
    ]);
    assert(r@ =~= mint_uxd_bytes());
    r
}

/// The address of `mint_uxd`.
pub open spec fn mint_uxd_address() -> Address {
    Address {
        bytes: [
        100u8, 81u8, 111u8, 135u8, 74u8, 19u8, 30u8, 118u8,
        215u8, 231u8, 248u8, 167u8, 144u8, 27u8, 99u8, 158u8,
        233u8, 25u8, 197u8, 168u8, 55u8, 48u8, 118u8, 3u8,
        230u8, 58u8, 245u8, 78u8, 243u8, 59u8, 171u8, 218u8,
        ],
    }
}

/// The bytes of `mint_uxd`.
pub open spec fn mint_uxd_bytes() -> Seq<u8> {
    seq![
        100u8, 81u8, 111u8, 135u8, 74u8, 19u8, 30u8, 118u8,
        215u8, 231u8, 248u8, 167u8, 144u8, 27u8, 99u8, 158u8,
        233u8, 25u8, 197u8, 168u8, 55u8, 48u8, 118u8, 3u8,
        230u8, 58u8, 245u8, 78u8, 243u8, 59u8, 171u8, 218u8,
    ]
}

/// The mint of USDT. In base 58 it reads
/// `Es9vMFrzaCERmJfrF4H2FYD4KCoNkY11McCe8BenwNYB`.
pub fn mint_usdt() -> (r: Address)
    ensures
        r == mint_usdt_address(),
        r@ == mint_usdt_bytes(),
{
    let r = Address::new([
        206, 1, 14, 96, 175, 237, 178, 39,
        23, 189, 99, 25, 47, 84, 20, 90,
        63, 150, 90, 51, 187, 130, 210, 199,
        2, 158, 178, 206, 30, 32, 130, 100,
    ]);
    assert(r@ =~= mint_usdt_bytes());
    r
}

/// The address of `mint_usdt`.
pub open spec fn mint_usdt_address() -> Address {
    Address {
        bytes: [
        206u8, 1u8, 14u8, 96u8, 175u8, 237u8, 178u8, 39u8,
        23u8, 189u8, 99u8, 25u8, 47u8, 84u8, 20u8, 90u8,
        63u8, 150u8, 90u8, 51u8, 187u8, 130u8, 210u8, 199u8,
        2u8, 158u8, 178u8, 206u8, 30u8, 32u8, 130u8, 100u8,
        ],
    }
}

/// The bytes of `mint_usdt`.
pub open spec fn mint_usdt_bytes() -> Seq<u8> {
    seq![
        206u8, 1u8, 14u8, 96u8, 175u8, 237u8, 178u8, 39u8,
        23u8, 189u8, 99u8, 25u8, 47u8, 84u8, 20u8, 90u8,
        63u8, 150u8, 90u8, 51u8, 187u8, 130u8, 210u8, 199u8,
        2u8, 158u8, 178u8, 206u8, 30u8, 32u8, 130u8, 100u8,
    ]
}

/// The mint of USDC. In base 58 it reads
/// `EPjFWdd5AufqSSqeM2qN1xzybapC8G4wEGGkZwyTDt1v`.
pub fn mint_usdc() -> (r: Address)
    ensures
        r == mint_usdc_address(),
        r@ == mint_usdc_bytes(),
{
    let r = Address::new([
        198, 250, 122, 243, 190, 219, 173, 58,
        61, 101, 243, 106, 171, 201, 116, 49,
        177, 187, 228, 194, 210, 246, 224, 228,
        124, 166, 2, 3, 69, 47, 93, 97,
    ]);
    assert(r@ =~= mint_usdc_bytes());
    r
}

/// The address of `mint_usdc`.
pub open spec fn mint_usdc_address() -> Address {
    Address {
        bytes: [
        198u8, 250u8, 122u8, 243u8, 190u8, 219u8, 173u8, 58u8,
        61u8, 101u8, 243u8, 106u8, 171u8, 201u8, 116u8, 49u8,
        177u8, 187u8, 228u8, 194u8, 210u8, 246u8, 224u8, 228u8,
        124u8, 166u8, 2u8, 3u8, 69u8, 47u8, 93u8, 97u8,
        ],
    }
}

/// The bytes of `mint_usdc`.
pub open spec fn mint_usdc_bytes() -> Seq<u8> {
    seq![
        198u8, 250u8, 122u8, 243u8, 190u8, 219u8, 173u8, 58u8,
        61u8, 101u8, 243u8, 106u8, 171u8, 201u8, 116u8, 49u8,
        177u8, 187u8, 228u8, 194u8, 210u8, 246u8, 224u8, 228u8,
        124u8, 166u8, 2u8, 3u8, 69u8, 47u8, 93u8, 97u8,
    ]
}

/// The lending group. In base 58 it reads
/// `4qp6Fx6tnZkY5Wropq9wUYgtFxXKwE6viZxFHg3rdAG8`.
pub fn marginfi_group() -> (r: Address)
    ensures
        r == marginfi_group_address(),
        r@ == marginfi_group_bytes(),
{
    let r = Address::new([
        57, 20, 47, 104, 47, 216, 56, 132,
        150, 236, 189, 81, 6, 241, 92, 121,
        76, 36, 119, 67, 56, 40, 250, 102,
        66, 219, 235, 247, 32, 3, 74, 97,
    ]);
    assert(r@ =~= marginfi_group_bytes());
    r
}

/// The address of `marginfi_group`.
pub open spec fn marginfi_group_address() -> Address {
    Address {
        bytes: [
        57u8, 20u8, 47u8, 104u8, 47u8, 216u8, 56u8, 132u8,
        150u8, 236u8, 189u8, 81u8, 6u8, 241u8, 92u8, 121u8,
        76u8, 36u8, 119u8, 67u8, 56u8, 40u8, 250u8, 102u8,
        66u8, 219u8, 235u8, 247u8, 32u8, 3u8, 74u8, 97u8,
        ],
    }
}

/// The bytes of `marginfi_group`.
pub open spec fn marginfi_group_bytes() -> Seq<u8> {
    seq![
        57u8, 20u8, 47u8, 104u8, 47u8, 216u8, 56u8, 132u8,
        150u8, 236u8, 189u8, 81u8, 6u8, 241u8, 92u8, 121u8,
        76u8, 36u8, 119u8, 67u8, 56u8, 40u8, 250u8, 102u8,
        66u8, 219u8, 235u8, 247u8, 32u8, 3u8, 74u8, 97u8,
    ]
}

/// The bank of bSOL in the lending group. In base 58 it reads
/// `6hS9i46WyTq1KXcoa2Chas2Txh9TJAVr6n1t3tnrE23K`.
pub fn marginfi_bank_bsol() -> (r: Address)
    ensures
        r == marginfi_bank_bsol_address(),
        r@ == marginfi_bank_bsol_bytes(),
{
    let r = Address::new([
        84, 166, 26, 182, 53, 207, 129, 46,
        170, 197, 229, 68, 216, 215, 178, 108,
        155, 216, 65, 214, 28, 76, 90, 174,
        67, 206, 52, 118, 163, 41, 65, 162,
    ]);
    assert(r@ =~= marginfi_bank_bsol_bytes());
    r
}

/// The address of `marginfi_bank_bsol`.
pub open spec fn marginfi_bank_bsol_address() -> Address {
    Address {
        bytes: [
        84u8, 166u8, 26u8, 182u8, 53u8, 207u8, 129u8, 46u8,
        170u8, 197u8, 229u8, 68u8, 216u8, 215u8, 178u8, 108u8,
        155u8, 216u8, 65u8, 214u8, 28u8, 76u8, 90u8, 174u8,
        67u8, 206u8, 52u8, 118u8, 163u8, 41u8, 65u8, 162u8,
        ],
    }
}

/// The bytes of `marginfi_bank_bsol`.
pub open spec fn marginfi_bank_bsol_bytes() -> Seq<u8> {
    seq![
        84u8, 166u8, 26u8, 182u8, 53u8, 207u8, 129u8, 46u8,
        170u8, 197u8, 229u8, 68u8, 216u8, 215u8, 178u8, 108u8,
        155u8, 216u8, 65u8, 214u8, 28u8, 76u8, 90u8, 174u8,
        67u8, 206u8, 52u8, 118u8, 163u8, 41u8, 65u8, 162u8,
    ]
}

/// The bank of UXD in the lending group. In base 58 it reads
/// `BeNBJrAh1tZg5sqgt8D6AWKJLD5KkBrfZvtcgd7EuiAR`.
pub fn marginfi_bank_uxd() -> (r: Address)
    ensures
        r == marginfi_bank_uxd_address(),
        r@ == marginfi_bank_uxd_bytes(),
{
    let r = Address::new([
        158, 39, 78, 15, 108, 120, 179, 145,
        241, 225, 159, 31, 109, 131, 198, 45,
        39, 203, 65, 47, 208, 39, 200, 253,
        93, 225, 44, 212, 228, 6, 152, 22,
    ]);
    assert(r@ =~= marginfi_bank_uxd_bytes());
    r
}

/// The address of `marginfi_bank_uxd`.
pub open spec fn marginfi_bank_uxd_address() -> Address {
    Address {
        bytes: [
        158u8, 39u8, 78u8, 15u8, 108u8, 120u8, 179u8, 145u8,
        241u8, 225u8, 159u8, 31u8, 109u8, 131u8, 198u8, 45u8,
        39u8, 203u8, 65u8, 47u8, 208u8, 39u8, 200u8, 253u8,
        93u8, 225u8, 44u8, 212u8, 228u8, 6u8, 152u8, 22u8,
        ],
    }
}

/// The bytes of `marginfi_bank_uxd`.
pub open spec fn marginfi_bank_uxd_bytes() -> Seq<u8> {
    seq![
        158u8, 39u8, 78u8, 15u8, 108u8, 120u8, 179u8, 145u8,
        241u8, 225u8, 159u8, 31u8, 109u8, 131u8, 198u8, 45u8,
        39u8, 203u8, 65u8, 47u8, 208u8, 39u8, 200u8, 253u8,
        93u8, 225u8, 44u8, 212u8, 228u8, 6u8, 152u8, 22u8,
    ]
}

/// The bank of USDT in the lending group. In base 58 it reads
/// `HmpMfL8942u22htC4EMiWgLX931g3sacXFR6KjuLgKLV`.
pub fn marginfi_bank_usdt() -> (r: Address)
    ensures
        r == marginfi_bank_usdt_address(),
        r@ == marginfi_bank_usdt_bytes(),
{
    let r = Address::new([
        249, 54, 23, 159, 26, 194, 235, 166,
        8, 57, 159, 92, 151, 140, 6, 168,
        90, 53, 205, 157, 183, 149, 173, 191,
        225, 177, 83, 222, 70, 34, 154, 58,
    ]);
    assert(r@ =~= marginfi_bank_usdt_bytes());
    r
}

/// The address of `marginfi_bank_usdt`.
pub open spec fn marginfi_bank_usdt_address() -> Address {
    Address {
        bytes: [
        249u8, 54u8, 23u8, 159u8, 26u8, 194u8, 235u8, 166u8,
        8u8, 57u8, 159u8, 92u8, 151u8, 140u8, 6u8, 168u8,
        90u8, 53u8, 205u8, 157u8, 183u8, 149u8, 173u8, 191u8,
        225u8, 177u8, 83u8, 222u8, 70u8, 34u8, 154u8, 58u8,
        ],
    }
}

/// The bytes of `marginfi_bank_usdt`.
pub open spec fn marginfi_bank_usdt_bytes() -> Seq<u8> {
    seq![
        249u8, 54u8, 23u8, 159u8, 26u8, 194u8, 235u8, 166u8,
        8u8, 57u8, 159u8, 92u8, 151u8, 140u8, 6u8, 168u8,
        90u8, 53u8, 205u8, 157u8, 183u8, 149u8, 173u8, 191u8,
        225u8, 177u8, 83u8, 222u8, 70u8, 34u8, 154u8, 58u8,
    ]
}

/// The bank of USDC in the lending group. In base 58 it reads
/// `4SryZ4bWGqEsNjbqNUKuxnoyagWgbxj6MavyUF2HRzhA`.
pub fn marginfi_bank_usdc() -> (r: Address)
    ensures
        r == marginfi_bank_usdc_address(),
        r@ == marginfi_bank_usdc_bytes(),
{
    let r = Address::new([
        51, 51, 22, 133, 102, 113, 141, 35,
        148, 196, 33, 31, 145, 143, 247, 11,
        224, 115, 204, 48, 156, 69, 250, 56,
        144, 45, 206, 5, 174, 157, 145, 125,
    ]);
    assert(r@ =~= marginfi_bank_usdc_bytes());
    r
}

/// The address of `marginfi_bank_usdc`.
pub open spec fn marginfi_bank_usdc_address() -> Address {
    Address {
        bytes: [
        51u8, 51u8, 22u8, 133u8, 102u8, 113u8, 141u8, 35u8,
        148u8, 196u8, 33u8, 31u8, 145u8, 143u8, 247u8, 11u8,
        224u8, 115u8, 204u8, 48u8, 156u8, 69u8, 250u8, 56u8,
        144u8, 45u8, 206u8, 5u8, 174u8, 157u8, 145u8, 125u8,
        ],
    }
}

/// The bytes of `marginfi_bank_usdc`.
pub open spec fn marginfi_bank_usdc_bytes() -> Seq<u8> {
    seq![
        51u8, 51u8, 22u8, 133u8, 102u8, 113u8, 141u8, 35u8,
        148u8, 196u8, 33u8, 31u8, 145u8, 143u8, 247u8, 11u8,
        224u8, 115u8, 204u8, 48u8, 156u8, 69u8, 250u8, 56u8,
        144u8, 45u8, 206u8, 5u8, 174u8, 157u8, 145u8, 125u8,
    ]
}

/// The pool of acUSD and USDC. In base 58 it reads
/// `6ZLKLjMd2KzH7PPHCXUPgbMAtdTT37VgTtdeXWLoJppr`.
pub fn meteora_acusd_usdc_pool() -> (r: Address)
    ensures
        r == meteora_acusd_usdc_pool_address(),
        r@ == meteora_acusd_usdc_pool_bytes(),
{
    let r = Address::new([
        82, 146, 220, 134, 179, 151, 179, 134,
        191, 76, 245, 15, 132, 82, 182, 223,
        57, 244, 220, 73, 96, 96, 140, 201,
        200, 134, 132, 210, 217, 27, 14, 27,
    ]);
    assert(r@ =~= meteora_acusd_usdc_pool_bytes());
    r
}

/// The address of `meteora_acusd_usdc_pool`.
pub open spec fn meteora_acusd_usdc_pool_address() -> Address {
    Address {
        bytes: [
        82u8, 146u8, 220u8, 134u8, 179u8, 151u8, 179u8, 134u8,
        191u8, 76u8, 245u8, 15u8, 132u8, 82u8, 182u8, 223u8,
        57u8, 244u8, 220u8, 73u8, 96u8, 96u8, 140u8, 201u8,
        200u8, 134u8, 132u8, 210u8, 217u8, 27u8, 14u8, 27u8,
        ],
    }
}

/// The bytes of `meteora_acusd_usdc_pool`.
pub open spec fn meteora_acusd_usdc_pool_bytes() -> Seq<u8> {
    seq![
        82u8, 146u8, 220u8, 134u8, 179u8, 151u8, 179u8, 134u8,
        191u8, 76u8, 245u8, 15u8, 132u8, 82u8, 182u8, 223u8,
        57u8, 244u8, 220u8, 73u8, 96u8, 96u8, 140u8, 201u8,
        200u8, 134u8, 132u8, 210u8, 217u8, 27u8, 14u8, 27u8,
    ]
}

/// The farm of the pool of acUSD and USDC. In base 58 it reads
/// `9dGX6N3FLAVfKmvtkwHA9MVGsvEqGKnLFDQQFbw5dprr`.
pub fn meteora_acusd_usdc_farm() -> (r: Address)
    ensures
        r == meteora_acusd_usdc_farm_address(),
        r@ == meteora_acusd_usdc_farm_bytes(),
{
    let r = Address::new([
        128, 39, 243, 165, 72, 251, 215, 102,
        129, 156, 98, 175, 59, 196, 89, 95,
        18, 183, 88, 146, 70, 139, 31, 174,
        193, 13, 58, 161, 58, 158, 171, 7,
    ]);
    assert(r@ =~= meteora_acusd_usdc_farm_bytes());
    r
}

/// The address of `meteora_acusd_usdc_farm`.
pub open spec fn meteora_acusd_usdc_farm_address() -> Address {
    Address {
        bytes: [
        128u8, 39u8, 243u8, 165u8, 72u8, 251u8, 215u8, 102u8,
        129u8, 156u8, 98u8, 175u8, 59u8, 196u8, 89u8, 95u8,
        18u8, 183u8, 88u8, 146u8, 70u8, 139u8, 31u8, 174u8,
        193u8, 13u8, 58u8, 161u8, 58u8, 158u8, 171u8, 7u8,
        ],
    }
}

/// The bytes of `meteora_acusd_usdc_farm`.
pub open spec fn meteora_acusd_usdc_farm_bytes() -> Seq<u8> {
    seq![
        128u8, 39u8, 243u8, 165u8, 72u8, 251u8, 215u8, 102u8,
        129u8, 156u8, 98u8, 175u8, 59u8, 196u8, 89u8, 95u8,
        18u8, 183u8, 88u8, 146u8, 70u8, 139u8, 31u8, 174u8,
        193u8, 13u8, 58u8, 161u8, 58u8, 158u8, 171u8, 7u8,
    ]
}

/// The farming program. In base 58 it reads
/// `FarmuwXPWXvefWUeqFAa5w6rifLkq5X6E8bimYvrhCB1`.
pub fn meteora_farm() -> (r: Address)
    ensures
        r == meteora_farm_address(),
        r@ == meteora_farm_bytes(),
{
    let r = Address::new([
        216, 176, 16, 79, 149, 70, 145, 223,
        102, 14, 221, 170, 20, 245, 142, 192,
        32, 9, 78, 149, 0, 246, 193, 148,
        88, 177, 252, 33, 83, 11, 100, 0,
    ]);
    assert(r@ =~= meteora_farm_bytes());
    r
}

/// The address of `meteora_farm`.
pub open spec fn meteora_farm_address() -> Address {
    Address {
        bytes: [
        216u8, 176u8, 16u8, 79u8, 149u8, 70u8, 145u8, 223u8,
        102u8, 14u8, 221u8, 170u8, 20u8, 245u8, 142u8, 192u8,
        32u8, 9u8, 78u8, 149u8, 0u8, 246u8, 193u8, 148u8,
        88u8, 177u8, 252u8, 33u8, 83u8, 11u8, 100u8, 0u8,
        ],
    }
}

/// The bytes of `meteora_farm`.
pub open spec fn meteora_farm_bytes() -> Seq<u8> {
    seq![
        216u8, 176u8, 16u8, 79u8, 149u8, 70u8, 145u8, 223u8,
        102u8, 14u8, 221u8, 170u8, 20u8, 245u8, 142u8, 192u8,
        32u8, 9u8, 78u8, 149u8, 0u8, 246u8, 193u8, 148u8,
        88u8, 177u8, 252u8, 33u8, 83u8, 11u8, 100u8, 0u8,
    ]
}

} // verus!
