use crate::pubkey::Pubkey;
use vstd::prelude::*;

verus! {

/// Share of each payment, in basis points, that goes to the custodial vault.
pub const INSURANCE_BPS: u64 = 5000;

/// Share of each payment, in basis points, that is burned.
pub const BURN_BPS: u64 = 5000;

/// Basis points in a whole: the two shares must sum to this.
pub const BPS_DENOMINATOR: u64 = 10_000;

/// Length of one subscription period: thirty days, in seconds.
pub const SUBSCRIPTION_TIME: i64 = 30 * 24 * 60 * 60;

/// The bytes of EWiVNxCqNatzV2paBHyfKUwGLnk7WKs9uZTA5jkTpump: the mint of the payment token.
pub open spec fn sakura_mint_bytes() -> Seq<u8> {
    seq![200u8, 196, 175, 130, 192, 162, 56, 69, 132, 116, 38, 48, 101, 91, 96, 34, 75, 31, 244, 11, 241, 88, 92, 141, 107, 120, 139, 36, 251, 214, 149, 207]
}

/// The mint of the payment token.
pub fn sakura_mint() -> (r: Pubkey)
    ensures
        r@ == sakura_mint_bytes(),
{
    let r = Pubkey { bytes: [200u8, 196, 175, 130, 192, 162, 56, 69, 132, 116, 38, 48, 101, 91, 96, 34, 75, 31, 244, 11, 241, 88, 92, 141, 107, 120, 139, 36, 251, 214, 149, 207] };
    assert(r@ =~= sakura_mint_bytes());
    r
}

/// The bytes of 63juJmvm1XHCHveWv9WdanxqJX6tD6DLFTZD7dvH12dc: the designated custodial vault that receives the insured share.
pub open spec fn insurance_vault_bytes() -> Seq<u8> {
    seq![74u8, 254, 27, 2, 179, 77, 185, 123, 166, 109, 122, 155, 119, 99, 49, 53, 206, 180, 62, 245, 118, 242, 129, 226, 191, 184, 182, 59, 49, 151, 244, 143]
}

/// The designated custodial vault that receives the insured share.
pub fn percolator_insurance_vault() -> (r: Pubkey)
    ensures
        r@ == insurance_vault_bytes(),
{
    let r = Pubkey { bytes: [74u8, 254, 27, 2, 179, 77, 185, 123, 166, 109, 122, 155, 119, 99, 49, 53, 206, 180, 62, 245, 118, 242, 129, 226, 191, 184, 182, 59, 49, 151, 244, 143] };
    assert(r@ =~= insurance_vault_bytes());
    r
}

/// The bytes of 11111111111111111111111111111111: the authority expected over the custodial vault.
pub open spec fn vault_authority_bytes() -> Seq<u8> {
    seq![0u8, 0, 0, 0, 0, 0, 0, 0, 0, 0, 0, 0, 0, 0, 0, 0, 0, 0, 0, 0, 0, 0, 0, 0, 0, 0, 0, 0, 0, 0, 0, 0]
}

/// The authority expected over the custodial vault.
pub fn percolator_vault_authority() -> (r: Pubkey)
    ensures
        r@ == vault_authority_bytes(),
{
    let r = Pubkey { bytes: [0u8, 0, 0, 0, 0, 0, 0, 0, 0, 0, 0, 0, 0, 0, 0, 0, 0, 0, 0, 0, 0, 0, 0, 0, 0, 0, 0, 0, 0, 0, 0, 0] };
    assert(r@ =~= vault_authority_bytes());
    r
}

/// The bytes of TokenkegQfeZyiNwAJbNbGKPFXCWuBvf9Ss623VQ5DA, the SPL token program's identity.
pub open spec fn token_program_bytes() -> Seq<u8> {
    seq![6u8, 221, 246, 225, 215, 101, 161, 147, 217, 203, 225, 70, 206, 235, 121, 172, 28, 180, 133, 237, 95, 91, 55, 145, 58, 140, 245, 133, 126, 255, 0, 169]
}

/// Relies on anchor_spl::token::ID (spl_token's declared program id), read as its 32 bytes.
#[verifier::external_body]
fn token_program_id_bytes() -> (r: [u8; 32])
    ensures
        r@ == token_program_bytes(),
{
    anchor_spl::token::ID.to_bytes()
}

/// The identity of the token program, which must own every token account.
pub fn token_program_id() -> (r: Pubkey)
    ensures
        r@ == token_program_bytes(),
{
    Pubkey::new_from_array(token_program_id_bytes())
}

} // verus!
