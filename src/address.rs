use vstd::prelude::*;
use solana_sdk::pubkey::Pubkey;
use crate::error::ProtocolError;
use vstd::string::StringSliceAdditionalSpecFns;

verus! {

broadcast use vstd::string::group_string_axioms;

/// Seed mixed into the instance account's address. The deployed program derives
/// the same address from the same seed, so the two must agree exactly.
pub const SEED: &'static str = "WHATEVER";

/// The longest seed, in bytes, that address derivation accepts.
pub const MAX_SEED_LEN: usize = 32;

/// The bytes of "ProgramDerivedAddress": an owner whose key ends in them is refused.
pub open spec fn pda_marker() -> Seq<u8> {
    seq![
        80u8, 114u8, 111u8, 103u8, 114u8, 97u8, 109u8, 68u8, 101u8, 114u8, 105u8, 118u8,
        101u8, 100u8, 65u8, 100u8, 100u8, 114u8, 101u8, 115u8, 115u8,
    ]
}

/// The owner key ends in the program-derived marker.
pub open spec fn has_pda_marker(owner: Seq<u8>) -> bool {
    owner.len() >= pda_marker().len() && owner.subrange(
        owner.len() - pda_marker().len(),
        owner.len() as int,
    ) == pda_marker()
}

/// Derivation accepts the seed and the owner.
pub open spec fn seed_accepted(seed: Seq<u8>, owner: Seq<u8>) -> bool {
    seed.len() <= MAX_SEED_LEN && !has_pda_marker(owner)
}

/// The address derived from a base key, a seed and an owner program (a one-way hash
/// of the three).
pub uninterp spec fn address_with_seed(base: Seq<u8>, seed: Seq<u8>, owner: Seq<u8>) -> Seq<u8>;

/// The bytes of `SEED`.
pub open spec fn seed_bytes() -> Seq<u8> {
    SEED.spec_bytes()
}

/// The instance address of a payer and a program, or `None` where derivation refuses
/// the program key.
pub open spec fn instance_address(payer: Seq<u8>, program: Seq<u8>) -> Option<Seq<u8>> {
    if seed_accepted(seed_bytes(), program) {
        Some(address_with_seed(payer, seed_bytes(), program))
    } else {
        None
    }
}

/// Relies on `Pubkey::create_with_seed`: it refuses a seed of more than `MAX_SEED_LEN`
/// bytes and an owner that ends in the program-derived marker, and otherwise returns
/// the hash of base, seed and owner, which depends on those three alone.
#[verifier::external_body]
fn create_with_seed(base: &[u8; 32], seed: &str, owner: &[u8; 32]) -> (r: Option<[u8; 32]>)
    ensures
        r is Some <==> seed_accepted(seed.spec_bytes(), owner@),
        r matches Some(a) ==> a@ == address_with_seed(base@, seed.spec_bytes(), owner@),
{
    let base = Pubkey::new_from_array(*base);
    let owner = Pubkey::new_from_array(*owner);
    Pubkey::create_with_seed(&base, seed, &owner).ok().map(|p| p.to_bytes())
}

proof fn lemma_seed_fits()
    ensures
        seed_bytes().len() == 8,
{
    reveal_strlit("WHATEVER");
    assert(vstd::string::is_ascii(SEED));
    assert(seed_bytes().len() == SEED@.len());
}

/// Derives the address of the payer's instance account of the program. This is a
/// pure computation: no network is consulted.
pub fn derive_instance_address(payer: &[u8; 32], program: &[u8; 32]) -> (r: Result<
    [u8; 32],
    ProtocolError,
>)
    ensures
        r is Ok <==> instance_address(payer@, program@) is Some,
        r matches Ok(a) ==> Some(a@) == instance_address(payer@, program@),
        r matches Err(e) ==> e == ProtocolError::AccountDerivationFailure,
        r is Ok <==> !has_pda_marker(program@),
{
    proof {
        lemma_seed_fits();
    }
    match create_with_seed(payer, SEED, program) {
        Some(a) => Ok(a),
        None => Err(ProtocolError::AccountDerivationFailure),
    }
}

/// Deriving the instance address is deterministic: the same payer and program give
/// the same outcome on every call and in every process.
pub proof fn lemma_instance_address_deterministic(
    payer: Seq<u8>,
    program: Seq<u8>,
    payer2: Seq<u8>,
    program2: Seq<u8>,
)
    requires
        payer == payer2,
        program == program2,
    ensures
        instance_address(payer, program) == instance_address(payer2, program2),
{
}

} // verus!
