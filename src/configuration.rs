use vstd::prelude::*;
use solana_sdk::pubkey::Pubkey;
use solana_sdk::signature::{Keypair, Signer};
use crate::error::ProtocolError;

verus! {

/// Length in bytes of a serialized keypair: the secret seed, then the public key.
pub const KEYPAIR_LEN: usize = 64;

/// The bytes of a JSON array of byte values, or `None` where the text is not one.
pub uninterp spec fn json_byte_array(text: Seq<char>) -> Option<Seq<u8>>;

/// The public half of a 64-byte keypair matches the key that its secret half yields.
pub uninterp spec fn keypair_consistent(bytes: Seq<u8>) -> bool;

/// The key that a base58 text denotes, or `None` where it denotes none.
pub uninterp spec fn base58_key(text: Seq<char>) -> Option<Seq<u8>>;

/// Relies on `serde_json::from_str::<Vec<u8>>`: it parses a JSON array of integers in
/// `0..=255`, and its answer depends on the text alone.
#[verifier::external_body]
fn json_to_bytes(text: &str) -> (r: Option<Vec<u8>>)
    ensures
        r matches Some(v) ==> json_byte_array(text@) == Some(v@),
        r is None <==> json_byte_array(text@) is None,
{
    serde_json::from_str::<Vec<u8>>(text).ok()
}

/// Relies on `Keypair::try_from(&[u8])` and `Signer::pubkey`: it accepts exactly 64
/// bytes whose second half is the public key of the first, and that half is then the
/// keypair's public key.
#[verifier::external_body]
fn keypair_public_key(bytes: &Vec<u8>) -> (r: Option<[u8; 32]>)
    ensures
        r is Some <==> (bytes@.len() == KEYPAIR_LEN && keypair_consistent(bytes@)),
        r matches Some(k) ==> k@ == bytes@.subrange(32, 64),
{
    Keypair::try_from(bytes.as_slice()).ok().map(|k| k.pubkey().to_bytes())
}

/// Relies on `Pubkey::from_str`: it decodes base58 text of a 32-byte key.
#[verifier::external_body]
fn pubkey_from_str(text: &str) -> (r: Option<[u8; 32]>)
    ensures
        r matches Some(k) ==> base58_key(text@) == Some(k@),
        r is None <==> base58_key(text@) is None,
{
    text.parse::<Pubkey>().ok().map(|p| p.to_bytes())
}

/// The program's key material, as read from the configuration file.
pub struct Configuration {
    key_pair: Vec<u8>,
}

impl Configuration {
    pub closed spec fn spec_key_pair(&self) -> Seq<u8> {
        self.key_pair@
    }

    /// The stored keypair is a valid one.
    pub open spec fn wf(&self) -> bool {
        self.spec_key_pair().len() == KEYPAIR_LEN && keypair_consistent(self.spec_key_pair())
    }

    /// Builds the configuration from the stored text of the program's keypair, a JSON
    /// array of its 64 bytes.
    pub fn from_key_pair_text(text: String) -> (r: Result<Configuration, ProtocolError>)
        ensures
            r is Ok <==> (json_byte_array(text@) matches Some(b) && b.len() == KEYPAIR_LEN
                && keypair_consistent(b)),
            r matches Ok(c) ==> c.wf() && json_byte_array(text@) == Some(c.spec_key_pair()),
            r matches Err(e) ==> e == ProtocolError::KeyPairForProgramNotAvailable,
    {
        let bytes = Self::parse(text)?;
        match keypair_public_key(&bytes) {
            Some(_) => Ok(Configuration { key_pair: bytes }),
            None => Err(ProtocolError::KeyPairForProgramNotAvailable),
        }
    }

    /// The bytes that the stored text of a keypair lists.
    pub fn parse(keypair: String) -> (r: Result<Vec<u8>, ProtocolError>)
        ensures
            r is Ok <==> json_byte_array(keypair@) is Some,
            r matches Ok(b) ==> json_byte_array(keypair@) == Some(b@),
            r matches Err(e) ==> e == ProtocolError::KeyPairForProgramNotAvailable,
    {
        match json_to_bytes(keypair.as_str()) {
            Some(b) => Ok(b),
            None => Err(ProtocolError::KeyPairForProgramNotAvailable),
        }
    }

    /// The key denoted by a base58 program id.
    pub fn parse_program_id(program_id: String) -> (r: Result<[u8; 32], ProtocolError>)
        ensures
            r is Ok <==> base58_key(program_id@) is Some,
            r matches Ok(k) ==> base58_key(program_id@) == Some(k@),
            r matches Err(e) ==> e == ProtocolError::KeyPairForProgramNotAvailable,
    {
        match pubkey_from_str(program_id.as_str()) {
            Some(k) => Ok(k),
            None => Err(ProtocolError::KeyPairForProgramNotAvailable),
        }
    }

    /// The program's public key: the second half of its keypair.
    pub fn program_id(&self) -> (r: [u8; 32])
        requires
            self.wf(),
        ensures
            r@ == self.spec_key_pair().subrange(32, 64),
    {
        let mut key: [u8; 32] = [0u8; 32];
        let mut i: usize = 0;
        while i < 32
            invariant
                0 <= i <= 32,
                self.key_pair@.len() == KEYPAIR_LEN,
                forall|j: int| 0 <= j < i ==> key@[j] == self.key_pair@[32 + j],
            decreases 32 - i,
        {
            key.set(i, self.key_pair[32 + i]);
            i = i + 1;
        }
        assert(key@ =~= self.key_pair@.subrange(32, 64));
        key
    }

    /// The stored keypair bytes.
    pub fn key_pair(&self) -> (r: &Vec<u8>)
        ensures
            r@ == self.spec_key_pair(),
    {
        &self.key_pair
    }
}

} // verus!
