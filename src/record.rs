use vstd::prelude::*;

verus! {

/// Size in bytes of the record that the program keeps in the instance account.
pub const RECORD_SIZE: usize = 4;

/// The record that the program keeps in the instance account: a counter.
#[derive(Debug, Clone, Copy, PartialEq, Eq, Structural)]
pub struct CounterRecord {
    pub counter: u32,
}

/// The four bytes of `v`, least significant first.
pub open spec fn le_bytes_u32(v: u32) -> Seq<u8> {
    seq![
        (v % 0x100) as u8,
        ((v / 0x100) % 0x100) as u8,
        ((v / 0x10000) % 0x100) as u8,
        (v / 0x1000000) as u8,
    ]
}

/// Relies on `borsh::to_vec` for a `u32`: it writes the four bytes of the value, least
/// significant first, into a fresh vector, a writer that never fails.
#[verifier::external_body]
fn borsh_u32(v: &u32) -> (r: Option<Vec<u8>>)
    ensures
        r is Some,
        r matches Some(b) ==> b@ == le_bytes_u32(*v),
{
    borsh::to_vec(v).ok()
}

impl CounterRecord {
    /// A record whose counter is zero.
    pub fn new() -> (r: CounterRecord)
        ensures
            r.counter == 0,
    {
        CounterRecord { counter: 0 }
    }

    /// The record's wire form: the counter's four bytes, least significant first.
    pub fn serialize(&self) -> (r: Vec<u8>)
        ensures
            r@ == le_bytes_u32(self.counter),
            r@.len() == RECORD_SIZE,
    {
        match borsh_u32(&self.counter) {
            Some(b) => b,
            None => Vec::new(),
        }
    }

    /// The number of bytes the program stores for a record.
    pub fn get_contract_size() -> (r: usize)
        ensures
            r == RECORD_SIZE,
    {
        RECORD_SIZE
    }
}

} // verus!
