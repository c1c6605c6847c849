//! Opaque fixed-length public identifiers.
//!
//! Licensors, licensees, assets and ledger account addresses are all named by
//! 32-byte public identifiers. The engine performs no cryptographic operation
//! on them beyond equality comparison and pass-through to the address
//! derivation function.

use vstd::prelude::*;

verus! {

/// Number of bytes in a public identifier.
pub const ID_LEN: usize = 32;

/// A 32-byte public identifier (an account address, a party, or an asset).
#[derive(Debug)]
pub struct Identity {
    bytes: Vec<u8>,
}

impl View for Identity {
    type V = Seq<u8>;

    closed spec fn view(&self) -> Seq<u8> {
        self.bytes@
    }
}

impl Identity {
    /// An identifier is well formed when it holds exactly 32 bytes.
    pub open spec fn wf(&self) -> bool {
        self@.len() == ID_LEN
    }

    /// Builds an identifier from raw bytes; rejects any length other than 32.
    pub fn from_bytes(bytes: Vec<u8>) -> (r: Option<Identity>)
        ensures
            match r {
                Some(id) => id.wf() && id@ == bytes@,
                None => bytes@.len() != ID_LEN,
            },
    {
        if bytes.len() == ID_LEN {
            Some(Identity { bytes })
        } else {
            None
        }
    }

    /// The identifier's bytes, for callers that hand it to the ledger or to
    /// the derivation function.
    pub fn as_bytes(&self) -> (r: &Vec<u8>)
        ensures
            r@ == self@,
    {
        &self.bytes
    }

    /// An independent copy with the same bytes.
    pub fn dup(&self) -> (r: Identity)
        ensures
            r@ == self@,
    {
        let mut copy: Vec<u8> = Vec::new();
        let n: usize = self.bytes.len();
        for i in 0..n
            invariant
                n == self.bytes@.len(),
                copy@ == self.bytes@.subrange(0, i as int),
        {
            copy.push(self.bytes[i]);
            proof {
                assert(copy@ =~= self.bytes@.subrange(0, i + 1));
            }
        }
        proof {
            assert(copy@ =~= self.bytes@);
        }
        Identity { bytes: copy }
    }

    /// Byte-for-byte equality. The comparison always walks all 32 bytes, so
    /// its shape does not depend on where the first difference lies.
    pub fn same_as(&self, other: &Identity) -> (r: bool)
        requires
            self.wf(),
            other.wf(),
        ensures
            r == (self@ == other@),
    {
        proof {
            assert(self@.subrange(0, 0) =~= other@.subrange(0, 0));
        }
        let mut all_equal = true;
        for i in 0..ID_LEN
            invariant
                self.wf(),
                other.wf(),
                all_equal == (self@.subrange(0, i as int) == other@.subrange(0, i as int)),
        {
            let here = self.bytes[i] == other.bytes[i];
            proof {
                if all_equal && here {
                    assert(self@.subrange(0, i + 1) =~= other@.subrange(0, i + 1));
                }
                if self@.subrange(0, i + 1) == other@.subrange(0, i + 1) {
                    assert(self@.subrange(0, i + 1)[i as int] == other@.subrange(0, i + 1)[
                    i as int]);
                    assert(self@.subrange(0, i as int) =~= self@.subrange(0, i + 1).subrange(
                        0,
                        i as int,
                    ));
                    assert(other@.subrange(0, i as int) =~= other@.subrange(0, i + 1).subrange(
                        0,
                        i as int,
                    ));
                }
            }
            all_equal = all_equal && here;
        }
        proof {
            assert(self@.subrange(0, ID_LEN as int) =~= self@);
            assert(other@.subrange(0, ID_LEN as int) =~= other@);
            if self@.subrange(0, ID_LEN as int) == other@.subrange(0, ID_LEN as int) {
                assert(self@ == other@);
            }
        }
        all_equal
    }

    /// Appends the identifier's bytes to an output buffer.
    pub fn append_to(&self, out: &mut Vec<u8>)
        ensures
            final(out)@ == old(out)@ + self@,
    {
        let n: usize = self.bytes.len();
        for i in 0..n
            invariant
                n == self.bytes@.len(),
                out@ == old(out)@ + self.bytes@.subrange(0, i as int),
        {
            out.push(self.bytes[i]);
            proof {
                assert(old(out)@ + self.bytes@.subrange(0, i as int) + seq![self.bytes@[i as int]]
                    =~= old(out)@ + self.bytes@.subrange(0, i + 1));
            }
        }
        proof {
            assert(old(out)@ + self.bytes@.subrange(0, self.bytes@.len() as int) =~= old(out)@
                + self@);
        }
    }
}

} // verus!
