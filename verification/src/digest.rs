//! The digest that identifies a snapshot of the upstream resources.

use vstd::prelude::*;
use vstd::string::*;
use crate::digits::{digit_char, digit_str, hex};

verus! {

/// A content hash of 32 bytes. Two digests are equal exactly when their
/// bytes are.
#[derive(Clone, Copy, Debug)]
pub struct DigestData {
    pub bytes: [u8; 32],
}

impl View for DigestData {
    type V = Seq<u8>;

    open spec fn view(&self) -> Seq<u8> {
        self.bytes@
    }
}

/// Appending one byte to a byte string appends its two digits to the text.
pub proof fn lemma_hex_push(bytes: Seq<u8>, b: u8)
    ensures
        hex(bytes.push(b)) == hex(bytes).push(digit_char(b as int / 16)).push(
            digit_char(b as int % 16),
        ),
{
    let left = hex(bytes.push(b));
    let right = hex(bytes).push(digit_char(b as int / 16)).push(digit_char(b as int % 16));
    assert(left.len() == right.len());
    assert forall|i: int| 0 <= i < left.len() implies left[i] == right[i] by {
        if i < 2 * bytes.len() {
            assert(bytes.push(b)[i / 2] == bytes[i / 2]);
        } else {
            assert(i / 2 == bytes.len());
        }
    }
    assert(left =~= right);
}

impl DigestData {
    /// A digest of the given bytes.
    pub fn new(bytes: [u8; 32]) -> (r: DigestData)
        ensures
            r@ == bytes@,
    {
        DigestData { bytes }
    }

    /// The digest in lower-case hexadecimal: 64 characters.
    pub fn to_string(&self) -> (r: String)
        ensures
            r@ == hex(self@),
            r@.len() == 64,
    {
        let mut out = String::new();
        let mut i: usize = 0;
        assert(hex(self@.take(0)) =~= Seq::<char>::empty());
        while i < 32
            invariant
                0 <= i <= 32,
                self@.len() == 32,
                out@ == hex(self@.take(i as int)),
            decreases 32 - i,
        {
            let b: u8 = self.bytes[i];
            proof {
                lemma_hex_push(self@.take(i as int), b);
                assert(self@.take(i as int).push(b) =~= self@.take(i + 1));
            }
            out.append(digit_str(b / 16));
            out.append(digit_str(b % 16));
            assert(out@ =~= hex(self@.take(i + 1)));
            i += 1;
        }
        assert(self@.take(32) =~= self@);
        out
    }
}

} // verus!
