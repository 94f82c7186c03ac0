//! Certificate serial numbers: 159 random bits, encoded as a
//! non-negative big-endian integer.

use vstd::prelude::*;
use vstd::arithmetic::power2::{pow2, lemma2_to64, lemma_pow2_adds, lemma_pow2_pos,
    lemma_pow2_strictly_increases};
use vstd::arithmetic::mul::lemma_mul_inequality;
use crate::backend;
use crate::error::Error;

verus! {

/// The value of a big-endian byte string, most significant byte first.
pub open spec fn be_bytes_to_nat(s: Seq<u8>) -> nat
    decreases s.len(),
{
    if s.len() == 0 {
        0
    } else {
        s.first() as nat * pow2(8 * (s.len() - 1) as nat) + be_bytes_to_nat(s.drop_first())
    }
}

/// A certificate serial number, held as the big-endian magnitude of a
/// non-negative integer of at most 159 bits. The leading byte of a full
/// 20-byte magnitude keeps its top bit clear, so the value can never be
/// read back as negative.
pub struct SerialNumber {
    pub bytes: Vec<u8>,
}

impl SerialNumber {
    /// The shape every freshly drawn serial has: at most 20 bytes, and a
    /// clear top bit when all 20 are used.
    pub open spec fn wf(self) -> bool {
        &&& self.bytes@.len() <= 20
        &&& self.bytes@.len() == 20 ==> self.bytes@.first() < 0x80
    }

    /// The non-negative integer the serial stands for.
    pub open spec fn value(self) -> nat {
        be_bytes_to_nat(self.bytes@)
    }
}

/// The value of a byte string fits in 8 bits per byte.
proof fn lemma_be_bytes_to_nat_bound(s: Seq<u8>)
    ensures
        be_bytes_to_nat(s) < pow2(8 * s.len()),
    decreases s.len(),
{
    if s.len() == 0 {
        lemma_pow2_pos(0);
    } else {
        let p = pow2(8 * (s.len() - 1) as nat);
        lemma_be_bytes_to_nat_bound(s.drop_first());
        lemma_pow2_adds(8, 8 * (s.len() - 1) as nat);
        lemma2_to64();
        assert(s.first() * p + p == (s.first() + 1) * p) by (nonlinear_arith);
        lemma_mul_inequality(s.first() + 1, 256, p as int);
        assert(8 * s.len() == 8 + 8 * (s.len() - 1) as nat);
    }
}

/// The value of a byte string is bounded by its leading byte.
proof fn lemma_be_bytes_to_nat_first_byte(s: Seq<u8>)
    requires
        s.len() > 0,
    ensures
        be_bytes_to_nat(s) < (s.first() + 1) * pow2(8 * (s.len() - 1) as nat),
{
    let p = pow2(8 * (s.len() - 1) as nat);
    lemma_be_bytes_to_nat_bound(s.drop_first());
    assert(s.first() * p + p == (s.first() + 1) * p) by (nonlinear_arith);
}

/// A well-formed serial number is a non-negative integer of at most 159
/// bits, so it needs at most 160 bits even with a sign-avoidance pad.
pub proof fn lemma_serial_number_bound(s: SerialNumber)
    requires
        s.wf(),
    ensures
        s.value() < pow2(159),
{
    let bs = s.bytes@;
    if bs.len() < 20 {
        lemma_be_bytes_to_nat_bound(bs);
        if 8 * bs.len() < 159 {
            lemma_pow2_strictly_increases(8 * bs.len(), 159);
        }
    } else {
        lemma_be_bytes_to_nat_first_byte(bs);
        lemma_pow2_adds(7, 152);
        lemma2_to64();
        lemma_mul_inequality(bs.first() + 1, 0x80, pow2(152) as int);
    }
}

/// Draw a fresh random serial: 159 random bits, sampled independently of
/// every other draw, with no uniqueness tracking.
pub fn fresh_serial() -> (r: Result<SerialNumber, Error>)
    ensures
        r matches Ok(s) ==> s.wf(),
        r matches Err(e) ==> e == Error::CryptoFailure,
{
    match backend::random_serial_bytes() {
        Ok(bytes) => Ok(SerialNumber { bytes }),
        Err(_) => Err(Error::CryptoFailure),
    }
}

} // verus!
