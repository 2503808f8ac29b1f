//! Parameter-set sizes for the three ML-DSA security levels, and the
//! byte-level range condition under which the primitive library's
//! secret-key decoder accepts an expanded secret key.
use vstd::prelude::*;

verus! {

/// Expanded secret-key byte lengths for the three parameter sets.
pub const SK_LEN_44: usize = 2560;
pub const SK_LEN_65: usize = 4032;
pub const SK_LEN_87: usize = 4896;

/// Encoded public-key byte lengths for the three parameter sets.
pub const PK_LEN_44: usize = 1312;
pub const PK_LEN_65: usize = 1952;
pub const PK_LEN_87: usize = 2592;

/// Encoded signature byte lengths for the three parameter sets.
pub const SIG_LEN_44: usize = 2420;
pub const SIG_LEN_65: usize = 3309;
pub const SIG_LEN_87: usize = 4627;

/// Offset of the packed short vectors inside an expanded secret key:
/// they follow the 32-byte rho, the 32-byte K and the 64-byte tr.
pub const SK_VECTOR_OFFSET: usize = 128;

/// Byte length of the packed short-vector region of an expanded secret
/// key: every coefficient field of that region is range-limited.
pub const SK_VECTOR_LEN_44: usize = 768;
pub const SK_VECTOR_LEN_65: usize = 1408;
pub const SK_VECTOR_LEN_87: usize = 1440;

pub open spec fn valid_sk_len(n: nat) -> bool {
    n == SK_LEN_44 || n == SK_LEN_65 || n == SK_LEN_87
}

pub open spec fn valid_pk_len(n: nat) -> bool {
    n == PK_LEN_44 || n == PK_LEN_65 || n == PK_LEN_87
}

pub open spec fn valid_sig_len(n: nat) -> bool {
    n == SIG_LEN_44 || n == SIG_LEN_65 || n == SIG_LEN_87
}

/// A public key and a signature belong to the same parameter set.
pub open spec fn compatible_lens(pk_len: nat, sig_len: nat) -> bool {
    ||| (pk_len == PK_LEN_44 && sig_len == SIG_LEN_44)
    ||| (pk_len == PK_LEN_65 && sig_len == SIG_LEN_65)
    ||| (pk_len == PK_LEN_87 && sig_len == SIG_LEN_87)
}

/// Signature length produced for a secret key of the given length.
pub open spec fn sig_len_for_sk_len(sk_len: nat) -> nat {
    if sk_len == SK_LEN_44 {
        SIG_LEN_44 as nat
    } else if sk_len == SK_LEN_65 {
        SIG_LEN_65 as nat
    } else {
        SIG_LEN_87 as nat
    }
}

/// The sets with range bound 2 pack each coefficient into three bits;
/// eight coefficients fill three bytes. Each field must not exceed
/// twice the bound, or the decoder refuses the key.
pub open spec fn eta2_group_ok(b0: u8, b1: u8, b2: u8) -> bool {
    &&& (b0 & 7) <= 4
    &&& ((b0 >> 3) & 7) <= 4
    &&& (((b0 >> 6) | (b1 << 2)) & 7) <= 4
    &&& ((b1 >> 1) & 7) <= 4
    &&& ((b1 >> 4) & 7) <= 4
    &&& (((b1 >> 7) | (b2 << 1)) & 7) <= 4
    &&& ((b2 >> 2) & 7) <= 4
    &&& ((b2 >> 5) & 7) <= 4
}

pub open spec fn eta2_group_ok_at(s: Seq<u8>, off: int, g: int) -> bool {
    eta2_group_ok(s[off + 3 * g], s[off + 3 * g + 1], s[off + 3 * g + 2])
}

pub open spec fn eta2_region_ok(s: Seq<u8>, off: int, groups: int) -> bool {
    forall|g: int| 0 <= g < groups ==> #[trigger] eta2_group_ok_at(s, off, g)
}

/// The set with range bound 4 packs each coefficient into one nibble;
/// each nibble must not exceed twice the bound.
pub open spec fn eta4_byte_ok(b: u8) -> bool {
    (b & 0xF) <= 8 && (b >> 4) <= 8
}

pub open spec fn eta4_region_ok(s: Seq<u8>, off: int, len: int) -> bool {
    forall|i: int| off <= i < off + len ==> eta4_byte_ok(#[trigger] s[i])
}

/// An expanded secret key the primitive library's decoder accepts: one
/// of the three valid lengths, with every packed short-vector
/// coefficient field inside the range of its parameter set.
pub open spec fn sk_bytes_acceptable(s: Seq<u8>) -> bool {
    if s.len() == SK_LEN_44 {
        eta2_region_ok(s, SK_VECTOR_OFFSET as int, SK_VECTOR_LEN_44 as int / 3)
    } else if s.len() == SK_LEN_65 {
        eta4_region_ok(s, SK_VECTOR_OFFSET as int, SK_VECTOR_LEN_65 as int)
    } else if s.len() == SK_LEN_87 {
        eta2_region_ok(s, SK_VECTOR_OFFSET as int, SK_VECTOR_LEN_87 as int / 3)
    } else {
        false
    }
}

/// Checks the three-bit coefficient fields of `groups` three-byte
/// groups starting at `off`.
fn check_eta2_region(buf: &[u8], off: usize, groups: usize) -> (r: bool)
    requires
        off + 3 * groups <= buf@.len(),
    ensures
        r == eta2_region_ok(buf@, off as int, groups as int),
{
    let n: usize = buf.len();
    let mut g: usize = 0;
    while g < groups
        invariant
            off + 3 * groups <= n,
            n == buf@.len(),
            g <= groups,
            forall|j: int| 0 <= j < g ==> #[trigger] eta2_group_ok_at(buf@, off as int, j),
        decreases groups - g,
    {
        let b0 = buf[off + 3 * g];
        let b1 = buf[off + 3 * g + 1];
        let b2 = buf[off + 3 * g + 2];
        let ok = (b0 & 7) <= 4 && ((b0 >> 3) & 7) <= 4 && (((b0 >> 6) | (b1 << 2)) & 7) <= 4
            && ((b1 >> 1) & 7) <= 4 && ((b1 >> 4) & 7) <= 4 && (((b1 >> 7) | (b2 << 1)) & 7) <= 4
            && ((b2 >> 2) & 7) <= 4 && ((b2 >> 5) & 7) <= 4;
        if !ok {
            assert(!eta2_group_ok_at(buf@, off as int, g as int));
            return false;
        }
        assert(eta2_group_ok_at(buf@, off as int, g as int));
        g += 1;
    }
    true
}

/// Checks the nibble coefficient fields of `len` bytes starting at `off`.
fn check_eta4_region(buf: &[u8], off: usize, len: usize) -> (r: bool)
    requires
        off + len <= buf@.len(),
    ensures
        r == eta4_region_ok(buf@, off as int, len as int),
{
    let n: usize = buf.len();
    let mut i: usize = 0;
    while i < len
        invariant
            off + len <= n,
            n == buf@.len(),
            i <= len,
            forall|j: int| off <= j < off + i ==> eta4_byte_ok(#[trigger] buf@[j]),
        decreases len - i,
    {
        let b = buf[off + i];
        if !((b & 0xF) <= 8 && (b >> 4) <= 8) {
            assert(!eta4_byte_ok(buf@[off + i]));
            return false;
        }
        i += 1;
    }
    true
}

/// Decides whether the primitive library's secret-key decoder accepts
/// these bytes: the verified gate in front of every use of a loaded
/// secret key.
pub(crate) fn check_sk_bytes(buf: &[u8]) -> (r: bool)
    ensures
        r == sk_bytes_acceptable(buf@),
{
    if buf.len() == SK_LEN_44 {
        check_eta2_region(buf, SK_VECTOR_OFFSET, SK_VECTOR_LEN_44 / 3)
    } else if buf.len() == SK_LEN_65 {
        check_eta4_region(buf, SK_VECTOR_OFFSET, SK_VECTOR_LEN_65)
    } else if buf.len() == SK_LEN_87 {
        check_eta2_region(buf, SK_VECTOR_OFFSET, SK_VECTOR_LEN_87 / 3)
    } else {
        false
    }
}

} // verus!
