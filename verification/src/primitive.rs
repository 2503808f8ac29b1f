//! Trusted boundary to the external signature primitive (the `ml-dsa`
//! crate) and to `zeroize`. Each function here wraps one primitive
//! call; everything around these calls is verified.
use vstd::prelude::*;

use crate::params::sk_bytes_acceptable;
use ml_dsa::Generate;
use ml_dsa::Keypair;

verus! {

/// The byte string that deterministic signing (empty context string)
/// produces from an expanded secret key and a message. It depends on
/// those two arguments alone.
pub uninterp spec fn det_signature_of(sk: Seq<u8>, msg: Seq<u8>) -> Seq<u8>;

/// Whether the primitive's verification accepts the signature over the
/// message under the public key. A pure function of the three byte
/// strings.
pub uninterp spec fn sig_verifies(pk: Seq<u8>, sig: Seq<u8>, msg: Seq<u8>) -> bool;

/// Whether the primitive's signature decoder accepts the byte string:
/// its hint region is well formed and its vector is in range.
pub uninterp spec fn sig_decodable(sig: Seq<u8>) -> bool;

/// Whether the two encodings form a key pair as produced by the
/// primitive's key generation.
pub uninterp spec fn is_generated_pair(pk: Seq<u8>, sk: Seq<u8>) -> bool;

/// A signature that verifies under every public key matching the
/// secret key that produced it.
pub open spec fn sig_verifies_for(sk: Seq<u8>, sig: Seq<u8>, msg: Seq<u8>) -> bool {
    forall|pk: Seq<u8>| #[trigger] is_generated_pair(pk, sk) ==> sig_verifies(pk, sig, msg)
}

/// Relies on `SigningKey::<MlDsa44>::try_generate`, `verifying_key` and
/// the FIPS 204 encodings: a generated pair encodes to 1312 public and
/// 2560 secret bytes whose short-vector fields are in range, and
/// signatures made with the secret key verify under the public key.
#[verifier::external_body]
#[allow(deprecated)]
pub(crate) fn keypair_44() -> (r: Option<(Vec<u8>, Vec<u8>)>)
    ensures
        r matches Some(p) ==> p.0@.len() == 1312 && p.1@.len() == 2560
            && sk_bytes_acceptable(p.1@) && is_generated_pair(p.0@, p.1@),
{
    let sk = ml_dsa::SigningKey::<ml_dsa::MlDsa44>::try_generate().ok()?;
    let pk_bytes = sk.verifying_key().encode().as_slice().to_vec();
    let sk_bytes = sk.expanded_key().to_expanded().as_slice().to_vec();
    Some((pk_bytes, sk_bytes))
}

/// As `keypair_44`, for the middle parameter set (1952 and 4032 bytes).
#[verifier::external_body]
#[allow(deprecated)]
pub(crate) fn keypair_65() -> (r: Option<(Vec<u8>, Vec<u8>)>)
    ensures
        r matches Some(p) ==> p.0@.len() == 1952 && p.1@.len() == 4032
            && sk_bytes_acceptable(p.1@) && is_generated_pair(p.0@, p.1@),
{
    let sk = ml_dsa::SigningKey::<ml_dsa::MlDsa65>::try_generate().ok()?;
    let pk_bytes = sk.verifying_key().encode().as_slice().to_vec();
    let sk_bytes = sk.expanded_key().to_expanded().as_slice().to_vec();
    Some((pk_bytes, sk_bytes))
}

/// As `keypair_44`, for the largest parameter set (2592 and 4896 bytes).
#[verifier::external_body]
#[allow(deprecated)]
pub(crate) fn keypair_87() -> (r: Option<(Vec<u8>, Vec<u8>)>)
    ensures
        r matches Some(p) ==> p.0@.len() == 2592 && p.1@.len() == 4896
            && sk_bytes_acceptable(p.1@) && is_generated_pair(p.0@, p.1@),
{
    let sk = ml_dsa::SigningKey::<ml_dsa::MlDsa87>::try_generate().ok()?;
    let pk_bytes = sk.verifying_key().encode().as_slice().to_vec();
    let sk_bytes = sk.expanded_key().to_expanded().as_slice().to_vec();
    Some((pk_bytes, sk_bytes))
}

/// Relies on `ExpandedSigningKey::<MlDsa44>::from_expanded` and
/// `sign_deterministic` with an empty context string: with an
/// acceptable key it cannot fail, and the 2420-byte signature is a
/// function of the key and message alone, decodes, and verifies under
/// every public key generated with this secret key.
#[verifier::external_body]
#[allow(deprecated)]
pub(crate) fn sign_det_44(sk: &[u8], msg: &[u8]) -> (r: Option<Vec<u8>>)
    requires
        sk@.len() == 2560 && sk_bytes_acceptable(sk@),
    ensures
        r is Some,
        r matches Some(s) ==> s@ == det_signature_of(sk@, msg@) && s@.len() == 2420
            && sig_decodable(s@) && sig_verifies_for(sk@, s@, msg@),
{
    let enc: &ml_dsa::ExpandedSigningKeyBytes<ml_dsa::MlDsa44> = sk.try_into().ok()?;
    let key = ml_dsa::ExpandedSigningKey::<ml_dsa::MlDsa44>::from_expanded(enc);
    let sig = key.sign_deterministic(msg, &[]).ok()?;
    Some(sig.encode().as_slice().to_vec())
}

/// As `sign_det_44`, for the middle parameter set (3309-byte signature).
#[verifier::external_body]
#[allow(deprecated)]
pub(crate) fn sign_det_65(sk: &[u8], msg: &[u8]) -> (r: Option<Vec<u8>>)
    requires
        sk@.len() == 4032 && sk_bytes_acceptable(sk@),
    ensures
        r is Some,
        r matches Some(s) ==> s@ == det_signature_of(sk@, msg@) && s@.len() == 3309
            && sig_decodable(s@) && sig_verifies_for(sk@, s@, msg@),
{
    let enc: &ml_dsa::ExpandedSigningKeyBytes<ml_dsa::MlDsa65> = sk.try_into().ok()?;
    let key = ml_dsa::ExpandedSigningKey::<ml_dsa::MlDsa65>::from_expanded(enc);
    let sig = key.sign_deterministic(msg, &[]).ok()?;
    Some(sig.encode().as_slice().to_vec())
}

/// As `sign_det_44`, for the largest parameter set (4627-byte signature).
#[verifier::external_body]
#[allow(deprecated)]
pub(crate) fn sign_det_87(sk: &[u8], msg: &[u8]) -> (r: Option<Vec<u8>>)
    requires
        sk@.len() == 4896 && sk_bytes_acceptable(sk@),
    ensures
        r is Some,
        r matches Some(s) ==> s@ == det_signature_of(sk@, msg@) && s@.len() == 4627
            && sig_decodable(s@) && sig_verifies_for(sk@, s@, msg@),
{
    let enc: &ml_dsa::ExpandedSigningKeyBytes<ml_dsa::MlDsa87> = sk.try_into().ok()?;
    let key = ml_dsa::ExpandedSigningKey::<ml_dsa::MlDsa87>::from_expanded(enc);
    let sig = key.sign_deterministic(msg, &[]).ok()?;
    Some(sig.encode().as_slice().to_vec())
}

/// Relies on `ExpandedSigningKey::<MlDsa44>::sign_randomized` with the
/// system random source: it may fail for want of randomness, and every
/// signature it does produce decodes and verifies under every public
/// key generated with this secret key.
#[verifier::external_body]
#[allow(deprecated)]
pub(crate) fn sign_rand_44(sk: &[u8], msg: &[u8]) -> (r: Option<Vec<u8>>)
    requires
        sk@.len() == 2560 && sk_bytes_acceptable(sk@),
    ensures
        r matches Some(s) ==> s@.len() == 2420 && sig_decodable(s@)
            && sig_verifies_for(sk@, s@, msg@),
{
    let enc: &ml_dsa::ExpandedSigningKeyBytes<ml_dsa::MlDsa44> = sk.try_into().ok()?;
    let key = ml_dsa::ExpandedSigningKey::<ml_dsa::MlDsa44>::from_expanded(enc);
    let sig = key.sign_randomized(msg, &[], &mut getrandom::SysRng).ok()?;
    Some(sig.encode().as_slice().to_vec())
}

/// As `sign_rand_44`, for the middle parameter set.
#[verifier::external_body]
#[allow(deprecated)]
pub(crate) fn sign_rand_65(sk: &[u8], msg: &[u8]) -> (r: Option<Vec<u8>>)
    requires
        sk@.len() == 4032 && sk_bytes_acceptable(sk@),
    ensures
        r matches Some(s) ==> s@.len() == 3309 && sig_decodable(s@)
            && sig_verifies_for(sk@, s@, msg@),
{
    let enc: &ml_dsa::ExpandedSigningKeyBytes<ml_dsa::MlDsa65> = sk.try_into().ok()?;
    let key = ml_dsa::ExpandedSigningKey::<ml_dsa::MlDsa65>::from_expanded(enc);
    let sig = key.sign_randomized(msg, &[], &mut getrandom::SysRng).ok()?;
    Some(sig.encode().as_slice().to_vec())
}

/// As `sign_rand_44`, for the largest parameter set.
#[verifier::external_body]
#[allow(deprecated)]
pub(crate) fn sign_rand_87(sk: &[u8], msg: &[u8]) -> (r: Option<Vec<u8>>)
    requires
        sk@.len() == 4896 && sk_bytes_acceptable(sk@),
    ensures
        r matches Some(s) ==> s@.len() == 4627 && sig_decodable(s@)
            && sig_verifies_for(sk@, s@, msg@),
{
    let enc: &ml_dsa::ExpandedSigningKeyBytes<ml_dsa::MlDsa87> = sk.try_into().ok()?;
    let key = ml_dsa::ExpandedSigningKey::<ml_dsa::MlDsa87>::from_expanded(enc);
    let sig = key.sign_randomized(msg, &[], &mut getrandom::SysRng).ok()?;
    Some(sig.encode().as_slice().to_vec())
}

/// Relies on `VerifyingKey::<MlDsa44>::decode`, `Signature::decode` and
/// `verify_with_context` with an empty context string: signature
/// decoding fails exactly on byte strings the decoder refuses, and the
/// verdict is a pure function of the three byte strings.
#[verifier::external_body]
pub(crate) fn verify_44(pk: &[u8], sig: &[u8], msg: &[u8]) -> (r: Option<bool>)
    requires
        pk@.len() == 1312 && sig@.len() == 2420,
    ensures
        r is Some <==> sig_decodable(sig@),
        r matches Some(b) ==> b == sig_verifies(pk@, sig@, msg@),
{
    let pk_enc: &ml_dsa::EncodedVerifyingKey<ml_dsa::MlDsa44> = pk.try_into().ok()?;
    let sig_enc: &ml_dsa::EncodedSignature<ml_dsa::MlDsa44> = sig.try_into().ok()?;
    let vk = ml_dsa::VerifyingKey::<ml_dsa::MlDsa44>::decode(pk_enc);
    let s = ml_dsa::Signature::<ml_dsa::MlDsa44>::decode(sig_enc)?;
    Some(vk.verify_with_context(msg, &[], &s))
}

/// As `verify_44`, for the middle parameter set.
#[verifier::external_body]
pub(crate) fn verify_65(pk: &[u8], sig: &[u8], msg: &[u8]) -> (r: Option<bool>)
    requires
        pk@.len() == 1952 && sig@.len() == 3309,
    ensures
        r is Some <==> sig_decodable(sig@),
        r matches Some(b) ==> b == sig_verifies(pk@, sig@, msg@),
{
    let pk_enc: &ml_dsa::EncodedVerifyingKey<ml_dsa::MlDsa65> = pk.try_into().ok()?;
    let sig_enc: &ml_dsa::EncodedSignature<ml_dsa::MlDsa65> = sig.try_into().ok()?;
    let vk = ml_dsa::VerifyingKey::<ml_dsa::MlDsa65>::decode(pk_enc);
    let s = ml_dsa::Signature::<ml_dsa::MlDsa65>::decode(sig_enc)?;
    Some(vk.verify_with_context(msg, &[], &s))
}

/// As `verify_44`, for the largest parameter set.
#[verifier::external_body]
pub(crate) fn verify_87(pk: &[u8], sig: &[u8], msg: &[u8]) -> (r: Option<bool>)
    requires
        pk@.len() == 2592 && sig@.len() == 4627,
    ensures
        r is Some <==> sig_decodable(sig@),
        r matches Some(b) ==> b == sig_verifies(pk@, sig@, msg@),
{
    let pk_enc: &ml_dsa::EncodedVerifyingKey<ml_dsa::MlDsa87> = pk.try_into().ok()?;
    let sig_enc: &ml_dsa::EncodedSignature<ml_dsa::MlDsa87> = sig.try_into().ok()?;
    let vk = ml_dsa::VerifyingKey::<ml_dsa::MlDsa87>::decode(pk_enc);
    let s = ml_dsa::Signature::<ml_dsa::MlDsa87>::decode(sig_enc)?;
    Some(vk.verify_with_context(msg, &[], &s))
}

/// Relies on `zeroize::Zeroize` for `Vec<u8>`: the buffer's whole
/// capacity is overwritten with zeros through a write the compiler
/// cannot elide, then the vector is cleared. It does not unwind.
#[verifier::external_body]
pub(crate) fn wipe(v: &mut Vec<u8>)
    ensures
        final(v)@.len() == 0,
    opens_invariants none
    no_unwind
{
    zeroize::Zeroize::zeroize(v);
}

} // verus!
