//! A state-managing wrapper around an ML-DSA signature primitive.
//!
//! The context owns three byte buffers — public key, secret key and
//! signature — with one presence flag each. Operations check the flags
//! before touching any material, translate the primitive's failures
//! into a small error enumeration, and the secret-key buffer is wiped
//! when the context is dropped.
use vstd::prelude::*;

mod params;
mod primitive;

pub use params::PK_LEN_44;
pub use params::PK_LEN_65;
pub use params::PK_LEN_87;
pub use params::SIG_LEN_44;
pub use params::SIG_LEN_65;
pub use params::SIG_LEN_87;
pub use params::SK_LEN_44;
pub use params::SK_LEN_65;
pub use params::SK_LEN_87;
pub use params::compatible_lens;
pub use params::sig_len_for_sk_len;
pub use params::sk_bytes_acceptable;
pub use params::valid_pk_len;
pub use params::valid_sig_len;
pub use params::valid_sk_len;
pub use primitive::det_signature_of;
pub use primitive::is_generated_pair;
pub use primitive::sig_decodable;
pub use primitive::sig_verifies;
pub use primitive::sig_verifies_for;

verus! {

/// Kinds of failure reported by the signature context.
#[derive(Clone, Copy, Debug, PartialEq, Eq, Structural)]
pub enum SignatureError {
    /// An operation needed a buffer whose presence flag is not set.
    UninitializedContext,
    /// The primitive library reported a generic failure.
    ProcessingError,
    /// The primitive library reported that a signature does not match.
    VerificationError,
}

/// The three standardized parameter sets of the signature scheme.
#[allow(non_camel_case_types)]
pub enum lcr_dilithium_type {
    lcr_dilithium_44,
    lcr_dilithium_65,
    lcr_dilithium_87,
}

/// A signature context: three owned buffers and their presence flags.
#[allow(non_camel_case_types)]
pub struct lcr_dilithium {
    /// Public key; valid only when `pk_set`.
    pk: Vec<u8>,
    /// Secret key; valid only when `sk_set`. Sensitive material.
    sk: Vec<u8>,
    /// Signature; valid only when `sig_set`.
    sig: Vec<u8>,
    pk_set: bool,
    sk_set: bool,
    sig_set: bool,
}

/// The success transition of `sk_load`: the secret key holds the
/// loaded bytes and its flag is set; the other buffers are untouched.
pub open spec fn sk_load_ok(pre: lcr_dilithium, post: lcr_dilithium, b: Seq<u8>) -> bool {
    &&& post.has_sk() && post.sk_bytes() == b
    &&& post.has_pk() == pre.has_pk() && post.pk_bytes() == pre.pk_bytes()
    &&& post.has_sig() == pre.has_sig() && post.sig_bytes() == pre.sig_bytes()
}

/// The success transition of `pk_load`.
pub open spec fn pk_load_ok(pre: lcr_dilithium, post: lcr_dilithium, b: Seq<u8>) -> bool {
    &&& post.has_pk() && post.pk_bytes() == b
    &&& post.has_sk() == pre.has_sk() && post.sk_bytes() == pre.sk_bytes()
    &&& post.has_sig() == pre.has_sig() && post.sig_bytes() == pre.sig_bytes()
}

/// The success transition of `sig_load`.
pub open spec fn sig_load_ok(pre: lcr_dilithium, post: lcr_dilithium, b: Seq<u8>) -> bool {
    &&& post.has_sig() && post.sig_bytes() == b
    &&& post.has_pk() == pre.has_pk() && post.pk_bytes() == pre.pk_bytes()
    &&& post.has_sk() == pre.has_sk() && post.sk_bytes() == pre.sk_bytes()
}

/// Copies a byte slice into an owned vector.
fn copy_bytes(src: &[u8]) -> (r: Vec<u8>)
    ensures
        r@ == src@,
{
    let n: usize = src.len();
    let mut v: Vec<u8> = Vec::new();
    let mut i: usize = 0;
    while i < n
        invariant
            n == src@.len(),
            i <= n,
            v@ =~= src@.subrange(0, i as int),
        decreases n - i,
    {
        v.push(src[i]);
        i += 1;
    }
    proof {
        assert(v@ =~= src@);
    }
    v
}

/// The parameter-set identifier handed to the primitive library.
pub open spec fn spec_type_code(t: lcr_dilithium_type) -> u32 {
    match t {
        lcr_dilithium_type::lcr_dilithium_44 => 44,
        lcr_dilithium_type::lcr_dilithium_65 => 65,
        lcr_dilithium_type::lcr_dilithium_87 => 87,
    }
}

/// Secret-key length of a parameter set.
pub open spec fn spec_sk_len(t: lcr_dilithium_type) -> nat {
    match t {
        lcr_dilithium_type::lcr_dilithium_44 => SK_LEN_44 as nat,
        lcr_dilithium_type::lcr_dilithium_65 => SK_LEN_65 as nat,
        lcr_dilithium_type::lcr_dilithium_87 => SK_LEN_87 as nat,
    }
}

/// Public-key length of a parameter set.
pub open spec fn spec_pk_len(t: lcr_dilithium_type) -> nat {
    match t {
        lcr_dilithium_type::lcr_dilithium_44 => PK_LEN_44 as nat,
        lcr_dilithium_type::lcr_dilithium_65 => PK_LEN_65 as nat,
        lcr_dilithium_type::lcr_dilithium_87 => PK_LEN_87 as nat,
    }
}

impl lcr_dilithium {
    /// The public-key bytes the context holds.
    pub closed spec fn pk_bytes(&self) -> Seq<u8> {
        self.pk@
    }

    /// The secret-key bytes the context holds.
    pub closed spec fn sk_bytes(&self) -> Seq<u8> {
        self.sk@
    }

    /// The signature bytes the context holds.
    pub closed spec fn sig_bytes(&self) -> Seq<u8> {
        self.sig@
    }

    /// Presence flag of the public key.
    pub closed spec fn has_pk(&self) -> bool {
        self.pk_set
    }

    /// Presence flag of the secret key.
    pub closed spec fn has_sk(&self) -> bool {
        self.sk_set
    }

    /// Presence flag of the signature.
    pub closed spec fn has_sig(&self) -> bool {
        self.sig_set
    }

    /// Well-formedness: an unset buffer is empty, a set buffer holds
    /// material of a valid size, and a set secret key is one the
    /// primitive's decoder accepts.
    pub closed spec fn wf(&self) -> bool {
        &&& (!self.pk_set ==> self.pk@.len() == 0)
        &&& (!self.sk_set ==> self.sk@.len() == 0)
        &&& (!self.sig_set ==> self.sig@.len() == 0)
        &&& (self.pk_set ==> valid_pk_len(self.pk@.len()))
        &&& (self.sk_set ==> sk_bytes_acceptable(self.sk@))
        &&& (self.sig_set ==> valid_sig_len(self.sig@.len()))
    }

    /// A context with all presence flags false and empty buffers.
    pub fn new() -> (r: Self)
        ensures
            r.wf(),
            !r.has_pk() && !r.has_sk() && !r.has_sig(),
            r.pk_bytes() == Seq::<u8>::empty(),
            r.sk_bytes() == Seq::<u8>::empty(),
            r.sig_bytes() == Seq::<u8>::empty(),
    {
        let r = lcr_dilithium {
            pk: Vec::new(),
            sk: Vec::new(),
            sig: Vec::new(),
            pk_set: false,
            sk_set: false,
            sig_set: false,
        };
        proof {
            assert(r.pk@ =~= Seq::<u8>::empty());
            assert(r.sk@ =~= Seq::<u8>::empty());
            assert(r.sig@ =~= Seq::<u8>::empty());
        }
        r
    }

    /// Loads raw secret-key bytes. Always permitted, also over an
    /// existing key. Succeeds exactly on byte strings the primitive's
    /// key decoder accepts; on failure the context is unchanged.
    pub fn sk_load(&mut self, sk_buf: &[u8]) -> (r: Result<(), SignatureError>)
        requires
            old(self).wf(),
        ensures
            final(self).wf(),
            r is Ok <==> sk_bytes_acceptable(sk_buf@),
            r is Ok ==> valid_sk_len(sk_buf@.len()),
            r is Ok ==> sk_load_ok(*old(self), *final(self), sk_buf@),
            r is Err ==> r == Err::<(), SignatureError>(SignatureError::ProcessingError)
                && *final(self) == *old(self),
    {
        let ok = params::check_sk_bytes(sk_buf);
        if !ok {
            return Err(SignatureError::ProcessingError);
        }
        self.sk = copy_bytes(sk_buf);
        self.sk_set = true;
        Ok(())
    }

    /// Loads raw public-key bytes. Always permitted, also over an
    /// existing key. Succeeds exactly on buffers of a valid
    /// public-key length; on failure the context is unchanged.
    pub fn pk_load(&mut self, pk_buf: &[u8]) -> (r: Result<(), SignatureError>)
        requires
            old(self).wf(),
        ensures
            final(self).wf(),
            r is Ok <==> valid_pk_len(pk_buf@.len()),
            r is Ok ==> pk_load_ok(*old(self), *final(self), pk_buf@),
            r is Err ==> r == Err::<(), SignatureError>(SignatureError::ProcessingError)
                && *final(self) == *old(self),
    {
        let n = pk_buf.len();
        if !(n == PK_LEN_44 || n == PK_LEN_65 || n == PK_LEN_87) {
            return Err(SignatureError::ProcessingError);
        }
        self.pk = copy_bytes(pk_buf);
        self.pk_set = true;
        Ok(())
    }

    /// Loads raw signature bytes. Always permitted, also over an
    /// existing signature. Succeeds exactly on buffers of a valid
    /// signature length; on failure the context is unchanged.
    pub fn sig_load(&mut self, sig_buf: &[u8]) -> (r: Result<(), SignatureError>)
        requires
            old(self).wf(),
        ensures
            final(self).wf(),
            r is Ok <==> valid_sig_len(sig_buf@.len()),
            r is Ok ==> sig_load_ok(*old(self), *final(self), sig_buf@),
            r is Err ==> r == Err::<(), SignatureError>(SignatureError::ProcessingError)
                && *final(self) == *old(self),
    {
        let n = sig_buf.len();
        if !(n == SIG_LEN_44 || n == SIG_LEN_65 || n == SIG_LEN_87) {
            return Err(SignatureError::ProcessingError);
        }
        self.sig = copy_bytes(sig_buf);
        self.sig_set = true;
        Ok(())
    }

    /// Maps a parameter set to the primitive library's identifier.
    pub fn lcr_dilithium_type_mapping(dilithium_type: lcr_dilithium_type) -> (r: u32)
        ensures
            r == spec_type_code(dilithium_type),
    {
        match dilithium_type {
            lcr_dilithium_type::lcr_dilithium_44 => 44,
            lcr_dilithium_type::lcr_dilithium_65 => 65,
            lcr_dilithium_type::lcr_dilithium_87 => 87,
        }
    }

    /// Generates a key pair of the given parameter set. On success
    /// both key buffers are replaced and both key flags set; on
    /// failure the context is unchanged.
    pub fn keypair(&mut self, dilithium_type: lcr_dilithium_type) -> (r: Result<
        (),
        SignatureError,
    >)
        requires
            old(self).wf(),
        ensures
            final(self).wf(),
            r is Err ==> r == Err::<(), SignatureError>(SignatureError::ProcessingError)
                && *final(self) == *old(self),
            r is Ok ==> final(self).has_pk() && final(self).has_sk()
                && final(self).pk_bytes().len() == spec_pk_len(dilithium_type)
                && final(self).sk_bytes().len() == spec_sk_len(dilithium_type)
                && is_generated_pair(final(self).pk_bytes(), final(self).sk_bytes())
                && final(self).has_sig() == old(self).has_sig()
                && final(self).sig_bytes() == old(self).sig_bytes(),
    {
        let generated = match dilithium_type {
            lcr_dilithium_type::lcr_dilithium_44 => primitive::keypair_44(),
            lcr_dilithium_type::lcr_dilithium_65 => primitive::keypair_65(),
            lcr_dilithium_type::lcr_dilithium_87 => primitive::keypair_87(),
        };
        match generated {
            Some((pk_bytes, sk_bytes)) => {
                self.pk = pk_bytes;
                self.sk = sk_bytes;
                self.pk_set = true;
                self.sk_set = true;
                Ok(())
            },
            None => Err(SignatureError::ProcessingError),
        }
    }

    /// Signs a message with the randomized signing operation. Fails
    /// with `UninitializedContext` exactly when no secret key is
    /// present. On success the signature buffer holds a signature over
    /// the message that verifies under every public key generated with
    /// the current secret key; on failure the context is unchanged.
    pub fn sign(&mut self, msg: &[u8]) -> (r: Result<(), SignatureError>)
        requires
            old(self).wf(),
        ensures
            final(self).wf(),
            r == Err::<(), SignatureError>(SignatureError::UninitializedContext) <==> !old(
                self,
            ).has_sk(),
            r is Err ==> *final(self) == *old(self)
                && (r == Err::<(), SignatureError>(SignatureError::UninitializedContext)
                || r == Err::<(), SignatureError>(SignatureError::ProcessingError)),
            r is Ok ==> final(self).has_sig()
                && sig_decodable(final(self).sig_bytes())
                && sig_verifies_for(old(self).sk_bytes(), final(self).sig_bytes(), msg@)
                && final(self).sig_bytes().len() == params::sig_len_for_sk_len(
                old(self).sk_bytes().len(),
            )
                && final(self).has_sk() && final(self).sk_bytes() == old(self).sk_bytes()
                && final(self).has_pk() == old(self).has_pk()
                && final(self).pk_bytes() == old(self).pk_bytes(),
    {
        if !self.sk_set {
            return Err(SignatureError::UninitializedContext);
        }
        let produced = if self.sk.len() == SK_LEN_44 {
            primitive::sign_rand_44(self.sk.as_slice(), msg)
        } else if self.sk.len() == SK_LEN_65 {
            primitive::sign_rand_65(self.sk.as_slice(), msg)
        } else {
            primitive::sign_rand_87(self.sk.as_slice(), msg)
        };
        match produced {
            Some(sig_bytes) => {
                self.sig = sig_bytes;
                self.sig_set = true;
                Ok(())
            },
            None => Err(SignatureError::ProcessingError),
        }
    }

    /// Signs a message with the deterministic signing operation: the
    /// signature is a function of the secret key and the message
    /// alone. Fails with `UninitializedContext` exactly when no secret
    /// key is present, and succeeds whenever one is.
    pub fn sign_deterministic(&mut self, msg: &[u8]) -> (r: Result<(), SignatureError>)
        requires
            old(self).wf(),
        ensures
            final(self).wf(),
            r is Ok <==> old(self).has_sk(),
            r is Err ==> r == Err::<(), SignatureError>(SignatureError::UninitializedContext)
                && *final(self) == *old(self),
            r is Ok ==> final(self).has_sig()
                && final(self).sig_bytes() == det_signature_of(old(self).sk_bytes(), msg@)
                && sig_decodable(final(self).sig_bytes())
                && sig_verifies_for(old(self).sk_bytes(), final(self).sig_bytes(), msg@)
                && final(self).sig_bytes().len() == params::sig_len_for_sk_len(
                old(self).sk_bytes().len(),
            )
                && final(self).has_sk() && final(self).sk_bytes() == old(self).sk_bytes()
                && final(self).has_pk() == old(self).has_pk()
                && final(self).pk_bytes() == old(self).pk_bytes(),
    {
        if !self.sk_set {
            return Err(SignatureError::UninitializedContext);
        }
        let produced = if self.sk.len() == SK_LEN_44 {
            primitive::sign_det_44(self.sk.as_slice(), msg)
        } else if self.sk.len() == SK_LEN_65 {
            primitive::sign_det_65(self.sk.as_slice(), msg)
        } else {
            primitive::sign_det_87(self.sk.as_slice(), msg)
        };
        match produced {
            Some(sig_bytes) => {
                self.sig = sig_bytes;
                self.sig_set = true;
                Ok(())
            },
            None => Err(SignatureError::ProcessingError),
        }
    }

    /// Verifies the stored signature over a message with the stored
    /// public key. The result is a function of the context and the
    /// message, spelled out by `spec_verify_result`.
    pub fn verify(&mut self, msg: &[u8]) -> (r: Result<(), SignatureError>)
        requires
            old(self).wf(),
        ensures
            *final(self) == *old(self),
            r == spec_verify_result(*old(self), msg@),
    {
        if !self.pk_set || !self.sig_set {
            return Err(SignatureError::UninitializedContext);
        }
        let pk_len = self.pk.len();
        let sig_len = self.sig.len();
        let same_set = (pk_len == PK_LEN_44 && sig_len == SIG_LEN_44) || (pk_len == PK_LEN_65
            && sig_len == SIG_LEN_65) || (pk_len == PK_LEN_87 && sig_len == SIG_LEN_87);
        if !same_set {
            return Err(SignatureError::ProcessingError);
        }
        let outcome = if pk_len == PK_LEN_44 {
            primitive::verify_44(self.pk.as_slice(), self.sig.as_slice(), msg)
        } else if pk_len == PK_LEN_65 {
            primitive::verify_65(self.pk.as_slice(), self.sig.as_slice(), msg)
        } else {
            primitive::verify_87(self.pk.as_slice(), self.sig.as_slice(), msg)
        };
        match outcome {
            None => Err(SignatureError::ProcessingError),
            Some(true) => Ok(()),
            Some(false) => Err(SignatureError::VerificationError),
        }
    }

    /// Read-only access to the signature buffer: the bytes and a
    /// status. With no signature present the slice is empty and the
    /// status is `UninitializedContext`.
    pub fn sig(&self) -> (r: (&[u8], Result<(), SignatureError>))
        requires
            self.wf(),
        ensures
            self.has_sig() ==> r.1 is Ok && r.0@ == self.sig_bytes(),
            !self.has_sig() ==> r.1 == Err::<(), SignatureError>(
                SignatureError::UninitializedContext,
            ) && r.0@ == Seq::<u8>::empty(),
    {
        if !self.sig_set {
            proof {
                assert(self.sig@ =~= Seq::<u8>::empty());
            }
            return (self.sig.as_slice(), Err(SignatureError::UninitializedContext));
        }
        (self.sig.as_slice(), Ok(()))
    }

    /// Read-only access to the secret-key buffer, as `sig`.
    pub fn sk(&self) -> (r: (&[u8], Result<(), SignatureError>))
        requires
            self.wf(),
        ensures
            self.has_sk() ==> r.1 is Ok && r.0@ == self.sk_bytes(),
            !self.has_sk() ==> r.1 == Err::<(), SignatureError>(
                SignatureError::UninitializedContext,
            ) && r.0@ == Seq::<u8>::empty(),
    {
        if !self.sk_set {
            proof {
                assert(self.sk@ =~= Seq::<u8>::empty());
            }
            return (self.sk.as_slice(), Err(SignatureError::UninitializedContext));
        }
        (self.sk.as_slice(), Ok(()))
    }

    /// Read-only access to the public-key buffer, as `sig`.
    pub fn pk(&self) -> (r: (&[u8], Result<(), SignatureError>))
        requires
            self.wf(),
        ensures
            self.has_pk() ==> r.1 is Ok && r.0@ == self.pk_bytes(),
            !self.has_pk() ==> r.1 == Err::<(), SignatureError>(
                SignatureError::UninitializedContext,
            ) && r.0@ == Seq::<u8>::empty(),
    {
        if !self.pk_set {
            proof {
                assert(self.pk@ =~= Seq::<u8>::empty());
            }
            return (self.pk.as_slice(), Err(SignatureError::UninitializedContext));
        }
        (self.pk.as_slice(), Ok(()))
    }
}

/// The verdict `verify` returns on a context and a message.
pub open spec fn spec_verify_result(c: lcr_dilithium, msg: Seq<u8>) -> Result<
    (),
    SignatureError,
> {
    if !c.has_pk() || !c.has_sig() {
        Err(SignatureError::UninitializedContext)
    } else if !compatible_lens(c.pk_bytes().len(), c.sig_bytes().len()) {
        Err(SignatureError::ProcessingError)
    } else if !sig_decodable(c.sig_bytes()) {
        Err(SignatureError::ProcessingError)
    } else if !sig_verifies(c.pk_bytes(), c.sig_bytes(), msg) {
        Err(SignatureError::VerificationError)
    } else {
        Ok(())
    }
}

/// Loading a secret key and then reading it back returns the loaded
/// bytes: after a successful `sk_load` of `b`, the secret-key flag is
/// set and `sk` hands out exactly `b`.
pub proof fn lemma_secret_key_round_trip(pre: lcr_dilithium, post: lcr_dilithium, b: Seq<u8>)
    requires
        sk_load_ok(pre, post, b),
    ensures
        post.has_sk(),
        post.sk_bytes() == b,
{
}

/// Re-loading a secret key overwrites the previous one: after a
/// successful `sk_load` of `b1` and then of `b2`, the context holds
/// `b2`, whatever it held before.
pub proof fn lemma_secret_key_reload_overwrites(
    c0: lcr_dilithium,
    c1: lcr_dilithium,
    c2: lcr_dilithium,
    b1: Seq<u8>,
    b2: Seq<u8>,
)
    requires
        sk_load_ok(c0, c1, b1),
        sk_load_ok(c1, c2, b2),
    ensures
        c2.has_sk(),
        c2.sk_bytes() == b2,
{
}

/// Signing before any secret key was loaded or generated is refused:
/// a fresh context has no secret key, and on such a context `sign`
/// and `sign_deterministic` return exactly
/// `Err(UninitializedContext)`, as their contracts state of any
/// result they may produce.
pub proof fn lemma_sign_unpopulated_rejected(c: lcr_dilithium, r: Result<(), SignatureError>)
    requires
        !c.has_sk(),
        r == Err::<(), SignatureError>(SignatureError::UninitializedContext) <==> !c.has_sk(),
    ensures
        r == Err::<(), SignatureError>(SignatureError::UninitializedContext),
{
}

/// Verification with a public key but no signature is refused before
/// the primitive is consulted.
pub proof fn lemma_verify_needs_signature(c: lcr_dilithium, msg: Seq<u8>)
    requires
        c.has_pk(),
        !c.has_sig(),
    ensures
        spec_verify_result(c, msg) == Err::<(), SignatureError>(
            SignatureError::UninitializedContext,
        ),
{
}

/// After a successful key generation and signing, verification of the
/// signed message succeeds: a context holding a public key generated
/// with some parameter set, and a signature that the matching secret
/// key produced over `msg`, verifies that message. The hypotheses are
/// exactly what `keypair` and then `sign` or `sign_deterministic`
/// establish.
pub proof fn lemma_fresh_signature_verifies(
    c: lcr_dilithium,
    sk: Seq<u8>,
    msg: Seq<u8>,
    t: lcr_dilithium_type,
)
    requires
        c.has_pk(),
        c.has_sig(),
        c.pk_bytes().len() == spec_pk_len(t),
        sk.len() == spec_sk_len(t),
        c.sig_bytes().len() == sig_len_for_sk_len(sk.len()),
        is_generated_pair(c.pk_bytes(), sk),
        sig_decodable(c.sig_bytes()),
        sig_verifies_for(sk, c.sig_bytes(), msg),
    ensures
        spec_verify_result(c, msg) == Ok::<(), SignatureError>(()),
{
    assert(compatible_lens(c.pk_bytes().len(), c.sig_bytes().len()));
    assert(sig_verifies(c.pk_bytes(), c.sig_bytes(), msg));
}

/// Deterministic signing is reproducible: two contexts that signed
/// the same message deterministically with equal secret keys hold
/// identical signature bytes.
pub proof fn lemma_deterministic_signature_reproducible(
    c1: lcr_dilithium,
    c2: lcr_dilithium,
    sk: Seq<u8>,
    msg: Seq<u8>,
)
    requires
        c1.sig_bytes() == det_signature_of(sk, msg),
        c2.sig_bytes() == det_signature_of(sk, msg),
    ensures
        c1.sig_bytes() == c2.sig_bytes(),
{
}

/// A message the stored signature does not cover is reported as a
/// verification mismatch, not as a processing failure: whenever both
/// buffers are present and the signature decodes, a failed check
/// yields `VerificationError`.
pub proof fn lemma_tampered_message_detected(c: lcr_dilithium, msg: Seq<u8>)
    requires
        c.has_pk(),
        c.has_sig(),
        compatible_lens(c.pk_bytes().len(), c.sig_bytes().len()),
        sig_decodable(c.sig_bytes()),
        !sig_verifies(c.pk_bytes(), c.sig_bytes(), msg),
    ensures
        spec_verify_result(c, msg) == Err::<(), SignatureError>(SignatureError::VerificationError),
{
}

/// The sensitive buffer is wiped whenever the context goes out of
/// scope, whatever the exit path.
impl Drop for lcr_dilithium {
    fn drop(&mut self)
        opens_invariants none
        no_unwind
    {
        primitive::wipe(&mut self.sk);
    }
}

} // verus!
