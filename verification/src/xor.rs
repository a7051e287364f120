//! A key wrapper that combines the key with a repeating pad by exclusive or.
//!
//! It keeps the wrapping contract and nothing more: it is neither
//! confidential against a holder of one wrapped key nor authenticated. It is
//! meant for tests and examples.

use crate::crypto::{flip_bit, isolates_key_pairs, rejects_tampering, CryptoError, KeyWrapper};
use vstd::prelude::*;

verus! {

/// `data` with the byte at each position combined with the byte of `pad` at
/// the same position, `pad` repeated as often as needed.
pub open spec fn xor_with(data: Seq<u8>, pad: Seq<u8>) -> Seq<u8> {
    Seq::new(data.len(), |i: int| data[i] ^ pad[i % pad.len() as int])
}

/// Applying the same pad twice gives the data back.
pub proof fn xor_twice_is_identity(data: Seq<u8>, pad: Seq<u8>)
    requires
        pad.len() > 0,
    ensures
        xor_with(xor_with(data, pad), pad) == data,
{
    assert forall|i: int| 0 <= i < data.len() implies xor_with(xor_with(data, pad), pad)[i]
        == data[i] by {
        let d = data[i];
        let p = pad[i % pad.len() as int];
        assert((d ^ p) ^ p == d) by (bit_vector);
    }
    assert(xor_with(xor_with(data, pad), pad) =~= data);
}

/// The wrapper whose public and private key are the same non-empty pad.
pub struct XorWrapper;

/// Whether `r` is what combining `data` with `pad` gives: the combined
/// bytes, or for an empty pad the error that says so.
pub open spec fn is_padded(data: Seq<u8>, pad: Seq<u8>, r: Result<Vec<u8>, CryptoError>) -> bool {
    if pad.len() > 0 {
        r matches Ok(out) && out@ == xor_with(data, pad)
    } else {
        r matches Err(CryptoError::Wrapper(msg)) && msg@ == "empty key"@
    }
}

/// Combines `data` with `pad`; an empty pad is refused.
fn apply_pad(data: &[u8], pad: &[u8]) -> (r: Result<Vec<u8>, CryptoError>)
    ensures
        is_padded(data@, pad@, r),
{
    if pad.len() == 0 {
        return Err(CryptoError::Wrapper("empty key".to_owned()));
    }
    let mut out: Vec<u8> = Vec::new();
    let mut i: usize = 0;
    while i < data.len()
        invariant
            i <= data.len(),
            pad@.len() > 0,
            out@.len() == i,
            forall|j: int| 0 <= j < i ==> out@[j] == data@[j] ^ pad@[j % pad@.len() as int],
        decreases data.len() - i,
    {
        out.push(data[i] ^ pad[i % pad.len()]);
        i += 1;
    }
    assert(out@ =~= xor_with(data@, pad@));
    Ok(out)
}

impl KeyWrapper for XorWrapper {
    open spec fn algorithm_name(&self) -> Seq<char> {
        "test-xor"@
    }

    open spec fn key_pair(&self, public: Seq<u8>, private: Seq<u8>) -> bool {
        public.len() > 0 && private == public
    }

    open spec fn rejects(&self, dek: Seq<u8>, public: Seq<u8>) -> bool {
        public.len() == 0
    }

    open spec fn unwrapped(&self, ciphertext: Seq<u8>, private: Seq<u8>) -> Option<Seq<u8>> {
        if private.len() > 0 {
            Some(xor_with(ciphertext, private))
        } else {
            None
        }
    }

    open spec fn may_wrap_to(
        &self,
        dek: Seq<u8>,
        public: Seq<u8>,
        r: Result<Vec<u8>, CryptoError>,
    ) -> bool {
        is_padded(dek, public, r)
    }

    open spec fn may_unwrap_to(
        &self,
        ciphertext: Seq<u8>,
        private: Seq<u8>,
        r: Result<Vec<u8>, CryptoError>,
    ) -> bool {
        is_padded(ciphertext, private, r)
    }

    fn algorithm(&self) -> (name: &'static str) {
        "test-xor"
    }

    fn wrap(&self, dek: &[u8], principal_public_key: &[u8]) -> (r: Result<Vec<u8>, CryptoError>) {
        proof {
            if principal_public_key@.len() > 0 {
                xor_twice_is_identity(dek@, principal_public_key@);
            }
        }
        apply_pad(dek, principal_public_key)
    }

    fn unwrap(&self, encrypted_dek: &[u8], principal_private_key: &[u8]) -> (r: Result<
        Vec<u8>,
        CryptoError,
    >) {
        apply_pad(encrypted_dek, principal_private_key)
    }
}

/// The wrapper is not authenticated: it accepts a ciphertext with a bit
/// inverted, and it accepts under one pad what was wrapped under another.
pub proof fn xor_wrapper_is_not_authenticated()
    ensures
        !rejects_tampering(&XorWrapper),
        !isolates_key_pairs(&XorWrapper),
{
    let wrapper = XorWrapper;
    let ciphertext = seq![0u8];
    let pad_a = seq![1u8];
    let pad_b = seq![2u8];
    assert(wrapper.unwrapped(ciphertext, pad_a) is Some);
    assert(wrapper.unwrapped(flip_bit(ciphertext, 0, 0u8), pad_a) is Some);
    assert(wrapper.key_pair(pad_a, pad_a));
    assert(wrapper.key_pair(pad_b, pad_b));
    assert(pad_a[0] != pad_b[0]);
    assert(wrapper.unwrapped(ciphertext, pad_b) is Some);
}

} // verus!
