//! Envelope encryption of data encryption keys.
//!
//! A data encryption key (DEK) is generated once per resource and wrapped
//! separately under the public key of every principal that may read the
//! resource. Each wrapped copy is an [`EncryptedDek`] record.

use crate::text::joined;
use vstd::prelude::*;

verus! {

/// The opaque error of the standard I/O layer.
#[verifier::external_type_specification]
#[verifier::external_body]
pub struct ExIoError(std::io::Error);

/// Raw symmetric key material.
#[derive(Debug, Clone, PartialEq, Eq)]
pub struct DataEncryptionKey(pub Vec<u8>);

impl View for DataEncryptionKey {
    type V = Seq<u8>;

    open spec fn view(&self) -> Seq<u8> {
        self.0@
    }
}

/// The category of key holder that a wrapped key is bound to.
#[derive(Debug, Clone, PartialEq, Eq)]
pub enum PrincipalType {
    User,
    Group,
}

/// A data encryption key wrapped for one principal.
#[derive(Debug, Clone, PartialEq, Eq)]
pub struct EncryptedDek {
    pub principal_type: PrincipalType,
    pub principal_id: String,
    pub key_wrap_alg: String,
    pub ciphertext: Vec<u8>,
}

/// Why a key operation failed.
#[derive(Debug)]
pub enum CryptoError {
    /// The random source could not be read.
    Io(std::io::Error),
    /// The requested key size is neither 16 nor 32 bytes.
    InvalidKeyLength,
    /// The key wrapper rejected its input.
    Wrapper(String),
}

/// The key sizes that are accepted: 128-bit and 256-bit keys.
pub open spec fn is_dek_len(n: nat) -> bool {
    n == 16 || n == 32
}

impl DataEncryptionKey {
    /// Whether the key has one of the two accepted sizes.
    pub open spec fn well_formed(&self) -> bool {
        is_dek_len(self@.len())
    }
}

/// Checks a requested key size before any randomness is read.
pub fn validate_dek_size(size_bytes: usize) -> (r: Result<(), CryptoError>)
    ensures
        is_dek_len(size_bytes as nat) ==> r is Ok,
        !is_dek_len(size_bytes as nat) ==> r matches Err(CryptoError::InvalidKeyLength),
{
    if size_bytes == 16 || size_bytes == 32 {
        Ok(())
    } else {
        Err(CryptoError::InvalidKeyLength)
    }
}

/// A scheme that wraps a data encryption key under a principal's public key
/// and unwraps it again with the matching private key.
///
/// The specification functions are the scheme's mathematical model; the
/// contracts of the executable methods tie an implementation to it. An
/// implementation that states no model leaves it unspecified.
pub trait KeyWrapper {
    /// The stable identifier of the scheme.
    open spec fn algorithm_name(&self) -> Seq<char> {
        arbitrary()
    }

    /// Whether `private` is the private key that belongs to `public`.
    open spec fn key_pair(&self, public: Seq<u8>, private: Seq<u8>) -> bool {
        arbitrary()
    }

    /// Whether the scheme refuses to wrap `dek` under `public`, as it does
    /// for malformed key material.
    open spec fn rejects(&self, dek: Seq<u8>, public: Seq<u8>) -> bool {
        arbitrary()
    }

    /// What the scheme recovers from `ciphertext` with `private`, or `None`
    /// where it rejects the pair.
    open spec fn unwrapped(&self, ciphertext: Seq<u8>, private: Seq<u8>) -> Option<Seq<u8>> {
        arbitrary()
    }

    /// Whether `wrap` may return `r` for `dek` and `public`. A scheme that
    /// says nothing of its results may return any.
    open spec fn may_wrap_to(
        &self,
        dek: Seq<u8>,
        public: Seq<u8>,
        r: Result<Vec<u8>, CryptoError>,
    ) -> bool {
        true
    }

    /// Whether `unwrap` may return `r` for `ciphertext` and `private`. A
    /// scheme that says nothing of its results may return any.
    open spec fn may_unwrap_to(
        &self,
        ciphertext: Seq<u8>,
        private: Seq<u8>,
        r: Result<Vec<u8>, CryptoError>,
    ) -> bool {
        true
    }

    /// The identifier that is stored beside every ciphertext of this scheme.
    fn algorithm(&self) -> (name: &'static str)
        ensures
            name@ == self.algorithm_name(),
    ;

    /// Encrypts `dek` under `principal_public_key`. The ciphertext may differ
    /// from call to call; whatever is returned unwraps to `dek`. Input that
    /// the scheme rejects fails on every call, and the scheme's own error is
    /// given for such input alone. An empty key is always rejected.
    fn wrap(&self, dek: &[u8], principal_public_key: &[u8]) -> (r: Result<Vec<u8>, CryptoError>)
        ensures
            self.may_wrap_to(dek@, principal_public_key@, r),
            r matches Ok(ciphertext) ==> forall|private: Seq<u8>| #[trigger]
                self.key_pair(principal_public_key@, private) ==> self.unwrapped(
                    ciphertext@,
                    private,
                ) == Some(dek@),
            self.rejects(dek@, principal_public_key@) ==> r is Err,
            r matches Err(CryptoError::Wrapper(_)) ==> self.rejects(dek@, principal_public_key@),
            principal_public_key@.len() == 0 ==> r matches Err(CryptoError::Wrapper(_)),
    ;

    /// Recovers the key from `encrypted_dek`. Success and rejection are
    /// decided by the arguments alone; only a failure of another class may
    /// come and go.
    fn unwrap(&self, encrypted_dek: &[u8], principal_private_key: &[u8]) -> (r: Result<
        Vec<u8>,
        CryptoError,
    >)
        ensures
            self.may_unwrap_to(encrypted_dek@, principal_private_key@, r),
            r matches Ok(dek) ==> self.unwrapped(encrypted_dek@, principal_private_key@) == Some(
                dek@,
            ),
            r matches Err(CryptoError::Wrapper(_)) ==> self.unwrapped(
                encrypted_dek@,
                principal_private_key@,
            ) is None,
            principal_private_key@.len() == 0 ==> r matches Err(CryptoError::Wrapper(_)),
    ;
}

/// Whether `ciphertext` is a wrapping of `dek` under `public`: every private
/// key that belongs to `public` recovers `dek` from it.
pub open spec fn is_wrapping<W: KeyWrapper + ?Sized>(
    wrapper: &W,
    dek: Seq<u8>,
    public: Seq<u8>,
    ciphertext: Seq<u8>,
) -> bool {
    forall|private: Seq<u8>| #[trigger]
        wrapper.key_pair(public, private) ==> wrapper.unwrapped(ciphertext, private) == Some(dek)
}

/// Whether `r` is what becomes of a wrapper's result `wrapped`: a
/// ciphertext becomes the record of the principal, tagged with the wrapper's
/// algorithm; an error stays the error it is.
pub open spec fn is_record_of<W: KeyWrapper + ?Sized>(
    wrapper: &W,
    wrapped: Result<Vec<u8>, CryptoError>,
    principal_type: PrincipalType,
    principal_id: Seq<char>,
    r: Result<EncryptedDek, CryptoError>,
) -> bool {
    match wrapped {
        Ok(ciphertext) => {
            &&& r matches Ok(record)
            &&& record.principal_type == principal_type
            &&& record.principal_id@ == principal_id
            &&& record.key_wrap_alg@ == wrapper.algorithm_name()
            &&& record.ciphertext == ciphertext
        },
        Err(e) => r matches Err(same) && same == e,
    }
}

/// Whether `r` is what becomes of a wrapper's result `unwrapped`: the bytes
/// become the key; an error stays the error it is.
pub open spec fn is_dek_of(
    unwrapped: Result<Vec<u8>, CryptoError>,
    r: Result<DataEncryptionKey, CryptoError>,
) -> bool {
    match unwrapped {
        Ok(plaintext) => r matches Ok(dek) && dek.0 == plaintext,
        Err(e) => r matches Err(same) && same == e,
    }
}

/// Turns what a wrapper's `wrap` returned into the caller's result.
pub fn record_from_wrapped<W: KeyWrapper + ?Sized>(
    wrapper: &W,
    wrapped: Result<Vec<u8>, CryptoError>,
    principal_type: PrincipalType,
    principal_id: &str,
) -> (r: Result<EncryptedDek, CryptoError>)
    ensures
        is_record_of(wrapper, wrapped, principal_type, principal_id@, r),
{
    match wrapped {
        Ok(ciphertext) => Ok(
            EncryptedDek {
                principal_type,
                principal_id: principal_id.to_owned(),
                key_wrap_alg: wrapper.algorithm().to_owned(),
                ciphertext,
            },
        ),
        Err(e) => Err(e),
    }
}

/// What wrapping `dek` for a principal may return: a record that carries the
/// principal, the scheme's identifier and a wrapping of `dek`, or an error.
/// Input that the scheme rejects gives an error on every call, the scheme's
/// own error is given for such input alone, and for an empty public key it
/// is certain.
pub open spec fn wrap_outcome<W: KeyWrapper + ?Sized>(
    wrapper: &W,
    dek: Seq<u8>,
    principal_type: PrincipalType,
    principal_id: Seq<char>,
    public: Seq<u8>,
    r: Result<EncryptedDek, CryptoError>,
) -> bool {
    &&& r matches Ok(record) ==> {
        &&& record.principal_type == principal_type
        &&& record.principal_id@ == principal_id
        &&& record.key_wrap_alg@ == wrapper.algorithm_name()
        &&& is_wrapping(wrapper, dek, public, record.ciphertext@)
    }
    &&& wrapper.rejects(dek, public) ==> r is Err
    &&& r matches Err(CryptoError::Wrapper(_)) ==> wrapper.rejects(dek, public)
    &&& public.len() == 0 ==> r matches Err(CryptoError::Wrapper(_))
}

/// What unwrapping `ciphertext` with `private` may return: the key that the
/// scheme recovers, a rejection only where the scheme rejects, or a failure
/// of another class.
pub open spec fn unwrap_outcome<W: KeyWrapper + ?Sized>(
    wrapper: &W,
    ciphertext: Seq<u8>,
    private: Seq<u8>,
    r: Result<DataEncryptionKey, CryptoError>,
) -> bool {
    &&& r matches Ok(dek) ==> wrapper.unwrapped(ciphertext, private) == Some(dek@)
    &&& r matches Err(CryptoError::Wrapper(_)) ==> wrapper.unwrapped(ciphertext, private) is None
    &&& private.len() == 0 ==> r matches Err(CryptoError::Wrapper(_))
}

/// Wraps `dek` under the public key of one principal: makes one call of the
/// wrapper's `wrap` and returns what becomes of its result, the ciphertext
/// tagged with the principal and the wrapper's algorithm, or the wrapper's
/// error as it is.
pub fn wrap_dek_for_principal<W: KeyWrapper + ?Sized>(
    wrapper: &W,
    dek: &DataEncryptionKey,
    principal_type: PrincipalType,
    principal_id: &str,
    principal_public_key: &[u8],
) -> (r: Result<EncryptedDek, CryptoError>)
    ensures
        wrap_outcome(wrapper, dek@, principal_type, principal_id@, principal_public_key@, r),
        exists|wrapped: Result<Vec<u8>, CryptoError>|
            {
                &&& #[trigger] wrapper.may_wrap_to(dek@, principal_public_key@, wrapped)
                &&& is_record_of(wrapper, wrapped, principal_type, principal_id@, r)
            },
{
    let wrapped = wrapper.wrap(dek.0.as_slice(), principal_public_key);
    let ghost returned = wrapped;
    let r = record_from_wrapped(wrapper, wrapped, principal_type, principal_id);
    assert(wrapper.may_wrap_to(dek@, principal_public_key@, returned) && is_record_of(
        wrapper,
        returned,
        principal_type,
        principal_id@,
        r,
    ));
    r
}

/// Turns what a wrapper's `unwrap` returned into the caller's result.
pub fn dek_from_unwrapped(unwrapped: Result<Vec<u8>, CryptoError>) -> (r: Result<
    DataEncryptionKey,
    CryptoError,
>)
    ensures
        is_dek_of(unwrapped, r),
{
    match unwrapped {
        Ok(plaintext) => Ok(DataEncryptionKey(plaintext)),
        Err(e) => Err(e),
    }
}

/// Recovers the key from a record with the private key of the principal it
/// was wrapped for: makes one call of the wrapper's `unwrap` on the record's
/// ciphertext and returns what becomes of its result. The caller picks the
/// wrapper whose algorithm the record names; no field of the record but the
/// ciphertext is read.
pub fn unwrap_dek_for_principal<W: KeyWrapper + ?Sized>(
    wrapper: &W,
    encrypted: &EncryptedDek,
    principal_private_key: &[u8],
) -> (r: Result<DataEncryptionKey, CryptoError>)
    ensures
        unwrap_outcome(wrapper, encrypted.ciphertext@, principal_private_key@, r),
        exists|unwrapped: Result<Vec<u8>, CryptoError>|
            {
                &&& #[trigger] wrapper.may_unwrap_to(
                    encrypted.ciphertext@,
                    principal_private_key@,
                    unwrapped,
                )
                &&& is_dek_of(unwrapped, r)
            },
{
    let unwrapped = wrapper.unwrap(encrypted.ciphertext.as_slice(), principal_private_key);
    let ghost returned = unwrapped;
    let r = dek_from_unwrapped(unwrapped);
    assert(wrapper.may_unwrap_to(encrypted.ciphertext@, principal_private_key@, returned)
        && is_dek_of(returned, r));
    r
}

/// Builds the key from what the random source gave. `entropy` is the outcome
/// of reading `size_bytes` random bytes; the read is made only for a size
/// that [`validate_dek_size`] accepts. A buffer of another length than the
/// one asked for is not a key of that length and is refused.
pub fn generate_dek(size_bytes: usize, entropy: Result<Vec<u8>, std::io::Error>) -> (r: Result<
    DataEncryptionKey,
    CryptoError,
>)
    ensures
        entropy matches Ok(bytes) && is_dek_len(size_bytes as nat) && bytes@.len() == size_bytes
            ==> r is Ok,
        match r {
            Ok(key) => {
                &&& is_dek_len(size_bytes as nat)
                &&& entropy matches Ok(bytes)
                &&& key.0 == bytes
                &&& key@.len() == size_bytes
                &&& key.well_formed()
            },
            Err(CryptoError::InvalidKeyLength) => {
                ||| !is_dek_len(size_bytes as nat)
                ||| entropy matches Ok(bytes) && bytes@.len() != size_bytes
            },
            Err(CryptoError::Io(e)) => is_dek_len(size_bytes as nat) && entropy == Err::<
                Vec<u8>,
                std::io::Error,
            >(e),
            Err(CryptoError::Wrapper(_)) => false,
        },
{
    if !(size_bytes == 16 || size_bytes == 32) {
        return Err(CryptoError::InvalidKeyLength);
    }
    match entropy {
        Ok(key) => {
            if key.len() == size_bytes {
                Ok(DataEncryptionKey(key))
            } else {
                Err(CryptoError::InvalidKeyLength)
            }
        },
        Err(e) => Err(CryptoError::from(e)),
    }
}

impl From<std::io::Error> for CryptoError {
    fn from(value: std::io::Error) -> (e: CryptoError) {
        CryptoError::Io(value)
    }
}

impl vstd::std_specs::convert::FromSpecImpl<std::io::Error> for CryptoError {
    open spec fn obeys_from_spec() -> bool {
        true
    }

    open spec fn from_spec(value: std::io::Error) -> CryptoError {
        CryptoError::Io(value)
    }
}

impl CryptoError {
    /// The text of the error: a fixed prefix that names the class, followed
    /// by the detail where there is one. For an I/O error the detail is what
    /// the standard library prints for it.
    pub fn message(&self) -> (text: String)
        ensures
            match *self {
                CryptoError::Io(_) => "io error: "@.is_prefix_of(text@),
                CryptoError::InvalidKeyLength => text@ == "invalid DEK length"@,
                CryptoError::Wrapper(msg) => text@ == "wrapper error: "@ + msg@,
            },
    {
        match self {
            CryptoError::Io(e) => joined("io error: ", e.to_string().as_str()),
            CryptoError::InvalidKeyLength => "invalid DEK length".to_owned(),
            CryptoError::Wrapper(msg) => joined("wrapper error: ", msg.as_str()),
        }
    }
}

/// `bytes` with one bit of the byte at `index` inverted.
pub open spec fn flip_bit(bytes: Seq<u8>, index: int, bit: u8) -> Seq<u8> {
    bytes.update(index, bytes[index] ^ (1u8 << bit))
}

/// Whether the scheme is authenticated: once a ciphertext is accepted under
/// a private key, every copy of it with a single bit inverted is rejected
/// under that key.
pub open spec fn rejects_tampering<W: KeyWrapper + ?Sized>(wrapper: &W) -> bool {
    forall|ciphertext: Seq<u8>, private: Seq<u8>, index: int, bit: u8|
        wrapper.unwrapped(ciphertext, private) is Some && 0 <= index < ciphertext.len() && bit < 8
            ==> (#[trigger] wrapper.unwrapped(flip_bit(ciphertext, index, bit), private)) is None
}

/// Whether the scheme binds a ciphertext to one key pair: what is accepted
/// under the private key of one pair is rejected under the private key of
/// every other pair.
pub open spec fn isolates_key_pairs<W: KeyWrapper + ?Sized>(wrapper: &W) -> bool {
    forall|
        ciphertext: Seq<u8>,
        public_a: Seq<u8>,
        private_a: Seq<u8>,
        public_b: Seq<u8>,
        private_b: Seq<u8>,
    |
        #![trigger
            wrapper.key_pair(public_a, private_a),
            wrapper.key_pair(public_b, private_b),
            wrapper.unwrapped(ciphertext, private_a),
        ]
        {
            &&& wrapper.key_pair(public_a, private_a)
            &&& wrapper.key_pair(public_b, private_b)
            &&& public_a != public_b
            &&& private_a != private_b
            &&& wrapper.unwrapped(ciphertext, private_a) is Some
        } ==> wrapper.unwrapped(ciphertext, private_b) is None
}

/// Round trip: a key that was wrapped for a principal comes back unchanged
/// when the record is unwrapped with the private key that belongs to the
/// public key it was wrapped under. The scheme never rejects such a record,
/// and never yields other bytes.
pub proof fn wrapped_dek_round_trips<W: KeyWrapper + ?Sized>(
    wrapper: &W,
    dek: Seq<u8>,
    principal_type: PrincipalType,
    principal_id: Seq<char>,
    public: Seq<u8>,
    private: Seq<u8>,
    record: EncryptedDek,
    recovered: Result<DataEncryptionKey, CryptoError>,
)
    requires
        wrapper.key_pair(public, private),
        wrap_outcome(wrapper, dek, principal_type, principal_id, public, Ok(record)),
        unwrap_outcome(wrapper, record.ciphertext@, private, recovered),
    ensures
        wrapper.unwrapped(record.ciphertext@, private) == Some(dek),
        match recovered {
            Ok(key) => key@ == dek,
            Err(e) => !(e is Wrapper),
        },
{
}

/// Tamper detection: with an authenticated scheme, a record whose
/// ciphertext had one bit inverted after wrapping does not unwrap, whatever
/// bit it was.
pub proof fn tampered_record_is_rejected<W: KeyWrapper + ?Sized>(
    wrapper: &W,
    dek: Seq<u8>,
    principal_type: PrincipalType,
    principal_id: Seq<char>,
    public: Seq<u8>,
    private: Seq<u8>,
    record: EncryptedDek,
    index: int,
    bit: u8,
    recovered: Result<DataEncryptionKey, CryptoError>,
)
    requires
        rejects_tampering(wrapper),
        wrapper.key_pair(public, private),
        wrap_outcome(wrapper, dek, principal_type, principal_id, public, Ok(record)),
        0 <= index < record.ciphertext@.len(),
        bit < 8,
        unwrap_outcome(wrapper, flip_bit(record.ciphertext@, index, bit), private, recovered),
    ensures
        wrapper.unwrapped(flip_bit(record.ciphertext@, index, bit), private) is None,
        recovered is Err,
{
    assert(wrapper.unwrapped(record.ciphertext@, private) == Some(dek));
}

/// Isolation of principals: with a scheme that binds ciphertexts to key
/// pairs, two records of one key, wrapped for two principals with distinct
/// key pairs, do not unwrap with the other principal's private key.
pub proof fn other_principal_cannot_unwrap<W: KeyWrapper + ?Sized>(
    wrapper: &W,
    dek: Seq<u8>,
    type_a: PrincipalType,
    id_a: Seq<char>,
    public_a: Seq<u8>,
    private_a: Seq<u8>,
    record_a: EncryptedDek,
    type_b: PrincipalType,
    id_b: Seq<char>,
    public_b: Seq<u8>,
    private_b: Seq<u8>,
    record_b: EncryptedDek,
    a_with_b: Result<DataEncryptionKey, CryptoError>,
    b_with_a: Result<DataEncryptionKey, CryptoError>,
)
    requires
        isolates_key_pairs(wrapper),
        wrapper.key_pair(public_a, private_a),
        wrapper.key_pair(public_b, private_b),
        public_a != public_b,
        private_a != private_b,
        wrap_outcome(wrapper, dek, type_a, id_a, public_a, Ok(record_a)),
        wrap_outcome(wrapper, dek, type_b, id_b, public_b, Ok(record_b)),
        unwrap_outcome(wrapper, record_a.ciphertext@, private_b, a_with_b),
        unwrap_outcome(wrapper, record_b.ciphertext@, private_a, b_with_a),
    ensures
        a_with_b is Err,
        b_with_a is Err,
{
    assert(wrapper.unwrapped(record_a.ciphertext@, private_a) == Some(dek));
    assert(wrapper.unwrapped(record_b.ciphertext@, private_b) == Some(dek));
}

} // verus!
