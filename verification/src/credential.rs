use vstd::prelude::*;

use crate::error::ApplicationError;

verus! {

use vstd::string::StringSliceAdditionalSpecFns;

/// The digest that the memory-hard hashing primitive derives from a password
/// and a salt. With the algorithm, version, cost parameters and output length
/// all fixed constants of this library, the digest is a function of the
/// password and salt bytes alone.
pub uninterp spec fn argon2_digest(password: Seq<u8>, salt: Seq<u8>) -> Seq<u8>;

/// A stored credential: a fresh random salt and the digest derived from the
/// plaintext and that salt. Its fields are never exposed; its only textual
/// rendering is the fixed redacted placeholder of `redacted_text`.
#[derive(Clone)]
pub struct Password {
    salt: [u8; 16],
    hash: [u8; 32],
}

impl Password {
    /// The salt bytes, as a mathematical sequence.
    pub closed spec fn spec_salt(&self) -> Seq<u8> {
        self.salt@
    }

    /// The digest bytes, as a mathematical sequence.
    pub closed spec fn spec_hash(&self) -> Seq<u8> {
        self.hash@
    }

    /// The fixed sizes of the stored fields: every credential carries a
    /// 16-byte salt and a 32-byte digest.
    pub proof fn lemma_fixed_lengths(&self)
        ensures
            self.spec_salt().len() == 16,
            self.spec_hash().len() == 32,
    {
    }

    /// The salt bytes, for an external storage layer that persists the
    /// credential as an opaque pair of byte sequences.
    pub fn salt_bytes(&self) -> (r: &[u8; 16])
        ensures
            r@ == self.spec_salt(),
    {
        &self.salt
    }

    /// The digest bytes, for an external storage layer that persists the
    /// credential as an opaque pair of byte sequences.
    pub fn hash_bytes(&self) -> (r: &[u8; 32])
        ensures
            r@ == self.spec_hash(),
    {
        &self.hash
    }

    /// The only textual rendering of a stored credential: a fixed placeholder
    /// that discloses neither the salt nor the digest.
    pub fn redacted_text(&self) -> (r: String)
        ensures
            r@ == "Password"@,
    {
        "Password".to_owned()
    }
}

/// Holds of a credential that `encode` derived from `plaintext`: the stored
/// digest is the one the hashing primitive gives for that plaintext and the
/// credential's own salt.
pub open spec fn encodes(p: Password, plaintext: Seq<u8>) -> bool {
    p.spec_hash() == argon2_digest(plaintext, p.spec_salt())
}

/// The verdict of verification: a candidate plaintext matches a stored
/// credential exactly when the digest recomputed from the candidate and the
/// stored salt is byte-for-byte equal to the stored digest.
pub open spec fn verification_result(p: Password, candidate: Seq<u8>) -> bool {
    p.spec_hash() == argon2_digest(candidate, p.spec_salt())
}

/// The credential hasher. Its algorithm configuration is the fixed default of
/// the hashing primitive, a constant of the whole system, so the hasher
/// itself carries no state.
#[derive(Clone)]
pub struct PasswordCypher;

impl PasswordCypher {
    /// Builds a hasher with the system's fixed algorithm configuration.
    pub fn new() -> (r: Self)
        ensures
            r == PasswordCypher,
    {
        PasswordCypher
    }

    /// Derives a stored credential from a plaintext: draws a fresh random
    /// 16-byte salt and hashes the plaintext with it into a 32-byte digest.
    /// Fails only when the hashing primitive itself fails, which it does not
    /// for any plaintext that fits in the primitive's length bound.
    pub fn encode(&self, raw_text: &str) -> (r: Result<Password, ApplicationError>)
        ensures
            match r {
                Ok(p) => encodes(p, raw_text.spec_bytes()),
                Err(e) => e is PasswordHash,
            },
            raw_text.spec_bytes().len() <= u32::MAX ==> r is Ok,
    {
        let salt = random_salt();
        match argon2_hash(raw_text.as_bytes(), &salt) {
            Ok(hash) => Ok(Password { salt, hash }),
            Err(detail) => Err(ApplicationError::PasswordHash(detail)),
        }
    }

    /// Recomputes the digest from the candidate plaintext and the stored
    /// salt, and returns whether it equals the stored digest byte for byte.
    /// A mismatch is the `false` verdict, never an error; only a failure of
    /// the hashing primitive is an error.
    pub fn try_password(&self, password: &Password, raw_text: &str) -> (r: Result<
        bool,
        ApplicationError,
    >)
        ensures
            match r {
                Ok(b) => b == verification_result(*password, raw_text.spec_bytes()),
                Err(e) => e is PasswordHash,
            },
            raw_text.spec_bytes().len() <= u32::MAX ==> r is Ok,
    {
        match argon2_hash(raw_text.as_bytes(), &password.salt) {
            Ok(recomputed) => Ok(digests_equal(&password.hash, &recomputed)),
            Err(detail) => Err(ApplicationError::PasswordHash(detail)),
        }
    }
}

impl Default for PasswordCypher {
    /// The default hasher: the same fixed configuration as `new`.
    fn default() -> (r: Self)
        ensures
            r == PasswordCypher,
    {
        PasswordCypher
    }
}

/// Byte-for-byte equality of two 32-byte digests.
fn digests_equal(a: &[u8; 32], b: &[u8; 32]) -> (r: bool)
    ensures
        r == (a@ == b@),
{
    let mut i: usize = 0;
    while i < 32
        invariant
            i <= 32,
            forall|k: int| 0 <= k < i ==> a@[k] == b@[k],
        decreases 32 - i,
    {
        if a[i] != b[i] {
            return false;
        }
        i = i + 1;
    }
    assert(a@ =~= b@);
    true
}

/// A credential that encodes a plaintext verifies against that same
/// plaintext: the recomputed digest is the stored one.
pub proof fn lemma_encode_then_verify(p: Password, plaintext: Seq<u8>)
    requires
        encodes(p, plaintext),
    ensures
        verification_result(p, plaintext),
{
}

/// A credential that encodes one plaintext rejects every candidate whose
/// digest under the stored salt differs from the plaintext's. Only digest
/// collisions are excluded here: for them the verdict is `true` as well,
/// which the memory-hard primitive makes overwhelmingly improbable but no
/// proof can rule out.
pub proof fn lemma_verify_rejects_mismatch(p: Password, plaintext: Seq<u8>, candidate: Seq<u8>)
    requires
        encodes(p, plaintext),
        argon2_digest(candidate, p.spec_salt()) != argon2_digest(plaintext, p.spec_salt()),
    ensures
        !verification_result(p, candidate),
{
}

/// Verification is idempotent: two verdicts for the same stored credential
/// and the same candidate are the same verdict.
pub proof fn lemma_verify_idempotent(p: Password, candidate: Seq<u8>, r1: bool, r2: bool)
    requires
        r1 == verification_result(p, candidate),
        r2 == verification_result(p, candidate),
    ensures
        r1 == r2,
{
}

/// Relies on rand's `OsRng`, the interface to the operating system's
/// cryptographically secure randomness source, to fill the 16-byte salt.
/// Nothing is promised of the bytes drawn: they are random, and a later
/// draw need not relate to an earlier one. The call aborts the process if
/// the operating-system source itself fails.
#[verifier::external_body]
fn random_salt() -> (r: [u8; 16]) {
    let mut salt = [0u8; 16];
    rand::Rng::fill(&mut rand::rngs::OsRng, &mut salt);
    salt
}

/// Relies on `argon2::Argon2::hash_password_into` under the crate's default
/// algorithm, version and parameters, with a 16-byte salt and a 32-byte
/// output, both within the crate's fixed bounds: the digest it fills is a
/// function of the password and salt bytes alone, named `argon2_digest`
/// here, and its source fails only when the password exceeds the length
/// bound of `u32::MAX` bytes. A failure is returned as the crate's own
/// description of its error value.
#[verifier::external_body]
fn argon2_hash(password: &[u8], salt: &[u8; 16]) -> (r: Result<[u8; 32], String>)
    ensures
        r is Ok ==> r->Ok_0@ == argon2_digest(password@, salt@),
        password@.len() <= u32::MAX ==> r is Ok,
{
    let mut hash = [0u8; 32];
    match argon2::Argon2::default().hash_password_into(password, salt, &mut hash) {
        Ok(()) => Ok(hash),
        Err(e) => Err(e.to_string()),
    }
}

} // verus!
