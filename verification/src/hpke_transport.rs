//! The HPKE transport layer.
//!
//! Each input share is addressed to one aggregator's published key with the
//! X25519-HKDF-SHA256 KEM, the HKDF-SHA384 KDF and the ChaCha20-Poly1305
//! AEAD. The encryption context binds a ciphertext to its task and its
//! target role, so a share cannot be replayed into a different task or
//! swapped between the leader and the helper. This layer performs no I/O.

use vstd::prelude::*;

use hpke::kem::{Kem, X25519HkdfSha256};
use hpke::{Deserializable, Serializable};

use crate::problem::PpmError;
use crate::upload::{task_id_bytes, EncryptedInputShare};
use crate::parameters::TaskId;
use crate::Role;

verus! {

/// An error of the outside HPKE library.
#[verifier::external_type_specification]
#[verifier::external_body]
pub struct ExHpkeError(hpke::HpkeError);

/// One aggregator's HPKE key material: the published config id and public
/// key, and the role's own secret key in serialized form.
#[derive(Clone, Debug, PartialEq, Eq)]
pub struct Config {
    pub id: u8,
    pub public_key: Vec<u8>,
    pub secret_key: Vec<u8>,
}

/// What HPKE decryption yields for given key material, encapsulated context,
/// info, associated data and ciphertext: `Some` plaintext, or `None` when
/// decapsulation or authentication fails. Decryption is a function of these
/// inputs alone; no key state changes on decrypt.
pub uninterp spec fn hpke_open_result(
    sk: Seq<u8>,
    enc: Seq<u8>,
    info: Seq<u8>,
    aad: Seq<u8>,
    ct: Seq<u8>,
) -> Option<Seq<u8>>;

/// Whether `sk` is the serialized secret key belonging to the serialized
/// public key `pk` under the fixed KEM: a deterministic relation of the two
/// byte strings alone.
pub uninterp spec fn hpke_key_match(sk: Seq<u8>, pk: Seq<u8>) -> bool;

/// Relies on hpke::single_shot_seal with the fixed ciphersuite above: it
/// encapsulates a fresh secret to the recipient's public key and encrypts
/// the plaintext. The encapsulated key is randomized, so nothing pins the
/// ciphertext itself; what holds of every outcome is HPKE's round-trip
/// correctness (RFC 9180, exercised by the library's own single-shot
/// tests): whoever holds the matching secret key opens the ciphertext back
/// to exactly this plaintext.
#[verifier::external_body]
fn hpke_seal(pk: &[u8], info: &[u8], aad: &[u8], plaintext: &[u8]) -> (r: Result<
    (Vec<u8>, Vec<u8>),
    hpke::HpkeError,
>)
    ensures
        r matches Ok(sealed) ==> forall|sk: Seq<u8>|
            hpke_key_match(sk, pk@) ==> hpke_open_result(sk, sealed.0@, info@, aad@, sealed.1@)
                == Some(plaintext@),
{
    let pk = <X25519HkdfSha256 as Kem>::PublicKey::from_bytes(pk)?;
    let (enc, ct) = hpke::single_shot_seal::<
        hpke::aead::ChaCha20Poly1305,
        hpke::kdf::HkdfSha384,
        X25519HkdfSha256,
    >(&hpke::OpModeS::Base, &pk, info, plaintext, aad)?;
    Ok((enc.to_bytes().as_slice().to_vec(), ct))
}

/// Relies on hpke::single_shot_open with the fixed ciphersuite above: it
/// decapsulates with the secret key and authenticates and decrypts the
/// ciphertext. The outcome is deterministic in the arguments, which
/// `hpke_open_result` names: equal inputs give equal results.
#[verifier::external_body]
fn hpke_open(sk: &[u8], enc: &[u8], info: &[u8], aad: &[u8], ct: &[u8]) -> (r: Result<
    Vec<u8>,
    hpke::HpkeError,
>)
    ensures
        (match r {
            Ok(p) => hpke_open_result(sk@, enc@, info@, aad@, ct@) == Some(p@),
            Err(_) => hpke_open_result(sk@, enc@, info@, aad@, ct@) is None,
        }),
{
    let sk = <X25519HkdfSha256 as Kem>::PrivateKey::from_bytes(sk)?;
    let enc = <X25519HkdfSha256 as Kem>::EncappedKey::from_bytes(enc)?;
    hpke::single_shot_open::<hpke::aead::ChaCha20Poly1305, hpke::kdf::HkdfSha384, X25519HkdfSha256>(
        &hpke::OpModeR::Base,
        &sk,
        &enc,
        info,
        ct,
        aad,
    )
}

/// The associated data that binds a share's ciphertext to its task and its
/// target aggregator.
pub open spec fn spec_share_aad(task_id: Seq<u8>, role: Role) -> Seq<u8> {
    task_id.push(role.spec_index() as u8)
}

/// Builds the associated data binding a ciphertext to a task and role.
pub fn share_aad(task_id: &TaskId, role: Role) -> (aad: Vec<u8>)
    ensures
        aad@ == spec_share_aad(task_id@, role),
{
    let mut aad = task_id_bytes(task_id);
    let idx = role.index();
    aad.push(idx as u8);
    proof {
        assert(aad@ =~= spec_share_aad(task_id@, role));
    }
    aad
}

impl Config {
    /// Packages one role's key material.
    pub fn new(id: u8, public_key: Vec<u8>, secret_key: Vec<u8>) -> (c: Config)
        ensures
            c.id == id,
            c.public_key@ == public_key@,
            c.secret_key@ == secret_key@,
    {
        Config { id, public_key, secret_key }
    }

    /// Encrypts one plaintext input share to this config's public key,
    /// bound to the given task and target role. Encryption is randomized,
    /// so success cannot be promised; on success the share carries this
    /// config's id and decrypts back to exactly this plaintext under any
    /// secret key matching this config's public key.
    pub fn encrypt_input_share(&self, task_id: &TaskId, role: Role, plaintext: &Vec<u8>) -> (r:
        Result<EncryptedInputShare, PpmError>)
        ensures
            r matches Ok(s) ==> s.config_id == self.id,
            r matches Ok(s) ==> forall|sk: Seq<u8>|
                hpke_key_match(sk, self.public_key@) ==> hpke_open_result(
                    sk,
                    s.encapsulated_context@,
                    task_id@,
                    spec_share_aad(task_id@, role),
                    s.payload@,
                ) == Some(plaintext@),
            r matches Err(e) ==> e == PpmError::Crypto,
    {
        let info = task_id_bytes(task_id);
        let aad = share_aad(task_id, role);
        match hpke_seal(
            self.public_key.as_slice(),
            info.as_slice(),
            aad.as_slice(),
            plaintext.as_slice(),
        ) {
            Ok((enc, ct)) => Ok(
                EncryptedInputShare {
                    config_id: self.id,
                    encapsulated_context: enc,
                    payload: ct,
                },
            ),
            Err(_) => Err(PpmError::Crypto),
        }
    }

    /// Decrypts this aggregator's encrypted input share for the given task
    /// and own role. Fails with a crypto error when the share's config id
    /// does not name this config's key, when decapsulation fails, or when
    /// authentication fails; the caller cannot tell which. The result is a
    /// function of the config, task, role and share alone, so decrypting
    /// the same share twice yields the identical plaintext.
    pub fn decrypt_input_share(&self, task_id: &TaskId, role: Role, share: &EncryptedInputShare)
        -> (r: Result<Vec<u8>, PpmError>)
        ensures
            share.config_id != self.id ==> r == Err::<Vec<u8>, PpmError>(PpmError::Crypto),
            share.config_id == self.id ==> (match r {
                Ok(p) => hpke_open_result(
                    self.secret_key@,
                    share.encapsulated_context@,
                    task_id@,
                    spec_share_aad(task_id@, role),
                    share.payload@,
                ) == Some(p@),
                Err(e) => e == PpmError::Crypto && hpke_open_result(
                    self.secret_key@,
                    share.encapsulated_context@,
                    task_id@,
                    spec_share_aad(task_id@, role),
                    share.payload@,
                ) is None,
            }),
    {
        if share.config_id != self.id {
            return Err(PpmError::Crypto);
        }
        let info = task_id_bytes(task_id);
        let aad = share_aad(task_id, role);
        match hpke_open(
            self.secret_key.as_slice(),
            share.encapsulated_context.as_slice(),
            info.as_slice(),
            aad.as_slice(),
            share.payload.as_slice(),
        ) {
            Ok(p) => Ok(p),
            Err(_) => Err(PpmError::Crypto),
        }
    }
}

} // verus!
