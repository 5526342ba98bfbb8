//! Sealing the private keys of certificates with AES-256-GCM. Old keys open what
//! they sealed; only the active key seals.
use ring::aead;
use ring::rand::SecureRandom;
use vstd::prelude::*;
use vstd::string::*;
use vstd::utf8::*;
use zeroize::Zeroizing;

use super::CertificateId;
use super::CertificateRevision;
use super::InvalidCertificateResource;
use crate::outcome;
use crate::text;

verus! {

const FORMAT_VERSION: u8 = 1;

const MAX_SEALING_KEYS: usize = 8;

/// Bytes that are erased when they are given up, and never shown: a
/// `zeroize::Zeroizing` buffer.
#[verifier::external_body]
#[derive(Debug, PartialEq, Eq)]
pub struct SecretBytes {
    buffer: Zeroizing<Vec<u8>>,
}

/// The bytes in a buffer.
pub uninterp spec fn secret(bytes: SecretBytes) -> Seq<u8>;

impl View for SecretBytes {
    type V = Seq<u8>;

    open spec fn view(&self) -> Seq<u8> {
        secret(*self)
    }
}

impl DeepView for SecretBytes {
    type V = Seq<u8>;

    open spec fn deep_view(&self) -> Seq<u8> {
        secret(*self)
    }
}

/// `Zeroizing::new` takes over the bytes as they are.
#[verifier::external_body]
pub(crate) fn guarded(bytes: Vec<u8>) -> (r: SecretBytes)
    ensures
        secret(r) == bytes@,
{
    SecretBytes { buffer: Zeroizing::new(bytes) }
}

impl SecretBytes {
    /// `Zeroizing::deref` gives the bytes in the buffer.
    #[verifier::external_body]
    pub(crate) fn as_bytes(&self) -> (r: &Vec<u8>)
        ensures
            r@ == secret(*self),
    {
        &self.buffer
    }

    /// The bytes, for as long as they are used.
    pub fn to_vec(&self) -> (r: Vec<u8>)
        ensures
            r@ == self@,
    {
        let r = self.as_bytes().clone();
        assert(r@ =~= self@);
        r
    }
}

/// What AES-256-GCM makes of a plaintext: the ciphertext and its tag. None if the
/// key has not 32 bytes or the plaintext is too long.
pub uninterp spec fn sealed_bytes(
    key: Seq<u8>,
    nonce: Seq<u8>,
    associated: Seq<u8>,
    plaintext: Seq<u8>,
) -> Option<Seq<u8>>;

/// The plaintext that AES-256-GCM finds in a ciphertext and its tag. None if they
/// do not belong to the key, the nonce and the associated data.
pub uninterp spec fn opened_bytes(
    key: Seq<u8>,
    nonce: Seq<u8>,
    associated: Seq<u8>,
    ciphertext: Seq<u8>,
) -> Option<Seq<u8>>;

/// `ring::aead::UnboundKey::new` takes a key for AES-256-GCM if it has 32 bytes.
#[verifier::external_body]
fn accepts_key(key: &SecretBytes) -> (r: bool)
    ensures
        r == (secret(*key).len() == 32),
{
    aead::UnboundKey::new(&aead::AES_256_GCM, key.buffer.as_slice()).is_ok()
}

/// `ring::rand::SystemRandom::fill` with twelve bytes. Of the bytes nothing is
/// said; the system may have none.
#[verifier::external_body]
fn random_nonce() -> (r: Option<[u8; 12]>) {
    let mut nonce = [0u8; 12];
    ring::rand::SystemRandom::new().fill(&mut nonce).ok()?;
    Some(nonce)
}

/// Whether AES-256-GCM seals a plaintext with associated data: it counts blocks of
/// the one in 32 bits, two of which it needs itself, and bits of the other in 64.
pub open spec fn is_sealable(associated: Seq<u8>, plaintext: Seq<u8>) -> bool {
    plaintext.len() <= 68_719_476_704 && associated.len() <= 0x1fff_ffff_ffff_ffff
}

/// `ring::aead::LessSafeKey::seal_in_place_append_tag` with AES-256-GCM. What it
/// seals, opening gives back; and with a key of 32 bytes it seals whatever is not
/// too long.
#[verifier::external_body]
fn aes_seal(
    key: &SecretBytes,
    nonce: [u8; 12],
    associated: &Vec<u8>,
    plaintext: &[u8],
) -> (r: Option<Vec<u8>>)
    ensures
        r.deep_view() == sealed_bytes(secret(*key), nonce@, associated@, plaintext@),
        r matches Some(ciphertext) ==> opened_bytes(
            secret(*key),
            nonce@,
            associated@,
            ciphertext@,
        ) == Some(plaintext@),
        secret(*key).len() == 32 && is_sealable(associated@, plaintext@) ==> r is Some,
{
    let key = aead::UnboundKey::new(&aead::AES_256_GCM, key.buffer.as_slice()).ok()?;
    let key = aead::LessSafeKey::new(key);
    let mut text = Zeroizing::new(plaintext.to_vec());
    let nonce = aead::Nonce::assume_unique_for_key(nonce);
    key.seal_in_place_append_tag(nonce, aead::Aad::from(associated), &mut *text).ok()?;
    Some(text.to_vec())
}

/// `ring::aead::LessSafeKey::open_in_place` with AES-256-GCM.
#[verifier::external_body]
fn aes_open(
    key: &SecretBytes,
    nonce: [u8; 12],
    associated: &Vec<u8>,
    ciphertext: &Vec<u8>,
) -> (r: Option<SecretBytes>)
    ensures
        r.deep_view() == opened_bytes(secret(*key), nonce@, associated@, ciphertext@),
{
    let key = aead::UnboundKey::new(&aead::AES_256_GCM, key.buffer.as_slice()).ok()?;
    let key = aead::LessSafeKey::new(key);
    let mut buffer = Zeroizing::new(ciphertext.clone());
    let nonce = aead::Nonce::assume_unique_for_key(nonce);
    let length = key.open_in_place(nonce, aead::Aad::from(associated), &mut buffer).ok()?.len();
    buffer.truncate(length);
    Some(SecretBytes { buffer })
}

/// A character of a key ID.
pub open spec fn is_key_id_char(c: char) -> bool {
    ('a' <= c <= 'z') || ('A' <= c <= 'Z') || ('0' <= c <= '9') || c == '.' || c == '_' || c == '-'
}

/// Whether a text may be a key ID: one to 64 letters, digits, dots, underscores
/// and hyphens.
pub open spec fn is_key_id(id: Seq<char>) -> bool {
    &&& 1 <= id.len() <= 64
    &&& forall|i: int| 0 <= i < id.len() ==> is_key_id_char(#[trigger] id[i])
}

/// What keeps a text from being a key ID.
pub open spec fn key_id_problem(id: Seq<char>) -> Option<Seq<char>> {
    if is_key_id(id) {
        None
    } else {
        Some("sealing key ID requires 1–64 ASCII identifier characters"@)
    }
}

fn validate_key_id(id: &str) -> (r: Result<(), InvalidCertificateResource>)
    ensures
        outcome::problem(r) == key_id_problem(id@),
{
    let chars = text::chars_of(id);
    let error = InvalidCertificateResource(
        "sealing key ID requires 1–64 ASCII identifier characters",
    );
    if chars.len() == 0 || chars.len() > 64 {
        return Err(error);
    }
    let mut i: usize = 0;
    while i < chars.len()
        invariant
            0 <= i <= chars.len(),
            chars@ == id@,
            error.deep_view() == "sealing key ID requires 1–64 ASCII identifier characters"@,
            forall|j: int| 0 <= j < i ==> is_key_id_char(#[trigger] id@[j]),
        decreases chars.len() - i,
    {
        let c = chars[i];
        if !(('a' <= c && c <= 'z') || ('A' <= c && c <= 'Z') || ('0' <= c && c <= '9') || c == '.'
            || c == '_' || c == '-') {
            assert(!is_key_id_char(id@[i as int]));
            return Err(error);
        }
        i = i + 1;
    }
    Ok(())
}

/// A key of 32 bytes and its ID. It comes from the deployment and is never
/// stored.
#[derive(Debug)]
pub struct SealingKey {
    id: String,
    bytes: SecretBytes,
}

/// What a [`SealingKey`] holds.
#[verifier::ext_equal]
pub struct SealingKeyView {
    pub id: Seq<char>,
    pub bytes: Seq<u8>,
}

impl DeepView for SealingKey {
    type V = SealingKeyView;

    closed spec fn deep_view(&self) -> SealingKeyView {
        SealingKeyView { id: self.id@, bytes: self.bytes@ }
    }
}

impl SealingKey {
    #[verifier::type_invariant]
    spec fn has_length(&self) -> bool {
        self.bytes@.len() == 32
    }

    pub fn new(id: &str, bytes: [u8; 32]) -> (r: Result<Self, InvalidCertificateResource>)
        ensures
            outcome::of(r) == outcome::checked(
                key_id_problem(id@),
                SealingKeyView { id: id@, bytes: bytes@ },
            ),
    {
        let mut copy: Vec<u8> = Vec::new();
        super::push_bytes(&mut copy, bytes.as_slice());
        assert(copy@ =~= bytes@);
        let bytes = guarded(copy);
        if let Err(error) = validate_key_id(id) {
            return Err(error);
        }
        Ok(SealingKey { id: id.to_owned(), bytes })
    }

    /// How the key is shown: without its bytes.
    pub fn to_debug_string(&self) -> (r: String)
        ensures
            r@ == "SealingKey { id: "@ + text::debug_text(self.deep_view().id)
                + ", material: \"[REDACTED]\" }"@,
    {
        let id = text::quoted(self.id.as_str());
        text::join3("SealingKey { id: ", id.as_str(), ", material: \"[REDACTED]\" }")
    }
}

/// A key of a ring, by its position.
pub open spec fn key_named(keys: Seq<SealingKeyView>, id: Seq<char>) -> Option<SealingKeyView>
    decreases keys.len(),
{
    if keys.len() == 0 {
        None
    } else if keys.last().id == id {
        Some(keys.last())
    } else {
        key_named(keys.drop_last(), id)
    }
}

/// Whether no two keys have one ID.
pub open spec fn distinct_ids(keys: Seq<SealingKeyView>) -> bool {
    forall|i: int, j: int|
        0 <= i < j < keys.len() ==> (#[trigger] keys[i]).id != (#[trigger] keys[j]).id
}

/// What keeps keys from being a ring.
pub open spec fn keyring_problem(active_id: Seq<char>, keys: Seq<SealingKeyView>) -> Option<
    Seq<char>,
> {
    outcome::first_of(
        key_id_problem(active_id),
        if keys.len() == 0 || keys.len() > 8 {
            Some("sealing keyring requires 1–8 keys"@)
        } else if !distinct_ids(keys) {
            Some("duplicate sealing key ID"@)
        } else if key_named(keys, active_id) is None {
            Some("active sealing key is unavailable"@)
        } else {
            None
        },
    )
}

/// A ring of keys, one of them active.
#[derive(Debug)]
pub struct CertificateSealer {
    active_id: String,
    keys: Vec<SealingKey>,
}

/// What a [`CertificateSealer`] holds.
#[verifier::ext_equal]
pub struct CertificateSealerView {
    pub active_id: Seq<char>,
    pub keys: Seq<SealingKeyView>,
}

impl CertificateSealerView {
    /// The active key.
    pub open spec fn active_key(self) -> Seq<u8> {
        key_named(self.keys, self.active_id)->0.bytes
    }
}

impl DeepView for CertificateSealer {
    type V = CertificateSealerView;

    closed spec fn deep_view(&self) -> CertificateSealerView {
        CertificateSealerView { active_id: self.active_id@, keys: self.keys.deep_view() }
    }
}

/// A private key as it is stored: sealed, with what is needed to open it.
#[derive(Debug, PartialEq, Eq)]
pub struct SealedPrivateKey {
    pub format_version: u8,
    pub key_id: String,
    pub nonce: [u8; 12],
    pub ciphertext: Vec<u8>,
}

/// What a [`SealedPrivateKey`] holds.
#[verifier::ext_equal]
pub struct SealedPrivateKeyView {
    pub format_version: u8,
    pub key_id: Seq<char>,
    pub nonce: Seq<u8>,
    pub ciphertext: Seq<u8>,
}

impl DeepView for SealedPrivateKey {
    type V = SealedPrivateKeyView;

    open spec fn deep_view(&self) -> SealedPrivateKeyView {
        SealedPrivateKeyView {
            format_version: self.format_version,
            key_id: self.key_id@,
            nonce: self.nonce@,
            ciphertext: self.ciphertext@,
        }
    }
}

impl Clone for SealedPrivateKey {
    fn clone(&self) -> (r: Self)
        ensures
            r.deep_view() == self.deep_view(),
    {
        let ciphertext = self.ciphertext.clone();
        assert(ciphertext@ =~= self.ciphertext@);
        SealedPrivateKey {
            format_version: self.format_version,
            key_id: self.key_id.clone(),
            nonce: self.nonce,
            ciphertext,
        }
    }
}

/// A number as four bytes, the highest first.
pub open spec fn be4(value: u32) -> Seq<u8> {
    seq![(value >> 24) as u8, (value >> 16) as u8, (value >> 8) as u8, value as u8]
}

fn push_be4(bytes: &mut Vec<u8>, value: u32)
    ensures
        final(bytes)@ == old(bytes)@ + be4(value),
{
    bytes.push(#[verifier::truncate] ((value >> 24) as u8));
    bytes.push(#[verifier::truncate] ((value >> 16) as u8));
    bytes.push(#[verifier::truncate] ((value >> 8) as u8));
    bytes.push(#[verifier::truncate] (value as u8));
    assert(bytes@ =~= old(bytes)@ + be4(value));
}

/// A part of the associated data: its length and its bytes.
pub open spec fn part(bytes: Seq<u8>) -> Seq<u8> {
    be4(bytes.len() as u32) + bytes
}

/// What a sealed key is bound to: the format, the version, and the certificate,
/// the key ID and the digest of the chain.
pub open spec fn associated_bytes(
    id: Seq<char>,
    version: nat,
    chain_digest: Seq<u8>,
    key_id: Seq<char>,
) -> Seq<u8> {
    encode_utf8("sleepypods-certificate-private-key"@) + seq![1u8] + super::be8(version as u64)
        + part(encode_utf8(id)) + part(encode_utf8(key_id)) + part(chain_digest)
}

fn push_part(bytes: &mut Vec<u8>, more: &[u8])
    ensures
        final(bytes)@ == old(bytes)@ + part(more@),
{
    push_be4(bytes, #[verifier::truncate] (more.len() as u32));
    super::push_bytes(bytes, more);
    assert(bytes@ =~= old(bytes)@ + part(more@));
}

fn associated_data(
    id: &CertificateId,
    version: CertificateRevision,
    chain_digest: &[u8],
    key_id: &str,
) -> (r: Vec<u8>)
    ensures
        r@ == associated_bytes(id@, version@, chain_digest@, key_id@),
{
    let mut bytes: Vec<u8> = Vec::new();
    super::push_bytes(&mut bytes, "sleepypods-certificate-private-key".as_bytes());
    assert(bytes@ =~= encode_utf8("sleepypods-certificate-private-key"@));
    bytes.push(FORMAT_VERSION);
    assert(bytes@ =~= encode_utf8("sleepypods-certificate-private-key"@) + seq![1u8]);
    super::push_be8(&mut bytes, version.get());
    push_part(&mut bytes, id.as_str().as_bytes());
    push_part(&mut bytes, key_id.as_bytes());
    push_part(&mut bytes, chain_digest);
    bytes
}

/// Whether an envelope holds a plaintext, sealed with the active key for a
/// certificate, its version and its chain.
pub open spec fn sealed_by(
    sealer: CertificateSealerView,
    id: Seq<char>,
    version: nat,
    chain_digest: Seq<u8>,
    plaintext: Seq<u8>,
    envelope: SealedPrivateKeyView,
) -> bool {
    let associated = associated_bytes(id, version, chain_digest, sealer.active_id);
    &&& envelope.format_version == 1
    &&& envelope.key_id == sealer.active_id
    &&& envelope.nonce.len() == 12
    &&& sealed_bytes(sealer.active_key(), envelope.nonce, associated, plaintext) == Some(
        envelope.ciphertext,
    )
    &&& opened_bytes(sealer.active_key(), envelope.nonce, associated, envelope.ciphertext) == Some(
        plaintext,
    )
}

/// Whether AES-256-GCM refused to seal a plaintext with the active key for a
/// certificate, its version and its chain: it did so under some nonce, and only
/// what is too long is refused.
pub open spec fn seal_refused(
    sealer: CertificateSealerView,
    id: Seq<char>,
    version: nat,
    chain_digest: Seq<u8>,
    plaintext: Seq<u8>,
) -> bool {
    let associated = associated_bytes(id, version, chain_digest, sealer.active_id);
    &&& !is_sealable(associated, plaintext)
    &&& exists|nonce: Seq<u8>|
        nonce.len() == 12 && (#[trigger] sealed_bytes(
            sealer.active_key(),
            nonce,
            associated,
            plaintext,
        )) is None
}

/// What is in an envelope, or why it is not opened.
pub open spec fn open_result(
    sealer: CertificateSealerView,
    id: Seq<char>,
    version: nat,
    chain_digest: Seq<u8>,
    envelope: SealedPrivateKeyView,
) -> Result<Seq<u8>, Seq<char>> {
    if envelope.format_version != 1 {
        Err("unsupported certificate sealing envelope"@)
    } else {
        match key_named(sealer.keys, envelope.key_id) {
            None => Err("certificate sealing key is unavailable"@),
            Some(key) => match opened_bytes(
                key.bytes,
                envelope.nonce,
                associated_bytes(id, version, chain_digest, envelope.key_id),
                envelope.ciphertext,
            ) {
                None => Err("certificate sealing authentication failed"@),
                Some(plaintext) => Ok(plaintext),
            },
        }
    }
}

proof fn lemma_key_named(keys: Seq<SealingKeyView>, id: Seq<char>, at: int)
    requires
        0 <= at < keys.len(),
        keys[at].id == id,
        forall|j: int| at < j < keys.len() ==> (#[trigger] keys[j]).id != id,
    ensures
        key_named(keys, id) == Some(keys[at]),
    decreases keys.len(),
{
    if at < keys.len() - 1 {
        assert(keys[keys.len() - 1].id != id);
        lemma_key_named(keys.drop_last(), id, at);
    }
}

proof fn lemma_key_not_named(keys: Seq<SealingKeyView>, id: Seq<char>)
    requires
        forall|j: int| 0 <= j < keys.len() ==> (#[trigger] keys[j]).id != id,
    ensures
        key_named(keys, id) is None,
    decreases keys.len(),
{
    if keys.len() > 0 {
        assert(keys[keys.len() - 1].id != id);
        lemma_key_not_named(keys.drop_last(), id);
    }
}

fn position(keys: &Vec<SealingKey>, id: &str) -> (r: Option<usize>)
    ensures
        match r {
            Some(at) => at < keys.len() && key_named(keys.deep_view(), id@) == Some(
                keys.deep_view()[at as int],
            ),
            None => key_named(keys.deep_view(), id@) is None,
        },
{
    let ghost view = keys.deep_view();
    let mut i: usize = keys.len();
    while i > 0
        invariant
            0 <= i <= keys.len(),
            view == keys.deep_view(),
            forall|j: int| i <= j < view.len() ==> (#[trigger] view[j]).id != id@,
        decreases i,
    {
        i = i - 1;
        assert(view[i as int].id == keys@[i as int].id@);
        if text::same(keys[i].id.as_str(), id) {
            proof {
                lemma_key_named(view, id@, i as int);
            }
            return Some(i);
        }
    }
    proof {
        lemma_key_not_named(view, id@);
    }
    None
}

fn has_duplicate(keys: &Vec<SealingKey>) -> (r: bool)
    ensures
        r == !distinct_ids(keys.deep_view()),
{
    let ghost view = keys.deep_view();
    let mut i: usize = 0;
    while i < keys.len()
        invariant
            0 <= i <= keys.len(),
            view == keys.deep_view(),
            forall|a: int, b: int|
                0 <= a < b < view.len() && a < i ==> (#[trigger] view[a]).id != (
                #[trigger] view[b]).id,
        decreases keys.len() - i,
    {
        let mut j: usize = i + 1;
        while j < keys.len()
            invariant
                i < j <= keys.len(),
                view == keys.deep_view(),
                forall|b: int| i < b < j ==> view[i as int].id != (#[trigger] view[b]).id,
            decreases keys.len() - j,
        {
            assert(view[i as int].id == keys@[i as int].id@);
            assert(view[j as int].id == keys@[j as int].id@);
            if text::same(keys[i].id.as_str(), keys[j].id.as_str()) {
                return true;
            }
            j = j + 1;
        }
        i = i + 1;
    }
    false
}

impl CertificateSealer {
    #[verifier::type_invariant]
    spec fn has_active_key(&self) -> bool {
        &&& distinct_ids(self.keys.deep_view())
        &&& key_named(self.keys.deep_view(), self.active_id@) is Some
    }

    /// How the ring is shown: the active key by its ID, and how many there are.
    pub fn to_debug_string(&self) -> (r: String)
        ensures
            r@ == "CertificateSealer { active_id: "@ + text::debug_text(self.deep_view().active_id)
                + ", key_count: "@ + text::decimal(self.deep_view().keys.len()) + " }"@,
    {
        let id = text::quoted(self.active_id.as_str());
        let count = text::number(self.keys.len() as u64);
        assert(self.keys.deep_view().len() == self.keys@.len());
        text::join5(
            "CertificateSealer { active_id: ",
            id.as_str(),
            ", key_count: ",
            count.as_str(),
            " }",
        )
    }

    pub fn new(active_id: &str, keys: Vec<SealingKey>) -> (r: Result<
        Self,
        InvalidCertificateResource,
    >)
        ensures
            outcome::of(r) == outcome::checked(
                keyring_problem(active_id@, keys.deep_view()),
                CertificateSealerView { active_id: active_id@, keys: keys.deep_view() },
            ),
    {
        if let Err(error) = validate_key_id(active_id) {
            return Err(error);
        }
        if keys.len() == 0 || keys.len() > MAX_SEALING_KEYS {
            return Err(InvalidCertificateResource("sealing keyring requires 1–8 keys"));
        }
        let mut i: usize = 0;
        while i < keys.len()
            invariant
                0 <= i <= keys.len(),
            decreases keys.len() - i,
        {
            let key = &keys[i];
            proof {
                use_type_invariant(key);
            }
            if !accepts_key(&key.bytes) {
                return Err(InvalidCertificateResource("invalid sealing key"));
            }
            i = i + 1;
        }
        if has_duplicate(&keys) {
            return Err(InvalidCertificateResource("duplicate sealing key ID"));
        }
        if position(&keys, active_id).is_none() {
            return Err(InvalidCertificateResource("active sealing key is unavailable"));
        }
        Ok(CertificateSealer { active_id: active_id.to_owned(), keys })
    }

    /// Seals a private key under a nonce that was not used with the active key
    /// before.
    pub fn seal_with_nonce(
        &self,
        nonce: [u8; 12],
        id: &CertificateId,
        version: CertificateRevision,
        chain_digest: &[u8],
        plaintext: &[u8],
    ) -> (r: Result<SealedPrivateKey, InvalidCertificateResource>)
        ensures
            outcome::of(r) == (match sealed_bytes(
                self.deep_view().active_key(),
                nonce@,
                associated_bytes(id@, version@, chain_digest@, self.deep_view().active_id),
                plaintext@,
            ) {
                Some(ciphertext) => Ok(
                    SealedPrivateKeyView {
                        format_version: 1,
                        key_id: self.deep_view().active_id,
                        nonce: nonce@,
                        ciphertext,
                    },
                ),
                None => Err("certificate sealing failed"@),
            }),
            r matches Ok(envelope) ==> sealed_by(
                self.deep_view(),
                id@,
                version@,
                chain_digest@,
                plaintext@,
                envelope.deep_view(),
            ),
            r is Err ==> seal_refused(
                self.deep_view(),
                id@,
                version@,
                chain_digest@,
                plaintext@,
            ),
    {
        proof {
            use_type_invariant(self);
        }
        let associated = associated_data(id, version, chain_digest, self.active_id.as_str());
        let at: usize = match position(&self.keys, self.active_id.as_str()) {
            Some(at) => at,
            None => {
                assert(false);
                return Err(InvalidCertificateResource("certificate sealing failed"));
            },
        };
        let key = &self.keys[at];
        proof {
            use_type_invariant(key);
            assert(self.deep_view().active_key() == key.bytes@);
            assert(nonce@.len() == 12);
        }
        match aes_seal(&key.bytes, nonce, &associated, plaintext) {
            None => Err(InvalidCertificateResource("certificate sealing failed")),
            Some(ciphertext) => {
                assert(ciphertext.deep_view() =~= ciphertext@);
                Ok(
                    SealedPrivateKey {
                        format_version: FORMAT_VERSION,
                        key_id: self.active_id.clone(),
                        nonce,
                        ciphertext,
                    },
                )
            },
        }
    }

    /// Seals a private key with the active key, for a certificate, its version
    /// and its chain, under a random nonce. It fails if the system gives no random
    /// bytes, or if AES-256-GCM refuses the plaintext.
    pub fn seal(
        &self,
        id: &CertificateId,
        version: CertificateRevision,
        chain_digest: &[u8],
        plaintext: &[u8],
    ) -> (r: Result<SealedPrivateKey, InvalidCertificateResource>)
        ensures
            match r {
                Ok(envelope) => sealed_by(
                    self.deep_view(),
                    id@,
                    version@,
                    chain_digest@,
                    plaintext@,
                    envelope.deep_view(),
                ),
                Err(error) => error.deep_view() == "sealing nonce generation failed"@ || (
                error.deep_view() == "certificate sealing failed"@ && seal_refused(
                    self.deep_view(),
                    id@,
                    version@,
                    chain_digest@,
                    plaintext@,
                )),
            },
    {
        match random_nonce() {
            None => Err(InvalidCertificateResource("sealing nonce generation failed")),
            Some(nonce) => self.seal_with_nonce(nonce, id, version, chain_digest, plaintext),
        }
    }

    /// Opens an envelope for the certificate, the version and the chain that it
    /// was sealed for.
    pub fn open(
        &self,
        id: &CertificateId,
        version: CertificateRevision,
        chain_digest: &[u8],
        envelope: &SealedPrivateKey,
    ) -> (r: Result<SecretBytes, InvalidCertificateResource>)
        ensures
            outcome::of(r) == open_result(
                self.deep_view(),
                id@,
                version@,
                chain_digest@,
                envelope.deep_view(),
            ),
    {
        if envelope.format_version != FORMAT_VERSION {
            return Err(InvalidCertificateResource("unsupported certificate sealing envelope"));
        }
        let at: usize = match position(&self.keys, envelope.key_id.as_str()) {
            Some(at) => at,
            None => {
                return Err(InvalidCertificateResource("certificate sealing key is unavailable"));
            },
        };
        let associated = associated_data(id, version, chain_digest, envelope.key_id.as_str());
        match aes_open(&self.keys[at].bytes, envelope.nonce, &associated, &envelope.ciphertext) {
            None => Err(InvalidCertificateResource("certificate sealing authentication failed")),
            Some(plaintext) => Ok(plaintext),
        }
    }
}

/// What one ring sealed, every ring opens that still has the key, whichever of
/// its keys is active.
pub proof fn lemma_open_undoes_seal(
    sealer: CertificateSealerView,
    reader: CertificateSealerView,
    id: Seq<char>,
    version: nat,
    chain_digest: Seq<u8>,
    plaintext: Seq<u8>,
    envelope: SealedPrivateKeyView,
)
    requires
        sealed_by(sealer, id, version, chain_digest, plaintext, envelope),
        key_named(reader.keys, sealer.active_id) is Some,
        key_named(reader.keys, sealer.active_id)->0.bytes == sealer.active_key(),
    ensures
        open_result(reader, id, version, chain_digest, envelope) == Ok::<Seq<u8>, Seq<char>>(
            plaintext,
        ),
{
}

/// An envelope of another format, or sealed with a key that the ring has not, is
/// never opened.
pub proof fn lemma_unknown_envelope_stays_shut(
    sealer: CertificateSealerView,
    id: Seq<char>,
    version: nat,
    chain_digest: Seq<u8>,
    envelope: SealedPrivateKeyView,
)
    requires
        envelope.format_version != 1 || key_named(sealer.keys, envelope.key_id) is None,
    ensures
        open_result(sealer, id, version, chain_digest, envelope) is Err,
{
}

/// What AES-256-GCM is asked when a ring opens an envelope.
#[verifier::ext_equal]
pub struct OpeningView {
    pub nonce: Seq<u8>,
    pub associated: Seq<u8>,
    pub ciphertext: Seq<u8>,
}

/// What AES-256-GCM is asked when an envelope is opened for a certificate, its
/// version and its chain.
pub open spec fn opening_of(
    id: Seq<char>,
    version: nat,
    chain_digest: Seq<u8>,
    envelope: SealedPrivateKeyView,
) -> OpeningView {
    OpeningView {
        nonce: envelope.nonce,
        associated: associated_bytes(id, version, chain_digest, envelope.key_id),
        ciphertext: envelope.ciphertext,
    }
}

/// An envelope is bound to all that it was sealed with. If it is opened for another
/// certificate, version or chain, or its key ID, its nonce or its ciphertext was
/// changed, AES-256-GCM is asked something else than what was sealed, and the
/// envelope stays shut unless it vouches for that.
pub proof fn lemma_changed_envelope_is_not_what_was_sealed(
    reader: CertificateSealerView,
    id: Seq<char>,
    version: nat,
    chain_digest: Seq<u8>,
    envelope: SealedPrivateKeyView,
    other_id: Seq<char>,
    other_version: nat,
    other_digest: Seq<u8>,
    other: SealedPrivateKeyView,
)
    requires
        version <= u64::MAX,
        other_version <= u64::MAX,
        encode_utf8(id).len() <= u32::MAX,
        encode_utf8(other_id).len() <= u32::MAX,
        encode_utf8(envelope.key_id).len() <= u32::MAX,
        encode_utf8(other.key_id).len() <= u32::MAX,
        chain_digest.len() <= u32::MAX,
        other_digest.len() <= u32::MAX,
        id != other_id || version != other_version || chain_digest != other_digest
            || envelope.key_id != other.key_id || envelope.nonce != other.nonce
            || envelope.ciphertext != other.ciphertext,
    ensures
        opening_of(other_id, other_version, other_digest, other) != opening_of(
            id,
            version,
            chain_digest,
            envelope,
        ),
        open_result(reader, other_id, other_version, other_digest, other) is Ok ==> {
            let opening = opening_of(other_id, other_version, other_digest, other);
            &&& other.format_version == 1
            &&& key_named(reader.keys, other.key_id) matches Some(key) && opened_bytes(
                key.bytes,
                opening.nonce,
                opening.associated,
                opening.ciphertext,
            ) is Some
        },
{
    if opening_of(other_id, other_version, other_digest, other) == opening_of(
        id,
        version,
        chain_digest,
        envelope,
    ) {
        lemma_associated_bytes_injective(
            other_id,
            other_version,
            other_digest,
            other.key_id,
            id,
            version,
            chain_digest,
            envelope.key_id,
        );
    }
}

proof fn lemma_be4_injective(a: u32, b: u32)
    requires
        be4(a) == be4(b),
    ensures
        a == b,
{
    assert(be4(a)[0] == (a >> 24) as u8 && be4(a)[1] == (a >> 16) as u8 && be4(a)[2] == (a >> 8)
        as u8 && be4(a)[3] == a as u8);
    assert(be4(b)[0] == (b >> 24) as u8 && be4(b)[1] == (b >> 16) as u8 && be4(b)[2] == (b >> 8)
        as u8 && be4(b)[3] == b as u8);
    assert(a == b) by (bit_vector)
        requires
            (a >> 24) as u8 == (b >> 24) as u8,
            (a >> 16) as u8 == (b >> 16) as u8,
            (a >> 8) as u8 == (b >> 8) as u8,
            a as u8 == b as u8,
    ;
}

proof fn lemma_be8_injective(a: u64, b: u64)
    requires
        super::be8(a) == super::be8(b),
    ensures
        a == b,
{
    let x = super::be8(a);
    let y = super::be8(b);
    assert(x[0] == (a >> 56) as u8 && x[1] == (a >> 48) as u8 && x[2] == (a >> 40) as u8 && x[3]
        == (a >> 32) as u8);
    assert(x[4] == (a >> 24) as u8 && x[5] == (a >> 16) as u8 && x[6] == (a >> 8) as u8 && x[7]
        == a as u8);
    assert(y[0] == (b >> 56) as u8 && y[1] == (b >> 48) as u8 && y[2] == (b >> 40) as u8 && y[3]
        == (b >> 32) as u8);
    assert(y[4] == (b >> 24) as u8 && y[5] == (b >> 16) as u8 && y[6] == (b >> 8) as u8 && y[7]
        == b as u8);
    assert(a == b) by (bit_vector)
        requires
            (a >> 56) as u8 == (b >> 56) as u8,
            (a >> 48) as u8 == (b >> 48) as u8,
            (a >> 40) as u8 == (b >> 40) as u8,
            (a >> 32) as u8 == (b >> 32) as u8,
            (a >> 24) as u8 == (b >> 24) as u8,
            (a >> 16) as u8 == (b >> 16) as u8,
            (a >> 8) as u8 == (b >> 8) as u8,
            a as u8 == b as u8,
    ;
}

proof fn lemma_part_injective(a: Seq<u8>, b: Seq<u8>, a_rest: Seq<u8>, b_rest: Seq<u8>)
    requires
        a.len() <= u32::MAX,
        b.len() <= u32::MAX,
        part(a) + a_rest == part(b) + b_rest,
    ensures
        a == b,
        a_rest == b_rest,
{
    let x = part(a) + a_rest;
    let y = part(b) + b_rest;
    assert(x.take(4) =~= be4(a.len() as u32));
    assert(y.take(4) =~= be4(b.len() as u32));
    lemma_be4_injective(a.len() as u32, b.len() as u32);
    assert(x.subrange(4, 4 + a.len() as int) =~= a);
    assert(y.subrange(4, 4 + b.len() as int) =~= b);
    assert(x.skip(4 + a.len() as int) =~= a_rest);
    assert(y.skip(4 + b.len() as int) =~= b_rest);
}

/// The associated data tells the certificate, the version, the chain and the key
/// ID: two that differ in one of them differ.
pub proof fn lemma_associated_bytes_injective(
    id_a: Seq<char>,
    version_a: nat,
    digest_a: Seq<u8>,
    key_a: Seq<char>,
    id_b: Seq<char>,
    version_b: nat,
    digest_b: Seq<u8>,
    key_b: Seq<char>,
)
    requires
        version_a <= u64::MAX,
        version_b <= u64::MAX,
        encode_utf8(id_a).len() <= u32::MAX,
        encode_utf8(id_b).len() <= u32::MAX,
        encode_utf8(key_a).len() <= u32::MAX,
        encode_utf8(key_b).len() <= u32::MAX,
        digest_a.len() <= u32::MAX,
        digest_b.len() <= u32::MAX,
        associated_bytes(id_a, version_a, digest_a, key_a) == associated_bytes(
            id_b,
            version_b,
            digest_b,
            key_b,
        ),
    ensures
        id_a == id_b,
        version_a == version_b,
        digest_a == digest_b,
        key_a == key_b,
{
    let label = encode_utf8("sleepypods-certificate-private-key"@) + seq![1u8];
    let a = associated_bytes(id_a, version_a, digest_a, key_a);
    let b = associated_bytes(id_b, version_b, digest_b, key_b);
    let n = label.len() as int;
    assert(a.subrange(n, n + 8) =~= super::be8(version_a as u64));
    assert(b.subrange(n, n + 8) =~= super::be8(version_b as u64));
    lemma_be8_injective(version_a as u64, version_b as u64);
    let a_tail = part(encode_utf8(key_a)) + part(digest_a);
    let b_tail = part(encode_utf8(key_b)) + part(digest_b);
    assert(a.skip(n + 8) =~= part(encode_utf8(id_a)) + a_tail);
    assert(b.skip(n + 8) =~= part(encode_utf8(id_b)) + b_tail);
    lemma_part_injective(encode_utf8(id_a), encode_utf8(id_b), a_tail, b_tail);
    lemma_part_injective(
        encode_utf8(key_a),
        encode_utf8(key_b),
        part(digest_a),
        part(digest_b),
    );
    assert(part(digest_a) + Seq::<u8>::empty() =~= part(digest_a));
    assert(part(digest_b) + Seq::<u8>::empty() =~= part(digest_b));
    lemma_part_injective(digest_a, digest_b, Seq::empty(), Seq::empty());
    encode_utf8_decode_utf8(id_a);
    encode_utf8_decode_utf8(id_b);
    encode_utf8_decode_utf8(key_a);
    encode_utf8_decode_utf8(key_b);
}

} // verus!
