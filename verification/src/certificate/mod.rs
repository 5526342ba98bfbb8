//! Certificates and the hostnames that they are bound to.
use vstd::prelude::*;
use vstd::string::*;
use vstd::utf8::*;

use self::seal::SecretBytes;
use crate::kubernetes_name;
use crate::outcome;
use crate::text;

pub mod laws;
pub mod seal;
pub mod validate;
pub mod work;

pub use self::seal::{CertificateSealer, SealingKey};
pub use self::validate::{validate_certificate, validate_hostname, ValidatedCertificate};

verus! {

pub const MAX_CERTIFICATE_SANS: usize = 100;

pub const MAX_CERTIFICATE_BINDINGS: usize = 1024;

/// Why a certificate, or what belongs to one, is not accepted.
#[derive(Clone, Copy, Debug, PartialEq, Eq)]
pub struct InvalidCertificateResource(pub &'static str);

impl DeepView for InvalidCertificateResource {
    type V = Seq<char>;

    open spec fn deep_view(&self) -> Seq<char> {
        self.0@
    }
}

impl InvalidCertificateResource {
    /// What the error says.
    pub fn to_string(&self) -> (r: String)
        ensures
            r@ == self.deep_view(),
    {
        self.0.to_owned()
    }
}

/// Names of labels with dots between them.
pub open spec fn is_dns_name(s: Seq<char>) -> bool
    decreases s.len(),
{
    match text::first_index(s, '.') {
        None => kubernetes_name::dns_label(s),
        Some(at) => 0 <= at < s.len() && kubernetes_name::dns_label(s.take(at)) && is_dns_name(
            s.skip(at + 1),
        ),
    }
}

fn dns_name(s: &str) -> (r: bool)
    ensures
        r == is_dns_name(s@),
    decreases s@.len(),
{
    match text::split_once(s, '.') {
        None => kubernetes_name::is_dns_label(s),
        Some((head, tail)) => kubernetes_name::is_dns_label(head) && dns_name(tail),
    }
}

/// A name without the dot of the root, in lower case.
pub open spec fn canonical_name(value: Seq<char>) -> Seq<char> {
    text::ascii_lower(
        if value.len() > 0 && value.last() == '.' {
            value.drop_last()
        } else {
            value
        },
    )
}

/// Whether a text names a host: labels with dots between them, at most 253
/// characters.
pub open spec fn names_host(value: Seq<char>) -> bool {
    is_dns_name(canonical_name(value)) && canonical_name(value).len() <= 253
}

/// The name of a host, in lower case and without the dot of the root.
#[derive(Debug, PartialEq, Eq, Hash)]
pub struct TlsHostname(String);

impl View for TlsHostname {
    type V = Seq<char>;

    closed spec fn view(&self) -> Seq<char> {
        self.0@
    }
}

impl DeepView for TlsHostname {
    type V = Seq<char>;

    open spec fn deep_view(&self) -> Seq<char> {
        self@
    }
}

impl TlsHostname {
    pub fn new(value: &str) -> (r: Result<Self, InvalidCertificateResource>)
        ensures
            outcome::of(r) == if names_host(value@) {
                Ok(canonical_name(value@))
            } else {
                Err("invalid TLS hostname"@)
            },
    {
        let chars = text::chars_of(value);
        let bare = if chars.len() > 0 && chars[chars.len() - 1] == '.' {
            let bare = value.substring_char(0, chars.len() - 1);
            assert(bare@ =~= value@.drop_last());
            bare
        } else {
            value
        };
        let name = bare.to_ascii_lowercase();
        let name_chars = text::chars_of(name.as_str());
        if name_chars.len() > 253 || !dns_name(name.as_str()) {
            return Err(InvalidCertificateResource("invalid TLS hostname"));
        }
        Ok(TlsHostname(name))
    }

    pub fn as_str(&self) -> (r: &str)
        ensures
            r@ == self@,
    {
        self.0.as_str()
    }

    /// The name.
    pub fn to_string(&self) -> (r: String)
        ensures
            r@ == self@,
    {
        self.0.clone()
    }
}

impl Clone for TlsHostname {
    fn clone(&self) -> (r: Self)
        ensures
            r.deep_view() == self.deep_view(),
    {
        TlsHostname(self.0.clone())
    }
}

/// What tells a certificate: a text that is not blank.
#[derive(Debug, PartialEq, Eq)]
pub struct CertificateId(String);

impl View for CertificateId {
    type V = Seq<char>;

    closed spec fn view(&self) -> Seq<char> {
        self.0@
    }
}

impl DeepView for CertificateId {
    type V = Seq<char>;

    open spec fn deep_view(&self) -> Seq<char> {
        self@
    }
}

impl CertificateId {
    pub fn new(value: &str) -> (r: Result<Self, InvalidCertificateResource>)
        ensures
            outcome::of(r) == if text::is_blank(value@) {
                Err("certificate ID must not be empty"@)
            } else {
                Ok(value@)
            },
    {
        if text::blank(value) {
            return Err(InvalidCertificateResource("certificate ID must not be empty"));
        }
        Ok(CertificateId(value.to_owned()))
    }

    pub fn as_str(&self) -> (r: &str)
        ensures
            r@ == self@,
    {
        self.0.as_str()
    }

    /// The text.
    pub fn to_string(&self) -> (r: String)
        ensures
            r@ == self@,
    {
        self.0.clone()
    }
}

impl Clone for CertificateId {
    fn clone(&self) -> (r: Self)
        ensures
            r.deep_view() == self.deep_view(),
    {
        CertificateId(self.0.clone())
    }
}

/// How often something changed: a number that fits into a Postgres `bigint`.
#[derive(Clone, Copy, Debug, PartialEq, Eq, PartialOrd, Ord, Hash)]
pub struct CertificateRevision(u64);

impl View for CertificateRevision {
    type V = nat;

    closed spec fn view(&self) -> nat {
        self.0 as nat
    }
}

impl DeepView for CertificateRevision {
    type V = nat;

    open spec fn deep_view(&self) -> nat {
        self@
    }
}

impl CertificateRevision {
    #[verifier::type_invariant]
    spec fn in_range(&self) -> bool {
        self.0 <= i64::MAX
    }

    pub fn new(value: u64) -> (r: Result<Self, InvalidCertificateResource>)
        ensures
            outcome::of(r) == if value <= i64::MAX {
                Ok(value as nat)
            } else {
                Err("certificate revision exceeds its supported range"@)
            },
    {
        if value > i64::MAX as u64 {
            return Err(
                InvalidCertificateResource("certificate revision exceeds its supported range"),
            );
        }
        Ok(CertificateRevision(value))
    }

    /// The revision of what has not changed yet.
    pub fn zero() -> (r: Self)
        ensures
            r@ == 0,
    {
        CertificateRevision(0)
    }

    pub fn get(&self) -> (r: u64)
        ensures
            r == self@,
            r <= i64::MAX,
    {
        proof {
            use_type_invariant(self);
        }
        self.0
    }

    /// Whether two revisions are the same.
    pub fn is_same(&self, other: &CertificateRevision) -> (r: bool)
        ensures
            r == (self@ == other@),
    {
        self.0 == other.0
    }
}

/// A number as eight bytes, the highest first.
pub open spec fn be8(value: u64) -> Seq<u8> {
    seq![
        (value >> 56) as u8,
        (value >> 48) as u8,
        (value >> 40) as u8,
        (value >> 32) as u8,
        (value >> 24) as u8,
        (value >> 16) as u8,
        (value >> 8) as u8,
        value as u8,
    ]
}

pub(crate) fn push_be8(bytes: &mut Vec<u8>, value: u64)
    ensures
        final(bytes)@ == old(bytes)@ + be8(value),
{
    bytes.push(#[verifier::truncate] ((value >> 56) as u8));
    bytes.push(#[verifier::truncate] ((value >> 48) as u8));
    bytes.push(#[verifier::truncate] ((value >> 40) as u8));
    bytes.push(#[verifier::truncate] ((value >> 32) as u8));
    bytes.push(#[verifier::truncate] ((value >> 24) as u8));
    bytes.push(#[verifier::truncate] ((value >> 16) as u8));
    bytes.push(#[verifier::truncate] ((value >> 8) as u8));
    bytes.push(#[verifier::truncate] (value as u8));
    assert(bytes@ =~= old(bytes)@ + be8(value));
}

pub(crate) fn push_bytes(bytes: &mut Vec<u8>, more: &[u8])
    ensures
        final(bytes)@ == old(bytes)@ + more@,
{
    let ghost before = bytes@;
    let mut i: usize = 0;
    assert(more@.take(0) =~= Seq::empty());
    while i < more.len()
        invariant
            0 <= i <= more.len(),
            bytes@ == before + more@.take(i as int),
        decreases more.len() - i,
    {
        bytes.push(more[i]);
        assert(before + more@.take(i + 1) =~= (before + more@.take(i as int)).push(
            more@[i as int],
        ));
        i = i + 1;
    }
    assert(more@.take(i as int) =~= more@);
}

/// The bytes of a chain of certificates, each behind its length.
pub open spec fn framed(chain: Seq<Seq<u8>>) -> Seq<u8>
    decreases chain.len(),
{
    if chain.len() == 0 {
        Seq::empty()
    } else {
        framed(chain.drop_last()) + be8(chain.last().len() as u64) + chain.last()
    }
}

/// Whether a chain is short enough for a SHA-256 digest of its bytes.
pub open spec fn digestible(chain: Seq<Seq<u8>>) -> bool {
    framed(chain).len() < 0x2000_0000_0000_0000
}

/// What a certificate chain says of each of its certificates by itself is at most
/// as long as the chain.
pub proof fn lemma_framed_len(chain: Seq<Seq<u8>>, i: int)
    requires
        0 <= i < chain.len(),
    ensures
        chain[i].len() <= framed(chain).len(),
    decreases chain.len(),
{
    if i < chain.len() - 1 {
        lemma_framed_len(chain.drop_last(), i);
        assert(chain.drop_last()[i] == chain[i]);
    }
}

/// How many bytes a chain takes, each certificate behind its length; none if that
/// is more than a digest takes.
pub fn framed_len(chain: &Vec<Vec<u8>>) -> (r: Option<u64>)
    ensures
        r is Some == digestible(chain.deep_view()),
        r matches Some(len) ==> len == framed(chain.deep_view()).len(),
{
    let ghost view = chain.deep_view();
    let mut total: u64 = 0;
    let mut i: usize = 0;
    assert(view.take(0) =~= Seq::empty());
    while i < chain.len()
        invariant
            0 <= i <= chain.len(),
            view == chain.deep_view(),
            total == framed(view.take(i as int)).len(),
            total < 0x2000_0000_0000_0000,
        decreases chain.len() - i,
    {
        proof {
            assert(view.take(i + 1).drop_last() =~= view.take(i as int));
            assert(view[i as int] == chain@[i as int]@);
            assert(view.take(i + 1).last() == view[i as int]);
            assert(framed(view.take(i + 1)).len() == total + 8 + chain@[i as int].len());
        }
        let len: u64 = chain[i].len() as u64;
        if len >= 0x2000_0000_0000_0000 - 8 || total + 8 + len >= 0x2000_0000_0000_0000 {
            proof {
                lemma_framed_prefix(view, i + 1);
            }
            return None;
        }
        total = total + 8 + len;
        i = i + 1;
    }
    assert(view.take(i as int) =~= view);
    Some(total)
}

proof fn lemma_framed_prefix(chain: Seq<Seq<u8>>, i: int)
    requires
        0 <= i <= chain.len(),
    ensures
        framed(chain.take(i)).len() <= framed(chain).len(),
    decreases chain.len(),
{
    if i < chain.len() {
        lemma_framed_prefix(chain.drop_last(), i);
        assert(chain.drop_last().take(i) =~= chain.take(i));
    } else {
        assert(chain.take(i) =~= chain);
    }
}

/// The bytes of a chain, each certificate behind its length.
pub(crate) fn framed_bytes(chain: &Vec<Vec<u8>>) -> (r: Vec<u8>)
    ensures
        r@ == framed(chain.deep_view()),
{
    let ghost view = chain.deep_view();
    let mut bytes: Vec<u8> = Vec::new();
    let mut i: usize = 0;
    assert(view.take(0) =~= Seq::empty());
    while i < chain.len()
        invariant
            0 <= i <= chain.len(),
            view == chain.deep_view(),
            bytes@ == framed(view.take(i as int)),
        decreases chain.len() - i,
    {
        proof {
            assert(view.take(i + 1).drop_last() =~= view.take(i as int));
            assert(view[i as int] == chain@[i as int]@);
        }
        push_be8(&mut bytes, chain[i].len() as u64);
        push_bytes(&mut bytes, chain[i].as_slice());
        i = i + 1;
    }
    assert(view.take(i as int) =~= view);
    bytes
}

/// A chain of certificates, the leaf first, and the private key of the leaf. It
/// is short enough for a digest, and the key is never shown.
#[derive(Debug, PartialEq, Eq)]
pub struct CertificateBundle {
    chain_der: Vec<Vec<u8>>,
    private_key_pkcs8_der: SecretBytes,
}

/// What a [`CertificateBundle`] holds.
#[verifier::ext_equal]
pub struct CertificateBundleView {
    pub chain_der: Seq<Seq<u8>>,
    pub private_key_pkcs8_der: Seq<u8>,
}

impl DeepView for CertificateBundle {
    type V = CertificateBundleView;

    closed spec fn deep_view(&self) -> CertificateBundleView {
        CertificateBundleView {
            chain_der: self.chain_der.deep_view(),
            private_key_pkcs8_der: self.private_key_pkcs8_der@,
        }
    }
}

impl CertificateBundle {
    #[verifier::type_invariant]
    spec fn bounded(&self) -> bool {
        digestible(self.chain_der.deep_view())
    }

    pub fn new(chain_der: Vec<Vec<u8>>, private_key_pkcs8_der: Vec<u8>) -> (r: Result<
        Self,
        InvalidCertificateResource,
    >)
        ensures
            outcome::of(r) == if digestible(chain_der.deep_view()) {
                Ok(
                    CertificateBundleView {
                        chain_der: chain_der.deep_view(),
                        private_key_pkcs8_der: private_key_pkcs8_der@,
                    },
                )
            } else {
                Err("certificate chain exceeds its supported size"@)
            },
    {
        if framed_len(&chain_der).is_none() {
            return Err(InvalidCertificateResource("certificate chain exceeds its supported size"));
        }
        Ok(
            CertificateBundle {
                chain_der,
                private_key_pkcs8_der: seal::guarded(private_key_pkcs8_der),
            },
        )
    }

    pub fn chain_der(&self) -> (r: &Vec<Vec<u8>>)
        ensures
            r.deep_view() == self.deep_view().chain_der,
            digestible(self.deep_view().chain_der),
    {
        proof {
            use_type_invariant(self);
        }
        &self.chain_der
    }

    pub fn private_key_pkcs8_der(&self) -> (r: &Vec<u8>)
        ensures
            r@ == self.deep_view().private_key_pkcs8_der,
    {
        self.private_key_pkcs8_der.as_bytes()
    }
}

/// Whether a certificate is in use.
#[derive(Clone, Copy, Debug, PartialEq, Eq, Structural)]
pub enum CertificateState {
    Active,
    Deleted,
}

impl DeepView for CertificateState {
    type V = CertificateState;

    open spec fn deep_view(&self) -> CertificateState {
        *self
    }
}

/// What is known of a certificate without its material.
#[derive(Debug, PartialEq, Eq)]
pub struct CertificateMetadata {
    pub id: CertificateId,
    pub version: CertificateRevision,
    pub state: CertificateState,
    pub not_before_unix_millis: i64,
    pub not_after_unix_millis: i64,
    pub dns_names: Vec<String>,
    pub leaf_sha256: Vec<u8>,
    pub sealing_key_id: Option<String>,
    pub sealing_revision: CertificateRevision,
}

/// What a [`CertificateMetadata`] holds.
#[verifier::ext_equal]
pub struct CertificateMetadataView {
    pub id: Seq<char>,
    pub version: nat,
    pub state: CertificateState,
    pub not_before_unix_millis: i64,
    pub not_after_unix_millis: i64,
    pub dns_names: Seq<Seq<char>>,
    pub leaf_sha256: Seq<u8>,
    pub sealing_key_id: Option<Seq<char>>,
    pub sealing_revision: nat,
}

impl DeepView for CertificateMetadata {
    type V = CertificateMetadataView;

    open spec fn deep_view(&self) -> CertificateMetadataView {
        CertificateMetadataView {
            id: self.id.deep_view(),
            version: self.version.deep_view(),
            state: self.state.deep_view(),
            not_before_unix_millis: self.not_before_unix_millis.deep_view(),
            not_after_unix_millis: self.not_after_unix_millis.deep_view(),
            dns_names: self.dns_names.deep_view(),
            leaf_sha256: self.leaf_sha256.deep_view(),
            sealing_key_id: self.sealing_key_id.deep_view(),
            sealing_revision: self.sealing_revision.deep_view(),
        }
    }
}

impl Clone for CertificateMetadata {
    fn clone(&self) -> (r: Self)
        ensures
            r.deep_view() == self.deep_view(),
    {
        let r = CertificateMetadata {
            id: self.id.clone(),
            version: self.version,
            state: self.state,
            not_before_unix_millis: self.not_before_unix_millis,
            not_after_unix_millis: self.not_after_unix_millis,
            dns_names: self.dns_names.clone(),
            leaf_sha256: self.leaf_sha256.clone(),
            sealing_key_id: self.sealing_key_id.clone(),
            sealing_revision: self.sealing_revision,
        };
        assert(r.dns_names.deep_view() =~= self.dns_names.deep_view());
        assert(r.leaf_sha256.deep_view() =~= self.leaf_sha256.deep_view());
        assert(r.sealing_key_id.deep_view() =~= self.sealing_key_id.deep_view());
        r
    }
}

/// The certificate that a host is bound to.
#[derive(Debug, PartialEq, Eq)]
pub struct TlsBinding {
    pub hostname: TlsHostname,
    pub certificate_id: Option<CertificateId>,
    pub revision: CertificateRevision,
    pub last_invalidating_revision: CertificateRevision,
}

/// What a [`TlsBinding`] holds.
#[verifier::ext_equal]
pub struct TlsBindingView {
    pub hostname: Seq<char>,
    pub certificate_id: Option<Seq<char>>,
    pub revision: nat,
    pub last_invalidating_revision: nat,
}

impl DeepView for TlsBinding {
    type V = TlsBindingView;

    open spec fn deep_view(&self) -> TlsBindingView {
        TlsBindingView {
            hostname: self.hostname.deep_view(),
            certificate_id: self.certificate_id.deep_view(),
            revision: self.revision.deep_view(),
            last_invalidating_revision: self.last_invalidating_revision.deep_view(),
        }
    }
}

impl Clone for TlsBinding {
    fn clone(&self) -> (r: Self)
        ensures
            r.deep_view() == self.deep_view(),
    {
        let r = TlsBinding {
            hostname: self.hostname.clone(),
            certificate_id: self.certificate_id.clone(),
            revision: self.revision,
            last_invalidating_revision: self.last_invalidating_revision,
        };
        assert(r.certificate_id.deep_view() =~= self.certificate_id.deep_view());
        r
    }
}

/// The bindings of hosts at a revision.
#[derive(Debug, PartialEq, Eq)]
pub struct TlsBindingSnapshot {
    pub revision: CertificateRevision,
    pub bindings: Vec<TlsBinding>,
}

/// What a [`TlsBindingSnapshot`] holds.
#[verifier::ext_equal]
pub struct TlsBindingSnapshotView {
    pub revision: nat,
    pub bindings: Seq<TlsBindingView>,
}

impl DeepView for TlsBindingSnapshot {
    type V = TlsBindingSnapshotView;

    open spec fn deep_view(&self) -> TlsBindingSnapshotView {
        TlsBindingSnapshotView {
            revision: self.revision.deep_view(),
            bindings: self.bindings.deep_view(),
        }
    }
}

impl Clone for TlsBindingSnapshot {
    fn clone(&self) -> (r: Self)
        ensures
            r.deep_view() == self.deep_view(),
    {
        let r = TlsBindingSnapshot {
            revision: self.revision,
            bindings: self.bindings.clone(),
        };
        assert(r.bindings.deep_view() =~= self.bindings.deep_view());
        r
    }
}

/// Asks to store a chain and its private key under an ID, in place of the version that
/// is expected there.
#[derive(Debug, PartialEq, Eq)]
pub struct PublishCertificateRequest {
    pub id: CertificateId,
    pub expected_version: CertificateRevision,
    pub bundle: CertificateBundle,
}

/// What a [`PublishCertificateRequest`] holds.
#[verifier::ext_equal]
pub struct PublishCertificateRequestView {
    pub id: Seq<char>,
    pub expected_version: nat,
    pub bundle: CertificateBundleView,
}

impl DeepView for PublishCertificateRequest {
    type V = PublishCertificateRequestView;

    open spec fn deep_view(&self) -> PublishCertificateRequestView {
        PublishCertificateRequestView {
            id: self.id.deep_view(),
            expected_version: self.expected_version.deep_view(),
            bundle: self.bundle.deep_view(),
        }
    }
}

/// Asks to bind a host to a certificate, or to none, in place of the revision that is
/// expected there.
#[derive(Debug, PartialEq, Eq)]
pub struct SetTlsBindingRequest {
    pub hostname: TlsHostname,
    pub expected_revision: CertificateRevision,
    pub certificate_id: Option<CertificateId>,
}

/// What a [`SetTlsBindingRequest`] holds.
#[verifier::ext_equal]
pub struct SetTlsBindingRequestView {
    pub hostname: Seq<char>,
    pub expected_revision: nat,
    pub certificate_id: Option<Seq<char>>,
}

impl DeepView for SetTlsBindingRequest {
    type V = SetTlsBindingRequestView;

    open spec fn deep_view(&self) -> SetTlsBindingRequestView {
        SetTlsBindingRequestView {
            hostname: self.hostname.deep_view(),
            expected_revision: self.expected_revision.deep_view(),
            certificate_id: self.certificate_id.deep_view(),
        }
    }
}

impl Clone for SetTlsBindingRequest {
    fn clone(&self) -> (r: Self)
        ensures
            r.deep_view() == self.deep_view(),
    {
        let r = SetTlsBindingRequest {
            hostname: self.hostname.clone(),
            expected_revision: self.expected_revision,
            certificate_id: self.certificate_id.clone(),
        };
        assert(r.certificate_id.deep_view() =~= self.certificate_id.deep_view());
        r
    }
}

/// Asks to delete a certificate of the version that is expected.
#[derive(Debug, PartialEq, Eq)]
pub struct RemoveCertificateRequest {
    pub id: CertificateId,
    pub expected_version: CertificateRevision,
}

/// What a [`RemoveCertificateRequest`] holds.
#[verifier::ext_equal]
pub struct RemoveCertificateRequestView {
    pub id: Seq<char>,
    pub expected_version: nat,
}

impl DeepView for RemoveCertificateRequest {
    type V = RemoveCertificateRequestView;

    open spec fn deep_view(&self) -> RemoveCertificateRequestView {
        RemoveCertificateRequestView {
            id: self.id.deep_view(),
            expected_version: self.expected_version.deep_view(),
        }
    }
}

impl Clone for RemoveCertificateRequest {
    fn clone(&self) -> (r: Self)
        ensures
            r.deep_view() == self.deep_view(),
    {
        RemoveCertificateRequest {
            id: self.id.clone(),
            expected_version: self.expected_version,
        }
    }
}

/// Asks to seal the private key of a certificate anew.
#[derive(Debug, PartialEq, Eq)]
pub struct ReencryptCertificateRequest {
    pub id: CertificateId,
    pub expected_version: CertificateRevision,
    pub expected_sealing_revision: CertificateRevision,
}

/// What a [`ReencryptCertificateRequest`] holds.
#[verifier::ext_equal]
pub struct ReencryptCertificateRequestView {
    pub id: Seq<char>,
    pub expected_version: nat,
    pub expected_sealing_revision: nat,
}

impl DeepView for ReencryptCertificateRequest {
    type V = ReencryptCertificateRequestView;

    open spec fn deep_view(&self) -> ReencryptCertificateRequestView {
        ReencryptCertificateRequestView {
            id: self.id.deep_view(),
            expected_version: self.expected_version.deep_view(),
            expected_sealing_revision: self.expected_sealing_revision.deep_view(),
        }
    }
}

impl Clone for ReencryptCertificateRequest {
    fn clone(&self) -> (r: Self)
        ensures
            r.deep_view() == self.deep_view(),
    {
        ReencryptCertificateRequest {
            id: self.id.clone(),
            expected_version: self.expected_version,
            expected_sealing_revision: self.expected_sealing_revision,
        }
    }
}

/// Asks for the certificate that a host is bound to, unless the revision is known.
#[derive(Debug, PartialEq, Eq)]
pub struct ResolveTlsCertificateRequest {
    pub hostname: TlsHostname,
    pub known_view_revision: Option<CertificateRevision>,
}

/// What a [`ResolveTlsCertificateRequest`] holds.
#[verifier::ext_equal]
pub struct ResolveTlsCertificateRequestView {
    pub hostname: Seq<char>,
    pub known_view_revision: Option<nat>,
}

impl DeepView for ResolveTlsCertificateRequest {
    type V = ResolveTlsCertificateRequestView;

    open spec fn deep_view(&self) -> ResolveTlsCertificateRequestView {
        ResolveTlsCertificateRequestView {
            hostname: self.hostname.deep_view(),
            known_view_revision: self.known_view_revision.deep_view(),
        }
    }
}

impl Clone for ResolveTlsCertificateRequest {
    fn clone(&self) -> (r: Self)
        ensures
            r.deep_view() == self.deep_view(),
    {
        ResolveTlsCertificateRequest {
            hostname: self.hostname.clone(),
            known_view_revision: self.known_view_revision,
        }
    }
}

/// The certificate that a host is bound to.
#[derive(Debug, PartialEq, Eq)]
pub enum TlsCertificateValue {
    Missing,
    Unchanged { metadata: CertificateMetadata },
    Found { metadata: CertificateMetadata, bundle: CertificateBundle },
}

/// What a [`TlsCertificateValue`] holds.
#[verifier::ext_equal]
pub enum TlsCertificateValueView {
    Missing,
    Unchanged { metadata: CertificateMetadataView },
    Found { metadata: CertificateMetadataView, bundle: CertificateBundleView },
}

impl DeepView for TlsCertificateValue {
    type V = TlsCertificateValueView;

    open spec fn deep_view(&self) -> TlsCertificateValueView {
        match self {
            TlsCertificateValue::Missing => TlsCertificateValueView::Missing,
            TlsCertificateValue::Unchanged { metadata } => TlsCertificateValueView::Unchanged {
                metadata: metadata.deep_view(),
            },
            TlsCertificateValue::Found { metadata, bundle } => TlsCertificateValueView::Found {
                metadata: metadata.deep_view(),
                bundle: bundle.deep_view(),
            },
        }
    }
}

/// The certificate that a host is bound to, at a revision and a point in time.
#[derive(Debug, PartialEq, Eq)]
pub struct TlsCertificateResolution {
    pub hostname: TlsHostname,
    pub view_revision: CertificateRevision,
    pub observed_at_unix_millis: i64,
    pub value: TlsCertificateValue,
}

/// What a [`TlsCertificateResolution`] holds.
#[verifier::ext_equal]
pub struct TlsCertificateResolutionView {
    pub hostname: Seq<char>,
    pub view_revision: nat,
    pub observed_at_unix_millis: i64,
    pub value: TlsCertificateValueView,
}

impl DeepView for TlsCertificateResolution {
    type V = TlsCertificateResolutionView;

    open spec fn deep_view(&self) -> TlsCertificateResolutionView {
        TlsCertificateResolutionView {
            hostname: self.hostname.deep_view(),
            view_revision: self.view_revision.deep_view(),
            observed_at_unix_millis: self.observed_at_unix_millis.deep_view(),
            value: self.value.deep_view(),
        }
    }
}

/// How a host changed: its certificate was published anew, it was bound, or its
/// certificate was removed.
#[derive(Clone, Copy, Debug, PartialEq, Eq, Structural)]
pub enum TlsCertificateChangeKind {
    Published,
    Bound,
    Removed,
}

impl DeepView for TlsCertificateChangeKind {
    type V = TlsCertificateChangeKind;

    open spec fn deep_view(&self) -> TlsCertificateChangeKind {
        *self
    }
}

/// A change to a host, if it is one to a host.
#[derive(Debug, PartialEq, Eq)]
pub struct TlsCertificateChange {
    pub hostname: Option<TlsHostname>,
    pub revision: CertificateRevision,
    pub certificate_id: Option<CertificateId>,
    pub kind: TlsCertificateChangeKind,
}

/// What a [`TlsCertificateChange`] holds.
#[verifier::ext_equal]
pub struct TlsCertificateChangeView {
    pub hostname: Option<Seq<char>>,
    pub revision: nat,
    pub certificate_id: Option<Seq<char>>,
    pub kind: TlsCertificateChangeKind,
}

impl DeepView for TlsCertificateChange {
    type V = TlsCertificateChangeView;

    open spec fn deep_view(&self) -> TlsCertificateChangeView {
        TlsCertificateChangeView {
            hostname: self.hostname.deep_view(),
            revision: self.revision.deep_view(),
            certificate_id: self.certificate_id.deep_view(),
            kind: self.kind.deep_view(),
        }
    }
}

impl Clone for TlsCertificateChange {
    fn clone(&self) -> (r: Self)
        ensures
            r.deep_view() == self.deep_view(),
    {
        let r = TlsCertificateChange {
            hostname: self.hostname.clone(),
            revision: self.revision,
            certificate_id: self.certificate_id.clone(),
            kind: self.kind,
        };
        assert(r.hostname.deep_view() =~= self.hostname.deep_view());
        assert(r.certificate_id.deep_view() =~= self.certificate_id.deep_view());
        r
    }
}

/// The changes behind a cursor. If some of them were lost, it is a reset.
#[derive(Debug, PartialEq, Eq)]
pub struct TlsCertificateChangePage {
    pub cursor: CertificateRevision,
    pub reset: bool,
    pub events: Vec<TlsCertificateChange>,
}

/// What a [`TlsCertificateChangePage`] holds.
#[verifier::ext_equal]
pub struct TlsCertificateChangePageView {
    pub cursor: nat,
    pub reset: bool,
    pub events: Seq<TlsCertificateChangeView>,
}

impl DeepView for TlsCertificateChangePage {
    type V = TlsCertificateChangePageView;

    open spec fn deep_view(&self) -> TlsCertificateChangePageView {
        TlsCertificateChangePageView {
            cursor: self.cursor.deep_view(),
            reset: self.reset.deep_view(),
            events: self.events.deep_view(),
        }
    }
}

impl Clone for TlsCertificateChangePage {
    fn clone(&self) -> (r: Self)
        ensures
            r.deep_view() == self.deep_view(),
    {
        let r = TlsCertificateChangePage {
            cursor: self.cursor,
            reset: self.reset,
            events: self.events.clone(),
        };
        assert(r.events.deep_view() =~= self.events.deep_view());
        r
    }
}

/// Names that are already canonical stay as they are.
pub proof fn lemma_canonical_name_is_stable(value: Seq<char>)
    requires
        names_host(value),
    ensures
        canonical_name(canonical_name(value)) == canonical_name(value),
        names_host(canonical_name(value)),
{
    let name = canonical_name(value);
    lemma_dns_name_end(name);
    text::lemma_ascii_lower_idempotent(
        if value.len() > 0 && value.last() == '.' {
            value.drop_last()
        } else {
            value
        },
    );
}

proof fn lemma_dns_name_end(s: Seq<char>)
    requires
        is_dns_name(s),
    ensures
        s.len() > 0,
        s.last() != '.',
    decreases s.len(),
{
    match text::first_index(s, '.') {
        None => {},
        Some(at) => {
            let rest = s.skip(at + 1);
            lemma_dns_name_end(rest);
            assert(s.last() == rest.last());
        },
    }
}

} // verus!
