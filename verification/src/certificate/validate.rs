//! What makes a chain of certificates and a private key fit for a TLS server.
use rustls::pki_types::CertificateDer;
use rustls::pki_types::PrivateKeyDer;
use rustls::pki_types::PrivatePkcs8KeyDer;
use rustls::pki_types::ServerName;
use rustls::pki_types::UnixTime;
use rustls::sign::CertifiedKey;
use vstd::prelude::*;
use vstd::string::*;
use x509_parser::extensions::GeneralName;
use x509_parser::parse_x509_certificate;
use x509_parser::time::ASN1Time;

use super::CertificateBundle;
use super::CertificateBundleView;
use super::InvalidCertificateResource;
use super::TlsHostname;
use super::MAX_CERTIFICATE_SANS;
use crate::outcome;
use crate::text;

verus! {

/// The last second that a certificate can be checked at, counted from the Unix
/// epoch: the end of the year 9999.
pub const MAX_VALIDATION_SECONDS: i64 = 253_402_300_799;

/// What one certificate says, and whether it is current. `trailing` counts the bytes behind it.
#[derive(Debug, PartialEq, Eq)]
pub struct CertificateFacts {
    pub trailing: usize,
    pub current: bool,
    pub not_before: i64,
    pub not_after: i64,
    pub issuer: Vec<u8>,
    pub subject: Vec<u8>,
}

/// What a [`CertificateFacts`] holds.
#[verifier::ext_equal]
pub struct CertificateFactsView {
    pub trailing: usize,
    pub current: bool,
    pub not_before: i64,
    pub not_after: i64,
    pub issuer: Seq<u8>,
    pub subject: Seq<u8>,
}

impl DeepView for CertificateFacts {
    type V = CertificateFactsView;

    open spec fn deep_view(&self) -> CertificateFactsView {
        CertificateFactsView {
            trailing: self.trailing.deep_view(),
            current: self.current.deep_view(),
            not_before: self.not_before.deep_view(),
            not_after: self.not_after.deep_view(),
            issuer: self.issuer.deep_view(),
            subject: self.subject.deep_view(),
        }
    }
}

impl Clone for CertificateFacts {
    fn clone(&self) -> (r: Self)
        ensures
            r.deep_view() == self.deep_view(),
    {
        let r = CertificateFacts {
            trailing: self.trailing,
            current: self.current,
            not_before: self.not_before,
            not_after: self.not_after,
            issuer: self.issuer.clone(),
            subject: self.subject.clone(),
        };
        assert(r.issuer.deep_view() =~= self.issuer.deep_view());
        assert(r.subject.deep_view() =~= self.subject.deep_view());
        r
    }
}

/// The alternative names of a certificate's subject. A name that is no DNS name is `None`.
#[derive(Debug, PartialEq, Eq)]
pub enum AlternativeNames {
    Invalid,
    Missing,
    Names(Vec<Option<String>>),
}

/// What an [`AlternativeNames`] holds.
#[verifier::ext_equal]
pub enum AlternativeNamesView {
    Invalid,
    Missing,
    Names(Seq<Option<Seq<char>>>),
}

impl DeepView for AlternativeNames {
    type V = AlternativeNamesView;

    open spec fn deep_view(&self) -> AlternativeNamesView {
        match self {
            AlternativeNames::Invalid => AlternativeNamesView::Invalid,
            AlternativeNames::Missing => AlternativeNamesView::Missing,
            AlternativeNames::Names(value) => AlternativeNamesView::Names(value.deep_view()),
        }
    }
}

impl Clone for AlternativeNames {
    fn clone(&self) -> (r: Self)
        ensures
            r.deep_view() == self.deep_view(),
    {
        match self {
            AlternativeNames::Invalid => AlternativeNames::Invalid,
            AlternativeNames::Missing => AlternativeNames::Missing,
            AlternativeNames::Names(value) => {
                let copy = value.clone();
                assert(copy.deep_view() =~= value.deep_view());
                AlternativeNames::Names(copy)
            },
        }
    }
}

/// What a chain that passed every check says.
#[derive(Debug, PartialEq, Eq)]
pub struct ValidatedCertificate {
    pub not_before_unix_millis: i64,
    pub not_after_unix_millis: i64,
    pub dns_names: Vec<String>,
    pub leaf_sha256: Vec<u8>,
}

/// What a [`ValidatedCertificate`] holds.
#[verifier::ext_equal]
pub struct ValidatedCertificateView {
    pub not_before_unix_millis: i64,
    pub not_after_unix_millis: i64,
    pub dns_names: Seq<Seq<char>>,
    pub leaf_sha256: Seq<u8>,
}

impl DeepView for ValidatedCertificate {
    type V = ValidatedCertificateView;

    open spec fn deep_view(&self) -> ValidatedCertificateView {
        ValidatedCertificateView {
            not_before_unix_millis: self.not_before_unix_millis.deep_view(),
            not_after_unix_millis: self.not_after_unix_millis.deep_view(),
            dns_names: self.dns_names.deep_view(),
            leaf_sha256: self.leaf_sha256.deep_view(),
        }
    }
}

impl Clone for ValidatedCertificate {
    fn clone(&self) -> (r: Self)
        ensures
            r.deep_view() == self.deep_view(),
    {
        let r = ValidatedCertificate {
            not_before_unix_millis: self.not_before_unix_millis,
            not_after_unix_millis: self.not_after_unix_millis,
            dns_names: self.dns_names.clone(),
            leaf_sha256: self.leaf_sha256.clone(),
        };
        assert(r.dns_names.deep_view() =~= self.dns_names.deep_view());
        assert(r.leaf_sha256.deep_view() =~= self.leaf_sha256.deep_view());
        r
    }
}

/// What `parse_x509_certificate` finds in a certificate, and whether it is current
/// at a second after the Unix epoch. None if it cannot be read.
pub uninterp spec fn facts_of(der: Seq<u8>, secs: i64) -> Option<CertificateFactsView>;

/// `x509_parser::parse_x509_certificate`, and of what it finds the validity, the
/// issuer and the subject, these two as encoded. Whether the certificate is
/// current, `Validity::is_valid_at` says for `ASN1Time::from_timestamp`, which
/// takes every second up to the end of the year 9999: a certificate that is has
/// begun and not ended, and one that has begun before and ends later is. At the very
/// seconds in which it begins and ends it depends on how these are encoded.
#[verifier::external_body]
fn read_certificate(der: &Vec<u8>, secs: i64) -> (r: Option<CertificateFacts>)
    requires
        0 <= secs <= MAX_VALIDATION_SECONDS,
    ensures
        r.deep_view() == facts_of(der@, secs),
        r matches Some(facts) ==> (facts.current ==> facts.not_before <= secs <= facts.not_after),
        r matches Some(facts) ==> (facts.not_before < secs < facts.not_after ==> facts.current),
{
    let time = ASN1Time::from_timestamp(secs).ok()?;
    let (rest, certificate) = parse_x509_certificate(der).ok()?;
    Some(CertificateFacts {
        trailing: rest.len(),
        current: certificate.validity().is_valid_at(time),
        not_before: certificate.validity().not_before.timestamp(),
        not_after: certificate.validity().not_after.timestamp(),
        issuer: certificate.issuer().as_raw().to_vec(),
        subject: certificate.subject().as_raw().to_vec(),
    })
}

/// What `subject_alternative_name` finds in a certificate.
pub uninterp spec fn alternative_names_of(der: Seq<u8>) -> AlternativeNamesView;

/// `X509Certificate::subject_alternative_name` of a certificate that
/// `parse_x509_certificate` reads; one that it does not read has invalid names.
#[verifier::external_body]
fn read_alternative_names(der: &Vec<u8>) -> (r: AlternativeNames)
    ensures
        r.deep_view() == alternative_names_of(der@),
{
    let Ok((_, certificate)) = parse_x509_certificate(der) else { return AlternativeNames::Invalid };
    match certificate.subject_alternative_name() {
        Err(_) => AlternativeNames::Invalid,
        Ok(None) => AlternativeNames::Missing,
        Ok(Some(names)) => AlternativeNames::Names(
            names.value.general_names.iter().map(|name| match name {
                GeneralName::DNSName(name) => Some(name.to_string()),
                _ => None,
            }).collect(),
        ),
    }
}

/// Whether `verify_signature` finds that the key of one certificate signed
/// another.
pub uninterp spec fn signed_by(der: Seq<u8>, issuer: Seq<u8>) -> bool;

/// `X509Certificate::verify_signature` of a certificate with the public key of an
/// issuer. It holds of no certificate that cannot be read.
#[verifier::external_body]
fn verify_signature(der: &Vec<u8>, issuer: &Vec<u8>) -> (r: bool)
    ensures
        r == signed_by(der@, issuer@),
{
    let Ok((_, certificate)) = parse_x509_certificate(der) else { return false };
    let Ok((_, issuer)) = parse_x509_certificate(issuer) else { return false };
    certificate.verify_signature(Some(issuer.public_key())).is_ok()
}

/// Whether `EndEntityCert::try_from` takes a certificate.
pub uninterp spec fn is_end_entity(der: Seq<u8>) -> bool;

/// `webpki::EndEntityCert::try_from`.
#[verifier::external_body]
fn accepts_end_entity(der: &Vec<u8>) -> (r: bool)
    ensures
        r == is_end_entity(der@),
{
    webpki::EndEntityCert::try_from(&CertificateDer::from(der.as_slice())).is_ok()
}

/// Whether `anchor_from_trusted_cert` takes a certificate.
pub uninterp spec fn is_anchor(der: Seq<u8>) -> bool;

/// `webpki::anchor_from_trusted_cert`.
#[verifier::external_body]
fn accepts_anchor(der: &Vec<u8>) -> (r: bool)
    ensures
        r == is_anchor(der@),
{
    webpki::anchor_from_trusted_cert(&CertificateDer::from(der.as_slice())).is_ok()
}

/// Whether `verify_for_usage` finds a path from a leaf over certificates between
/// to an anchor, for a TLS server at a millisecond after the Unix epoch.
pub uninterp spec fn serves(
    leaf: Seq<u8>,
    between: Seq<Seq<u8>>,
    anchor: Seq<u8>,
    now_unix_millis: u64,
) -> bool;

/// `webpki::EndEntityCert::verify_for_usage` for server authentication, with all
/// algorithms of rustls' ring provider, no revocation and no other check. It holds
/// of no leaf and no anchor that webpki does not take.
#[verifier::external_body]
fn verify_for_usage(
    leaf: &Vec<u8>,
    between: &Vec<Vec<u8>>,
    anchor: &Vec<u8>,
    now_unix_millis: u64,
) -> (r: bool)
    ensures
        r == serves(leaf@, between.deep_view(), anchor@, now_unix_millis),
{
    let leaf = CertificateDer::from(leaf.as_slice());
    let anchor = CertificateDer::from(anchor.as_slice());
    let between: Vec<_> = between.iter().map(|d| CertificateDer::from(d.as_slice())).collect();
    let Ok(end) = webpki::EndEntityCert::try_from(&leaf) else { return false };
    let Ok(anchor) = webpki::anchor_from_trusted_cert(&anchor) else { return false };
    let algorithms = rustls::crypto::ring::default_provider().signature_verification_algorithms.all;
    let now = UnixTime::since_unix_epoch(std::time::Duration::from_millis(now_unix_millis));
    let usage = webpki::KeyUsage::server_auth();
    end.verify_for_usage(algorithms, &[anchor], &between, now, usage, None, None).is_ok()
}

/// What `CertifiedKey::from_der` makes of a chain and a private key: none if it
/// does not take them, and else whether `keys_match`.
pub uninterp spec fn certified_key(chain: Seq<Seq<u8>>, key: Seq<u8>) -> Option<bool>;

/// `rustls::sign::CertifiedKey::from_der` with rustls' ring provider and, of what
/// it makes, `keys_match`.
#[verifier::external_body]
fn match_key(chain: &Vec<Vec<u8>>, key: &Vec<u8>) -> (r: Option<bool>)
    ensures
        r == certified_key(chain.deep_view(), key@),
{
    let chain = chain.iter().map(|der| CertificateDer::from(der.clone())).collect();
    let key = PrivateKeyDer::Pkcs8(PrivatePkcs8KeyDer::from(key.clone()));
    let provider = rustls::crypto::ring::default_provider();
    Some(CertifiedKey::from_der(chain, key, &provider).ok()?.keys_match().is_ok())
}

/// The SHA-256 digest of bytes.
pub uninterp spec fn sha256_of(bytes: Seq<u8>) -> Seq<u8>;

/// `ring::digest::digest` with SHA-256. A digest has 32 bytes; ring takes fewer
/// than two to the 61st bytes.
#[verifier::external_body]
pub(crate) fn sha256(bytes: &Vec<u8>) -> (r: Vec<u8>)
    requires
        bytes@.len() < 0x2000_0000_0000_0000,
    ensures
        r@ == sha256_of(bytes@),
        r@.len() == 32,
{
    ring::digest::digest(&ring::digest::SHA256, bytes).as_ref().to_vec()
}

/// Whether `ServerName::try_from` takes a name.
pub uninterp spec fn is_server_name(name: Seq<char>) -> bool;

/// `rustls::pki_types::ServerName::try_from`.
#[verifier::external_body]
fn accepts_server_name(name: &str) -> (r: bool)
    ensures
        r == is_server_name(name@),
{
    ServerName::try_from(name).is_ok()
}

/// Whether `verify_is_valid_for_subject_name` finds that a certificate covers a
/// name.
pub uninterp spec fn covers(der: Seq<u8>, name: Seq<char>) -> bool;

/// `webpki::EndEntityCert::verify_is_valid_for_subject_name`. It holds of no
/// certificate and no name that are not taken as such.
#[verifier::external_body]
fn verify_name(der: &Vec<u8>, name: &str) -> (r: bool)
    ensures
        r == covers(der@, name@),
{
    let leaf = CertificateDer::from(der.as_slice());
    let Ok(leaf) = webpki::EndEntityCert::try_from(&leaf) else { return false };
    let Ok(name) = ServerName::try_from(name) else { return false };
    leaf.verify_is_valid_for_subject_name(&name).is_ok()
}

/// Seconds in milliseconds, so many as fit into an `i64`.
pub open spec fn clamped_millis(secs: i64) -> int {
    if secs * 1000 > i64::MAX {
        i64::MAX as int
    } else if secs * 1000 < i64::MIN {
        i64::MIN as int
    } else {
        secs * 1000
    }
}

/// What is wrong with one certificate at a millisecond after the Unix epoch.
pub open spec fn certificate_problem(
    facts: Option<CertificateFactsView>,
    now_unix_millis: i64,
) -> Option<Seq<char>> {
    match facts {
        None => Some("invalid certificate DER"@),
        Some(facts) => if facts.trailing != 0 {
            Some("trailing certificate DER data"@)
        } else if !facts.current || now_unix_millis >= clamped_millis(facts.not_after) {
            Some("certificate is outside its validity interval"@)
        } else {
            None
        },
    }
}

/// Checks one certificate of a chain.
pub fn check_certificate(facts: &Option<CertificateFacts>, now_unix_millis: i64) -> (r: Result<
    (),
    InvalidCertificateResource,
>)
    ensures
        outcome::problem(r) == certificate_problem(facts.deep_view(), now_unix_millis),
{
    match facts {
        None => Err(InvalidCertificateResource("invalid certificate DER")),
        Some(facts) => {
            if facts.trailing != 0 {
                return Err(InvalidCertificateResource("trailing certificate DER data"));
            }
            let end: i128 = facts.not_after as i128 * 1000;
            let end: i128 = if end > i64::MAX as i128 {
                i64::MAX as i128
            } else if end < i64::MIN as i128 {
                i64::MIN as i128
            } else {
                end
            };
            if !facts.current || now_unix_millis as i128 >= end {
                return Err(
                    InvalidCertificateResource("certificate is outside its validity interval"),
                );
            }
            Ok(())
        },
    }
}

/// What is wrong with a certificate and the one behind it, which should have
/// issued it.
pub open spec fn link_problem(
    certificate: CertificateFactsView,
    issuer: CertificateFactsView,
    signature: bool,
) -> Option<Seq<char>> {
    if certificate.issuer != issuer.subject {
        Some("certificate chain is not leaf-first issuer order"@)
    } else if !signature {
        Some("invalid certificate chain signature"@)
    } else {
        None
    }
}

/// What is wrong with the last certificate of a chain. One that issued itself has
/// to have signed itself.
pub open spec fn terminal_problem(certificate: CertificateFactsView, signature: bool) -> Option<
    Seq<char>,
> {
    if certificate.issuer == certificate.subject && !signature {
        Some("invalid terminal certificate signature"@)
    } else {
        None
    }
}

fn same_bytes(a: &Vec<u8>, b: &Vec<u8>) -> (r: bool)
    ensures
        r == (a@ == b@),
        r == (a.deep_view() == b.deep_view()),
{
    assert(a.deep_view() =~= a@);
    assert(b.deep_view() =~= b@);
    if a.len() != b.len() {
        return false;
    }
    let mut i: usize = 0;
    while i < a.len()
        invariant
            0 <= i <= a.len(),
            a.len() == b.len(),
            forall|j: int| 0 <= j < i ==> a@[j] == b@[j],
            a.deep_view() == a@,
            b.deep_view() == b@,
        decreases a.len() - i,
    {
        if a[i] != b[i] {
            return false;
        }
        i = i + 1;
    }
    assert(a@ =~= b@);
    true
}

/// Checks that a certificate was issued by the one behind it.
pub fn check_link(
    certificate: &CertificateFacts,
    issuer: &CertificateFacts,
    signature: bool,
) -> (r: Result<(), InvalidCertificateResource>)
    ensures
        outcome::problem(r) == link_problem(
            certificate.deep_view(),
            issuer.deep_view(),
            signature,
        ),
{
    if !same_bytes(&certificate.issuer, &issuer.subject) {
        Err(InvalidCertificateResource("certificate chain is not leaf-first issuer order"))
    } else if !signature {
        Err(InvalidCertificateResource("invalid certificate chain signature"))
    } else {
        Ok(())
    }
}

/// Checks the last certificate of a chain.
pub fn check_terminal(certificate: &CertificateFacts, signature: bool) -> (r: Result<
    (),
    InvalidCertificateResource,
>)
    ensures
        outcome::problem(r) == terminal_problem(certificate.deep_view(), signature),
{
    if same_bytes(&certificate.issuer, &certificate.subject) && !signature {
        Err(InvalidCertificateResource("invalid terminal certificate signature"))
    } else {
        Ok(())
    }
}

/// A DNS name of a certificate in lower case. Its first label may be a wildcard.
pub open spec fn canonical_dns_name(name: Seq<char>) -> Result<Seq<char>, Seq<char>> {
    let wildcard = text::has_prefix(name, "*."@);
    let suffix = if wildcard {
        name.skip(2)
    } else {
        name
    };
    if !super::names_host(suffix) {
        Err("invalid TLS hostname"@)
    } else if super::canonical_name(suffix) != text::ascii_lower(suffix) {
        Err("certificate DNS SAN must not contain a root dot"@)
    } else if wildcard {
        Ok("*."@ + super::canonical_name(suffix))
    } else {
        Ok(super::canonical_name(suffix))
    }
}

/// The DNS names among the names of a certificate, each once, where it first
/// occurs.
pub open spec fn canonical_dns_names(names: Seq<Option<Seq<char>>>) -> Result<
    Seq<Seq<char>>,
    Seq<char>,
>
    decreases names.len(),
{
    if names.len() == 0 {
        Ok(Seq::empty())
    } else {
        match canonical_dns_names(names.drop_last()) {
            Err(error) => Err(error),
            Ok(found) => match names.last() {
                None => Ok(found),
                Some(name) => match canonical_dns_name(name) {
                    Err(error) => Err(error),
                    Ok(name) => if found.contains(name) {
                        Ok(found)
                    } else {
                        Ok(found.push(name))
                    },
                },
            },
        }
    }
}

/// The DNS names that a certificate is for.
pub open spec fn dns_names_of(names: AlternativeNamesView) -> Result<Seq<Seq<char>>, Seq<char>> {
    match names {
        AlternativeNamesView::Invalid => Err(
            "invalid or duplicate subject alternative name extension"@,
        ),
        AlternativeNamesView::Missing => Err(
            "certificate requires DNS subject alternative names"@,
        ),
        AlternativeNamesView::Names(names) => if names.len() == 0 || names.len() > 100 {
            Err("certificate exceeds its 100-SAN bound"@)
        } else {
            match canonical_dns_names(names) {
                Err(error) => Err(error),
                Ok(names) => if names.len() == 0 {
                    Err("certificate requires a DNS subject alternative name"@)
                } else {
                    Ok(names)
                },
            }
        },
    }
}

fn read_dns_name(name: &str) -> (r: Result<String, InvalidCertificateResource>)
    ensures
        outcome::of(r) == canonical_dns_name(name@),
{
    proof {
        reveal_strlit("*.");
    }
    let wildcard = text::starts_with(name, "*.");
    let chars = text::chars_of(name);
    let suffix = if wildcard {
        let suffix = name.substring_char(2, chars.len());
        assert(suffix@ =~= name@.skip(2));
        suffix
    } else {
        name
    };
    let canonical = match TlsHostname::new(suffix) {
        Ok(canonical) => canonical,
        Err(error) => return Err(error),
    };
    let lower = suffix.to_ascii_lowercase();
    if !text::same(canonical.as_str(), lower.as_str()) {
        return Err(InvalidCertificateResource("certificate DNS SAN must not contain a root dot"));
    }
    if wildcard {
        Ok(text::join2("*.", canonical.as_str()))
    } else {
        Ok(canonical.to_string())
    }
}

fn contains_text(texts: &Vec<String>, text: &str) -> (r: bool)
    ensures
        r == texts.deep_view().contains(text@),
{
    let ghost view = texts.deep_view();
    let mut i: usize = 0;
    while i < texts.len()
        invariant
            0 <= i <= texts.len(),
            view == texts.deep_view(),
            forall|j: int| 0 <= j < i ==> view[j] != text@,
        decreases texts.len() - i,
    {
        assert(view[i as int] == texts@[i as int]@);
        if text::same(texts[i].as_str(), text) {
            assert(view.contains(text@));
            return true;
        }
        i = i + 1;
    }
    false
}

/// The DNS names that a certificate is for, from its alternative names.
pub fn read_dns_names(listed: &AlternativeNames) -> (r: Result<
    Vec<String>,
    InvalidCertificateResource,
>)
    ensures
        outcome::of(r) == dns_names_of(listed.deep_view()),
{
    let names = match listed {
        AlternativeNames::Invalid => {
            return Err(
                InvalidCertificateResource(
                    "invalid or duplicate subject alternative name extension",
                ),
            );
        },
        AlternativeNames::Missing => {
            return Err(
                InvalidCertificateResource("certificate requires DNS subject alternative names"),
            );
        },
        AlternativeNames::Names(names) => names,
    };
    if names.len() == 0 || names.len() > MAX_CERTIFICATE_SANS {
        return Err(InvalidCertificateResource("certificate exceeds its 100-SAN bound"));
    }
    let ghost view = names.deep_view();
    let mut found: Vec<String> = Vec::new();
    let mut i: usize = 0;
    assert(found.deep_view() =~= Seq::<Seq<char>>::empty());
    assert(view.take(0) =~= Seq::empty());
    while i < names.len()
        invariant
            0 <= i <= names.len(),
            view == names.deep_view(),
            listed.deep_view() == AlternativeNamesView::Names(view),
            0 < view.len() <= 100,
            canonical_dns_names(view.take(i as int)) == Ok::<Seq<Seq<char>>, Seq<char>>(
                found.deep_view(),
            ),
        decreases names.len() - i,
    {
        let ghost before = found.deep_view();
        proof {
            assert(view.take(i + 1).drop_last() =~= view.take(i as int));
            assert(view.take(i + 1).last() == view[i as int]);
            assert(view[i as int] == names@[i as int].deep_view());
        }
        match &names[i] {
            None => {},
            Some(name) => match read_dns_name(name.as_str()) {
                Err(error) => {
                    proof {
                        lemma_dns_names_error(view, i + 1);
                    }
                    return Err(error);
                },
                Ok(name) => if !contains_text(&found, name.as_str()) {
                    found.push(name);
                    assert(found.deep_view() =~= before.push(name@));
                },
            },
        }
        i = i + 1;
    }
    assert(view.take(i as int) =~= view);
    if found.len() == 0 {
        return Err(
            InvalidCertificateResource("certificate requires a DNS subject alternative name"),
        );
    }
    Ok(found)
}

proof fn lemma_dns_names_error(names: Seq<Option<Seq<char>>>, at: int)
    requires
        0 <= at <= names.len(),
        canonical_dns_names(names.take(at)) is Err,
    ensures
        canonical_dns_names(names) == canonical_dns_names(names.take(at)),
    decreases names.len() - at,
{
    if at < names.len() {
        assert(names.take(at + 1).drop_last() =~= names.take(at));
        lemma_dns_names_error(names, at + 1);
    } else {
        assert(names.take(at) =~= names);
    }
}

/// What is wrong with a chain as the chain of a TLS server.
pub open spec fn trust_problem(end_entity: bool, anchor: bool, serves: bool) -> Option<Seq<char>> {
    if !end_entity {
        Some("invalid server certificate"@)
    } else if !anchor {
        Some("invalid terminal trust anchor"@)
    } else if !serves {
        Some("certificate chain is not valid for TLS server authentication"@)
    } else {
        None
    }
}

/// Checks what was found of a chain as the chain of a TLS server.
pub fn check_trust(end_entity: bool, anchor: bool, serves: bool) -> (r: Result<
    (),
    InvalidCertificateResource,
>)
    ensures
        outcome::problem(r) == trust_problem(end_entity, anchor, serves),
{
    if !end_entity {
        Err(InvalidCertificateResource("invalid server certificate"))
    } else if !anchor {
        Err(InvalidCertificateResource("invalid terminal trust anchor"))
    } else if !serves {
        Err(
            InvalidCertificateResource(
                "certificate chain is not valid for TLS server authentication",
            ),
        )
    } else {
        Ok(())
    }
}

/// What is wrong with a private key beside its chain.
pub open spec fn key_problem(matched: Option<bool>) -> Option<Seq<char>> {
    match matched {
        None => Some("unsupported private key or certificate/key mismatch"@),
        Some(false) => Some("certificate public key does not match the private key"@),
        Some(true) => None,
    }
}

/// Checks what was found of a private key beside its chain.
pub fn check_key(matched: Option<bool>) -> (r: Result<(), InvalidCertificateResource>)
    ensures
        outcome::problem(r) == key_problem(matched),
{
    match matched {
        None => Err(
            InvalidCertificateResource("unsupported private key or certificate/key mismatch"),
        ),
        Some(matched) => if matched {
            Ok(())
        } else {
            Err(
                InvalidCertificateResource("certificate public key does not match the private key"),
            )
        },
    }
}

/// The latest beginning of validity in a chain.
pub open spec fn latest_beginning(chain: Seq<CertificateFactsView>) -> i64
    decreases chain.len(),
{
    if chain.len() <= 1 || chain.last().not_before > latest_beginning(chain.drop_last()) {
        chain.last().not_before
    } else {
        latest_beginning(chain.drop_last())
    }
}

/// The earliest end of validity in a chain.
pub open spec fn earliest_end(chain: Seq<CertificateFactsView>) -> i64
    decreases chain.len(),
{
    if chain.len() <= 1 || chain.last().not_after < earliest_end(chain.drop_last()) {
        chain.last().not_after
    } else {
        earliest_end(chain.drop_last())
    }
}

/// When all certificates of a chain are valid, in milliseconds after the Unix
/// epoch.
pub open spec fn validity_of(chain: Seq<CertificateFactsView>) -> Result<(i64, i64), Seq<char>> {
    let from = latest_beginning(chain) * 1000;
    let to = earliest_end(chain) * 1000;
    if i64::MIN <= from <= i64::MAX && i64::MIN <= to <= i64::MAX {
        Ok((from as i64, to as i64))
    } else {
        Err("certificate validity overflows milliseconds"@)
    }
}

/// When all certificates of a chain are valid.
pub fn chain_validity(chain: &Vec<CertificateFacts>) -> (r: Result<
    (i64, i64),
    InvalidCertificateResource,
>)
    requires
        chain@.len() > 0,
    ensures
        outcome::of(r) == validity_of(chain.deep_view()),
{
    let ghost view = chain.deep_view();
    let mut from: i64 = chain[0].not_before;
    let mut to: i64 = chain[0].not_after;
    let mut i: usize = 1;
    proof {
        assert(view[0] == chain@[0].deep_view());
        assert(view.take(1).last() == view[0]);
    }
    while i < chain.len()
        invariant
            1 <= i <= chain.len(),
            view == chain.deep_view(),
            from == latest_beginning(view.take(i as int)),
            to == earliest_end(view.take(i as int)),
        decreases chain.len() - i,
    {
        proof {
            assert(view.take(i + 1).drop_last() =~= view.take(i as int));
            assert(view.take(i + 1).last() == view[i as int]);
            assert(view[i as int] == chain@[i as int].deep_view());
        }
        if chain[i].not_before > from {
            from = chain[i].not_before;
        }
        if chain[i].not_after < to {
            to = chain[i].not_after;
        }
        i = i + 1;
    }
    assert(view.take(i as int) =~= view);
    match (from.checked_mul(1000), to.checked_mul(1000)) {
        (Some(from), Some(to)) => Ok((from, to)),
        _ => Err(InvalidCertificateResource("certificate validity overflows milliseconds")),
    }
}

/// The problem of each certificate of a chain.
pub open spec fn certificate_problems(chain: Seq<Seq<u8>>, now_unix_millis: i64) -> Seq<
    Option<Seq<char>>,
> {
    Seq::new(
        chain.len(),
        |i: int|
            certificate_problem(
                facts_of(chain[i], (now_unix_millis / 1000) as i64),
                now_unix_millis,
            ),
    )
}

/// What the certificates of a chain say.
pub open spec fn chain_facts(chain: Seq<Seq<u8>>, secs: i64) -> Seq<CertificateFactsView> {
    Seq::new(chain.len(), |i: int| facts_of(chain[i], secs)->0)
}

/// The problem of each certificate of a chain and the one behind it.
pub open spec fn link_problems(chain: Seq<Seq<u8>>, secs: i64) -> Seq<Option<Seq<char>>> {
    let facts = chain_facts(chain, secs);
    Seq::new(
        (chain.len() - 1) as nat,
        |i: int| link_problem(facts[i], facts[i + 1], signed_by(chain[i], chain[i + 1])),
    )
}

/// The first problem of a chain in its certificates and how they follow each
/// other.
pub open spec fn chain_problem(chain: Seq<Seq<u8>>, now_unix_millis: i64) -> Option<Seq<char>> {
    let secs = (now_unix_millis / 1000) as i64;
    if now_unix_millis < 0 || secs > MAX_VALIDATION_SECONDS {
        Some("invalid certificate validation time"@)
    } else {
        let certificates = outcome::first_problem(certificate_problems(chain, now_unix_millis), 0);
        if certificates is Some {
            certificates
        } else if chain.len() == 0 {
            Some("empty certificate chain"@)
        } else {
            outcome::first_of(
                outcome::first_problem(link_problems(chain, secs), 0),
                terminal_problem(
                    chain_facts(chain, secs).last(),
                    signed_by(chain.last(), chain.last()),
                ),
            )
        }
    }
}

/// What is between the leaf and the anchor of a chain.
pub open spec fn intermediates(chain: Seq<Seq<u8>>) -> Seq<Seq<u8>> {
    if chain.len() > 1 {
        chain.subrange(1, chain.len() - 1)
    } else {
        Seq::empty()
    }
}

/// What a chain and its private key say, or the first problem with them.
pub open spec fn validated(bundle: CertificateBundleView, now_unix_millis: i64) -> Result<
    ValidatedCertificateView,
    Seq<char>,
> {
    let chain = bundle.chain_der;
    match chain_problem(chain, now_unix_millis) {
        Some(problem) => Err(problem),
        None => match dns_names_of(alternative_names_of(chain[0])) {
            Err(problem) => Err(problem),
            Ok(dns_names) => match outcome::first_of(
                trust_problem(
                    is_end_entity(chain[0]),
                    is_anchor(chain.last()),
                    serves(chain[0], intermediates(chain), chain.last(), now_unix_millis as u64),
                ),
                key_problem(certified_key(chain, bundle.private_key_pkcs8_der)),
            ) {
                Some(problem) => Err(problem),
                None => match validity_of(chain_facts(chain, (now_unix_millis / 1000) as i64)) {
                    Err(problem) => Err(problem),
                    Ok((from, to)) => Ok(
                        ValidatedCertificateView {
                            not_before_unix_millis: from,
                            not_after_unix_millis: to,
                            dns_names,
                            leaf_sha256: sha256_of(chain[0]),
                        },
                    ),
                },
            },
        },
    }
}

fn read_chain(chain: &Vec<Vec<u8>>, now_unix_millis: i64) -> (r: Result<
    Vec<CertificateFacts>,
    InvalidCertificateResource,
>)
    requires
        0 <= now_unix_millis,
        now_unix_millis / 1000 <= MAX_VALIDATION_SECONDS,
    ensures
        outcome::of(r) == outcome::checked(
            outcome::first_problem(certificate_problems(chain.deep_view(), now_unix_millis), 0),
            chain_facts(chain.deep_view(), (now_unix_millis / 1000) as i64),
        ),
        r matches Ok(facts) ==> forall|i: int|
            0 <= i < facts@.len() ==> (#[trigger] facts.deep_view()[i]).not_before * 1000
                <= now_unix_millis,
{
    let ghost view = chain.deep_view();
    let secs: i64 = now_unix_millis / 1000;
    let ghost problems = certificate_problems(view, now_unix_millis);
    let ghost all = chain_facts(view, secs);
    let mut facts: Vec<CertificateFacts> = Vec::new();
    let mut i: usize = 0;
    assert(facts.deep_view() =~= all.take(0));
    while i < chain.len()
        invariant
            0 <= i <= chain.len(),
            0 <= secs <= MAX_VALIDATION_SECONDS,
            secs == now_unix_millis / 1000,
            view == chain.deep_view(),
            problems == certificate_problems(view, now_unix_millis),
            all == chain_facts(view, secs),
            facts.deep_view() == all.take(i as int),
            forall|j: int| 0 <= j < i ==> (#[trigger] problems[j]) is None,
            forall|j: int| 0 <= j < i ==> (#[trigger] all[j]).not_before * 1000 <= now_unix_millis,
        decreases chain.len() - i,
    {
        let ghost before = facts.deep_view();
        assert(view[i as int] == chain@[i as int].deep_view());
        assert(chain@[i as int].deep_view() =~= chain@[i as int]@);
        let read = read_certificate(&chain[i], secs);
        assert(problems[i as int] == certificate_problem(read.deep_view(), now_unix_millis));
        match check_certificate(&read, now_unix_millis) {
            Err(error) => {
                proof {
                    outcome::lemma_first_problem(problems, 0, i as int);
                }
                return Err(error);
            },
            Ok(()) => {},
        }
        if let Some(read) = read {
            facts.push(read);
            assert(all[i as int] == read.deep_view());
            assert(facts.deep_view() =~= before.push(read.deep_view()));
            assert(all.take(i + 1) =~= all.take(i as int).push(all[i as int]));
        }
        i = i + 1;
    }
    proof {
        outcome::lemma_first_problem(problems, 0, i as int);
        assert(all.take(i as int) =~= all);
    }
    Ok(facts)
}

fn check_chain(chain: &Vec<Vec<u8>>, facts: &Vec<CertificateFacts>, Ghost(secs): Ghost<i64>) -> (r:
    Result<(), InvalidCertificateResource>)
    requires
        facts.deep_view() == chain_facts(chain.deep_view(), secs),
        chain@.len() > 0,
    ensures
        outcome::problem(r) == outcome::first_of(
            outcome::first_problem(link_problems(chain.deep_view(), secs), 0),
            terminal_problem(
                chain_facts(chain.deep_view(), secs).last(),
                signed_by(chain.deep_view().last(), chain.deep_view().last()),
            ),
        ),
{
    let ghost view = chain.deep_view();
    let ghost problems = link_problems(view, secs);
    let last: usize = chain.len() - 1;
    assert(facts.deep_view().len() == facts@.len());
    let mut i: usize = 0;
    while i < last
        invariant
            0 <= i <= last,
            last == chain@.len() - 1,
            facts@.len() == chain@.len(),
            view == chain.deep_view(),
            problems == link_problems(view, secs),
            facts.deep_view() == chain_facts(view, secs),
            forall|j: int| 0 <= j < i ==> (#[trigger] problems[j]) is None,
        decreases last - i,
    {
        proof {
            assert(view[i as int] == chain@[i as int].deep_view());
            assert(view[i + 1] == chain@[i + 1].deep_view());
            assert(chain@[i as int].deep_view() =~= chain@[i as int]@);
            assert(chain@[i + 1].deep_view() =~= chain@[i + 1]@);
            assert(facts.deep_view()[i as int] == facts@[i as int].deep_view());
            assert(facts.deep_view()[i + 1] == facts@[i + 1].deep_view());
        }
        let signature = verify_signature(&chain[i], &chain[i + 1]);
        assert(problems[i as int] == link_problem(
            facts@[i as int].deep_view(),
            facts@[i + 1].deep_view(),
            signature,
        ));
        match check_link(&facts[i], &facts[i + 1], signature) {
            Err(error) => {
                proof {
                    outcome::lemma_first_problem(problems, 0, i as int);
                }
                return Err(error);
            },
            Ok(()) => {},
        }
        i = i + 1;
    }
    proof {
        outcome::lemma_first_problem(problems, 0, i as int);
        assert(view.last() == chain@[last as int].deep_view());
        assert(chain@[last as int].deep_view() =~= chain@[last as int]@);
        assert(facts.deep_view().last() == facts@[last as int].deep_view());
    }
    let signature = verify_signature(&chain[last], &chain[last]);
    check_terminal(&facts[last], signature)
}

fn read_intermediates(chain: &Vec<Vec<u8>>) -> (r: Vec<Vec<u8>>)
    requires
        chain@.len() > 0,
    ensures
        r.deep_view() == intermediates(chain.deep_view()),
{
    let ghost view = chain.deep_view();
    let mut between: Vec<Vec<u8>> = Vec::new();
    let mut i: usize = 1;
    assert(between.deep_view() =~= Seq::<Seq<u8>>::empty());
    while i < chain.len() - 1
        invariant
            1 <= i,
            chain@.len() > 0,
            i <= chain@.len() - 1 || i == 1,
            view == chain.deep_view(),
            between.deep_view() == if chain@.len() > 1 {
                view.subrange(1, i as int)
            } else {
                Seq::empty()
            },
        decreases chain.len() - i,
    {
        let ghost before = between.deep_view();
        let der = chain[i].clone();
        proof {
            assert(der.deep_view() =~= chain@[i as int].deep_view());
            assert(view[i as int] == chain@[i as int].deep_view());
        }
        between.push(der);
        proof {
            assert(between.deep_view() =~= before.push(der.deep_view()));
            assert(view.subrange(1, i + 1) =~= view.subrange(1, i as int).push(view[i as int]));
        }
        i = i + 1;
    }
    between
}

/// Checks a chain, the leaf first, and its private key at a point in time. The
/// last certificate is taken as the trust anchor, whether or not the public
/// trusts it. Every certificate has to be current and to be signed by the one
/// behind it; the leaf has to be one for a TLS server, for at least one DNS name,
/// and to match the key. A chain that passed has begun and has not ended.
pub fn validate_certificate(bundle: &CertificateBundle, now_unix_millis: i64) -> (r: Result<
    ValidatedCertificate,
    InvalidCertificateResource,
>)
    ensures
        outcome::of(r) == validated(bundle.deep_view(), now_unix_millis),
        r matches Ok(certificate) ==> certificate.not_before_unix_millis <= now_unix_millis
            < certificate.not_after_unix_millis,
{
    if now_unix_millis < 0 || now_unix_millis / 1000 > MAX_VALIDATION_SECONDS {
        return Err(InvalidCertificateResource("invalid certificate validation time"));
    }
    let secs: i64 = now_unix_millis / 1000;
    let chain = bundle.chain_der();
    let facts = match read_chain(chain, now_unix_millis) {
        Ok(facts) => facts,
        Err(error) => return Err(error),
    };
    if chain.len() == 0 {
        return Err(InvalidCertificateResource("empty certificate chain"));
    }
    if let Err(error) = check_chain(chain, &facts, Ghost(secs)) {
        return Err(error);
    }
    let last: usize = chain.len() - 1;
    proof {
        let view = chain.deep_view();
        assert(view[0] == chain@[0].deep_view());
        assert(chain@[0].deep_view() =~= chain@[0]@);
        assert(view.last() == chain@[last as int].deep_view());
        assert(chain@[last as int].deep_view() =~= chain@[last as int]@);
        super::lemma_framed_len(view, 0);
        assert(facts.deep_view().len() == facts@.len());
    }
    let dns_names = match read_dns_names(&read_alternative_names(&chain[0])) {
        Ok(dns_names) => dns_names,
        Err(error) => return Err(error),
    };
    let between = read_intermediates(chain);
    if let Err(error) = check_trust(
        accepts_end_entity(&chain[0]),
        accepts_anchor(&chain[last]),
        verify_for_usage(&chain[0], &between, &chain[last], now_unix_millis as u64),
    ) {
        return Err(error);
    }
    if let Err(error) = check_key(match_key(chain, bundle.private_key_pkcs8_der())) {
        return Err(error);
    }
    let (from, to) = match chain_validity(&facts) {
        Ok(validity) => validity,
        Err(error) => return Err(error),
    };
    let leaf_sha256 = sha256(&chain[0]);
    proof {
        assert(leaf_sha256.deep_view() =~= leaf_sha256@);
        lemma_latest_beginning(facts.deep_view());
        lemma_validity_is_limited_by_every_certificate(bundle.deep_view(), now_unix_millis, 0);
    }
    Ok(
        ValidatedCertificate {
            not_before_unix_millis: from,
            not_after_unix_millis: to,
            dns_names,
            leaf_sha256,
        },
    )
}

/// What is wrong with a hostname for a chain, from what was found of them.
pub open spec fn hostname_problem(
    empty: bool,
    end_entity: bool,
    server_name: bool,
    covered: bool,
) -> Option<Seq<char>> {
    if empty {
        Some("empty certificate chain"@)
    } else if !end_entity {
        Some("invalid server certificate"@)
    } else if !server_name {
        Some("invalid TLS hostname"@)
    } else if !covered {
        Some("certificate does not cover the exact bound hostname"@)
    } else {
        None
    }
}

/// Checks what was found of a hostname and a chain.
pub fn check_hostname(empty: bool, end_entity: bool, server_name: bool, covered: bool) -> (r:
    Result<(), InvalidCertificateResource>)
    ensures
        outcome::problem(r) == hostname_problem(empty, end_entity, server_name, covered),
{
    if empty {
        Err(InvalidCertificateResource("empty certificate chain"))
    } else if !end_entity {
        Err(InvalidCertificateResource("invalid server certificate"))
    } else if !server_name {
        Err(InvalidCertificateResource("invalid TLS hostname"))
    } else if !covered {
        Err(InvalidCertificateResource("certificate does not cover the exact bound hostname"))
    } else {
        Ok(())
    }
}

/// Checks that the leaf of a chain covers a hostname.
pub fn validate_hostname(chain: &Vec<Vec<u8>>, hostname: &TlsHostname) -> (r: Result<
    (),
    InvalidCertificateResource,
>)
    ensures
        outcome::problem(r) == hostname_problem(
            chain@.len() == 0,
            is_end_entity(chain.deep_view()[0]),
            is_server_name(hostname@),
            covers(chain.deep_view()[0], hostname@),
        ),
{
    if chain.len() == 0 {
        return check_hostname(true, false, false, false);
    }
    proof {
        assert(chain.deep_view()[0] == chain@[0].deep_view());
        assert(chain@[0].deep_view() =~= chain@[0]@);
    }
    check_hostname(
        false,
        accepts_end_entity(&chain[0]),
        accepts_server_name(hostname.as_str()),
        verify_name(&chain[0], hostname.as_str()),
    )
}

proof fn lemma_validity_bounds(chain: Seq<CertificateFactsView>, i: int)
    requires
        0 <= i < chain.len(),
    ensures
        chain[i].not_before <= latest_beginning(chain),
        earliest_end(chain) <= chain[i].not_after,
    decreases chain.len(),
{
    if i < chain.len() - 1 {
        lemma_validity_bounds(chain.drop_last(), i);
        assert(chain.drop_last()[i] == chain[i]);
    }
}

/// A chain that passed is valid for no longer than each of its certificates, and
/// its validity has not ended.
pub proof fn lemma_validity_is_limited_by_every_certificate(
    bundle: CertificateBundleView,
    now_unix_millis: i64,
    i: int,
)
    requires
        validated(bundle, now_unix_millis) is Ok,
        0 <= i < bundle.chain_der.len(),
    ensures
        ({
            let certificate = validated(bundle, now_unix_millis)->Ok_0;
            let facts = chain_facts(bundle.chain_der, (now_unix_millis / 1000) as i64)[i];
            &&& facts.not_before * 1000 <= certificate.not_before_unix_millis
            &&& certificate.not_after_unix_millis <= facts.not_after * 1000
            &&& now_unix_millis < certificate.not_after_unix_millis
        }),
{
    let chain = bundle.chain_der;
    let secs = (now_unix_millis / 1000) as i64;
    let facts = chain_facts(chain, secs);
    lemma_validity_bounds(facts, i);
    lemma_earliest_end(facts);
    let j = choose|j: int| 0 <= j < facts.len() && facts[j].not_after == earliest_end(facts);
    let problems = certificate_problems(chain, now_unix_millis);
    lemma_no_problem(problems, 0, j);
}

pub(super) proof fn lemma_latest_beginning(chain: Seq<CertificateFactsView>)
    requires
        chain.len() > 0,
    ensures
        exists|j: int|
            0 <= j < chain.len() && (#[trigger] chain[j]).not_before == latest_beginning(chain),
    decreases chain.len(),
{
    if chain.len() <= 1 || chain.last().not_before > latest_beginning(chain.drop_last()) {
        assert(chain[chain.len() - 1].not_before == latest_beginning(chain));
    } else {
        lemma_latest_beginning(chain.drop_last());
        let j = choose|j: int|
            0 <= j < chain.len() - 1 && (#[trigger] chain.drop_last()[j]).not_before
                == latest_beginning(chain.drop_last());
        assert(chain[j].not_before == latest_beginning(chain));
    }
}

pub(super) proof fn lemma_earliest_end(chain: Seq<CertificateFactsView>)
    requires
        chain.len() > 0,
    ensures
        exists|j: int| 0 <= j < chain.len() && (#[trigger] chain[j]).not_after == earliest_end(chain),
    decreases chain.len(),
{
    if chain.len() <= 1 || chain.last().not_after < earliest_end(chain.drop_last()) {
        assert(chain[chain.len() - 1].not_after == earliest_end(chain));
    } else {
        lemma_earliest_end(chain.drop_last());
        let j = choose|j: int|
            0 <= j < chain.len() - 1 && (#[trigger] chain.drop_last()[j]).not_after == earliest_end(
                chain.drop_last(),
            );
        assert(chain[j].not_after == earliest_end(chain));
    }
}

proof fn lemma_no_problem(problems: Seq<Option<Seq<char>>>, from: int, i: int)
    requires
        0 <= from <= i < problems.len(),
        outcome::first_problem(problems, from) is None,
    ensures
        problems[i] is None,
    decreases i - from,
{
    if from < i {
        lemma_no_problem(problems, from + 1, i);
    }
}

/// The names of a chain that passed are different, at least one and at most 100.
pub proof fn lemma_dns_names_are_distinct(names: AlternativeNamesView)
    requires
        dns_names_of(names) is Ok,
    ensures
        0 < dns_names_of(names)->Ok_0.len() <= 100,
        dns_names_of(names)->Ok_0.no_duplicates(),
{
    if let AlternativeNamesView::Names(names) = names {
        lemma_canonical_dns_names(names);
    }
}

proof fn lemma_canonical_dns_names(names: Seq<Option<Seq<char>>>)
    ensures
        canonical_dns_names(names) matches Ok(found) ==> found.len() <= names.len()
            && found.no_duplicates(),
    decreases names.len(),
{
    if names.len() > 0 {
        lemma_canonical_dns_names(names.drop_last());
    }
}

} // verus!
