use vstd::prelude::*;
use x509_parser::certificate::X509Certificate;
use x509_parser::extensions::{DistributionPointName, GeneralName, ParsedExtension};
use x509_parser::prelude::FromDer;
use crate::cert_json::{Attribute, PolicyModel, QualifierModel, SpkiFields, TimeFields};
use crate::cert_view::{
    AccessView, CertView, DistributionPointView, ExtensionBodyView, ExtensionView, GeneralNameView,
    attributes_view, name_view, policy_view, spki_view,
};

verus! {

// ---------------------------------------------------------------------------
// A parsed X.509 certificate and what x509-parser reads from it
// ---------------------------------------------------------------------------

#[verifier::external_type_specification]
#[verifier::external_body]
pub struct ExX509Certificate<'a>(x509_parser::certificate::X509Certificate<'a>);

/// What `X509Certificate::from_der` makes of DER bytes, read through x509-parser's fields and
/// accessors into the contents of a certificate model; `None` when it refuses the bytes.
pub uninterp spec fn x509_certificate(der: Seq<u8>) -> Option<CertView>;

/// A certificate parsed from DER bytes, with the bytes it was parsed from. Only
/// [`parse_certificate`] makes one.
pub struct Certificate<'a> {
    der: &'a [u8],
    cert: X509Certificate<'a>,
}

impl<'a> Certificate<'a> {
    /// The DER bytes the certificate was parsed from.
    pub closed spec fn der(&self) -> Seq<u8> {
        self.der@
    }

    /// The bytes parse as a certificate.
    pub open spec fn parsed(&self) -> bool {
        x509_certificate(self.der()) is Some
    }

    /// What x509-parser reads from the certificate.
    pub open spec fn contents(&self) -> CertView {
        x509_certificate(self.der()).unwrap()
    }

    /// Extension `i`.
    pub open spec fn ext(&self, i: int) -> ExtensionView {
        self.contents().extensions[i]
    }

    /// The access descriptions of extension `i`.
    pub open spec fn accesses(&self, i: int) -> Seq<AccessView> {
        self.ext(i).body->AuthorityInfoAccess_0
    }

    /// The distribution points of extension `i`.
    pub open spec fn points(&self, i: int) -> Seq<DistributionPointView> {
        self.ext(i).body->CrlDistributionPoints_0
    }

    /// The full names of distribution point `j` of extension `i`.
    pub open spec fn full_names(&self, i: int, j: int) -> Seq<GeneralNameView> {
        self.points(i)[j]->FullName_0
    }
}

/// `X509Certificate::from_der`: the certificate that DER bytes encode, or the parser's error
/// text.
#[verifier::external_body]
pub(crate) fn parse_certificate<'a>(der: &'a [u8]) -> (r: Result<Certificate<'a>, String>)
    ensures
        r is Ok <==> x509_certificate(der@) is Some,
        r matches Ok(c) ==> c.der() == der@,
{
    match X509Certificate::from_der(der) {
        Ok((_, cert)) => Ok(Certificate { der, cert }),
        Err(e) => Err(e.to_string()),
    }
}

/// Version, raw serial number and signature algorithm of the to-be-signed part.
#[verifier::external_body]
pub(crate) fn tbs_fields(c: &Certificate) -> (r: (u32, Vec<u8>, String))
    requires
        c.parsed(),
    ensures
        r.0 == c.contents().version,
        r.1@ == c.contents().raw_serial,
        r.2@ == c.contents().tbs_signature_oid,
{
    let t = &c.cert.tbs_certificate;
    (t.version.0, t.raw_serial().to_vec(), t.signature.algorithm.to_id_string())
}

/// The outer signature algorithm and the signature bits.
#[verifier::external_body]
pub(crate) fn signature_fields(c: &Certificate) -> (r: (String, Vec<u8>))
    requires
        c.parsed(),
    ensures
        r.0@ == c.contents().signature_oid,
        r.1@ == c.contents().signature_value,
{
    (c.cert.signature_algorithm.algorithm.to_id_string(), c.cert.signature_value.data.to_vec())
}

/// The subject public key info: algorithm, the parameter read by `as_oid`, raw bytes, key bits.
#[verifier::external_body]
pub(crate) fn spki_fields(c: &Certificate) -> (r: SpkiFields)
    requires
        c.parsed(),
    ensures
        spki_view(r) == c.contents().spki,
{
    let s = &c.cert.tbs_certificate.subject_pki;
    SpkiFields {
        algorithm_oid: s.algorithm.algorithm.to_id_string(),
        parameter_oid: s.algorithm.parameters.as_ref().and_then(|p| p.as_oid().ok()).map(|o| o.to_id_string()),
        raw: s.raw.to_vec(),
        key: s.subject_public_key.data.to_vec(),
    }
}

/// Both validity bounds by `ASN1Time::to_datetime`, in UTC.
#[verifier::external_body]
pub(crate) fn validity_fields(c: &Certificate) -> (r: (TimeFields, TimeFields))
    requires
        c.parsed(),
    ensures
        r.0 == c.contents().not_before,
        r.1 == c.contents().not_after,
{
    let b = c.cert.tbs_certificate.validity.not_before.to_datetime();
    let a = c.cert.tbs_certificate.validity.not_after.to_datetime();
    (
        TimeFields { year: b.year(), month: b.month() as u8, day: b.day(), hour: b.hour(), minute: b.minute(), second: b.second() },
        TimeFields { year: a.year(), month: a.month() as u8, day: a.day(), hour: a.hour(), minute: a.minute(), second: a.second() },
    )
}

/// The whole days from the start to the end of validity: the `time` crate's subtraction of
/// the two `OffsetDateTime`s and `SignedDuration::whole_days`.
#[verifier::external_body]
pub(crate) fn validity_days(c: &Certificate) -> (r: i64)
    requires
        c.parsed(),
    ensures
        r == c.contents().validity_days,
{
    let v = &c.cert.tbs_certificate.validity;
    (v.not_after.to_datetime() - v.not_before.to_datetime()).whole_days()
}

/// The issuer name: each relative name's attributes, their type, value by `as_str` and raw
/// value.
#[verifier::external_body]
pub(crate) fn issuer_rdns(c: &Certificate) -> (r: Vec<Vec<Attribute>>)
    requires
        c.parsed(),
    ensures
        name_view(r@) == c.contents().issuer,
{
    c.cert.tbs_certificate.issuer.iter().map(|rdn| rdn.iter().map(|a| Attribute {
        oid: a.attr_type().to_id_string(),
        text: a.as_str().ok().map(|s| s.to_string()),
        raw: a.as_slice().to_vec(),
    }).collect()).collect()
}

/// The subject name, read as the issuer name is.
#[verifier::external_body]
pub(crate) fn subject_rdns(c: &Certificate) -> (r: Vec<Vec<Attribute>>)
    requires
        c.parsed(),
    ensures
        name_view(r@) == c.contents().subject,
{
    c.cert.tbs_certificate.subject.iter().map(|rdn| rdn.iter().map(|a| Attribute {
        oid: a.attr_type().to_id_string(),
        text: a.as_str().ok().map(|s| s.to_string()),
        raw: a.as_slice().to_vec(),
    }).collect()).collect()
}

/// How many extensions there are (`TbsCertificate::extensions`).
#[verifier::external_body]
pub(crate) fn extension_count(c: &Certificate) -> (r: usize)
    requires
        c.parsed(),
    ensures
        r == c.contents().extensions.len(),
{
    c.cert.tbs_certificate.extensions().len()
}

/// Identifier, criticality and raw value of extension `i`.
#[verifier::external_body]
pub(crate) fn extension_header(c: &Certificate, i: usize) -> (r: (String, bool, Vec<u8>))
    requires
        c.parsed(),
        i < c.contents().extensions.len(),
    ensures
        r.0@ == c.ext(i as int).oid,
        r.1 == c.ext(i as int).critical,
        r.2@ == c.ext(i as int).value,
{
    let e = &c.cert.tbs_certificate.extensions()[i];
    (e.oid.to_id_string(), e.critical, e.value.to_vec())
}

/// What an extension holds by its parsed kind; lists are read by the accessors below.
pub enum ExtensionKind {
    SubjectKeyIdentifier(Vec<u8>),
    AuthorityKeyIdentifier(Option<Vec<u8>>),
    KeyUsage(u16),
    BasicConstraints(bool, Option<u32>),
    ExtendedKeyUsage,
    CertificatePolicies,
    AuthorityInfoAccess,
    CrlDistributionPoints,
    Other,
}

/// An extension kind agrees with the contents of an extension's body.
pub open spec fn kind_agrees(k: ExtensionKind, b: ExtensionBodyView) -> bool {
    match k {
        ExtensionKind::SubjectKeyIdentifier(x) => b == ExtensionBodyView::SubjectKeyIdentifier(x@),
        ExtensionKind::AuthorityKeyIdentifier(x) => b == ExtensionBodyView::AuthorityKeyIdentifier(
            match x {
                Some(k) => Some(k@),
                None => None,
            },
        ),
        ExtensionKind::KeyUsage(f) => b == ExtensionBodyView::KeyUsage(f),
        ExtensionKind::BasicConstraints(ca, pl) => b == ExtensionBodyView::BasicConstraints(ca, pl),
        ExtensionKind::ExtendedKeyUsage => b == ExtensionBodyView::ExtendedKeyUsage,
        ExtensionKind::CertificatePolicies => b is CertificatePolicies,
        ExtensionKind::AuthorityInfoAccess => b is AuthorityInfoAccess,
        ExtensionKind::CrlDistributionPoints => b is CrlDistributionPoints,
        ExtensionKind::Other => b == ExtensionBodyView::Other,
    }
}

/// `X509Extension::parsed_extension` of extension `i`, one arm per reported kind.
#[verifier::external_body]
pub(crate) fn extension_kind(c: &Certificate, i: usize) -> (r: ExtensionKind)
    requires
        c.parsed(),
        i < c.contents().extensions.len(),
    ensures
        kind_agrees(r, c.ext(i as int).body),
{
    match c.cert.tbs_certificate.extensions()[i].parsed_extension() {
        ParsedExtension::SubjectKeyIdentifier(k) => ExtensionKind::SubjectKeyIdentifier(k.0.to_vec()),
        ParsedExtension::AuthorityKeyIdentifier(a) => ExtensionKind::AuthorityKeyIdentifier(a.key_identifier.as_ref().map(|k| k.0.to_vec())),
        ParsedExtension::KeyUsage(k) => ExtensionKind::KeyUsage(k.flags),
        ParsedExtension::BasicConstraints(b) => ExtensionKind::BasicConstraints(b.ca, b.path_len_constraint),
        ParsedExtension::ExtendedKeyUsage(_) => ExtensionKind::ExtendedKeyUsage,
        ParsedExtension::CertificatePolicies(_) => ExtensionKind::CertificatePolicies,
        ParsedExtension::AuthorityInfoAccess(_) => ExtensionKind::AuthorityInfoAccess,
        ParsedExtension::CRLDistributionPoints(_) => ExtensionKind::CrlDistributionPoints,
        _ => ExtensionKind::Other,
    }
}

/// The policies of certificate policies extension `i`, with their qualifiers' raw bytes.
#[verifier::external_body]
pub(crate) fn policies(c: &Certificate, i: usize) -> (r: Vec<PolicyModel>)
    requires
        c.parsed(),
        i < c.contents().extensions.len(),
        c.ext(i as int).body is CertificatePolicies,
    ensures
        Seq::new(r@.len(), |k: int| policy_view(r@[k])) == c.ext(i as int).body->CertificatePolicies_0,
{
    match c.cert.tbs_certificate.extensions()[i].parsed_extension() {
        ParsedExtension::CertificatePolicies(ps) => ps.iter().map(|p| PolicyModel {
            oid: p.policy_id.to_id_string(),
            qualifiers: p.policy_qualifiers.as_ref().map(|qs| qs.iter().map(|q| QualifierModel {
                oid: q.policy_qualifier_id.to_id_string(),
                raw: q.qualifier.to_vec(),
            }).collect()),
        }).collect(),
        _ => Vec::new(),
    }
}

/// How many access descriptions authority information access extension `i` has.
#[verifier::external_body]
pub(crate) fn access_count(c: &Certificate, i: usize) -> (r: usize)
    requires
        c.parsed(),
        i < c.contents().extensions.len(),
        c.ext(i as int).body is AuthorityInfoAccess,
    ensures
        r == c.accesses(i as int).len(),
{
    match c.cert.tbs_certificate.extensions()[i].parsed_extension() {
        ParsedExtension::AuthorityInfoAccess(a) => a.accessdescs.len(),
        _ => 0,
    }
}

/// The access method of access description `j` of extension `i`.
#[verifier::external_body]
pub(crate) fn access_method(c: &Certificate, i: usize, j: usize) -> (r: String)
    requires
        c.parsed(),
        i < c.contents().extensions.len(),
        c.ext(i as int).body is AuthorityInfoAccess,
        j < c.accesses(i as int).len(),
    ensures
        r@ == c.accesses(i as int)[j as int].method_oid,
{
    match c.cert.tbs_certificate.extensions()[i].parsed_extension() {
        ParsedExtension::AuthorityInfoAccess(a) => a.accessdescs[j].access_method.to_id_string(),
        _ => String::new(),
    }
}

/// The form of a general name; a directory name is read by the accessors below.
pub enum GeneralNameKind {
    Uri(String),
    Rfc822(String),
    Dns(String),
    Directory,
    Ip(Vec<u8>),
    Registered(String),
    Other,
}

/// A general name kind agrees with the contents of a general name.
pub open spec fn name_kind_agrees(k: GeneralNameKind, v: GeneralNameView) -> bool {
    match k {
        GeneralNameKind::Uri(s) => v == GeneralNameView::Uri(s@),
        GeneralNameKind::Rfc822(s) => v == GeneralNameView::Rfc822(s@),
        GeneralNameKind::Dns(s) => v == GeneralNameView::Dns(s@),
        GeneralNameKind::Directory => v is Directory,
        GeneralNameKind::Ip(b) => v == GeneralNameView::Ip(b@),
        GeneralNameKind::Registered(o) => v == GeneralNameView::Registered(o@),
        GeneralNameKind::Other => v == GeneralNameView::Other,
    }
}

/// The form of the access location of access description `j` of extension `i`.
#[verifier::external_body]
pub(crate) fn access_location_kind(c: &Certificate, i: usize, j: usize) -> (r: GeneralNameKind)
    requires
        c.parsed(),
        i < c.contents().extensions.len(),
        c.ext(i as int).body is AuthorityInfoAccess,
        j < c.accesses(i as int).len(),
    ensures
        name_kind_agrees(r, c.accesses(i as int)[j as int].location),
{
    let g = match c.cert.tbs_certificate.extensions()[i].parsed_extension() {
        ParsedExtension::AuthorityInfoAccess(a) => &a.accessdescs[j].access_location,
        _ => return GeneralNameKind::Other,
    };
    match g {
        GeneralName::URI(s) => GeneralNameKind::Uri(s.to_string()),
        GeneralName::RFC822Name(s) => GeneralNameKind::Rfc822(s.to_string()),
        GeneralName::DNSName(s) => GeneralNameKind::Dns(s.to_string()),
        GeneralName::DirectoryName(_) => GeneralNameKind::Directory,
        GeneralName::IPAddress(b) => GeneralNameKind::Ip(b.to_vec()),
        GeneralName::RegisteredID(o) => GeneralNameKind::Registered(o.to_id_string()),
        _ => GeneralNameKind::Other,
    }
}

/// The directory name that is the access location of access description `j` of extension `i`.
#[verifier::external_body]
pub(crate) fn access_location_rdns(c: &Certificate, i: usize, j: usize) -> (r: Vec<Vec<Attribute>>)
    requires
        c.parsed(),
        i < c.contents().extensions.len(),
        c.ext(i as int).body is AuthorityInfoAccess,
        j < c.accesses(i as int).len(),
        c.accesses(i as int)[j as int].location is Directory,
    ensures
        name_view(r@) == c.accesses(i as int)[j as int].location->Directory_0,
{
    match c.cert.tbs_certificate.extensions()[i].parsed_extension() {
        ParsedExtension::AuthorityInfoAccess(a) => match &a.accessdescs[j].access_location {
            GeneralName::DirectoryName(n) => n.iter().map(|rdn| rdn.iter().map(|a| Attribute {
                oid: a.attr_type().to_id_string(),
                text: a.as_str().ok().map(|s| s.to_string()),
                raw: a.as_slice().to_vec(),
            }).collect()).collect(),
            _ => Vec::new(),
        },
        _ => Vec::new(),
    }
}

/// How many distribution points CRL distribution points extension `i` has.
#[verifier::external_body]
pub(crate) fn point_count(c: &Certificate, i: usize) -> (r: usize)
    requires
        c.parsed(),
        i < c.contents().extensions.len(),
        c.ext(i as int).body is CrlDistributionPoints,
    ensures
        r == c.points(i as int).len(),
{
    match c.cert.tbs_certificate.extensions()[i].parsed_extension() {
        ParsedExtension::CRLDistributionPoints(ps) => ps.points.len(),
        _ => 0,
    }
}

/// The form of a distribution point's name: none, a full name of so many general names, or a
/// name relative to the CRL issuer.
pub enum PointKind {
    Unnamed,
    Full(usize),
    Relative,
}

/// A point kind agrees with the contents of a distribution point.
pub open spec fn point_kind_agrees(k: PointKind, d: DistributionPointView) -> bool {
    match k {
        PointKind::Unnamed => d == DistributionPointView::Unnamed,
        PointKind::Full(n) => d is FullName && d->FullName_0.len() == n,
        PointKind::Relative => d is RelativeToIssuer,
    }
}

/// The form of the name of distribution point `j` of extension `i`.
#[verifier::external_body]
pub(crate) fn point_kind(c: &Certificate, i: usize, j: usize) -> (r: PointKind)
    requires
        c.parsed(),
        i < c.contents().extensions.len(),
        c.ext(i as int).body is CrlDistributionPoints,
        j < c.points(i as int).len(),
    ensures
        point_kind_agrees(r, c.points(i as int)[j as int]),
{
    match c.cert.tbs_certificate.extensions()[i].parsed_extension() {
        ParsedExtension::CRLDistributionPoints(ps) => match &ps.points[j].distribution_point {
            None => PointKind::Unnamed,
            Some(DistributionPointName::FullName(ns)) => PointKind::Full(ns.len()),
            Some(DistributionPointName::NameRelativeToCRLIssuer(_)) => PointKind::Relative,
        },
        _ => PointKind::Unnamed,
    }
}

/// The attributes of the name relative to the CRL issuer of distribution point `j` of
/// extension `i`.
#[verifier::external_body]
pub(crate) fn point_relative(c: &Certificate, i: usize, j: usize) -> (r: Vec<Attribute>)
    requires
        c.parsed(),
        i < c.contents().extensions.len(),
        c.ext(i as int).body is CrlDistributionPoints,
        j < c.points(i as int).len(),
        c.points(i as int)[j as int] is RelativeToIssuer,
    ensures
        attributes_view(r@) == c.points(i as int)[j as int]->RelativeToIssuer_0,
{
    match c.cert.tbs_certificate.extensions()[i].parsed_extension() {
        ParsedExtension::CRLDistributionPoints(ps) => match &ps.points[j].distribution_point {
            Some(DistributionPointName::NameRelativeToCRLIssuer(r)) => r.iter().map(|a| Attribute {
                oid: a.attr_type().to_id_string(),
                text: a.as_str().ok().map(|s| s.to_string()),
                raw: a.as_slice().to_vec(),
            }).collect(),
            _ => Vec::new(),
        },
        _ => Vec::new(),
    }
}

/// The form of general name `k` of the full name of distribution point `j` of extension `i`.
#[verifier::external_body]
pub(crate) fn point_name_kind(c: &Certificate, i: usize, j: usize, k: usize) -> (r: GeneralNameKind)
    requires
        c.parsed(),
        i < c.contents().extensions.len(),
        c.ext(i as int).body is CrlDistributionPoints,
        j < c.points(i as int).len(),
        c.points(i as int)[j as int] is FullName,
        k < c.full_names(i as int, j as int).len(),
    ensures
        name_kind_agrees(r, c.full_names(i as int, j as int)[k as int]),
{
    let g = match c.cert.tbs_certificate.extensions()[i].parsed_extension() {
        ParsedExtension::CRLDistributionPoints(ps) => match &ps.points[j].distribution_point {
            Some(DistributionPointName::FullName(ns)) => &ns[k],
            _ => return GeneralNameKind::Other,
        }, _ => return GeneralNameKind::Other,
    };
    match g {
        GeneralName::URI(s) => GeneralNameKind::Uri(s.to_string()),
        GeneralName::RFC822Name(s) => GeneralNameKind::Rfc822(s.to_string()),
        GeneralName::DNSName(s) => GeneralNameKind::Dns(s.to_string()),
        GeneralName::DirectoryName(_) => GeneralNameKind::Directory,
        GeneralName::IPAddress(b) => GeneralNameKind::Ip(b.to_vec()),
        GeneralName::RegisteredID(o) => GeneralNameKind::Registered(o.to_id_string()),
        _ => GeneralNameKind::Other,
    }
}

/// The directory name that is general name `k` of the full name of distribution point `j` of
/// extension `i`.
#[verifier::external_body]
pub(crate) fn point_name_rdns(c: &Certificate, i: usize, j: usize, k: usize) -> (r: Vec<Vec<Attribute>>)
    requires
        c.parsed(),
        i < c.contents().extensions.len(),
        c.ext(i as int).body is CrlDistributionPoints,
        j < c.points(i as int).len(),
        c.points(i as int)[j as int] is FullName,
        k < c.full_names(i as int, j as int).len(),
        c.full_names(i as int, j as int)[k as int] is Directory,
    ensures
        name_view(r@) == c.full_names(i as int, j as int)[k as int]->Directory_0,
{
    match c.cert.tbs_certificate.extensions()[i].parsed_extension() {
        ParsedExtension::CRLDistributionPoints(ps) => match &ps.points[j].distribution_point {
            Some(DistributionPointName::FullName(ns)) => match &ns[k] {
                GeneralName::DirectoryName(n) => n.iter().map(|rdn| rdn.iter().map(|a| Attribute {
                    oid: a.attr_type().to_id_string(),
                    text: a.as_str().ok().map(|s| s.to_string()),
                    raw: a.as_slice().to_vec(),
                }).collect()).collect(),
                _ => Vec::new(),
            },
            _ => Vec::new(),
        },
        _ => Vec::new(),
    }
}

} // verus!
