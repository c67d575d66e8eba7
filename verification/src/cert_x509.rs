use vstd::prelude::*;
use der_parser::der::{parse_der, parse_der_sequence};
use crate::cert::{is_pem, pem_contents, pem_decode};
use crate::json::{JsonValue, json_text, json_to_string};
use crate::text::{push_str, to_owned_string};
use crate::validator::string_views;
use crate::cert_json::{
    serialize_cert,
    AccessModel, CertModel, DistributionPointModel, ExtensionBody, ExtensionModel,
    GeneralNameModel,
};
use crate::cert_view::{
    access_view, cert_json, cert_view, distribution_point_view, extension_view, extensions_view,
    general_name_view, general_names_view, lemma_cert_json,
};
use crate::x509::{
    Certificate, ExtensionKind, GeneralNameKind, PointKind, access_count, access_location_kind,
    access_location_rdns, access_method, extension_count, extension_header, extension_kind,
    issuer_rdns, parse_certificate, point_count, point_kind, point_name_kind,
    point_name_rdns, point_relative, policies, signature_fields, spki_fields, subject_rdns, tbs_fields,
    validity_days, validity_fields, x509_certificate,
};

verus! {

// ---------------------------------------------------------------------------
// DER values
// ---------------------------------------------------------------------------

/// What one DER value is: its tag and, where it has one, its value as an object identifier,
/// text, boolean or 64-bit integer.
pub struct DerFacts {
    pub tag: u32,
    pub oid: Option<String>,
    pub text: Option<String>,
    pub boolean: Option<bool>,
    pub integer: Option<i64>,
}

/// The contents of a [`DerFacts`].
pub struct DerFactsView {
    pub tag: u32,
    pub oid: Option<Seq<char>>,
    pub text: Option<Seq<char>>,
    pub boolean: Option<bool>,
    pub integer: Option<i64>,
}

/// What one item of a DER sequence is: an object identifier, an unsigned integer of any size
/// (its bit length and lower-case hex digits), or an unsigned 64-bit integer.
pub struct DerItem {
    pub oid: Option<String>,
    pub big: Option<(u64, String)>,
    pub small: Option<u64>,
}

/// The contents of a [`DerItem`].
pub struct DerItemView {
    pub oid: Option<Seq<char>>,
    pub big: Option<(u64, Seq<char>)>,
    pub small: Option<u64>,
}

pub open spec fn opt_str_seq(o: Option<String>) -> Option<Seq<char>> {
    match o {
        Some(s) => Some(s@),
        None => None,
    }
}

pub open spec fn facts_view(f: DerFacts) -> DerFactsView {
    DerFactsView { tag: f.tag, oid: opt_str_seq(f.oid), text: opt_str_seq(f.text), boolean: f.boolean, integer: f.integer }
}

pub open spec fn item_view(i: DerItem) -> DerItemView {
    DerItemView {
        oid: opt_str_seq(i.oid),
        big: match i.big {
            Some((bits, hex)) => Some((bits, hex@)),
            None => None,
        },
        small: i.small,
    }
}

pub open spec fn items_view(items: Seq<DerItem>) -> Seq<DerItemView> {
    Seq::new(items.len(), |k: int| item_view(items[k]))
}

/// What `der_parser::der::parse_der` makes of bytes: the first DER value they hold, read as
/// [`DerFacts`], or `None` when they hold none.
pub uninterp spec fn der_object_facts(bytes: Seq<u8>) -> Option<DerFactsView>;

/// What `der_parser::der::parse_der_sequence` makes of bytes: the items of the DER sequence
/// they start with, or `None` when they do not start with one.
pub uninterp spec fn der_sequence_items(bytes: Seq<u8>) -> Option<Seq<DerItemView>>;

/// `parse_der`, the value read through `as_oid`, `as_str`, `as_bool` and `as_i64`.
#[verifier::external_body]
pub(crate) fn der_object(bytes: &[u8]) -> (r: Option<DerFacts>)
    ensures
        match r {
            Some(f) => der_object_facts(bytes@) == Some(facts_view(f)),
            None => der_object_facts(bytes@) is None,
        },
{
    match parse_der(bytes) {
        Ok((_, o)) => Some(DerFacts {
            tag: o.tag().0,
            oid: o.as_oid().ok().map(|x| x.to_id_string()),
            text: o.as_str().ok().map(|s| s.to_string()),
            boolean: o.as_bool().ok(),
            integer: o.as_i64().ok(),
        }),
        Err(_) => None,
    }
}

/// `parse_der_sequence` and `as_sequence`, each item read through `as_oid`, `as_biguint`
/// (`bits`, `to_str_radix(16)`) and `as_u64`.
#[verifier::external_body]
pub(crate) fn der_sequence(bytes: &[u8]) -> (r: Option<Vec<DerItem>>)
    ensures
        match r {
            Some(v) => der_sequence_items(bytes@) == Some(items_view(v@)),
            None => der_sequence_items(bytes@) is None,
        },
{
    match parse_der_sequence(bytes) {
        Ok((_, o)) => o.as_sequence().ok().map(|items| items.iter().map(|i| DerItem {
            oid: i.as_oid().ok().map(|x| x.to_id_string()),
            big: i.as_biguint().ok().map(|n| (n.bits(), n.to_str_radix(16))),
            small: i.as_u64().ok(),
        }).collect()),
        Err(_) => None,
    }
}

// ---------------------------------------------------------------------------
// Reading a certificate into plain values
// ---------------------------------------------------------------------------

/// General name `j` of the access descriptions of extension `i`.
fn access_name_model(c: &Certificate, i: usize, j: usize) -> (r: GeneralNameModel)
    requires
        c.parsed(),
        i < c.contents().extensions.len(),
        c.ext(i as int).body is AuthorityInfoAccess,
        j < c.accesses(i as int).len(),
    ensures
        general_name_view(r) == c.accesses(i as int)[j as int].location,
{
    match access_location_kind(c, i, j) {
        GeneralNameKind::Uri(s) => GeneralNameModel::Uri(s),
        GeneralNameKind::Rfc822(s) => GeneralNameModel::Rfc822(s),
        GeneralNameKind::Dns(s) => GeneralNameModel::Dns(s),
        GeneralNameKind::Directory => GeneralNameModel::Directory(access_location_rdns(c, i, j)),
        GeneralNameKind::Ip(b) => GeneralNameModel::Ip(b),
        GeneralNameKind::Registered(o) => GeneralNameModel::Registered(o),
        GeneralNameKind::Other => GeneralNameModel::Other,
    }
}

/// General name `k` of the full name of distribution point `j` of extension `i`.
fn point_name_model(c: &Certificate, i: usize, j: usize, k: usize) -> (r: GeneralNameModel)
    requires
        c.parsed(),
        i < c.contents().extensions.len(),
        c.ext(i as int).body is CrlDistributionPoints,
        j < c.points(i as int).len(),
        c.points(i as int)[j as int] is FullName,
        k < c.full_names(i as int, j as int).len(),
    ensures
        general_name_view(r) == c.full_names(i as int, j as int)[k as int],
{
    match point_name_kind(c, i, j, k) {
        GeneralNameKind::Uri(s) => GeneralNameModel::Uri(s),
        GeneralNameKind::Rfc822(s) => GeneralNameModel::Rfc822(s),
        GeneralNameKind::Dns(s) => GeneralNameModel::Dns(s),
        GeneralNameKind::Directory => GeneralNameModel::Directory(point_name_rdns(c, i, j, k)),
        GeneralNameKind::Ip(b) => GeneralNameModel::Ip(b),
        GeneralNameKind::Registered(o) => GeneralNameModel::Registered(o),
        GeneralNameKind::Other => GeneralNameModel::Other,
    }
}

/// The access descriptions of authority information access extension `i`.
fn access_models(c: &Certificate, i: usize) -> (r: Vec<AccessModel>)
    requires
        c.parsed(),
        i < c.contents().extensions.len(),
        c.ext(i as int).body is AuthorityInfoAccess,
    ensures
        Seq::new(r@.len(), |k: int| access_view(r@[k])) == c.accesses(i as int),
{
    let n = access_count(c, i);
    let mut out: Vec<AccessModel> = Vec::new();
    let mut j: usize = 0;
    while j < n
        invariant
            c.parsed(),
            i < c.contents().extensions.len(),
            c.ext(i as int).body is AuthorityInfoAccess,
            n == c.accesses(i as int).len(),
            j <= n,
            out@.len() == j,
            forall|k: int| 0 <= k < j ==> #[trigger] access_view(out@[k]) == c.accesses(i as int)[k],
        decreases n - j,
    {
        let method_oid = access_method(c, i, j);
        let location = access_name_model(c, i, j);
        out.push(AccessModel { method_oid, location });
        j = j + 1;
    }
    assert(Seq::new(out@.len(), |k: int| access_view(out@[k])) =~= c.accesses(i as int));
    out
}

/// The full name of distribution point `j` of extension `i`, of `n` general names.
fn point_full_name(c: &Certificate, i: usize, j: usize, n: usize) -> (r: Vec<GeneralNameModel>)
    requires
        c.parsed(),
        i < c.contents().extensions.len(),
        c.ext(i as int).body is CrlDistributionPoints,
        j < c.points(i as int).len(),
        c.points(i as int)[j as int] is FullName,
        n == c.full_names(i as int, j as int).len(),
    ensures
        general_names_view(r@) == c.full_names(i as int, j as int),
{
    let mut out: Vec<GeneralNameModel> = Vec::new();
    let mut k: usize = 0;
    while k < n
        invariant
            c.parsed(),
            i < c.contents().extensions.len(),
            c.ext(i as int).body is CrlDistributionPoints,
            j < c.points(i as int).len(),
            c.points(i as int)[j as int] is FullName,
            n == c.full_names(i as int, j as int).len(),
            k <= n,
            out@.len() == k,
            forall|x: int| 0 <= x < k ==> #[trigger] general_name_view(out@[x]) == c.full_names(i as int, j as int)[x],
        decreases n - k,
    {
        out.push(point_name_model(c, i, j, k));
        k = k + 1;
    }
    assert(general_names_view(out@) =~= c.full_names(i as int, j as int));
    out
}

/// The distribution points of CRL distribution points extension `i`.
fn distribution_point_models(c: &Certificate, i: usize) -> (r: Vec<DistributionPointModel>)
    requires
        c.parsed(),
        i < c.contents().extensions.len(),
        c.ext(i as int).body is CrlDistributionPoints,
    ensures
        Seq::new(r@.len(), |k: int| distribution_point_view(r@[k])) == c.points(i as int),
{
    let n = point_count(c, i);
    let mut out: Vec<DistributionPointModel> = Vec::new();
    let mut j: usize = 0;
    while j < n
        invariant
            c.parsed(),
            i < c.contents().extensions.len(),
            c.ext(i as int).body is CrlDistributionPoints,
            n == c.points(i as int).len(),
            j <= n,
            out@.len() == j,
            forall|k: int| 0 <= k < j ==> #[trigger] distribution_point_view(out@[k]) == c.points(i as int)[k],
        decreases n - j,
    {
        let d = match point_kind(c, i, j) {
            PointKind::Unnamed => DistributionPointModel::Unnamed,
            PointKind::Full(m) => DistributionPointModel::FullName(point_full_name(c, i, j, m)),
            PointKind::Relative => DistributionPointModel::RelativeToIssuer(point_relative(c, i, j)),
        };
        out.push(d);
        j = j + 1;
    }
    assert(Seq::new(out@.len(), |k: int| distribution_point_view(out@[k])) =~= c.points(i as int));
    out
}

/// Extension `i` as plain values.
fn extension_model(c: &Certificate, i: usize) -> (r: ExtensionModel)
    requires
        c.parsed(),
        i < c.contents().extensions.len(),
    ensures
        extension_view(r) == c.ext(i as int),
{
    let (oid, critical, value) = extension_header(c, i);
    let body = match extension_kind(c, i) {
        ExtensionKind::SubjectKeyIdentifier(k) => ExtensionBody::SubjectKeyIdentifier(k),
        ExtensionKind::AuthorityKeyIdentifier(k) => ExtensionBody::AuthorityKeyIdentifier(k),
        ExtensionKind::KeyUsage(flags) => ExtensionBody::KeyUsage(flags),
        ExtensionKind::BasicConstraints(ca, path_len) => ExtensionBody::BasicConstraints(ca, path_len),
        ExtensionKind::ExtendedKeyUsage => ExtensionBody::ExtendedKeyUsage,
        ExtensionKind::CertificatePolicies => ExtensionBody::CertificatePolicies(policies(c, i)),
        ExtensionKind::AuthorityInfoAccess => ExtensionBody::AuthorityInfoAccess(access_models(c, i)),
        ExtensionKind::CrlDistributionPoints => ExtensionBody::CrlDistributionPoints(distribution_point_models(c, i)),
        ExtensionKind::Other => ExtensionBody::Other,
    };
    ExtensionModel { oid, critical, value, body }
}

/// The certificate as plain values: the model whose contents are what x509-parser reads.
fn certificate_model(c: &Certificate) -> (r: CertModel)
    requires
        c.parsed(),
    ensures
        cert_view(r) == c.contents(),
{
    let (version, raw_serial, tbs_signature_oid) = tbs_fields(c);
    let (signature_oid, signature_value) = signature_fields(c);
    let (not_before, not_after) = validity_fields(c);
    let validity_days = validity_days(c);
    let n = extension_count(c);
    let mut extensions: Vec<ExtensionModel> = Vec::new();
    let mut i: usize = 0;
    while i < n
        invariant
            c.parsed(),
            n == c.contents().extensions.len(),
            i <= n,
            extensions@.len() == i,
            forall|k: int| 0 <= k < i ==> #[trigger] extension_view(extensions@[k]) == c.ext(k),
        decreases n - i,
    {
        extensions.push(extension_model(c, i));
        i = i + 1;
    }
    let r = CertModel {
        version,
        raw_serial,
        tbs_signature_oid,
        issuer: issuer_rdns(c),
        not_before,
        not_after,
        validity_days,
        subject: subject_rdns(c),
        spki: spki_fields(c),
        extensions,
        signature_oid,
        signature_value,
    };
    assert(extensions_view(r.extensions@) =~= c.contents().extensions);
    r
}

// ---------------------------------------------------------------------------
// Certificates to JSON
// ---------------------------------------------------------------------------

/// Why a certificate cannot be turned into JSON, or checked against a schema.
#[derive(Debug)]
pub enum CertError {
    /// The data starts like PEM but holds no well-formed PEM block.
    Pem,
    /// The DER bytes are not an X.509 certificate; the parser's message.
    X509(String),
    /// The schema is not a usable JSON schema; the validator's message.
    Schema(String),
}

pub open spec fn cert_error_message(e: CertError) -> Seq<char> {
    match e {
        CertError::Pem => "failed to parse PEM"@,
        CertError::X509(m) => "failed to parse X.509 certificate: "@ + m@,
        CertError::Schema(m) => "invalid JSON schema: "@ + m@,
    }
}

impl CertError {
    /// The message shown for the error.
    pub fn message(&self) -> (r: String)
        ensures
            r@ == cert_error_message(*self),
    {
        match self {
            CertError::Pem => to_owned_string("failed to parse PEM"),
            CertError::X509(m) => {
                let mut s = to_owned_string("failed to parse X.509 certificate: ");
                push_str(&mut s, m.as_str());
                s
            },
            CertError::Schema(m) => {
                let mut s = to_owned_string("invalid JSON schema: ");
                push_str(&mut s, m.as_str());
                s
            },
        }
    }
}

/// The DER bytes of certificate data: the contents of its PEM block when it is PEM, else the
/// data itself; `None` for PEM data without a well-formed block.
pub open spec fn der_of(data: Seq<u8>) -> Option<Seq<u8>> {
    if is_pem(data) {
        pem_contents(data)
    } else {
        Some(data)
    }
}

/// The JSON form of a PEM or DER certificate that the C2PA certificate profile schemas
/// check: format, the decoded certificate, and the DER bytes in hex.
pub fn cert_to_json(data: &[u8]) -> (r: Result<JsonValue, CertError>)
    ensures
        der_of(data@) is None <==> r matches Err(CertError::Pem),
        der_of(data@) matches Some(d) ==> (r is Ok <==> x509_certificate(d) is Some),
        r matches Ok(v) ==> v.data() == cert_json(
            x509_certificate(der_of(data@).unwrap()).unwrap(),
            der_of(data@).unwrap(),
        ),
        r matches Err(e) ==> (e is Pem || e is X509),
{
    let der: Vec<u8> = if crate::cert::looks_like_pem(data) {
        match pem_decode(data) {
            Some(d) => d,
            None => {
                return Err(CertError::Pem);
            },
        }
    } else {
        vstd::slice::slice_to_vec(data)
    };
    assert(der_of(data@) == Some(der@));
    match parse_certificate(der.as_slice()) {
        Ok(c) => {
            let m = certificate_model(&c);
            let v = serialize_cert(&m, der.as_slice());
            proof {
                lemma_cert_json(m, der@);
            }
            Ok(v)
        },
        Err(e) => Err(CertError::X509(e)),
    }
}

/// What `jsonschema` finds when the JSON text `instance` is checked against the JSON schema
/// text `schema`: each violation's instance path and message, in the order
/// `Validator::iter_errors` reports them; or the message for a schema it refuses.
pub uninterp spec fn schema_violations(instance: Seq<char>, schema: Seq<char>) -> Result<Seq<(Seq<char>, Seq<char>)>, Seq<char>>;

pub open spec fn pairs_view(v: Seq<(String, String)>) -> Seq<(Seq<char>, Seq<char>)> {
    Seq::new(v.len(), |i: int| (v[i].0@, v[i].1@))
}

/// `serde_json::from_str` on both texts, `jsonschema::validator_for` on the schema, and
/// `Validator::iter_errors` on the instance; each error as its instance path and message.
#[verifier::external_body]
fn check_against_schema(instance: &str, schema: &str) -> (r: Result<Vec<(String, String)>, String>)
    ensures
        match r {
            Ok(v) => schema_violations(instance@, schema@) == Ok::<Seq<(Seq<char>, Seq<char>)>, Seq<char>>(pairs_view(v@)),
            Err(e) => schema_violations(instance@, schema@) == Err::<Seq<(Seq<char>, Seq<char>)>, Seq<char>>(e@),
        },
{
    let i: serde_json::Value = serde_json::from_str(instance).map_err(|e| e.to_string())?;
    let s: serde_json::Value = serde_json::from_str(schema).map_err(|e| e.to_string())?;
    let v = jsonschema::validator_for(&s).map_err(|e| e.to_string())?;
    let errors = v.iter_errors(&i).map(|e| (e.instance_path().to_string(), e.to_string())).collect();
    Ok(errors)
}

/// A violation as reported: its message, after its instance path when the path is not empty.
pub open spec fn violation_text(path: Seq<char>, message: Seq<char>) -> Seq<char> {
    if path.len() == 0 {
        message
    } else {
        path + ": "@ + message
    }
}

pub open spec fn violation_texts(v: Seq<(Seq<char>, Seq<char>)>) -> Seq<Seq<char>> {
    Seq::new(v.len(), |i: int| violation_text(v[i].0, v[i].1))
}

/// Checks a certificate's JSON against a JSON schema: the violations, each as its message
/// after its instance path; an error when the schema cannot be used.
pub fn validate_cert_json(cert_json: &JsonValue, schema_json: &JsonValue) -> (r: Result<Vec<String>, CertError>)
    ensures
        match schema_violations(json_text(cert_json.data()), json_text(schema_json.data())) {
            Ok(v) => r matches Ok(errors) && string_views(errors@) == violation_texts(v),
            Err(m) => r matches Err(CertError::Schema(e)) && e@ == m,
        },
{
    let instance = json_to_string(cert_json);
    let schema = json_to_string(schema_json);
    match check_against_schema(instance.as_str(), schema.as_str()) {
        Ok(pairs) => {
            let ghost pv = pairs_view(pairs@);
            let mut errors: Vec<String> = Vec::new();
            let mut i: usize = 0;
            while i < pairs.len()
                invariant
                    i <= pairs@.len(),
                    pv == pairs_view(pairs@),
                    errors@.len() == i,
                    forall|k: int| 0 <= k < i ==> #[trigger] errors@[k]@ == violation_text(pv[k].0, pv[k].1),
                decreases pairs@.len() - i,
            {
                let path = pairs[i].0.as_str();
                let msg = pairs[i].1.as_str();
                let text = if path.unicode_len() == 0 {
                    to_owned_string(msg)
                } else {
                    let mut t = to_owned_string(path);
                    push_str(&mut t, ": ");
                    push_str(&mut t, msg);
                    t
                };
                errors.push(text);
                i = i + 1;
            }
            assert(string_views(errors@) =~= violation_texts(pv));
            Ok(errors)
        },
        Err(e) => Err(CertError::Schema(e)),
    }
}

} // verus!
