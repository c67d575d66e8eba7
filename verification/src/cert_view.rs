use vstd::prelude::*;
use crate::json::JsonData;
use crate::cert_json::{
    AccessModel, Attribute, CertModel, DistributionPointModel, ExtensionBody, ExtensionModel,
    GeneralNameModel, PolicyModel, QualifierModel, SpkiFields, TimeFields, access_data,
    attribute_data, attributes_data, body_members, cert_data, distribution_point_data,
    extension_data, extensions_data, general_name_data, general_names_data, name_data,
    policy_data, qualifier_data, qualifiers_data, spki_data, tbs_data, decoded_data, attribute_text,
};

verus! {

// ---------------------------------------------------------------------------
// The contents of a certificate model
// ---------------------------------------------------------------------------

/// The contents of an [`Attribute`].
pub struct AttributeView {
    pub oid: Seq<char>,
    pub text: Option<Seq<char>>,
    pub raw: Seq<u8>,
}

/// The contents of a [`GeneralNameModel`].
pub enum GeneralNameView {
    Uri(Seq<char>),
    Rfc822(Seq<char>),
    Dns(Seq<char>),
    Directory(Seq<Seq<AttributeView>>),
    Ip(Seq<u8>),
    Registered(Seq<char>),
    Other,
}

/// The contents of a [`QualifierModel`].
pub struct QualifierView {
    pub oid: Seq<char>,
    pub raw: Seq<u8>,
}

/// The contents of a [`PolicyModel`].
pub struct PolicyView {
    pub oid: Seq<char>,
    pub qualifiers: Option<Seq<QualifierView>>,
}

/// The contents of an [`AccessModel`].
pub struct AccessView {
    pub method_oid: Seq<char>,
    pub location: GeneralNameView,
}

/// The contents of a [`DistributionPointModel`].
pub enum DistributionPointView {
    Unnamed,
    FullName(Seq<GeneralNameView>),
    RelativeToIssuer(Seq<AttributeView>),
}

/// The contents of an [`ExtensionBody`].
pub enum ExtensionBodyView {
    SubjectKeyIdentifier(Seq<u8>),
    AuthorityKeyIdentifier(Option<Seq<u8>>),
    KeyUsage(u16),
    BasicConstraints(bool, Option<u32>),
    ExtendedKeyUsage,
    CertificatePolicies(Seq<PolicyView>),
    AuthorityInfoAccess(Seq<AccessView>),
    CrlDistributionPoints(Seq<DistributionPointView>),
    Other,
}

/// The contents of an [`ExtensionModel`].
pub struct ExtensionView {
    pub oid: Seq<char>,
    pub critical: bool,
    pub value: Seq<u8>,
    pub body: ExtensionBodyView,
}

/// The contents of [`SpkiFields`].
pub struct SpkiView {
    pub algorithm_oid: Seq<char>,
    pub parameter_oid: Option<Seq<char>>,
    pub raw: Seq<u8>,
    pub key: Seq<u8>,
}

/// The contents of a [`CertModel`].
pub struct CertView {
    pub version: u32,
    pub raw_serial: Seq<u8>,
    pub tbs_signature_oid: Seq<char>,
    pub issuer: Seq<Seq<AttributeView>>,
    pub not_before: TimeFields,
    pub not_after: TimeFields,
    pub validity_days: i64,
    pub subject: Seq<Seq<AttributeView>>,
    pub spki: SpkiView,
    pub extensions: Seq<ExtensionView>,
    pub signature_oid: Seq<char>,
    pub signature_value: Seq<u8>,
}

pub open spec fn opt_chars(o: Option<String>) -> Option<Seq<char>> {
    match o {
        Some(s) => Some(s@),
        None => None,
    }
}

pub open spec fn attribute_view(a: Attribute) -> AttributeView {
    AttributeView { oid: a.oid@, text: opt_chars(a.text), raw: a.raw@ }
}

pub open spec fn attributes_view(s: Seq<Attribute>) -> Seq<AttributeView> {
    Seq::new(s.len(), |i: int| attribute_view(s[i]))
}

pub open spec fn name_view(n: Seq<Vec<Attribute>>) -> Seq<Seq<AttributeView>> {
    Seq::new(n.len(), |i: int| attributes_view(n[i]@))
}

pub open spec fn general_name_view(g: GeneralNameModel) -> GeneralNameView {
    match g {
        GeneralNameModel::Uri(s) => GeneralNameView::Uri(s@),
        GeneralNameModel::Rfc822(s) => GeneralNameView::Rfc822(s@),
        GeneralNameModel::Dns(s) => GeneralNameView::Dns(s@),
        GeneralNameModel::Directory(n) => GeneralNameView::Directory(name_view(n@)),
        GeneralNameModel::Ip(b) => GeneralNameView::Ip(b@),
        GeneralNameModel::Registered(o) => GeneralNameView::Registered(o@),
        GeneralNameModel::Other => GeneralNameView::Other,
    }
}

pub open spec fn general_names_view(gs: Seq<GeneralNameModel>) -> Seq<GeneralNameView> {
    Seq::new(gs.len(), |i: int| general_name_view(gs[i]))
}

pub open spec fn qualifier_view(q: QualifierModel) -> QualifierView {
    QualifierView { oid: q.oid@, raw: q.raw@ }
}

pub open spec fn qualifiers_view(qs: Seq<QualifierModel>) -> Seq<QualifierView> {
    Seq::new(qs.len(), |i: int| qualifier_view(qs[i]))
}

pub open spec fn policy_view(p: PolicyModel) -> PolicyView {
    PolicyView {
        oid: p.oid@,
        qualifiers: match p.qualifiers {
            Some(qs) => Some(qualifiers_view(qs@)),
            None => None,
        },
    }
}

pub open spec fn access_view(a: AccessModel) -> AccessView {
    AccessView { method_oid: a.method_oid@, location: general_name_view(a.location) }
}

pub open spec fn distribution_point_view(d: DistributionPointModel) -> DistributionPointView {
    match d {
        DistributionPointModel::Unnamed => DistributionPointView::Unnamed,
        DistributionPointModel::FullName(ns) => DistributionPointView::FullName(general_names_view(ns@)),
        DistributionPointModel::RelativeToIssuer(a) => DistributionPointView::RelativeToIssuer(attributes_view(a@)),
    }
}

pub open spec fn body_view(b: ExtensionBody) -> ExtensionBodyView {
    match b {
        ExtensionBody::SubjectKeyIdentifier(k) => ExtensionBodyView::SubjectKeyIdentifier(k@),
        ExtensionBody::AuthorityKeyIdentifier(k) => ExtensionBodyView::AuthorityKeyIdentifier(
            match k {
                Some(k) => Some(k@),
                None => None,
            },
        ),
        ExtensionBody::KeyUsage(f) => ExtensionBodyView::KeyUsage(f),
        ExtensionBody::BasicConstraints(ca, pl) => ExtensionBodyView::BasicConstraints(ca, pl),
        ExtensionBody::ExtendedKeyUsage => ExtensionBodyView::ExtendedKeyUsage,
        ExtensionBody::CertificatePolicies(ps) => ExtensionBodyView::CertificatePolicies(
            Seq::new(ps@.len(), |i: int| policy_view(ps@[i])),
        ),
        ExtensionBody::AuthorityInfoAccess(a) => ExtensionBodyView::AuthorityInfoAccess(
            Seq::new(a@.len(), |i: int| access_view(a@[i])),
        ),
        ExtensionBody::CrlDistributionPoints(d) => ExtensionBodyView::CrlDistributionPoints(
            Seq::new(d@.len(), |i: int| distribution_point_view(d@[i])),
        ),
        ExtensionBody::Other => ExtensionBodyView::Other,
    }
}

pub open spec fn extension_view(e: ExtensionModel) -> ExtensionView {
    ExtensionView { oid: e.oid@, critical: e.critical, value: e.value@, body: body_view(e.body) }
}

pub open spec fn extensions_view(es: Seq<ExtensionModel>) -> Seq<ExtensionView> {
    Seq::new(es.len(), |i: int| extension_view(es[i]))
}

pub open spec fn spki_view(s: SpkiFields) -> SpkiView {
    SpkiView { algorithm_oid: s.algorithm_oid@, parameter_oid: opt_chars(s.parameter_oid), raw: s.raw@, key: s.key@ }
}

pub open spec fn cert_view(c: CertModel) -> CertView {
    CertView {
        version: c.version,
        raw_serial: c.raw_serial@,
        tbs_signature_oid: c.tbs_signature_oid@,
        issuer: name_view(c.issuer@),
        not_before: c.not_before,
        not_after: c.not_after,
        validity_days: c.validity_days,
        subject: name_view(c.subject@),
        spki: spki_view(c.spki),
        extensions: extensions_view(c.extensions@),
        signature_oid: c.signature_oid@,
        signature_value: c.signature_value@,
    }
}

// ---------------------------------------------------------------------------
// The JSON form depends on the contents alone
// ---------------------------------------------------------------------------

proof fn lemma_attributes(a: Seq<Attribute>, b: Seq<Attribute>)
    requires
        attributes_view(a) == attributes_view(b),
    ensures
        attributes_data(a) == attributes_data(b),
{
    assert(a.len() == attributes_view(a).len());
    assert(b.len() == attributes_view(b).len());
    assert forall|i: int| 0 <= i < a.len() implies attribute_data(a[i]) == attribute_data(b[i]) by {
        assert(attributes_view(a)[i] == attributes_view(b)[i]);
        let x = a[i];
        let y = b[i];
        assert(attributes_view(a)[i] == attribute_view(x));
        assert(attributes_view(b)[i] == attribute_view(y));
        assert(attribute_view(x) == attribute_view(y));
        assert(x.oid@ == y.oid@);
        assert(x.raw@ == y.raw@);
        assert(opt_chars(x.text) == opt_chars(y.text));
        assert(attribute_text(x) == attribute_text(y));
    }
    assert(attributes_data(a)->Array_0 =~= attributes_data(b)->Array_0);
}

proof fn lemma_name(a: Seq<Vec<Attribute>>, b: Seq<Vec<Attribute>>)
    requires
        name_view(a) == name_view(b),
    ensures
        name_data(a) == name_data(b),
{
    assert(a.len() == name_view(a).len());
    assert(b.len() == name_view(b).len());
    assert forall|i: int| 0 <= i < a.len() implies attributes_data(a[i]@) == attributes_data(b[i]@) by {
        assert(name_view(a)[i] == name_view(b)[i]);
        lemma_attributes(a[i]@, b[i]@);
    }
    assert(name_data(a)->Array_0 =~= name_data(b)->Array_0);
}

proof fn lemma_general_name(a: GeneralNameModel, b: GeneralNameModel)
    requires
        general_name_view(a) == general_name_view(b),
    ensures
        general_name_data(a) == general_name_data(b),
{
    match (a, b) {
        (GeneralNameModel::Directory(x), GeneralNameModel::Directory(y)) => {
            lemma_name(x@, y@);
        },
        _ => {},
    }
}

proof fn lemma_general_names(a: Seq<GeneralNameModel>, b: Seq<GeneralNameModel>)
    requires
        general_names_view(a) == general_names_view(b),
    ensures
        general_names_data(a) == general_names_data(b),
{
    assert(a.len() == general_names_view(a).len());
    assert(b.len() == general_names_view(b).len());
    assert forall|i: int| 0 <= i < a.len() implies general_name_data(a[i]) == general_name_data(b[i]) by {
        assert(general_names_view(a)[i] == general_names_view(b)[i]);
        assert(general_names_view(a)[i] == general_name_view(a[i]));
        assert(general_names_view(b)[i] == general_name_view(b[i]));
        lemma_general_name(a[i], b[i]);
    }
    assert(general_names_data(a)->Array_0 =~= general_names_data(b)->Array_0);
}

proof fn lemma_policy(a: PolicyModel, b: PolicyModel)
    requires
        policy_view(a) == policy_view(b),
    ensures
        policy_data(a) == policy_data(b),
{
    match (a.qualifiers, b.qualifiers) {
        (Some(x), Some(y)) => {
            assert(x@.len() == qualifiers_view(x@).len());
            assert(y@.len() == qualifiers_view(y@).len());
            assert forall|i: int| 0 <= i < x@.len() implies qualifier_data(x@[i]) == qualifier_data(y@[i]) by {
                assert(qualifiers_view(x@)[i] == qualifiers_view(y@)[i]);
            }
            assert(qualifiers_data(x@)->Array_0 =~= qualifiers_data(y@)->Array_0);
        },
        _ => {},
    }
}

proof fn lemma_distribution_point(a: DistributionPointModel, b: DistributionPointModel)
    requires
        distribution_point_view(a) == distribution_point_view(b),
    ensures
        distribution_point_data(a) == distribution_point_data(b),
{
    match (a, b) {
        (DistributionPointModel::FullName(x), DistributionPointModel::FullName(y)) => {
            lemma_general_names(x@, y@);
        },
        (DistributionPointModel::RelativeToIssuer(x), DistributionPointModel::RelativeToIssuer(y)) => {
            lemma_attributes(x@, y@);
        },
        _ => {},
    }
}

proof fn lemma_body(oid: Seq<char>, value: Seq<u8>, a: ExtensionBody, b: ExtensionBody)
    requires
        body_view(a) == body_view(b),
    ensures
        body_members(oid, value, a) == body_members(oid, value, b),
{
    match (a, b) {
        (ExtensionBody::CertificatePolicies(x), ExtensionBody::CertificatePolicies(y)) => {
            let vx = Seq::new(x@.len(), |i: int| policy_view(x@[i]));
            let vy = Seq::new(y@.len(), |i: int| policy_view(y@[i]));
            assert(vx == vy);
            assert(x@.len() == vx.len());
            assert(y@.len() == vy.len());
            assert forall|i: int| 0 <= i < x@.len() implies policy_data(x@[i]) == policy_data(y@[i]) by {
                assert(vx[i] == vy[i]);
                lemma_policy(x@[i], y@[i]);
            }
            assert(Seq::new(x@.len(), |i: int| policy_data(x@[i])) =~= Seq::new(y@.len(), |i: int| policy_data(y@[i])));
        },
        (ExtensionBody::AuthorityInfoAccess(x), ExtensionBody::AuthorityInfoAccess(y)) => {
            let vx = Seq::new(x@.len(), |i: int| access_view(x@[i]));
            let vy = Seq::new(y@.len(), |i: int| access_view(y@[i]));
            assert(vx == vy);
            assert(x@.len() == vx.len());
            assert(y@.len() == vy.len());
            assert forall|i: int| 0 <= i < x@.len() implies access_data(x@[i]) == access_data(y@[i]) by {
                assert(vx[i] == vy[i]);
                lemma_general_name(x@[i].location, y@[i].location);
            }
            assert(Seq::new(x@.len(), |i: int| access_data(x@[i])) =~= Seq::new(y@.len(), |i: int| access_data(y@[i])));
        },
        (ExtensionBody::CrlDistributionPoints(x), ExtensionBody::CrlDistributionPoints(y)) => {
            let vx = Seq::new(x@.len(), |i: int| distribution_point_view(x@[i]));
            let vy = Seq::new(y@.len(), |i: int| distribution_point_view(y@[i]));
            assert(vx == vy);
            assert(x@.len() == vx.len());
            assert(y@.len() == vy.len());
            assert forall|i: int| 0 <= i < x@.len() implies distribution_point_data(x@[i]) == distribution_point_data(y@[i]) by {
                assert(vx[i] == vy[i]);
                lemma_distribution_point(x@[i], y@[i]);
            }
            assert(Seq::new(x@.len(), |i: int| distribution_point_data(x@[i])) =~= Seq::new(
                y@.len(),
                |i: int| distribution_point_data(y@[i]),
            ));
        },
        _ => {},
    }
}

proof fn lemma_extensions(a: Seq<ExtensionModel>, b: Seq<ExtensionModel>)
    requires
        extensions_view(a) == extensions_view(b),
    ensures
        extensions_data(a) == extensions_data(b),
{
    assert(a.len() == extensions_view(a).len());
    assert(b.len() == extensions_view(b).len());
    assert forall|i: int| 0 <= i < a.len() implies extension_data(a[i]) == extension_data(b[i]) by {
        assert(extensions_view(a)[i] == extensions_view(b)[i]);
        assert(extensions_view(a)[i] == extension_view(a[i]));
        assert(extensions_view(b)[i] == extension_view(b[i]));
        lemma_body(a[i].oid@, a[i].value@, a[i].body, b[i].body);
    }
    assert(extensions_data(a)->Array_0 =~= extensions_data(b)->Array_0);
}

/// The JSON form of a certificate depends only on the contents of its model: two models
/// with the same contents give the same JSON.
pub proof fn lemma_cert_data_by_view(a: CertModel, b: CertModel, der: Seq<u8>)
    requires
        cert_view(a) == cert_view(b),
    ensures
        cert_data(a, der) == cert_data(b, der),
{
    lemma_name(a.issuer@, b.issuer@);
    lemma_name(a.subject@, b.subject@);
    lemma_extensions(a.extensions@, b.extensions@);
    assert(spki_data(a.spki) == spki_data(b.spki));
    assert(a.extensions@.len() == extensions_view(a.extensions@).len());
    assert(b.extensions@.len() == extensions_view(b.extensions@).len());
    assert(a.raw_serial@ == b.raw_serial@);
    assert(a.tbs_signature_oid@ == b.tbs_signature_oid@);
    assert(tbs_data(a) == tbs_data(b));
    assert(decoded_data(a) == decoded_data(b));
}

/// The JSON form of certificate contents.
pub open spec fn cert_json(v: CertView, der: Seq<u8>) -> JsonData {
    cert_data(choose|m: CertModel| cert_view(m) == v, der)
}

/// The JSON form of a model is the JSON form of its contents.
pub proof fn lemma_cert_json(m: CertModel, der: Seq<u8>)
    ensures
        cert_data(m, der) == cert_json(cert_view(m), der),
{
    let v = cert_view(m);
    assert(exists|x: CertModel| cert_view(x) == v);
    let c = choose|x: CertModel| cert_view(x) == v;
    lemma_cert_data_by_view(m, c, der);
}

} // verus!
