use vstd::prelude::*;
use crate::cert::{algorithm_name, algorithm_name_of, hex_encode, hex_of, oid_name, oid_name_of};
use crate::json::{
    JsonData, JsonValue, array_of, datas, member, members_data, object_of, string_of,
};
use crate::cert_x509::{
    DerItemView, der_object, der_object_facts, der_sequence, der_sequence_items,
    item_view, items_view, DerFacts, DerFactsView, facts_view,
};
use crate::text::{
    decimal, decimal_string_u64, push_str, signed_decimal, signed_decimal_string, str_eq,
    to_owned_string, zero_padded, zero_padded_string,
};

verus! {

// ---------------------------------------------------------------------------
// The certificate as plain values
// ---------------------------------------------------------------------------

/// One attribute of a distinguished name: its type, its value as text when it is text, and
/// its raw value bytes.
pub struct Attribute {
    pub oid: String,
    pub text: Option<String>,
    pub raw: Vec<u8>,
}

/// A point in time, in UTC.
pub struct TimeFields {
    pub year: i32,
    pub month: u8,
    pub day: u8,
    pub hour: u8,
    pub minute: u8,
    pub second: u8,
}

/// A general name (RFC 5280): the forms that are reported, and any other.
pub enum GeneralNameModel {
    Uri(String),
    Rfc822(String),
    Dns(String),
    Directory(Vec<Vec<Attribute>>),
    Ip(Vec<u8>),
    Registered(String),
    Other,
}

// ---------------------------------------------------------------------------
// Small JSON pieces
// ---------------------------------------------------------------------------

/// An identifier with its name.
pub open spec fn oid_ref_data(oid: Seq<char>) -> JsonData {
    JsonData::Object(seq![("oid"@, JsonData::Str(oid)), ("name"@, JsonData::Str(oid_name_of(oid)))])
}

pub fn oid_ref_value(oid: &str) -> (r: JsonValue)
    ensures
        r.data() == oid_ref_data(oid@),
{
    let mut m: Vec<(String, JsonValue)> = Vec::new();
    m.push(member("oid", string_of(oid)));
    m.push(member("name", JsonValue::String(oid_name(oid))));
    let r = object_of(m);
    assert(members_data(m@) =~= oid_ref_data(oid@)->Object_0);
    r
}

/// An algorithm identifier with its name.
pub open spec fn algorithm_id_data(oid: Seq<char>) -> JsonData {
    JsonData::Object(
        seq![
            (
                "algorithm"@,
                JsonData::Object(
                    seq![("oid"@, JsonData::Str(oid)), ("name"@, JsonData::Str(algorithm_name_of(oid)))],
                ),
            ),
        ],
    )
}

pub fn algorithm_id_value(oid: &str) -> (r: JsonValue)
    ensures
        r.data() == algorithm_id_data(oid@),
{
    let mut inner: Vec<(String, JsonValue)> = Vec::new();
    inner.push(member("oid", string_of(oid)));
    inner.push(member("name", JsonValue::String(algorithm_name(oid))));
    let a = object_of(inner);
    let mut outer: Vec<(String, JsonValue)> = Vec::new();
    outer.push(member("algorithm", a));
    let r = object_of(outer);
    assert(members_data(inner@) =~= algorithm_id_data(oid@)->Object_0[0].1->Object_0);
    assert(members_data(outer@) =~= algorithm_id_data(oid@)->Object_0);
    r
}

pub fn hex_value(bytes: &[u8]) -> (r: JsonValue)
    ensures
        r.data() == JsonData::Str(hex_of(bytes@)),
{
    JsonValue::String(hex_encode(bytes))
}

// ---------------------------------------------------------------------------
// Names
// ---------------------------------------------------------------------------

/// An attribute's value as reported: its text, or `(hex)` and its bytes in hex.
pub open spec fn attribute_text(a: Attribute) -> Seq<char> {
    match a.text {
        Some(t) => t@,
        None => "(hex)"@ + hex_of(a.raw@),
    }
}

pub open spec fn attribute_data(a: Attribute) -> JsonData {
    JsonData::Object(seq![("type"@, oid_ref_data(a.oid@)), ("value"@, JsonData::Str(attribute_text(a)))])
}

pub open spec fn attributes_data(atvs: Seq<Attribute>) -> JsonData {
    JsonData::Array(Seq::new(atvs.len(), |i: int| attribute_data(atvs[i])))
}

/// A distinguished name: its relative names in order, each the list of its attributes.
pub open spec fn name_data(rdns: Seq<Vec<Attribute>>) -> JsonData {
    JsonData::Array(Seq::new(rdns.len(), |i: int| attributes_data(rdns[i]@)))
}

pub fn attribute_value(a: &Attribute) -> (r: JsonValue)
    ensures
        r.data() == attribute_data(*a),
{
    let text = match &a.text {
        Some(t) => to_owned_string(t.as_str()),
        None => {
            let mut s = to_owned_string("(hex)");
            let h = hex_encode(a.raw.as_slice());
            push_str(&mut s, h.as_str());
            s
        },
    };
    let mut m: Vec<(String, JsonValue)> = Vec::new();
    m.push(member("type", oid_ref_value(a.oid.as_str())));
    m.push(member("value", JsonValue::String(text)));
    let r = object_of(m);
    assert(members_data(m@) =~= attribute_data(*a)->Object_0);
    r
}

pub fn attributes_value(atvs: &Vec<Attribute>) -> (r: JsonValue)
    ensures
        r.data() == attributes_data(atvs@),
{
    let mut items: Vec<JsonValue> = Vec::new();
    let mut i: usize = 0;
    while i < atvs.len()
        invariant
            i <= atvs@.len(),
            items@.len() == i,
            forall|k: int| 0 <= k < i ==> #[trigger] items@[k].data() == attribute_data(atvs@[k]),
        decreases atvs@.len() - i,
    {
        items.push(attribute_value(&atvs[i]));
        i = i + 1;
    }
    let r = array_of(items);
    assert(datas(items@) =~= attributes_data(atvs@)->Array_0);
    r
}

pub fn name_value(rdns: &Vec<Vec<Attribute>>) -> (r: JsonValue)
    ensures
        r.data() == name_data(rdns@),
{
    let mut items: Vec<JsonValue> = Vec::new();
    let mut i: usize = 0;
    while i < rdns.len()
        invariant
            i <= rdns@.len(),
            items@.len() == i,
            forall|k: int| 0 <= k < i ==> #[trigger] items@[k].data() == attributes_data(rdns@[k]@),
        decreases rdns@.len() - i,
    {
        items.push(attributes_value(&rdns[i]));
        i = i + 1;
    }
    let r = array_of(items);
    assert(datas(items@) =~= name_data(rdns@)->Array_0);
    r
}

// ---------------------------------------------------------------------------
// Validity
// ---------------------------------------------------------------------------

/// A year with at least four digits, as `{:04}` writes it.
pub open spec fn year_text(y: int) -> Seq<char> {
    if y < 0 {
        "-"@ + zero_padded((-y) as nat, 3)
    } else {
        zero_padded(y as nat, 4)
    }
}

/// RFC 3339 text of a time in UTC.
pub open spec fn time_text(t: TimeFields) -> Seq<char> {
    year_text(t.year as int) + "-"@ + zero_padded(t.month as nat, 2) + "-"@ + zero_padded(t.day as nat, 2)
        + "T"@ + zero_padded(t.hour as nat, 2) + ":"@ + zero_padded(t.minute as nat, 2) + ":"@
        + zero_padded(t.second as nat, 2) + "+00:00"@
}

/// Times before 2050 are encoded as UTCTime, later ones as GeneralizedTime (RFC 5280).
pub open spec fn time_encoding(t: TimeFields) -> Seq<char> {
    if t.year < 2050 {
        "UTCTime"@
    } else {
        "GeneralizedTime"@
    }
}

pub open spec fn time_data(t: TimeFields) -> JsonData {
    JsonData::Object(
        seq![("_encoding"@, JsonData::Str(time_encoding(t))), ("value"@, JsonData::Str(time_text(t)))],
    )
}

pub open spec fn validity_data(not_before: TimeFields, not_after: TimeFields, days: i64) -> JsonData {
    JsonData::Object(
        seq![
            ("notBefore"@, time_data(not_before)),
            ("notAfter"@, time_data(not_after)),
            ("computedValidityDays"@, JsonData::Number(signed_decimal(days as int))),
        ],
    )
}

fn year_string(y: i32) -> (r: String)
    ensures
        r@ == year_text(y as int),
{
    if y < 0 {
        let mut s = to_owned_string("-");
        let m: i64 = -(y as i64);
        let d = zero_padded_string(m as u64, 3);
        push_str(&mut s, d.as_str());
        s
    } else {
        zero_padded_string(y as u64, 4)
    }
}

pub fn time_string(t: &TimeFields) -> (r: String)
    ensures
        r@ == time_text(*t),
{
    let mut s = year_string(t.year);
    push_str(&mut s, "-");
    let p = zero_padded_string(t.month as u64, 2);
    push_str(&mut s, p.as_str());
    push_str(&mut s, "-");
    let p = zero_padded_string(t.day as u64, 2);
    push_str(&mut s, p.as_str());
    push_str(&mut s, "T");
    let p = zero_padded_string(t.hour as u64, 2);
    push_str(&mut s, p.as_str());
    push_str(&mut s, ":");
    let p = zero_padded_string(t.minute as u64, 2);
    push_str(&mut s, p.as_str());
    push_str(&mut s, ":");
    let p = zero_padded_string(t.second as u64, 2);
    push_str(&mut s, p.as_str());
    push_str(&mut s, "+00:00");
    s
}

pub fn time_value(t: &TimeFields) -> (r: JsonValue)
    ensures
        r.data() == time_data(*t),
{
    let enc = if t.year < 2050 { "UTCTime" } else { "GeneralizedTime" };
    let mut m: Vec<(String, JsonValue)> = Vec::new();
    m.push(member("_encoding", string_of(enc)));
    m.push(member("value", JsonValue::String(time_string(t))));
    let r = object_of(m);
    assert(members_data(m@) =~= time_data(*t)->Object_0);
    r
}

pub fn validity_value(not_before: &TimeFields, not_after: &TimeFields, days: i64) -> (r: JsonValue)
    ensures
        r.data() == validity_data(*not_before, *not_after, days),
{
    let mut m: Vec<(String, JsonValue)> = Vec::new();
    m.push(member("notBefore", time_value(not_before)));
    m.push(member("notAfter", time_value(not_after)));
    m.push(member("computedValidityDays", JsonValue::Number(signed_decimal_string(days))));
    let r = object_of(m);
    assert(members_data(m@) =~= validity_data(*not_before, *not_after, days)->Object_0);
    r
}

// ---------------------------------------------------------------------------
// General names
// ---------------------------------------------------------------------------

pub open spec fn typed_data(t: Seq<char>, v: JsonData) -> JsonData {
    JsonData::Object(seq![("_type"@, JsonData::Str(t)), ("value"@, v)])
}

pub open spec fn general_name_data(g: GeneralNameModel) -> JsonData {
    match g {
        GeneralNameModel::Uri(s) => typed_data("uniformResourceIdentifier"@, JsonData::Str(s@)),
        GeneralNameModel::Rfc822(s) => typed_data("rfc822Name"@, JsonData::Str(s@)),
        GeneralNameModel::Dns(s) => typed_data("dNSName"@, JsonData::Str(s@)),
        GeneralNameModel::Directory(n) => typed_data("directoryName"@, name_data(n@)),
        GeneralNameModel::Ip(b) => typed_data("iPAddress"@, JsonData::Str(hex_of(b@))),
        GeneralNameModel::Registered(o) => typed_data("registeredID"@, JsonData::Str(o@)),
        GeneralNameModel::Other => JsonData::Object(seq![("_type"@, JsonData::Str("UNKNOWN"@))]),
    }
}

pub open spec fn general_names_data(gs: Seq<GeneralNameModel>) -> JsonData {
    JsonData::Array(Seq::new(gs.len(), |i: int| general_name_data(gs[i])))
}

fn typed_value(t: &str, v: JsonValue) -> (r: JsonValue)
    ensures
        r.data() == typed_data(t@, v.data()),
{
    let ghost vd = v.data();
    let mut m: Vec<(String, JsonValue)> = Vec::new();
    m.push(member("_type", string_of(t)));
    m.push(member("value", v));
    let r = object_of(m);
    assert(members_data(m@) =~= typed_data(t@, vd)->Object_0);
    r
}

pub fn general_name_value(g: &GeneralNameModel) -> (r: JsonValue)
    ensures
        r.data() == general_name_data(*g),
{
    match g {
        GeneralNameModel::Uri(s) => typed_value("uniformResourceIdentifier", string_of(s.as_str())),
        GeneralNameModel::Rfc822(s) => typed_value("rfc822Name", string_of(s.as_str())),
        GeneralNameModel::Dns(s) => typed_value("dNSName", string_of(s.as_str())),
        GeneralNameModel::Directory(n) => typed_value("directoryName", name_value(n)),
        GeneralNameModel::Ip(b) => typed_value("iPAddress", hex_value(b.as_slice())),
        GeneralNameModel::Registered(o) => typed_value("registeredID", string_of(o.as_str())),
        GeneralNameModel::Other => {
            let mut m: Vec<(String, JsonValue)> = Vec::new();
            m.push(member("_type", string_of("UNKNOWN")));
            let r = object_of(m);
            assert(members_data(m@) =~= general_name_data(*g)->Object_0);
            r
        },
    }
}

pub fn general_names_value(gs: &Vec<GeneralNameModel>) -> (r: JsonValue)
    ensures
        r.data() == general_names_data(gs@),
{
    let mut items: Vec<JsonValue> = Vec::new();
    let mut i: usize = 0;
    while i < gs.len()
        invariant
            i <= gs@.len(),
            items@.len() == i,
            forall|k: int| 0 <= k < i ==> #[trigger] items@[k].data() == general_name_data(gs@[k]),
        decreases gs@.len() - i,
    {
        items.push(general_name_value(&gs[i]));
        i = i + 1;
    }
    let r = array_of(items);
    assert(datas(items@) =~= general_names_data(gs@)->Array_0);
    r
}

// ---------------------------------------------------------------------------
// Certificate policies, access descriptions, distribution points
// ---------------------------------------------------------------------------

/// A policy qualifier: its identifier and raw qualifier bytes.
pub struct QualifierModel {
    pub oid: String,
    pub raw: Vec<u8>,
}

/// A certificate policy and its qualifiers, if it has any.
pub struct PolicyModel {
    pub oid: String,
    pub qualifiers: Option<Vec<QualifierModel>>,
}

/// An access description: how and where to reach the issuer's information.
pub struct AccessModel {
    pub method_oid: String,
    pub location: GeneralNameModel,
}

/// The name of a CRL distribution point.
pub enum DistributionPointModel {
    Unnamed,
    FullName(Vec<GeneralNameModel>),
    RelativeToIssuer(Vec<Attribute>),
}

pub open spec fn cps_oid() -> Seq<char> {
    "1.3.6.1.5.5.7.2.1"@
}

pub open spec fn unotice_oid() -> Seq<char> {
    "1.3.6.1.5.5.7.2.2"@
}

/// The text of a DER value, when it decodes to one.
pub open spec fn der_text(bytes: Seq<u8>) -> Option<Seq<char>> {
    match der_object_facts(bytes) {
        Some(f) => f.text,
        None => None,
    }
}

/// A policy qualifier: its type, and for a CPS pointer its URI when it decodes.
pub open spec fn qualifier_data(q: QualifierModel) -> JsonData {
    let qualifier_type = if q.oid@ == cps_oid() {
        "id-qt-cps"@
    } else if q.oid@ == unotice_oid() {
        "id-qt-unotice"@
    } else {
        "UNKNOWN"@
    };
    let base = seq![("_type"@, JsonData::Str(qualifier_type))];
    JsonData::Object(
        if q.oid@ == cps_oid() && der_text(q.raw@) is Some {
            base.push(("CPSuri"@, JsonData::Str(der_text(q.raw@).unwrap())))
        } else {
            base
        },
    )
}

pub open spec fn qualifiers_data(qs: Seq<QualifierModel>) -> JsonData {
    JsonData::Array(Seq::new(qs.len(), |i: int| qualifier_data(qs[i])))
}

pub open spec fn policy_data(p: PolicyModel) -> JsonData {
    JsonData::Object(
        seq![("policyIdentifier"@, oid_ref_data(p.oid@))] + match p.qualifiers {
            Some(qs) => seq![("policyQualifiers"@, qualifiers_data(qs@))],
            None => Seq::empty(),
        },
    )
}

pub open spec fn access_data(a: AccessModel) -> JsonData {
    JsonData::Object(
        seq![("accessMethod"@, oid_ref_data(a.method_oid@)), ("accessLocation"@, general_name_data(a.location))],
    )
}

pub open spec fn distribution_point_data(d: DistributionPointModel) -> JsonData {
    match d {
        DistributionPointModel::Unnamed => JsonData::Object(Seq::empty()),
        DistributionPointModel::FullName(ns) => JsonData::Object(
            seq![("distributionPoint"@, JsonData::Object(seq![("fullName"@, general_names_data(ns@))]))],
        ),
        DistributionPointModel::RelativeToIssuer(atvs) => JsonData::Object(
            seq![
                (
                    "distributionPoint"@,
                    JsonData::Object(seq![("nameRelativeToCRLIssuer"@, attributes_data(atvs@))]),
                ),
            ],
        ),
    }
}

fn der_text_of(bytes: &[u8]) -> (r: Option<String>)
    ensures
        opt_seq(r) == der_text(bytes@),
{
    match der_object(bytes) {
        Some(f) => f.text,
        None => None,
    }
}

pub open spec fn opt_seq(o: Option<String>) -> Option<Seq<char>> {
    match o {
        Some(s) => Some(s@),
        None => None,
    }
}

pub fn qualifier_value(q: &QualifierModel) -> (r: JsonValue)
    ensures
        r.data() == qualifier_data(*q),
{
    let is_cps = str_eq(q.oid.as_str(), "1.3.6.1.5.5.7.2.1");
    let qualifier_type = if is_cps {
        "id-qt-cps"
    } else if str_eq(q.oid.as_str(), "1.3.6.1.5.5.7.2.2") {
        "id-qt-unotice"
    } else {
        "UNKNOWN"
    };
    let mut m: Vec<(String, JsonValue)> = Vec::new();
    m.push(member("_type", string_of(qualifier_type)));
    if is_cps {
        match der_text_of(q.raw.as_slice()) {
            Some(uri) => m.push(member("CPSuri", JsonValue::String(uri))),
            None => {},
        }
    }
    let r = object_of(m);
    assert(members_data(m@) =~= qualifier_data(*q)->Object_0);
    r
}

pub fn policy_value(p: &PolicyModel) -> (r: JsonValue)
    ensures
        r.data() == policy_data(*p),
{
    let mut m: Vec<(String, JsonValue)> = Vec::new();
    m.push(member("policyIdentifier", oid_ref_value(p.oid.as_str())));
    match &p.qualifiers {
        Some(qs) => {
            let mut items: Vec<JsonValue> = Vec::new();
            let mut i: usize = 0;
            while i < qs.len()
                invariant
                    i <= qs@.len(),
                    items@.len() == i,
                    forall|k: int| 0 <= k < i ==> #[trigger] items@[k].data() == qualifier_data(qs@[k]),
                decreases qs@.len() - i,
            {
                items.push(qualifier_value(&qs[i]));
                i = i + 1;
            }
            let a = array_of(items);
            assert(datas(items@) =~= qualifiers_data(qs@)->Array_0);
            m.push(member("policyQualifiers", a));
        },
        None => {},
    }
    let r = object_of(m);
    assert(members_data(m@) =~= policy_data(*p)->Object_0);
    r
}

pub fn access_value(a: &AccessModel) -> (r: JsonValue)
    ensures
        r.data() == access_data(*a),
{
    let mut m: Vec<(String, JsonValue)> = Vec::new();
    m.push(member("accessMethod", oid_ref_value(a.method_oid.as_str())));
    m.push(member("accessLocation", general_name_value(&a.location)));
    let r = object_of(m);
    assert(members_data(m@) =~= access_data(*a)->Object_0);
    r
}

fn single_member_object(key: &str, v: JsonValue) -> (r: JsonValue)
    ensures
        r.data() == JsonData::Object(seq![(key@, v.data())]),
{
    let ghost vd = v.data();
    let mut m: Vec<(String, JsonValue)> = Vec::new();
    m.push(member(key, v));
    let r = object_of(m);
    assert(members_data(m@) =~= seq![(key@, vd)]);
    r
}

pub fn distribution_point_value(d: &DistributionPointModel) -> (r: JsonValue)
    ensures
        r.data() == distribution_point_data(*d),
{
    match d {
        DistributionPointModel::Unnamed => {
            let m: Vec<(String, JsonValue)> = Vec::new();
            let r = object_of(m);
            assert(members_data(m@) =~= Seq::<(Seq<char>, JsonData)>::empty());
            r
        },
        DistributionPointModel::FullName(ns) => {
            let inner = single_member_object("fullName", general_names_value(ns));
            single_member_object("distributionPoint", inner)
        },
        DistributionPointModel::RelativeToIssuer(atvs) => {
            let inner = single_member_object("nameRelativeToCRLIssuer", attributes_value(atvs));
            single_member_object("distributionPoint", inner)
        },
    }
}

// ---------------------------------------------------------------------------
// Extensions
// ---------------------------------------------------------------------------

/// What an extension holds, as far as it is reported.
pub enum ExtensionBody {
    SubjectKeyIdentifier(Vec<u8>),
    AuthorityKeyIdentifier(Option<Vec<u8>>),
    /// The key usage bits, bit 0 first.
    KeyUsage(u16),
    BasicConstraints(bool, Option<u32>),
    ExtendedKeyUsage,
    CertificatePolicies(Vec<PolicyModel>),
    AuthorityInfoAccess(Vec<AccessModel>),
    CrlDistributionPoints(Vec<DistributionPointModel>),
    Other,
}

/// One extension: its identifier, criticality, raw value and what it holds.
pub struct ExtensionModel {
    pub oid: String,
    pub critical: bool,
    pub value: Vec<u8>,
    pub body: ExtensionBody,
}

/// Bit `i` of the key usage flags.
pub open spec fn flag_bit(flags: u16, i: u16) -> bool {
    (flags >> i) & 1u16 == 1u16
}

fn key_usage_bit(flags: u16, i: u16) -> (r: bool)
    requires
        i < 16,
    ensures
        r == flag_bit(flags, i),
{
    (flags >> i) & 1u16 == 1u16
}

/// The object identifiers among the items of a DER sequence, in order.
pub open spec fn item_oids(items: Seq<DerItemView>) -> Seq<Seq<char>>
    decreases items.len(),
{
    if items.len() == 0 {
        Seq::empty()
    } else {
        item_oids(items.drop_last()) + match items.last().oid {
            Some(o) => seq![o],
            None => Seq::empty(),
        }
    }
}

/// The key purposes of an extended key usage value.
pub open spec fn eku_oids(value: Seq<u8>) -> Seq<Seq<char>> {
    match der_sequence_items(value) {
        Some(items) => item_oids(items),
        None => Seq::empty(),
    }
}

pub open spec fn oid_refs_data(oids: Seq<Seq<char>>) -> JsonData {
    JsonData::Array(Seq::new(oids.len(), |i: int| oid_ref_data(oids[i])))
}

/// Name of the ASN.1 string type of a tag.
pub open spec fn string_type_name(tag: u32) -> Seq<char> {
    if tag == 12 {
        "UTF8String"@
    } else if tag == 19 {
        "PrintableString"@
    } else if tag == 22 {
        "IA5String"@
    } else {
        "OctetString"@
    }
}

pub open spec fn decoded(asn1_type: Seq<char>, v: JsonData) -> Seq<(Seq<char>, JsonData)> {
    seq![("_pyasn1_decoded"@, JsonData::Object(seq![("_asn1_type"@, JsonData::Str(asn1_type)), ("value"@, v)]))]
}

/// What an extension unknown to the parser reports of its value: the first of an object
/// identifier, a string, a boolean, null or an integer that its DER decodes to; else that it
/// is not recognized.
pub open spec fn unknown_value_members(value: Seq<u8>) -> Seq<(Seq<char>, JsonData)> {
    facts_members(der_object_facts(value), value)
}

/// What the DER facts of an unknown extension's value report, as in
/// [`unknown_value_members`].
pub open spec fn facts_members(facts: Option<DerFactsView>, value: Seq<u8>) -> Seq<(Seq<char>, JsonData)> {
    match facts {
        Some(f) => if f.oid is Some {
            decoded("ObjectIdentifier"@, JsonData::Str(f.oid.unwrap()))
        } else if f.text is Some {
            decoded(string_type_name(f.tag), JsonData::Str(f.text.unwrap()))
        } else if f.boolean is Some {
            decoded("Boolean"@, JsonData::Bool(f.boolean.unwrap()))
        } else if f.tag == 5 {
            decoded("Null"@, JsonData::Null)
        } else if f.integer is Some {
            decoded("Integer"@, JsonData::Number(signed_decimal(f.integer.unwrap() as int)))
        } else {
            seq![("_unrecognized"@, JsonData::Bool(true)), ("_generic_value_repr"@, JsonData::Str(hex_of(value)))]
        },
        None => seq![("_unrecognized"@, JsonData::Bool(true))],
    }
}

pub open spec fn opt_facts_view(o: Option<DerFacts>) -> Option<DerFactsView> {
    match o {
        Some(f) => Some(facts_view(f)),
        None => None,
    }
}

pub open spec fn ocsp_no_check_oid() -> Seq<char> {
    "1.3.6.1.5.5.7.48.1.5"@
}

pub open spec fn key_usage_members(flags: u16) -> Seq<(Seq<char>, JsonData)> {
    seq![
        ("digitalSignature"@, JsonData::Bool(flag_bit(flags, 0))),
        ("contentCommitment"@, JsonData::Bool(flag_bit(flags, 1))),
        ("keyEncipherment"@, JsonData::Bool(flag_bit(flags, 2))),
        ("dataEncipherment"@, JsonData::Bool(flag_bit(flags, 3))),
        ("keyAgreement"@, JsonData::Bool(flag_bit(flags, 4))),
        ("keyCertSign"@, JsonData::Bool(flag_bit(flags, 5))),
        ("cRLSign"@, JsonData::Bool(flag_bit(flags, 6))),
        ("encipherOnly"@, JsonData::Bool(flag_bit(flags, 7))),
        ("decipherOnly"@, JsonData::Bool(flag_bit(flags, 8))),
    ]
}

/// The members an extension's value reports beyond its raw hex.
pub open spec fn body_members(oid: Seq<char>, value: Seq<u8>, body: ExtensionBody) -> Seq<(Seq<char>, JsonData)> {
    match body {
        ExtensionBody::SubjectKeyIdentifier(k) => seq![("keyIdentifier_hex"@, JsonData::Str(hex_of(k@)))],
        ExtensionBody::AuthorityKeyIdentifier(k) => match k {
            Some(k) => seq![("keyIdentifier_hex"@, JsonData::Str(hex_of(k@)))],
            None => Seq::empty(),
        },
        ExtensionBody::KeyUsage(flags) => key_usage_members(flags),
        ExtensionBody::BasicConstraints(ca, path_len) => seq![
            ("cA"@, JsonData::Bool(ca)),
            (
                "pathLenConstraint"@,
                match path_len {
                    Some(n) => JsonData::Number(decimal(n as nat)),
                    None => JsonData::Null,
                },
            ),
        ],
        ExtensionBody::ExtendedKeyUsage => seq![("extendedKeyUsage"@, oid_refs_data(eku_oids(value)))],
        ExtensionBody::CertificatePolicies(ps) => seq![
            ("certificatePolicies"@, JsonData::Array(Seq::new(ps@.len(), |i: int| policy_data(ps@[i])))),
        ],
        ExtensionBody::AuthorityInfoAccess(a) => seq![
            ("authorityInfoAccess"@, JsonData::Array(Seq::new(a@.len(), |i: int| access_data(a@[i])))),
        ],
        ExtensionBody::CrlDistributionPoints(d) => seq![
            (
                "cRLDistributionPoints"@,
                JsonData::Array(Seq::new(d@.len(), |i: int| distribution_point_data(d@[i]))),
            ),
        ],
        ExtensionBody::Other => if oid == ocsp_no_check_oid() {
            seq![("ocspNoCheck"@, JsonData::Null)]
        } else {
            unknown_value_members(value)
        },
    }
}

/// One extension as reported.
pub open spec fn extension_data(e: ExtensionModel) -> JsonData {
    JsonData::Object(
        seq![
            ("extnID"@, oid_ref_data(e.oid@)),
            ("critical"@, JsonData::Bool(e.critical)),
            (
                "extnValue"@,
                JsonData::Object(
                    seq![("_raw_value_hex"@, JsonData::Str(hex_of(e.value@)))] + body_members(
                        e.oid@,
                        e.value@,
                        e.body,
                    ),
                ),
            ),
        ],
    )
}

fn push_decoded(m: &mut Vec<(String, JsonValue)>, asn1_type: &str, v: JsonValue)
    ensures
        members_data(final(m)@) == members_data(old(m)@) + decoded(asn1_type@, v.data()),
{
    let ghost vd = v.data();
    let mut inner: Vec<(String, JsonValue)> = Vec::new();
    inner.push(member("_asn1_type", string_of(asn1_type)));
    inner.push(member("value", v));
    let o = object_of(inner);
    assert(members_data(inner@) =~= seq![("_asn1_type"@, JsonData::Str(asn1_type@)), ("value"@, vd)]);
    let ghost before = m@;
    m.push(member("_pyasn1_decoded", o));
    assert(members_data(m@) =~= members_data(before) + decoded(asn1_type@, vd));
}

fn string_type_str(tag: u32) -> (r: &'static str)
    ensures
        r@ == string_type_name(tag),
{
    if tag == 12 {
        "UTF8String"
    } else if tag == 19 {
        "PrintableString"
    } else if tag == 22 {
        "IA5String"
    } else {
        "OctetString"
    }
}

/// Adds what the DER facts of an unknown extension's value report: the first of an object
/// identifier, a string, a boolean, null or an integer; else that the value is not
/// recognized.
pub fn unknown_members_from_facts(value: &[u8], facts: Option<DerFacts>, out: &mut Vec<(String, JsonValue)>)
    ensures
        members_data(final(out)@) == members_data(old(out)@) + facts_members(opt_facts_view(facts), value@),
{
    let ghost before = out@;
    let ghost fv = opt_facts_view(facts);
    match facts {
        Some(f) => {
            if f.oid.is_some() {
                let o = match f.oid { Some(o) => o, None => String::new() };
                push_decoded(out, "ObjectIdentifier", JsonValue::String(o));
            } else if f.text.is_some() {
                let t = match f.text { Some(t) => t, None => String::new() };
                push_decoded(out, string_type_str(f.tag), JsonValue::String(t));
            } else if f.boolean.is_some() {
                let b = match f.boolean { Some(b) => b, None => false };
                push_decoded(out, "Boolean", JsonValue::Bool(b));
            } else if f.tag == 5 {
                push_decoded(out, "Null", JsonValue::Null);
            } else if f.integer.is_some() {
                let i = match f.integer { Some(i) => i, None => 0 };
                push_decoded(out, "Integer", JsonValue::Number(signed_decimal_string(i)));
            } else {
                out.push(member("_unrecognized", JsonValue::Bool(true)));
                out.push(member("_generic_value_repr", hex_value(value)));
                assert(members_data(out@) =~= members_data(before) + facts_members(fv, value@));
            }
        },
        None => {
            out.push(member("_unrecognized", JsonValue::Bool(true)));
            assert(members_data(out@) =~= members_data(before) + facts_members(fv, value@));
        },
    }
}

/// Adds what an unknown extension's DER value decodes to.
pub fn decode_unknown_extension(value: &[u8], out: &mut Vec<(String, JsonValue)>)
    ensures
        members_data(final(out)@) == members_data(old(out)@) + unknown_value_members(value@),
{
    let facts = der_object(value);
    unknown_members_from_facts(value, facts, out);
}

fn eku_value(value: &[u8]) -> (r: JsonValue)
    ensures
        r.data() == oid_refs_data(eku_oids(value@)),
{
    let mut items: Vec<JsonValue> = Vec::new();
    let ghost mut oids: Seq<Seq<char>> = Seq::empty();
    match der_sequence(value) {
        Some(v) => {
            let ghost iv = items_view(v@);
            let mut i: usize = 0;
            while i < v.len()
                invariant
                    i <= v@.len(),
                    iv == items_view(v@),
                    oids == item_oids(iv.take(i as int)),
                    items@.len() == oids.len(),
                    forall|k: int| 0 <= k < oids.len() ==> #[trigger] items@[k].data() == oid_ref_data(oids[k]),
                decreases v@.len() - i,
            {
                proof {
                    assert(iv.take(i + 1).drop_last() =~= iv.take(i as int));
                    assert(iv.take(i + 1).last() == item_view(v@[i as int]));
                }
                match &v[i].oid {
                    Some(o) => {
                        items.push(oid_ref_value(o.as_str()));
                        proof {
                            oids = oids.push(o@);
                        }
                    },
                    None => {},
                }
                assert(oids =~= item_oids(iv.take(i + 1)));
                i = i + 1;
            }
            assert(iv.take(v@.len() as int) =~= iv);
        },
        None => {},
    }
    let r = array_of(items);
    assert(datas(items@) =~= oid_refs_data(eku_oids(value@))->Array_0);
    r
}

fn policies_value(ps: &Vec<PolicyModel>) -> (r: JsonValue)
    ensures
        r.data() == JsonData::Array(Seq::new(ps@.len(), |i: int| policy_data(ps@[i]))),
{
    let mut items: Vec<JsonValue> = Vec::new();
    let mut i: usize = 0;
    while i < ps.len()
        invariant
            i <= ps@.len(),
            items@.len() == i,
            forall|k: int| 0 <= k < i ==> #[trigger] items@[k].data() == policy_data(ps@[k]),
        decreases ps@.len() - i,
    {
        items.push(policy_value(&ps[i]));
        i = i + 1;
    }
    let r = array_of(items);
    assert(datas(items@) =~= Seq::new(ps@.len(), |i: int| policy_data(ps@[i])));
    r
}

fn accesses_value(a: &Vec<AccessModel>) -> (r: JsonValue)
    ensures
        r.data() == JsonData::Array(Seq::new(a@.len(), |i: int| access_data(a@[i]))),
{
    let mut items: Vec<JsonValue> = Vec::new();
    let mut i: usize = 0;
    while i < a.len()
        invariant
            i <= a@.len(),
            items@.len() == i,
            forall|k: int| 0 <= k < i ==> #[trigger] items@[k].data() == access_data(a@[k]),
        decreases a@.len() - i,
    {
        items.push(access_value(&a[i]));
        i = i + 1;
    }
    let r = array_of(items);
    assert(datas(items@) =~= Seq::new(a@.len(), |i: int| access_data(a@[i])));
    r
}

fn distribution_points_value(d: &Vec<DistributionPointModel>) -> (r: JsonValue)
    ensures
        r.data() == JsonData::Array(Seq::new(d@.len(), |i: int| distribution_point_data(d@[i]))),
{
    let mut items: Vec<JsonValue> = Vec::new();
    let mut i: usize = 0;
    while i < d.len()
        invariant
            i <= d@.len(),
            items@.len() == i,
            forall|k: int| 0 <= k < i ==> #[trigger] items@[k].data() == distribution_point_data(d@[k]),
        decreases d@.len() - i,
    {
        items.push(distribution_point_value(&d[i]));
        i = i + 1;
    }
    let r = array_of(items);
    assert(datas(items@) =~= Seq::new(d@.len(), |i: int| distribution_point_data(d@[i])));
    r
}

fn push_key_usage(m: &mut Vec<(String, JsonValue)>, flags: u16)
    ensures
        members_data(final(m)@) == members_data(old(m)@) + key_usage_members(flags),
{
    let ghost before = m@;
    m.push(member("digitalSignature", JsonValue::Bool(key_usage_bit(flags, 0))));
    m.push(member("contentCommitment", JsonValue::Bool(key_usage_bit(flags, 1))));
    m.push(member("keyEncipherment", JsonValue::Bool(key_usage_bit(flags, 2))));
    m.push(member("dataEncipherment", JsonValue::Bool(key_usage_bit(flags, 3))));
    m.push(member("keyAgreement", JsonValue::Bool(key_usage_bit(flags, 4))));
    m.push(member("keyCertSign", JsonValue::Bool(key_usage_bit(flags, 5))));
    m.push(member("cRLSign", JsonValue::Bool(key_usage_bit(flags, 6))));
    m.push(member("encipherOnly", JsonValue::Bool(key_usage_bit(flags, 7))));
    m.push(member("decipherOnly", JsonValue::Bool(key_usage_bit(flags, 8))));
    assert(members_data(m@) =~= members_data(before) + key_usage_members(flags));
}

/// One extension as reported: identifier, criticality and value, the value with what its
/// kind holds.
pub fn serialize_extension(ext: &ExtensionModel) -> (r: JsonValue)
    ensures
        r.data() == extension_data(*ext),
{
    let mut v: Vec<(String, JsonValue)> = Vec::new();
    v.push(member("_raw_value_hex", hex_value(ext.value.as_slice())));
    let ghost start = v@;
    match &ext.body {
        ExtensionBody::SubjectKeyIdentifier(k) => {
            v.push(member("keyIdentifier_hex", hex_value(k.as_slice())));
        },
        ExtensionBody::AuthorityKeyIdentifier(k) => {
            match k {
                Some(k) => v.push(member("keyIdentifier_hex", hex_value(k.as_slice()))),
                None => {},
            }
        },
        ExtensionBody::KeyUsage(flags) => {
            push_key_usage(&mut v, *flags);
        },
        ExtensionBody::BasicConstraints(ca, path_len) => {
            v.push(member("cA", JsonValue::Bool(*ca)));
            let pl = match path_len {
                Some(n) => JsonValue::Number(decimal_string_u64(*n as u64)),
                None => JsonValue::Null,
            };
            v.push(member("pathLenConstraint", pl));
        },
        ExtensionBody::ExtendedKeyUsage => {
            v.push(member("extendedKeyUsage", eku_value(ext.value.as_slice())));
        },
        ExtensionBody::CertificatePolicies(ps) => {
            v.push(member("certificatePolicies", policies_value(ps)));
        },
        ExtensionBody::AuthorityInfoAccess(a) => {
            v.push(member("authorityInfoAccess", accesses_value(a)));
        },
        ExtensionBody::CrlDistributionPoints(d) => {
            v.push(member("cRLDistributionPoints", distribution_points_value(d)));
        },
        ExtensionBody::Other => {
            if str_eq(ext.oid.as_str(), "1.3.6.1.5.5.7.48.1.5") {
                v.push(member("ocspNoCheck", JsonValue::Null));
            } else {
                decode_unknown_extension(ext.value.as_slice(), &mut v);
            }
        },
    }
    assert(members_data(v@) =~= members_data(start) + body_members(ext.oid@, ext.value@, ext.body));
    let value = object_of(v);
    let mut m: Vec<(String, JsonValue)> = Vec::new();
    m.push(member("extnID", oid_ref_value(ext.oid.as_str())));
    m.push(member("critical", JsonValue::Bool(ext.critical)));
    m.push(member("extnValue", value));
    let r = object_of(m);
    assert(members_data(start) =~= seq![("_raw_value_hex"@, JsonData::Str(hex_of(ext.value@)))]);
    assert(members_data(m@) =~= extension_data(*ext)->Object_0);
    r
}

// ---------------------------------------------------------------------------
// Subject public key
// ---------------------------------------------------------------------------

/// The subject public key: its algorithm, the algorithm's parameter when it is an object
/// identifier, the raw SubjectPublicKeyInfo and the key bits.
pub struct SpkiFields {
    pub algorithm_oid: String,
    pub parameter_oid: Option<String>,
    pub raw: Vec<u8>,
    pub key: Vec<u8>,
}

pub open spec fn ec_public_key_oid() -> Seq<char> {
    "1.2.840.10045.2.1"@
}

pub open spec fn rsa_encryption_oid() -> Seq<char> {
    "1.2.840.113549.1.1.1"@
}

pub open spec fn ed25519_oid() -> Seq<char> {
    "1.3.101.112"@
}

/// Name and key size of a named elliptic curve.
pub open spec fn curve_of(oid: Seq<char>) -> (Seq<char>, nat) {
    if oid == "1.2.840.10045.3.1.7"@ {
        ("secp256r1"@, 256)
    } else if oid == "1.3.132.0.34"@ {
        ("secp384r1"@, 384)
    } else if oid == "1.3.132.0.35"@ {
        ("secp521r1"@, 521)
    } else {
        ("unknown"@, 0)
    }
}

/// Modulus and public exponent of an RSA key, when its DER holds them.
pub open spec fn rsa_members(key: Seq<u8>) -> Seq<(Seq<char>, JsonData)> {
    match der_sequence_items(key) {
        Some(items) => if items.len() >= 2 {
            (match items[0].big {
                Some((bits, hex)) => seq![
                    ("modulus_bits"@, JsonData::Number(decimal(bits as nat))),
                    ("modulus_hex"@, JsonData::Str("0x"@ + hex)),
                ],
                None => Seq::empty(),
            }) + match items[1].small {
                Some(e) => seq![("publicExponent"@, JsonData::Number(decimal(e as nat)))],
                None => Seq::empty(),
            }
        } else {
            Seq::empty()
        },
        None => Seq::empty(),
    }
}

/// What is reported of a public key by its algorithm: the curve and point of an EC key, the
/// modulus and exponent of an RSA key, the curve of an Ed25519 key.
pub open spec fn key_members(s: SpkiFields) -> Seq<(Seq<char>, JsonData)> {
    let alg = s.algorithm_oid@;
    if alg == ec_public_key_oid() {
        (match s.parameter_oid {
            Some(c) => seq![
                ("curve"@, JsonData::Str(curve_of(c@).0)),
                ("key_size_bits"@, JsonData::Number(decimal(curve_of(c@).1))),
            ],
            None => Seq::empty(),
        }) + seq![("point_uncompressed_hex"@, JsonData::Str(hex_of(s.key@)))]
    } else if alg == rsa_encryption_oid() {
        rsa_members(s.key@)
    } else if alg == ed25519_oid() {
        seq![("curve"@, JsonData::Str("Ed25519"@)), ("key_size_bits"@, JsonData::Number(decimal(256)))]
    } else {
        Seq::empty()
    }
}

pub open spec fn spki_data(s: SpkiFields) -> JsonData {
    JsonData::Object(
        seq![
            (
                "publicKey"@,
                JsonData::Object(
                    seq![
                        ("spki_algorithm"@, algorithm_id_data(s.algorithm_oid@)),
                        ("raw_spki_hex"@, JsonData::Str(hex_of(s.raw@))),
                    ] + key_members(s),
                ),
            ),
        ],
    )
}

fn curve_name_bits(oid: &str) -> (r: (&'static str, u64))
    ensures
        r.0@ == curve_of(oid@).0,
        r.1 == curve_of(oid@).1,
{
    if str_eq(oid, "1.2.840.10045.3.1.7") {
        ("secp256r1", 256)
    } else if str_eq(oid, "1.3.132.0.34") {
        ("secp384r1", 384)
    } else if str_eq(oid, "1.3.132.0.35") {
        ("secp521r1", 521)
    } else {
        ("unknown", 0)
    }
}

fn push_rsa_members(m: &mut Vec<(String, JsonValue)>, key: &[u8])
    ensures
        members_data(final(m)@) == members_data(old(m)@) + rsa_members(key@),
{
    let ghost before = m@;
    match der_sequence(key) {
        Some(items) => {
            if items.len() >= 2 {
                let ghost iv = items_view(items@);
                assert(iv[0] == item_view(items@[0]));
                assert(iv[1] == item_view(items@[1]));
                match &items[0].big {
                    Some(b) => {
                        m.push(member("modulus_bits", JsonValue::Number(decimal_string_u64(b.0))));
                        let mut h = to_owned_string("0x");
                        push_str(&mut h, b.1.as_str());
                        m.push(member("modulus_hex", JsonValue::String(h)));
                    },
                    None => {},
                }
                let ghost mid = m@;
                match items[1].small {
                    Some(e) => m.push(member("publicExponent", JsonValue::Number(decimal_string_u64(e)))),
                    None => {},
                }
                assert(members_data(m@) =~= members_data(before) + rsa_members(key@));
            } else {
                assert(members_data(m@) =~= members_data(before) + rsa_members(key@));
            }
        },
        None => {
            assert(members_data(m@) =~= members_data(before) + rsa_members(key@));
        },
    }
}

pub fn serialize_spki(s: &SpkiFields) -> (r: JsonValue)
    ensures
        r.data() == spki_data(*s),
{
    let alg = s.algorithm_oid.as_str();
    let mut pk: Vec<(String, JsonValue)> = Vec::new();
    pk.push(member("spki_algorithm", algorithm_id_value(alg)));
    pk.push(member("raw_spki_hex", hex_value(s.raw.as_slice())));
    let ghost start = pk@;
    if str_eq(alg, "1.2.840.10045.2.1") {
        match &s.parameter_oid {
            Some(c) => {
                let (name, bits) = curve_name_bits(c.as_str());
                pk.push(member("curve", string_of(name)));
                pk.push(member("key_size_bits", JsonValue::Number(decimal_string_u64(bits))));
            },
            None => {},
        }
        pk.push(member("point_uncompressed_hex", hex_value(s.key.as_slice())));
    } else if str_eq(alg, "1.2.840.113549.1.1.1") {
        push_rsa_members(&mut pk, s.key.as_slice());
    } else if str_eq(alg, "1.3.101.112") {
        pk.push(member("curve", string_of("Ed25519")));
        pk.push(member("key_size_bits", JsonValue::Number(decimal_string_u64(256))));
    }
    assert(members_data(pk@) =~= members_data(start) + key_members(*s));
    let inner = object_of(pk);
    let mut m: Vec<(String, JsonValue)> = Vec::new();
    m.push(member("publicKey", inner));
    let r = object_of(m);
    assert(members_data(start) =~= seq![
        ("spki_algorithm"@, algorithm_id_data(s.algorithm_oid@)),
        ("raw_spki_hex"@, JsonData::Str(hex_of(s.raw@))),
    ]);
    assert(members_data(m@) =~= spki_data(*s)->Object_0);
    r
}

// ---------------------------------------------------------------------------
// The whole certificate
// ---------------------------------------------------------------------------

/// A parsed certificate as plain values.
pub struct CertModel {
    pub version: u32,
    pub raw_serial: Vec<u8>,
    pub tbs_signature_oid: String,
    pub issuer: Vec<Vec<Attribute>>,
    pub not_before: TimeFields,
    pub not_after: TimeFields,
    pub validity_days: i64,
    pub subject: Vec<Vec<Attribute>>,
    pub spki: SpkiFields,
    pub extensions: Vec<ExtensionModel>,
    pub signature_oid: String,
    pub signature_value: Vec<u8>,
}

pub open spec fn extensions_data(es: Seq<ExtensionModel>) -> JsonData {
    JsonData::Array(Seq::new(es.len(), |i: int| extension_data(es[i])))
}

/// The to-be-signed part; `extensions` only when there is at least one.
pub open spec fn tbs_data(c: CertModel) -> JsonData {
    JsonData::Object(
        seq![
            (
                "version"@,
                JsonData::Object(
                    seq![
                        ("value"@, JsonData::Number(decimal(c.version as nat))),
                        ("rawValue"@, JsonData::Str("v"@ + decimal((c.version + 1) as nat))),
                    ],
                ),
            ),
            ("serialNumber_hex"@, JsonData::Str("0x"@ + hex_of(c.raw_serial@))),
            ("signature"@, algorithm_id_data(c.tbs_signature_oid@)),
            ("issuer"@, name_data(c.issuer@)),
            ("validity"@, validity_data(c.not_before, c.not_after, c.validity_days)),
            ("subject"@, name_data(c.subject@)),
            ("subjectPublicKeyInfo"@, spki_data(c.spki)),
        ] + if c.extensions@.len() > 0 {
            seq![("extensions"@, extensions_data(c.extensions@))]
        } else {
            Seq::empty()
        },
    )
}

pub open spec fn decoded_data(c: CertModel) -> JsonData {
    JsonData::Object(
        seq![
            ("tbsCertificate"@, tbs_data(c)),
            ("signatureAlgorithm"@, algorithm_id_data(c.signature_oid@)),
            ("signatureValue_hex"@, JsonData::Str(hex_of(c.signature_value@))),
        ],
    )
}

/// The certificate as the C2PA certificate profile schemas expect it.
pub open spec fn cert_data(c: CertModel, raw_der: Seq<u8>) -> JsonData {
    JsonData::Object(
        seq![
            ("format"@, JsonData::Str("certificate"@)),
            ("decoded"@, decoded_data(c)),
            ("raw_hex"@, JsonData::Str(hex_of(raw_der))),
        ],
    )
}

fn extensions_value(es: &Vec<ExtensionModel>) -> (r: JsonValue)
    ensures
        r.data() == extensions_data(es@),
{
    let mut items: Vec<JsonValue> = Vec::new();
    let mut i: usize = 0;
    while i < es.len()
        invariant
            i <= es@.len(),
            items@.len() == i,
            forall|k: int| 0 <= k < i ==> #[trigger] items@[k].data() == extension_data(es@[k]),
        decreases es@.len() - i,
    {
        items.push(serialize_extension(&es[i]));
        i = i + 1;
    }
    let r = array_of(items);
    assert(datas(items@) =~= extensions_data(es@)->Array_0);
    r
}

pub fn serialize_tbs(c: &CertModel) -> (r: JsonValue)
    ensures
        r.data() == tbs_data(*c),
{
    let mut v: Vec<(String, JsonValue)> = Vec::new();
    v.push(member("value", JsonValue::Number(decimal_string_u64(c.version as u64))));
    let mut raw = to_owned_string("v");
    let next = decimal_string_u64(c.version as u64 + 1);
    push_str(&mut raw, next.as_str());
    v.push(member("rawValue", JsonValue::String(raw)));
    let version = object_of(v);
    let mut serial = to_owned_string("0x");
    let h = hex_encode(c.raw_serial.as_slice());
    push_str(&mut serial, h.as_str());
    let mut m: Vec<(String, JsonValue)> = Vec::new();
    m.push(member("version", version));
    m.push(member("serialNumber_hex", JsonValue::String(serial)));
    m.push(member("signature", algorithm_id_value(c.tbs_signature_oid.as_str())));
    m.push(member("issuer", name_value(&c.issuer)));
    m.push(member("validity", validity_value(&c.not_before, &c.not_after, c.validity_days)));
    m.push(member("subject", name_value(&c.subject)));
    m.push(member("subjectPublicKeyInfo", serialize_spki(&c.spki)));
    if c.extensions.len() > 0 {
        m.push(member("extensions", extensions_value(&c.extensions)));
    }
    let r = object_of(m);
    assert(members_data(v@) =~= tbs_data(*c)->Object_0[0].1->Object_0);
    assert(members_data(m@) =~= tbs_data(*c)->Object_0);
    r
}

pub fn serialize_decoded(c: &CertModel) -> (r: JsonValue)
    ensures
        r.data() == decoded_data(*c),
{
    let mut m: Vec<(String, JsonValue)> = Vec::new();
    m.push(member("tbsCertificate", serialize_tbs(c)));
    m.push(member("signatureAlgorithm", algorithm_id_value(c.signature_oid.as_str())));
    m.push(member("signatureValue_hex", hex_value(c.signature_value.as_slice())));
    let r = object_of(m);
    assert(members_data(m@) =~= decoded_data(*c)->Object_0);
    r
}

pub fn serialize_cert(c: &CertModel, raw_der: &[u8]) -> (r: JsonValue)
    ensures
        r.data() == cert_data(*c, raw_der@),
{
    let mut m: Vec<(String, JsonValue)> = Vec::new();
    m.push(member("format", string_of("certificate")));
    m.push(member("decoded", serialize_decoded(c)));
    m.push(member("raw_hex", hex_value(raw_der)));
    let r = object_of(m);
    assert(members_data(m@) =~= cert_data(*c, raw_der@)->Object_0);
    r
}

} // verus!
