use vstd::prelude::*;
use crate::json::{JsonData, JsonValue, datas, hex_digit, lemma_array_data};
use crate::text::{concat_map, decimal, decimal_string, push_str, str_eq, to_owned_string};
use crate::validator::string_views;

verus! {

// ---------------------------------------------------------------------------
// Names of object identifiers
// ---------------------------------------------------------------------------

/// Fallback name of an identifier that has none of its own.
pub open spec fn unnamed_oid(oid: Seq<char>) -> Seq<char> {
    "OID:"@ + oid
}

/// Names of the signature and key algorithms.
pub open spec fn algorithm_name_of(oid: Seq<char>) -> Seq<char> {
    if oid == "1.2.840.113549.1.1.11"@ {
        "sha256WithRSAEncryption"@
    } else if oid == "1.2.840.113549.1.1.12"@ {
        "sha384WithRSAEncryption"@
    } else if oid == "1.2.840.113549.1.1.13"@ {
        "sha512WithRSAEncryption"@
    } else if oid == "1.2.840.113549.1.1.10"@ {
        "rsassaPss"@
    } else if oid == "1.2.840.10045.4.3.2"@ {
        "ecdsa-with-SHA256"@
    } else if oid == "1.2.840.10045.4.3.3"@ {
        "ecdsa-with-SHA384"@
    } else if oid == "1.2.840.10045.4.3.4"@ {
        "ecdsa-with-SHA512"@
    } else if oid == "1.3.101.112"@ {
        "Ed25519"@
    } else if oid == "1.2.840.10045.2.1"@ {
        "id-ecPublicKey"@
    } else if oid == "1.2.840.113549.1.1.1"@ {
        "rsaEncryption"@
    } else {
        unnamed_oid(oid)
    }
}

fn unnamed(oid: &str) -> (r: String)
    ensures
        r@ == unnamed_oid(oid@),
{
    let mut s = to_owned_string("OID:");
    push_str(&mut s, oid);
    s
}

/// The name of a signature or key algorithm, `OID:<oid>` for one not known.
pub fn algorithm_name(oid: &str) -> (r: String)
    ensures
        r@ == algorithm_name_of(oid@),
{
    if str_eq(oid, "1.2.840.113549.1.1.11") {
        to_owned_string("sha256WithRSAEncryption")
    } else if str_eq(oid, "1.2.840.113549.1.1.12") {
        to_owned_string("sha384WithRSAEncryption")
    } else if str_eq(oid, "1.2.840.113549.1.1.13") {
        to_owned_string("sha512WithRSAEncryption")
    } else if str_eq(oid, "1.2.840.113549.1.1.10") {
        to_owned_string("rsassaPss")
    } else if str_eq(oid, "1.2.840.10045.4.3.2") {
        to_owned_string("ecdsa-with-SHA256")
    } else if str_eq(oid, "1.2.840.10045.4.3.3") {
        to_owned_string("ecdsa-with-SHA384")
    } else if str_eq(oid, "1.2.840.10045.4.3.4") {
        to_owned_string("ecdsa-with-SHA512")
    } else if str_eq(oid, "1.3.101.112") {
        to_owned_string("Ed25519")
    } else if str_eq(oid, "1.2.840.10045.2.1") {
        to_owned_string("id-ecPublicKey")
    } else if str_eq(oid, "1.2.840.113549.1.1.1") {
        to_owned_string("rsaEncryption")
    } else {
        unnamed(oid)
    }
}

/// Names of attribute types, extensions, access methods, policy qualifiers and key purposes.
pub open spec fn oid_name_of(oid: Seq<char>) -> Seq<char> {
    if oid == "2.5.4.3"@ {
        "commonName"@
    } else if oid == "2.5.4.6"@ {
        "countryName"@
    } else if oid == "2.5.4.10"@ {
        "organizationName"@
    } else if oid == "2.5.4.11"@ {
        "organizationalUnitName"@
    } else if oid == "2.5.4.8"@ {
        "stateOrProvinceName"@
    } else if oid == "2.5.4.7"@ {
        "localityName"@
    } else if oid == "2.5.4.5"@ {
        "serialNumber"@
    } else if oid == "1.2.840.113549.1.9.1"@ {
        "emailAddress"@
    } else if oid == "2.5.29.14"@ {
        "subjectKeyIdentifier"@
    } else if oid == "2.5.29.35"@ {
        "authorityKeyIdentifier"@
    } else if oid == "2.5.29.15"@ {
        "keyUsage"@
    } else if oid == "2.5.29.19"@ {
        "basicConstraints"@
    } else if oid == "2.5.29.37"@ {
        "extKeyUsage"@
    } else if oid == "2.5.29.32"@ {
        "certificatePolicies"@
    } else if oid == "1.3.6.1.5.5.7.1.1"@ {
        "authorityInfoAccess"@
    } else if oid == "2.5.29.31"@ {
        "cRLDistributionPoints"@
    } else if oid == "2.5.29.17"@ {
        "subjectAltName"@
    } else if oid == "1.3.6.1.5.5.7.48.1.5"@ {
        "id-pkix-ocsp-nocheck"@
    } else if oid == "1.3.6.1.5.5.7.48.1"@ {
        "id-ad-ocsp"@
    } else if oid == "1.3.6.1.5.5.7.48.2"@ {
        "id-ad-caIssuers"@
    } else if oid == "1.3.6.1.5.5.7.2.1"@ {
        "id-qt-cps"@
    } else if oid == "1.3.6.1.5.5.7.2.2"@ {
        "id-qt-unotice"@
    } else if oid == "1.3.6.1.5.5.7.3.4"@ {
        "id-kp-emailProtection"@
    } else if oid == "1.2.840.113583.1.1.5"@ {
        "id-kp-documentSigning"@
    } else if oid == "1.3.6.1.5.5.7.3.9"@ {
        "id-kp-OCSPSigning"@
    } else if oid == "1.3.6.1.4.1.62558.2.1"@ {
        "c2pa-kp-claimSigning"@
    } else if oid == "1.3.6.1.4.1.62558.1.1"@ {
        "c2pa-certificate-policy"@
    } else if oid == "1.3.6.1.4.1.62558.3"@ {
        "c2pa-assurance-level"@
    } else if oid == "1.3.6.1.4.1.62558.4"@ {
        "c2pa-cpl-record"@
    } else {
        unnamed_oid(oid)
    }
}

/// Attribute types of distinguished names get their X.520 names (and the e-mail attribute its
/// PKCS #9 name); the certificate extensions get their RFC 5280 names.
pub proof fn lemma_oid_names_standard()
    ensures
        oid_name_of("2.5.4.3"@) == "commonName"@,
        oid_name_of("2.5.4.6"@) == "countryName"@,
        oid_name_of("2.5.4.10"@) == "organizationName"@,
        oid_name_of("2.5.4.11"@) == "organizationalUnitName"@,
        oid_name_of("2.5.4.8"@) == "stateOrProvinceName"@,
        oid_name_of("2.5.4.7"@) == "localityName"@,
        oid_name_of("2.5.4.5"@) == "serialNumber"@,
        oid_name_of("1.2.840.113549.1.9.1"@) == "emailAddress"@,
        oid_name_of("2.5.29.14"@) == "subjectKeyIdentifier"@,
        oid_name_of("2.5.29.35"@) == "authorityKeyIdentifier"@,
        oid_name_of("2.5.29.15"@) == "keyUsage"@,
        oid_name_of("2.5.29.19"@) == "basicConstraints"@,
        oid_name_of("2.5.29.37"@) == "extKeyUsage"@,
        oid_name_of("2.5.29.32"@) == "certificatePolicies"@,
        oid_name_of("1.3.6.1.5.5.7.1.1"@) == "authorityInfoAccess"@,
        oid_name_of("2.5.29.31"@) == "cRLDistributionPoints"@,
        oid_name_of("2.5.29.17"@) == "subjectAltName"@,
{
    reveal_strlit("2.5.4.3");
    reveal_strlit("2.5.4.6");
    reveal_strlit("2.5.4.10");
    reveal_strlit("2.5.4.11");
    reveal_strlit("2.5.4.8");
    reveal_strlit("2.5.4.7");
    reveal_strlit("2.5.4.5");
    reveal_strlit("1.2.840.113549.1.9.1");
    reveal_strlit("2.5.29.14");
    reveal_strlit("2.5.29.35");
    reveal_strlit("2.5.29.15");
    reveal_strlit("2.5.29.19");
    reveal_strlit("2.5.29.37");
    reveal_strlit("2.5.29.32");
    reveal_strlit("1.3.6.1.5.5.7.1.1");
    reveal_strlit("2.5.29.31");
    reveal_strlit("2.5.29.17");
    assert(oid_name_of("2.5.4.3"@) == "commonName"@);
    assert(oid_name_of("2.5.4.6"@) == "countryName"@) by {
        assert("2.5.4.6"@[6] != "2.5.4.3"@[6]);
    }
    assert(oid_name_of("2.5.4.10"@) == "organizationName"@) by {
        assert("2.5.4.10"@.len() != "2.5.4.3"@.len());
        assert("2.5.4.10"@.len() != "2.5.4.6"@.len());
    }
    assert(oid_name_of("2.5.4.11"@) == "organizationalUnitName"@) by {
        assert("2.5.4.11"@.len() != "2.5.4.3"@.len());
        assert("2.5.4.11"@.len() != "2.5.4.6"@.len());
        assert("2.5.4.11"@[7] != "2.5.4.10"@[7]);
    }
    assert(oid_name_of("2.5.4.8"@) == "stateOrProvinceName"@) by {
        assert("2.5.4.8"@[6] != "2.5.4.3"@[6]);
        assert("2.5.4.8"@[6] != "2.5.4.6"@[6]);
        assert("2.5.4.8"@.len() != "2.5.4.10"@.len());
        assert("2.5.4.8"@.len() != "2.5.4.11"@.len());
    }
    assert(oid_name_of("2.5.4.7"@) == "localityName"@) by {
        assert("2.5.4.7"@[6] != "2.5.4.3"@[6]);
        assert("2.5.4.7"@[6] != "2.5.4.6"@[6]);
        assert("2.5.4.7"@.len() != "2.5.4.10"@.len());
        assert("2.5.4.7"@.len() != "2.5.4.11"@.len());
        assert("2.5.4.7"@[6] != "2.5.4.8"@[6]);
    }
    assert(oid_name_of("2.5.4.5"@) == "serialNumber"@) by {
        assert("2.5.4.5"@[6] != "2.5.4.3"@[6]);
        assert("2.5.4.5"@[6] != "2.5.4.6"@[6]);
        assert("2.5.4.5"@.len() != "2.5.4.10"@.len());
        assert("2.5.4.5"@.len() != "2.5.4.11"@.len());
        assert("2.5.4.5"@[6] != "2.5.4.8"@[6]);
        assert("2.5.4.5"@[6] != "2.5.4.7"@[6]);
    }
    assert(oid_name_of("1.2.840.113549.1.9.1"@) == "emailAddress"@) by {
        assert("1.2.840.113549.1.9.1"@.len() != "2.5.4.3"@.len());
        assert("1.2.840.113549.1.9.1"@.len() != "2.5.4.6"@.len());
        assert("1.2.840.113549.1.9.1"@.len() != "2.5.4.10"@.len());
        assert("1.2.840.113549.1.9.1"@.len() != "2.5.4.11"@.len());
        assert("1.2.840.113549.1.9.1"@.len() != "2.5.4.8"@.len());
        assert("1.2.840.113549.1.9.1"@.len() != "2.5.4.7"@.len());
        assert("1.2.840.113549.1.9.1"@.len() != "2.5.4.5"@.len());
    }
    assert(oid_name_of("2.5.29.14"@) == "subjectKeyIdentifier"@) by {
        assert("2.5.29.14"@.len() != "2.5.4.3"@.len());
        assert("2.5.29.14"@.len() != "2.5.4.6"@.len());
        assert("2.5.29.14"@.len() != "2.5.4.10"@.len());
        assert("2.5.29.14"@.len() != "2.5.4.11"@.len());
        assert("2.5.29.14"@.len() != "2.5.4.8"@.len());
        assert("2.5.29.14"@.len() != "2.5.4.7"@.len());
        assert("2.5.29.14"@.len() != "2.5.4.5"@.len());
        assert("2.5.29.14"@.len() != "1.2.840.113549.1.9.1"@.len());
    }
    assert(oid_name_of("2.5.29.35"@) == "authorityKeyIdentifier"@) by {
        assert("2.5.29.35"@.len() != "2.5.4.3"@.len());
        assert("2.5.29.35"@.len() != "2.5.4.6"@.len());
        assert("2.5.29.35"@.len() != "2.5.4.10"@.len());
        assert("2.5.29.35"@.len() != "2.5.4.11"@.len());
        assert("2.5.29.35"@.len() != "2.5.4.8"@.len());
        assert("2.5.29.35"@.len() != "2.5.4.7"@.len());
        assert("2.5.29.35"@.len() != "2.5.4.5"@.len());
        assert("2.5.29.35"@.len() != "1.2.840.113549.1.9.1"@.len());
        assert("2.5.29.35"@[7] != "2.5.29.14"@[7]);
    }
    assert(oid_name_of("2.5.29.15"@) == "keyUsage"@) by {
        assert("2.5.29.15"@.len() != "2.5.4.3"@.len());
        assert("2.5.29.15"@.len() != "2.5.4.6"@.len());
        assert("2.5.29.15"@.len() != "2.5.4.10"@.len());
        assert("2.5.29.15"@.len() != "2.5.4.11"@.len());
        assert("2.5.29.15"@.len() != "2.5.4.8"@.len());
        assert("2.5.29.15"@.len() != "2.5.4.7"@.len());
        assert("2.5.29.15"@.len() != "2.5.4.5"@.len());
        assert("2.5.29.15"@.len() != "1.2.840.113549.1.9.1"@.len());
        assert("2.5.29.15"@[8] != "2.5.29.14"@[8]);
        assert("2.5.29.15"@[7] != "2.5.29.35"@[7]);
    }
    assert(oid_name_of("2.5.29.19"@) == "basicConstraints"@) by {
        assert("2.5.29.19"@.len() != "2.5.4.3"@.len());
        assert("2.5.29.19"@.len() != "2.5.4.6"@.len());
        assert("2.5.29.19"@.len() != "2.5.4.10"@.len());
        assert("2.5.29.19"@.len() != "2.5.4.11"@.len());
        assert("2.5.29.19"@.len() != "2.5.4.8"@.len());
        assert("2.5.29.19"@.len() != "2.5.4.7"@.len());
        assert("2.5.29.19"@.len() != "2.5.4.5"@.len());
        assert("2.5.29.19"@.len() != "1.2.840.113549.1.9.1"@.len());
        assert("2.5.29.19"@[8] != "2.5.29.14"@[8]);
        assert("2.5.29.19"@[7] != "2.5.29.35"@[7]);
        assert("2.5.29.19"@[8] != "2.5.29.15"@[8]);
    }
    assert(oid_name_of("2.5.29.37"@) == "extKeyUsage"@) by {
        assert("2.5.29.37"@.len() != "2.5.4.3"@.len());
        assert("2.5.29.37"@.len() != "2.5.4.6"@.len());
        assert("2.5.29.37"@.len() != "2.5.4.10"@.len());
        assert("2.5.29.37"@.len() != "2.5.4.11"@.len());
        assert("2.5.29.37"@.len() != "2.5.4.8"@.len());
        assert("2.5.29.37"@.len() != "2.5.4.7"@.len());
        assert("2.5.29.37"@.len() != "2.5.4.5"@.len());
        assert("2.5.29.37"@.len() != "1.2.840.113549.1.9.1"@.len());
        assert("2.5.29.37"@[7] != "2.5.29.14"@[7]);
        assert("2.5.29.37"@[8] != "2.5.29.35"@[8]);
        assert("2.5.29.37"@[7] != "2.5.29.15"@[7]);
        assert("2.5.29.37"@[7] != "2.5.29.19"@[7]);
    }
    assert(oid_name_of("2.5.29.32"@) == "certificatePolicies"@) by {
        assert("2.5.29.32"@.len() != "2.5.4.3"@.len());
        assert("2.5.29.32"@.len() != "2.5.4.6"@.len());
        assert("2.5.29.32"@.len() != "2.5.4.10"@.len());
        assert("2.5.29.32"@.len() != "2.5.4.11"@.len());
        assert("2.5.29.32"@.len() != "2.5.4.8"@.len());
        assert("2.5.29.32"@.len() != "2.5.4.7"@.len());
        assert("2.5.29.32"@.len() != "2.5.4.5"@.len());
        assert("2.5.29.32"@.len() != "1.2.840.113549.1.9.1"@.len());
        assert("2.5.29.32"@[7] != "2.5.29.14"@[7]);
        assert("2.5.29.32"@[8] != "2.5.29.35"@[8]);
        assert("2.5.29.32"@[7] != "2.5.29.15"@[7]);
        assert("2.5.29.32"@[7] != "2.5.29.19"@[7]);
        assert("2.5.29.32"@[8] != "2.5.29.37"@[8]);
    }
    assert(oid_name_of("1.3.6.1.5.5.7.1.1"@) == "authorityInfoAccess"@) by {
        assert("1.3.6.1.5.5.7.1.1"@.len() != "2.5.4.3"@.len());
        assert("1.3.6.1.5.5.7.1.1"@.len() != "2.5.4.6"@.len());
        assert("1.3.6.1.5.5.7.1.1"@.len() != "2.5.4.10"@.len());
        assert("1.3.6.1.5.5.7.1.1"@.len() != "2.5.4.11"@.len());
        assert("1.3.6.1.5.5.7.1.1"@.len() != "2.5.4.8"@.len());
        assert("1.3.6.1.5.5.7.1.1"@.len() != "2.5.4.7"@.len());
        assert("1.3.6.1.5.5.7.1.1"@.len() != "2.5.4.5"@.len());
        assert("1.3.6.1.5.5.7.1.1"@.len() != "1.2.840.113549.1.9.1"@.len());
        assert("1.3.6.1.5.5.7.1.1"@.len() != "2.5.29.14"@.len());
        assert("1.3.6.1.5.5.7.1.1"@.len() != "2.5.29.35"@.len());
        assert("1.3.6.1.5.5.7.1.1"@.len() != "2.5.29.15"@.len());
        assert("1.3.6.1.5.5.7.1.1"@.len() != "2.5.29.19"@.len());
        assert("1.3.6.1.5.5.7.1.1"@.len() != "2.5.29.37"@.len());
        assert("1.3.6.1.5.5.7.1.1"@.len() != "2.5.29.32"@.len());
    }
    assert(oid_name_of("2.5.29.31"@) == "cRLDistributionPoints"@) by {
        assert("2.5.29.31"@.len() != "2.5.4.3"@.len());
        assert("2.5.29.31"@.len() != "2.5.4.6"@.len());
        assert("2.5.29.31"@.len() != "2.5.4.10"@.len());
        assert("2.5.29.31"@.len() != "2.5.4.11"@.len());
        assert("2.5.29.31"@.len() != "2.5.4.8"@.len());
        assert("2.5.29.31"@.len() != "2.5.4.7"@.len());
        assert("2.5.29.31"@.len() != "2.5.4.5"@.len());
        assert("2.5.29.31"@.len() != "1.2.840.113549.1.9.1"@.len());
        assert("2.5.29.31"@[7] != "2.5.29.14"@[7]);
        assert("2.5.29.31"@[8] != "2.5.29.35"@[8]);
        assert("2.5.29.31"@[7] != "2.5.29.15"@[7]);
        assert("2.5.29.31"@[7] != "2.5.29.19"@[7]);
        assert("2.5.29.31"@[8] != "2.5.29.37"@[8]);
        assert("2.5.29.31"@[8] != "2.5.29.32"@[8]);
        assert("2.5.29.31"@.len() != "1.3.6.1.5.5.7.1.1"@.len());
    }
    assert(oid_name_of("2.5.29.17"@) == "subjectAltName"@) by {
        assert("2.5.29.17"@.len() != "2.5.4.3"@.len());
        assert("2.5.29.17"@.len() != "2.5.4.6"@.len());
        assert("2.5.29.17"@.len() != "2.5.4.10"@.len());
        assert("2.5.29.17"@.len() != "2.5.4.11"@.len());
        assert("2.5.29.17"@.len() != "2.5.4.8"@.len());
        assert("2.5.29.17"@.len() != "2.5.4.7"@.len());
        assert("2.5.29.17"@.len() != "2.5.4.5"@.len());
        assert("2.5.29.17"@.len() != "1.2.840.113549.1.9.1"@.len());
        assert("2.5.29.17"@[8] != "2.5.29.14"@[8]);
        assert("2.5.29.17"@[7] != "2.5.29.35"@[7]);
        assert("2.5.29.17"@[8] != "2.5.29.15"@[8]);
        assert("2.5.29.17"@[8] != "2.5.29.19"@[8]);
        assert("2.5.29.17"@[7] != "2.5.29.37"@[7]);
        assert("2.5.29.17"@[7] != "2.5.29.32"@[7]);
        assert("2.5.29.17"@.len() != "1.3.6.1.5.5.7.1.1"@.len());
        assert("2.5.29.17"@[7] != "2.5.29.31"@[7]);
    }
}

/// The name of an object identifier, `OID:<oid>` for one not known.
pub fn oid_name(oid: &str) -> (r: String)
    ensures
        r@ == oid_name_of(oid@),
{
    if str_eq(oid, "2.5.4.3") {
        to_owned_string("commonName")
    } else if str_eq(oid, "2.5.4.6") {
        to_owned_string("countryName")
    } else if str_eq(oid, "2.5.4.10") {
        to_owned_string("organizationName")
    } else if str_eq(oid, "2.5.4.11") {
        to_owned_string("organizationalUnitName")
    } else if str_eq(oid, "2.5.4.8") {
        to_owned_string("stateOrProvinceName")
    } else if str_eq(oid, "2.5.4.7") {
        to_owned_string("localityName")
    } else if str_eq(oid, "2.5.4.5") {
        to_owned_string("serialNumber")
    } else if str_eq(oid, "1.2.840.113549.1.9.1") {
        to_owned_string("emailAddress")
    } else if str_eq(oid, "2.5.29.14") {
        to_owned_string("subjectKeyIdentifier")
    } else if str_eq(oid, "2.5.29.35") {
        to_owned_string("authorityKeyIdentifier")
    } else if str_eq(oid, "2.5.29.15") {
        to_owned_string("keyUsage")
    } else if str_eq(oid, "2.5.29.19") {
        to_owned_string("basicConstraints")
    } else if str_eq(oid, "2.5.29.37") {
        to_owned_string("extKeyUsage")
    } else if str_eq(oid, "2.5.29.32") {
        to_owned_string("certificatePolicies")
    } else if str_eq(oid, "1.3.6.1.5.5.7.1.1") {
        to_owned_string("authorityInfoAccess")
    } else if str_eq(oid, "2.5.29.31") {
        to_owned_string("cRLDistributionPoints")
    } else if str_eq(oid, "2.5.29.17") {
        to_owned_string("subjectAltName")
    } else if str_eq(oid, "1.3.6.1.5.5.7.48.1.5") {
        to_owned_string("id-pkix-ocsp-nocheck")
    } else if str_eq(oid, "1.3.6.1.5.5.7.48.1") {
        to_owned_string("id-ad-ocsp")
    } else if str_eq(oid, "1.3.6.1.5.5.7.48.2") {
        to_owned_string("id-ad-caIssuers")
    } else if str_eq(oid, "1.3.6.1.5.5.7.2.1") {
        to_owned_string("id-qt-cps")
    } else if str_eq(oid, "1.3.6.1.5.5.7.2.2") {
        to_owned_string("id-qt-unotice")
    } else if str_eq(oid, "1.3.6.1.5.5.7.3.4") {
        to_owned_string("id-kp-emailProtection")
    } else if str_eq(oid, "1.2.840.113583.1.1.5") {
        to_owned_string("id-kp-documentSigning")
    } else if str_eq(oid, "1.3.6.1.5.5.7.3.9") {
        to_owned_string("id-kp-OCSPSigning")
    } else if str_eq(oid, "1.3.6.1.4.1.62558.2.1") {
        to_owned_string("c2pa-kp-claimSigning")
    } else if str_eq(oid, "1.3.6.1.4.1.62558.1.1") {
        to_owned_string("c2pa-certificate-policy")
    } else if str_eq(oid, "1.3.6.1.4.1.62558.3") {
        to_owned_string("c2pa-assurance-level")
    } else if str_eq(oid, "1.3.6.1.4.1.62558.4") {
        to_owned_string("c2pa-cpl-record")
    } else {
        unnamed(oid)
    }
}

// ---------------------------------------------------------------------------
// PEM and hex
// ---------------------------------------------------------------------------

/// The bytes of `-----BEGIN `.
pub open spec fn pem_header() -> Seq<u8> {
    seq![45u8, 45u8, 45u8, 45u8, 45u8, 66u8, 69u8, 71u8, 73u8, 78u8, 32u8]
}

/// Data that starts with a PEM header line.
pub open spec fn is_pem(data: Seq<u8>) -> bool {
    pem_header().len() <= data.len() && data.take(pem_header().len() as int) == pem_header()
}

pub fn looks_like_pem(data: &[u8]) -> (r: bool)
    ensures
        r == is_pem(data@),
{
    let header: [u8; 11] = [45, 45, 45, 45, 45, 66, 69, 71, 73, 78, 32];
    assert(header@ =~= pem_header());
    if data.len() < 11 {
        return false;
    }
    let mut i: usize = 0;
    while i < 11
        invariant
            i <= 11,
            11 <= data@.len(),
            header@ == pem_header(),
            data@.take(i as int) == pem_header().take(i as int),
        decreases 11 - i,
    {
        if data[i] != header[i] {
            assert(data@.take(11)[i as int] != pem_header()[i as int]);
            return false;
        }
        assert(data@.take(i + 1) =~= data@.take(i as int).push(data@[i as int]));
        assert(pem_header().take(i + 1) =~= pem_header().take(i as int).push(pem_header()[i as int]));
        i = i + 1;
    }
    assert(pem_header().take(11) =~= pem_header());
    true
}

/// Two lower-case hex digits of a byte.
pub open spec fn hex_byte(b: u8) -> Seq<char> {
    seq![hex_digit((b / 16) as nat), hex_digit((b % 16) as nat)]
}

pub open spec fn hex_byte_fn() -> spec_fn(u8) -> Seq<char> {
    |b: u8| hex_byte(b)
}

/// Lower-case hex text of bytes, two digits per byte.
pub open spec fn hex_of(bytes: Seq<u8>) -> Seq<char> {
    concat_map(bytes, hex_byte_fn())
}

/// `hex::encode`: the bytes as lower-case hex, each byte as two digits.
#[verifier::external_body]
pub(crate) fn hex_encode(bytes: &[u8]) -> (r: String)
    ensures
        r@ == hex_of(bytes@),
{
    hex::encode(bytes)
}

/// What `pem::parse` gives for data: the decoded contents of its first PEM block, or `None`
/// when the data holds no well-formed block.
pub uninterp spec fn pem_contents(data: Seq<u8>) -> Option<Seq<u8>>;

/// `pem::parse` followed by `Pem::into_contents`.
#[verifier::external_body]
pub(crate) fn pem_decode(data: &[u8]) -> (r: Option<Vec<u8>>)
    ensures
        match r {
            Some(v) => pem_contents(data@) == Some(v@),
            None => pem_contents(data@) is None,
        },
{
    match pem::parse(data) {
        Ok(p) => Some(p.into_contents()),
        Err(_) => None,
    }
}

// ---------------------------------------------------------------------------
// Results of a profile check
// ---------------------------------------------------------------------------

/// Result of checking one certificate against one profile schema.
#[derive(Debug)]
pub struct CertProfileResult {
    pub cert_path: String,
    pub schema_path: String,
    pub cert_json: JsonValue,
    pub errors: Vec<String>,
    pub passed: bool,
}

/// The result of a check that found the given errors: it passes exactly when there is none.
pub fn cert_profile_result(
    cert_path: String,
    schema_path: String,
    cert_json: JsonValue,
    errors: Vec<String>,
) -> (r: CertProfileResult)
    ensures
        r.cert_path == cert_path,
        r.schema_path == schema_path,
        r.cert_json == cert_json,
        r.errors == errors,
        r.passed == (errors@.len() == 0),
{
    let passed = errors.len() == 0;
    CertProfileResult { cert_path, schema_path, cert_json, errors, passed }
}

pub open spec fn strings_data(s: Seq<String>) -> JsonData {
    JsonData::Array(Seq::new(s.len(), |i: int| JsonData::Str(s[i]@)))
}

/// JSON report of a result.
pub open spec fn result_json_data(r: CertProfileResult) -> JsonData {
    JsonData::Object(
        seq![
            ("cert_path"@, JsonData::Str(r.cert_path@)),
            ("schema_path"@, JsonData::Str(r.schema_path@)),
            ("passed"@, JsonData::Bool(r.passed)),
            ("error_count"@, JsonData::Number(decimal(r.errors@.len()))),
            ("errors"@, strings_data(r.errors@)),
        ],
    )
}

fn strings_json(s: &Vec<String>) -> (r: JsonValue)
    ensures
        r.data() == strings_data(s@),
{
    let mut items: Vec<JsonValue> = Vec::new();
    let mut i: usize = 0;
    while i < s.len()
        invariant
            i <= s@.len(),
            items@.len() == i,
            forall|k: int| 0 <= k < i ==> #[trigger] items@[k].data() == JsonData::Str(s@[k]@),
        decreases s@.len() - i,
    {
        items.push(JsonValue::String(to_owned_string(s[i].as_str())));
        i = i + 1;
    }
    let r = JsonValue::Array(items);
    proof {
        lemma_array_data(&r);
        assert(datas(items@) =~= strings_data(s@)->Array_0);
    }
    r
}

/// Formats the validation result as a structured JSON report.
pub fn format_result_json(result: &CertProfileResult) -> (r: JsonValue)
    ensures
        r.data() == result_json_data(*result),
{
    let mut m: Vec<(String, JsonValue)> = Vec::new();
    m.push((to_owned_string("cert_path"), JsonValue::String(to_owned_string(result.cert_path.as_str()))));
    m.push((to_owned_string("schema_path"), JsonValue::String(to_owned_string(result.schema_path.as_str()))));
    m.push((to_owned_string("passed"), JsonValue::Bool(result.passed)));
    m.push((to_owned_string("error_count"), JsonValue::Number(decimal_string(result.errors.len()))));
    m.push((to_owned_string("errors"), strings_json(&result.errors)));
    let r = JsonValue::Object(m);
    proof {
        lemma_array_data(&r);
        assert(r.data()->Object_0 =~= result_json_data(*result)->Object_0);
    }
    r
}

/// One numbered error line of the text report.
pub open spec fn error_line(i: int, e: Seq<char>) -> Seq<char> {
    "  "@ + decimal((i + 1) as nat) + ". "@ + e + "\n"@
}

pub open spec fn error_lines(errors: Seq<Seq<char>>) -> Seq<char>
    decreases errors.len(),
{
    if errors.len() == 0 {
        Seq::empty()
    } else {
        error_lines(errors.drop_last()) + error_line(errors.len() - 1, errors.last())
    }
}

/// Text report of a result: a status line, then a confirmation or the numbered errors.
pub open spec fn result_text(r: CertProfileResult) -> Seq<char> {
    let status = if r.passed { "PASS"@ } else { "FAIL"@ };
    let head = "["@ + status + "] "@ + r.cert_path@ + " vs "@ + r.schema_path@ + "\n"@;
    if r.passed {
        head + "  Certificate matches the C2PA profile schema.\n"@
    } else {
        head + "  "@ + decimal(r.errors@.len()) + " error(s):\n"@ + error_lines(string_views(r.errors@))
    }
}

/// Formats the validation result as human-readable text.
pub fn format_result_text(result: &CertProfileResult) -> (r: String)
    requires
        result.errors@.len() < usize::MAX,
    ensures
        r@ == result_text(*result),
{
    let mut out = to_owned_string("[");
    push_str(&mut out, if result.passed { "PASS" } else { "FAIL" });
    push_str(&mut out, "] ");
    push_str(&mut out, result.cert_path.as_str());
    push_str(&mut out, " vs ");
    push_str(&mut out, result.schema_path.as_str());
    push_str(&mut out, "\n");
    if result.passed {
        push_str(&mut out, "  Certificate matches the C2PA profile schema.\n");
    } else {
        push_str(&mut out, "  ");
        let n = decimal_string(result.errors.len());
        push_str(&mut out, n.as_str());
        push_str(&mut out, " error(s):\n");
        let ghost head = out@;
        let ghost es = string_views(result.errors@);
        let mut i: usize = 0;
        while i < result.errors.len()
            invariant
                i <= result.errors@.len(),
                result.errors@.len() < usize::MAX,
                es == string_views(result.errors@),
                out@ == head + error_lines(es.take(i as int)),
            decreases result.errors@.len() - i,
        {
            proof {
                assert(es.take(i + 1).drop_last() =~= es.take(i as int));
            }
            push_str(&mut out, "  ");
            let k = decimal_string(i + 1);
            push_str(&mut out, k.as_str());
            push_str(&mut out, ". ");
            push_str(&mut out, result.errors[i].as_str());
            push_str(&mut out, "\n");
            i = i + 1;
        }
        proof {
            assert(es.take(es.len() as int) =~= es);
        }
    }
    out
}

} // verus!
