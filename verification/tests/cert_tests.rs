use c2pa_validate::cert::{
    algorithm_name, cert_profile_result, format_result_json, format_result_text, looks_like_pem,
    oid_name,
};
use c2pa_validate::cert_json::{
    serialize_extension, serialize_spki, time_string, Attribute, ExtensionBody, ExtensionModel,
    SpkiFields, TimeFields, name_value,
};
use c2pa_validate::cert_x509::{cert_to_json, validate_cert_json, CertError};
use c2pa_validate::json::{json_to_string, JsonValue};

#[test]
fn looks_like_pem_detects_header() {
    assert!(looks_like_pem(b"-----BEGIN CERTIFICATE-----\n"));
    assert!(!looks_like_pem(b"\x30\x82"));
}

#[test]
fn algorithm_name_returns_known() {
    assert_eq!(algorithm_name("1.2.840.10045.4.3.3"), "ecdsa-with-SHA384");
    assert_eq!(algorithm_name("1.2.3.4"), "OID:1.2.3.4");
}

#[test]
fn oid_name_returns_known() {
    assert_eq!(oid_name("1.3.6.1.4.1.62558.2.1"), "c2pa-kp-claimSigning");
    assert_eq!(oid_name("1.3.6.1.4.1.62558.3"), "c2pa-assurance-level");
    assert_eq!(oid_name("2.5.4.3"), "commonName");
    assert_eq!(oid_name("9.9"), "OID:9.9");
}

#[test]
fn text_report_lists_errors() {
    let failed = cert_profile_result(
        "leaf.pem".to_string(),
        "root.json".to_string(),
        JsonValue::Null,
        vec!["/a: missing".to_string(), "bad".to_string()],
    );
    assert!(!failed.passed);
    assert_eq!(
        format_result_text(&failed),
        "[FAIL] leaf.pem vs root.json\n  2 error(s):\n  1. /a: missing\n  2. bad\n"
    );
    let passed = cert_profile_result("leaf.pem".to_string(), "leaf.json".to_string(), JsonValue::Null, vec![]);
    assert!(passed.passed);
    assert_eq!(
        format_result_text(&passed),
        "[PASS] leaf.pem vs leaf.json\n  Certificate matches the C2PA profile schema.\n"
    );
}

#[test]
fn json_report_counts_errors() {
    let failed = cert_profile_result("c.pem".to_string(), "s.json".to_string(), JsonValue::Null, vec!["e".to_string()]);
    assert_eq!(
        json_to_string(&format_result_json(&failed)),
        "{\"cert_path\":\"c.pem\",\"schema_path\":\"s.json\",\"passed\":false,\"error_count\":1,\"errors\":[\"e\"]}"
    );
}

#[test]
fn bad_certificate_data_is_refused() {
    match cert_to_json(b"-----BEGIN CERTIFICATE-----\nnot base64 at all") {
        Err(CertError::Pem) => {}
        other => panic!("expected a PEM error, got {:?}", other.map(|_| ())),
    }
    match cert_to_json(&[0x30, 0x03, 0x02, 0x01, 0x01]) {
        Err(CertError::X509(m)) => assert!(!m.is_empty()),
        other => panic!("expected an X.509 error, got {:?}", other.map(|_| ())),
    }
    assert!(CertError::Pem.message().contains("PEM"));
    assert!(CertError::X509("x".to_string()).message().starts_with("failed to parse X.509 certificate: "));
}

#[test]
fn unknown_extension_values_are_decoded() {
    let oid_value = ExtensionModel {
        oid: "1.3.6.1.4.1.62558.3".to_string(),
        critical: false,
        value: vec![0x06, 0x03, 0x2a, 0x03, 0x04],
        body: ExtensionBody::Other,
    };
    let text = json_to_string(&serialize_extension(&oid_value));
    assert!(text.contains("\"_raw_value_hex\":\"06032a0304\""), "{}", text);
    assert!(text.contains("\"_asn1_type\":\"ObjectIdentifier\""), "{}", text);
    assert!(text.contains("\"value\":\"1.2.3.4\""), "{}", text);
    assert!(text.contains("\"name\":\"c2pa-assurance-level\""), "{}", text);

    let utf8 = ExtensionModel {
        oid: "1.3.6.1.4.1.62558.4".to_string(),
        critical: true,
        value: vec![0x0c, 0x02, b'h', b'i'],
        body: ExtensionBody::Other,
    };
    let text = json_to_string(&serialize_extension(&utf8));
    assert!(text.contains("\"_asn1_type\":\"UTF8String\",\"value\":\"hi\""), "{}", text);
    assert!(text.contains("\"critical\":true"), "{}", text);

    let no_check = ExtensionModel {
        oid: "1.3.6.1.5.5.7.48.1.5".to_string(),
        critical: false,
        value: vec![0x05, 0x00],
        body: ExtensionBody::Other,
    };
    assert!(json_to_string(&serialize_extension(&no_check)).contains("\"ocspNoCheck\":null"));

    let garbage = ExtensionModel {
        oid: "1.2.3".to_string(),
        critical: false,
        value: vec![0xff],
        body: ExtensionBody::Other,
    };
    assert!(json_to_string(&serialize_extension(&garbage)).contains("\"_unrecognized\":true"));
}

#[test]
fn key_usage_and_basic_constraints() {
    let ku = ExtensionModel {
        oid: "2.5.29.15".to_string(),
        critical: true,
        value: vec![],
        body: ExtensionBody::KeyUsage(0b1_0000_0001),
    };
    let text = json_to_string(&serialize_extension(&ku));
    assert!(text.contains("\"digitalSignature\":true"), "{}", text);
    assert!(text.contains("\"contentCommitment\":false"), "{}", text);
    assert!(text.contains("\"decipherOnly\":true"), "{}", text);
    let bc = ExtensionModel {
        oid: "2.5.29.19".to_string(),
        critical: true,
        value: vec![],
        body: ExtensionBody::BasicConstraints(true, Some(0)),
    };
    let text = json_to_string(&serialize_extension(&bc));
    assert!(text.contains("\"cA\":true,\"pathLenConstraint\":0"), "{}", text);
}

#[test]
fn eku_lists_key_purposes() {
    // SEQUENCE { OID 1.3.6.1.5.5.7.3.4 }
    let eku = ExtensionModel {
        oid: "2.5.29.37".to_string(),
        critical: false,
        value: vec![0x30, 0x0a, 0x06, 0x08, 0x2b, 0x06, 0x01, 0x05, 0x05, 0x07, 0x03, 0x04],
        body: ExtensionBody::ExtendedKeyUsage,
    };
    let text = json_to_string(&serialize_extension(&eku));
    assert!(text.contains("\"oid\":\"1.3.6.1.5.5.7.3.4\",\"name\":\"id-kp-emailProtection\""), "{}", text);
}

#[test]
fn ec_key_reports_curve() {
    let spki = SpkiFields {
        algorithm_oid: "1.2.840.10045.2.1".to_string(),
        parameter_oid: Some("1.3.132.0.34".to_string()),
        raw: vec![0xab],
        key: vec![0x04, 0x01],
    };
    let text = json_to_string(&serialize_spki(&spki));
    assert!(text.contains("\"name\":\"id-ecPublicKey\""), "{}", text);
    assert!(text.contains("\"curve\":\"secp384r1\",\"key_size_bits\":384,\"point_uncompressed_hex\":\"0401\""), "{}", text);
}

#[test]
fn times_and_names() {
    let t = TimeFields { year: 2024, month: 3, day: 7, hour: 9, minute: 5, second: 0 };
    assert_eq!(time_string(&t), "2024-03-07T09:05:00+00:00");
    let name = vec![vec![
        Attribute { oid: "2.5.4.3".to_string(), text: Some("Leaf".to_string()), raw: vec![] },
        Attribute { oid: "2.5.4.6".to_string(), text: None, raw: vec![0x01, 0xff] },
    ]];
    let text = json_to_string(&name_value(&name));
    assert_eq!(
        text,
        "[[{\"type\":{\"oid\":\"2.5.4.3\",\"name\":\"commonName\"},\"value\":\"Leaf\"},{\"type\":{\"oid\":\"2.5.4.6\",\"name\":\"countryName\"},\"value\":\"(hex)01ff\"}]]"
    );
}

#[test]
fn schema_violations_are_reported_with_paths() {
    let schema = JsonValue::Object(vec![
        ("type".to_string(), JsonValue::String("object".to_string())),
        (
            "required".to_string(),
            JsonValue::Array(vec![JsonValue::String("format".to_string())]),
        ),
    ]);
    let good = JsonValue::Object(vec![("format".to_string(), JsonValue::String("certificate".to_string()))]);
    assert_eq!(validate_cert_json(&good, &schema).unwrap(), Vec::<String>::new());
    let bad = JsonValue::Object(vec![]);
    let errors = validate_cert_json(&bad, &schema).unwrap();
    assert_eq!(errors.len(), 1);
    assert!(errors[0].contains("format"), "{:?}", errors);
    let bad_schema = JsonValue::Object(vec![("type".to_string(), JsonValue::Number("12".to_string()))]);
    assert!(matches!(validate_cert_json(&good, &bad_schema), Err(CertError::Schema(_))));
}

const LEAF_PEM: &str = "-----BEGIN CERTIFICATE-----\nMIIC4DCCAoagAwIBAgICEjQwCgYIKoZIzj0EAwIwNzESMBAGA1UEAwwJVGVzdCBM\nZWFmMRQwEgYDVQQKDAtFeGFtcGxlIE9yZzELMAkGA1UEBhMCVVMwHhcNMjYxMTE4\nMDQ1NTQ2WhcNMjcxMTE4MDQ1NTQ2WjA3MRIwEAYDVQQDDAlUZXN0IExlYWYxFDAS\nBgNVBAoMC0V4YW1wbGUgT3JnMQswCQYDVQQGEwJVUzBZMBMGByqGSM49AgEGCCqG\nSM49AwEHA0IABKFP9UucCAl+UjSunOjGciSnwvViAUr+FcNcquikqyEbEGOYrRVK\nDDcwnvtGdsgHJDyhoFK2wo7mhoXxUTBhzSCjggGAMIIBfDAMBgNVHRMBAf8EAjAA\nMA4GA1UdDwEB/wQEAwIHgDAfBgNVHSUEGDAWBgorBgEEAYPoXgIBBggrBgEFBQcD\nBDAdBgNVHQ4EFgQUC+ktv/vopwyGWeC0m2Nd2+o6XbwwPQYDVR0gBDYwNDAyBgor\nBgEEAYPoXgEBMCQwIgYIKwYBBQUHAgEWFmh0dHA6Ly9jcHMuZXhhbXBsZS5jb20w\nXQYIKwYBBQUHAQEEUTBPMCMGCCsGAQUFBzABhhdodHRwOi8vb2NzcC5leGFtcGxl\nLmNvbTAoBggrBgEFBQcwAoYcaHR0cDovL2NhLmV4YW1wbGUuY29tL2NhLmNydDAu\nBgNVHR8EJzAlMCOgIaAfhh1odHRwOi8vY3JsLmV4YW1wbGUuY29tL2NhLmNybDAZ\nBgkrBgEEAYPoXgMEDAYKKwYBBAGD6F4DCjAzBgkrBgEEAYPoXgQEJgwkMGY4ZmFk\nNWItZDljYi00NjlmLWExNjUtNzA4Njc3Mjg5NTBlMAoGCCqGSM49BAMCA0gAMEUC\nIQCakvOU1lyLK6MmGhrn+boN55CHYyCPHgeh7v9H/VoeyQIgMGYhggORi2iFSsF+\nvOjELkvgVLm6QQFdhDBOIHGiYBs=\n-----END CERTIFICATE-----\n";

const RSA_ROOT_PEM: &str = "-----BEGIN CERTIFICATE-----\nMIIB8jCCAVugAwIBAgIBATANBgkqhkiG9w0BAQsFADATMREwDwYDVQQDDAhSU0Eg\nUm9vdDAeFw0yNjExMTgwNDU1NDhaFw0yNjEyMTgwNDU1NDhaMBMxETAPBgNVBAMM\nCFJTQSBSb290MIGfMA0GCSqGSIb3DQEBAQUAA4GNADCBiQKBgQC6c4I7B9B78o2S\nXdVR9SNsZHFs5TCwQK+gfYNh/igDXIiAqKIiwm5emPHsB8imCJ9n2Py2ZeXIGWXt\nswhkEr4FnhgCIXw5I7ViAqbEfQ/hzrpxnLICJdBVBdU60gxTTnA+sMtRyQte0K3E\n8tHdozWSbzr+aFw9uSUirWjMn5SHzwIDAQABo1YwVDASBgNVHRMBAf8ECDAGAQH/\nAgEBMA4GA1UdDwEB/wQEAwIBBjAPBgkrBgEFBQcwAQUEAgUAMB0GA1UdDgQWBBTu\ncr8tkJPaov6c3FltZSEe4N+XSTANBgkqhkiG9w0BAQsFAAOBgQAQyjkTXuyxhbO2\nLawUsn6A8966A3sXbC4GawEXrcRXIki+vcWZn0UmCn4JUsSJcoVb1bCa1tOFMqA+\ncMuQDirGO4KoXI2IgWEQoXU3q5xbfKouD+mvKAO01GlI/GPU8gywHdVvhNhFhZq3\nIS2Ja5kjv4Z1ZAUZw/JmSVq/pDnBeA==\n-----END CERTIFICATE-----\n";

fn extension_with_oid<'a>(json: &'a JsonValue, oid: &str) -> &'a JsonValue {
    let exts = json
        .get("decoded")
        .and_then(|d| d.get("tbsCertificate"))
        .and_then(|t| t.get("extensions"))
        .and_then(|e| e.as_array())
        .expect("extensions array");
    exts.iter()
        .find(|e| e.get("extnID").and_then(|i| i.get("oid")).and_then(|o| o.as_str()) == Some(oid))
        .expect("extension present")
}

#[test]
fn cert_json_has_required_top_level_fields() {
    let json = cert_to_json(LEAF_PEM.as_bytes()).expect("cert_to_json failed");
    assert_eq!(json.get("format").and_then(|f| f.as_str()), Some("certificate"));
    assert!(json.get("decoded").is_some());
    let raw = json.get("raw_hex").and_then(|r| r.as_str()).unwrap();
    assert!(raw.starts_with("308202e0"), "{}", raw);
}

#[test]
fn leaf_certificate_fields() {
    let json = cert_to_json(LEAF_PEM.as_bytes()).expect("cert_to_json failed");
    let text = json_to_string(&json);
    assert!(text.contains("\"version\":{\"value\":2,\"rawValue\":\"v3\"}"), "{}", text);
    assert!(text.contains("\"serialNumber_hex\":\"0x1234\""), "{}", text);
    assert!(text.contains("\"name\":\"ecdsa-with-SHA256\""), "{}", text);
    assert!(text.contains("\"value\":\"Test Leaf\""), "{}", text);
    assert!(text.contains("\"computedValidityDays\":365"), "{}", text);
    assert!(text.contains("\"_encoding\":\"UTCTime\""), "{}", text);
    assert!(text.contains("\"curve\":\"secp256r1\",\"key_size_bits\":256"), "{}", text);
}

#[test]
fn cert_json_tbs_has_extensions() {
    let json = cert_to_json(LEAF_PEM.as_bytes()).expect("cert_to_json failed");
    let exts = json
        .get("decoded")
        .and_then(|d| d.get("tbsCertificate"))
        .and_then(|t| t.get("extensions"))
        .and_then(|e| e.as_array())
        .expect("extensions array");
    assert!(exts.len() >= 6, "leaf cert should have at least 6 extensions, got {}", exts.len());
}

#[test]
fn cert_json_c2pa_assurance_level_decoded() {
    let json = cert_to_json(LEAF_PEM.as_bytes()).expect("cert_to_json failed");
    let ext = extension_with_oid(&json, "1.3.6.1.4.1.62558.3");
    let decoded = ext.get("extnValue").and_then(|v| v.get("_pyasn1_decoded")).unwrap();
    assert_eq!(decoded.get("_asn1_type").and_then(|t| t.as_str()), Some("ObjectIdentifier"));
    assert_eq!(decoded.get("value").and_then(|t| t.as_str()), Some("1.3.6.1.4.1.62558.3.10"));
}

#[test]
fn cert_json_c2pa_cpl_record_decoded() {
    let json = cert_to_json(LEAF_PEM.as_bytes()).expect("cert_to_json failed");
    let ext = extension_with_oid(&json, "1.3.6.1.4.1.62558.4");
    let decoded = ext.get("extnValue").and_then(|v| v.get("_pyasn1_decoded")).unwrap();
    assert_eq!(decoded.get("_asn1_type").and_then(|t| t.as_str()), Some("UTF8String"));
    let value = decoded.get("value").and_then(|t| t.as_str()).expect("CPL value should be a string");
    assert_eq!(value.len(), 36, "CPL record ID should be a UUID (36 chars)");
}

#[test]
fn cert_json_eku_contains_c2pa_oid() {
    let json = cert_to_json(LEAF_PEM.as_bytes()).expect("cert_to_json failed");
    let ext = extension_with_oid(&json, "2.5.29.37");
    let ekus = ext
        .get("extnValue")
        .and_then(|v| v.get("extendedKeyUsage"))
        .and_then(|e| e.as_array())
        .expect("extendedKeyUsage should be array");
    let oids: Vec<&str> = ekus.iter().filter_map(|e| e.get("oid").and_then(|o| o.as_str())).collect();
    assert_eq!(oids, vec!["1.3.6.1.4.1.62558.2.1", "1.3.6.1.5.5.7.3.4"]);
}

#[test]
fn leaf_policies_access_and_distribution_points() {
    let json = cert_to_json(LEAF_PEM.as_bytes()).expect("cert_to_json failed");
    let pol = json_to_string(extension_with_oid(&json, "2.5.29.32"));
    assert!(pol.contains("\"name\":\"c2pa-certificate-policy\""), "{}", pol);
    assert!(pol.contains("\"_type\":\"id-qt-cps\",\"CPSuri\":\"http://cps.example.com\""), "{}", pol);
    let aia = json_to_string(extension_with_oid(&json, "1.3.6.1.5.5.7.1.1"));
    assert!(aia.contains("\"name\":\"id-ad-ocsp\""), "{}", aia);
    assert!(aia.contains("\"_type\":\"uniformResourceIdentifier\",\"value\":\"http://ocsp.example.com\""), "{}", aia);
    let cdp = json_to_string(extension_with_oid(&json, "2.5.29.31"));
    assert!(cdp.contains("\"distributionPoint\":{\"fullName\":[{\"_type\":\"uniformResourceIdentifier\",\"value\":\"http://crl.example.com/ca.crl\"}]}"), "{}", cdp);
    let ku = json_to_string(extension_with_oid(&json, "2.5.29.15"));
    assert!(ku.contains("\"critical\":true"), "{}", ku);
    assert!(ku.contains("\"digitalSignature\":true,\"contentCommitment\":false"), "{}", ku);
}

#[test]
fn ocsp_cert_has_ocsp_no_check() {
    let json = cert_to_json(RSA_ROOT_PEM.as_bytes()).expect("cert_to_json failed");
    let ext = extension_with_oid(&json, "1.3.6.1.5.5.7.48.1.5");
    let v = ext.get("extnValue").unwrap();
    assert!(matches!(v.get("ocspNoCheck"), Some(JsonValue::Null)), "ocspNoCheck should be null");
}

#[test]
fn rsa_root_key_and_constraints() {
    let json = cert_to_json(RSA_ROOT_PEM.as_bytes()).expect("cert_to_json failed");
    let text = json_to_string(&json);
    assert!(text.contains("\"modulus_bits\":1024"), "{}", text);
    assert!(text.contains("\"modulus_hex\":\"0xba73823b"), "{}", text);
    assert!(text.contains("\"publicExponent\":65537"), "{}", text);
    assert!(text.contains("\"name\":\"sha256WithRSAEncryption\""), "{}", text);
    let bc = json_to_string(extension_with_oid(&json, "2.5.29.19"));
    assert!(bc.contains("\"cA\":true,\"pathLenConstraint\":1"), "{}", bc);
}

#[test]
fn pem_block_without_a_certificate() {
    // A well-formed PEM block holding DER that is not a certificate.
    match cert_to_json(b"-----BEGIN DATA-----\nMAMCAQE=\n-----END DATA-----\n") {
        Err(CertError::X509(_)) => {}
        other => panic!("expected an X.509 error, got {:?}", other.map(|_| ())),
    }
}
