//! Tests of trust-material assembly against real PKCS#12 bundles.

use openssl::asn1::Asn1Time;
use openssl::bn::{BigNum, MsbOption};
use openssl::ec::{EcGroup, EcKey};
use openssl::hash::MessageDigest;
use openssl::nid::Nid;
use openssl::pkey::{PKey, Private};
use openssl::pkcs12::Pkcs12;
use openssl::stack::Stack;
use openssl::x509::extension::BasicConstraints;
use openssl::x509::{X509, X509NameBuilder};

use mtls_gate::assemble::{
    assemble_material, build_acceptor_from_pkcs12, classify_cas, exclude_self_signed,
    install_client_ca, parse_pkcs12, MaterialError, ParsedBundle,
};

fn make_key() -> PKey<Private> {
    let group = EcGroup::from_curve_name(Nid::X9_62_PRIME256V1).unwrap();
    let ec = EcKey::generate(&group).unwrap();
    PKey::from_ec_key(ec).unwrap()
}

fn make_name(cn: &str, ou: Option<&str>) -> openssl::x509::X509Name {
    let mut name = X509NameBuilder::new().unwrap();
    name.append_entry_by_nid(Nid::COMMONNAME, cn).unwrap();
    if let Some(ou) = ou {
        name.append_entry_by_nid(Nid::ORGANIZATIONALUNITNAME, ou)
            .unwrap();
    }
    name.build()
}

fn make_cert(
    cn: &str,
    ou: Option<&str>,
    key: &PKey<Private>,
    issuer: Option<(&X509, &PKey<Private>)>,
    is_ca: bool,
) -> X509 {
    let name = make_name(cn, ou);
    let mut b = X509::builder().unwrap();
    b.set_version(2).unwrap();
    b.set_subject_name(&name).unwrap();
    match issuer {
        Some((ca, _)) => b.set_issuer_name(ca.subject_name()).unwrap(),
        None => b.set_issuer_name(&name).unwrap(),
    }
    b.set_pubkey(key).unwrap();
    b.set_not_before(&Asn1Time::days_from_now(0).unwrap()).unwrap();
    b.set_not_after(&Asn1Time::days_from_now(7).unwrap()).unwrap();
    let mut serial = BigNum::new().unwrap();
    serial.rand(64, MsbOption::MAYBE_ZERO, false).unwrap();
    b.set_serial_number(&serial.to_asn1_integer().unwrap()).unwrap();
    if is_ca {
        b.append_extension(BasicConstraints::new().critical().ca().build().unwrap())
            .unwrap();
    }
    match issuer {
        Some((_, ca_key)) => b.sign(ca_key, MessageDigest::sha256()).unwrap(),
        None => b.sign(key, MessageDigest::sha256()).unwrap(),
    }
    b.build()
}

struct Material {
    ca_key: PKey<Private>,
    ca: X509,
    server_key: PKey<Private>,
    server: X509,
}

fn make_material() -> Material {
    let ca_key = make_key();
    let ca = make_cert("test-root", None, &ca_key, None, true);
    let server_key = make_key();
    let server = make_cert(
        "server",
        None,
        &server_key,
        Some((&ca, &ca_key)),
        false,
    );
    Material {
        ca_key,
        ca,
        server_key,
        server,
    }
}

fn bundle_der(m: &Material, extra: &[&X509], password: &str) -> Vec<u8> {
    let mut stack: Stack<X509> = Stack::new().unwrap();
    for c in extra {
        stack.push((*c).clone()).unwrap();
    }
    let mut builder = Pkcs12::builder();
    builder.name("test");
    builder.pkey(&m.server_key);
    builder.cert(&m.server);
    builder.ca(stack);
    builder.build2(password).unwrap().to_der().unwrap()
}

#[test]
fn self_signed_root_is_excluded_from_the_extra_chain() {
    let m = make_material();
    let inter_key = make_key();
    let inter = make_cert(
        "intermediate",
        None,
        &inter_key,
        Some((&m.ca, &m.ca_key)),
        true,
    );
    let cas = vec![m.ca.clone(), inter.clone()];
    let tags = classify_cas(&cas);
    assert_eq!(tags, vec![true, false]);
    let chain = exclude_self_signed(&cas, &tags);
    assert_eq!(chain.len(), 1);
    assert_eq!(
        chain[0].to_der().unwrap(),
        inter.to_der().unwrap()
    );
    let root_der = m.ca.to_der().unwrap();
    assert!(chain.iter().all(|c| c.to_der().unwrap() != root_der));
}

#[test]
fn full_bundle_assembles_into_an_acceptor() {
    let m = make_material();
    let der = bundle_der(&m, &[&m.ca], "changeit");
    let r = build_acceptor_from_pkcs12(&der, "changeit");
    assert!(r.is_ok());
}

#[test]
fn wrong_password_is_a_bundle_error() {
    let m = make_material();
    let der = bundle_der(&m, &[&m.ca], "changeit");
    let r = build_acceptor_from_pkcs12(&der, "not-the-password");
    assert!(matches!(r, Err(MaterialError::BadBundle)));
}

#[test]
fn garbage_bytes_are_a_bundle_error() {
    let r = build_acceptor_from_pkcs12(b"not a PKCS#12 container", "changeit");
    assert!(matches!(r, Err(MaterialError::BadBundle)));
}

#[test]
fn bundle_without_private_key_is_a_missing_key_error() {
    let m = make_material();
    let mut builder = Pkcs12::builder();
    builder.name("test");
    builder.cert(&m.server);
    let der = builder.build2("changeit").unwrap().to_der().unwrap();
    let r = build_acceptor_from_pkcs12(&der, "changeit");
    assert!(matches!(r, Err(MaterialError::MissingKey)));
}

#[test]
fn missing_key_and_missing_cert_are_distinct_errors() {
    let m = make_material();
    let no_key = ParsedBundle {
        pkey: None,
        cert: Some(m.server.clone()),
        cas: Vec::new(),
    };
    let no_cert = ParsedBundle {
        pkey: Some(m.server_key.clone()),
        cert: None,
        cas: Vec::new(),
    };
    let e_key = assemble_material(no_key, &vec![]).err().unwrap();
    let e_cert = assemble_material(no_cert, &vec![]).err().unwrap();
    assert_eq!(e_key, MaterialError::MissingKey);
    assert_eq!(e_cert, MaterialError::MissingCert);
    assert_ne!(e_key, e_cert);
    assert_ne!(e_key.message(), e_cert.message());
}

#[test]
fn assembled_material_keeps_only_unflagged_cas() {
    let m = make_material();
    let inter_key = make_key();
    let inter = make_cert(
        "intermediate",
        None,
        &inter_key,
        Some((&m.ca, &m.ca_key)),
        true,
    );
    let bundle = ParsedBundle {
        pkey: Some(m.server_key.clone()),
        cert: Some(m.server.clone()),
        cas: vec![m.ca.clone(), inter.clone()],
    };
    let tags = classify_cas(&bundle.cas);
    let material = assemble_material(bundle, &tags).unwrap();
    assert_eq!(material.extra_chain.len(), 1);
    assert_eq!(
        material.extra_chain[0].to_der().unwrap(),
        inter.to_der().unwrap()
    );
    assert_eq!(
        material.cert.to_der().unwrap(),
        m.server.to_der().unwrap()
    );
}

#[test]
fn parsed_bundle_keeps_key_cert_and_ca_order() {
    let m = make_material();
    let inter_key = make_key();
    let inter_a = make_cert("inter-a", None, &inter_key, Some((&m.ca, &m.ca_key)), true);
    let inter_b = make_cert("inter-b", None, &inter_key, Some((&m.ca, &m.ca_key)), true);
    let der = bundle_der(&m, &[&inter_a, &inter_b], "changeit");
    let bundle = parse_pkcs12(&der, "changeit").unwrap();
    assert!(bundle.pkey.is_some());
    assert_eq!(
        bundle.cert.unwrap().to_der().unwrap(),
        m.server.to_der().unwrap()
    );
    let ders: Vec<Vec<u8>> = bundle.cas.iter().map(|c| c.to_der().unwrap()).collect();
    let mut expected = vec![inter_a.to_der().unwrap(), inter_b.to_der().unwrap()];
    // The container may order its CA bag either way; what matters is that
    // both certificates survive the round trip intact.
    let mut got = ders.clone();
    got.sort();
    expected.sort();
    assert_eq!(got, expected);
    let bad = parse_pkcs12(&der, "wrong");
    assert!(matches!(bad, Err(MaterialError::BadBundle)));
}

#[test]
fn client_ca_installation_accepts_pem_and_rejects_garbage() {
    let m = make_material();
    let der = bundle_der(&m, &[], "changeit");
    let mut builder = build_acceptor_from_pkcs12(&der, "changeit").unwrap();
    assert!(install_client_ca(&mut builder, &m.ca.to_pem().unwrap()).is_ok());
    // No PEM start line at all: decodes to no certificate.
    let r = install_client_ca(&mut builder, b"not a PEM certificate");
    assert!(matches!(r, Err(MaterialError::BadClientCa)));
    // A started but corrupt PEM block: decoding fails.
    let corrupt = b"-----BEGIN CERTIFICATE-----\nnot base64 at all!!!\n-----END CERTIFICATE-----\n";
    let r = install_client_ca(&mut builder, corrupt);
    assert!(matches!(r, Err(MaterialError::BadClientCa)));
}

#[test]
fn client_ca_installation_takes_a_multi_root_file() {
    let m = make_material();
    let other_key = make_key();
    let other_ca = make_cert("second-root", None, &other_key, None, true);
    let mut pem = m.ca.to_pem().unwrap();
    pem.extend_from_slice(&other_ca.to_pem().unwrap());
    let der = bundle_der(&m, &[], "changeit");
    let mut builder = build_acceptor_from_pkcs12(&der, "changeit").unwrap();
    assert!(install_client_ca(&mut builder, &pem).is_ok());
}

#[test]
fn error_messages_are_descriptive() {
    assert_eq!(MaterialError::MissingKey.message(), "PKCS#12 has no private key");
    assert_eq!(
        MaterialError::MissingCert.message(),
        "PKCS#12 has no end-entity certificate"
    );
    assert_eq!(
        MaterialError::BadBundle.message(),
        "cannot parse or decrypt the PKCS#12 bundle"
    );
}
