//! Trust-material assembly from a PKCS#12 bundle: decrypt the container,
//! demand a private key and an end-entity certificate, and build the extra
//! chain presented to peers, excluding every self-signed root so that the
//! server never pushes a trust anchor to its clients.

use vstd::prelude::*;
use openssl::error::ErrorStack;
use openssl::pkcs12::Pkcs12;
use openssl::pkey::PKey;
use openssl::pkey::Private;
use openssl::ssl::SslAcceptorBuilder;
use openssl::x509::X509;

verus! {

#[verifier::external_type_specification]
#[verifier::external_body]
pub struct ExX509(X509);

#[verifier::external_type_specification]
#[verifier::external_body]
#[verifier::reject_recursive_types(T)]
pub struct ExPKey<T>(PKey<T>);

#[verifier::external_type_specification]
#[verifier::external_body]
pub struct ExPrivate(Private);

#[verifier::external_type_specification]
#[verifier::external_body]
pub struct ExSslAcceptorBuilder(SslAcceptorBuilder);

#[verifier::external_type_specification]
#[verifier::external_body]
pub struct ExErrorStack(ErrorStack);

/// What a decrypted PKCS#12 container yields: at most one private key, at
/// most one end-entity certificate, and the CA certificates of the bundle in
/// their stored order.
pub struct ParsedBundle {
    pub pkey: Option<PKey<Private>>,
    pub cert: Option<X509>,
    pub cas: Vec<X509>,
}

/// Why trust material could not be assembled.
#[derive(Clone, Copy, Debug, PartialEq, Eq, Structural)]
pub enum MaterialError {
    /// The container bytes could not be parsed or decrypted.
    BadBundle,
    /// The bundle holds no private key.
    MissingKey,
    /// The bundle holds no end-entity certificate.
    MissingCert,
    /// The client-CA certificate could not be parsed.
    BadClientCa,
    /// The TLS engine refused the assembled material.
    Configure,
}

/// The operator-facing description of each assembly error.
pub open spec fn spec_error_text(e: MaterialError) -> Seq<char> {
    match e {
        MaterialError::BadBundle => "cannot parse or decrypt the PKCS#12 bundle"@,
        MaterialError::MissingKey => "PKCS#12 has no private key"@,
        MaterialError::MissingCert => "PKCS#12 has no end-entity certificate"@,
        MaterialError::BadClientCa => "cannot parse the client CA certificate"@,
        MaterialError::Configure => "TLS engine refused the assembled material"@,
    }
}

impl MaterialError {
    /// The descriptive text of this error.
    pub fn message(&self) -> (r: &'static str)
        ensures
            r@ == spec_error_text(*self),
    {
        match self {
            MaterialError::BadBundle => "cannot parse or decrypt the PKCS#12 bundle",
            MaterialError::MissingKey => "PKCS#12 has no private key",
            MaterialError::MissingCert => "PKCS#12 has no end-entity certificate",
            MaterialError::BadClientCa => "cannot parse the client CA certificate",
            MaterialError::Configure => "TLS engine refused the assembled material",
        }
    }
}

/// A password can be handed to the decryption routine only if it has no NUL
/// character, which the underlying C string cannot carry.
pub open spec fn password_ok(p: Seq<char>) -> bool {
    forall|i: int| 0 <= i < p.len() ==> p[i] != '\0'
}

/// Whether the DER bytes parse as a PKCS#12 container that the password
/// decrypts; a function of the bytes and the password alone.
pub uninterp spec fn spec_p12_ok(der: Seq<u8>, password: Seq<char>) -> bool;

/// Whether the decrypted container holds a private key; meaningful where
/// `spec_p12_ok` holds of the same bytes and password.
pub uninterp spec fn spec_p12_has_key(der: Seq<u8>, password: Seq<char>) -> bool;

/// Whether the decrypted container holds an end-entity certificate;
/// meaningful where `spec_p12_ok` holds of the same bytes and password.
pub uninterp spec fn spec_p12_has_cert(der: Seq<u8>, password: Seq<char>) -> bool;

/// Relies on Pkcs12::from_der and Pkcs12::parse2: parses the DER bytes and
/// decrypts the container with the password; success, and whether a key and
/// an end-entity certificate are present, are functions of the bytes and the
/// password alone. The bundle's CA stack is carried over into a vector
/// element by element, in order, defaulting to empty where the container has
/// no CA stack.
#[verifier::external_body]
fn pkcs12_decode(der: &[u8], password: &str) -> (r: Result<ParsedBundle, ErrorStack>)
    requires
        password_ok(password@),
    ensures
        r is Ok <==> spec_p12_ok(der@, password@),
        r is Ok ==> (r->Ok_0.pkey is Some <==> spec_p12_has_key(der@, password@)),
        r is Ok ==> (r->Ok_0.cert is Some <==> spec_p12_has_cert(der@, password@)),
{
    let p12 = Pkcs12::from_der(der)?;
    p12.parse2(password).map(|parsed| ParsedBundle {
        pkey: parsed.pkey,
        cert: parsed.cert,
        cas: parsed.ca.map(|st| st.into_iter().collect()).unwrap_or_else(Vec::new),
    })
}

/// Relies on X509Ref::issued: reports whether the certificate, validated
/// against itself with the trust engine's own issuer-matching algorithm
/// (not a byte comparison of the name fields), is its own issuer.
#[verifier::external_body]
fn is_self_signed(cert: &X509) -> (r: bool) {
    cert.issued(cert) == openssl::x509::X509VerifyResult::OK
}

/// Relies on the Clone impl of X509: cloning yields a handle to the same
/// underlying certificate.
#[verifier::external_body]
fn clone_cert(cert: &X509) -> (r: X509)
    ensures
        r == *cert,
{
    cert.clone()
}

/// Relies on SslAcceptor::mozilla_intermediate: a fresh TLS server
/// configuration built from a vetted template.
#[verifier::external_body]
fn new_tls_builder() -> (r: Result<SslAcceptorBuilder, ErrorStack>) {
    openssl::ssl::SslAcceptor::mozilla_intermediate(openssl::ssl::SslMethod::tls())
}

/// Relies on SslContextBuilder::set_private_key: installs the server's
/// private key into the configuration.
#[verifier::external_body]
fn builder_set_private_key(b: &mut SslAcceptorBuilder, key: &PKey<Private>) -> (r: Result<
    (),
    ErrorStack,
>) {
    b.set_private_key(key)
}

/// Relies on SslContextBuilder::set_certificate: installs the server's leaf
/// certificate into the configuration.
#[verifier::external_body]
fn builder_set_certificate(b: &mut SslAcceptorBuilder, cert: &X509) -> (r: Result<
    (),
    ErrorStack,
>) {
    b.set_certificate(cert)
}

/// Relies on SslContextBuilder::add_extra_chain_cert: appends one
/// certificate to the chain presented to peers, taking ownership of it.
#[verifier::external_body]
fn builder_add_extra_chain_cert(b: &mut SslAcceptorBuilder, cert: X509) -> (r: Result<
    (),
    ErrorStack,
>) {
    b.add_extra_chain_cert(cert)
}

/// Whether decoding the buffer's PEM certificates succeeds (every block
/// introduced by a PEM start line parses as a certificate); a function of
/// the bytes alone. A buffer with no start line at all decodes successfully
/// to nothing.
pub uninterp spec fn spec_pem_certs_ok(pem: Seq<u8>) -> bool;

/// How many certificates the buffer's PEM blocks yield; meaningful where
/// `spec_pem_certs_ok` holds of the same bytes.
pub uninterp spec fn spec_pem_cert_count(pem: Seq<u8>) -> nat;

/// Relies on X509::stack_from_pem: parses every PEM-encoded certificate in
/// the buffer, in order; both success and the number of certificates are
/// functions of the bytes alone. The `requires` keeps the buffer within the
/// C `int` range, above which the underlying memory BIO constructor panics.
#[verifier::external_body]
fn x509_stack_from_pem(pem: &[u8]) -> (r: Result<Vec<X509>, ErrorStack>)
    requires
        pem@.len() <= 0x7fff_ffff,
    ensures
        r is Ok <==> spec_pem_certs_ok(pem@),
        r is Ok ==> r->Ok_0@.len() == spec_pem_cert_count(pem@),
{
    X509::stack_from_pem(pem)
}

/// Relies on X509StoreBuilderRef::add_cert, reached through
/// SslContextBuilder::cert_store_mut: adds the certificate to the store of
/// roots that client certificates are validated against.
#[verifier::external_body]
fn builder_trust_ca(b: &mut SslAcceptorBuilder, ca: &X509) -> (r: Result<(), ErrorStack>) {
    b.cert_store_mut().add_cert(ca.clone())
}

/// Relies on SslContextBuilder::add_client_ca: adds the certificate's
/// subject to the list of acceptable client-certificate issuer names the
/// server advertises to peers.
#[verifier::external_body]
fn builder_add_client_ca(b: &mut SslAcceptorBuilder, ca: &X509) -> (r: Result<(), ErrorStack>) {
    b.add_client_ca(ca)
}

/// Installs the client-CA trust material into a server configuration: every
/// certificate parsed from the PEM bytes becomes a trusted root for
/// client-certificate validation, and each one's name is advertised to
/// clients as an acceptable issuer. A buffer that does not decode, or
/// decodes to no certificate at all, is its own distinct error.
pub fn install_client_ca(builder: &mut SslAcceptorBuilder, ca_pem: &[u8]) -> (r: Result<
    (),
    MaterialError,
>)
    requires
        ca_pem@.len() <= 0x7fff_ffff,
    ensures
        (r == Err::<(), MaterialError>(MaterialError::BadClientCa)) <==> (!spec_pem_certs_ok(
            ca_pem@,
        ) || spec_pem_cert_count(ca_pem@) == 0),
        (spec_pem_certs_ok(ca_pem@) && spec_pem_cert_count(ca_pem@) > 0) ==> (r is Ok || r
            == Err::<(), MaterialError>(MaterialError::Configure)),
{
    let mut cas = match x509_stack_from_pem(ca_pem) {
        Ok(v) => v,
        Err(_) => {
            return Err(MaterialError::BadClientCa);
        },
    };
    if cas.len() == 0 {
        return Err(MaterialError::BadClientCa);
    }
    while cas.len() > 0
        invariant
            spec_pem_certs_ok(ca_pem@),
            spec_pem_cert_count(ca_pem@) > 0,
        decreases cas@.len(),
    {
        let ca = cas.remove(0);
        if builder_trust_ca(builder, &ca).is_err() {
            return Err(MaterialError::Configure);
        }
        if builder_add_client_ca(builder, &ca).is_err() {
            return Err(MaterialError::Configure);
        }
    }
    Ok(())
}

/// Decrypts the DER bytes of a PKCS#12 container into the library's bundle
/// model: it succeeds exactly when the bytes parse and the password
/// decrypts, and any such failure is one distinct error.
pub fn parse_pkcs12(der: &[u8], password: &str) -> (r: Result<ParsedBundle, MaterialError>)
    requires
        password_ok(password@),
    ensures
        r is Ok <==> spec_p12_ok(der@, password@),
        (r == Err::<ParsedBundle, MaterialError>(MaterialError::BadBundle)) <==> !spec_p12_ok(
            der@,
            password@,
        ),
        r is Ok ==> (r->Ok_0.pkey is Some <==> spec_p12_has_key(der@, password@)),
        r is Ok ==> (r->Ok_0.cert is Some <==> spec_p12_has_cert(der@, password@)),
{
    match pkcs12_decode(der, password) {
        Ok(b) => Ok(b),
        Err(_) => Err(MaterialError::BadBundle),
    }
}

/// The extra chain assembled from CA certificates and their self-signed
/// tags: the certificates whose tag is false, in input order.
pub open spec fn spec_extra_chain(cas: Seq<X509>, tags: Seq<bool>) -> Seq<X509>
    decreases cas.len(),
{
    if cas.len() == 0 || tags.len() == 0 {
        Seq::<X509>::empty()
    } else {
        let rest = spec_extra_chain(cas.drop_first(), tags.drop_first());
        if tags[0] {
            rest
        } else {
            seq![cas[0]] + rest
        }
    }
}

proof fn lemma_extra_chain_push(cas: Seq<X509>, tags: Seq<bool>, c: X509, t: bool)
    requires
        cas.len() == tags.len(),
    ensures
        spec_extra_chain(cas.push(c), tags.push(t)) == spec_extra_chain(cas, tags) + (if t {
            Seq::<X509>::empty()
        } else {
            seq![c]
        }),
    decreases cas.len(),
{
    if cas.len() == 0 {
        assert(cas.push(c).drop_first() =~= Seq::<X509>::empty());
        assert(tags.push(t).drop_first() =~= Seq::<bool>::empty());
        assert(cas.push(c)[0] == c);
        assert(tags.push(t)[0] == t);
        assert(spec_extra_chain(Seq::<X509>::empty(), Seq::<bool>::empty()) =~= Seq::<
            X509,
        >::empty());
        assert(spec_extra_chain(cas, tags) =~= Seq::<X509>::empty());
        assert(spec_extra_chain(cas.push(c), tags.push(t)) =~= spec_extra_chain(cas, tags) + (if t {
            Seq::<X509>::empty()
        } else {
            seq![c]
        }));
    } else {
        assert(cas.push(c).drop_first() =~= cas.drop_first().push(c));
        assert(tags.push(t).drop_first() =~= tags.drop_first().push(t));
        lemma_extra_chain_push(cas.drop_first(), tags.drop_first(), c, t);
        assert(spec_extra_chain(cas.push(c), tags.push(t)) =~= spec_extra_chain(cas, tags) + (if t {
            Seq::<X509>::empty()
        } else {
            seq![c]
        }));
    }
}

/// Law: a certificate every occurrence of which is tagged self-signed never
/// appears in the assembled extra chain, for any input.
pub proof fn lemma_self_signed_never_served(cas: Seq<X509>, tags: Seq<bool>, c: X509)
    requires
        cas.len() == tags.len(),
        forall|i: int| 0 <= i < cas.len() && cas[i] == c ==> tags[i],
    ensures
        !spec_extra_chain(cas, tags).contains(c),
    decreases cas.len(),
{
    if cas.len() > 0 {
        assert forall|i: int|
            0 <= i < cas.drop_first().len() && cas.drop_first()[i] == c implies tags.drop_first()[i] by {
            assert(cas.drop_first()[i] == cas[i + 1]);
        }
        lemma_self_signed_never_served(cas.drop_first(), tags.drop_first(), c);
        let chain = spec_extra_chain(cas, tags);
        let rest = spec_extra_chain(cas.drop_first(), tags.drop_first());
        if tags[0] {
            assert(!chain.contains(c));
        } else {
            assert forall|j: int| 0 <= j < chain.len() implies chain[j] != c by {
                if j == 0 {
                    assert(chain[0] == cas[0]);
                } else {
                    assert(chain[j] == rest[j - 1]);
                    assert(!rest.contains(c));
                }
            }
        }
    }
}

/// Law: a CA certificate not tagged self-signed is kept in the extra chain.
pub proof fn lemma_untagged_is_served(cas: Seq<X509>, tags: Seq<bool>, i: int)
    requires
        cas.len() == tags.len(),
        0 <= i < cas.len(),
        !tags[i],
    ensures
        spec_extra_chain(cas, tags).contains(cas[i]),
    decreases cas.len(),
{
    let chain = spec_extra_chain(cas, tags);
    let rest = spec_extra_chain(cas.drop_first(), tags.drop_first());
    if i == 0 {
        assert(chain[0] == cas[0]);
        assert(chain.contains(cas[0]));
    } else {
        assert(cas.drop_first()[i - 1] == cas[i]);
        lemma_untagged_is_served(cas.drop_first(), tags.drop_first(), i - 1);
        let j = choose|j: int| 0 <= j < rest.len() && rest[j] == cas[i];
        if tags[0] {
            assert(chain[j] == cas[i]);
        } else {
            assert(chain[j + 1] == rest[j]);
        }
        assert(chain.contains(cas[i]));
    }
}

/// Law: every certificate of the assembled extra chain is one of the bundle's
/// CA certificates, and the chain is never longer than the bundle's CA list.
pub proof fn lemma_extra_chain_elements(cas: Seq<X509>, tags: Seq<bool>)
    requires
        cas.len() == tags.len(),
    ensures
        spec_extra_chain(cas, tags).len() <= cas.len(),
        forall|j: int|
            0 <= j < spec_extra_chain(cas, tags).len() ==> cas.contains(
                #[trigger] spec_extra_chain(cas, tags)[j],
            ),
    decreases cas.len(),
{
    if cas.len() > 0 {
        lemma_extra_chain_elements(cas.drop_first(), tags.drop_first());
        let chain = spec_extra_chain(cas, tags);
        let rest = spec_extra_chain(cas.drop_first(), tags.drop_first());
        assert forall|j: int| 0 <= j < chain.len() implies cas.contains(#[trigger] chain[j]) by {
            let head_len: int = if tags[0] {
                0
            } else {
                1
            };
            if j < head_len {
                assert(chain[j] == cas[0]);
                assert(cas.contains(cas[0]));
            } else {
                assert(chain[j] == rest[j - head_len]);
                assert(cas.drop_first().contains(rest[j - head_len]));
                let k = choose|k: int|
                    0 <= k < cas.drop_first().len() && cas.drop_first()[k] == rest[j - head_len];
                assert(cas[k + 1] == rest[j - head_len]);
                assert(cas.contains(cas[k + 1]));
            }
        }
    }
}

/// Tags each CA certificate with the self-signed verdict of the trust
/// engine's issuer check.
pub fn classify_cas(cas: &Vec<X509>) -> (r: Vec<bool>)
    ensures
        r@.len() == cas@.len(),
{
    let mut tags: Vec<bool> = Vec::new();
    let mut i: usize = 0;
    while i < cas.len()
        invariant
            i <= cas@.len(),
            tags@.len() == i,
        decreases cas@.len() - i,
    {
        let ss = is_self_signed(&cas[i]);
        tags.push(ss);
        i += 1;
    }
    tags
}

/// Keeps exactly the CA certificates whose tag is false, in order: the
/// chain served to peers never holds an entry tagged self-signed.
pub fn exclude_self_signed(cas: &Vec<X509>, tags: &Vec<bool>) -> (r: Vec<X509>)
    requires
        cas@.len() == tags@.len(),
    ensures
        r@ == spec_extra_chain(cas@, tags@),
{
    let mut out: Vec<X509> = Vec::new();
    let mut i: usize = 0;
    while i < cas.len()
        invariant
            cas@.len() == tags@.len(),
            i <= cas@.len(),
            out@ == spec_extra_chain(cas@.take(i as int), tags@.take(i as int)),
        decreases cas@.len() - i,
    {
        proof {
            lemma_extra_chain_push(
                cas@.take(i as int),
                tags@.take(i as int),
                cas@[i as int],
                tags@[i as int],
            );
            assert(cas@.take(i as int).push(cas@[i as int]) =~= cas@.take(i as int + 1));
            assert(tags@.take(i as int).push(tags@[i as int]) =~= tags@.take(i as int + 1));
        }
        if !tags[i] {
            let c = clone_cert(&cas[i]);
            out.push(c);
            proof {
                assert(out@ =~= spec_extra_chain(cas@.take(i as int + 1), tags@.take(i as int + 1)));
            }
        } else {
            proof {
                assert(out@ =~= spec_extra_chain(cas@.take(i as int + 1), tags@.take(i as int + 1)));
            }
        }
        i += 1;
    }
    proof {
        assert(cas@.take(cas@.len() as int) =~= cas@);
        assert(tags@.take(tags@.len() as int) =~= tags@);
    }
    out
}

/// The server's assembled identity and the chain it will present to peers.
pub struct TrustMaterial {
    pub pkey: PKey<Private>,
    pub cert: X509,
    pub extra_chain: Vec<X509>,
}

/// Turns a decrypted bundle into trust material, given the self-signed
/// verdict for each of its CA certificates: a missing private key and a
/// missing end-entity certificate are distinct, fatal errors; the extra
/// chain is exactly the CA certificates whose verdict is false, in order.
pub fn assemble_material(bundle: ParsedBundle, tags: &Vec<bool>) -> (r: Result<
    TrustMaterial,
    MaterialError,
>)
    requires
        tags@.len() == bundle.cas@.len(),
    ensures
        (r == Err::<TrustMaterial, MaterialError>(MaterialError::MissingKey)) <==> bundle.pkey
            is None,
        (r == Err::<TrustMaterial, MaterialError>(MaterialError::MissingCert)) <==> (bundle.pkey
            is Some && bundle.cert is None),
        r is Ok <==> (bundle.pkey is Some && bundle.cert is Some),
        r is Ok ==> r->Ok_0.pkey == bundle.pkey->Some_0 && r->Ok_0.cert == bundle.cert->Some_0,
        r is Ok ==> r->Ok_0.extra_chain@ == spec_extra_chain(bundle.cas@, tags@),
{
    let ParsedBundle { pkey, cert, cas } = bundle;
    let pkey = match pkey {
        Option::Some(k) => k,
        Option::None => {
            return Err(MaterialError::MissingKey);
        },
    };
    let cert = match cert {
        Option::Some(c) => c,
        Option::None => {
            return Err(MaterialError::MissingCert);
        },
    };
    let extra_chain = exclude_self_signed(&cas, tags);
    Ok(TrustMaterial { pkey, cert, extra_chain })
}

/// Installs assembled trust material into a fresh TLS server configuration.
fn install_material(m: TrustMaterial) -> (r: Result<SslAcceptorBuilder, MaterialError>)
    ensures
        r is Err ==> r->Err_0 == MaterialError::Configure,
{
    let mut builder = match new_tls_builder() {
        Ok(b) => b,
        Err(_) => {
            return Err(MaterialError::Configure);
        },
    };
    if builder_set_private_key(&mut builder, &m.pkey).is_err() {
        return Err(MaterialError::Configure);
    }
    if builder_set_certificate(&mut builder, &m.cert).is_err() {
        return Err(MaterialError::Configure);
    }
    let mut chain = m.extra_chain;
    while chain.len() > 0
        decreases chain@.len(),
    {
        let c = chain.remove(0);
        if builder_add_extra_chain_cert(&mut builder, c).is_err() {
            return Err(MaterialError::Configure);
        }
    }
    Ok(builder)
}

/// Builds a TLS server configuration from the DER bytes of a password-
/// protected PKCS#12 bundle: the bundle's key and end-entity certificate
/// become the server identity, and its CA certificates, save every
/// self-signed root, become the extra chain presented to peers. Bytes that
/// do not parse or decrypt, a bundle without a key, and one without an
/// end-entity certificate each fail with their own error, if and only if;
/// on good material only the TLS engine's own refusal remains open.
pub fn build_acceptor_from_pkcs12(der: &[u8], password: &str) -> (r: Result<
    SslAcceptorBuilder,
    MaterialError,
>)
    requires
        password_ok(password@),
    ensures
        (r == Err::<SslAcceptorBuilder, MaterialError>(MaterialError::BadBundle)) <==> !spec_p12_ok(
            der@,
            password@,
        ),
        (r == Err::<SslAcceptorBuilder, MaterialError>(MaterialError::MissingKey)) <==> (spec_p12_ok(
            der@,
            password@,
        ) && !spec_p12_has_key(der@, password@)),
        (r == Err::<SslAcceptorBuilder, MaterialError>(MaterialError::MissingCert)) <==> (
        spec_p12_ok(der@, password@) && spec_p12_has_key(der@, password@) && !spec_p12_has_cert(
            der@,
            password@,
        )),
        (spec_p12_ok(der@, password@) && spec_p12_has_key(der@, password@) && spec_p12_has_cert(
            der@,
            password@,
        )) ==> (r is Ok || r == Err::<SslAcceptorBuilder, MaterialError>(MaterialError::Configure)),
{
    let bundle = match parse_pkcs12(der, password) {
        Ok(b) => b,
        Err(e) => {
            return Err(e);
        },
    };
    let tags = classify_cas(&bundle.cas);
    let material = match assemble_material(bundle, &tags) {
        Ok(m) => m,
        Err(e) => {
            return Err(e);
        },
    };
    install_material(material)
}

} // verus!
