use ring::signature::KeyPair;
use sgx_verify::dcap::{verify_dcap_quote, verify_dcap_quote_against};
use sgx_verify::error::ValidationError;
use sgx_verify::ias::{verify_ias_report, verify_ias_report_against};
use sgx_verify::netscape::NS_CMT_OID;
use sgx_verify::primitives::{QuotingEnclave, SgxBuildMode};
use sgx_verify::summary::{SgxReport, SgxStatus};
use sgx_verify::x509::{TrustAnchor, verify_chain, SignatureAlgorithm};

// An RSA key of 2048 bits for the tests, private and public part.
const RSA_PRIVATE_KEY: &str = "308204a40201000282010100cea80475324c1dc8347827818da58bac069d3419c614a6ea1ac6a3b510dcd72c\
     c516954905e9fef908d45e13006adf27d467a7d83c111d1a5df15ef293771aefb920032a5bb989f8e4f5e1b0\
     5093d3f130f984c07a772a3683f4dc6fb28a96815b32123ccdd13954f19d5b8b24a103e771a34c328755c65e\
     d64e1924ffd04d30b2142cc262f6e0048fef6dbc652f21479ea1c4b1d66d28f4d46ef7185e390cbfa2e02380\
     582f3188bb94ebbf05d31487a09aff01fcbb4cd4bfd1f0a833b38c11813c84360bb53c7d4481031c40bad871\
     3bb6b835cb08098ed15ba31ee4ba728a8c8e10f7294e1b4163b7aee57277bfd881a6f9d43e02c6925aa3a043\
     fb7fb78d0203260445028201000997634c477c1a039d44c810b2aaa3c7862b0b88d3708272e1e15f66fc9389\
     709f8a11f3ea6a5af7effa2d01c189c50f0d5bcbe3fa272e56cfc4a4e1d388a9dcd65df8628902556c8b6bb6\
     a641709b5a35dd2622c73d4640bfa1359d0e76e1f219f8e33eb9bd0b59ec198eb2fccaae0346bd8b401e12e3\
     c67cb629569c185a2e0f35a2f741644c1cca5ebb139d77a89a2953fc5e30048c0e619f07c8d21d1e56b8af07\
     193d0fdf3f49cd49f2ef3138b5138862f1470bd2d16e34a2b9e7777a6c8c8d4cb94b4e8b5d616cd5393753e7\
     b0f31cc7da559ba8e98d888914e334773baf498ad88d9631eb5fe32e53a4145bf0ba548bf2b0a50c63f67b14\
     e398a34b0d02818100f364e16ef12017ec95b192308c01e087cee619ab50a5d537cc01841dc92b30bcef0d9f\
     2c6bbd5dc10bdf5b9f6c354a4f9f210520caa72b4f5c36b8d33f10324c55956141891e45b84b49f59ea5bfac\
     6ffa38900aca5099afcd02f6a8257c41ce5bb2e4153832b5c22f91eb389fa2035c3cf9b3374531c483cb30ce\
     b007259b1d02818100d95c0995fabdfcbccfe63e0f3262f806869ab571e1793e97234cbb9bd4b6872a769538\
     9955cf6ce7245345a5df8021f7d9519563afbc2667f5311fad093de2c02cd069109b630d68e3bf767f8a788a\
     6add7ab199f2d8f6a40b7c1910d9dab52ac80d0d333aacab321a9309dc884ddd4db637a0c1115ae3c08efa68\
     3f99eb733102818100d4f7ef9f9be947ba9d1b3bce59e5608839a1e464553e1b6d113d0f636758bbb473a89f\
     9949836ead40b6f314eee3ac2244d7b6f379e83f30e17783ad68d5086897889c051c26e1558a4a220bfc2429\
     95860644b5d7a3ef513ac612b9c6c0a2021bb6b9cde7dbd21fe5858746c79563e9bab7d06b43aab43a0a5caf\
     ab4519a6610281803db2386f174f2ea3ef4b6bd1601749ce2d6afa8be35f051178621f16a23ad36eba03c073\
     136389241969e5b87edb0fcbcf1a0bd6e1aee97bae1f2d97aabe19b17dbe7d9492cdb68a0897f572350e846c\
     669660dc978c5068da598524fca8a136358d3e5f8f6ad5cf78d9089c93f473189162ce0f8c4902a19902b633\
     b3e6926d02818100ddc971183dcf3450c43e06ba2af32379eedeb2d678513fb706b75a006098154041f4b09e\
     6be385d4b25d80ec241c899e4a986a17b0a121daab91a1e4fc5a1802a7074df3fb3f7661f0e1c97799e36d21\
     de937cc4209585db30a56af0a228e001036ed792625e5368ce101574a2e9767f07338949f0afdf358cecd18c\
     6d6f3f55";
const RSA_PUBLIC_KEY: &str = "3082010a0282010100cea80475324c1dc8347827818da58bac069d3419c614a6ea1ac6a3b510dcd72cc51695\
     4905e9fef908d45e13006adf27d467a7d83c111d1a5df15ef293771aefb920032a5bb989f8e4f5e1b05093d3\
     f130f984c07a772a3683f4dc6fb28a96815b32123ccdd13954f19d5b8b24a103e771a34c328755c65ed64e19\
     24ffd04d30b2142cc262f6e0048fef6dbc652f21479ea1c4b1d66d28f4d46ef7185e390cbfa2e02380582f31\
     88bb94ebbf05d31487a09aff01fcbb4cd4bfd1f0a833b38c11813c84360bb53c7d4481031c40bad8713bb6b8\
     35cb08098ed15ba31ee4ba728a8c8e10f7294e1b4163b7aee57277bfd881a6f9d43e02c6925aa3a043fb7fb7\
     8d0203260445";

// 2023-11-14T22:13:20Z, inside the validity of the certificates made here.
const NOW: u64 = 1_700_000_000;

const QE_MR_SIGNER: [u8; 32] = [0x8c; 32];

const ECDSA_WITH_SHA256: [u8; 12] = [0x30, 0x0a, 0x06, 0x08, 0x2a, 0x86, 0x48, 0xce, 0x3d, 0x04, 0x03, 0x02];
const SHA256_WITH_RSA: [u8; 15] =
    [0x30, 0x0d, 0x06, 0x09, 0x2a, 0x86, 0x48, 0x86, 0xf7, 0x0d, 0x01, 0x01, 0x0b, 0x05, 0x00];

fn der(tag: u8, content: &[u8]) -> Vec<u8> {
    let mut out = vec![tag];
    if content.len() < 0x80 {
        out.push(content.len() as u8);
    } else if content.len() < 0x100 {
        out.extend_from_slice(&[0x81, content.len() as u8]);
    } else {
        out.extend_from_slice(&[0x82, (content.len() >> 8) as u8, content.len() as u8]);
    }
    out.extend_from_slice(content);
    out
}

fn content(tlv: &[u8]) -> &[u8] {
    match tlv[1] {
        0x81 => &tlv[3..],
        0x82 => &tlv[4..],
        _ => &tlv[2..],
    }
}

fn name(common_name: &str) -> Vec<u8> {
    let mut attribute = vec![0x06, 0x03, 0x55, 0x04, 0x03];
    attribute.extend_from_slice(&der(0x0c, common_name.as_bytes()));
    der(0x30, &der(0x31, &der(0x30, &attribute)))
}

fn bit_string(bits: &[u8]) -> Vec<u8> {
    let mut padded = vec![0u8];
    padded.extend_from_slice(bits);
    der(0x03, &padded)
}

fn ec_spki(point: &[u8]) -> Vec<u8> {
    let mut inner = vec![
        0x30, 0x13, 0x06, 0x07, 0x2a, 0x86, 0x48, 0xce, 0x3d, 0x02, 0x01, 0x06, 0x08, 0x2a, 0x86,
        0x48, 0xce, 0x3d, 0x03, 0x01, 0x07,
    ];
    inner.extend_from_slice(&bit_string(point));
    der(0x30, &inner)
}

fn rsa_spki(public_key: &[u8]) -> Vec<u8> {
    let mut inner = vec![
        0x30, 0x0d, 0x06, 0x09, 0x2a, 0x86, 0x48, 0x86, 0xf7, 0x0d, 0x01, 0x01, 0x01, 0x05, 0x00,
    ];
    inner.extend_from_slice(&bit_string(public_key));
    der(0x30, &inner)
}

// Extensions of a certificate authority: basic constraints, critical, with the CA flag.
fn ca_extensions() -> Vec<u8> {
    let mut extension = vec![0x06, 0x03, 0x55, 0x1d, 0x13, 0x01, 0x01, 0xff];
    extension.extend_from_slice(&der(0x04, &der(0x30, &[0x01, 0x01, 0xff])));
    der(0x30, &extension)
}

// Extensions of a leaf: a subject key identifier.
fn leaf_extensions() -> Vec<u8> {
    let mut extension = vec![0x06, 0x03, 0x55, 0x1d, 0x0e];
    extension.extend_from_slice(&der(0x04, &der(0x04, &[1, 2, 3, 4])));
    der(0x30, &extension)
}

// To be signed: a certificate of version 3, valid from 2020 to 2030.
fn to_be_signed(
    serial: u8,
    algorithm: &[u8],
    issuer: &[u8],
    subject: &[u8],
    spki: &[u8],
    extensions: &[u8],
) -> Vec<u8> {
    let mut validity = der(0x17, b"200101000000Z");
    validity.extend_from_slice(&der(0x17, b"300101000000Z"));
    let mut fields = der(0xa0, &[0x02, 0x01, 0x02]);
    fields.extend_from_slice(&[0x02, 0x01, serial]);
    fields.extend_from_slice(algorithm);
    fields.extend_from_slice(issuer);
    fields.extend_from_slice(&der(0x30, &validity));
    fields.extend_from_slice(subject);
    fields.extend_from_slice(spki);
    fields.extend_from_slice(&der(0xa3, &der(0x30, extensions)));
    der(0x30, &fields)
}

fn certificate(tbs: &[u8], algorithm: &[u8], signature: &[u8]) -> Vec<u8> {
    let mut fields = tbs.to_vec();
    fields.extend_from_slice(algorithm);
    fields.extend_from_slice(&bit_string(signature));
    der(0x30, &fields)
}

struct EcKey {
    pkcs8: Vec<u8>,
}

impl EcKey {
    fn new() -> EcKey {
        let rng = ring::rand::SystemRandom::new();
        let algorithm = &ring::signature::ECDSA_P256_SHA256_FIXED_SIGNING;
        let document = ring::signature::EcdsaKeyPair::generate_pkcs8(algorithm, &rng).unwrap();
        EcKey { pkcs8: document.as_ref().to_vec() }
    }

    fn point(&self) -> Vec<u8> {
        let algorithm = &ring::signature::ECDSA_P256_SHA256_FIXED_SIGNING;
        let pair = ring::signature::EcdsaKeyPair::from_pkcs8(algorithm, &self.pkcs8).unwrap();
        pair.public_key().as_ref().to_vec()
    }

    // The signature as `r` and `s` of 32 bytes each.
    fn sign_fixed(&self, message: &[u8]) -> Vec<u8> {
        let rng = ring::rand::SystemRandom::new();
        let algorithm = &ring::signature::ECDSA_P256_SHA256_FIXED_SIGNING;
        let pair = ring::signature::EcdsaKeyPair::from_pkcs8(algorithm, &self.pkcs8).unwrap();
        pair.sign(&rng, message).unwrap().as_ref().to_vec()
    }

    // The signature as an ASN.1 sequence.
    fn sign_asn1(&self, message: &[u8]) -> Vec<u8> {
        let rng = ring::rand::SystemRandom::new();
        let algorithm = &ring::signature::ECDSA_P256_SHA256_ASN1_SIGNING;
        let pair = ring::signature::EcdsaKeyPair::from_pkcs8(algorithm, &self.pkcs8).unwrap();
        pair.sign(&rng, message).unwrap().as_ref().to_vec()
    }

    fn certify(&self, serial: u8, issuer: &str, subject: &str, key: &EcKey, ca: bool) -> Vec<u8> {
        let extensions = if ca { ca_extensions() } else { leaf_extensions() };
        let tbs = to_be_signed(
            serial,
            &ECDSA_WITH_SHA256,
            &name(issuer),
            &name(subject),
            &ec_spki(&key.point()),
            &extensions,
        );
        certificate(&tbs, &ECDSA_WITH_SHA256, &self.sign_asn1(&tbs))
    }
}

fn rsa_sign(message: &[u8]) -> Vec<u8> {
    let rng = ring::rand::SystemRandom::new();
    let pair = ring::signature::RsaKeyPair::from_der(&hex::decode(RSA_PRIVATE_KEY).unwrap()).unwrap();
    let mut signature = vec![0u8; pair.public_modulus_len()];
    pair.sign(&ring::signature::RSA_PKCS1_SHA256, &rng, message, &mut signature).unwrap();
    signature
}

fn pem(der: &[u8]) -> String {
    let text = base64::encode(der);
    let mut out = String::from("-----BEGIN CERTIFICATE-----\n");
    for line in text.as_bytes().chunks(64) {
        out.push_str(std::str::from_utf8(line).unwrap());
        out.push('\n');
    }
    out.push_str("-----END CERTIFICATE-----\n");
    out
}

// A platform with its chain of certificates and the keys that sign a quote.
struct Platform {
    root_subject: Vec<u8>,
    root_spki: Vec<u8>,
    chain: Vec<u8>,
    leaf: EcKey,
    attestation: EcKey,
}

impl Platform {
    fn new() -> Platform {
        let root = EcKey::new();
        let platform = EcKey::new();
        let leaf = EcKey::new();
        let root_cert = root.certify(1, "Test Root CA", "Test Root CA", &root, true);
        let platform_cert = root.certify(2, "Test Root CA", "Test Platform CA", &platform, true);
        let leaf_cert = platform.certify(3, "Test Platform CA", "Test PCK Certificate", &leaf, false);
        let chain = pem(&leaf_cert) + &pem(&platform_cert) + &pem(&root_cert);
        Platform {
            root_subject: content(&name("Test Root CA")).to_vec(),
            root_spki: content(&ec_spki(&root.point())).to_vec(),
            chain: chain.into_bytes(),
            leaf,
            attestation: EcKey::new(),
        }
    }

    fn root(&self) -> TrustAnchor<'_> {
        TrustAnchor { subject: &self.root_subject, spki: &self.root_spki }
    }

    // A quote of an enclave with the given flags, signed as the platform signs.
    fn quote(&self, flags: u64, authentication_data: &[u8]) -> Vec<u8> {
        let mut bytes: Vec<u8> = (0..1012usize).map(|i| (i % 249) as u8).collect();
        bytes[0..2].copy_from_slice(&3u16.to_le_bytes());
        bytes[2..4].copy_from_slice(&2u16.to_le_bytes());
        bytes[96..104].copy_from_slice(&flags.to_le_bytes());
        bytes[500..564].copy_from_slice(&self.attestation.point()[1..]);
        bytes[692..724].copy_from_slice(&QE_MR_SIGNER);
        bytes.extend_from_slice(&(authentication_data.len() as u16).to_le_bytes());
        bytes.extend_from_slice(authentication_data);
        bytes.extend_from_slice(&5u16.to_le_bytes());
        bytes.extend_from_slice(&(self.chain.len() as u32).to_le_bytes());
        bytes.extend_from_slice(&self.chain);
        let mut vouched = bytes[500..564].to_vec();
        vouched.extend_from_slice(&bytes[1014..1046]);
        let digest = ring::digest::digest(&ring::digest::SHA256, &vouched);
        bytes[884..916].copy_from_slice(digest.as_ref());
        self.sign(&mut bytes);
        bytes
    }

    fn sign(&self, bytes: &mut [u8]) {
        let over_report = self.attestation.sign_fixed(&bytes[..432]);
        bytes[436..500].copy_from_slice(&over_report);
        let over_qe_report = self.leaf.sign_fixed(&bytes[564..948]);
        bytes[948..1012].copy_from_slice(&over_qe_report);
    }
}

fn expected_qe() -> QuotingEnclave {
    QuotingEnclave::new(0, u64::MAX, [0; 4], [0xff; 4], [0x11; 16], [0xfb; 16], QE_MR_SIGNER, 1, vec![])
}

fn verify(platform: &Platform, quote: &[u8]) -> Result<SgxReport, ValidationError> {
    verify_dcap_quote_against(quote, NOW * 1000, expected_qe(), &platform.root())
}

#[test]
fn quote_of_a_platform_is_accepted() {
    let platform = Platform::new();
    let quote = platform.quote(0x05, &[0x17; 32]);
    let report = verify(&platform, &quote).unwrap();
    assert_eq!(&report.mr_enclave[..], &quote[112..144]);
    assert_eq!(&report.pubkey[..], &quote[368..400]);
    assert_eq!(report.status, SgxStatus::Okay);
    assert_eq!(report.timestamp, NOW * 1000);
    assert_eq!(report.build_mode, SgxBuildMode::Production);
}

#[test]
fn quote_of_a_debug_enclave_is_accepted_as_such() {
    let platform = Platform::new();
    let quote = platform.quote(0x07, &[0x17; 32]);
    let report = verify(&platform, &quote).unwrap();
    assert_eq!(report.build_mode, SgxBuildMode::Debug);
    assert_eq!(report.status, SgxStatus::Okay);
}

#[test]
fn quotes_are_accepted_whatever_their_signatures_look_like() {
    // Signatures differ from run to run; some have leading zeros or high bits.
    let platform = Platform::new();
    for round in 0..24u8 {
        let mut quote = platform.quote(0x05, &[round; 32]);
        quote[200] = round;
        platform.sign(&mut quote);
        assert!(verify(&platform, &quote).is_ok(), "round {}", round);
    }
}

#[test]
fn quote_is_accepted_throughout_the_validity_of_its_chain() {
    let platform = Platform::new();
    let quote = platform.quote(0x05, &[0x17; 32]);
    let qe = expected_qe;
    let root = platform.root();
    assert!(verify_dcap_quote_against(&quote, 1_577_836_800_000, qe(), &root).is_ok());
    assert!(verify_dcap_quote_against(&quote, 1_893_455_999_999, qe(), &root).is_ok());
    assert_eq!(
        verify_dcap_quote_against(&quote, 1_577_836_799_999, qe(), &root).err(),
        Some(ValidationError::InvalidChain)
    );
    assert_eq!(
        verify_dcap_quote_against(&quote, 1_893_456_001_000, qe(), &root).err(),
        Some(ValidationError::InvalidChain)
    );
    assert_eq!(
        verify_dcap_quote_against(&quote, 0, qe(), &root).err(),
        Some(ValidationError::InvalidChain)
    );
}

#[test]
fn trailing_byte_is_rejected() {
    let platform = Platform::new();
    let mut quote = platform.quote(0x05, &[0x17; 32]);
    assert!(verify(&platform, &quote).is_ok());
    quote.push(0x00);
    let e = verify(&platform, &quote).err().unwrap();
    assert_eq!(e, ValidationError::TrailingBytes);
    assert_eq!(e.message(), "There should be no bytes left over after decoding");
    quote.extend_from_slice(&[1, 2, 3, 4, 5]);
    assert_eq!(verify(&platform, &quote).err(), Some(ValidationError::TrailingBytes));
}

#[test]
fn quote_of_another_version_is_rejected_though_signed() {
    let platform = Platform::new();
    let mut quote = platform.quote(0x05, &[0x17; 32]);
    quote[0..2].copy_from_slice(&2u16.to_le_bytes());
    platform.sign(&mut quote);
    let e = verify(&platform, &quote).err().unwrap();
    assert_eq!(e, ValidationError::UnsupportedVersion);
    assert_eq!(e.message(), "Only support for version 3");
}

#[test]
fn quote_with_another_signer_of_the_quoting_enclave_is_rejected() {
    let platform = Platform::new();
    let quote = platform.quote(0x05, &[0x17; 32]);
    let mut mrsigner = QE_MR_SIGNER;
    mrsigner[9] ^= 0x20;
    let qe = QuotingEnclave::new(0, 1, [0; 4], [0; 4], [0; 16], [0; 16], mrsigner, 1, vec![]);
    let e = verify_dcap_quote_against(&quote, NOW * 1000, qe, &platform.root()).err().unwrap();
    assert_eq!(e, ValidationError::QuotingEnclaveMismatch);
    assert_eq!(e.message(), "mrenclave values for quoting enclave don't match");
}

#[test]
fn flipped_bit_in_header_or_report_body_is_rejected() {
    let platform = Platform::new();
    let quote = platform.quote(0x05, &[0x17; 32]);
    for at in [4usize, 5, 8, 12, 28, 47, 48, 64, 96, 112, 143, 200, 368, 399, 400, 431] {
        for bit in [0u8, 5] {
            let mut changed = quote.clone();
            changed[at] ^= 1 << bit;
            assert_eq!(
                verify(&platform, &changed).err(),
                Some(ValidationError::ReportSignature),
                "byte {} bit {}",
                at,
                bit
            );
        }
    }
}

#[test]
fn flipped_bit_in_the_report_of_the_quoting_enclave_is_rejected() {
    let platform = Platform::new();
    let quote = platform.quote(0x05, &[0x17; 32]);
    for at in [564usize, 600, 628, 691, 724, 800, 883, 916, 930, 947] {
        let mut changed = quote.clone();
        changed[at] ^= 0x01;
        assert_eq!(
            verify(&platform, &changed).err(),
            Some(ValidationError::BadSignature),
            "byte {}",
            at
        );
    }
    for at in [884usize, 900, 915] {
        let mut changed = quote.clone();
        changed[at] ^= 0x01;
        assert_eq!(
            verify(&platform, &changed).err(),
            Some(ValidationError::HashMismatch),
            "byte {}",
            at
        );
    }
    for at in [692usize, 723] {
        let mut changed = quote.clone();
        changed[at] ^= 0x01;
        assert_eq!(
            verify(&platform, &changed).err(),
            Some(ValidationError::QuotingEnclaveMismatch),
            "byte {}",
            at
        );
    }
}

#[test]
fn flipped_bit_in_a_signature_or_the_attestation_key_is_rejected() {
    let platform = Platform::new();
    let quote = platform.quote(0x05, &[0x17; 32]);
    for at in [436usize, 467, 468, 499] {
        let mut changed = quote.clone();
        changed[at] ^= 0x10;
        assert_eq!(verify(&platform, &changed).err(), Some(ValidationError::ReportSignature));
    }
    for at in [948usize, 979, 980, 1011] {
        let mut changed = quote.clone();
        changed[at] ^= 0x10;
        assert_eq!(verify(&platform, &changed).err(), Some(ValidationError::BadSignature));
    }
    for at in [500usize, 531, 532, 563, 1014, 1045] {
        let mut changed = quote.clone();
        changed[at] ^= 0x10;
        assert_eq!(verify(&platform, &changed).err(), Some(ValidationError::HashMismatch));
    }
}

#[test]
fn quote_signed_by_other_keys_is_rejected() {
    let platform = Platform::new();
    let other = Platform::new();
    let mut quote = platform.quote(0x05, &[0x17; 32]);
    let signature = other.attestation.sign_fixed(&quote[..432]);
    quote[436..500].copy_from_slice(&signature);
    assert_eq!(verify(&platform, &quote).err(), Some(ValidationError::ReportSignature));
    let mut quote = platform.quote(0x05, &[0x17; 32]);
    let signature = other.leaf.sign_fixed(&quote[564..948]);
    quote[948..1012].copy_from_slice(&signature);
    assert_eq!(verify(&platform, &quote).err(), Some(ValidationError::BadSignature));
}

#[test]
fn quote_is_rejected_under_another_root() {
    let platform = Platform::new();
    let other = Platform::new();
    let quote = platform.quote(0x05, &[0x17; 32]);
    assert_eq!(verify(&other, &quote).err(), Some(ValidationError::InvalidChain));
    let e = verify_dcap_quote(&quote, NOW * 1000, expected_qe()).err().unwrap();
    assert_eq!(e, ValidationError::InvalidChain);
    assert_eq!(e.message(), "Invalid certificate chain");
}

#[test]
fn chain_has_to_come_leaf_first() {
    let platform = Platform::new();
    let mut quote = platform.quote(0x05, &[0x17; 32]);
    // Swaps the first two certificates: both take as many bytes.
    let text = String::from_utf8(platform.chain.clone()).unwrap();
    let blocks: Vec<&str> = text.split_inclusive("-----END CERTIFICATE-----\n").collect();
    assert_eq!(blocks.len(), 3);
    let swapped = format!("{}{}{}", blocks[1], blocks[0], blocks[2]);
    assert_eq!(swapped.len(), text.len());
    let start = quote.len() - text.len();
    quote[start..].copy_from_slice(swapped.as_bytes());
    let e = verify(&platform, &quote).err().unwrap();
    assert!(e == ValidationError::InvalidChain || e == ValidationError::BadSignature);
}

#[test]
fn authentication_data_is_hashed_as_32_bytes_from_its_offset() {
    let platform = Platform::new();
    let quote = platform.quote(0x05, &[0x17; 48]);
    assert!(verify(&platform, &quote).is_ok());
    let quote = platform.quote(0x05, &[0x17; 8]);
    assert!(verify(&platform, &quote).is_ok());
}

#[test]
fn chain_of_ecdsa_certificates_is_verified() {
    let platform = Platform::new();
    let text = String::from_utf8(platform.chain.clone()).unwrap();
    let certs = sgx_verify::extract_certs(text.as_bytes());
    assert_eq!(certs.len(), 3);
    let ecdsa = [SignatureAlgorithm::EcdsaP256Sha256];
    let rsa = [SignatureAlgorithm::RsaPkcs1Sha256];
    let intermediates = [&certs[1][..], &certs[2][..]];
    let leaf = verify_chain(&certs[0], &intermediates, &platform.root(), &ecdsa, NOW).unwrap();
    assert_eq!(leaf.as_der(), &certs[0][..]);
    assert_eq!(
        verify_chain(&certs[0], &intermediates, &platform.root(), &rsa, NOW).err(),
        Some(ValidationError::InvalidChain)
    );
    assert_eq!(
        verify_chain(&certs[0], &intermediates[1..], &platform.root(), &ecdsa, NOW).err(),
        Some(ValidationError::InvalidChain)
    );
    // The intermediate is no leaf: it is a certificate authority.
    assert_eq!(
        verify_chain(&certs[1], &intermediates[1..], &platform.root(), &ecdsa, NOW).err(),
        Some(ValidationError::InvalidChain)
    );
}

// What stands for the report signing authority in these tests, and a signer it issued.
struct Service {
    ca_subject: Vec<u8>,
    ca_spki: Vec<u8>,
    signer: Vec<u8>,
}

impl Service {
    fn new() -> Service {
        let spki = rsa_spki(&hex::decode(RSA_PUBLIC_KEY).unwrap());
        let tbs = to_be_signed(
            9,
            &SHA256_WITH_RSA,
            &name("Test Report Signing CA"),
            &name("Test Report Signing"),
            &spki,
            &leaf_extensions(),
        );
        Service {
            ca_subject: content(&name("Test Report Signing CA")).to_vec(),
            ca_spki: content(&spki).to_vec(),
            signer: certificate(&tbs, &SHA256_WITH_RSA, &rsa_sign(&tbs)),
        }
    }

    fn ca(&self) -> TrustAnchor<'_> {
        TrustAnchor { subject: &self.ca_subject, spki: &self.ca_spki }
    }

    // An attestation certificate with the report and the service's signature over it.
    fn attest(&self, report: &[u8]) -> Vec<u8> {
        self.attest_with(report, &rsa_sign(report))
    }

    fn attest_with(&self, report: &[u8], signature: &[u8]) -> Vec<u8> {
        let mut payload = report.to_vec();
        payload.push(b'|');
        payload.extend_from_slice(base64::encode(signature).as_bytes());
        payload.push(b'|');
        payload.extend_from_slice(base64::encode(&self.signer).as_bytes());
        let mut extension = NS_CMT_OID.to_vec();
        extension.extend_from_slice(&der(0x04, &payload));
        let mut bytes = vec![0x30, 0x82, 0x0b, 0xb8, 0x30, 0x82, 0x0b, 0x5d, 0xa0, 0x03, 0x02, 0x01, 0x02];
        bytes.extend_from_slice(&der(0x30, &extension));
        bytes.extend_from_slice(&ECDSA_WITH_SHA256);
        bytes
    }
}

fn epid_quote(flags: u64) -> Vec<u8> {
    let mut bytes: Vec<u8> = (0..432usize).map(|i| (i % 241) as u8).collect();
    bytes[96..104].copy_from_slice(&flags.to_le_bytes());
    bytes
}

fn report(timestamp: &str, status: &str, quote: &[u8]) -> Vec<u8> {
    format!(
        "{{\"id\":\"165171271757108173876306223827987629752\",\"timestamp\":\"{}\",\
         \"version\":3,\"isvEnclaveQuoteStatus\":\"{}\",\"isvEnclaveQuoteBody\":\"{}\"}}",
        timestamp,
        status,
        base64::encode(quote)
    )
    .into_bytes()
}

#[test]
fn attestation_certificate_is_accepted() {
    let service = Service::new();
    let quote = epid_quote(0x07);
    let cert = service.attest(&report("2019-11-09T21:47:54.527879", "OK", &quote));
    let summary = verify_ias_report_against(&cert, &service.ca(), NOW).unwrap();
    assert_eq!(summary.status, SgxStatus::Okay);
    assert_eq!(summary.build_mode, SgxBuildMode::Debug);
    assert_eq!(summary.timestamp, 1573336074000);
    assert_eq!(&summary.mr_enclave[..], &quote[112..144]);
    assert_eq!(&summary.pubkey[..], &quote[368..400]);
}

#[test]
fn attestation_certificate_carries_the_judgement_of_the_service() {
    let service = Service::new();
    let quote = epid_quote(0x04);
    let cert = service.attest(&report("2023-06-20T11:02:18", "GROUP_OUT_OF_DATE", &quote));
    let summary = verify_ias_report_against(&cert, &service.ca(), NOW).unwrap();
    assert_eq!(summary.status, SgxStatus::GroupOutOfDate);
    assert_eq!(summary.build_mode, SgxBuildMode::Production);
    assert_eq!(summary.timestamp, 1687258938000);
    let cert = service.attest(&report("2023-06-20T11:02:18", "SOMETHING_NEW", &quote));
    let summary = verify_ias_report_against(&cert, &service.ca(), NOW).unwrap();
    assert_eq!(summary.status, SgxStatus::Invalid);
}

#[test]
fn changed_report_is_rejected() {
    let service = Service::new();
    let text = report("2019-11-09T21:47:54", "GROUP_REVOKED", &epid_quote(0));
    let signature = rsa_sign(&text);
    let changed = String::from_utf8(text.clone()).unwrap().replace("GROUP_REVOKED", "OK");
    let cert = service.attest_with(changed.as_bytes(), &signature);
    let e = verify_ias_report_against(&cert, &service.ca(), NOW).err().unwrap();
    assert_eq!(e, ValidationError::BadSignature);
    assert_eq!(e.message(), "bad signature");
    let mut flipped = signature.clone();
    flipped[100] ^= 0x01;
    let cert = service.attest_with(&text, &flipped);
    assert_eq!(
        verify_ias_report_against(&cert, &service.ca(), NOW).err(),
        Some(ValidationError::BadSignature)
    );
    let cert = service.attest_with(&text, &signature);
    assert!(verify_ias_report_against(&cert, &service.ca(), NOW).is_ok());
}

#[test]
fn signer_of_another_authority_is_rejected() {
    let service = Service::new();
    let cert = service.attest(&report("2019-11-09T21:47:54", "OK", &epid_quote(0)));
    let e = verify_ias_report(&cert).err().unwrap();
    assert_eq!(e, ValidationError::CaVerification);
    assert_eq!(e.message(), "CA verification failed");
    let other_subject = content(&name("Another CA")).to_vec();
    let other = TrustAnchor { subject: &other_subject, spki: &service.ca_spki };
    assert_eq!(
        verify_ias_report_against(&cert, &other, NOW).err(),
        Some(ValidationError::CaVerification)
    );
}

#[test]
fn signer_has_to_be_valid_at_the_instant_of_the_check() {
    let service = Service::new();
    let cert = service.attest(&report("2019-11-09T21:47:54", "OK", &epid_quote(0)));
    assert!(verify_ias_report_against(&cert, &service.ca(), 1_577_836_800).is_ok());
    assert_eq!(
        verify_ias_report_against(&cert, &service.ca(), 1_577_836_799).err(),
        Some(ValidationError::CaVerification)
    );
    assert_eq!(
        verify_ias_report_against(&cert, &service.ca(), 1_573_419_050).err(),
        Some(ValidationError::CaVerification)
    );
    assert_eq!(
        verify_ias_report_against(&cert, &service.ca(), 1_893_456_001).err(),
        Some(ValidationError::CaVerification)
    );
}

#[test]
fn signed_report_is_still_read_with_care() {
    let service = Service::new();
    let cert = service.attest(b"{\"timestamp\":\"2019-11-09T21:47:54\"}");
    assert_eq!(
        verify_ias_report_against(&cert, &service.ca(), NOW).err(),
        Some(ValidationError::MissingQuoteStatus)
    );
    let cert = service.attest(b"not json");
    assert_eq!(
        verify_ias_report_against(&cert, &service.ca(), NOW).err(),
        Some(ValidationError::ReportParsing)
    );
    let cert = service.attest(&report("2019-11-09T21:47:54", "OK", &epid_quote(0)[..400]));
    assert_eq!(
        verify_ias_report_against(&cert, &service.ca(), NOW).err(),
        Some(ValidationError::QuoteLayout)
    );
}

#[test]
fn authority_is_judged_before_the_signature() {
    let service = Service::new();
    let text = report("2019-11-09T21:47:54", "OK", &epid_quote(0));
    let mut signature = rsa_sign(&text);
    signature[7] ^= 0x40;
    let cert = service.attest_with(&text, &signature);
    // The signature alone is at fault.
    assert_eq!(
        verify_ias_report_against(&cert, &service.ca(), NOW).err(),
        Some(ValidationError::BadSignature)
    );
    // Signer and signature are both at fault: the signer is named.
    let other_subject = content(&name("Another CA")).to_vec();
    let other = TrustAnchor { subject: &other_subject, spki: &service.ca_spki };
    assert_eq!(
        verify_ias_report_against(&cert, &other, NOW).err(),
        Some(ValidationError::CaVerification)
    );
    assert_eq!(
        verify_ias_report_against(&cert, &service.ca(), 1_573_419_050).err(),
        Some(ValidationError::CaVerification)
    );
    let e = verify_ias_report(&cert).err().unwrap();
    assert_eq!(e, ValidationError::CaVerification);
    assert_eq!(e.message(), "CA verification failed");
}
