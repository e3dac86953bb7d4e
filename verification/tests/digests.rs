use rustls_libcrux_provider::hash::HashAlgo;
use rustls_libcrux_provider::hkdf::Hkdf;
use rustls_libcrux_provider::hmac::Hmac;

fn unhex(s: &str) -> Vec<u8> {
    (0..s.len()).step_by(2).map(|i| u8::from_str_radix(&s[i..i + 2], 16).unwrap()).collect()
}

#[test]
fn sha256_of_abc() {
    let h = HashAlgo::new();
    assert_eq!(h.hash(b"abc"), unhex("ba7816bf8f01cfea414140de5dae2223b00361a396177a9cb410ff61f20015ad"));
    assert_eq!(h.output_len(), 32);
    assert_eq!(h.algorithm(), 4);
}

#[test]
fn sha256_context_in_pieces() {
    let h = HashAlgo::new();
    let mut ctx = h.start();
    ctx.update(b"a");
    let forked = ctx.fork();
    assert_eq!(forked.fork_finish(), h.hash(b"a"));
    ctx.update(b"bc");
    assert_eq!(ctx.fork_finish(), h.hash(b"abc"));
    ctx.update(b"");
    assert_eq!(ctx.finish(), unhex("ba7816bf8f01cfea414140de5dae2223b00361a396177a9cb410ff61f20015ad"));
    assert_eq!(
        h.start().finish(),
        unhex("e3b0c44298fc1c149afbf4c8996fb92427ae41e4649b934ca495991b7852b855")
    );
}

#[test]
fn hmac_rfc4231_case_2() {
    let key = Hmac::new().with_key(b"Jefe");
    let tag = key.sign_concat(b"what do ya", &[b" want".as_slice(), b" for"], b" nothing?");
    assert_eq!(tag, unhex("5bdcc146bf60754e6a042426089575c75a003f089d2739839dec58b964ec3843"));
    assert_eq!(key.tag_len(), 32);
    assert_eq!(Hmac::new().hash_output_len(), 32);
}

#[test]
fn hkdf_rfc5869_case_1() {
    let ikm = vec![0x0bu8; 22];
    let salt = unhex("000102030405060708090a0b0c");
    let info = unhex("f0f1f2f3f4f5f6f7f8f9");
    let expander = Hkdf::new().extract_from_secret(Some(&salt), &ikm);
    assert_eq!(
        expander.prk.to_vec(),
        unhex("077709362c2e32df0ddc3f0dc47bba6390b6c73bb50f9c3122ec844ad7c2b3e5")
    );
    let mut okm = [0u8; 42];
    expander.expand_slice(&[&info[..5], &info[5..]], &mut okm).unwrap();
    assert_eq!(
        okm.to_vec(),
        unhex("3cb25f25faacd57a90434f64d0362f2a2d2d0a90cf1a5a4c5db02d56ecc4c5bf34007208d5b887185865")
    );
    assert_eq!(expander.hash_len(), 32);
}

#[test]
fn hkdf_rfc5869_case_3_without_salt_and_info() {
    let ikm = vec![0x0bu8; 22];
    let expander = Hkdf::new().extract_from_secret(None, &ikm);
    assert_eq!(
        expander.prk.to_vec(),
        unhex("19ef24a32c717b167f33a91d6f648bdf96596776afdb6377ac434c1c293ccb04")
    );
    let mut okm = [0u8; 42];
    expander.expand_slice(&[], &mut okm).unwrap();
    assert_eq!(
        okm.to_vec(),
        unhex("8da4e775a563c18f715f802a063c5a31b8a11f5c5ee1879ec3454e5f3c738d2d9d201395faa4b61a96c8")
    );
}

#[test]
fn hkdf_output_too_long_leaves_output_alone() {
    let expander = Hkdf::new().extract_from_zero_ikm(None);
    let mut okm = vec![7u8; 255 * 32 + 1];
    assert!(expander.expand_slice(&[b"x"], &mut okm).is_err());
    assert!(okm.iter().all(|b| *b == 7));
    let block = expander.expand_block(&[b"label"]);
    assert_eq!(block.len(), 32);
    let mut same = [0u8; 32];
    expander.expand_slice(&[b"lab", b"el"], &mut same).unwrap();
    assert_eq!(block, same.to_vec());
}

#[test]
fn hkdf_helpers() {
    let hkdf = Hkdf::new();
    let okm = [5u8; 32];
    assert_eq!(hkdf.expander_for_okm(&okm).prk, okm);
    assert_eq!(
        hkdf.hmac_sign(b"Jefe", b"what do ya want for nothing?"),
        unhex("5bdcc146bf60754e6a042426089575c75a003f089d2739839dec58b964ec3843")
    );
}
