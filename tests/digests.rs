use big_hash::{bytes_xor_u64, fold_in_order, md5_hash, sha256_hash, sha512_hash};
use big_hash::{Md5Hasher, Sha256Hasher, Sha512Hasher};
use std::hash::Hasher;

fn hex(bytes: &[u8]) -> String {
    bytes.iter().map(|b| format!("{:02x}", b)).collect()
}

#[test]
fn md5_empty_input_vector() {
    let h = Md5Hasher::new();
    assert_eq!(hex(&h.digest()), "d41d8cd98f00b204e9800998ecf8427e");
}

#[test]
fn md5_hello_world_vector() {
    let mut h = Md5Hasher::new();
    h.write(b"hello world");
    assert_eq!(hex(&h.digest()), "5eb63bbbe01eeed093cb22bb8f5acdc3");
}

#[test]
fn sha256_empty_input_vector() {
    let h = Sha256Hasher::new();
    assert_eq!(
        hex(&h.finalize()),
        "e3b0c44298fc1c149afbf4c8996fb92427ae41e4649b934ca495991b7852b855"
    );
}

#[test]
fn sha256_hello_world_vector() {
    let mut h = Sha256Hasher::new();
    h.write(b"hello world");
    assert_eq!(
        hex(&h.finalize()),
        "b94d27b9934d3e08a52e52d7da7dabfac484efe37a5380ee9088f7ace2efcde9"
    );
    assert!(!h.truncated());
}

#[test]
fn sha512_empty_input_vector() {
    let h = Sha512Hasher::new();
    assert_eq!(
        hex(&h.finalize()),
        "cf83e1357eefb8bdf1542850d66d8007d620e4050b5715dc83f4a921d36ce9ce\
         47d0d13c5d85f2b0ff8318d2877eec2f63b931bd47417a81a538327af927da3e"
    );
}

#[test]
fn sha512_hello_world_vector() {
    let mut h = Sha512Hasher::new();
    h.write(b"hello world");
    assert_eq!(
        hex(&h.finalize()),
        "309ecc489c12d6eb4cc40f50c902f2b4d0ed77ee511a7c7a9bcd3ca86d4cd86f\
         989dd35bc5ff499670da34255b45b0cfd830e81f605dcf7dc5542e93ae9cd76f"
    );
    assert!(!h.truncated());
}

#[test]
fn split_writes_match_one_write() {
    let mut a = Md5Hasher::new();
    a.write(b"hello ");
    a.write(b"world");
    a.write(b"");
    let mut b = Md5Hasher::new();
    b.write(b"hello world");
    assert_eq!(a.digest(), b.digest());

    let mut a = Sha256Hasher::new();
    a.write(b"hel");
    a.write(b"lo world");
    let mut b = Sha256Hasher::new();
    b.write(b"hello world");
    assert_eq!(a.finalize(), b.finalize());

    let long: Vec<u8> = (0..300u32).map(|i| (i % 251) as u8).collect();
    let mut a = Sha512Hasher::new();
    a.write(&long[..130]);
    a.write(&long[130..]);
    let mut b = Sha512Hasher::new();
    b.write(&long);
    assert_eq!(a.finalize(), b.finalize());
}

#[test]
fn digest_leaves_hasher_usable() {
    let mut a = Md5Hasher::new();
    a.write(b"hello ");
    let _ = a.digest();
    a.write(b"world");
    assert_eq!(hex(&a.digest()), "5eb63bbbe01eeed093cb22bb8f5acdc3");

    let mut s = Sha256Hasher::new();
    s.write(b"hello ");
    let _ = s.finalize();
    s.write(b"world");
    assert_eq!(
        hex(&s.finalize()),
        "b94d27b9934d3e08a52e52d7da7dabfac484efe37a5380ee9088f7ace2efcde9"
    );
}

#[test]
fn finish_is_fold_of_digest() {
    let mut m = Md5Hasher::new();
    m.write(b"abc");
    let d = m.digest();
    assert_eq!(m.finish(), bytes_xor_u64(&d));
    let expected = u64::from_ne_bytes(d[0..8].try_into().unwrap())
        ^ u64::from_ne_bytes(d[8..16].try_into().unwrap());
    assert_eq!(m.finish(), expected);

    let mut s = Sha256Hasher::new();
    s.write(b"abc");
    let d = s.finalize();
    assert_eq!(s.finish(), bytes_xor_u64(&d));
    assert_eq!(s.finish(), fold_in_order(&d, 1u64.to_ne_bytes()[0] == 1));

    let mut s = Sha512Hasher::new();
    s.write(b"abc");
    let d = s.finalize();
    let mut expected = 0u64;
    for c in d.chunks(8) {
        expected ^= u64::from_ne_bytes(c.try_into().unwrap());
    }
    assert_eq!(s.finish(), expected);
}

#[test]
fn finish_is_idempotent() {
    let mut s = Sha512Hasher::new();
    s.write(b"xyz");
    assert_eq!(s.finish(), s.finish());
}

#[test]
fn hash_functions_are_deterministic() {
    let v = (1u32, "two", [3u8, 4]);
    assert_eq!(md5_hash(&v), md5_hash(&v));
    assert_eq!(sha256_hash(&v), sha256_hash(&v));
    assert_eq!(sha512_hash(&v), sha512_hash(&v));
}

#[test]
fn hash_function_digests_the_description() {
    // A `str` describes itself by its bytes followed by 0xff.
    let mut m = Md5Hasher::new();
    m.write(b"hello world");
    m.write(&[0xff]);
    assert_eq!(md5_hash(&"hello world"), m.digest());

    let mut s = Sha256Hasher::new();
    s.write(b"hello world");
    s.write(&[0xff]);
    assert_eq!(sha256_hash(&"hello world"), s.finalize());

    let mut s = Sha512Hasher::new();
    s.write(b"hello world");
    s.write(&[0xff]);
    assert_eq!(sha512_hash(&"hello world"), s.finalize());
}

#[test]
fn option_discriminant_is_observable() {
    let present = Some(7u32);
    let absent: Option<u32> = None;
    assert_ne!(md5_hash(&present), md5_hash(&absent));
    assert_ne!(md5_hash(&present), md5_hash(&7u32));
    assert_ne!(sha256_hash(&present), sha256_hash(&absent));
    assert_ne!(sha256_hash(&present), sha256_hash(&7u32));
    assert_ne!(sha512_hash(&present), sha512_hash(&absent));
    assert_ne!(sha512_hash(&present), sha512_hash(&7u32));
}

#[test]
fn independent_hashers() {
    let mut a = Sha256Hasher::new();
    let mut b = Sha256Hasher::new();
    a.write(b"left");
    b.write(b"right");
    assert_ne!(a.finalize(), b.finalize());
    let mut c = Sha256Hasher::new();
    c.write(b"left");
    assert_eq!(a.finalize(), c.finalize());

    let mut a = Md5Hasher::new();
    let mut b = Md5Hasher::new();
    a.write(b"left");
    b.write(b"right");
    assert_ne!(a.digest(), b.digest());

    let mut a = Sha512Hasher::new();
    let mut b = Sha512Hasher::new();
    a.write(b"left");
    b.write(b"left");
    assert_eq!(a.finalize(), b.finalize());
}

#[test]
fn fold_in_order_values() {
    let mut buf = [0u8; 16];
    buf[0] = 1;
    buf[8] = 2;
    assert_eq!(fold_in_order(&buf, true), 3);
    assert_eq!(fold_in_order(&buf, false), 3u64 << 56);
    assert_eq!(fold_in_order(&[], true), 0);
    let bytes = [0x01u8, 0x23, 0x45, 0x67, 0x89, 0xab, 0xcd, 0xef];
    assert_eq!(fold_in_order(&bytes, true), 0xefcd_ab89_6745_2301);
    assert_eq!(fold_in_order(&bytes, false), 0x0123_4567_89ab_cdef);
}

#[test]
fn fold_uses_host_order() {
    let bytes = [0x01u8, 0x23, 0x45, 0x67, 0x89, 0xab, 0xcd, 0xef, 9, 8, 7, 6, 5, 4, 3, 2];
    let expected = u64::from_ne_bytes(bytes[0..8].try_into().unwrap())
        ^ u64::from_ne_bytes(bytes[8..16].try_into().unwrap());
    assert_eq!(bytes_xor_u64(&bytes), expected);
    assert_eq!(bytes_xor_u64(&[]), 0);
}

#[test]
fn hashers_clone_keep_their_input() {
    let mut m = Md5Hasher::new();
    m.write(b"hello ");
    let mut copy = m.clone();
    copy.write(b"world");
    assert_eq!(hex(&copy.digest()), "5eb63bbbe01eeed093cb22bb8f5acdc3");
    assert_ne!(m.digest(), copy.digest());

    let mut s = Sha256Hasher::new();
    s.write(b"hello ");
    let mut copy = s;
    copy.write(b"world");
    assert_eq!(
        hex(&copy.finalize()),
        "b94d27b9934d3e08a52e52d7da7dabfac484efe37a5380ee9088f7ace2efcde9"
    );
}
