use cryptobox::{init, Asymmetric, Error, Nonce, PublicKey, SecretKey, NONCE_BYTES, TAG_BYTES};

const ALICE_SK: &str = "77076d0a7318a57d3c16c17251b26645df4c2f87ebc0992ab177fba51db92c2a";
const ALICE_PK: &str = "8520f0098930a754748b7ddcb43ef75a0dbf3a0d26381af4eba4a98eaa9b4e6a";
const BOB_SK: &str = "5dab087e624a8a4b79e17f8b83800ee66f3bb1292618b6fd1c2f8b27ff88e0eb";
const BOB_PK: &str = "de9edb7d7b7dc1b4d35b61c2ece435373f8343c85b78674dadfc7e146f882b4f";
const NONCE: &str = "69696ee955b62b73cd62bda875fc73d68219e0036b7a0b37";
const MESSAGE: &str = "be075fc53c81f2d5cf141316ebeb0c7b5228c52a4c62cbd44b66849b64244ffc\
e5ecbaaf33bd751a1ac728d45e6c61296cdc3c01233561f41db66cce314adb31\
0e3be8250c46f06dceea3a7fa1348057e2f6556ad6b1318a024a838f21af1fde\
048977eb48f59ffd4924ca1c60902e52f0a089bc76897040e082f93776384864\
5e0705";
const SEALED: &str = "f3ffc7703f9400e52a7dfb4b3d3305d98e993b9f48681273c29650ba32fc76ce\
48332ea7164d96a4476fb8c531a1186ac0dfc17c98dce87b4da7f011ec48c972\
71d2c20f9b928fe2270d6fb863d51738b48eeee314a7cc8ab932164548e526ae\
90224368517acfeabd6bb3732bc0e9da99832b61ca01b6de56244a9e88d5f9b3\
7973f622a43d14a6599b1f654cb45a74e355a5";

fn hex(text: &str) -> Vec<u8> {
    let digits: Vec<u8> = text
        .bytes()
        .map(|b| match b {
            b'0'..=b'9' => b - b'0',
            b'a'..=b'f' => b - b'a' + 10,
            _ => panic!("not a hex digit"),
        })
        .collect();
    digits.chunks(2).map(|pair| pair[0] * 16 + pair[1]).collect()
}

fn key_bytes(text: &str) -> [u8; 32] {
    let mut out = [0u8; 32];
    out.copy_from_slice(&hex(text));
    out
}

fn nonce() -> Nonce {
    Nonce::from_slice(&hex(NONCE)).unwrap()
}

fn message(len: usize) -> Vec<u8> {
    (0..len).map(|i| (i * 7 + 3) as u8).collect()
}

#[test]
fn box_public_key_of_a_known_secret_key() {
    assert_eq!(Asymmetric::public(&SecretKey(key_bytes(ALICE_SK))), PublicKey(key_bytes(ALICE_PK)));
    assert_eq!(Asymmetric::public(&SecretKey(key_bytes(BOB_SK))), PublicKey(key_bytes(BOB_PK)));
}

#[test]
fn box_public_key_is_the_same_each_time() {
    let sk = SecretKey(key_bytes(ALICE_SK));
    assert_eq!(Asymmetric::public(&sk), Asymmetric::public(&sk));
    assert_eq!(sk.0, key_bytes(ALICE_SK));
}

#[test]
fn box_key_pair_holds_the_public_key_of_its_secret_key() {
    assert!(init());
    for _ in 0..32 {
        let (pk, sk) = Asymmetric::key_pair();
        assert_eq!(Asymmetric::public(&sk), pk);
    }
}

#[test]
fn box_key_pairs_differ() {
    assert!(init());
    let (pk1, sk1) = Asymmetric::key_pair();
    let (pk2, sk2) = Asymmetric::key_pair();
    assert_ne!(pk1, pk2);
    assert_ne!(sk1.0, sk2.0);
}

#[test]
fn box_seal_of_a_known_message() {
    let sealed = Asymmetric::seal(
        &hex(MESSAGE),
        &nonce(),
        &PublicKey(key_bytes(BOB_PK)),
        &SecretKey(key_bytes(ALICE_SK)),
    );
    assert_eq!(sealed, hex(SEALED));
    assert_eq!(sealed.len(), 131 + TAG_BYTES);
}

#[test]
fn box_open_of_a_known_ciphertext() {
    let opened = Asymmetric::open(
        &hex(SEALED),
        &nonce(),
        &PublicKey(key_bytes(ALICE_PK)),
        &SecretKey(key_bytes(BOB_SK)),
    );
    assert_eq!(opened, Ok(hex(MESSAGE)));
}

#[test]
fn box_round_trip_for_every_short_length() {
    assert!(init());
    for len in 0..130usize {
        let (alice_pk, alice_sk) = Asymmetric::key_pair();
        let (bob_pk, bob_sk) = Asymmetric::key_pair();
        let n = Asymmetric::generate_nonce();
        let msg = message(len);
        let sealed = Asymmetric::seal(&msg, &n, &bob_pk, &alice_sk);
        assert_eq!(sealed.len(), len + TAG_BYTES);
        assert_eq!(Asymmetric::open(&sealed, &n, &alice_pk, &bob_sk), Ok(msg));
    }
}

#[test]
fn box_round_trip_of_the_empty_message() {
    assert!(init());
    let (alice_pk, alice_sk) = Asymmetric::key_pair();
    let (bob_pk, bob_sk) = Asymmetric::key_pair();
    let n = Asymmetric::generate_nonce();
    let sealed = Asymmetric::seal(&[], &n, &bob_pk, &alice_sk);
    assert_eq!(sealed.len(), 16);
    assert_eq!(Asymmetric::open(&sealed, &n, &alice_pk, &bob_sk), Ok(vec![]));
}

#[test]
fn box_round_trip_to_oneself() {
    assert!(init());
    let (pk, sk) = Asymmetric::key_pair();
    let n = Asymmetric::generate_nonce();
    let sealed = Asymmetric::seal(b"note to self", &n, &pk, &sk);
    assert_eq!(Asymmetric::open(&sealed, &n, &pk, &sk), Ok(b"note to self".to_vec()));
}

#[test]
fn box_encrypt_then_decrypt_gives_the_message() {
    assert!(init());
    for len in [0usize, 1, 15, 16, 17, 24, 100, 1000] {
        let (alice_pk, alice_sk) = Asymmetric::key_pair();
        let (bob_pk, bob_sk) = Asymmetric::key_pair();
        let msg = message(len);
        let blob = Asymmetric::encrypt(&msg, &bob_pk, &alice_sk);
        assert_eq!(blob.len(), NONCE_BYTES + len + TAG_BYTES);
        assert_eq!(Asymmetric::decrypt(&blob, &alice_pk, &bob_sk), Ok(msg));
    }
}

#[test]
fn box_encrypt_with_nonce_puts_the_nonce_in_front() {
    let pk = PublicKey(key_bytes(BOB_PK));
    let sk = SecretKey(key_bytes(ALICE_SK));
    let blob = Asymmetric::encrypt_with_nonce(&hex(MESSAGE), &nonce(), &pk, &sk);
    let mut expected = hex(NONCE);
    expected.extend(hex(SEALED));
    assert_eq!(blob, expected);
}

#[test]
fn box_decrypt_of_a_known_blob() {
    let mut blob = hex(NONCE);
    blob.extend(hex(SEALED));
    let opened =
        Asymmetric::decrypt(&blob, &PublicKey(key_bytes(ALICE_PK)), &SecretKey(key_bytes(BOB_SK)));
    assert_eq!(opened, Ok(hex(MESSAGE)));
}

#[test]
fn box_encrypt_uses_a_new_nonce_each_time() {
    assert!(init());
    let (pk, sk) = Asymmetric::key_pair();
    let first = Asymmetric::encrypt(b"same message", &pk, &sk);
    let second = Asymmetric::encrypt(b"same message", &pk, &sk);
    assert_ne!(first[..NONCE_BYTES], second[..NONCE_BYTES]);
    assert_ne!(first, second);
}

#[test]
fn box_open_refuses_every_flipped_bit() {
    assert!(init());
    for len in [0usize, 1, 33] {
        let (alice_pk, alice_sk) = Asymmetric::key_pair();
        let (bob_pk, bob_sk) = Asymmetric::key_pair();
        let n = Asymmetric::generate_nonce();
        let mut sealed = Asymmetric::seal(&message(len), &n, &bob_pk, &alice_sk);
        for at in 0..sealed.len() {
            for bit in 0..8 {
                sealed[at] ^= 1 << bit;
                assert_eq!(
                    Asymmetric::open(&sealed, &n, &alice_pk, &bob_sk),
                    Err(Error::AuthenticationFailure)
                );
                sealed[at] ^= 1 << bit;
            }
        }
        assert_eq!(Asymmetric::open(&sealed, &n, &alice_pk, &bob_sk), Ok(message(len)));
    }
}

#[test]
fn box_decrypt_refuses_every_flipped_bit() {
    assert!(init());
    let (alice_pk, alice_sk) = Asymmetric::key_pair();
    let (bob_pk, bob_sk) = Asymmetric::key_pair();
    let mut blob = Asymmetric::encrypt(b"attack at dawn", &bob_pk, &alice_sk);
    for at in 0..blob.len() {
        for bit in 0..8 {
            blob[at] ^= 1 << bit;
            assert_eq!(
                Asymmetric::decrypt(&blob, &alice_pk, &bob_sk),
                Err(Error::AuthenticationFailure)
            );
            blob[at] ^= 1 << bit;
        }
    }
}

#[test]
fn box_open_refuses_a_truncated_or_extended_ciphertext() {
    assert!(init());
    let (alice_pk, alice_sk) = Asymmetric::key_pair();
    let (bob_pk, bob_sk) = Asymmetric::key_pair();
    let n = Asymmetric::generate_nonce();
    let sealed = Asymmetric::seal(b"attack at dawn", &n, &bob_pk, &alice_sk);
    for keep in 0..sealed.len() {
        assert_eq!(
            Asymmetric::open(&sealed[..keep], &n, &alice_pk, &bob_sk),
            Err(Error::AuthenticationFailure)
        );
    }
    let mut longer = sealed.clone();
    longer.push(0);
    assert_eq!(
        Asymmetric::open(&longer, &n, &alice_pk, &bob_sk),
        Err(Error::AuthenticationFailure)
    );
}

#[test]
fn box_open_refuses_the_wrong_secret_key() {
    assert!(init());
    let (alice_pk, alice_sk) = Asymmetric::key_pair();
    let (bob_pk, _bob_sk) = Asymmetric::key_pair();
    let (_eve_pk, eve_sk) = Asymmetric::key_pair();
    let n = Asymmetric::generate_nonce();
    let sealed = Asymmetric::seal(b"for bob only", &n, &bob_pk, &alice_sk);
    assert_eq!(
        Asymmetric::open(&sealed, &n, &alice_pk, &eve_sk),
        Err(Error::AuthenticationFailure)
    );
    let blob = Asymmetric::encrypt(b"for bob only", &bob_pk, &alice_sk);
    assert_eq!(Asymmetric::decrypt(&blob, &alice_pk, &eve_sk), Err(Error::AuthenticationFailure));
}

#[test]
fn box_open_refuses_the_wrong_sender() {
    assert!(init());
    let (_alice_pk, alice_sk) = Asymmetric::key_pair();
    let (bob_pk, bob_sk) = Asymmetric::key_pair();
    let (eve_pk, _eve_sk) = Asymmetric::key_pair();
    let n = Asymmetric::generate_nonce();
    let sealed = Asymmetric::seal(b"from alice", &n, &bob_pk, &alice_sk);
    assert_eq!(
        Asymmetric::open(&sealed, &n, &eve_pk, &bob_sk),
        Err(Error::AuthenticationFailure)
    );
}

#[test]
fn box_open_refuses_the_wrong_nonce() {
    assert!(init());
    let (alice_pk, alice_sk) = Asymmetric::key_pair();
    let (bob_pk, bob_sk) = Asymmetric::key_pair();
    let n = Asymmetric::generate_nonce();
    let other = Asymmetric::generate_nonce();
    let sealed = Asymmetric::seal(b"once only", &n, &bob_pk, &alice_sk);
    assert_eq!(
        Asymmetric::open(&sealed, &other, &alice_pk, &bob_sk),
        Err(Error::AuthenticationFailure)
    );
}

#[test]
fn box_nonces_do_not_repeat() {
    assert!(init());
    let mut seen: Vec<Nonce> = Vec::new();
    for _ in 0..2000 {
        let n = Asymmetric::generate_nonce();
        assert!(!seen.contains(&n));
        seen.push(n);
    }
}

#[test]
fn box_decrypt_of_a_blob_without_room_for_a_nonce_is_malformed() {
    let pk = PublicKey(key_bytes(ALICE_PK));
    let sk = SecretKey(key_bytes(BOB_SK));
    let blob = hex(SEALED);
    for len in 0..NONCE_BYTES {
        assert_eq!(Asymmetric::decrypt(&blob[..len], &pk, &sk), Err(Error::MalformedInput));
    }
}

#[test]
fn box_decrypt_of_a_blob_without_room_for_a_tag_fails_authentication() {
    let pk = PublicKey(key_bytes(ALICE_PK));
    let sk = SecretKey(key_bytes(BOB_SK));
    let mut blob = hex(NONCE);
    blob.extend(hex(SEALED));
    for len in NONCE_BYTES..NONCE_BYTES + TAG_BYTES {
        assert_eq!(Asymmetric::decrypt(&blob[..len], &pk, &sk), Err(Error::AuthenticationFailure));
    }
}

#[test]
fn box_seal_twice_gives_the_same_bytes() {
    assert!(init());
    let (_alice_pk, alice_sk) = Asymmetric::key_pair();
    let (bob_pk, _bob_sk) = Asymmetric::key_pair();
    let n = Asymmetric::generate_nonce();
    let first = Asymmetric::seal(b"again", &n, &bob_pk, &alice_sk);
    let second = Asymmetric::seal(b"again", &n, &bob_pk, &alice_sk);
    assert_eq!(first, second);
}

#[test]
fn box_seal_under_another_nonce_gives_other_bytes() {
    assert!(init());
    let (_alice_pk, alice_sk) = Asymmetric::key_pair();
    let (bob_pk, _bob_sk) = Asymmetric::key_pair();
    let first = Asymmetric::seal(b"again", &Asymmetric::generate_nonce(), &bob_pk, &alice_sk);
    let second = Asymmetric::seal(b"again", &Asymmetric::generate_nonce(), &bob_pk, &alice_sk);
    assert_ne!(first, second);
    let mut next = nonce();
    next.0[23] ^= 1;
    let pk = PublicKey(key_bytes(BOB_PK));
    let sk = SecretKey(key_bytes(ALICE_SK));
    assert_ne!(Asymmetric::seal(&hex(MESSAGE), &next, &pk, &sk), hex(SEALED));
}

#[test]
fn box_secret_key_erase_leaves_zeros() {
    let mut sk = SecretKey(key_bytes(ALICE_SK));
    sk.erase();
    assert_eq!(sk.0, [0u8; 32]);
}
