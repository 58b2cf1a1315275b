use decaf377_rdsa::batch::{Item, Verifier};
use decaf377_rdsa::{
    Binding, Error, Signature, SigningKey, SpendAuth, VerificationKey, VerificationKeyBytes,
};

/// A small generator of words for the tests, not for any other use.
struct Words(u64);

impl Words {
    fn next(&mut self) -> u64 {
        self.0 ^= self.0 << 13;
        self.0 ^= self.0 >> 7;
        self.0 ^= self.0 << 17;
        self.0
    }

    fn take(&mut self, n: usize) -> Vec<u64> {
        (0..n).map(|_| self.next()).collect()
    }

    fn bytes<const N: usize>(&mut self) -> [u8; N] {
        let mut out = [0u8; N];
        for b in out.iter_mut() {
            *b = self.next() as u8;
        }
        out
    }
}

fn spend_item(
    words: &mut Words,
    msg: &[u8],
) -> (VerificationKeyBytes<SpendAuth>, Signature<SpendAuth>) {
    let sk = SigningKey::<SpendAuth>::new(words.bytes::<64>());
    let sig = sk.sign(words.bytes::<48>(), msg);
    (VerificationKey::from(&sk).into(), sig)
}

fn binding_item(
    words: &mut Words,
    msg: &[u8],
) -> (VerificationKeyBytes<Binding>, Signature<Binding>) {
    let sk = SigningKey::<Binding>::new(words.bytes::<64>());
    let sig = sk.sign(words.bytes::<48>(), msg);
    (VerificationKey::from(&sk).into(), sig)
}

#[test]
fn empty_batch_is_accepted() {
    let mut words = Words(0x9e3779b97f4a7c15);
    assert_eq!(Verifier::new().verify(&words.take(4)), Ok(()));
    assert_eq!(Verifier::new().verify(&[]), Ok(()));
    assert_eq!(Verifier::default().verify(&[]), Ok(()));
}

#[test]
fn batch_of_one_item() {
    let mut words = Words(1);
    let msg = b"one";
    let (vk_bytes, sig) = spend_item(&mut words, msg);
    let mut batch = Verifier::new();
    batch.queue(Item::from((vk_bytes, sig, &msg[..])));
    assert_eq!(batch.verify(&words.take(2)), Ok(()));

    let mut batch = Verifier::new();
    batch.queue(Item::from((vk_bytes, sig, &b"two"[..])));
    assert_eq!(batch.verify(&words.take(2)), Err(Error::InvalidSignature));
}

#[test]
fn batch_of_eight_and_eight() {
    let mut words = Words(2);
    let msg = b"Bench";
    let mut batch = Verifier::new();
    for _ in 0..8 {
        let (vk_bytes, sig) = spend_item(&mut words, msg);
        batch.queue(Item::from((vk_bytes, sig, &msg[..])));
        let (vk_bytes, sig) = binding_item(&mut words, msg);
        batch.queue(Item::from((vk_bytes, sig, &msg[..])));
    }
    assert_eq!(batch.verify(&words.take(32)), Ok(()));
}

#[test]
fn batch_with_a_corrupted_scalar() {
    let msg = b"Bench";
    for corrupted in 0..16 {
        let mut words = Words(3);
        let mut batch = Verifier::new();
        for i in 0..16 {
            if i % 2 == 0 {
                let (vk_bytes, mut sig) = spend_item(&mut words, msg);
                if i == corrupted {
                    let mut bytes = sig.to_bytes();
                    bytes[32] ^= 1;
                    sig = bytes.into();
                }
                batch.queue(Item::from((vk_bytes, sig, &msg[..])));
            } else {
                let (vk_bytes, mut sig) = binding_item(&mut words, msg);
                if i == corrupted {
                    let mut bytes = sig.to_bytes();
                    bytes[32] ^= 1;
                    sig = bytes.into();
                }
                batch.queue(Item::from((vk_bytes, sig, &msg[..])));
            }
        }
        assert_eq!(batch.verify(&words.take(32)), Err(Error::InvalidSignature));
    }
}

#[test]
fn batch_with_an_item_that_does_not_decode() {
    let mut words = Words(4);
    let msg = b"decode";
    let (vk_bytes, sig) = binding_item(&mut words, msg);

    let mut bytes = sig.to_bytes();
    for b in bytes[32..].iter_mut() {
        *b = 0xff;
    }
    let mut batch = Verifier::new();
    batch.queue(Item::from((vk_bytes, Signature::from(bytes), &msg[..])));
    assert_eq!(batch.verify(&words.take(2)), Err(Error::InvalidSignature));

    let mut bytes = sig.to_bytes();
    for b in bytes[..32].iter_mut() {
        *b = 0xff;
    }
    let mut batch = Verifier::new();
    batch.queue(Item::from((vk_bytes, Signature::from(bytes), &msg[..])));
    assert_eq!(batch.verify(&words.take(2)), Err(Error::InvalidSignature));

    let mut batch = Verifier::new();
    batch.queue(Item::from((VerificationKeyBytes::<Binding>::from([0xffu8; 32]), sig, &msg[..])));
    assert_eq!(batch.verify(&words.take(2)), Err(Error::InvalidSignature));
}

#[test]
fn batch_keeps_the_domains_apart() {
    let mut words = Words(5);
    let msg = b"domains";
    let (vk_bytes, sig) = spend_item(&mut words, msg);
    let vk_array: [u8; 32] = vk_bytes.into();

    let mut batch = Verifier::new();
    batch.queue(Item::from((vk_bytes, sig, &msg[..])));
    assert_eq!(batch.verify(&words.take(2)), Ok(()));

    let mut batch = Verifier::new();
    batch.queue(Item::from((
        VerificationKeyBytes::<Binding>::from(vk_array),
        Signature::<Binding>::from(sig.to_bytes()),
        &msg[..],
    )));
    assert_eq!(batch.verify(&words.take(2)), Err(Error::InvalidSignature));
}

#[test]
fn batch_agrees_with_single_verification() {
    let mut words = Words(6);
    let msg = b"agree";
    let mut items = Vec::new();
    for _ in 0..3 {
        let (vk_bytes, sig) = spend_item(&mut words, msg);
        items.push(Item::from((vk_bytes, sig, &msg[..])));
        let (vk_bytes, sig) = binding_item(&mut words, msg);
        items.push(Item::from((vk_bytes, sig, &msg[..])));
    }
    let mut batch = Verifier::new();
    for item in items.iter() {
        assert_eq!(item.clone().verify_single(), Ok(()));
        batch.queue(item.clone());
    }
    assert_eq!(batch.verify(&words.take(12)), Ok(()));

    let (vk_bytes, sig) = spend_item(&mut words, msg);
    items.push(Item::from((vk_bytes, sig, &b"other"[..])));
    let mut batch = Verifier::new();
    for item in items.iter() {
        batch.queue(item.clone());
    }
    assert_eq!(items[6].clone().verify_single(), Err(Error::InvalidSignature));
    assert_eq!(batch.verify(&words.take(14)), Err(Error::InvalidSignature));
}

#[test]
fn batch_result_does_not_depend_on_the_blinding() {
    let msg = b"blinding";
    let mut words = Words(7);
    let (vk_bytes, sig) = binding_item(&mut words, msg);
    let (spend_vk_bytes, spend_sig) = spend_item(&mut words, msg);
    for randomness in [[0u64; 4], [1, 0, 1, 0], [u64::MAX; 4], [5, 6, 7, 8]] {
        let mut batch = Verifier::new();
        batch.queue(Item::from((vk_bytes, sig, &msg[..])));
        batch.queue(Item::from((spend_vk_bytes, spend_sig, &msg[..])));
        assert_eq!(batch.verify(&randomness), Ok(()));
    }
}

#[test]
fn single_verification_of_an_item() {
    let mut words = Words(8);
    let msg = b"single";
    let (vk_bytes, sig) = binding_item(&mut words, msg);
    assert_eq!(Item::from((vk_bytes, sig, &msg[..])).verify_single(), Ok(()));
    assert_eq!(
        Item::from((vk_bytes, sig, &b"double"[..])).verify_single(),
        Err(Error::InvalidSignature)
    );
    let malformed = VerificationKeyBytes::<Binding>::from([0xffu8; 32]);
    assert_eq!(
        Item::from((malformed, sig, &msg[..])).verify_single(),
        Err(Error::MalformedVerificationKey)
    );
}

#[test]
fn batch_without_enough_randomness_is_not_accepted() {
    let mut words = Words(9);
    let msg = b"words";
    let (vk_bytes, sig) = spend_item(&mut words, msg);
    let mut batch = Verifier::new();
    batch.queue(Item::from((vk_bytes, sig, &msg[..])));
    assert_eq!(batch.len(), 1);
    assert_eq!(batch.verify(&words.take(1)), Err(Error::InvalidSignature));
    let mut batch = Verifier::new();
    batch.queue(Item::from((vk_bytes, sig, &msg[..])));
    assert_eq!(batch.verify(&words.take(3)), Ok(()));
}
