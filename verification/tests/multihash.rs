use openssl::hash::{hash, MessageDigest};
use rust_multihash::{multihash, HashTypes};

#[test]
fn test1() {
    let example = b"hello world";
    let mut result = hash(MessageDigest::sha256(), example).unwrap().to_vec();
    let length = result.len() as u8;
    result.insert(0, 0x12);
    result.insert(1, length);

    assert_eq!(multihash(HashTypes::SHA2256, example.to_vec()).unwrap(), result);
    println!("hello world hashes to: {:?}", result);

    assert_eq!(HashTypes::from_u8(0x12), Some(HashTypes::SHA2256));
    assert_eq!(HashTypes::from_u8(0x01), None);
}

#[test]
fn test_id() {
    assert_eq!(multihash(HashTypes::Identity, b"hello".to_vec()).unwrap(), b"\x00\x05hello");
}
