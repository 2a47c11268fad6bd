//! Direct Ed25519 verification against real keys and signatures.

use ed25519_dalek::{Keypair, Signer};
use rand::rngs::OsRng;
use spark_chain_tge::ed25519::verify_signature;
use spark_chain_tge::errors::ErrorCode;

#[test]
fn test_verify() {
    let mut csprng = OsRng;
    let keypair = Keypair::generate(&mut csprng);

    let bytes_to_sign = b"Hello World! More bytes and stuff...";
    let signature = keypair.sign(bytes_to_sign);

    let pubkey = keypair.public.to_bytes();
    let verify = verify_signature(&pubkey, &signature.to_bytes(), bytes_to_sign).unwrap();
    assert!(verify);
}

#[test]
fn test_verify_false() {
    let mut csprng = OsRng;
    let keypair = Keypair::generate(&mut csprng);

    let bytes_to_sign = b"Hello World! More bytes and stuff...";
    let signature = keypair.sign(bytes_to_sign);

    let wrong_bytes = b"Hello World! These are not the bytes you are looking for...";
    let pubkey = keypair.public.to_bytes();
    let verify = verify_signature(&pubkey, &signature.to_bytes(), wrong_bytes).unwrap();
    assert!(!verify);
}

#[test]
fn test_invalid_pubkey() {
    // A 32-byte string that is not a curve point: the y-coordinate 2 has
    // no corresponding x (the decompression ratio is not a square).
    let mut invalid_bytes = [0u8; 32];
    invalid_bytes[0] = 2;
    let signature = [0u8; 64];
    let message = b"test message";

    let result = verify_signature(&invalid_bytes, &signature, message);
    // Should return an error for invalid pubkey
    assert!(result.is_err());
    assert_eq!(result.unwrap_err(), ErrorCode::InvalidSignature);
}

#[test]
fn test_tampered_signature() {
    let mut csprng = OsRng;
    let keypair = Keypair::generate(&mut csprng);

    let bytes_to_sign = b"Hello World!";
    let signature = keypair.sign(bytes_to_sign);

    // Tamper with the signature's S component
    let mut tampered_sig = signature.to_bytes();
    tampered_sig[32] ^= 0x01; // Flip one bit in S component

    let pubkey = keypair.public.to_bytes();
    let result = verify_signature(&pubkey, &tampered_sig, bytes_to_sign).unwrap();
    assert!(!result);
}

#[test]
fn test_empty_message() {
    let mut csprng = OsRng;
    let keypair = Keypair::generate(&mut csprng);

    let empty_message = b"";
    let signature = keypair.sign(empty_message);

    let pubkey = keypair.public.to_bytes();
    let verify = verify_signature(&pubkey, &signature.to_bytes(), empty_message).unwrap();
    assert!(verify);
}

#[test]
fn test_large_message() {
    let mut csprng = OsRng;
    let keypair = Keypair::generate(&mut csprng);

    let large_message = vec![0xAB; 10000]; // 10KB message
    let signature = keypair.sign(&large_message);

    let pubkey = keypair.public.to_bytes();
    let verify = verify_signature(&pubkey, &signature.to_bytes(), &large_message).unwrap();
    assert!(verify);
}
