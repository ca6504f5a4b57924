//! Where the codecs find their keys: a store of session encryptions and a
//! store of users' RSA key pairs, both provided by users of the library, and
//! the ciphers that those keys are used with.
use crate::domain::Encryption;
use crate::error::{CodecError, CryptoError};
use std::sync::Arc;
use vstd::prelude::*;

verus! {

/// A store of encryptions, looked up by key (a session token).
pub trait EncryptionHolder {
    /// The encryption stored under `encryption_key`, if any.
    fn get_encryption(&self, encryption_key: &str) -> Result<Option<Arc<Encryption>>, CodecError>;
}

impl<T: EncryptionHolder> EncryptionHolder for Arc<T> {
    fn get_encryption(&self, encryption_key: &str) -> (r: Result<Option<Arc<Encryption>>, CodecError>)
        ensures
            call_ensures(T::get_encryption, (&**self, encryption_key), r),
    {
        let inner: &T = &**self;
        inner.get_encryption(encryption_key)
    }
}

impl<'a, T: EncryptionHolder> EncryptionHolder for &'a T {
    fn get_encryption(&self, encryption_key: &str) -> (r: Result<Option<Arc<Encryption>>, CodecError>)
        ensures
            call_ensures(T::get_encryption, (*self, encryption_key), r),
    {
        let inner: &T = *self;
        inner.get_encryption(encryption_key)
    }
}

/// A user's RSA key pair: it seals AES keys for the other side and opens the
/// AES keys sealed for this side.
pub trait RsaCrypto {
    /// `data` sealed with the public key.
    fn encrypt(&self, data: &Vec<u8>) -> Result<Vec<u8>, CryptoError>;

    /// `data` opened with the private key.
    fn decrypt(&self, data: &Vec<u8>) -> Result<Vec<u8>, CryptoError>;
}

/// A store of users' RSA key pairs, looked up by auth token.
pub trait RsaCryptoHolder {
    /// The key pair type the store hands out.
    type Crypto: RsaCrypto;

    /// The key pair of the user with `auth_token`, if any.
    fn get_rsa_crypto(&self, auth_token: &str) -> Result<Option<Arc<Self::Crypto>>, CodecError>;
}

impl<T: RsaCryptoHolder> RsaCryptoHolder for Arc<T> {
    type Crypto = T::Crypto;

    fn get_rsa_crypto(&self, auth_token: &str) -> (r: Result<Option<Arc<T::Crypto>>, CodecError>)
        ensures
            call_ensures(T::get_rsa_crypto, (&**self, auth_token), r),
    {
        let inner: &T = &**self;
        inner.get_rsa_crypto(auth_token)
    }
}

impl<'a, T: RsaCryptoHolder> RsaCryptoHolder for &'a T {
    type Crypto = T::Crypto;

    fn get_rsa_crypto(&self, auth_token: &str) -> (r: Result<Option<Arc<T::Crypto>>, CodecError>)
        ensures
            call_ensures(T::get_rsa_crypto, (*self, auth_token), r),
    {
        let inner: &T = *self;
        inner.get_rsa_crypto(auth_token)
    }
}

/// The AES cipher that session and data keys are used with.
pub trait AesCrypto {
    /// `data` encrypted under `key`.
    fn encrypt_with_aes(&self, key: &Vec<u8>, data: &[u8]) -> Result<Vec<u8>, CryptoError>;

    /// `data` decrypted under `key`.
    fn decrypt_with_aes(&self, key: &Vec<u8>, data: &[u8]) -> Result<Vec<u8>, CryptoError>;
}

} // verus!
