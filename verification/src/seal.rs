//! Sealing and opening, as the codecs do it.
//!
//! The session and tunnel codecs seal the AES key of an encryption with a
//! user's RSA key pair: the key pair is looked up by the user's auth token (a
//! user without one is refused), a plain encryption stays plain, and an AES
//! key is sealed (or opened) with the key pair.
//!
//! The relay codecs seal a relay's content under its session's encryption:
//! the encryption is looked up by the session token (a session without one is
//! refused), plain content stays as it is, and under AES it is encrypted (or
//! decrypted) with the session's key.
use crate::domain::Encryption;
use crate::error::{CodecError, CryptoError};
use crate::holder::{AesCrypto, EncryptionHolder, RsaCrypto, RsaCryptoHolder};
use std::sync::Arc;
use vstd::prelude::*;
use vstd::string::StringExecFns;
use vstd::slice::slice_to_vec;

verus! {

/// The message of the error for a user without an RSA key pair.
pub open spec fn rsa_not_found_message(auth_token: Seq<char>) -> Seq<char> {
    "Rsa crypto not found: "@ + auth_token
}

/// Whether `e` is the error for a user without an RSA key pair.
pub open spec fn is_rsa_not_found(e: CodecError, auth_token: Seq<char>) -> bool {
    e matches CodecError::Crypto(CryptoError::Rsa(m)) && m@ == rsa_not_found_message(auth_token)
}

/// What sealing (`seal`) or opening (`!seal`) `encryption` with the key pair
/// `crypto` may give: plain stays plain; an AES key becomes one that the key
/// pair's `encrypt` (or `decrypt`) can give for it, and its error is passed on.
pub open spec fn key_outcome<C: RsaCrypto>(crypto: &C, seal: bool, encryption: Encryption, r: Result<Encryption, CodecError>) -> bool {
    match encryption {
        Encryption::Plain => r == Ok::<Encryption, CodecError>(Encryption::Plain),
        Encryption::Aes(k) => exists|o: Result<Vec<u8>, CryptoError>|
            #[trigger] key_call(crypto, seal, &k, o) && match o {
                Ok(s) => r matches Ok(Encryption::Aes(s2)) && s2@ == s@,
                Err(e) => r == Err::<Encryption, CodecError>(CodecError::Crypto(e)),
            },
    }
}

/// Whether `o` is a result that the key pair's `encrypt` (`seal`) or
/// `decrypt` can give for `k`.
pub open spec fn key_call<C: RsaCrypto>(crypto: &C, seal: bool, k: &Vec<u8>, o: Result<Vec<u8>, CryptoError>) -> bool {
    if seal {
        call_ensures(C::encrypt, (crypto, k), o)
    } else {
        call_ensures(C::decrypt, (crypto, k), o)
    }
}

/// What sealing or opening `encryption` for the user with `auth_token` may
/// give, with the key pairs of `holder`: the lookup's error is passed on, a
/// user without a key pair is refused, and otherwise the key pair is used.
pub open spec fn sealing_outcome<H: RsaCryptoHolder>(
    holder: &H,
    auth_token: Seq<char>,
    seal: bool,
    encryption: Encryption,
    r: Result<Encryption, CodecError>,
) -> bool {
    exists|t: &str, l: Result<Option<Arc<H::Crypto>>, CodecError>|
        #[trigger] call_ensures(H::get_rsa_crypto, (holder, t), l) && t@ == auth_token && match l {
            Err(e) => r == Err::<Encryption, CodecError>(e),
            Ok(None) => r matches Err(e) && is_rsa_not_found(e, auth_token),
            Ok(Some(c)) => key_outcome(&*c, seal, encryption, r),
        }
}

fn rsa_not_found(auth_token: &str) -> (e: CodecError)
    ensures
        is_rsa_not_found(e, auth_token@),
{
    let mut m = String::from_str("Rsa crypto not found: ");
    m.append(auth_token);
    CodecError::Crypto(CryptoError::Rsa(m))
}

/// Seals (`seal`) or opens the AES key of `encryption` with the key pair of
/// the user with `auth_token`.
pub fn seal_or_open<H: RsaCryptoHolder>(holder: &H, auth_token: &str, seal: bool, encryption: Encryption) -> (r: Result<Encryption, CodecError>)
    ensures
        sealing_outcome(holder, auth_token@, seal, encryption, r),
{
    let l = holder.get_rsa_crypto(auth_token);
    let crypto = match l {
        Err(e) => {
            return Err(e);
        },
        Ok(None) => {
            return Err(rsa_not_found(auth_token));
        },
        Ok(Some(c)) => c,
    };
    let c: &H::Crypto = &*crypto;
    match encryption {
        Encryption::Plain => Ok(Encryption::Plain),
        Encryption::Aes(k) => {
            let o = if seal {
                c.encrypt(&k)
            } else {
                c.decrypt(&k)
            };
            assert(key_call(c, seal, &k, o));
            match o {
                Ok(s) => Ok(Encryption::Aes(s)),
                Err(e) => Err(CodecError::Crypto(e)),
            }
        },
    }
}

/// Whether `l` is a result that the holder's `get_encryption` can give for a
/// key whose text is `key`.
pub open spec fn encryption_lookup<H: EncryptionHolder>(
    holder: &H,
    key: Seq<char>,
    l: Result<Option<Arc<Encryption>>, CodecError>,
) -> bool {
    exists|t: &str| #[trigger] call_ensures(H::get_encryption, (holder, t), l) && t@ == key
}

/// Whether `o` is a result that the cipher's `encrypt_with_aes` (`encrypt`)
/// or `decrypt_with_aes` can give for `key` and bytes `data`.
pub open spec fn aes_call<A: AesCrypto>(aes: &A, encrypt: bool, key: &Vec<u8>, data: &[u8], o: Result<Vec<u8>, CryptoError>) -> bool {
    if encrypt {
        call_ensures(A::encrypt_with_aes, (aes, key, data), o)
    } else {
        call_ensures(A::decrypt_with_aes, (aes, key, data), o)
    }
}

/// What putting `content` under (`encrypt`) or out from under `encryption`
/// may give: plain content as it is; under AES, what the cipher can give for
/// the key and the content, its error passed on.
pub open spec fn content_outcome<A: AesCrypto>(
    aes: &A,
    encrypt: bool,
    encryption: Encryption,
    content: Seq<u8>,
    r: Result<Seq<u8>, CodecError>,
) -> bool {
    match encryption {
        Encryption::Plain => r == Ok::<Seq<u8>, CodecError>(content),
        Encryption::Aes(k) => exists|d: &[u8], o: Result<Vec<u8>, CryptoError>|
            #[trigger] aes_call(aes, encrypt, &k, d, o) && d@ == content && match o {
                Ok(c) => r == Ok::<Seq<u8>, CodecError>(c@),
                Err(e) => r == Err::<Seq<u8>, CodecError>(CodecError::Crypto(e)),
            },
    }
}

/// What putting `content` under (`encrypt`) or out from under the
/// encryption of the session with `token` may give: the lookup's error is
/// passed on, a session without an encryption is refused, and otherwise the
/// session's encryption is used.
pub open spec fn session_content_outcome<H: EncryptionHolder, A: AesCrypto>(
    holder: &H,
    aes: &A,
    encrypt: bool,
    token: Seq<char>,
    content: Seq<u8>,
    r: Result<Seq<u8>, CodecError>,
) -> bool {
    exists|l: Result<Option<Arc<Encryption>>, CodecError>|
        #[trigger] encryption_lookup(holder, token, l) && match l {
            Err(e) => r == Err::<Seq<u8>, CodecError>(e),
            Ok(None) => r matches Err(CodecError::EncryptionNotExist(t)) && t@ == token,
            Ok(Some(e)) => content_outcome(aes, encrypt, *e, content, r),
        }
}

/// A result of bytes, by view.
pub open spec fn bytes_view(r: Result<Vec<u8>, CodecError>) -> Result<Seq<u8>, CodecError> {
    match r {
        Ok(v) => Ok(v@),
        Err(e) => Err(e),
    }
}

/// Puts `content` under (`encrypt`) or out from under the encryption of the
/// session with `token`.
pub fn seal_content<H: EncryptionHolder, A: AesCrypto>(
    holder: &H,
    aes: &A,
    encrypt: bool,
    token: &str,
    content: &[u8],
) -> (r: Result<Vec<u8>, CodecError>)
    ensures
        session_content_outcome(holder, aes, encrypt, token@, content@, bytes_view(r)),
{
    let l = holder.get_encryption(token);
    assert(encryption_lookup(holder, token@, l));
    let encryption = match l {
        Err(e) => {
            return Err(e);
        },
        Ok(None) => {
            return Err(CodecError::EncryptionNotExist(token.to_string()));
        },
        Ok(Some(e)) => e,
    };
    let e: &Encryption = &*encryption;
    apply_encryption(aes, encrypt, e, content)
}

/// Puts `content` under (`encrypt`) or out from under `encryption`.
pub fn apply_encryption<A: AesCrypto>(aes: &A, encrypt: bool, encryption: &Encryption, content: &[u8]) -> (r: Result<Vec<u8>, CodecError>)
    ensures
        content_outcome(aes, encrypt, *encryption, content@, bytes_view(r)),
{
    match encryption {
        Encryption::Plain => Ok(slice_to_vec(content)),
        Encryption::Aes(k) => {
            let o = if encrypt {
                aes.encrypt_with_aes(k, content)
            } else {
                aes.decrypt_with_aes(k, content)
            };
            assert(aes_call(aes, encrypt, k, content, o));
            match o {
                Ok(c) => Ok(c),
                Err(x) => Err(CodecError::Crypto(x)),
            }
        },
    }
}

/// Whether the cipher's decryption undoes its encryption: whatever it
/// decrypts under a key, from bytes that it encrypted under that key, is
/// what it encrypted.
pub open spec fn aes_inverts<A: AesCrypto>(aes: &A) -> bool {
    forall|k: &Vec<u8>, d: &[u8], c: Vec<u8>, d2: &[u8], o: Result<Vec<u8>, CryptoError>|
        #[trigger] call_ensures(A::encrypt_with_aes, (aes, k, d), Ok::<Vec<u8>, CryptoError>(c))
            && #[trigger] call_ensures(A::decrypt_with_aes, (aes, k, d2), o) && d2@ == c@ ==> (o matches Ok(x)
            && x@ == d@)
}

/// Content put under an encryption and taken out from under the same
/// encryption, with a cipher whose decryption undoes its encryption, comes
/// back as it was.
pub proof fn lemma_content_roundtrip<A: AesCrypto>(
    aes: &A,
    encryption: Encryption,
    content: Seq<u8>,
    sealed: Seq<u8>,
    opened: Result<Seq<u8>, CodecError>,
)
    requires
        aes_inverts(aes),
        content_outcome(aes, true, encryption, content, Ok(sealed)),
        content_outcome(aes, false, encryption, sealed, opened),
    ensures
        opened == Ok::<Seq<u8>, CodecError>(content),
{
    match encryption {
        Encryption::Plain => {},
        Encryption::Aes(k) => {
            let (d1, o1) = choose|d: &[u8], o: Result<Vec<u8>, CryptoError>|
                #[trigger] aes_call(aes, true, &k, d, o) && d@ == content && match o {
                    Ok(c) => Ok::<Seq<u8>, CodecError>(sealed) == Ok::<Seq<u8>, CodecError>(c@),
                    Err(e) => Ok::<Seq<u8>, CodecError>(sealed) == Err::<Seq<u8>, CodecError>(CodecError::Crypto(e)),
                };
            let (d2, o2) = choose|d: &[u8], o: Result<Vec<u8>, CryptoError>|
                #[trigger] aes_call(aes, false, &k, d, o) && d@ == sealed && match o {
                    Ok(c) => opened == Ok::<Seq<u8>, CodecError>(c@),
                    Err(e) => opened == Err::<Seq<u8>, CodecError>(CodecError::Crypto(e)),
                };
            let c1 = o1->Ok_0;
            assert(call_ensures(A::encrypt_with_aes, (aes, &k, d1), Ok::<Vec<u8>, CryptoError>(c1)));
            assert(call_ensures(A::decrypt_with_aes, (aes, &k, d2), o2));
        },
    }
}

/// Whether two encryption holders give, for the session with `token`, one
/// and the same encryption each time they are asked.
pub open spec fn holders_agree<H1: EncryptionHolder, H2: EncryptionHolder>(sealer: &H1, opener: &H2, token: Seq<char>) -> bool {
    exists|e: Encryption| #[trigger] both_give(sealer, opener, token, e)
}

/// Whether both holders give `e` for the session with `token`, each time
/// they are asked.
pub open spec fn both_give<H1: EncryptionHolder, H2: EncryptionHolder>(sealer: &H1, opener: &H2, token: Seq<char>, e: Encryption) -> bool {
    &&& forall|t: &str, l: Result<Option<Arc<Encryption>>, CodecError>|
        #[trigger] call_ensures(H1::get_encryption, (sealer, t), l) && t@ == token ==> gives(l, e)
    &&& forall|t: &str, l: Result<Option<Arc<Encryption>>, CodecError>|
        #[trigger] call_ensures(H2::get_encryption, (opener, t), l) && t@ == token ==> gives(l, e)
}

/// Whether a lookup gave the encryption `e`.
pub open spec fn gives(l: Result<Option<Arc<Encryption>>, CodecError>, e: Encryption) -> bool {
    l matches Ok(Some(x)) && *x == e
}

/// Relay content that one side puts under its session's encryption, the
/// other side takes out from under it as it was: for holders that give the
/// same encryption for the session, and a cipher whose decryption undoes its
/// encryption.
pub proof fn lemma_relay_content_roundtrip<H1: EncryptionHolder, H2: EncryptionHolder, A: AesCrypto>(
    sealer: &H1,
    opener: &H2,
    aes: &A,
    token: Seq<char>,
    content: Seq<u8>,
    sealed: Seq<u8>,
    opened: Result<Seq<u8>, CodecError>,
)
    requires
        aes_inverts(aes),
        holders_agree(sealer, opener, token),
        session_content_outcome(sealer, aes, true, token, content, Ok(sealed)),
        session_content_outcome(opener, aes, false, token, sealed, opened),
    ensures
        opened == Ok::<Seq<u8>, CodecError>(content),
{
    let e = choose|e: Encryption| #[trigger] both_give(sealer, opener, token, e);
    let l1 = choose|l: Result<Option<Arc<Encryption>>, CodecError>|
        #[trigger] encryption_lookup(sealer, token, l) && match l {
            Err(x) => Ok::<Seq<u8>, CodecError>(sealed) == Err::<Seq<u8>, CodecError>(x),
            Ok(None) => Ok::<Seq<u8>, CodecError>(sealed) matches Err(CodecError::EncryptionNotExist(t)) && t@ == token,
            Ok(Some(x)) => content_outcome(aes, true, *x, content, Ok(sealed)),
        };
    let l2 = choose|l: Result<Option<Arc<Encryption>>, CodecError>|
        #[trigger] encryption_lookup(opener, token, l) && match l {
            Err(x) => opened == Err::<Seq<u8>, CodecError>(x),
            Ok(None) => opened matches Err(CodecError::EncryptionNotExist(t)) && t@ == token,
            Ok(Some(x)) => content_outcome(aes, false, *x, sealed, opened),
        };
    lemma_content_roundtrip(aes, e, content, sealed, opened);
}

/// Whether the key pair `opener` opens every AES key that the key pair
/// `sealer` seals.
pub open spec fn opens<C1: RsaCrypto, C2: RsaCrypto>(sealer: &C1, opener: &C2) -> bool {
    forall|k: &Vec<u8>, x: Vec<u8>, y: &Vec<u8>, o: Result<Vec<u8>, CryptoError>|
        #[trigger] call_ensures(C1::encrypt, (sealer, k), Ok::<Vec<u8>, CryptoError>(x))
            && #[trigger] call_ensures(C2::decrypt, (opener, y), o) && y@ == x@ ==> opened_to(o, k@)
}

/// Whether `o` is a key whose bytes are `k`.
pub open spec fn opened_to(o: Result<Vec<u8>, CryptoError>, k: Seq<u8>) -> bool {
    o matches Ok(x) && x@ == k
}

/// Whether two lookups gave key pairs, the second of which opens what the
/// first seals.
pub open spec fn pair_opens<C1: RsaCrypto, C2: RsaCrypto>(
    l1: Result<Option<Arc<C1>>, CodecError>,
    l2: Result<Option<Arc<C2>>, CodecError>,
) -> bool {
    l1 matches Ok(Some(c1)) && l2 matches Ok(Some(c2)) && opens(&*c1, &*c2)
}

/// Whether, for the user with `auth_token`, each key pair that `sealer`
/// gives and each that `opener` gives are two halves of one pair: the
/// second opens what the first seals.
pub open spec fn keys_match<H1: RsaCryptoHolder, H2: RsaCryptoHolder>(sealer: &H1, opener: &H2, auth_token: Seq<char>) -> bool {
    forall|t1: &str, l1: Result<Option<Arc<H1::Crypto>>, CodecError>, t2: &str, l2: Result<Option<Arc<H2::Crypto>>, CodecError>|
        #[trigger] call_ensures(H1::get_rsa_crypto, (sealer, t1), l1) && #[trigger] call_ensures(
            H2::get_rsa_crypto,
            (opener, t2),
            l2,
        ) && t1@ == auth_token && t2@ == auth_token ==> pair_opens(l1, l2)
}

/// Whether two encryptions are the same: both plain, or AES with keys of the
/// same bytes.
pub open spec fn same_encryption(a: Encryption, b: Encryption) -> bool {
    match (a, b) {
        (Encryption::Plain, Encryption::Plain) => true,
        (Encryption::Aes(x), Encryption::Aes(y)) => x@ == y@,
        _ => false,
    }
}

/// An encryption sealed for a user by one side is opened by the other side
/// as it was, when the two sides hold the two halves of that user's key pair.
pub proof fn lemma_key_roundtrip<H1: RsaCryptoHolder, H2: RsaCryptoHolder>(
    sealer: &H1,
    opener: &H2,
    auth_token: Seq<char>,
    encryption: Encryption,
    sealed: Encryption,
    opened: Result<Encryption, CodecError>,
)
    requires
        keys_match(sealer, opener, auth_token),
        sealing_outcome(sealer, auth_token, true, encryption, Ok(sealed)),
        sealing_outcome(opener, auth_token, false, sealed, opened),
    ensures
        opened matches Ok(e) && same_encryption(e, encryption),
{
    let (t1, l1) = choose|t: &str, l: Result<Option<Arc<H1::Crypto>>, CodecError>|
        #[trigger] call_ensures(H1::get_rsa_crypto, (sealer, t), l) && t@ == auth_token && match l {
            Err(e) => Ok::<Encryption, CodecError>(sealed) == Err::<Encryption, CodecError>(e),
            Ok(None) => Ok::<Encryption, CodecError>(sealed) matches Err(e) && is_rsa_not_found(e, auth_token),
            Ok(Some(c)) => key_outcome(&*c, true, encryption, Ok(sealed)),
        };
    let (t2, l2) = choose|t: &str, l: Result<Option<Arc<H2::Crypto>>, CodecError>|
        #[trigger] call_ensures(H2::get_rsa_crypto, (opener, t), l) && t@ == auth_token && match l {
            Err(e) => opened == Err::<Encryption, CodecError>(e),
            Ok(None) => opened matches Err(e) && is_rsa_not_found(e, auth_token),
            Ok(Some(c)) => key_outcome(&*c, false, sealed, opened),
        };
    assert(pair_opens(l1, l2));
    let c1 = l1->Ok_0->Some_0;
    let c2 = l2->Ok_0->Some_0;
    match encryption {
        Encryption::Plain => {},
        Encryption::Aes(k) => {
            let o1 = choose|o: Result<Vec<u8>, CryptoError>|
                #[trigger] key_call(&*c1, true, &k, o) && match o {
                    Ok(s) => Ok::<Encryption, CodecError>(sealed) matches Ok(Encryption::Aes(s2)) && s2@ == s@,
                    Err(e) => Ok::<Encryption, CodecError>(sealed) == Err::<Encryption, CodecError>(CodecError::Crypto(e)),
                };
            let x = o1->Ok_0;
            let s2 = sealed->Aes_0;
            let o2 = choose|o: Result<Vec<u8>, CryptoError>|
                #[trigger] key_call(&*c2, false, &s2, o) && match o {
                    Ok(s) => opened matches Ok(Encryption::Aes(s3)) && s3@ == s@,
                    Err(e) => opened == Err::<Encryption, CodecError>(CodecError::Crypto(e)),
                };
            assert(call_ensures(<H1::Crypto as RsaCrypto>::encrypt, (&*c1, &k), Ok::<Vec<u8>, CryptoError>(x)));
            assert(call_ensures(<H2::Crypto as RsaCrypto>::decrypt, (&*c2, &s2), o2));
            assert(opened_to(o2, k@));
        },
    }
}

} // verus!
