//! Session cryptography: derivation of the 16-byte session key from a seed,
//! AES-128 ECB + PKCS#7 encryption and decryption of UTF-8 text, and the
//! challenge-response token computation that silently rotates the key.
//!
//! The scheme is intentionally weak legacy cryptography; it is reproduced
//! bit for bit because interoperating with the real server requires it.

use crate::hexcode::{hex_chars_of, hex_encode};
use crate::random::{lcg_iterate, lcg_output, lcg_step, Random};
use aes::cipher::block_padding::Pkcs7;
use aes::cipher::{BlockDecryptMut, BlockEncryptMut, KeyInit};
use vstd::prelude::*;
use vstd::string::StrSliceExecFns;
use vstd::utf8::{decode_utf8, encode_utf8, valid_utf8};

verus! {

/// Length of the session key in bytes (an AES-128 key).
pub const KEY_SIZE: usize = 16;

/// The fixed seed of the first pseudo-random stage of key derivation.
pub const DEFAULT_SEED: u32 = 7;

/// What the ciphertext of `pt` under `key` is.
///
/// Stands for `ecb::Encryptor::<aes::Aes128>::encrypt_padded_vec_mut::<Pkcs7>`,
/// whose result depends on the key and the plaintext alone.
pub uninterp spec fn aes_enc_bytes(key: Seq<u8>, pt: Seq<u8>) -> Seq<u8>;

/// What decrypting `ct` under `key` gives: the unpadded plaintext, or nothing
/// when the padding is invalid.
///
/// Stands for `ecb::Decryptor::<aes::Aes128>::decrypt_padded_vec_mut::<Pkcs7>`,
/// whose result depends on the key and the ciphertext alone.
pub uninterp spec fn aes_dec_bytes(key: Seq<u8>, ct: Seq<u8>) -> Option<Seq<u8>>;

/// Relies on `ecb::Encryptor::<aes::Aes128>` with `encrypt_padded_vec_mut::<Pkcs7>`:
/// the ciphertext is a function of key and plaintext, PKCS#7 padding always
/// extends the input to the next multiple of the block size, and decrypting
/// the result under the same key gives the plaintext back.
#[verifier::external_body]
fn aes128_ecb_encrypt(key: &[u8], pt: &[u8]) -> (r: Vec<u8>)
    requires
        key@.len() == 16,
    ensures
        r@ == aes_enc_bytes(key@, pt@),
        r@.len() == ((pt@.len() / 16) + 1) * 16,
        aes_dec_bytes(key@, r@) == Some(pt@),
{
    let enc = ecb::Encryptor::<aes::Aes128>::new_from_slice(key).unwrap();
    enc.encrypt_padded_vec_mut::<Pkcs7>(pt)
}

/// Relies on `ecb::Decryptor::<aes::Aes128>` with `decrypt_padded_vec_mut::<Pkcs7>`:
/// the outcome is a function of key and ciphertext; it fails when the input
/// is not a positive multiple of the block size or the padding is malformed.
#[verifier::external_body]
fn aes128_ecb_decrypt(key: &[u8], ct: &[u8]) -> (r: Option<Vec<u8>>)
    requires
        key@.len() == 16,
    ensures
        match r {
            Some(v) => aes_dec_bytes(key@, ct@) == Some(v@),
            None => aes_dec_bytes(key@, ct@) is None,
        },
        ct@.len() % 16 != 0 ==> r is None,
{
    let dec = ecb::Decryptor::<aes::Aes128>::new_from_slice(key).unwrap();
    dec.decrypt_padded_vec_mut::<Pkcs7>(ct).ok()
}

/// Relies on `String::from_utf8`: it succeeds exactly on valid UTF-8 and
/// returns the decoded text.
#[verifier::external_body]
fn utf8_to_string(bytes: Vec<u8>) -> (r: Option<String>)
    ensures
        match r {
            Some(s) => valid_utf8(bytes@) && s@ == decode_utf8(bytes@),
            None => !valid_utf8(bytes@),
        },
{
    String::from_utf8(bytes).ok()
}

/// A failure of the session cipher.
#[derive(Debug, Clone, Copy, PartialEq, Eq, Structural)]
pub enum CryptoError {
    /// The input to encrypt or decrypt was empty.
    EmptyInput,
    /// The ciphertext's padding was invalid.
    DecryptionFailed,
    /// The decrypted bytes were not valid UTF-8.
    Utf8Error,
}

/// The default "identity" key used before the handshake: bytes `0..15`.
pub open spec fn spec_default_key() -> Seq<u8> {
    Seq::new(16, |i: int| i as u8)
}

/// The generator seed implied by a caller seed: the first stage runs one step
/// from the fixed seed and the caller seed is added to its output, wrapping.
pub open spec fn derived_seed(seed: u32) -> u32 {
    lcg_output(lcg_step(DEFAULT_SEED)).wrapping_add(seed)
}

/// Byte `i` of a derived key: the low byte of the generator's output after
/// `i + 1` steps from the derived seed.
pub open spec fn derived_key_byte(seed: u32, i: int) -> u8 {
    (lcg_output(lcg_iterate(derived_seed(seed), (i + 1) as nat)) % 256) as u8
}

/// The session key a seed derives: the identity key for seed `0`, else the
/// 16 bytes drawn from the two-stage reseeded generator.
pub open spec fn spec_key_from_seed(seed: u32) -> Seq<u8> {
    if seed == 0 {
        spec_default_key()
    } else {
        Seq::new(16, |i: int| derived_key_byte(seed, i))
    }
}

/// What decrypting `ct` under `key` and decoding the result as UTF-8 yields,
/// if anything.
pub open spec fn spec_decrypt(key: Seq<u8>, ct: Seq<u8>) -> Option<Seq<char>> {
    match aes_dec_bytes(key, ct) {
        Some(b) => if valid_utf8(b) {
            Some(decode_utf8(b))
        } else {
            None
        },
        None => None,
    }
}

/// The new seed implied by a challenge-response token: taken from the first
/// two bytes of the hexadecimal string itself, high byte first.
pub open spec fn challenge_seed(token: Seq<char>) -> u32 {
    ((token[0] as u32) * 256 + (token[1] as u32)) as u32
}

/// The session cipher: owns the 16-byte key of one connection. The key is
/// read-only after the handshake, so a clone may be shared by the reader and
/// writer sides.
#[derive(Debug, Clone)]
pub struct Crypto {
    key: Vec<u8>,
}

impl Crypto {
    /// The key is exactly 16 bytes long.
    pub open spec fn wf(&self) -> bool {
        self.spec_key().len() == 16
    }

    /// The current key bytes.
    pub closed spec fn spec_key(&self) -> Seq<u8> {
        self.key@
    }

    /// Creates a cipher whose key is derived from `seed`.
    pub fn new(seed: u32) -> (r: Crypto)
        ensures
            r.wf(),
            r.spec_key() == spec_key_from_seed(seed),
    {
        let mut crypto = Crypto { key: Vec::new() };
        crypto.set_key(seed);
        crypto
    }

    /// The current key, for inspection.
    pub fn key(&self) -> (r: &Vec<u8>)
        ensures
            r@ == self.spec_key(),
    {
        &self.key
    }

    /// Replaces the key with the one derived from `seed`: the identity key
    /// `[0, 1, ..., 15]` for seed `0`, otherwise 16 bytes drawn from the
    /// two-stage reseeded generator. The two stages are not equivalent to
    /// seeding directly with `seed` and must be preserved exactly.
    pub fn set_key(&mut self, seed: u32)
        ensures
            final(self).wf(),
            final(self).spec_key() == spec_key_from_seed(seed),
    {
        let mut key: Vec<u8> = Vec::new();
        if seed == 0 {
            let mut i: usize = 0;
            while i < 16
                invariant
                    i <= 16,
                    key@.len() == i,
                    forall|j: int| 0 <= j < i ==> key@[j] == j as u8,
                decreases 16 - i,
            {
                key.push(i as u8);
                i = i + 1;
            }
            assert(key@ =~= spec_default_key());
        } else {
            let mut rng = Random::new(DEFAULT_SEED);
            let first = rng.next();
            let new_seed = first.wrapping_add(seed);
            rng.set_seed(new_seed);
            assert(rng.state() == derived_seed(seed));
            let mut i: usize = 0;
            while i < 16
                invariant
                    i <= 16,
                    key@.len() == i,
                    rng.state() == lcg_iterate(derived_seed(seed), i as nat),
                    forall|j: int| 0 <= j < i ==> key@[j] == derived_key_byte(seed, j),
                decreases 16 - i,
            {
                let v = rng.next();
                key.push((v % 256) as u8);
                i = i + 1;
            }
            assert(key@ =~= Seq::new(16, |i: int| derived_key_byte(seed, i)));
        }
        self.key = key;
    }

    /// Encrypts the UTF-8 bytes of non-empty text with the current key.
    /// Decrypting the resulting ciphertext under the same key yields the
    /// original text again.
    pub fn encrypt(&self, plain_text: String) -> (r: Result<Vec<u8>, CryptoError>)
        requires
            self.wf(),
        ensures
            r is Ok <==> plain_text@.len() > 0,
            r is Err ==> r == Err::<Vec<u8>, CryptoError>(CryptoError::EmptyInput),
            r matches Ok(ct) ==> {
                &&& ct@ == aes_enc_bytes(self.spec_key(), encode_utf8(plain_text@))
                &&& spec_decrypt(self.spec_key(), ct@) == Some(plain_text@)
                &&& ct@.len() == ((encode_utf8(plain_text@).len() / 16) + 1) * 16
            },
    {
        if plain_text.as_str().is_empty() {
            return Err(CryptoError::EmptyInput);
        }
        let bytes = plain_text.as_str().as_bytes();
        let ct = aes128_ecb_encrypt(self.key.as_slice(), bytes);
        proof {
            vstd::utf8::encode_utf8_valid_utf8(plain_text@);
            vstd::utf8::encode_utf8_decode_utf8(plain_text@);
        }
        Ok(ct)
    }

    /// Decrypts a non-empty ciphertext with the current key and decodes the
    /// result as UTF-8, reporting exactly where the pipeline failed.
    pub fn decrypt(&self, cipher_text: Vec<u8>) -> (r: Result<String, CryptoError>)
        requires
            self.wf(),
        ensures
            r is Ok <==> cipher_text@.len() > 0 && spec_decrypt(self.spec_key(), cipher_text@)
                is Some,
            r matches Ok(s) ==> Some(s@) == spec_decrypt(self.spec_key(), cipher_text@),
            cipher_text@.len() == 0 ==> r == Err::<String, CryptoError>(CryptoError::EmptyInput),
            cipher_text@.len() > 0 && aes_dec_bytes(self.spec_key(), cipher_text@) is None ==> r
                == Err::<String, CryptoError>(CryptoError::DecryptionFailed),
            cipher_text@.len() > 0 && (aes_dec_bytes(self.spec_key(), cipher_text@) matches Some(b)
                && !valid_utf8(b)) ==> r == Err::<String, CryptoError>(CryptoError::Utf8Error),
    {
        if cipher_text.len() == 0 {
            return Err(CryptoError::EmptyInput);
        }
        match aes128_ecb_decrypt(self.key.as_slice(), cipher_text.as_slice()) {
            None => Err(CryptoError::DecryptionFailed),
            Some(bytes) => match utf8_to_string(bytes) {
                None => Err(CryptoError::Utf8Error),
                Some(s) => Ok(s),
            },
        }
    }

    /// Answers a handshake challenge: encrypts the challenge key with the
    /// current session key, hex-encodes the ciphertext into the response
    /// token, and reseeds the session key from the token's first two bytes.
    /// Every frame after the handshake uses the rotated key, never the
    /// pre-handshake key.
    pub fn prepare_challenge_response(&mut self, challenge_key: &str) -> (r: Result<
        String,
        CryptoError,
    >)
        requires
            old(self).wf(),
        ensures
            final(self).wf(),
            r is Ok <==> challenge_key@.len() > 0,
            r is Err ==> r == Err::<String, CryptoError>(CryptoError::EmptyInput) && *final(self)
                == *old(self),
            r matches Ok(token) ==> {
                &&& token@ == hex_chars_of(
                    aes_enc_bytes(old(self).spec_key(), encode_utf8(challenge_key@)),
                )
                &&& token@.len() >= 2
                &&& final(self).spec_key() == spec_key_from_seed(challenge_seed(token@))
            },
    {
        let owned: String = challenge_key.to_owned();
        let ct = match self.encrypt(owned) {
            Ok(ct) => ct,
            Err(e) => {
                return Err(e);
            },
        };
        let token = hex_encode(ct.as_slice());
        proof {
            crate::hexcode::lemma_hex_chars_ascii(ct@);
        }
        let b0 = token.as_str().get_ascii(0);
        let b1 = token.as_str().get_ascii(1);
        let new_seed: u32 = (b0 as u32) * 256 + (b1 as u32);
        proof {
            vstd::utf8::is_ascii_chars_nat_bound(token@);
            assert((token@[0] as nat) < 128 && (token@[1] as nat) < 128);
            assert(new_seed == challenge_seed(token@));
        }
        self.set_key(new_seed);
        Ok(token)
    }
}

} // verus!
