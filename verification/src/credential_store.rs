//! Encryption of stored database passwords: AES-256-GCM under a per-machine
//! key, framed as `version || nonce || ciphertext` and written in Base64.
use vstd::prelude::*;
use vstd::utf8::*;

use aes_gcm::aead::{Aead, KeyInit};
use aes_gcm::{Aes256Gcm, Nonce};
use rand::rngs::OsRng;
use rand::RngCore;

use crate::base64::{base64_decode, base64_decode_spec, base64_encode, base64_encode_spec, lemma_base64_roundtrip};
use crate::error::{ErrorView, MustelError};
use crate::text::{decimal, decimal_string};

verus! {

/// Version byte of the current encryption scheme.
pub const ENCRYPTION_VERSION: u8 = 2;

/// Length of the machine key in bytes.
pub const KEY_LEN: usize = 32;

/// Length of an AES-GCM nonce in bytes.
pub const NONCE_LEN: usize = 12;

/// The longest plaintext AES-GCM accepts (`aes_gcm::P_MAX`, 2^36 bytes).
pub open spec fn aes_gcm_max_plaintext() -> nat {
    68719476736
}

/// What `Aes256Gcm::encrypt` returns for a key, a nonce and a plaintext.
pub uninterp spec fn aes256gcm_seal(key: Seq<u8>, nonce: Seq<u8>, plaintext: Seq<u8>) -> Seq<u8>;

/// What `Aes256Gcm::decrypt` returns for a key, a nonce and a ciphertext.
pub uninterp spec fn aes256gcm_open(key: Seq<u8>, nonce: Seq<u8>, ciphertext: Seq<u8>) -> Option<
    Seq<u8>,
>;

/// The text `Utf8Error`'s `Display` gives for a byte string that is not UTF-8.
pub uninterp spec fn utf8_error_text(bytes: Seq<u8>) -> Seq<char>;

/// aes_gcm: `Aes256Gcm::new_from_slice(key)` then `Aead::encrypt(nonce, plaintext)`.
/// The source fails only for a key that is not 32 bytes long (ruled out by
/// `requires`) and for a plaintext longer than `P_MAX`; otherwise the result
/// is the named ciphertext, which carries the 16-byte tag after the encrypted
/// bytes (as long as the plaintext, plus 16).
#[verifier::external_body]
fn aes_gcm_seal(key: &Vec<u8>, nonce: &Vec<u8>, plaintext: &Vec<u8>) -> (r: Option<Vec<u8>>)
    requires
        key@.len() == KEY_LEN,
        nonce@.len() == NONCE_LEN,
    ensures
        r is Some <==> plaintext@.len() <= aes_gcm_max_plaintext(),
        r matches Some(ct) ==> ct@ == aes256gcm_seal(key@, nonce@, plaintext@),
        r matches Some(ct) ==> ct@.len() == plaintext@.len() + 16,
{
    let cipher = Aes256Gcm::new_from_slice(key).ok()?;
    cipher.encrypt(Nonce::from_slice(nonce), plaintext.as_slice()).ok()
}

/// aes_gcm: `Aes256Gcm::new_from_slice(key)` then `Aead::decrypt(nonce, ciphertext)`.
/// Besides the name, the contract states the crate's documented round trip:
/// decrypting, under the same key and nonce, what `encrypt` produced gives the
/// plaintext back.
#[verifier::external_body]
fn aes_gcm_open(key: &Vec<u8>, nonce: &Vec<u8>, ciphertext: &Vec<u8>) -> (r: Option<Vec<u8>>)
    requires
        key@.len() == KEY_LEN,
        nonce@.len() == NONCE_LEN,
    ensures
        match r {
            Some(p) => aes256gcm_open(key@, nonce@, ciphertext@) == Some(p@),
            None => aes256gcm_open(key@, nonce@, ciphertext@) is None,
        },
        r matches Some(q) ==> forall|p: Seq<u8>|
            p.len() <= aes_gcm_max_plaintext() && #[trigger] aes256gcm_seal(key@, nonce@, p)
                == ciphertext@ ==> q@ == p,
        r is None ==> forall|p: Seq<u8>|
            p.len() <= aes_gcm_max_plaintext() ==> #[trigger] aes256gcm_seal(key@, nonce@, p)
                != ciphertext@,
{
    let cipher = Aes256Gcm::new_from_slice(key).ok()?;
    cipher.decrypt(Nonce::from_slice(nonce), ciphertext.as_slice()).ok()
}

/// rand: `OsRng::fill_bytes` on a fresh 12-byte buffer. The bytes come from
/// the operating system; only their number is stated.
#[verifier::external_body]
fn random_nonce() -> (r: Vec<u8>)
    ensures
        r@.len() == NONCE_LEN,
{
    let mut nonce = [0u8; 12];
    OsRng.fill_bytes(&mut nonce);
    nonce.to_vec()
}

/// std: `String::from_utf8`. It succeeds exactly on valid UTF-8, with the
/// characters that the bytes encode; otherwise the error's text is named.
#[verifier::external_body]
fn string_from_utf8(bytes: Vec<u8>) -> (r: Result<String, String>)
    ensures
        r is Ok <==> valid_utf8(bytes@),
        r matches Ok(s) ==> s@ == decode_utf8(bytes@),
        r matches Err(m) ==> m@ == utf8_error_text(bytes@),
{
    String::from_utf8(bytes).map_err(|e| format!("{}", e))
}

/// The bytes stored for a plaintext: version, nonce, then ciphertext.
pub open spec fn sealed_record(key: Seq<u8>, nonce: Seq<u8>, plaintext: Seq<char>) -> Seq<u8> {
    seq![ENCRYPTION_VERSION] + nonce + aes256gcm_seal(key, nonce, encode_utf8(plaintext))
}

/// The text stored for a plaintext under a given nonce.
pub open spec fn sealed_text(key: Seq<u8>, nonce: Seq<u8>, plaintext: Seq<char>) -> Seq<char> {
    base64_encode_spec(sealed_record(key, nonce, plaintext))
}

pub open spec fn msg_bad_key_len() -> Seq<char> {
    "Invalid key file length"@
}

pub open spec fn msg_encryption_failed() -> Seq<char> {
    "Encryption failed"@
}

pub open spec fn msg_too_short() -> Seq<char> {
    "Encrypted data too short"@
}

pub open spec fn msg_decryption_failed() -> Seq<char> {
    "Decryption failed (wrong key or corrupted data)"@
}

pub open spec fn msg_legacy() -> Seq<char> {
    "Legacy unencrypted credentials detected. Please re-set the password using: mustel settings db-servers set-password"@
}

pub open spec fn msg_unknown_version(v: u8) -> Seq<char> {
    "Unknown encryption version: "@ + decimal(v as nat)
}

pub open spec fn msg_invalid_utf8(bytes: Seq<u8>) -> Seq<char> {
    "Decrypted data invalid UTF-8: "@ + utf8_error_text(bytes)
}

/// What decrypting the bytes `data` (already Base64-decoded) gives.
pub open spec fn decrypt_bytes_spec(key: Seq<u8>, data: Seq<u8>) -> Result<Seq<char>, ErrorView> {
    if data.len() < 13 {
        Err(ErrorView::Security(msg_too_short()))
    } else if data[0] == 2 {
        match aes256gcm_open(key, data.subrange(1, 13), data.subrange(13, data.len() as int)) {
            None => Err(ErrorView::Security(msg_decryption_failed())),
            Some(p) => if valid_utf8(p) {
                Ok(decode_utf8(p))
            } else {
                Err(ErrorView::Security(msg_invalid_utf8(p)))
            },
        }
    } else if data[0] == 1 {
        Err(ErrorView::Security(msg_legacy()))
    } else {
        Err(ErrorView::Security(msg_unknown_version(data[0])))
    }
}

/// What decrypting the stored text `enc` gives: the empty password for the
/// empty text, otherwise `decrypt_bytes_spec` of its Base64 decoding.
pub open spec fn decryption(key: Seq<u8>, enc: Seq<char>) -> Result<Seq<char>, ErrorView> {
    if enc.len() == 0 {
        Ok(Seq::empty())
    } else {
        decrypt_bytes_spec(key, base64_decode_spec(enc))
    }
}

/// Encrypts and decrypts database passwords under one machine key.
pub struct CredentialStore {
    key: Vec<u8>,
}

impl CredentialStore {
    /// The machine key.
    pub closed spec fn key(&self) -> Seq<u8> {
        self.key@
    }

    pub closed spec fn wf(&self) -> bool {
        self.key@.len() == KEY_LEN
    }

    /// A store over the contents of the key file: exactly 32 bytes are accepted.
    pub fn from_key_bytes(key: Vec<u8>) -> (r: Result<CredentialStore, MustelError>)
        ensures
            r is Ok <==> key@.len() == KEY_LEN,
            r matches Ok(s) ==> s.wf() && s.key() == key@,
            r matches Err(e) ==> e@ == ErrorView::Security(msg_bad_key_len()),
    {
        if key.len() != KEY_LEN {
            let msg = String::from_str("Invalid key file length");
            proof {
                reveal_strlit("Invalid key file length");
            }
            return Err(MustelError::Security(msg));
        }
        Ok(CredentialStore { key })
    }

    /// Encrypts a password. The empty password stays empty; any other comes out
    /// as the Base64 text of `2 || nonce || AES-256-GCM(key, nonce, utf8(password))`
    /// for a fresh random 12-byte nonce.
    pub fn encrypt_password(&self, plaintext: &str) -> (r: Result<String, MustelError>)
        requires
            self.wf(),
        ensures
            plaintext@.len() == 0 ==> (r matches Ok(s) && s@.len() == 0),
            plaintext@.len() > 0 ==> (r is Ok <==> encode_utf8(plaintext@).len()
                <= aes_gcm_max_plaintext()),
            plaintext@.len() > 0 ==> (r matches Ok(s) ==> exists|n: Seq<u8>|
                n.len() == NONCE_LEN && s@ == #[trigger] sealed_text(self.key(), n, plaintext@)),
            r matches Err(e) ==> e@ == ErrorView::Security(msg_encryption_failed()),
            plaintext@.len() > 0 ==> (r matches Ok(s) ==> base64_decode_spec(s@).len() == 1
                + NONCE_LEN + encode_utf8(plaintext@).len() + 16),
    {
        if plaintext.is_empty() {
            return Ok(String::new());
        }
        let bytes = plaintext.as_bytes_vec();
        let nonce = random_nonce();
        let sealed = aes_gcm_seal(&self.key, &nonce, &bytes);
        match sealed {
            None => {
                let msg = String::from_str("Encryption failed");
                proof {
                    reveal_strlit("Encryption failed");
                }
                Err(MustelError::Security(msg))
            },
            Some(ct) => {
                let mut record: Vec<u8> = Vec::new();
                record.push(ENCRYPTION_VERSION);
                let mut i: usize = 0;
                while i < nonce.len()
                    invariant
                        i <= nonce.len(),
                        record@ == seq![ENCRYPTION_VERSION] + nonce@.take(i as int),
                    decreases nonce.len() - i,
                {
                    record.push(nonce[i]);
                    i += 1;
                    assert(record@ =~= seq![ENCRYPTION_VERSION] + nonce@.take(i as int));
                }
                let mut j: usize = 0;
                assert(nonce@.take(nonce@.len() as int) =~= nonce@);
                while j < ct.len()
                    invariant
                        j <= ct.len(),
                        record@ == seq![ENCRYPTION_VERSION] + nonce@ + ct@.take(j as int),
                    decreases ct.len() - j,
                {
                    record.push(ct[j]);
                    j += 1;
                    assert(record@ =~= seq![ENCRYPTION_VERSION] + nonce@ + ct@.take(j as int));
                }
                assert(ct@.take(ct@.len() as int) =~= ct@);
                assert(record@ == sealed_record(self.key(), nonce@, plaintext@));
                let text = base64_encode(record.as_slice());
                assert(text@ == sealed_text(self.key(), nonce@, plaintext@));
                proof {
                    lemma_base64_roundtrip(record@);
                }
                Ok(text)
            },
        }
    }

    /// Decrypts what `encrypt_password` produced. The empty text decrypts to the
    /// empty password; otherwise the text is Base64-decoded and then
    /// `decrypt_bytes_spec` says what comes out. In particular, the text stored
    /// for a password under this key (any nonce) decrypts to that password.
    pub fn decrypt_password(&self, encrypted_base64: &str) -> (r: Result<String, MustelError>)
        requires
            self.wf(),
        ensures
            encrypted_base64@.len() == 0 ==> (r matches Ok(s) && s@.len() == 0),
            match r {
                Ok(s) => decryption(self.key(), encrypted_base64@) == Ok::<Seq<char>, ErrorView>(s@),
                Err(e) => decryption(self.key(), encrypted_base64@) == Err::<Seq<char>, ErrorView>(e@),
            },
            encrypted_base64@.len() > 0 ==> match r {
                Ok(s) => decrypt_bytes_spec(self.key(), base64_decode_spec(encrypted_base64@))
                    == Ok::<Seq<char>, ErrorView>(s@),
                Err(e) => decrypt_bytes_spec(self.key(), base64_decode_spec(encrypted_base64@))
                    == Err::<Seq<char>, ErrorView>(e@),
            },
            forall|n: Seq<u8>, p: Seq<char>|
                n.len() == NONCE_LEN && p.len() > 0 && encode_utf8(p).len()
                    <= aes_gcm_max_plaintext() && encrypted_base64@ == #[trigger] sealed_text(
                    self.key(),
                    n,
                    p,
                ) ==> (r matches Ok(s) && s@ == p),
    {
        if encrypted_base64.is_empty() {
            proof {
                assert forall|n: Seq<u8>, p: Seq<char>|
                    n.len() == NONCE_LEN && p.len() > 0 && encode_utf8(p).len()
                        <= aes_gcm_max_plaintext() && encrypted_base64@ == #[trigger] sealed_text(
                        self.key(),
                        n,
                        p,
                    ) implies false by {
                    let rec = sealed_record(self.key(), n, p);
                    assert(rec.len() > 0);
                    assert(base64_encode_spec(rec).len() > 0) by {
                        reveal_with_fuel(base64_encode_spec, 2);
                    }
                }
            }
            return Ok(String::new());
        }
        let data = base64_decode(encrypted_base64);
        let ghost pre_data = data@;
        proof {
            assert forall|n: Seq<u8>, p: Seq<char>|
                n.len() == NONCE_LEN && p.len() > 0 && encode_utf8(p).len()
                    <= aes_gcm_max_plaintext() && encrypted_base64@ == #[trigger] sealed_text(
                    self.key(),
                    n,
                    p,
                ) implies data@ == sealed_record(self.key(), n, p) by {
                lemma_base64_roundtrip(sealed_record(self.key(), n, p));
            }
        }
        if data.len() < 13 {
            let msg = String::from_str("Encrypted data too short");
            proof {
                reveal_strlit("Encrypted data too short");
            }
            return Err(MustelError::Security(msg));
        }
        let version = data[0];
        if version == 2 {
            let mut nonce: Vec<u8> = Vec::new();
            let mut i: usize = 1;
            while i < 13
                invariant
                    1 <= i <= 13,
                    data@ == pre_data,
                    data@.len() >= 13,
                    nonce@ == data@.subrange(1, i as int),
                decreases 13 - i,
            {
                nonce.push(data[i]);
                i += 1;
                assert(nonce@ =~= data@.subrange(1, i as int));
            }
            let mut ct: Vec<u8> = Vec::new();
            let mut j: usize = 13;
            while j < data.len()
                invariant
                    13 <= j <= data.len(),
                    ct@ == data@.subrange(13, j as int),
                decreases data.len() - j,
            {
                ct.push(data[j]);
                j += 1;
                assert(ct@ =~= data@.subrange(13, j as int));
            }
            proof {
                assert forall|n: Seq<u8>, p: Seq<char>|
                    n.len() == NONCE_LEN && p.len() > 0 && encode_utf8(p).len()
                        <= aes_gcm_max_plaintext() && encrypted_base64@ == #[trigger] sealed_text(
                        self.key(),
                        n,
                        p,
                    ) implies nonce@ == n && ct@ == aes256gcm_seal(
                    self.key(),
                    n,
                    encode_utf8(p),
                ) by {
                    let rec = sealed_record(self.key(), n, p);
                    assert(rec.subrange(1, 13) =~= n);
                    assert(rec.subrange(13, rec.len() as int) =~= aes256gcm_seal(
                        self.key(),
                        n,
                        encode_utf8(p),
                    ));
                }
            }
            let opened = aes_gcm_open(&self.key, &nonce, &ct);
            match opened {
                None => {
                    let msg = String::from_str("Decryption failed (wrong key or corrupted data)");
                    proof {
                        reveal_strlit("Decryption failed (wrong key or corrupted data)");
                    }
                    Err(MustelError::Security(msg))
                },
                Some(pt) => {
                    let ghost pt_view = pt@;
                    proof {
                        broadcast use encode_utf8_valid_utf8, encode_utf8_decode_utf8;

                    }
                    match string_from_utf8(pt) {
                        Ok(s) => Ok(s),
                        Err(m) => {
                            let mut msg = String::from_str("Decrypted data invalid UTF-8: ");
                            proof {
                                reveal_strlit("Decrypted data invalid UTF-8: ");
                            }
                            crate::text::append(&mut msg, m.as_str());
                            assert(msg@ == msg_invalid_utf8(pt_view));
                            Err(MustelError::Security(msg))
                        },
                    }
                },
            }
        } else if version == 1 {
            let msg = String::from_str(
                "Legacy unencrypted credentials detected. Please re-set the password using: mustel settings db-servers set-password",
            );
            proof {
                reveal_strlit(
                    "Legacy unencrypted credentials detected. Please re-set the password using: mustel settings db-servers set-password",
                );
            }
            Err(MustelError::Security(msg))
        } else {
            let mut msg = String::from_str("Unknown encryption version: ");
            proof {
                reveal_strlit("Unknown encryption version: ");
            }
            let num = decimal_string(version as u128);
            crate::text::append(&mut msg, num.as_str());
            assert(msg@ == msg_unknown_version(version));
            Err(MustelError::Security(msg))
        }
    }
}

} // verus!
