use aes_gcm::aead::rand_core::RngCore;
use aes_gcm::aead::{Aead, KeyInit, OsRng};
use base64::Engine;
use vstd::prelude::*;
use vstd::utf8::{
    decode_utf8, decode_utf8_encode_utf8, encode_utf8, encode_utf8_decode_utf8,
    encode_utf8_valid_utf8, valid_utf8,
};

verus! {

/// Bytes of nonce at the front of every stored blob.
pub const NONCE_LEN: usize = 12;

/// Why a configuration could not be sealed or opened.
#[derive(Clone, Copy, Debug, PartialEq, Eq, Structural)]
pub enum VaultError {
    /// The plaintext exceeds what the cipher accepts.
    PlaintextTooLong,
    /// The stored text is not base64.
    Base64,
    /// The decoded blob is shorter than a nonce.
    TooShort,
    /// The ciphertext does not authenticate under the key and nonce.
    Decrypt,
    /// The authenticated plaintext is not UTF-8.
    Utf8,
    /// The stored value is present but is not text.
    NotText,
}

/// The longest plaintext, in bytes, that the cipher seals (2^36).
pub open spec fn max_plaintext() -> nat {
    0x1000000000
}

/// AES-256-GCM ciphertext, with its 16-byte tag appended, of `plaintext`
/// under `key` and `nonce`, without associated data.
pub uninterp spec fn aes256gcm_seal(key: Seq<u8>, nonce: Seq<u8>, plaintext: Seq<u8>) -> Seq<u8>;

/// The standard, padded base64 text of `bytes`.
pub uninterp spec fn base64_text(bytes: Seq<u8>) -> Seq<char>;

/// Relies on aes-gcm's `Aes256Gcm::encrypt` without associated data: it
/// fails only on a plaintext over 2^36 bytes, and otherwise returns the
/// ciphertext and its 16-byte tag, which depend on key, nonce and plaintext
/// alone.
#[verifier::external_body]
fn seal(key: &[u8; 32], nonce: &[u8; 12], plaintext: &[u8]) -> (r: Option<Vec<u8>>)
    ensures
        r is Some <==> plaintext@.len() <= max_plaintext(),
        r matches Some(c) ==> c@ == aes256gcm_seal(key@, nonce@, plaintext@),
        r matches Some(c) ==> c@.len() == plaintext@.len() + 16,
{
    let cipher = aes_gcm::Aes256Gcm::new(key.into());
    cipher.encrypt(aes_gcm::Nonce::from_slice(nonce), plaintext).ok()
}

/// Relies on aes-gcm's `Aes256Gcm::decrypt` without associated data, on a
/// ciphertext of at most 2^36 bytes and a 16-byte tag: it returns the
/// message part only when the tag authenticates, that is when sealing it
/// under the same key and nonce gives back the ciphertext; and the
/// ciphertext of a plaintext within the limit always opens to it.
#[verifier::external_body]
fn open(key: &[u8; 32], nonce: &[u8], ciphertext: &[u8]) -> (r: Option<Vec<u8>>)
    requires
        nonce@.len() == 12,
        ciphertext@.len() <= max_plaintext() + 16,
    ensures
        r matches Some(p) ==> p@.len() + 16 == ciphertext@.len() && aes256gcm_seal(key@, nonce@, p@) == ciphertext@,
        forall|p: Seq<u8>|
            p.len() <= max_plaintext() && #[trigger] aes256gcm_seal(key@, nonce@, p) == ciphertext@
                ==> r is Some && r->0@ == p,
{
    let cipher = aes_gcm::Aes256Gcm::new(key.into());
    cipher.decrypt(aes_gcm::Nonce::from_slice(nonce), ciphertext).ok()
}

/// Relies on base64's `STANDARD` engine `encode`: padded standard base64,
/// a text from which no other byte sequence decodes.
#[verifier::external_body]
fn base64_encode(bytes: &[u8]) -> (r: String)
    ensures
        r@ == base64_text(bytes@),
        forall|b: Seq<u8>| #[trigger] base64_text(b) == r@ ==> b == bytes@,
{
    base64::engine::general_purpose::STANDARD.encode(bytes)
}

/// Relies on base64's `STANDARD` engine `decode`, which requires canonical
/// padding and no trailing bits: it accepts exactly the texts that `encode`
/// produces, and returns the bytes they encode.
#[verifier::external_body]
fn base64_decode(text: &str) -> (r: Option<Vec<u8>>)
    ensures
        r matches Some(b) ==> base64_text(b@) == text@,
        forall|b: Seq<u8>| #[trigger] base64_text(b) == text@ ==> r is Some && r->0@ == b,
{
    base64::engine::general_purpose::STANDARD.decode(text).ok()
}

/// Relies on std's `String::from_utf8`: it succeeds exactly on valid UTF-8,
/// with the characters the bytes encode.
#[verifier::external_body]
fn string_from_utf8(bytes: Vec<u8>) -> (r: Option<String>)
    ensures
        r is Some <==> valid_utf8(bytes@),
        r matches Some(s) ==> s@ == decode_utf8(bytes@),
{
    String::from_utf8(bytes).ok()
}

/// Relies on `OsRng::fill_bytes`, the operating system's random source, for
/// a fresh nonce; nothing is known of its value.
#[verifier::external_body]
fn random_nonce() -> (r: [u8; 12]) {
    let mut nonce = [0u8; 12];
    OsRng.fill_bytes(&mut nonce);
    nonce
}

/// A plaintext short enough to be sealed.
pub open spec fn sealable(plaintext: Seq<char>) -> bool {
    encode_utf8(plaintext).len() <= max_plaintext()
}

/// The bytes of a blob: nonce, then ciphertext and tag of the UTF-8 text.
pub open spec fn blob_bytes(key: Seq<u8>, nonce: Seq<u8>, plaintext: Seq<char>) -> Seq<u8> {
    nonce + aes256gcm_seal(key, nonce, encode_utf8(plaintext))
}

/// The stored form of a plaintext: the base64 text of its blob.
pub open spec fn blob_text(key: Seq<u8>, nonce: Seq<u8>, plaintext: Seq<char>) -> Seq<char> {
    base64_text(blob_bytes(key, nonce, plaintext))
}

/// `p` is the authentic plaintext of the blob bytes `b`: it is within the
/// cipher's limit, the rest of the blob is as long as it plus a tag, and it
/// seals, under the blob's nonce, to the rest of the blob.
pub open spec fn opens_to(key: Seq<u8>, b: Seq<u8>, p: Seq<u8>) -> bool {
    &&& p.len() <= max_plaintext()
    &&& b.skip(12).len() == p.len() + 16
    &&& aes256gcm_seal(key, b.take(12), p) == b.skip(12)
}

/// Sealing `p` under `key` and `nonce` adds a 16-byte tag to it.
pub open spec fn tagged_len(key: Seq<u8>, nonce: Seq<u8>, p: Seq<u8>) -> bool {
    aes256gcm_seal(key, nonce, p).len() == p.len() + 16
}

/// Appends `src` to `dst`.
fn append_bytes(dst: &mut Vec<u8>, src: &[u8])
    ensures
        final(dst)@ == old(dst)@ + src@,
{
    let mut i: usize = 0;
    while i < src.len()
        invariant
            i <= src@.len(),
            dst@ == old(dst)@ + src@.take(i as int),
        decreases src@.len() - i,
    {
        dst.push(src[i]);
        i = i + 1;
        assert(src@.take(i as int) == src@.take(i - 1) + seq![src@[i - 1]]);
    }
    assert(src@.take(src@.len() as int) == src@);
}

/// The bytes of `src` from `start` up to `end`.
fn copy_range(src: &[u8], start: usize, end: usize) -> (r: Vec<u8>)
    requires
        start <= end <= src@.len(),
    ensures
        r@ == src@.subrange(start as int, end as int),
{
    let mut out: Vec<u8> = Vec::new();
    let mut i: usize = start;
    while i < end
        invariant
            start <= i <= end,
            end <= src@.len(),
            out@ == src@.subrange(start as int, i as int),
        decreases end - i,
    {
        out.push(src[i]);
        i = i + 1;
        assert(out@ =~= src@.subrange(start as int, i as int));
    }
    out
}

/// `r` is the outcome of sealing `plaintext` under `key` and `nonce`: the
/// stored text of its blob (nonce, ciphertext of the UTF-8 bytes, 16-byte
/// tag), from which the nonce can be read back, or the error for a plaintext
/// that is too long.
pub open spec fn encrypted(key: Seq<u8>, nonce: Seq<u8>, plaintext: Seq<char>, r: Result<String, VaultError>) -> bool {
    &&& r is Ok <==> sealable(plaintext)
    &&& !sealable(plaintext) ==> r == Err::<String, VaultError>(VaultError::PlaintextTooLong)
    &&& r matches Ok(b) ==> b@ == blob_text(key, nonce, plaintext)
    &&& r is Ok ==> tagged_len(key, nonce, encode_utf8(plaintext))
    &&& r is Ok ==> blob_bytes(key, nonce, plaintext).len() == 12 + encode_utf8(plaintext).len() + 16
    &&& r matches Ok(b) ==> forall|n: Seq<u8>, s: Seq<char>|
        n.len() == 12 && #[trigger] blob_text(key, n, s) == b@ ==> n == nonce
}

/// Seals a plaintext under `key` with the given nonce and returns the stored
/// text of the blob.
pub fn encrypt_with_nonce(key: &[u8; 32], nonce: &[u8; 12], plaintext: &str) -> (r: Result<String, VaultError>)
    ensures
        encrypted(key@, nonce@, plaintext@, r),
{
    let bytes = plaintext.as_bytes();
    match seal(key, nonce, bytes) {
        None => Err(VaultError::PlaintextTooLong),
        Some(ciphertext) => {
            let mut blob: Vec<u8> = Vec::new();
            append_bytes(&mut blob, nonce);
            append_bytes(&mut blob, ciphertext.as_slice());
            assert(blob@ == blob_bytes(key@, nonce@, plaintext@));
            let text = base64_encode(blob.as_slice());
            assert forall|n: Seq<u8>, s: Seq<char>|
                n.len() == 12 && #[trigger] blob_text(key@, n, s) == text@ implies n == nonce@ by {
                assert(blob_bytes(key@, n, s) == blob@);
                assert(blob_bytes(key@, n, s).take(12) == n);
                assert(blob@.take(12) == nonce@);
            }
            Ok(text)
        },
    }
}

/// Seals a plaintext under `key` with a fresh random nonce.
pub fn encrypt_data(key: &[u8; 32], plaintext: &str) -> (r: Result<String, VaultError>)
    ensures
        r is Ok <==> sealable(plaintext@),
        !sealable(plaintext@) ==> r == Err::<String, VaultError>(VaultError::PlaintextTooLong),
        r matches Ok(b) ==> exists|n: Seq<u8>| {
            &&& n.len() == 12
            &&& #[trigger] blob_text(key@, n, plaintext@) == b@
            &&& tagged_len(key@, n, encode_utf8(plaintext@))
            &&& blob_bytes(key@, n, plaintext@).len() == 12 + encode_utf8(plaintext@).len() + 16
        },
{
    let nonce = random_nonce();
    let r = encrypt_with_nonce(key, &nonce, plaintext);
    proof {
        if r is Ok {
            assert(blob_text(key@, nonce@, plaintext@) == r->Ok_0@);
        }
    }
    r
}

/// `r` is what opening the stored text `text` under `key` gives: each error
/// exactly on the inputs that cause it, a plaintext only when the text is the
/// genuine blob of that plaintext, and the plaintext of every genuine blob.
pub open spec fn decrypted(key: Seq<u8>, text: Seq<char>, r: Result<String, VaultError>) -> bool {
    &&& r == Err::<String, VaultError>(VaultError::Base64) <==> !exists|b: Seq<u8>| #[trigger] base64_text(b) == text
    &&& r == Err::<String, VaultError>(VaultError::TooShort)
        <==> exists|b: Seq<u8>| #[trigger] base64_text(b) == text && b.len() < 12
    &&& r == Err::<String, VaultError>(VaultError::Decrypt) <==> exists|b: Seq<u8>|
        #[trigger] base64_text(b) == text && b.len() >= 12 && !exists|p: Seq<u8>| #[trigger] opens_to(key, b, p)
    &&& r == Err::<String, VaultError>(VaultError::Utf8) <==> exists|b: Seq<u8>, p: Seq<u8>|
        #[trigger] base64_text(b) == text && b.len() >= 12 && #[trigger] opens_to(key, b, p) && !valid_utf8(p)
    &&& r != Err::<String, VaultError>(VaultError::PlaintextTooLong)
    &&& r != Err::<String, VaultError>(VaultError::NotText)
    &&& r matches Ok(s) ==> exists|n: Seq<u8>| n.len() == 12 && #[trigger] blob_text(key, n, s@) == text
    &&& forall|n: Seq<u8>, s: Seq<char>|
        n.len() == 12 && sealable(s) && tagged_len(key, n, encode_utf8(s)) && #[trigger] blob_text(key, n, s) == text
            ==> (r matches Ok(t) && t@ == s)
}

/// Opens a stored text: base64, then a 12-byte nonce and the authenticated
/// ciphertext, then UTF-8.
pub fn decrypt_data(key: &[u8; 32], text: &str) -> (r: Result<String, VaultError>)
    ensures
        decrypted(key@, text@, r),
{
    let data = match base64_decode(text) {
        None => {
            return Err(VaultError::Base64);
        },
        Some(d) => d,
    };
    if data.len() < NONCE_LEN {
        assert forall|n: Seq<u8>, s: Seq<char>|
            n.len() == 12 && #[trigger] blob_text(key@, n, s) == text@ implies false by {
            assert(blob_bytes(key@, n, s) == data@);
        }
        return Err(VaultError::TooShort);
    }
    let nonce = copy_range(data.as_slice(), 0, NONCE_LEN);
    let ciphertext = copy_range(data.as_slice(), NONCE_LEN, data.len());
    assert(nonce@ == data@.take(12));
    assert(ciphertext@ == data@.skip(12));
    assert(data@ == nonce@ + ciphertext@);
    assert forall|n: Seq<u8>, s: Seq<char>|
        n.len() == 12 && #[trigger] blob_text(key@, n, s) == text@ implies
            n == nonce@ && aes256gcm_seal(key@, n, encode_utf8(s)) == ciphertext@ by {
        let bb = blob_bytes(key@, n, s);
        assert(bb == data@);
        assert(bb.take(12) == n);
        assert(bb.skip(12) == aes256gcm_seal(key@, n, encode_utf8(s)));
    }
    if ciphertext.len() as u64 > 0x1000000010u64 {
        assert forall|p: Seq<u8>| !#[trigger] opens_to(key@, data@, p) by {}
        assert forall|n: Seq<u8>, s: Seq<char>|
            n.len() == 12 && sealable(s) && tagged_len(key@, n, encode_utf8(s))
                && #[trigger] blob_text(key@, n, s) == text@ implies false by {
            assert(aes256gcm_seal(key@, nonce@, encode_utf8(s)) == ciphertext@);
        }
        return Err(VaultError::Decrypt);
    }
    match open(key, nonce.as_slice(), ciphertext.as_slice()) {
        None => {
            assert forall|p: Seq<u8>| !opens_to(key@, data@, p) by {}
            assert forall|n: Seq<u8>, s: Seq<char>|
                n.len() == 12 && sealable(s) && #[trigger] blob_text(key@, n, s) == text@ implies false by {
                assert(aes256gcm_seal(key@, nonce@, encode_utf8(s)) == ciphertext@);
            }
            Err(VaultError::Decrypt)
        },
        Some(plain) => {
            assert(opens_to(key@, data@, plain@));
            assert forall|p: Seq<u8>| #[trigger] opens_to(key@, data@, p) implies p == plain@ by {}
            let ghost pb = plain@;
            match string_from_utf8(plain) {
                None => {
                    assert forall|n: Seq<u8>, t: Seq<char>|
                        n.len() == 12 && sealable(t) && #[trigger] blob_text(key@, n, t) == text@ implies false by {
                        encode_utf8_valid_utf8(t);
                        assert(aes256gcm_seal(key@, nonce@, encode_utf8(t)) == ciphertext@);
                        assert(encode_utf8(t) == pb);
                    }
                    Err(VaultError::Utf8)
                },
                Some(s) => {
                    proof {
                        decode_utf8_encode_utf8(pb);
                        assert(blob_bytes(key@, nonce@, s@) == data@);
                        assert(blob_text(key@, nonce@, s@) == text@);
                        assert forall|n: Seq<u8>, t: Seq<char>|
                            n.len() == 12 && sealable(t) && #[trigger] blob_text(key@, n, t) == text@ implies t == s@ by {
                            encode_utf8_decode_utf8(t);
                            assert(aes256gcm_seal(key@, nonce@, encode_utf8(t)) == ciphertext@);
                        }
                        let ghost r = Ok::<String, VaultError>(s);
                        assert(blob_text(key@, nonce@, r->Ok_0@) == text@);
                        assert(decrypted(key@, text@, Ok(s)));
                    }
                    Ok(s)
                },
            }
        },
    }
}

/// Opening what sealing produced gives back the plaintext: when `sealed` is
/// the outcome of sealing `s` and `opened` the outcome of opening the text
/// that came out, `opened` is `s`.
pub proof fn lemma_round_trip(
    key: Seq<u8>,
    nonce: Seq<u8>,
    s: Seq<char>,
    sealed: Result<String, VaultError>,
    opened: Result<String, VaultError>,
)
    requires
        nonce.len() == 12,
        encrypted(key, nonce, s, sealed),
        sealed matches Ok(b) && decrypted(key, b@, opened),
    ensures
        opened matches Ok(t) && t@ == s,
{
}

/// Two seals of the same plaintext under different nonces give different
/// stored texts.
pub proof fn lemma_distinct_nonces_distinct_texts(
    key: Seq<u8>,
    n1: Seq<u8>,
    n2: Seq<u8>,
    s: Seq<char>,
    r1: Result<String, VaultError>,
    r2: Result<String, VaultError>,
)
    requires
        n1.len() == 12,
        n2.len() == 12,
        n1 != n2,
        encrypted(key, n1, s, r1),
        encrypted(key, n2, s, r2),
        r1 is Ok,
    ensures
        r1->Ok_0@ != r2->Ok_0@,
{
    if r1->Ok_0@ == r2->Ok_0@ {
        assert(blob_text(key, n2, s) == r1->Ok_0@);
    }
}

/// What the store holds under the configuration's key.
#[derive(Clone, Debug)]
pub enum StoredValue {
    /// Nothing has been saved.
    Absent,
    /// A text, which should be a sealed blob.
    Text(String),
    /// A value of another kind than text.
    Other,
}

/// Reads the stored configuration: no stored value means not configured
/// yet, which is an empty configuration and no error; a stored text is
/// opened; a stored value that is not text is an error.
pub fn load_config(key: &[u8; 32], stored: &StoredValue) -> (r: Result<String, VaultError>)
    ensures
        stored is Absent ==> (r matches Ok(s) && s@.len() == 0),
        stored matches StoredValue::Text(t) ==> decrypted(key@, t@, r),
        stored is Other ==> r == Err::<String, VaultError>(VaultError::NotText),
{
    match stored {
        StoredValue::Absent => Ok(String::new()),
        StoredValue::Text(t) => decrypt_data(key, t.as_str()),
        StoredValue::Other => Err(VaultError::NotText),
    }
}

} // verus!
