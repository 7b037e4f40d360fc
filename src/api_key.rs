//! Storage of the speech service's API key: the platform keyring, and the
//! obfuscated encoding used for the key file.
use vstd::prelude::*;
use vstd::string::StringExecFns;
use vstd::utf8::{decode_utf8, encode_utf8, encode_utf8_decode_utf8, encode_utf8_valid_utf8, valid_utf8};
use keyring::Entry;
use crate::tts_error::{lemma_concat_starts_with, starts_with, TTSError, TTSResult};

verus! {

/// Keyring service the key is filed under.
pub const SERVICE_NAME: &'static str = "Taneyomi-kun";

/// Keyring user name the key is filed under.
pub const API_KEY_NAME: &'static str = "cartesia_api_key";

/// Byte every stored byte is combined with.
pub const OBFUSCATION_KEY: u8 = 0x42;

/// Each byte combined with `OBFUSCATION_KEY` by exclusive or.
pub open spec fn obfuscated(b: Seq<u8>) -> Seq<u8> {
    b.map_values(|x: u8| x ^ OBFUSCATION_KEY)
}

/// The text decoded from bytes, with each invalid sequence replaced by U+FFFD.
pub uninterp spec fn utf8_lossy(b: Seq<u8>) -> Seq<char>;

/// Relies on String::from_utf8_lossy: valid UTF-8 is decoded as it stands.
#[verifier::external_body]
fn decode_lossy(b: &[u8]) -> (r: String)
    ensures
        r@ == utf8_lossy(b@),
        valid_utf8(b@) ==> r@ == decode_utf8(b@),
{
    String::from_utf8_lossy(b).into_owned()
}

/// Encoding of the API key file's contents.
pub struct ApiKeyStorage;

impl ApiKeyStorage {
    /// The UTF-8 bytes of a text, each combined with `OBFUSCATION_KEY`.
    pub fn simple_encrypt(text: &str) -> (r: Vec<u8>)
        ensures
            r@ == obfuscated(encode_utf8(text@)),
    {
        let bytes = text.as_bytes();
        let mut out: Vec<u8> = Vec::new();
        let mut i: usize = 0;
        while i < bytes.len()
            invariant
                bytes@ == encode_utf8(text@),
                i <= bytes@.len(),
                out@ == obfuscated(bytes@.subrange(0, i as int)),
            decreases bytes@.len() - i,
        {
            out.push(bytes[i] ^ OBFUSCATION_KEY);
            i = i + 1;
            assert(out@ == obfuscated(bytes@.subrange(0, i as int)));
        }
        assert(bytes@.subrange(0, bytes@.len() as int) == bytes@);
        out
    }

    /// The bytes each combined with `OBFUSCATION_KEY`, decoded as UTF-8 with
    /// invalid sequences replaced.
    pub fn simple_decrypt(data: &[u8]) -> (r: String)
        ensures
            r@ == utf8_lossy(obfuscated(data@)),
            valid_utf8(obfuscated(data@)) ==> r@ == decode_utf8(obfuscated(data@)),
    {
        let mut plain: Vec<u8> = Vec::new();
        let mut i: usize = 0;
        while i < data.len()
            invariant
                i <= data@.len(),
                plain@ == obfuscated(data@.subrange(0, i as int)),
            decreases data@.len() - i,
        {
            plain.push(data[i] ^ OBFUSCATION_KEY);
            i = i + 1;
            assert(plain@ == obfuscated(data@.subrange(0, i as int)));
        }
        assert(data@.subrange(0, data@.len() as int) == data@);
        decode_lossy(plain.as_slice())
    }
}

/// Decoding what was encoded gives the original text back: obfuscating twice
/// restores the UTF-8 bytes, which are valid and decode to the text.
pub proof fn lemma_encryption_round_trip(text: Seq<char>)
    ensures
        obfuscated(obfuscated(encode_utf8(text))) == encode_utf8(text),
        valid_utf8(obfuscated(obfuscated(encode_utf8(text)))),
        decode_utf8(obfuscated(obfuscated(encode_utf8(text)))) == text,
{
    let b = encode_utf8(text);
    assert forall|i: int| 0 <= i < b.len() implies obfuscated(obfuscated(b))[i] == b[i] by {
        let x = b[i];
        assert((x ^ 0x42u8) ^ 0x42u8 == x) by (bit_vector);
    }
    assert(obfuscated(obfuscated(b)) == b);
    encode_utf8_valid_utf8(text);
    encode_utf8_decode_utf8(text);
}

#[verifier::external_type_specification]
#[verifier::external_body]
pub struct ExEntry(keyring::Entry);

#[verifier::external_type_specification]
#[verifier::external_body]
pub struct ExKeyringError(keyring::Error);

/// Relies on keyring::Entry::new: the entry for a service and user in the
/// platform's default credential store.
#[verifier::external_body]
fn open_entry(service: &str, user: &str) -> (r: Result<Entry, keyring::Error>) {
    Entry::new(service, user)
}

/// Relies on keyring::Entry::get_password: the password stored in the entry.
#[verifier::external_body]
fn read_password(entry: &Entry) -> (r: Result<String, keyring::Error>) {
    entry.get_password()
}

/// Relies on keyring::Entry::set_password: stores the password in the entry.
#[verifier::external_body]
fn write_password(entry: &Entry, password: &str) -> (r: Result<(), keyring::Error>) {
    entry.set_password(password)
}

/// Relies on keyring::Entry::delete_credential: removes the entry's credential.
#[verifier::external_body]
fn remove_credential(entry: &Entry) -> (r: Result<(), keyring::Error>) {
    entry.delete_credential()
}

/// Relies on the Debug formatting of keyring::Error, for error messages.
#[verifier::external_body]
fn keyring_error_debug(e: &keyring::Error) -> (r: String) {
    format!("{:?}", e)
}

/// Relies on the Display formatting of keyring::Error, for error messages.
#[verifier::external_body]
fn keyring_error_display(e: &keyring::Error) -> (r: String) {
    e.to_string()
}

pub open spec fn entry_failure_prefix() -> Seq<char> {
    "キーリングエントリの作成に失敗しました: "@
}

pub open spec fn password_failure_prefix() -> Seq<char> {
    "パスワードの設定に失敗しました: "@
}

pub open spec fn keyring_failure_prefix() -> Seq<char> {
    "キーリングエラー: "@
}

/// A configuration error whose message is a prefix and the error's detail.
fn config_error(prefix: &str, detail: String) -> (r: TTSError)
    ensures
        r matches TTSError::ConfigError(m) && m@ == prefix@ + detail@ && starts_with(m@, prefix@),
{
    proof {
        lemma_concat_starts_with(prefix@, detail@);
    }
    TTSError::ConfigError(String::from_str(prefix).concat(detail.as_str()))
}

/// Access to the API key in the platform keyring.
pub struct ApiKeyManager;

impl ApiKeyManager {
    /// What a keyring lookup amounts to: the stored password, or
    /// `ApiKeyNotFound` whatever the keyring's reason.
    pub fn password_outcome(found: Result<String, keyring::Error>) -> (r: TTSResult<String>)
        ensures
            found matches Ok(p) ==> r matches Ok(q) && q@ == p@,
            found is Err ==> r matches Err(TTSError::ApiKeyNotFound),
    {
        match found {
            Ok(p) => Ok(p),
            Err(_) => Err(TTSError::ApiKeyNotFound),
        }
    }

    /// Stores the key in the keyring. A failure to open the entry or to
    /// store the password is a configuration error that says which.
    pub fn save_api_key(api_key: &str) -> (r: TTSResult<()>)
        ensures
            r matches Err(e) ==> (e matches TTSError::ConfigError(m) && (starts_with(m@, entry_failure_prefix())
                || starts_with(m@, password_failure_prefix()))),
    {
        match open_entry(SERVICE_NAME, API_KEY_NAME) {
            Err(e) => Err(config_error("キーリングエントリの作成に失敗しました: ", keyring_error_debug(&e))),
            Ok(entry) => match write_password(&entry, api_key) {
                Err(e) => Err(config_error("パスワードの設定に失敗しました: ", keyring_error_debug(&e))),
                Ok(()) => Ok(()),
            },
        }
    }

    /// The key stored in the keyring; `ApiKeyNotFound` when the keyring has
    /// none to give, a configuration error when the entry cannot be opened.
    pub fn get_api_key() -> (r: TTSResult<String>)
        ensures
            r matches Err(e) ==> (e is ApiKeyNotFound || (e matches TTSError::ConfigError(m) && starts_with(
                m@,
                entry_failure_prefix(),
            ))),
    {
        match open_entry(SERVICE_NAME, API_KEY_NAME) {
            Err(e) => Err(config_error("キーリングエントリの作成に失敗しました: ", keyring_error_debug(&e))),
            Ok(entry) => ApiKeyManager::password_outcome(read_password(&entry)),
        }
    }

    /// Removes the key from the keyring; any keyring failure is a
    /// configuration error.
    pub fn delete_api_key() -> (r: TTSResult<()>)
        ensures
            r matches Err(e) ==> (e matches TTSError::ConfigError(m) && starts_with(m@, keyring_failure_prefix())),
    {
        match open_entry(SERVICE_NAME, API_KEY_NAME) {
            Err(e) => Err(config_error("キーリングエラー: ", keyring_error_display(&e))),
            Ok(entry) => match remove_credential(&entry) {
                Err(e) => Err(config_error("キーリングエラー: ", keyring_error_display(&e))),
                Ok(()) => Ok(()),
            },
        }
    }

    /// Whether the keyring holds a key.
    pub fn has_api_key() -> (r: bool) {
        ApiKeyManager::get_api_key().is_ok()
    }
}

} // verus!
