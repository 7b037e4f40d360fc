use taneyomi::api_key::{ApiKeyManager, ApiKeyStorage, OBFUSCATION_KEY};
use taneyomi::tts_error::TTSError;

#[test]
fn encryption_combines_each_byte_with_key() {
    assert_eq!(ApiKeyStorage::simple_encrypt("abc"), vec![0x23, 0x20, 0x21]);
    assert_eq!(ApiKeyStorage::simple_encrypt(""), Vec::<u8>::new());
    assert_eq!(OBFUSCATION_KEY, 0x42);
}

#[test]
fn decryption_round_trips() {
    for key in ["sk_test_123", "", "鍵テキスト", "SECRET-REDACTED"] {
        let enc = ApiKeyStorage::simple_encrypt(key);
        assert_eq!(ApiKeyStorage::simple_decrypt(&enc), key);
    }
}

#[test]
fn decryption_replaces_invalid_utf8() {
    let data = [0xff ^ 0x42, b'a' ^ 0x42];
    assert_eq!(ApiKeyStorage::simple_decrypt(&data), "\u{fffd}a");
}

#[test]
fn keyring_outcomes() {
    match ApiKeyManager::password_outcome(Ok("pw".to_string())) {
        Ok(p) => assert_eq!(p, "pw"),
        Err(e) => panic!("unexpected {:?}", e),
    }
    assert!(matches!(
        ApiKeyManager::password_outcome(Err(keyring::Error::NoEntry)),
        Err(TTSError::ApiKeyNotFound)
    ));
}

#[test]
fn error_messages() {
    assert_eq!(TTSError::ApiKeyNotFound.message(), "APIキーが設定されていません");
    assert_eq!(TTSError::ApiError("x".to_string()).message(), "APIエラー: x");
    assert_eq!(TTSError::ConfigError("y".to_string()).message(), "設定エラー: y");
}
