use taneyomi::http_api::{is_blank, HealthResponse, TtsRequest, TtsResponse, STATUS_BAD_REQUEST, STATUS_INTERNAL_ERROR, STATUS_OK};
use taneyomi::http_config::{HttpServerConfig, DEFAULT_PORT};

#[test]
fn default_config_listens_on_default_port() {
    let c = HttpServerConfig::default();
    assert_eq!(c.port, 50080);
    assert_eq!(DEFAULT_PORT, 50080);
    assert!(c.enabled);
    assert_eq!(c.listen_port(), Some(50080));
    let off = HttpServerConfig::new(8080, false);
    assert_eq!(off.port, 8080);
    assert_eq!(off.listen_port(), None);
}

#[test]
fn ports_below_1024_are_refused() {
    assert_eq!(
        HttpServerConfig::validate_port(1023),
        Err("ポート番号は1024以上を指定してください".to_string())
    );
    assert!(HttpServerConfig::validate_port(0).is_err());
    assert_eq!(HttpServerConfig::validate_port(1024), Ok(()));
    assert_eq!(HttpServerConfig::validate_port(65535), Ok(()));
}

#[test]
fn update_keeps_config_on_refusal() {
    let mut c = HttpServerConfig::default();
    assert!(c.update(80, false).is_err());
    assert_eq!(c, HttpServerConfig::default());
    assert!(c.update(3000, false).is_ok());
    assert_eq!(c, HttpServerConfig::new(3000, false));
}

#[test]
fn blank_text_is_rejected() {
    assert!(is_blank("  \t\n "));
    assert!(is_blank(""));
    assert!(!is_blank(" a "));
    let req = TtsRequest { text: " \u{3000} ".to_string(), priority: None };
    let (status, body) = req.rejection().unwrap();
    assert_eq!(status, STATUS_BAD_REQUEST);
    assert!(!body.success);
    assert_eq!(body.message, "テキストが空です");
    let ok = TtsRequest { text: "こんにちは".to_string(), priority: Some("high".to_string()) };
    assert!(ok.rejection().is_none());
}

#[test]
fn delivery_replies() {
    let (status, body) = TtsResponse::for_delivery(Ok(()));
    assert_eq!(status, STATUS_OK);
    assert!(body.success);
    assert_eq!(body.message, "読み上げリクエストを受け付けました");
    let (status, body) = TtsResponse::for_delivery(Err("boom".to_string()));
    assert_eq!(status, STATUS_INTERNAL_ERROR);
    assert!(!body.success);
    assert_eq!(body.message, "エラーが発生しました: boom");
}

#[test]
fn health_report() {
    let h = HealthResponse::ok("1.2.3".to_string());
    assert_eq!(h.status, "ok");
    assert_eq!(h.version, "1.2.3");
}
