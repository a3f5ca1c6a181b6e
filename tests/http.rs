use ngx::http_status::HTTPStatus;
use ngx::method::{Method, NGX_HTTP_CONNECT, NGX_HTTP_GET, NGX_HTTP_PATCH, NGX_HTTP_UNKNOWN};
use ngx::status::{Status, NGX_ERROR, NGX_OK};

#[test]
fn status_from_u16_range() {
    assert!(HTTPStatus::from_u16(99).is_err());
    assert_eq!(HTTPStatus::from_u16(100).unwrap(), HTTPStatus(100));
    assert_eq!(HTTPStatus::from_u16(599).unwrap(), HTTPStatus(599));
    assert!(HTTPStatus::from_u16(600).is_err());
}

#[test]
fn status_from_bytes() {
    assert_eq!(HTTPStatus::from_bytes(b"404").unwrap(), HTTPStatus(404));
    assert_eq!(HTTPStatus::from_bytes(b"100").unwrap(), HTTPStatus(100));
    assert_eq!(HTTPStatus::from_bytes(b"599").unwrap(), HTTPStatus(599));
    assert!(HTTPStatus::from_bytes(b"099").is_err());
    assert!(HTTPStatus::from_bytes(b"600").is_err());
    assert!(HTTPStatus::from_bytes(b"4a4").is_err());
    assert!(HTTPStatus::from_bytes(b"40").is_err());
    assert!(HTTPStatus::from_bytes(b"4040").is_err());
}

#[test]
fn status_converts_to_nginx_status() {
    assert_eq!(Status::from(HTTPStatus(404)), Status(404));
    assert!(Status(NGX_OK).is_ok());
    assert!(!Status(NGX_ERROR).is_ok());
}

#[test]
fn method_names_and_codes() {
    assert_eq!(Method::from_ngx(NGX_HTTP_GET), Method::Get);
    assert_eq!(Method::from_ngx(NGX_HTTP_PATCH).as_str(), "PATCH");
    assert_eq!(Method::from_ngx(NGX_HTTP_CONNECT).as_str(), "CONNECT");
    assert_eq!(Method::from_ngx(NGX_HTTP_UNKNOWN), Method::Unknown);
    assert_eq!(Method::from_ngx(3).as_str(), "UNKNOWN");
    assert_eq!(Method::Propfind.as_str(), "PROPFIND");
}

#[test]
fn method_from_bytes() {
    assert_eq!(Method::from_bytes(b"GET").ok(), Some(Method::Get));
    assert_eq!(Method::from_bytes(b"PROPPATCH").ok(), Some(Method::Proppatch));
    assert_eq!(Method::from_bytes(b"CONNECT").ok(), Some(Method::Connect));
    assert!(Method::from_bytes(b"get").is_err());
    assert!(Method::from_bytes(b"UNKNOWN").is_err());
    assert!(Method::from_bytes(b"").is_err());
    for m in [Method::Head, Method::Delete, Method::Unlock, Method::Trace] {
        assert_eq!(Method::from_bytes(m.as_str().as_bytes()).ok(), Some(m));
    }
}
