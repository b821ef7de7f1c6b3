use dcds::config::{db_settings, listen_addr, CMSRequestAddr, ConfigPath, QCSRequestAddr};
use dcds::hexcode::is_hex;
use dcds::keypair_load::{key_load_failure, KeyLoad};
use dcds::response::{Failure, ResponseBody};

#[test]
fn config_path_defaults_to_key_file() {
    let c = ConfigPath::default();
    assert_eq!(c.meta_path, "./digital_currency.json");
}

#[test]
fn central_address_from_argument() {
    let a = CMSRequestAddr::new(Some("10.0.0.1:9000"));
    assert_eq!(a.central_addr, "http://10.0.0.1:9000/api/dcds/qouta_issue");
}

#[test]
fn central_address_default() {
    let a = CMSRequestAddr::new(None);
    assert_eq!(a.central_addr, "http://localhost:8077/api/dcds/qouta_issue");
}

#[test]
fn quota_address_from_argument() {
    let a = QCSRequestAddr::new(Some("qcs.example:8088"));
    assert_eq!(a.quota_addr, "http://qcs.example:8088/api/quota");
}

#[test]
fn quota_address_default() {
    let a = QCSRequestAddr::new(None);
    assert_eq!(a.quota_addr, "http://localhost:8088/api/quota");
}

#[test]
fn listen_address_choice() {
    assert_eq!(listen_addr(None), "127.0.0.1:8888");
    assert_eq!(listen_addr(Some("0.0.0.0:80")), "0.0.0.0:80");
}

#[test]
fn database_settings() {
    let s = db_settings();
    assert_eq!(s.host, "localhost");
    assert_eq!(s.user, "postgres");
    assert_eq!(s.password, "postgres");
    assert_eq!(s.dbname, "test_digitalcurrencydeliverysystem");
    assert_eq!(s.max_size, 8);
}

#[test]
fn success_body() {
    let b = ResponseBody::new_success(Some(vec![1u8, 2]));
    assert_eq!(b.code, 0);
    assert_eq!(b.message, "success");
    assert_eq!(b.data, Some(vec![1u8, 2]));
    let e: ResponseBody<()> = ResponseBody::new_success(None);
    assert!(e.data.is_none());
}

#[test]
fn failure_bodies() {
    let f = Failure::FileError.into_body();
    assert_eq!((f.code, f.message.as_str(), f.data), (90001, "file open error", None));
    let f = Failure::StrConverError.into_body();
    assert_eq!((f.code, f.message.as_str(), f.data), (90002, "string conversion error", None));
    let f = Failure::JsonParseError.into_body();
    assert_eq!((f.code, f.message.as_str(), f.data), (90003, "json parse error", None));
    let f = Failure::DatabaseRunning("relation missing".to_string()).into_body();
    assert_eq!(f.code, 90004);
    assert_eq!(f.message, "database running error");
    assert_eq!(f.data, Some("relation missing".to_string()));
    let f = Failure::DatabaseBuild.into_body();
    assert_eq!((f.code, f.message.as_str(), f.data), (90005, "database build error", None));
    let f = Failure::CurrencyConvert.into_body();
    assert_eq!((f.code, f.message.as_str(), f.data), (90006, "currency convert error", None));
}

#[test]
fn hex_text_recognised() {
    assert!(is_hex(""));
    assert!(is_hex("00ff"));
    assert!(is_hex("AbCd09"));
    assert!(!is_hex("abc"));
    assert!(!is_hex("zz"));
    assert!(!is_hex("0g"));
    assert!(!is_hex("éé"));
}

#[test]
fn key_load_outcomes() {
    assert!(matches!(key_load_failure(KeyLoad::OpenFailed), Some(Failure::FileError)));
    assert!(matches!(key_load_failure(KeyLoad::ReadFailed), Some(Failure::StrConverError)));
    assert!(matches!(key_load_failure(KeyLoad::ParseFailed), Some(Failure::StrConverError)));
    assert!(key_load_failure(KeyLoad::Loaded).is_none());
}

