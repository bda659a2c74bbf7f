use futu_client::action::common::{get_qot_market, QotMarket, Security, TrdHeader};
use futu_client::action::quote::{GetIpoListRequest, SubscribeRequest};
use futu_client::action::response::{check_response, ResponseStatus};
use futu_client::action::session::{
    response_frame, InitConnectRequest, UnlockRequest, SECURITY_FIRM_FUTU_SECURITIES,
};
use futu_client::action::trade::{
    GetHistoryOrderListRequest, PlaceOrderResponse, TrdFilterConditions,
};
use futu_client::frame::{Error, FrameRaw};

#[test]
fn security_code_with_market() {
    let s = Security::try_from("HK.00700").unwrap();
    assert_eq!(s.market, QotMarket::HK);
    assert_eq!(s.code, "00700");
    assert_eq!(s.to_string(), "HK.00700");
}

#[test]
fn security_code_keeps_later_dots() {
    let s = Security::try_from("US.BRK.B").unwrap();
    assert_eq!(s.market, QotMarket::US);
    assert_eq!(s.code, "BRK.B");
    assert_eq!(s.to_string(), "US.BRK.B");
}

#[test]
fn security_code_without_dot_is_refused() {
    let e = Security::try_from("00700").unwrap_err();
    assert_eq!(e, "Invalid code: 00700");
}

#[test]
fn security_code_of_unknown_market() {
    let s = Security::try_from("XX.1").unwrap();
    assert_eq!(s.market, QotMarket::Unknown);
    assert_eq!(s.to_string(), "UnKnown.1");
}

#[test]
fn market_prefixes() {
    assert_eq!(get_qot_market("HK"), QotMarket::HK);
    assert_eq!(get_qot_market("US"), QotMarket::US);
    assert_eq!(get_qot_market("CNSH"), QotMarket::CNSH);
    assert_eq!(get_qot_market("CNSZ"), QotMarket::CNSZ);
    assert_eq!(get_qot_market("SG"), QotMarket::SG);
    assert_eq!(get_qot_market("JP"), QotMarket::JP);
    assert_eq!(get_qot_market("hk"), QotMarket::Unknown);
    assert_eq!(get_qot_market(""), QotMarket::Unknown);
}

#[test]
fn success_code_gives_payload() {
    let st = ResponseStatus { ret_type: 0, ret_msg: String::new() };
    assert_eq!(check_response(st, 7u64).unwrap(), 7);
}

#[test]
fn failure_code_gives_server_error() {
    let st = ResponseStatus { ret_type: -1, ret_msg: "not logged in".to_string() };
    let e = check_response(st, ()).unwrap_err();
    assert_eq!(e.ret_type, -1);
    assert_eq!(e.ret_msg, "not logged in");
}

#[test]
fn missing_response_is_connection_error() {
    assert!(matches!(response_frame(Ok(None)), Err(Error::ConnectionError(_))));
    assert!(matches!(
        response_frame(Err(Error::Timeout("t".to_string()))),
        Err(Error::Timeout(_))
    ));
    let f = FrameRaw::new(b"r".to_vec(), 1001, 3);
    assert_eq!(response_frame(Ok(Some(f))).unwrap().header.serial_no, 3);
}

#[test]
fn handshake_request_defaults() {
    let r = InitConnectRequest::default();
    assert_eq!(r.client_ver, 221);
    assert_eq!(r.client_id, "800");
    assert!(!r.recv_notify);
    assert_eq!(r.package_enc_algo, -1);
    assert_eq!(r.programming_language, "Rust");
}

#[test]
fn unlock_hashes_password() {
    let r = UnlockRequest::for_password("abc");
    assert!(r.unlock);
    assert_eq!(r.pwd_md5.as_deref(), Some("900150983cd24fb0d6963f7d28e17f72"));
    assert_eq!(r.security_firm, Some(SECURITY_FIRM_FUTU_SECURITIES));
}

#[test]
fn unsubscribe_all_request() {
    let r = SubscribeRequest::unsubscribe_all();
    assert!(r.security_list.is_empty());
    assert!(!r.is_sub_or_un_sub);
    assert_eq!(r.is_unsub_all, Some(true));
    assert_eq!(r.is_first_push, None);
}

#[test]
fn ipo_request_keeps_market() {
    assert_eq!(GetIpoListRequest::new(QotMarket::JP).into_inner(), QotMarket::JP);
    assert_eq!(PlaceOrderResponse(Some(9)).into_inner(), Some(9));
}

fn header() -> TrdHeader {
    TrdHeader { trd_env: 1, acc_id: 77, trd_market: 1 }
}

fn filter(begin: Option<&str>, end: Option<&str>) -> TrdFilterConditions {
    TrdFilterConditions {
        code_list: vec!["00700".to_string()],
        id_list: Vec::new(),
        begin_time: begin.map(|s| s.to_string()),
        end_time: end.map(|s| s.to_string()),
    }
}

#[test]
fn history_window_filled_when_absent() {
    let r = GetHistoryOrderListRequest::with_default_window(
        header(),
        filter(None, None),
        vec![],
        "2024-01-01".to_string(),
        "2024-03-31".to_string(),
    );
    assert_eq!(r.filter_conditions.begin_time.as_deref(), Some("2024-01-01"));
    assert_eq!(r.filter_conditions.end_time.as_deref(), Some("2024-03-31"));
    let now = GetHistoryOrderListRequest::new(header(), filter(None, None), vec![]);
    let b = now.filter_conditions.begin_time.unwrap();
    let e = now.filter_conditions.end_time.unwrap();
    assert_eq!(b.len(), 10);
    assert!(b < e);
}

#[test]
fn history_window_kept_when_given() {
    let r = GetHistoryOrderListRequest::with_default_window(
        header(),
        filter(Some("2023-05-01"), None),
        vec![1],
        "2024-01-01".to_string(),
        "2024-03-31".to_string(),
    );
    assert_eq!(r.filter_conditions.begin_time.as_deref(), Some("2023-05-01"));
    assert_eq!(r.filter_conditions.end_time, None);
    assert_eq!(r.filter_status_list, vec![1]);
}
