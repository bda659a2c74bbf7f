//! Trade requests and the plain responses that go with them.
use crate::action::common::TrdHeader;
use vstd::prelude::*;

verus! {

pub const GET_POSITION_LIST_ID: u32 = 2102;

pub const GET_MAX_TRD_QTYS_ID: u32 = 2111;

pub const PLACE_ORDER_ID: u32 = 2202;

pub const MODIFY_ORDER_ID: u32 = 2205;

pub const GET_HISTORY_ORDER_LIST_ID: u32 = 2221;

/// Days before today where an order-history query starts by default.
pub const HISTORY_DAYS_BACK: i64 = 89;

/// Days after today where an order-history query ends by default.
pub const HISTORY_DAYS_AHEAD: i64 = 1;

/// Relies on `chrono::Local::now`, moved by `chrono::Duration::days(days)` and
/// written with `format("%Y-%m-%d")`: the local date `days` days from now.
/// Nothing is promised of the text: it depends on the clock.
#[verifier::external_body]
fn local_date_in(days: i64) -> (r: String)
    requires
        -366 <= days <= 366,
{
    (chrono::Local::now() + chrono::Duration::days(days)).format("%Y-%m-%d").to_string()
}

/// Which orders an order-history query covers.
#[derive(Debug)]
pub struct TrdFilterConditions {
    pub code_list: Vec<String>,
    pub id_list: Vec<u64>,
    pub begin_time: Option<String>,
    pub end_time: Option<String>,
}

/// Asks for the past orders of an account.
#[derive(Debug)]
pub struct GetHistoryOrderListRequest {
    pub header: TrdHeader,
    pub filter_conditions: TrdFilterConditions,
    /// Wire codes of the order states asked for.
    pub filter_status_list: Vec<i32>,
}

impl GetHistoryOrderListRequest {
    /// The query with the given window; where the filter gives neither a begin
    /// nor an end time, the window runs from `begin` to `end`.
    pub fn with_default_window(
        header: TrdHeader,
        filter_conditions: TrdFilterConditions,
        filter_status_list: Vec<i32>,
        begin: String,
        end: String,
    ) -> (r: GetHistoryOrderListRequest)
        ensures
            r.header == header,
            r.filter_status_list == filter_status_list,
            r.filter_conditions.code_list == filter_conditions.code_list,
            r.filter_conditions.id_list == filter_conditions.id_list,
            filter_conditions.begin_time is None && filter_conditions.end_time is None ==> (
            r.filter_conditions.begin_time == Some(begin) && r.filter_conditions.end_time == Some(
                end,
            )),
            !(filter_conditions.begin_time is None && filter_conditions.end_time is None) ==> (
            r.filter_conditions.begin_time == filter_conditions.begin_time
                && r.filter_conditions.end_time == filter_conditions.end_time),
    {
        let mut filter_conditions = filter_conditions;
        if filter_conditions.begin_time.is_none() && filter_conditions.end_time.is_none() {
            filter_conditions.begin_time = Some(begin);
            filter_conditions.end_time = Some(end);
        }
        GetHistoryOrderListRequest { header, filter_conditions, filter_status_list }
    }

    /// The query; where the filter gives neither a begin nor an end time, the
    /// window runs from 89 days before today to tomorrow (local dates).
    pub fn new(
        header: TrdHeader,
        filter_conditions: TrdFilterConditions,
        filter_status_list: Vec<i32>,
    ) -> (r: GetHistoryOrderListRequest)
        ensures
            r.header == header,
            r.filter_status_list == filter_status_list,
            r.filter_conditions.code_list == filter_conditions.code_list,
            r.filter_conditions.id_list == filter_conditions.id_list,
            filter_conditions.begin_time is None && filter_conditions.end_time is None ==> (
            r.filter_conditions.begin_time is Some && r.filter_conditions.end_time is Some),
            !(filter_conditions.begin_time is None && filter_conditions.end_time is None) ==> (
            r.filter_conditions.begin_time == filter_conditions.begin_time
                && r.filter_conditions.end_time == filter_conditions.end_time),
    {
        if filter_conditions.begin_time.is_none() && filter_conditions.end_time.is_none() {
            let begin = local_date_in(-HISTORY_DAYS_BACK);
            let end = local_date_in(HISTORY_DAYS_AHEAD);
            GetHistoryOrderListRequest::with_default_window(
                header,
                filter_conditions,
                filter_status_list,
                begin,
                end,
            )
        } else {
            GetHistoryOrderListRequest { header, filter_conditions, filter_status_list }
        }
    }
}

/// Asks for the positions of an account.
#[derive(Debug)]
pub struct GetPositionListRequest {
    pub header: TrdHeader,
    pub refresh_cache: Option<bool>,
}

impl GetPositionListRequest {
    pub fn new(header: TrdHeader, refresh_cache: Option<bool>) -> (r: GetPositionListRequest)
        ensures
            r.header == header,
            r.refresh_cache == refresh_cache,
    {
        GetPositionListRequest { header, refresh_cache }
    }
}

/// The id of a modified order.
#[derive(Debug)]
pub struct ModifyOrderResponse {
    pub order_id: u64,
}

/// The id of a placed order, where the server gave one.
#[derive(Debug)]
pub struct PlaceOrderResponse(pub Option<u64>);

impl PlaceOrderResponse {
    pub fn into_inner(self) -> (r: Option<u64>)
        ensures
            r == self.0,
    {
        self.0
    }
}

} // verus!
