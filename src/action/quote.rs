//! Quote requests and the plain responses that go with them.
use crate::action::common::{QotMarket, Security};
use vstd::prelude::*;

verus! {

pub const GET_GLOBAL_STATE_ID: u32 = 1002;

pub const SUBSCRIBE_ID: u32 = 3001;

pub const GET_BASIC_QOT_ID: u32 = 3004;

pub const REQUEST_HISTORY_KL_ID: u32 = 3103;

pub const GET_SECURITY_SNAPSHOT_ID: u32 = 3203;

pub const GET_PLATE_SECURITY_ID: u32 = 3205;

pub const GET_USER_SECURITY_ID: u32 = 3213;

pub const MODIFY_USER_SECURITY_ID: u32 = 3214;

pub const GET_IPO_LIST_ID: u32 = 3217;

pub const SET_PRICE_REMINDER_ID: u32 = 3220;

pub const GET_PRICE_REMINDER_ID: u32 = 3221;

pub const GET_USER_SECURITY_GROUP_ID: u32 = 3222;

/// Asks for the market and session state of the gateway.
#[derive(Debug)]
pub struct GetGlobalStateRequest;

/// Asks for the basic quotes of some securities.
#[derive(Debug)]
pub struct GetBasicQotRequest(pub Vec<Security>);

impl GetBasicQotRequest {
    pub fn new(security_list: Vec<Security>) -> (r: GetBasicQotRequest)
        ensures
            r.0 == security_list,
    {
        GetBasicQotRequest(security_list)
    }
}

/// Asks for snapshots of some securities.
#[derive(Debug)]
pub struct GetSecuritySnapshotRequest(pub Vec<Security>);

impl GetSecuritySnapshotRequest {
    pub fn new(security_list: Vec<Security>) -> (r: GetSecuritySnapshotRequest)
        ensures
            r.0 == security_list,
    {
        GetSecuritySnapshotRequest(security_list)
    }
}

/// Asks for the IPOs of a market.
#[derive(Debug)]
pub struct GetIpoListRequest(pub QotMarket);

impl GetIpoListRequest {
    pub fn new(market: QotMarket) -> (r: GetIpoListRequest)
        ensures
            r.0 == market,
    {
        GetIpoListRequest(market)
    }

    pub fn into_inner(self) -> (r: QotMarket)
        ensures
            r == self.0,
    {
        self.0
    }
}

/// Asks for the securities of a plate.
#[derive(Debug)]
pub struct GetPlateSecurityRequest {
    pub plate: Security,
    /// Wire code of the sort field, where given.
    pub sort_field: Option<i32>,
    pub ascend: Option<bool>,
}

impl GetPlateSecurityRequest {
    pub fn new(plate: Security, sort_field: Option<i32>, ascend: Option<bool>) -> (r:
        GetPlateSecurityRequest)
        ensures
            r.plate == plate,
            r.sort_field == sort_field,
            r.ascend == ascend,
    {
        GetPlateSecurityRequest { plate, sort_field, ascend }
    }
}

/// Asks for the price reminders of a security, or of a market.
#[derive(Debug)]
pub struct GetPriceReminderRequest {
    pub security: Option<Security>,
    pub market: Option<QotMarket>,
}

impl GetPriceReminderRequest {
    pub fn new(security: Option<Security>, market: Option<QotMarket>) -> (r:
        GetPriceReminderRequest)
        ensures
            r.security == security,
            r.market == market,
    {
        GetPriceReminderRequest { security, market }
    }
}

/// Asks for the securities of a user's watch-list group.
#[derive(Debug)]
pub struct GetUserSecurityRequest(pub String);

impl GetUserSecurityRequest {
    pub fn new(group_name: String) -> (r: GetUserSecurityRequest)
        ensures
            r.0 == group_name,
    {
        GetUserSecurityRequest(group_name)
    }
}

/// Asks for a user's watch-list groups of one type.
#[derive(Debug)]
pub struct GetUserSecurityGroupRequest(pub i32);

impl GetUserSecurityGroupRequest {
    /// `group_type` is the wire code of the group type.
    pub fn new(group_type: i32) -> (r: GetUserSecurityGroupRequest)
        ensures
            r.0 == group_type,
    {
        GetUserSecurityGroupRequest(group_type)
    }
}

/// A watch-list group.
#[derive(Debug)]
pub struct GroupData {
    pub group_name: String,
    /// Wire code of the group type.
    pub group_type: i32,
}

/// A user's watch-list groups.
#[derive(Debug)]
pub struct GetUserSecurityGroupResponse {
    pub group_list: Vec<GroupData>,
}

/// Adds securities to, or removes them from, a watch-list group.
#[derive(Debug)]
pub struct ModifyUserSecurityRequest {
    pub group_name: String,
    /// Wire code of the operation.
    pub op: i32,
    pub security_list: Vec<Security>,
}

impl ModifyUserSecurityRequest {
    pub fn new(group_name: String, op: i32, security_list: Vec<Security>) -> (r:
        ModifyUserSecurityRequest)
        ensures
            r.group_name == group_name,
            r.op == op,
            r.security_list == security_list,
    {
        ModifyUserSecurityRequest { group_name, op, security_list }
    }
}

/// Changes the securities of a watch-list group named by a text slice.
#[derive(Debug)]
pub struct ModifyUserSecurityGroupRequest {
    pub group_name: String,
    /// Wire code of the operation.
    pub op: i32,
    pub security_list: Vec<Security>,
}

impl ModifyUserSecurityGroupRequest {
    pub fn new(group_name: &str, op: i32, security_list: Vec<Security>) -> (r:
        ModifyUserSecurityGroupRequest)
        ensures
            r.group_name@ == group_name@,
            r.op == op,
            r.security_list == security_list,
    {
        ModifyUserSecurityGroupRequest {
            group_name: String::from_str(group_name),
            op,
            security_list,
        }
    }
}

/// Asks for the candles of a security over a time range.
#[derive(Debug)]
pub struct RequestHistoryKLRequest {
    /// Wire code of the price adjustment.
    pub rehab_type: i32,
    /// Wire code of the candle period.
    pub kl_type: i32,
    pub security: Security,
    pub begin_time: String,
    pub end_time: String,
    pub max_ack_k_l_num: Option<i32>,
    pub need_k_l_fields_flag: Option<i64>,
    pub next_req_key: Option<Vec<u8>>,
    pub extended_time: Option<bool>,
}

impl RequestHistoryKLRequest {
    pub fn new(
        rehab_type: i32,
        kl_type: i32,
        security: Security,
        begin_time: String,
        end_time: String,
        max_ack_k_l_num: Option<i32>,
        need_k_l_fields_flag: Option<i64>,
        next_req_key: Option<Vec<u8>>,
        extended_time: Option<bool>,
    ) -> (r: RequestHistoryKLRequest)
        ensures
            r.rehab_type == rehab_type,
            r.kl_type == kl_type,
            r.security == security,
            r.begin_time == begin_time,
            r.end_time == end_time,
            r.max_ack_k_l_num == max_ack_k_l_num,
            r.need_k_l_fields_flag == need_k_l_fields_flag,
            r.next_req_key == next_req_key,
            r.extended_time == extended_time,
    {
        RequestHistoryKLRequest {
            rehab_type,
            kl_type,
            security,
            begin_time,
            end_time,
            max_ack_k_l_num,
            need_k_l_fields_flag,
            next_req_key,
            extended_time,
        }
    }
}

/// The key of a new price reminder.
#[derive(Debug)]
pub struct SetPriceReminderResponse(pub i64);

/// Subscribes to (or unsubscribes from) pushes for some securities.
#[derive(Debug)]
pub struct SubscribeRequest {
    pub security_list: Vec<Security>,
    /// Wire codes of the subscription types.
    pub sub_type_list: Vec<i32>,
    pub is_sub_or_un_sub: bool,
    pub is_reg_or_un_reg_push: Option<bool>,
    /// Wire codes of the price adjustments pushed.
    pub reg_push_rehab_type_list: Vec<i32>,
    pub is_first_push: Option<bool>,
    pub is_unsub_all: Option<bool>,
    pub is_sub_order_book_detail: Option<bool>,
    pub extended_time: Option<bool>,
}

impl SubscribeRequest {
    pub fn new(
        security_list: Vec<Security>,
        sub_type_list: Vec<i32>,
        is_sub_or_un_sub: bool,
        is_reg_or_un_reg_push: Option<bool>,
        reg_push_rehab_type_list: Vec<i32>,
        is_first_push: Option<bool>,
        is_unsub_all: Option<bool>,
        is_sub_order_book_detail: Option<bool>,
        extended_time: Option<bool>,
    ) -> (r: SubscribeRequest)
        ensures
            r.security_list == security_list,
            r.sub_type_list == sub_type_list,
            r.is_sub_or_un_sub == is_sub_or_un_sub,
            r.is_reg_or_un_reg_push == is_reg_or_un_reg_push,
            r.reg_push_rehab_type_list == reg_push_rehab_type_list,
            r.is_first_push == is_first_push,
            r.is_unsub_all == is_unsub_all,
            r.is_sub_order_book_detail == is_sub_order_book_detail,
            r.extended_time == extended_time,
    {
        SubscribeRequest {
            security_list,
            sub_type_list,
            is_sub_or_un_sub,
            is_reg_or_un_reg_push,
            reg_push_rehab_type_list,
            is_first_push,
            is_unsub_all,
            is_sub_order_book_detail,
            extended_time,
        }
    }

    /// Drops every subscription of the connection.
    pub fn unsubscribe_all() -> (r: SubscribeRequest)
        ensures
            r.security_list@.len() == 0,
            r.sub_type_list@.len() == 0,
            !r.is_sub_or_un_sub,
            r.is_reg_or_un_reg_push is None,
            r.reg_push_rehab_type_list@.len() == 0,
            r.is_first_push is None,
            r.is_unsub_all == Some(true),
            r.is_sub_order_book_detail is None,
            r.extended_time is None,
    {
        SubscribeRequest::new(
            Vec::new(),
            Vec::new(),
            false,
            None,
            Vec::new(),
            None,
            Some(true),
            None,
            None,
        )
    }
}

} // verus!
