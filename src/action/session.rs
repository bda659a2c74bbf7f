//! The login handshake, the keepalive, trading-session unlock, and the rule
//! that the next frame on a request/response connection answers the last request.
use crate::frame::{Error, FrameRaw};
use vstd::prelude::*;

verus! {

/// Message id of the login handshake.
pub const INIT_CONNECT_ID: u32 = 1001;

/// Message id of the keepalive (heartbeat).
pub const KEEPALIVE_ID: u32 = 1004;

/// Message id of the trading-session unlock.
pub const UNLOCK_ID: u32 = 2005;

/// Wire code of the broker that trading sessions are unlocked with.
pub const SECURITY_FIRM_FUTU_SECURITIES: i32 = 1;

/// The login handshake request.
#[derive(Debug)]
pub struct InitConnectRequest {
    pub client_ver: i32,
    pub client_id: String,
    pub recv_notify: bool,
    pub package_enc_algo: i32,
    pub programming_language: String,
}

impl InitConnectRequest {
    /// The handshake this client sends: version 221, client id "800", no push
    /// notifications, no body encryption (-1), language "Rust".
    pub fn default() -> (r: InitConnectRequest)
        ensures
            r.client_ver == 221,
            r.client_id@ == "800"@,
            !r.recv_notify,
            r.package_enc_algo == -1,
            r.programming_language@ == "Rust"@,
    {
        InitConnectRequest {
            client_ver: 221,
            client_id: String::from_str("800"),
            recv_notify: false,
            package_enc_algo: -1,
            programming_language: String::from_str("Rust"),
        }
    }
}

/// The session parameters the handshake response assigns.
#[derive(Debug)]
pub struct InitConnectResponse {
    pub server_ver: i32,
    pub login_user_id: u64,
    pub conn_id: u64,
    pub conn_aes_key: String,
    /// Seconds between two keepalive frames.
    pub keep_alive_interval: i32,
    pub aes_cbc_iv: String,
    pub user_attribution: i32,
}

/// A keepalive request carrying the sender's time, in seconds.
#[derive(Debug)]
pub struct KeepAliveRequest(pub i64);

impl KeepAliveRequest {
    pub fn new(time: i64) -> (r: KeepAliveRequest)
        ensures
            r.0 == time,
    {
        KeepAliveRequest(time)
    }
}

/// A keepalive response carrying the server's time, in seconds.
#[derive(Debug)]
pub struct KeepAliveResponse(pub i64);

/// The response frame to the request just written. A clean close instead of
/// a frame is a `ConnectionError`: the request's answer never came.
pub fn response_frame(read: Result<Option<FrameRaw>, Error>) -> (r: Result<FrameRaw, Error>)
    ensures
        read matches Ok(Some(f)) ==> r == Ok::<FrameRaw, Error>(f),
        read matches Ok(None) ==> r matches Err(Error::ConnectionError(_)),
        read matches Err(e) ==> r == Err::<FrameRaw, Error>(e),
{
    match read {
        Ok(Some(f)) => Ok(f),
        Ok(None) => Err(Error::ConnectionError("connection reset by server".to_string())),
        Err(e) => Err(e),
    }
}

/// The lowercase hexadecimal MD5 digest of a text's UTF-8 bytes.
pub uninterp spec fn md5_hex_of(s: Seq<char>) -> Seq<char>;

/// Relies on `md5::compute` and its `LowerHex` formatting ("{:02x}" for each
/// of the 16 digest bytes): 32 lowercase hex digits, a function of the text alone.
#[verifier::external_body]
fn md5_hex(s: &str) -> (r: String)
    ensures
        r@ == md5_hex_of(s@),
        r@.len() == 32,
{
    format!("{:x}", md5::compute(s))
}

/// The trading-session unlock request.
#[derive(Debug)]
pub struct UnlockRequest {
    pub unlock: bool,
    pub pwd_md5: Option<String>,
    /// Wire code of the broker, where given.
    pub security_firm: Option<i32>,
}

impl UnlockRequest {
    /// An unlock with the password's MD5 hex digest.
    pub fn new(pwd_md5: String, security_firm: Option<i32>) -> (r: UnlockRequest)
        ensures
            r.unlock,
            r.pwd_md5 == Some(pwd_md5),
            r.security_firm == security_firm,
    {
        UnlockRequest { unlock: true, pwd_md5: Some(pwd_md5), security_firm }
    }

    /// The unlock a trade client sends for a password: the password's MD5 hex
    /// digest, with the client's broker.
    pub fn for_password(pwd: &str) -> (r: UnlockRequest)
        ensures
            r.unlock,
            r.pwd_md5 matches Some(d) && d@ == md5_hex_of(pwd@),
            r.security_firm == Some(SECURITY_FIRM_FUTU_SECURITIES),
    {
        UnlockRequest::new(md5_hex(pwd), Some(SECURITY_FIRM_FUTU_SECURITIES))
    }
}

} // verus!
