//! Classification of unsolicited push frames by message id.
use crate::frame::FrameRaw;
use vstd::prelude::*;

verus! {

/// Message id of a basic-quote update.
pub const BASIC_QOT_UPDATE_ID: u32 = 3005;

/// Message id of a candle update.
pub const KL_UPDATE_ID: u32 = 3007;

/// Message id of a real-time tick update.
pub const RT_UPDATE_ID: u32 = 3009;

/// The push frames a subscriber recognises, each with its undecoded body.
#[derive(Debug)]
pub enum UpdateResponse {
    BasicQot(Vec<u8>),
    RT(Vec<u8>),
    KL(Vec<u8>),
}

/// What a push frame with this message id and body is; `None` (ignored, no
/// error) for an id that is not a recognised push.
pub open spec fn update_of(proto_id: u32, body: Seq<u8>) -> Option<(u8, Seq<u8>)> {
    if proto_id == BASIC_QOT_UPDATE_ID {
        Some((0u8, body))
    } else if proto_id == RT_UPDATE_ID {
        Some((1u8, body))
    } else if proto_id == KL_UPDATE_ID {
        Some((2u8, body))
    } else {
        None
    }
}

impl UpdateResponse {
    /// The variant's index (0 basic quote, 1 tick, 2 candle) and its body.
    pub open spec fn spec_view(&self) -> (u8, Seq<u8>) {
        match self {
            UpdateResponse::BasicQot(b) => (0u8, b@),
            UpdateResponse::RT(b) => (1u8, b@),
            UpdateResponse::KL(b) => (2u8, b@),
        }
    }
}

/// Sorts a raw push frame by its message id. A frame whose id is not a
/// recognised push is dropped: `None`, which is no error, and the caller
/// reads on.
pub fn classify_push(frame: FrameRaw) -> (r: Option<UpdateResponse>)
    ensures
        match update_of(frame.header.proto_id, frame.body@) {
            Some(u) => r matches Some(x) && x.spec_view() == u,
            None => r is None,
        },
{
    let id = frame.header.proto_id;
    if id == BASIC_QOT_UPDATE_ID {
        Some(UpdateResponse::BasicQot(frame.body))
    } else if id == RT_UPDATE_ID {
        Some(UpdateResponse::RT(frame.body))
    } else if id == KL_UPDATE_ID {
        Some(UpdateResponse::KL(frame.body))
    } else {
        None
    }
}

} // verus!
