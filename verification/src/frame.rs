//! A frame travelling over a session's socket, as the relay sees it.

use vstd::prelude::*;

verus! {

/// One socket frame: text payloads may carry structured control data,
/// binary payloads are opaque application data, and ping, pong and close
/// are transport-level control frames.
#[derive(Clone, Debug, PartialEq, Eq)]
pub enum Frame {
    Text(String),
    Binary(Vec<u8>),
    Ping(Vec<u8>),
    Pong(Vec<u8>),
    Close,
}

/// Mathematical shape of a frame: each payload as a sequence.
pub enum FrameModel {
    Text(Seq<char>),
    Binary(Seq<u8>),
    Ping(Seq<u8>),
    Pong(Seq<u8>),
    Close,
}

impl View for Frame {
    type V = FrameModel;

    open spec fn view(&self) -> FrameModel {
        match self {
            Frame::Text(s) => FrameModel::Text(s@),
            Frame::Binary(b) => FrameModel::Binary(b@),
            Frame::Ping(b) => FrameModel::Ping(b@),
            Frame::Pong(b) => FrameModel::Pong(b@),
            Frame::Close => FrameModel::Close,
        }
    }
}

} // verus!
