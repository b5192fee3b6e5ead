//! Decision logic of a selective forwarding unit (SFU) for WebRTC rooms.
//!
//! Every module holds a piece of the server's logic as plain values and
//! state machines; the asynchronous runtime, the peer connections and the
//! websocket transport drive these state machines from the outside.
pub mod quality;
pub mod packet;
pub mod keyframe;
pub mod subscribers;
pub mod router;
pub mod forwarder;
pub mod offset_forwarder;
pub mod ids;
pub mod room;
pub mod table;
pub mod server;
pub mod layer_manager;
pub mod quality_monitor;
pub mod keyframe_request;
pub mod signal;
pub mod ice;
pub mod subscriber;
pub mod publisher;
pub mod simulcast;
pub mod tracks;
pub mod gateway;
pub mod actor;
pub mod audio;
pub mod network;
pub mod user;
pub mod feedback;
