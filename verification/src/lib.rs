//! Connection and dispatch core of a real-time multiplayer game server.
//!
//! The crate keeps the registry of player sessions, pairs each datagram peer
//! with the stream it belongs to, decides who receives a broadcast and
//! reconciles the registry when a session ends. Every function carries a
//! contract over a mathematical model of the registry, and Verus proves the
//! bodies against those contracts.

pub mod broadcast;
pub mod bytebuffer;
pub mod cocos;
pub mod data;
pub mod error;
pub mod fold;
pub mod laws;
pub mod lifecycle;
pub mod lookup;
pub mod message;
pub mod packets;
pub mod registry;
pub mod select;
pub mod server;
pub mod session;
pub mod table;
pub mod text;
