//! What the server reports when it does not do what it was asked.

use crate::bytebuffer::DecodeError;
use vstd::prelude::*;

verus! {

#[derive(Clone, Copy, PartialEq, Eq, Structural, Debug)]
pub enum ServerError {
    /// The peer is not an IPv4 peer.
    UnsupportedFamily,
    /// The datagram is not a well-formed packet.
    Decode(DecodeError),
    /// The registry has given out every session id it has.
    SessionIdsExhausted,
    /// No session is claimed by this datagram peer.
    NotClaimed,
    /// Account id zero stands for "not authenticated" and names no account.
    InvalidAccount,
    /// The session has authenticated before.
    AlreadyAuthenticated,
    /// The player count cannot grow.
    ServerFull,
    /// No session belongs to the user that was named.
    UserNotFound,
    /// The central directory did not take the update.
    RemoteUpdateFailure,
    /// The central directory did not hand out its configuration.
    RefreshFailure,
    /// The session that was told to end did not end in time.
    EvictionTimeout,
}

impl ServerError {
    /// The text that the error is reported with.
    pub fn message(&self) -> (text: String)
        ensures
            text@ == (match *self {
                ServerError::UnsupportedFamily => "rejecting request from ipv6 host"@,
                ServerError::Decode(_) => "failed to decode the packet"@,
                ServerError::SessionIdsExhausted => "no session id is left"@,
                ServerError::NotClaimed => "no session is claimed by this peer"@,
                ServerError::InvalidAccount => "account id 0 is not an account"@,
                ServerError::AlreadyAuthenticated => "the session is already authenticated"@,
                ServerError::ServerFull => "the server is full"@,
                ServerError::UserNotFound => "failed to find the user"@,
                ServerError::RemoteUpdateFailure => "failed to update the user"@,
                ServerError::RefreshFailure => "failed to refresh the configuration"@,
                ServerError::EvictionTimeout => "timed out waiting for the thread to disconnect"@,
            }),
    {
        match self {
            ServerError::UnsupportedFamily => "rejecting request from ipv6 host".to_string(),
            ServerError::Decode(_) => "failed to decode the packet".to_string(),
            ServerError::SessionIdsExhausted => "no session id is left".to_string(),
            ServerError::NotClaimed => "no session is claimed by this peer".to_string(),
            ServerError::InvalidAccount => "account id 0 is not an account".to_string(),
            ServerError::AlreadyAuthenticated => "the session is already authenticated".to_string(),
            ServerError::ServerFull => "the server is full".to_string(),
            ServerError::UserNotFound => "failed to find the user".to_string(),
            ServerError::RemoteUpdateFailure => "failed to update the user".to_string(),
            ServerError::RefreshFailure => "failed to refresh the configuration".to_string(),
            ServerError::EvictionTimeout => "timed out waiting for the thread to disconnect".to_string(),
        }
    }
}

} // verus!
