//! What the server decides about its own running: which periodic tasks it
//! starts, how it treats a failed accept, and what it reports of itself.

use crate::server::GameServer;
use crate::text::{contains_phrase, has_phrase};
use vstd::prelude::*;

verus! {

/// Seconds between two refreshes of the configuration from the central
/// directory.
pub const BOOTDATA_REFRESH_SECS: u64 = 300;

/// Seconds between two refreshes of the roles from the configuration.
pub const ROLE_REFRESH_SECS: u64 = 1800;

/// Milliseconds that the acceptor waits after an accept has failed for want
/// of file descriptors.
pub const ACCEPT_BACKOFF_MILLIS: u64 = 250;

/// Seconds of silence on its stream after which a session ends.
pub const SESSION_SILENCE_SECS: u64 = 60;

/// Size of the buffer that datagrams are received into.
pub const MAX_UDP_PACKET_SIZE: usize = 65536;

/// Size of the buffer that large packets are encoded in.
pub const LARGE_BUFFER_SIZE: usize = 524288;

/// The words by which the operating system says that no file descriptor is
/// left.
pub open spec fn fd_exhaustion_phrase() -> Seq<char> {
    "Too many open files"@
}

/// The periodic tasks that the server starts, each with the seconds between
/// two of its runs; `None` for a task that is not started.
#[derive(Clone, Copy, PartialEq, Eq, Structural, Debug)]
pub struct StartupPlan {
    pub bootdata_refresh_secs: Option<u64>,
    pub role_refresh_secs: Option<u64>,
    pub status_print_secs: Option<u64>,
}

/// What the server reports of itself.
#[derive(Clone, Copy, PartialEq, Eq, Structural, Debug)]
pub struct ServerStatus {
    pub player_count: u32,
    pub threads: usize,
    pub unclaimed: usize,
    pub rooms: usize,
    pub global_room_players: usize,
}

impl GameServer {
    /// The periodic tasks to start. A standalone server has no central
    /// directory to refresh from. The status is printed every
    /// `status_print_interval` seconds, and not at all where that is zero.
    pub fn startup_plan(&self, status_print_interval: u32) -> (plan: StartupPlan)
        ensures
            plan.bootdata_refresh_secs == (if self@.standalone {
                None
            } else {
                Some(BOOTDATA_REFRESH_SECS)
            }),
            plan.role_refresh_secs == (if self@.standalone {
                None
            } else {
                Some(ROLE_REFRESH_SECS)
            }),
            plan.status_print_secs == (if status_print_interval == 0 {
                None
            } else {
                Some(status_print_interval as u64)
            }),
    {
        let standalone = self.is_standalone();
        StartupPlan {
            bootdata_refresh_secs: if standalone {
                None
            } else {
                Some(BOOTDATA_REFRESH_SECS)
            },
            role_refresh_secs: if standalone {
                None
            } else {
                Some(ROLE_REFRESH_SECS)
            },
            status_print_secs: if status_print_interval == 0 {
                None
            } else {
                Some(status_print_interval as u64)
            },
        }
    }

    /// The numbers of the status report. The number of rooms and the
    /// population of the global room are the room manager's.
    pub fn server_status(&self, rooms: usize, global_room_players: usize) -> (status: ServerStatus)
        ensures
            status.player_count == self@.player_count,
            status.threads == self@.claimed.len(),
            status.unclaimed == self@.unclaimed.len(),
            status.rooms == rooms,
            status.global_room_players == global_room_players,
    {
        ServerStatus {
            player_count: self.player_count(),
            threads: self.thread_count(),
            unclaimed: self.unclaimed_count(),
            rooms,
            global_room_players,
        }
    }
}

/// For how many milliseconds the acceptor rests after an accept has failed
/// with this error text: a while where the text says that no file descriptor
/// is left, and not at all after any other failure.
pub fn accept_failure_backoff(error_text: &str) -> (millis: Option<u64>)
    ensures
        millis == (if has_phrase(error_text@, fd_exhaustion_phrase()) {
            Some(ACCEPT_BACKOFF_MILLIS)
        } else {
            None
        }),
{
    if contains_phrase(error_text, "Too many open files") {
        Some(ACCEPT_BACKOFF_MILLIS)
    } else {
        None
    }
}

} // verus!
