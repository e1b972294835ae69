//! The filters by which the server picks sessions out of the table of claimed
//! sessions, and the walk over the table that applies one.

use crate::server::GameServer;
use crate::session::Session;
use crate::text::{eq_ignore_ascii_case, same_ignoring_ascii_case};
use vstd::prelude::*;

verus! {

/// A filter on claimed sessions.
pub enum Selector<'a> {
    /// Every claimed session.
    All,
    /// The sessions whose player has authenticated.
    Authenticated,
    /// The authenticated players of a room.
    InRoom(u32),
    /// The authenticated players of a room that other players may see. Only
    /// in the global room, which is room 0, can a player be invisible.
    VisibleInRoom(u32),
    /// The sessions whose account id is one of these.
    Accounts(&'a [i32]),
    /// The sessions with this account id.
    Account(i32),
    /// The sessions whose player has this name, but for the case of ASCII
    /// letters.
    Named(&'a str),
    /// The authenticated players of a room, without the player that a message
    /// comes from.
    RoomMessage { origin_id: i32, room_id: u32 },
    /// The authenticated players among `players`, which are the accounts on
    /// one level of one room, without the player that a message comes from.
    LevelMessage { origin_id: i32, players: &'a [i32] },
}

impl<'a> Selector<'a> {
    /// Whether the filter lets the session through.
    pub open spec fn admits(&self, s: Session) -> bool {
        match *self {
            Selector::All => true,
            Selector::Authenticated => s.account_id != 0,
            Selector::InRoom(room_id) => s.account_id != 0 && s.room_id == room_id,
            Selector::VisibleInRoom(room_id) => s.account_id != 0 && s.room_id == room_id && !(
            room_id == 0 && s.is_invisible),
            Selector::Accounts(ids) => ids@.contains(s.account_id),
            Selector::Account(account_id) => s.account_id == account_id,
            Selector::Named(name) => same_ignoring_ascii_case(s.account_data.name@, name@),
            Selector::RoomMessage { origin_id, room_id } => s.room_id == room_id && s.account_id
                != 0 && s.account_id != origin_id,
            Selector::LevelMessage { origin_id, players } => s.account_id != 0 && s.account_id
                != origin_id && players@.contains(s.account_id),
        }
    }

    /// Applies the filter to one session.
    pub fn test(&self, s: &Session) -> (r: bool)
        ensures
            r == self.admits(*s),
    {
        match self {
            Selector::All => true,
            Selector::Authenticated => s.authenticated(),
            Selector::InRoom(room_id) => s.authenticated() && s.room_id == *room_id,
            Selector::VisibleInRoom(room_id) => s.authenticated() && s.room_id == *room_id && !(
            *room_id == 0 && s.is_invisible),
            Selector::Accounts(ids) => contains_account(ids, s.account_id),
            Selector::Account(account_id) => s.account_id == *account_id,
            Selector::Named(name) => eq_ignore_ascii_case(s.account_data.name.as_str(), name),
            Selector::RoomMessage { origin_id, room_id } => s.room_id == *room_id && s.account_id
                != 0 && s.account_id != *origin_id,
            Selector::LevelMessage { origin_id, players } => s.account_id != 0 && s.account_id
                != *origin_id && contains_account(players, s.account_id),
        }
    }
}

/// Whether `account_id` is one of `ids`.
pub fn contains_account(ids: &[i32], account_id: i32) -> (r: bool)
    ensures
        r == ids@.contains(account_id),
{
    let mut i: usize = 0;
    while i < ids.len()
        invariant
            i <= ids.len(),
            forall|j: int| 0 <= j < i ==> ids@[j] != account_id,
        decreases ids.len() - i,
    {
        if ids[i] == account_id {
            return true;
        }
        i += 1;
    }
    false
}

/// `walk` goes once over the keys of the sessions in `claimed` that the
/// filter lets through, and over no other key.
pub open spec fn is_walk(claimed: Map<u64, Session>, walk: Seq<u64>, selector: Selector) -> bool {
    &&& walk.no_duplicates()
    &&& forall|k: u64|
        walk.contains(k) <==> claimed.contains_key(k) && selector.admits(claimed[k])
}

impl GameServer {
    /// The keys of the claimed sessions that the filter lets through, each
    /// once, in the order in which the table hands them out.
    pub fn select(&self, selector: &Selector) -> (keys: Vec<u64>)
        ensures
            is_walk(self@.claimed, keys@, *selector),
    {
        let all = self.claimed_keys();
        let mut keys: Vec<u64> = Vec::new();
        let mut i: usize = 0;
        while i < all.len()
            invariant
                i <= all.len(),
                all@.no_duplicates(),
                forall|k: u64| all@.contains(k) <==> self@.claimed.contains_key(k),
                keys@.no_duplicates(),
                forall|at: int|
                    0 <= at < keys@.len() ==> self@.claimed.contains_key(#[trigger] keys@[at])
                        && selector.admits(self@.claimed[keys@[at]]) && exists|j: int|
                        0 <= j < i && all@[j] == keys@[at],
                forall|j: int|
                    0 <= j < i && selector.admits(self@.claimed[#[trigger] all@[j]])
                        ==> keys@.contains(all@[j]),
            decreases all.len() - i,
        {
            let key = all[i];
            assert(all@.contains(key));
            let ghost prev = keys@;
            match self.get_thread(key) {
                Some(thread) => {
                    if selector.test(thread) {
                        assert(!prev.contains(key)) by {
                            if prev.contains(key) {
                                let at = choose|at: int| 0 <= at < prev.len() && prev[at] == key;
                                let j = choose|j: int| 0 <= j < i && all@[j] == prev[at];
                                assert(all@[j] == all@[i as int]);
                            }
                        }
                        keys.push(key);
                        assert(keys@[prev.len() as int] == key);
                        assert forall|at: int| 0 <= at < keys@.len() implies self@.claimed.contains_key(
                            #[trigger] keys@[at],
                        ) && selector.admits(self@.claimed[keys@[at]]) && exists|j: int|
                            0 <= j < i + 1 && all@[j] == keys@[at] by {
                            if at < prev.len() {
                                assert(keys@[at] == prev[at]);
                                let j = choose|j: int| 0 <= j < i && all@[j] == prev[at];
                                assert(0 <= j < i + 1 && all@[j] == keys@[at]);
                            } else {
                                assert(all@[i as int] == keys@[at]);
                            }
                        }
                        assert forall|j: int|
                            0 <= j < i + 1 && selector.admits(
                                self@.claimed[#[trigger] all@[j]],
                            ) implies keys@.contains(all@[j]) by {
                            if j < i {
                                assert(prev.contains(all@[j]));
                                let at = choose|at: int|
                                    0 <= at < prev.len() && prev[at] == all@[j];
                                assert(keys@[at] == all@[j]);
                            }
                        }
                    }
                },
                None => {},
            }
            i += 1;
        }
        proof {
            assert forall|k: u64|
                keys@.contains(k) <==> self@.claimed.contains_key(k) && selector.admits(
                    self@.claimed[k],
                ) by {
                if self@.claimed.contains_key(k) && selector.admits(self@.claimed[k]) {
                    assert(all@.contains(k));
                    let j = choose|j: int| 0 <= j < all@.len() && all@[j] == k;
                    assert(selector.admits(self@.claimed[all@[j]]));
                }
                if keys@.contains(k) {
                    let at = choose|at: int| 0 <= at < keys@.len() && keys@[at] == k;
                    assert(self@.claimed.contains_key(keys@[at]));
                }
            }
        }
        keys
    }

    /// A session that the filter lets through, if the table of claimed
    /// sessions holds one: the first that the table hands out.
    pub fn find_thread(&self, selector: &Selector) -> (r: Option<&Session>)
        ensures
            match r {
                Some(found) => exists|k: u64|
                    self@.claimed.contains_key(k) && #[trigger] self@.claimed[k] == *found
                        && selector.admits(*found),
                None => forall|k: u64|
                    self@.claimed.contains_key(k) ==> !selector.admits(#[trigger] self@.claimed[k]),
            },
    {
        let all = self.claimed_keys();
        let mut i: usize = 0;
        while i < all.len()
            invariant
                i <= all.len(),
                forall|k: u64| all@.contains(k) <==> self@.claimed.contains_key(k),
                forall|j: int| 0 <= j < i ==> !selector.admits(self@.claimed[#[trigger] all@[j]]),
            decreases all.len() - i,
        {
            let key = all[i];
            assert(all@.contains(key));
            match self.get_thread(key) {
                Some(thread) => {
                    if selector.test(thread) {
                        assert(self@.claimed[key] == *thread);
                        return Some(thread);
                    }
                },
                None => {},
            }
            i += 1;
        }
        proof {
            assert forall|k: u64| self@.claimed.contains_key(k) implies !selector.admits(
                #[trigger] self@.claimed[k],
            ) by {
                assert(all@.contains(k));
                let j = choose|j: int| 0 <= j < all@.len() && all@[j] == k;
                assert(!selector.admits(self@.claimed[all@[j]]));
            }
        }
        None
    }
}

} // verus!
