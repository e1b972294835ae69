//! What the rest of the application asks of the registry: one player by id
//! or by name, and lists of players as other players see them.

use crate::data::{
    shown_level, PlayerAccountData, PlayerPreviewAccountData, PlayerRoomPreviewAccountData,
    UserEntry,
};
use crate::error::ServerError;
use crate::registry::Registry;
use crate::fold::{fold_count, folds_to};
use crate::message::RoomListingInfo;
use crate::select::{is_walk, Selector};
use crate::server::GameServer;
use crate::session::Session;
use crate::text::{parse_i32, parsed_i32};
use vstd::prelude::*;

verus! {

/// What a room's player list shows of the player of a session: their data,
/// and their level unless that is a level that players edit together.
pub open spec fn room_preview_of(s: Session) -> PlayerRoomPreviewAccountData {
    s.account_data.room_preview(shown_level(s.level_id))
}

/// `items` holds the account data of the sessions that the filter lets
/// through, each once, in the order of some walk over the table.
pub open spec fn is_data_snapshot(
    claimed: Map<u64, Session>,
    items: Seq<PlayerAccountData>,
    selector: Selector,
) -> bool {
    exists|walk: Seq<u64>|
        #![trigger is_walk(claimed, walk, selector)]
        is_walk(claimed, walk, selector) && items.len() == walk.len() && forall|i: int|
            0 <= i < walk.len() ==> #[trigger] items[i] == claimed[walk[i]].account_data
}

/// `items` holds the previews of the sessions that the filter lets through,
/// each once, in the order of some walk over the table.
pub open spec fn is_preview_snapshot(
    claimed: Map<u64, Session>,
    items: Seq<PlayerPreviewAccountData>,
    selector: Selector,
) -> bool {
    exists|walk: Seq<u64>|
        #![trigger is_walk(claimed, walk, selector)]
        is_walk(claimed, walk, selector) && items.len() == walk.len() && forall|i: int|
            0 <= i < walk.len() ==> #[trigger] items[i] == claimed[walk[i]].account_data.preview()
}

/// `items` holds the room previews of the sessions that the filter lets
/// through, each once, in the order of some walk over the table.
pub open spec fn is_room_preview_snapshot(
    claimed: Map<u64, Session>,
    items: Seq<PlayerRoomPreviewAccountData>,
    selector: Selector,
) -> bool {
    exists|walk: Seq<u64>|
        #![trigger is_walk(claimed, walk, selector)]
        is_walk(claimed, walk, selector) && items.len() == walk.len() && forall|i: int|
            0 <= i < walk.len() ==> #[trigger] items[i] == room_preview_of(claimed[walk[i]])
}

/// The filter by which a user is looked up: by account id where the text is
/// a signed 32-bit integer in decimal, else by name.
pub open spec fn user_selector<'a>(name: &'a str) -> Selector<'a> {
    match parsed_i32(name@) {
        Some(account_id) => Selector::Account(account_id),
        None => Selector::Named(name),
    }
}

impl GameServer {
    /// The account data of the sessions that the filter lets through.
    pub fn collect_account_data(&self, selector: &Selector) -> (items: Vec<PlayerAccountData>)
        ensures
            is_data_snapshot(self@.claimed, items@, *selector),
    {
        let keys = self.select(selector);
        let mut items: Vec<PlayerAccountData> = Vec::with_capacity(keys.len());
        let mut i: usize = 0;
        while i < keys.len()
            invariant
                i <= keys.len(),
                is_walk(self@.claimed, keys@, *selector),
                items@.len() == i,
                forall|j: int|
                    0 <= j < i ==> #[trigger] items@[j] == self@.claimed[keys@[j]].account_data,
            decreases keys.len() - i,
        {
            assert(keys@.contains(keys@[i as int]));
            match self.get_thread(keys[i]) {
                Some(thread) => {
                    items.push(thread.account_data.clone());
                },
                None => {},
            }
            i += 1;
        }
        items
    }

    /// The previews of the sessions that the filter lets through.
    pub fn collect_previews(&self, selector: &Selector) -> (items: Vec<PlayerPreviewAccountData>)
        ensures
            is_preview_snapshot(self@.claimed, items@, *selector),
    {
        let keys = self.select(selector);
        let mut items: Vec<PlayerPreviewAccountData> = Vec::with_capacity(keys.len());
        let mut i: usize = 0;
        while i < keys.len()
            invariant
                i <= keys.len(),
                is_walk(self@.claimed, keys@, *selector),
                items@.len() == i,
                forall|j: int|
                    0 <= j < i ==> #[trigger] items@[j]
                        == self@.claimed[keys@[j]].account_data.preview(),
            decreases keys.len() - i,
        {
            assert(keys@.contains(keys@[i as int]));
            match self.get_thread(keys[i]) {
                Some(thread) => {
                    items.push(thread.account_data.make_preview());
                },
                None => {},
            }
            i += 1;
        }
        items
    }

    /// The room previews of the sessions that the filter lets through. A
    /// player on a level that players edit together is shown on no level.
    pub fn collect_room_previews(&self, selector: &Selector) -> (items: Vec<
        PlayerRoomPreviewAccountData,
    >)
        ensures
            is_room_preview_snapshot(self@.claimed, items@, *selector),
    {
        let keys = self.select(selector);
        let mut items: Vec<PlayerRoomPreviewAccountData> = Vec::with_capacity(keys.len());
        let mut i: usize = 0;
        while i < keys.len()
            invariant
                i <= keys.len(),
                is_walk(self@.claimed, keys@, *selector),
                items@.len() == i,
                forall|j: int|
                    0 <= j < i ==> #[trigger] items@[j] == room_preview_of(
                        self@.claimed[keys@[j]],
                    ),
            decreases keys.len() - i,
        {
            assert(keys@.contains(keys@[i as int]));
            match self.get_thread(keys[i]) {
                Some(thread) => {
                    let level_id = thread.shown_level();
                    items.push(thread.account_data.make_room_preview(level_id));
                },
                None => {},
            }
            i += 1;
        }
        items
    }

    /// Shows the visitor the account data of every session whose account id
    /// is one of `ids`, and counts what the visitor accepts.
    pub fn for_each_player<F: Fn(&PlayerAccountData, usize, A) -> (bool, A), A>(
        &self,
        ids: &[i32],
        f: F,
        additional: A,
    ) -> (r: (usize, A))
        requires
            forall|x: &PlayerAccountData, n: usize, a: A| call_requires(f, (x, n, a)),
        ensures
            exists|items: Seq<PlayerAccountData>|
                #![trigger folds_to(f, items, additional, r)]
                is_data_snapshot(self@.claimed, items, Selector::Accounts(ids)) && folds_to(
                    f,
                    items,
                    additional,
                    r,
                ),
    {
        let items = self.collect_account_data(&Selector::Accounts(ids));
        fold_count(&items, &f, additional)
    }

    /// Shows the visitor the preview of every authenticated player, and
    /// counts what the visitor accepts.
    pub fn for_every_player_preview<F: Fn(&PlayerPreviewAccountData, usize, A) -> (bool, A), A>(
        &self,
        f: F,
        additional: A,
    ) -> (r: (usize, A))
        requires
            forall|x: &PlayerPreviewAccountData, n: usize, a: A| call_requires(f, (x, n, a)),
        ensures
            exists|items: Seq<PlayerPreviewAccountData>|
                #![trigger folds_to(f, items, additional, r)]
                is_preview_snapshot(self@.claimed, items, Selector::Authenticated) && folds_to(
                    f,
                    items,
                    additional,
                    r,
                ),
    {
        let items = self.collect_previews(&Selector::Authenticated);
        fold_count(&items, &f, additional)
    }

    /// Shows the visitor the preview of every authenticated player of the
    /// room, and counts what the visitor accepts.
    pub fn for_every_player_preview_in_room<
        F: Fn(&PlayerPreviewAccountData, usize, A) -> (bool, A),
        A,
    >(&self, room_id: u32, f: F, additional: A) -> (r: (usize, A))
        requires
            forall|x: &PlayerPreviewAccountData, n: usize, a: A| call_requires(f, (x, n, a)),
        ensures
            exists|items: Seq<PlayerPreviewAccountData>|
                #![trigger folds_to(f, items, additional, r)]
                is_preview_snapshot(self@.claimed, items, Selector::InRoom(room_id)) && folds_to(
                    f,
                    items,
                    additional,
                    r,
                ),
    {
        let items = self.collect_previews(&Selector::InRoom(room_id));
        fold_count(&items, &f, additional)
    }

    /// Shows the visitor the room preview of every authenticated player of
    /// the room whom other players may see, and counts what the visitor
    /// accepts. Players can be invisible in the global room only, which is
    /// room 0.
    pub fn for_every_visible_room_player_preview<
        F: Fn(&PlayerRoomPreviewAccountData, usize, A) -> (bool, A),
        A,
    >(&self, room_id: u32, f: F, additional: A) -> (r: (usize, A))
        requires
            forall|x: &PlayerRoomPreviewAccountData, n: usize, a: A| call_requires(f, (x, n, a)),
        ensures
            exists|items: Seq<PlayerRoomPreviewAccountData>|
                #![trigger folds_to(f, items, additional, r)]
                is_room_preview_snapshot(self@.claimed, items, Selector::VisibleInRoom(room_id))
                    && folds_to(f, items, additional, r),
    {
        let items = self.collect_room_previews(&Selector::VisibleInRoom(room_id));
        fold_count(&items, &f, additional)
    }

    /// Shows the visitor the room preview of every authenticated player of
    /// the room, and counts what the visitor accepts.
    pub fn for_every_room_player_preview<
        F: Fn(&PlayerRoomPreviewAccountData, usize, A) -> (bool, A),
        A,
    >(&self, room_id: u32, f: F, additional: A) -> (r: (usize, A))
        requires
            forall|x: &PlayerRoomPreviewAccountData, n: usize, a: A| call_requires(f, (x, n, a)),
        ensures
            exists|items: Seq<PlayerRoomPreviewAccountData>|
                #![trigger folds_to(f, items, additional, r)]
                is_room_preview_snapshot(self@.claimed, items, Selector::InRoom(room_id))
                    && folds_to(f, items, additional, r),
    {
        let items = self.collect_room_previews(&Selector::InRoom(room_id));
        fold_count(&items, &f, additional)
    }

    /// Shows the visitor every room of the list that the room manager has
    /// made, and counts what the visitor accepts.
    pub fn for_every_public_room<F: Fn(&RoomListingInfo, usize, A) -> (bool, A), A>(
        &self,
        rooms: &Vec<RoomListingInfo>,
        f: F,
        additional: A,
    ) -> (r: (usize, A))
        requires
            forall|x: &RoomListingInfo, n: usize, a: A| call_requires(f, (x, n, a)),
        ensures
            folds_to(f, rooms@, additional, r),
    {
        fold_count(rooms, &f, additional)
    }

    /// The previews of all authenticated players.
    pub fn get_player_previews_for_inviting(&self) -> (r: Vec<PlayerPreviewAccountData>)
        ensures
            is_preview_snapshot(self@.claimed, r@, Selector::Authenticated),
    {
        self.collect_previews(&Selector::Authenticated)
    }

    /// The room previews of the authenticated players of a room.
    pub fn get_room_player_previews(&self, room_id: u32) -> (r: Vec<PlayerRoomPreviewAccountData>)
        ensures
            is_room_preview_snapshot(self@.claimed, r@, Selector::InRoom(room_id)),
    {
        self.collect_room_previews(&Selector::InRoom(room_id))
    }

    /// The room previews of the authenticated players of a room whom other
    /// players may see.
    pub fn get_visible_room_player_previews(&self, room_id: u32) -> (r: Vec<
        PlayerRoomPreviewAccountData,
    >)
        ensures
            is_room_preview_snapshot(self@.claimed, r@, Selector::VisibleInRoom(room_id)),
    {
        self.collect_room_previews(&Selector::VisibleInRoom(room_id))
    }

    /// The previews of the authenticated players of a room.
    pub fn get_player_previews_in_room(&self, room_id: u32) -> (r: Vec<PlayerPreviewAccountData>)
        ensures
            is_preview_snapshot(self@.claimed, r@, Selector::InRoom(room_id)),
    {
        self.collect_previews(&Selector::InRoom(room_id))
    }

    /// The account data of a session with this account id, if the table of
    /// claimed sessions holds one.
    pub fn get_player_account_data(&self, account_id: i32) -> (r: Option<PlayerAccountData>)
        ensures
            match r {
                Some(data) => exists|k: u64|
                    self@.claimed.contains_key(k) && (#[trigger] self@.claimed[k]).account_id
                        == account_id && data == self@.claimed[k].account_data,
                None => forall|k: u64|
                    self@.claimed.contains_key(k) ==> (#[trigger] self@.claimed[k]).account_id
                        != account_id,
            },
    {
        match self.find_thread(&Selector::Account(account_id)) {
            Some(thread) => Some(thread.account_data.clone()),
            None => None,
        }
    }

    /// The preview of a session with this account id, if the table of claimed
    /// sessions holds one.
    pub fn get_player_preview_data(&self, account_id: i32) -> (r: Option<PlayerPreviewAccountData>)
        ensures
            match r {
                Some(data) => exists|k: u64|
                    self@.claimed.contains_key(k) && (#[trigger] self@.claimed[k]).account_id
                        == account_id && data == self@.claimed[k].account_data.preview(),
                None => forall|k: u64|
                    self@.claimed.contains_key(k) ==> (#[trigger] self@.claimed[k]).account_id
                        != account_id,
            },
    {
        match self.find_thread(&Selector::Account(account_id)) {
            Some(thread) => Some(thread.account_data.make_preview()),
            None => None,
        }
    }

    /// A claimed session with this account id, if there is one.
    pub fn get_user_by_id(&self, account_id: i32) -> (r: Option<&Session>)
        ensures
            match r {
                Some(found) => found.account_id == account_id && exists|k: u64|
                    self@.claimed.contains_key(k) && #[trigger] self@.claimed[k] == *found,
                None => forall|k: u64|
                    self@.claimed.contains_key(k) ==> (#[trigger] self@.claimed[k]).account_id
                        != account_id,
            },
    {
        self.find_thread(&Selector::Account(account_id))
    }

    /// A claimed session of the user that `name` names, if there is one.
    /// Where `name` is a signed 32-bit integer in decimal, it names the user
    /// with that account id; else it names the users with that name, where
    /// the case of ASCII letters does not count.
    pub fn find_user(&self, name: &str) -> (r: Option<&Session>)
        ensures
            match r {
                Some(found) => user_selector(name).admits(*found) && exists|k: u64|
                    self@.claimed.contains_key(k) && #[trigger] self@.claimed[k] == *found,
                None => forall|k: u64|
                    self@.claimed.contains_key(k) ==> !user_selector(name).admits(
                        #[trigger] self@.claimed[k],
                    ),
            },
    {
        let selector = match parse_i32(name) {
            Some(account_id) => Selector::Account(account_id),
            None => Selector::Named(name),
        };
        self.find_thread(&selector)
    }

    /// Finds a claimed session of the user that `name` names, as `find_user`
    /// does, and lets `f` change its directory record, as `update_user`
    /// does. Fails, and changes nothing, where no claimed session is that
    /// user's.
    pub fn find_and_update_user<F: FnOnce(UserEntry) -> (bool, UserEntry)>(
        &mut self,
        name: &str,
        f: F,
    ) -> (r: Result<Option<UserEntry>, ServerError>)
        requires
            old(self).wf(),
            forall|e: UserEntry| call_requires(f, (e,)),
        ensures
            final(self).wf(),
            r is Err <==> forall|k: u64|
                old(self)@.claimed.contains_key(k) ==> !user_selector(name).admits(
                    #[trigger] old(self)@.claimed[k],
                ),
            r matches Err(e) ==> e == ServerError::UserNotFound && final(self)@ == old(self)@,
            r matches Ok(push) ==> exists|k: u64|
                {
                    let kept = final(self)@.claimed[k].user_entry;
                    &&& old(self)@.claimed.contains_key(k)
                    &&& user_selector(name).admits(#[trigger] old(self)@.claimed[k])
                    &&& call_ensures(f, (old(self)@.claimed[k].user_entry,), (push is Some, kept))
                    &&& push matches Some(sent) ==> sent == kept
                    &&& final(self)@ == (Registry {
                        claimed: old(self)@.claimed.insert(
                            k,
                            Session { user_entry: kept, ..old(self)@.claimed[k] },
                        ),
                        ..old(self)@
                    })
                },
    {
        let peer = match self.find_user(name) {
            Some(thread) => thread.udp_peer,
            None => {
                return Err(ServerError::UserNotFound);
            },
        };
        let ghost k = peer.spec_key();
        assert(old(self)@.claimed.contains_key(k) && user_selector(name).admits(
            old(self)@.claimed[k],
        ));
        match self.update_user(peer, f) {
            Ok(push) => Ok(push),
            Err(_) => Err(ServerError::UserNotFound),
        }
    }
}

} // verus!
