//! The records that a session holds of its player, and the projections of
//! them that are shown to other players.

use crate::cocos::Color3B;
use vstd::prelude::*;

verus! {

/// Identifies a level. Zero stands for "not on a level".
pub type LevelId = i64;

/// Level ids above this bound denote levels that are edited by several
/// players together.
pub const EDITORCOLLAB_LEVEL_BOUND: LevelId = 0x1_0000_0000;

pub open spec fn spec_is_editorcollab_level(level_id: LevelId) -> bool {
    level_id > EDITORCOLLAB_LEVEL_BOUND
}

/// Tells whether a level is one that several players edit together. Room
/// previews show no level for a player on such a level.
#[verifier::when_used_as_spec(spec_is_editorcollab_level)]
pub fn is_editorcollab_level(level_id: LevelId) -> (r: bool)
    ensures
        r == spec_is_editorcollab_level(level_id),
{
    level_id > EDITORCOLLAB_LEVEL_BOUND
}

/// The level that a room preview shows for a player on `level_id`.
pub open spec fn shown_level(level_id: LevelId) -> LevelId {
    if spec_is_editorcollab_level(level_id) {
        0
    } else {
        level_id
    }
}

/// The icons that a player has chosen.
#[derive(Clone, Copy, PartialEq, Eq, Structural, Debug)]
pub struct PlayerIconData {
    pub cube: i16,
    pub color1: i16,
    pub color2: i16,
    pub glow_color: i16,
}

/// What the server knows of an authenticated player.
#[derive(Debug)]
pub struct PlayerAccountData {
    pub account_id: i32,
    pub user_id: i32,
    pub name: String,
    pub icons: PlayerIconData,
    pub name_color: Option<Color3B>,
}

/// What a player list shows of a player.
#[derive(Debug)]
pub struct PlayerPreviewAccountData {
    pub account_id: i32,
    pub user_id: i32,
    pub name: String,
    pub icons: PlayerIconData,
}

/// What the player list of a room shows of a player.
#[derive(Debug)]
pub struct PlayerRoomPreviewAccountData {
    pub account_id: i32,
    pub user_id: i32,
    pub name: String,
    pub icons: PlayerIconData,
    pub level_id: LevelId,
    pub name_color: Option<Color3B>,
}

/// The record of a user that the central directory keeps.
#[derive(Debug)]
pub struct UserEntry {
    pub account_id: i32,
    pub user_name: String,
    pub user_role: i32,
    pub is_banned: bool,
    pub is_muted: bool,
    pub is_whitelisted: bool,
}

impl Clone for PlayerAccountData {
    fn clone(&self) -> (r: Self)
        ensures
            r == *self,
    {
        PlayerAccountData {
            account_id: self.account_id,
            user_id: self.user_id,
            name: self.name.clone(),
            icons: self.icons,
            name_color: self.name_color,
        }
    }
}

impl Clone for PlayerPreviewAccountData {
    fn clone(&self) -> (r: Self)
        ensures
            r == *self,
    {
        PlayerPreviewAccountData {
            account_id: self.account_id,
            user_id: self.user_id,
            name: self.name.clone(),
            icons: self.icons,
        }
    }
}

impl Clone for PlayerRoomPreviewAccountData {
    fn clone(&self) -> (r: Self)
        ensures
            r == *self,
    {
        PlayerRoomPreviewAccountData {
            account_id: self.account_id,
            user_id: self.user_id,
            name: self.name.clone(),
            icons: self.icons,
            level_id: self.level_id,
            name_color: self.name_color,
        }
    }
}

impl Clone for UserEntry {
    fn clone(&self) -> (r: Self)
        ensures
            r == *self,
    {
        UserEntry {
            account_id: self.account_id,
            user_name: self.user_name.clone(),
            user_role: self.user_role,
            is_banned: self.is_banned,
            is_muted: self.is_muted,
            is_whitelisted: self.is_whitelisted,
        }
    }
}

impl PlayerIconData {
    pub fn new() -> (r: Self)
        ensures
            r == (PlayerIconData { cube: 1, color1: 0, color2: 0, glow_color: 0 }),
    {
        PlayerIconData { cube: 1, color1: 0, color2: 0, glow_color: 0 }
    }
}

impl PlayerAccountData {
    /// The data of a player who has not authenticated: account id zero and
    /// an empty name.
    pub fn new() -> (r: Self)
        ensures
            r.account_id == 0,
            r.user_id == 0,
            r.name@ == Seq::<char>::empty(),
            r.icons == (PlayerIconData { cube: 1, color1: 0, color2: 0, glow_color: 0 }),
            r.name_color is None,
    {
        PlayerAccountData {
            account_id: 0,
            user_id: 0,
            name: String::new(),
            icons: PlayerIconData::new(),
            name_color: None,
        }
    }

    pub open spec fn preview(self) -> PlayerPreviewAccountData {
        PlayerPreviewAccountData {
            account_id: self.account_id,
            user_id: self.user_id,
            name: self.name,
            icons: self.icons,
        }
    }

    pub open spec fn room_preview(self, level_id: LevelId) -> PlayerRoomPreviewAccountData {
        PlayerRoomPreviewAccountData {
            account_id: self.account_id,
            user_id: self.user_id,
            name: self.name,
            icons: self.icons,
            level_id,
            name_color: self.name_color,
        }
    }

    /// What a player list shows of this player.
    pub fn make_preview(&self) -> (r: PlayerPreviewAccountData)
        ensures
            r == self.preview(),
    {
        PlayerPreviewAccountData {
            account_id: self.account_id,
            user_id: self.user_id,
            name: self.name.clone(),
            icons: self.icons,
        }
    }

    /// What the player list of a room shows of this player, who is on
    /// `level_id`.
    pub fn make_room_preview(&self, level_id: LevelId) -> (r: PlayerRoomPreviewAccountData)
        ensures
            r == self.room_preview(level_id),
    {
        PlayerRoomPreviewAccountData {
            account_id: self.account_id,
            user_id: self.user_id,
            name: self.name.clone(),
            icons: self.icons,
            level_id,
            name_color: self.name_color,
        }
    }
}

impl UserEntry {
    /// The entry of a user of whom nothing is known but the account id.
    pub fn new(account_id: i32) -> (r: Self)
        ensures
            r.account_id == account_id,
            r.user_name@ == Seq::<char>::empty(),
            r.user_role == 0,
            !r.is_banned,
            !r.is_muted,
            !r.is_whitelisted,
    {
        UserEntry {
            account_id,
            user_name: String::new(),
            user_role: 0,
            is_banned: false,
            is_muted: false,
            is_whitelisted: false,
        }
    }
}

} // verus!
