use game_server::data::{
    is_editorcollab_level, PlayerAccountData, PlayerPreviewAccountData,
    PlayerRoomPreviewAccountData, UserEntry,
};
use game_server::error::ServerError;
use game_server::fold::fold_count;
use game_server::message::RoomListingInfo;
use game_server::server::GameServer;
use game_server::session::{PeerAddr, Session, SocketPeer};

fn peer_of(port: u16) -> PeerAddr {
    PeerAddr::from_octets(172, 16, 0, 2, port)
}

fn player(
    server: &mut GameServer,
    port: u16,
    account_id: i32,
    name: &str,
    room_id: u32,
    level_id: i64,
    invisible: bool,
) -> u64 {
    let secret = u32::from(port);
    let id = server
        .accept_connection(SocketPeer::V4(PeerAddr::from_octets(172, 16, 0, 1, port)), secret)
        .unwrap();
    assert!(server.claim_thread(peer_of(port), secret).0);
    let mut data = PlayerAccountData::new();
    data.account_id = account_id;
    data.user_id = account_id * 2;
    data.name = name.to_string();
    data.icons.cube = 3;
    server.authenticate(peer_of(port), data, UserEntry::new(account_id)).unwrap();
    assert!(server.update_presence(peer_of(port), room_id, level_id, invisible));
    id
}

fn lobby() -> GameServer {
    let mut server = GameServer::new(false);
    player(&mut server, 1, 42, "bob", 0, 0, false);
    player(&mut server, 2, 7, "alice42", 0, 11, true);
    player(&mut server, 3, 8, "Carol", 5, 0x1_0000_0001, false);
    player(&mut server, 4, 9, "dave", 5, 0x1_0000_0000, true);
    server
        .accept_connection(SocketPeer::V4(PeerAddr::from_octets(172, 16, 0, 1, 5)), 5)
        .unwrap();
    assert!(server.claim_thread(peer_of(5), 5).0);
    server
}

fn ids(previews: &[PlayerPreviewAccountData]) -> Vec<i32> {
    let mut ids: Vec<i32> = previews.iter().map(|p| p.account_id).collect();
    ids.sort();
    ids
}

fn room_ids(previews: &[PlayerRoomPreviewAccountData]) -> Vec<(i32, i64)> {
    let mut ids: Vec<(i32, i64)> = previews.iter().map(|p| (p.account_id, p.level_id)).collect();
    ids.sort();
    ids
}

#[test]
fn find_user_by_account_id() {
    let server = lobby();
    let found = server.find_user("42").unwrap();
    assert_eq!(found.account_id, 42);
    assert_eq!(found.account_data.name, "bob");
    assert_eq!(server.find_user("+42").unwrap().account_id, 42);
    assert_eq!(server.find_user("0042").unwrap().account_id, 42);
    assert!(server.find_user("43").is_none());
    assert!(server.find_user("-42").is_none());
    assert_eq!(server.find_user("0").unwrap().account_id, 0);
    assert_eq!(server.find_user("-0").unwrap().account_id, 0);
}

#[test]
fn find_user_by_name() {
    let server = lobby();
    let found = server.find_user("alice42").unwrap();
    assert_eq!(found.account_id, 7);
    assert_eq!(server.find_user("ALICE42").unwrap().account_id, 7);
    assert_eq!(server.find_user("AlIcE42").unwrap().account_id, 7);
    assert_eq!(server.find_user("carol").unwrap().account_id, 8);
    assert!(server.find_user("alice").is_none());
    assert!(server.find_user("alice421").is_none());
    assert!(server.find_user(" 42").is_none());
    assert!(server.find_user("42 ").is_none());
    assert!(server.find_user("4_2").is_none());
    assert!(server.find_user("+").is_none());
    assert!(server.find_user("-").is_none());
}

#[test]
fn a_number_that_does_not_fit_is_a_name() {
    let mut server = GameServer::new(false);
    player(&mut server, 1, 5, "2147483648", 0, 0, false);
    player(&mut server, 2, i32::MAX, "max", 0, 0, false);
    player(&mut server, 3, i32::MIN, "min", 0, 0, false);
    assert_eq!(server.find_user("2147483648").unwrap().account_id, 5);
    assert_eq!(server.find_user("2147483647").unwrap().account_id, i32::MAX);
    assert_eq!(server.find_user("-2147483648").unwrap().account_id, i32::MIN);
    assert!(server.find_user("-2147483649").is_none());
}

#[test]
fn an_empty_name_names_the_unnamed() {
    let server = lobby();
    let found: &Session = server.find_user("").unwrap();
    assert_eq!(found.account_id, 0);
    assert_eq!(found.udp_peer, peer_of(5));
}

#[test]
fn get_user_by_id_finds_the_session() {
    let server = lobby();
    assert_eq!(server.get_user_by_id(8).unwrap().udp_peer, peer_of(3));
    assert_eq!(server.get_user_by_id(0).unwrap().udp_peer, peer_of(5));
    assert!(server.get_user_by_id(1000).is_none());
}

#[test]
fn account_data_and_preview_by_id() {
    let server = lobby();
    let data = server.get_player_account_data(7).unwrap();
    assert_eq!(data.account_id, 7);
    assert_eq!(data.user_id, 14);
    assert_eq!(data.name, "alice42");
    assert_eq!(data.icons.cube, 3);
    let preview = server.get_player_preview_data(7).unwrap();
    assert_eq!(preview.account_id, 7);
    assert_eq!(preview.user_id, 14);
    assert_eq!(preview.name, "alice42");
    assert_eq!(preview.icons.cube, 3);
    assert!(server.get_player_account_data(1000).is_none());
    assert!(server.get_player_preview_data(1000).is_none());
}

#[test]
fn previews_for_inviting_are_the_authenticated_players() {
    let server = lobby();
    assert_eq!(ids(&server.get_player_previews_for_inviting()), vec![7, 8, 9, 42]);
    assert!(GameServer::new(true).get_player_previews_for_inviting().is_empty());
}

#[test]
fn previews_in_room() {
    let server = lobby();
    assert_eq!(ids(&server.get_player_previews_in_room(0)), vec![7, 42]);
    assert_eq!(ids(&server.get_player_previews_in_room(5)), vec![8, 9]);
    assert!(server.get_player_previews_in_room(6).is_empty());
}

#[test]
fn room_previews_hide_shared_editor_levels() {
    let server = lobby();
    assert_eq!(room_ids(&server.get_room_player_previews(5)), vec![(8, 0), (9, 0x1_0000_0000)]);
    assert_eq!(room_ids(&server.get_room_player_previews(0)), vec![(7, 11), (42, 0)]);
    assert!(is_editorcollab_level(0x1_0000_0001));
    assert!(!is_editorcollab_level(0x1_0000_0000));
    assert!(!is_editorcollab_level(0));
    assert!(!is_editorcollab_level(-1));
}

#[test]
fn visible_previews_leave_invisible_players_out_of_the_global_room() {
    let server = lobby();
    assert_eq!(room_ids(&server.get_visible_room_player_previews(0)), vec![(42, 0)]);
    assert_eq!(
        room_ids(&server.get_visible_room_player_previews(5)),
        vec![(8, 0), (9, 0x1_0000_0000)]
    );
    assert!(server.get_visible_room_player_previews(6).is_empty());
}

#[test]
fn visitors_count_what_they_accept() {
    let server = lobby();
    let (count, seen) = server.for_every_player_preview(
        |p: &PlayerPreviewAccountData, n: usize, mut seen: Vec<(i32, usize)>| {
            let accept = p.account_id != 8;
            seen.push((p.account_id, n));
            (accept, seen)
        },
        Vec::new(),
    );
    assert_eq!(count, 3);
    assert_eq!(seen.len(), 4);
    let mut accepted_before = 0;
    for (account_id, n) in &seen {
        assert_eq!(*n, accepted_before);
        if *account_id != 8 {
            accepted_before += 1;
        }
    }
    let mut all: Vec<i32> = seen.iter().map(|s| s.0).collect();
    all.sort();
    assert_eq!(all, vec![7, 8, 9, 42]);
}

#[test]
fn visitors_of_rooms_and_lists() {
    let server = lobby();
    let (count, sum) = server.for_every_player_preview_in_room(
        5,
        |p: &PlayerPreviewAccountData, _n: usize, sum: i32| (true, sum + p.account_id),
        0,
    );
    assert_eq!((count, sum), (2, 17));
    let (count, levels) = server.for_every_room_player_preview(
        5,
        |p: &PlayerRoomPreviewAccountData, _n: usize, mut levels: Vec<i64>| {
            levels.push(p.level_id);
            (p.level_id == 0, levels)
        },
        Vec::new(),
    );
    assert_eq!(count, 1);
    let mut levels = levels;
    levels.sort();
    assert_eq!(levels, vec![0, 0x1_0000_0000]);
    let (count, names) = server.for_every_visible_room_player_preview(
        0,
        |p: &PlayerRoomPreviewAccountData, _n: usize, mut names: Vec<String>| {
            names.push(p.name.clone());
            (true, names)
        },
        Vec::new(),
    );
    assert_eq!(count, 1);
    assert_eq!(names, vec!["bob".to_string()]);
    let (count, names) = server.for_each_player(
        &[9, 7, 1000],
        |p: &PlayerAccountData, _n: usize, mut names: Vec<String>| {
            names.push(p.name.clone());
            (false, names)
        },
        Vec::new(),
    );
    assert_eq!(count, 0);
    let mut names = names;
    names.sort();
    assert_eq!(names, vec!["alice42".to_string(), "dave".to_string()]);
}

#[test]
fn public_rooms_are_visited_in_order() {
    let server = GameServer::new(true);
    let rooms = vec![
        RoomListingInfo { id: 3, owner: 1, name: "a".to_string(), player_count: 2 },
        RoomListingInfo { id: 4, owner: 2, name: "b".to_string(), player_count: 0 },
        RoomListingInfo { id: 5, owner: 3, name: "c".to_string(), player_count: 9 },
    ];
    let (count, seen) = server.for_every_public_room(
        &rooms,
        |room: &RoomListingInfo, n: usize, mut seen: Vec<(u32, usize)>| {
            seen.push((room.id, n));
            (room.player_count > 0, seen)
        },
        Vec::new(),
    );
    assert_eq!(count, 2);
    assert_eq!(seen, vec![(3, 0), (4, 1), (5, 1)]);
}

#[test]
fn fold_count_threads_the_accumulator() {
    let items = vec![5, 6, 7, 8];
    let (count, trace) = fold_count(
        &items,
        &|x: &i32, n: usize, mut trace: Vec<(i32, usize)>| {
            trace.push((*x, n));
            (*x % 2 == 0, trace)
        },
        Vec::new(),
    );
    assert_eq!(count, 2);
    assert_eq!(trace, vec![(5, 0), (6, 0), (7, 1), (8, 1)]);
    let empty: Vec<i32> = Vec::new();
    let (count, acc) = fold_count(&empty, &|_x: &i32, _n: usize, acc: u8| (true, acc + 1), 3u8);
    assert_eq!((count, acc), (0, 3));
}

#[test]
fn update_user_hands_back_what_is_to_be_sent() {
    let mut server = lobby();
    let sent = server
        .update_user(peer_of(1), |mut entry: UserEntry| {
            entry.is_muted = true;
            entry.user_role = 3;
            (true, entry)
        })
        .unwrap()
        .unwrap();
    assert!(sent.is_muted);
    assert_eq!(sent.user_role, 3);
    assert_eq!(sent.account_id, 42);
    let kept = &server.get_thread(peer_of(1).key()).unwrap().user_entry;
    assert!(kept.is_muted);
    assert_eq!(kept.user_role, 3);
    let sent = server
        .update_user(peer_of(1), |mut entry: UserEntry| {
            entry.is_banned = true;
            (false, entry)
        })
        .unwrap();
    assert!(sent.is_none());
    assert!(server.get_thread(peer_of(1).key()).unwrap().user_entry.is_banned);
    assert_eq!(server.player_count(), 4);
    let r = server.update_user(peer_of(99), |entry: UserEntry| (true, entry));
    assert_eq!(r.err(), Some(ServerError::NotClaimed));
}

#[test]
fn find_and_update_user_by_name_or_id() {
    let mut server = lobby();
    let sent = server
        .find_and_update_user("ALICE42", |mut entry: UserEntry| {
            entry.is_whitelisted = true;
            (true, entry)
        })
        .unwrap()
        .unwrap();
    assert_eq!(sent.account_id, 7);
    assert!(sent.is_whitelisted);
    assert!(server.get_thread(peer_of(2).key()).unwrap().user_entry.is_whitelisted);
    let sent = server
        .find_and_update_user("42", |mut entry: UserEntry| {
            entry.user_name = "robert".to_string();
            (true, entry)
        })
        .unwrap()
        .unwrap();
    assert_eq!(sent.account_id, 42);
    assert_eq!(sent.user_name, "robert");
    let r = server.find_and_update_user("nobody", |entry: UserEntry| (true, entry));
    assert_eq!(r.err(), Some(ServerError::UserNotFound));
    assert_eq!(ServerError::UserNotFound.message(), "failed to find the user");
}
