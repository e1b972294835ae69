use game_server::broadcast::{eviction_outcome, room_info_due, EVICTION_TIMEOUT_SECS};
use game_server::data::{PlayerAccountData, UserEntry};
use game_server::error::ServerError;
use game_server::message::{
    ChatMessageBroadcastPacket, RoomInfo, ServerThreadMessage, VoiceBroadcastPacket,
};
use game_server::select::{contains_account, Selector};
use game_server::server::{Cleanup, GameServer};
use game_server::session::{PeerAddr, SocketPeer};
use std::sync::Arc;

fn peer_of(port: u16) -> PeerAddr {
    PeerAddr::from_octets(192, 168, 1, 2, port)
}

/// A claimed session with the account `account_id` in `room_id`, claimed by
/// the datagram peer on `port`.
fn player(server: &mut GameServer, port: u16, account_id: i32, room_id: u32, invisible: bool) -> u64 {
    let secret = u32::from(port);
    let id = server
        .accept_connection(SocketPeer::V4(PeerAddr::from_octets(192, 168, 1, 1, port)), secret)
        .unwrap();
    assert!(server.claim_thread(peer_of(port), secret).0);
    if account_id != 0 {
        let mut data = PlayerAccountData::new();
        data.account_id = account_id;
        data.name = format!("player{account_id}");
        server.authenticate(peer_of(port), data, UserEntry::new(account_id)).unwrap();
    }
    assert!(server.update_presence(peer_of(port), room_id, 0, invisible));
    id
}

fn sorted(mut keys: Vec<u64>) -> Vec<u64> {
    keys.sort();
    keys
}

fn keys_of(ports: &[u16]) -> Vec<u64> {
    sorted(ports.iter().map(|p| peer_of(*p).key()).collect())
}

#[test]
fn room_message_skips_the_origin() {
    let mut server = GameServer::new(false);
    player(&mut server, 1, 10, 5, false);
    player(&mut server, 2, 20, 5, false);
    player(&mut server, 3, 30, 5, true);
    player(&mut server, 4, 40, 6, false);
    player(&mut server, 5, 0, 5, false);
    let b = server.broadcast_room_message(ServerThreadMessage::termination("x"), 20, 5);
    assert_eq!(sorted(b.targets), keys_of(&[1, 3]));
    match b.message {
        ServerThreadMessage::TerminationNotice(text) => assert_eq!(text, "x"),
        _ => panic!("the message is handed on as it is"),
    }
    let b = server.broadcast_room_message(ServerThreadMessage::termination("x"), 0, 5);
    assert_eq!(sorted(b.targets), keys_of(&[1, 2, 3]));
    let b = server.broadcast_room_message(ServerThreadMessage::termination("x"), 40, 6);
    assert!(b.targets.is_empty());
    let b = server.broadcast_room_message(ServerThreadMessage::termination("x"), 1, 77);
    assert!(b.targets.is_empty());
}

#[test]
fn voice_goes_to_the_level_without_the_speaker() {
    let mut server = GameServer::new(false);
    player(&mut server, 1, 10, 5, false);
    player(&mut server, 2, 20, 5, false);
    player(&mut server, 3, 30, 5, false);
    player(&mut server, 4, 0, 5, false);
    let packet = Arc::new(VoiceBroadcastPacket { player_id: 10, data: vec![1, 2, 3] });
    let on_level = [10, 20, 99, 0];
    let b = server.broadcast_voice_packet(packet.clone(), Some(&on_level));
    assert_eq!(sorted(b.targets), keys_of(&[2]));
    match b.message {
        ServerThreadMessage::BroadcastVoice(p) => {
            assert!(Arc::ptr_eq(&p, &packet));
            assert_eq!(p.data, vec![1, 2, 3]);
        }
        _ => panic!("a voice packet is broadcast as voice"),
    }
    let b = server.broadcast_voice_packet(packet, None);
    assert!(b.targets.is_empty());
}

#[test]
fn chat_goes_to_the_level_without_the_writer() {
    let mut server = GameServer::new(false);
    player(&mut server, 1, 10, 0, false);
    player(&mut server, 2, 20, 0, false);
    player(&mut server, 3, 30, 0, false);
    let on_level = [30, 20, 10];
    let packet = ChatMessageBroadcastPacket { player_id: 30, message: "hi".to_string() };
    let b = server.broadcast_chat_packet(packet, Some(&on_level));
    assert_eq!(sorted(b.targets), keys_of(&[1, 2]));
    match b.message {
        ServerThreadMessage::BroadcastText(p) => {
            assert_eq!(p.player_id, 30);
            assert_eq!(p.message, "hi");
        }
        _ => panic!("a chat packet is broadcast as text"),
    }
    let b = server.broadcast_user_message(ServerThreadMessage::termination("x"), 5, Some(&[]));
    assert!(b.targets.is_empty());
}

#[test]
fn room_info_is_not_broadcast_in_the_global_room() {
    let mut server = GameServer::new(false);
    player(&mut server, 1, 10, 0, false);
    player(&mut server, 2, 20, 5, false);
    let info = RoomInfo { id: 0, owner: 10, name: "global".to_string() };
    assert!(server.broadcast_room_info(0, Some(info)).is_none());
    assert!(server.broadcast_room_info(5, None).is_none());
    assert!(server.broadcast_room_info(0, None).is_none());
    let info = RoomInfo { id: 5, owner: 20, name: "five".to_string() };
    let b = server.broadcast_room_info(5, Some(info)).unwrap();
    assert_eq!(sorted(b.targets), keys_of(&[2]));
    match b.message {
        ServerThreadMessage::BroadcastRoomInfo(pkt) => {
            assert_eq!(pkt.info.id, 5);
            assert_eq!(pkt.info.owner, 20);
            assert_eq!(pkt.info.name, "five");
        }
        _ => panic!("room info is broadcast as room info"),
    }
}

#[test]
fn room_owner_exit() {
    let mut server = GameServer::new(false);
    let owner = player(&mut server, 1, 9, 5, false);
    player(&mut server, 2, 20, 5, false);
    player(&mut server, 3, 30, 5, false);
    player(&mut server, 4, 40, 0, false);
    let cleanup = server.post_disconnect_cleanup(owner);
    assert_eq!(cleanup, Cleanup::Player { account_id: 9, room_id: 5, level_id: 0 });
    assert_eq!(server.player_count(), 3);
    assert!(room_info_due(true, 5));
    let info = RoomInfo { id: 5, owner: 20, name: "five".to_string() };
    let b = server.broadcast_room_info(5, Some(info)).unwrap();
    assert_eq!(sorted(b.targets), keys_of(&[2, 3]));
    match b.message {
        ServerThreadMessage::BroadcastRoomInfo(pkt) => assert_eq!(pkt.info.owner, 20),
        _ => panic!("room info is broadcast as room info"),
    }
}

#[test]
fn room_info_is_due_only_after_an_owner_left_a_room() {
    assert!(room_info_due(true, 1));
    assert!(!room_info_due(true, 0));
    assert!(!room_info_due(false, 1));
    assert!(!room_info_due(false, 0));
}

#[test]
fn maintenance_sweep() {
    let mut server = GameServer::new(false);
    player(&mut server, 1, 10, 0, false);
    player(&mut server, 2, 0, 0, false);
    player(&mut server, 3, 30, 7, false);
    server
        .accept_connection(SocketPeer::V4(PeerAddr::from_octets(192, 168, 1, 1, 9)), 9)
        .unwrap();
    let sweep = server.refresh_bootdata(true, true).unwrap().unwrap();
    assert_eq!(sorted(sweep.targets), keys_of(&[1, 2, 3]));
    match sweep.message {
        ServerThreadMessage::TerminationNotice(text) => assert_eq!(
            text,
            "The server is now under maintenance, please try connecting again later"
        ),
        _ => panic!("maintenance ends the sessions"),
    }
    assert_eq!(server.thread_count(), 3);
    assert_eq!(server.unclaimed_count(), 1);
    assert_eq!(server.player_count(), 2);
    assert!(server.refresh_bootdata(true, false).unwrap().is_none());
    assert_eq!(server.refresh_bootdata(false, true).err(), Some(ServerError::RefreshFailure));
    assert_eq!(server.refresh_bootdata(false, false).err(), Some(ServerError::RefreshFailure));
}

#[test]
fn duplicate_login() {
    let mut server = GameServer::new(false);
    let s1 = player(&mut server, 1, 1234, 3, false);
    player(&mut server, 2, 77, 3, false);
    assert!(server.check_already_logged_in(4321).is_none());
    let notice = server.check_already_logged_in(1234).unwrap();
    assert_eq!(notice.targets, vec![peer_of(1).key()]);
    match notice.message {
        ServerThreadMessage::TerminationNotice(text) => {
            assert_eq!(text, "Someone logged into the same account from a different place.")
        }
        _ => panic!("the session is told to end"),
    }
    assert_eq!(
        server.post_disconnect_cleanup(s1),
        Cleanup::Player { account_id: 1234, room_id: 3, level_id: 0 }
    );
    assert_eq!(eviction_outcome(true), Ok(()));
    assert!(server.check_already_logged_in(1234).is_none());
    assert_eq!(server.player_count(), 1);
    assert_eq!(eviction_outcome(false), Err(ServerError::EvictionTimeout));
    assert_eq!(
        ServerError::EvictionTimeout.message(),
        "timed out waiting for the thread to disconnect"
    );
    assert_eq!(EVICTION_TIMEOUT_SECS, 10);
}

#[test]
fn selectors_filter_sessions() {
    let mut server = GameServer::new(false);
    player(&mut server, 1, 10, 0, false);
    player(&mut server, 2, 20, 0, true);
    player(&mut server, 3, 30, 4, true);
    player(&mut server, 4, 0, 0, false);
    assert_eq!(sorted(server.select(&Selector::All)), keys_of(&[1, 2, 3, 4]));
    assert_eq!(sorted(server.select(&Selector::Authenticated)), keys_of(&[1, 2, 3]));
    assert_eq!(sorted(server.select(&Selector::InRoom(0))), keys_of(&[1, 2]));
    assert_eq!(sorted(server.select(&Selector::VisibleInRoom(0))), keys_of(&[1]));
    assert_eq!(sorted(server.select(&Selector::VisibleInRoom(4))), keys_of(&[3]));
    assert_eq!(sorted(server.select(&Selector::InRoom(4))), keys_of(&[3]));
    assert_eq!(sorted(server.select(&Selector::Accounts(&[30, 10, 5]))), keys_of(&[1, 3]));
    assert_eq!(sorted(server.select(&Selector::Account(0))), keys_of(&[4]));
    assert_eq!(sorted(server.select(&Selector::Named("PLAYER20"))), keys_of(&[2]));
    assert!(server.select(&Selector::Named("player2")).is_empty());
    assert!(Selector::Authenticated.test(server.get_thread(peer_of(1).key()).unwrap()));
    assert!(!Selector::Authenticated.test(server.get_thread(peer_of(4).key()).unwrap()));
}

#[test]
fn contains_account_searches_the_slice() {
    assert!(contains_account(&[1, 2, 3], 3));
    assert!(contains_account(&[1, 2, 3], 1));
    assert!(!contains_account(&[1, 2, 3], 4));
    assert!(!contains_account(&[], 0));
}

#[test]
fn a_copied_message_carries_the_same_payload() {
    let voice = Arc::new(VoiceBroadcastPacket { player_id: 3, data: vec![9, 8] });
    match ServerThreadMessage::BroadcastVoice(voice.clone()).clone() {
        ServerThreadMessage::BroadcastVoice(copy) => assert!(Arc::ptr_eq(&copy, &voice)),
        _ => panic!("a copy is of the same kind"),
    }
    match ServerThreadMessage::Packet(vec![1, 2, 3]).clone() {
        ServerThreadMessage::Packet(bytes) => assert_eq!(bytes, vec![1, 2, 3]),
        _ => panic!("a copy is of the same kind"),
    }
    match ServerThreadMessage::from_datagram(&[4, 5]).clone() {
        ServerThreadMessage::SmallPacket((buf, len)) => assert_eq!(&buf[..len], &[4, 5]),
        _ => panic!("a copy is of the same kind"),
    }
    match ServerThreadMessage::termination("bye").clone() {
        ServerThreadMessage::TerminationNotice(text) => assert_eq!(text, "bye"),
        _ => panic!("a copy is of the same kind"),
    }
    let chat = ChatMessageBroadcastPacket { player_id: 1, message: "yo".to_string() };
    match ServerThreadMessage::BroadcastText(chat).clone() {
        ServerThreadMessage::BroadcastText(copy) => {
            assert_eq!(copy.player_id, 1);
            assert_eq!(copy.message, "yo");
        }
        _ => panic!("a copy is of the same kind"),
    }
    let info = RoomInfo { id: 2, owner: 3, name: "r".to_string() };
    let copy = info.clone();
    assert_eq!((copy.id, copy.owner, copy.name.as_str()), (2, 3, "r"));
}
