use game_server::bytebuffer::{ByteBuffer, ByteReader, DecodeError};
use game_server::cocos::{Color3B, Color4B};
use game_server::error::ServerError;
use game_server::lifecycle::{
    accept_failure_backoff, StartupPlan, ACCEPT_BACKOFF_MILLIS, BOOTDATA_REFRESH_SECS,
    ROLE_REFRESH_SECS,
};
use game_server::message::INLINE_BUFFER_SIZE;
use game_server::packets::{
    parse_datagram, ClaimThreadPacket, Datagram, PacketHeader, PingPacket, PingResponsePacket,
    CLAIM_THREAD_PACKET_ID, PACKET_HEADER_SIZE, PING_PACKET_ID, PING_RESPONSE_ENCODED_SIZE,
    PING_RESPONSE_PACKET_ID,
};
use game_server::server::GameServer;
use game_server::session::{PeerAddr, SocketPeer};

#[test]
fn color3b_round_trip() {
    let c = Color3B { r: 1, g: 200, b: 255 };
    let mut buf = ByteBuffer::new();
    buf.write_u8(9);
    c.encode(&mut buf);
    let bytes = buf.into_bytes();
    assert_eq!(bytes, vec![9, 1, 200, 255]);
    let mut reader = ByteReader::from_bytes(&bytes[1..]);
    assert_eq!(Color3B::decode(&mut reader), Ok(c));
    assert!(reader.data.is_empty());
}

#[test]
fn color4b_round_trip() {
    let c = Color4B { r: 1, g: 2, b: 3, a: 4 };
    let mut buf = ByteBuffer::new();
    c.encode(&mut buf);
    let bytes = buf.into_bytes();
    assert_eq!(bytes, vec![1, 2, 3, 4]);
    let mut data = bytes.clone();
    data.push(77);
    let mut reader = ByteReader::from_bytes(&data);
    assert_eq!(Color4B::decode(&mut reader), Ok(c));
    assert_eq!(reader.data, &[77]);
}

#[test]
fn colors_need_all_their_bytes() {
    let mut reader = ByteReader::from_bytes(&[1, 2]);
    assert_eq!(Color3B::decode(&mut reader), Err(DecodeError::NotEnoughData));
    let mut reader = ByteReader::from_bytes(&[1, 2, 3]);
    assert_eq!(Color4B::decode(&mut reader), Err(DecodeError::NotEnoughData));
    let mut reader = ByteReader::from_bytes(&[]);
    assert_eq!(Color3B::decode(&mut reader), Err(DecodeError::NotEnoughData));
}

#[test]
fn default_colors_are_black() {
    assert_eq!(Color3B::default(), Color3B { r: 0, g: 0, b: 0 });
    assert_eq!(Color4B::default(), Color4B { r: 0, g: 0, b: 0, a: 0 });
}

#[test]
fn integers_are_big_endian() {
    let mut buf = ByteBuffer::new();
    buf.write_u16(0x1234);
    buf.write_u32(0xDEAD_BEEF);
    buf.write_bool(true);
    buf.write_bool(false);
    buf.write_u32(1);
    buf.write_u16(u16::MAX);
    let bytes = buf.into_bytes();
    assert_eq!(
        bytes,
        vec![0x12, 0x34, 0xDE, 0xAD, 0xBE, 0xEF, 1, 0, 0, 0, 0, 1, 0xFF, 0xFF]
    );
    let mut reader = ByteReader::from_bytes(&bytes);
    assert_eq!(reader.read_u16(), Ok(0x1234));
    assert_eq!(reader.read_u32(), Ok(0xDEAD_BEEF));
    assert_eq!(reader.read_bool(), Ok(true));
    assert_eq!(reader.read_bool(), Ok(false));
    assert_eq!(reader.read_u32(), Ok(1));
    assert_eq!(reader.read_u16(), Ok(u16::MAX));
    assert_eq!(reader.read_u8(), Err(DecodeError::NotEnoughData));
}

#[test]
fn a_failed_read_leaves_the_cursor() {
    let mut reader = ByteReader::from_bytes(&[1, 2, 3]);
    assert_eq!(reader.read_u32(), Err(DecodeError::NotEnoughData));
    assert_eq!(reader.data, &[1, 2, 3]);
    assert_eq!(reader.read_u16(), Ok(0x0102));
    assert_eq!(reader.read_u16(), Err(DecodeError::NotEnoughData));
    assert_eq!(reader.read_bool(), Ok(true));
    assert_eq!(reader.read_bool(), Err(DecodeError::NotEnoughData));
}

#[test]
fn headers_and_packets_round_trip() {
    let header = PacketHeader { packet_id: 12345, encrypted: true };
    let mut buf = ByteBuffer::new();
    header.encode(&mut buf);
    (PingPacket { id: 0x0A0B_0C0D }).encode(&mut buf);
    (ClaimThreadPacket { secret_key: 7 }).encode(&mut buf);
    (PingResponsePacket { id: 1, player_count: 2 }).encode(&mut buf);
    let bytes = buf.into_bytes();
    assert_eq!(
        bytes,
        vec![0x30, 0x39, 1, 0x0A, 0x0B, 0x0C, 0x0D, 0, 0, 0, 7, 0, 0, 0, 1, 0, 0, 0, 2]
    );
    let mut reader = ByteReader::from_bytes(&bytes);
    assert_eq!(PacketHeader::decode(&mut reader), Ok(header));
    assert_eq!(PingPacket::decode(&mut reader), Ok(PingPacket { id: 0x0A0B_0C0D }));
    assert_eq!(ClaimThreadPacket::decode(&mut reader), Ok(ClaimThreadPacket { secret_key: 7 }));
    assert_eq!(
        PingResponsePacket::decode(&mut reader),
        Ok(PingResponsePacket { id: 1, player_count: 2 })
    );
    assert_eq!(PingResponsePacket::decode(&mut reader), Err(DecodeError::NotEnoughData));
    assert_eq!(PacketHeader::decode(&mut reader), Err(DecodeError::NotEnoughData));
}

#[test]
fn probe_response_datagram() {
    let bytes = (PingResponsePacket { id: 0x41, player_count: 7 }).to_datagram();
    assert_eq!(bytes, vec![0x4E, 0x20, 0, 0, 0, 0, 0x41, 0, 0, 0, 7]);
    assert_eq!(bytes.len(), PACKET_HEADER_SIZE + PING_RESPONSE_ENCODED_SIZE);
    assert_eq!(PING_RESPONSE_PACKET_ID, 20000);
}

#[test]
fn datagrams_are_classified_by_packet_id() {
    assert_eq!(PING_PACKET_ID, 10000);
    assert_eq!(CLAIM_THREAD_PACKET_ID, 10005);
    assert_eq!(parse_datagram(&[0x27, 0x10, 0, 0, 0, 0, 5]), Datagram::Ping(PingPacket { id: 5 }));
    assert_eq!(
        parse_datagram(&[0x27, 0x10, 1, 0, 0, 1, 5, 99]),
        Datagram::Ping(PingPacket { id: 261 })
    );
    assert_eq!(
        parse_datagram(&[0x27, 0x15, 0, 0xDE, 0xAD, 0xBE, 0xEF]),
        Datagram::Claim(ClaimThreadPacket { secret_key: 0xDEAD_BEEF })
    );
    assert_eq!(parse_datagram(&[0x27, 0x11, 0]), Datagram::Other);
    assert_eq!(parse_datagram(&[0, 0, 0]), Datagram::Other);
    assert_eq!(parse_datagram(&[0x27, 0x10]), Datagram::Malformed);
    assert_eq!(parse_datagram(&[0x27, 0x10, 0, 1, 2, 3]), Datagram::Malformed);
    assert_eq!(parse_datagram(&[0x27, 0x15, 0]), Datagram::Malformed);
    assert_eq!(parse_datagram(&[]), Datagram::Malformed);
}

#[test]
fn accept_backs_off_when_descriptors_run_out() {
    assert_eq!(accept_failure_backoff("Too many open files (os error 24)"), Some(250));
    assert_eq!(accept_failure_backoff("accept: Too many open files"), Some(ACCEPT_BACKOFF_MILLIS));
    assert_eq!(accept_failure_backoff("Too many open files"), Some(250));
    assert_eq!(accept_failure_backoff("too many open files"), None);
    assert_eq!(accept_failure_backoff("Too many open file"), None);
    assert_eq!(accept_failure_backoff("Connection reset by peer (os error 104)"), None);
    assert_eq!(accept_failure_backoff(""), None);
}

#[test]
fn startup_plan_follows_the_configuration() {
    let central = GameServer::new(false);
    assert_eq!(
        central.startup_plan(30),
        StartupPlan {
            bootdata_refresh_secs: Some(300),
            role_refresh_secs: Some(1800),
            status_print_secs: Some(30),
        }
    );
    assert_eq!(central.startup_plan(0).status_print_secs, None);
    let standalone = GameServer::new(true);
    assert_eq!(
        standalone.startup_plan(u32::MAX),
        StartupPlan {
            bootdata_refresh_secs: None,
            role_refresh_secs: None,
            status_print_secs: Some(4294967295),
        }
    );
    assert_eq!(BOOTDATA_REFRESH_SECS, 300);
    assert_eq!(ROLE_REFRESH_SECS, 1800);
    assert_eq!(INLINE_BUFFER_SIZE, 164);
}

#[test]
fn server_status_reports_the_counts() {
    let mut server = GameServer::new(false);
    server.accept_connection(SocketPeer::V4(PeerAddr::from_octets(1, 2, 3, 4, 5)), 1).unwrap();
    server.accept_connection(SocketPeer::V4(PeerAddr::from_octets(1, 2, 3, 4, 6)), 2).unwrap();
    server.claim_thread(PeerAddr::from_octets(1, 2, 3, 4, 7), 2);
    let status = server.server_status(4, 12);
    assert_eq!(status.player_count, 0);
    assert_eq!(status.threads, 1);
    assert_eq!(status.unclaimed, 1);
    assert_eq!(status.rooms, 4);
    assert_eq!(status.global_room_players, 12);
}

#[test]
fn every_error_has_its_text() {
    assert_eq!(ServerError::UnsupportedFamily.message(), "rejecting request from ipv6 host");
    assert_eq!(
        ServerError::Decode(DecodeError::NotEnoughData).message(),
        "failed to decode the packet"
    );
    assert_eq!(ServerError::NotClaimed.message(), "no session is claimed by this peer");
    assert_eq!(ServerError::RefreshFailure.message(), "failed to refresh the configuration");
    assert_eq!(ServerError::RemoteUpdateFailure.message(), "failed to update the user");
}
