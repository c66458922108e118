use lfbot::json::{Json, Num};
use lfbot::packet::{
    Bracket, ClientAuthorize, Dm, Either, Handling, Initial, Message, Packet, Room, ServerAuthorize,
    ServerSocialDm, Signature, User,
};
use lfbot::ribbon::{friend_request, Action, Ribbon};

fn s(v: &str) -> String {
    v.to_string()
}

fn obj(members: Vec<(&str, Json)>) -> Json {
    Json::Object(members.into_iter().map(|(k, v)| (s(k), v)).collect())
}

fn signature() -> Json {
    obj(vec![("version", Json::Str(s("6.2.0"))), ("mode", Json::Str(s("production")))])
}

fn client() -> Ribbon {
    Ribbon::new(s("/ribbon/abc"), Signature(signature()), s("tok"), User { _id: s("me") })
}

fn inbound(id: Option<u64>, packet: Packet) -> Message {
    Message { id, packet }
}

fn chat(from: &str, content: &str) -> Packet {
    Packet::RoomChat { content: s(content), pinned: false, system: false, user: User { _id: s(from) } }
}

fn sent_chat(a: &Action) -> Option<String> {
    match a {
        Action::Send(Message { id: None, packet: Packet::RoomChatSend { content, pinned: false } }) => {
            Some(content.clone())
        },
        _ => None,
    }
}

fn server_dm(sender: &str) -> Packet {
    Packet::SocialDm(Either::Server(ServerSocialDm {
        data: Dm { content: s("hi"), content_safe: None, system: None, user: s(sender) },
        id: s("dm1"),
        stream: s("stream"),
        ts: s("2024-01-01T00:00:00Z"),
    }))
}

fn authorize_ack() -> Packet {
    Packet::ServerAuthorize(Either::Server(ServerAuthorize { maintenance: false, worker: Json::Null }))
}

#[test]
fn uri_joins_host_and_endpoint() {
    assert_eq!(client().uri(), "wss://tetr.io/ribbon/abc");
}

#[test]
fn filter_drops_only_stale_messages() {
    let mut r = client();
    r.recvid = 5;
    assert!(r.should_ignore(&inbound(Some(4), chat("u", "x"))));
    assert!(!r.should_ignore(&inbound(Some(5), chat("u", "x"))));
    assert!(!r.should_ignore(&inbound(Some(6), chat("u", "x"))));
    assert!(!r.should_ignore(&inbound(None, chat("u", "x"))));
    assert!(!r.should_ignore(&inbound(Some(1), Packet::Ping { recvid: None })));
    assert!(!r.should_ignore(&inbound(Some(1), Packet::Session { ribbonid: s("r"), tokenid: s("t") })));
    assert!(!r.should_ignore(&inbound(Some(1), Packet::Packets { packets: vec![] })));
}

#[test]
fn stale_message_changes_nothing() {
    let mut r = client();
    r.recvid = 10;
    let acts = r.recv(inbound(Some(3), Packet::SocialInvite {
        roomid: s("R1"),
        roomname: s("room"),
        roomname_safe: None,
        sender: s("u"),
    }));
    assert!(acts.is_empty());
    assert_eq!(r.recvid, 10);
}

#[test]
fn cursor_advances_to_processed_id() {
    let mut r = client();
    r.recv(inbound(Some(7), chat("u", "hello")));
    assert_eq!(r.recvid, 7);
    r.recv(inbound(Some(9), Packet::Ping { recvid: None }));
    assert_eq!(r.recvid, 7);
    let ping = r.ping();
    assert!(matches!(ping, Message { id: None, packet: Packet::Ping { recvid: Some(7) } }));
}

#[test]
fn batch_dispatches_in_order() {
    let mut r = client();
    let batch = Packet::Packets {
        packets: vec![
            inbound(Some(1), chat("a", "first")),
            inbound(Some(2), chat("b", "second")),
            inbound(Some(3), chat("c", "third")),
        ],
    };
    let acts = r.recv(inbound(None, batch));
    let order: Vec<u64> = acts
        .iter()
        .map(|a| match a {
            Action::Dispatch(m) => m.id.unwrap(),
            _ => panic!("unexpected action"),
        })
        .collect();
    assert_eq!(order, vec![1, 2, 3]);
}

#[test]
fn batch_filters_each_member() {
    let mut r = client();
    r.recvid = 5;
    let batch = Packet::Packets {
        packets: vec![
            inbound(Some(6), chat("a", "new")),
            inbound(Some(2), chat("b", "stale")),
            inbound(Some(7), chat("c", "newer")),
        ],
    };
    let acts = r.recv(inbound(Some(1), batch));
    let order: Vec<u64> = acts
        .iter()
        .map(|a| match a {
            Action::Dispatch(m) => m.id.unwrap(),
            _ => panic!("unexpected action"),
        })
        .collect();
    assert_eq!(order, vec![6, 7]);
}

#[test]
fn session_triggers_authorize() {
    let mut r = client();
    let acts = r.recv(inbound(Some(1), Packet::Session { ribbonid: s("r1"), tokenid: s("t1") }));
    let stored = r.session.as_ref().unwrap();
    assert_eq!(stored.ribbonid, "r1");
    assert_eq!(stored.tokenid, "t1");
    assert_eq!(acts.len(), 1);
    match &acts[0] {
        Action::Send(Message {
            id: None,
            packet: Packet::ServerAuthorize(Either::Client(ClientAuthorize { handling, signature: sig, token })),
        }) => {
            assert_eq!(*handling, Handling::default());
            assert_eq!(sig.0, signature());
            assert_eq!(token, "tok");
        },
        other => panic!("unexpected action {:?}", other),
    }
}

#[test]
fn default_handling_profile() {
    let h = Handling::default();
    assert_eq!((h.arr, h.das, h.dcd, h.sdf), (2, 10, 0, 6));
    assert!(h.safelock && !h.cancel && h.may20g);
    assert_eq!(h.ihs, Initial::Tap);
    assert_eq!(h.irs, Initial::Tap);
}

#[test]
fn authorize_ack_starts_heartbeat_and_announces_presence() {
    let mut r = client();
    let acts = r.recv(inbound(Some(2), authorize_ack()));
    assert!(r.heartbeat);
    assert_eq!(acts.len(), 2);
    assert!(matches!(acts[0], Action::StartHeartbeat));
    match &acts[1] {
        Action::Send(Message { id: None, packet: Packet::SocialPresence(p) }) => {
            assert_eq!(*p, obj(vec![("status", Json::Str(s("away"))), ("detail", Json::Str(s("")))]));
        },
        other => panic!("unexpected action {:?}", other),
    }
    let again = r.recv(inbound(Some(3), Packet::ServerMigrated {}));
    assert_eq!(again.len(), 2);
    assert!(matches!(again[0], Action::StopHeartbeat));
    assert!(matches!(again[1], Action::StartHeartbeat));
}

fn with_room(width: u64, g: Num, gi: Num) -> Ribbon {
    let mut r = client();
    r.room = Some(Room { width, g, gi });
    r
}

#[test]
fn join_with_valid_room_switches_bracket() {
    let mut r = with_room(4, Num::Float(0.0f64.to_bits()), Num::Float(0.0f64.to_bits()));
    let acts = r.recv(inbound(None, chat("other", "~join")));
    assert_eq!(acts.len(), 1);
    assert!(matches!(
        acts[0],
        Action::Send(Message { id: None, packet: Packet::RoomBracketSwitch(Bracket::Player) })
    ));
}

#[test]
fn join_with_wide_board_is_rejected() {
    let mut r = with_room(6, Num::Float(0.0f64.to_bits()), Num::Float(0.0f64.to_bits()));
    let acts = r.recv(inbound(None, chat("other", "~join")));
    assert_eq!(acts.len(), 1);
    assert_eq!(sent_chat(&acts[0]).unwrap(), "board.width must be 4");
}

#[test]
fn join_with_gravity_is_rejected() {
    let mut r = with_room(4, Num::Float(0.02f64.to_bits()), Num::PosInt(0));
    let acts = r.recv(inbound(None, chat("other", "~join")));
    assert_eq!(sent_chat(&acts[0]).unwrap(), "gravity must be 0");
}

#[test]
fn join_with_gravity_increase_is_rejected() {
    let mut r = with_room(4, Num::PosInt(0), Num::Float(0.5f64.to_bits()));
    let acts = r.recv(inbound(None, chat("other", "~join")));
    assert_eq!(sent_chat(&acts[0]).unwrap(), "gravity increase must be 0");
}

#[test]
fn negative_zero_gravity_counts_as_zero() {
    assert!(Num::Float((-0.0f64).to_bits()).is_zero());
    assert!(Num::PosInt(0).is_zero());
    assert!(!Num::Float(1.0f64.to_bits()).is_zero());
    let mut r = with_room(4, Num::Float((-0.0f64).to_bits()), Num::PosInt(0));
    let acts = r.recv(inbound(None, chat("other", "~join")));
    assert!(matches!(acts[0], Action::Send(Message { packet: Packet::RoomBracketSwitch(Bracket::Player), .. })));
}

#[test]
fn chat_from_self_or_other_text_is_ignored() {
    let mut r = with_room(6, Num::PosInt(0), Num::PosInt(0));
    assert!(r.recv(inbound(None, chat("me", "~join"))).is_empty());
    assert!(r.recv(inbound(None, chat("other", "hello"))).is_empty());
    let mut no_room = client();
    assert!(no_room.recv(inbound(None, chat("other", "~join"))).is_empty());
}

#[test]
fn room_update_replaces_cached_room() {
    let mut r = client();
    r.recv(inbound(Some(4), room_update(4, Num::PosInt(0))));
    assert_eq!(r.room, Some(Room { width: 4, g: Num::PosInt(0), gi: Num::Float(0.0f64.to_bits()) }));
    r.recv(inbound(Some(5), room_update(10, Num::Float(0.5f64.to_bits()))));
    assert_eq!(r.room, Some(Room { width: 10, g: Num::Float(0.5f64.to_bits()), gi: Num::Float(0.0f64.to_bits()) }));
}

fn room_update(width: u64, g: Num) -> Packet {
    Packet::RoomUpdate {
        allow_bots: true,
        allow_chat: true,
        creator: s("c"),
        id: s("ROOM"),
        zmatch: lfbot::packet::Match { ft: 3, gamemode: s("versus"), gp: 0, modename: s("versus") },
        players: vec![User { _id: s("me") }],
        state: s("lobby"),
        ty: s("custom"),
        options: lfbot::packet::Options {
            allow180: true,
            allow_harddrop: true,
            bagtype: s("7-bag"),
            boardheight: 20,
            boardwidth: width,
            display_hold: true,
            display_next: true,
            display_shadow: true,
            display_username: true,
            g,
            gincrease: Num::Float(0.0f64.to_bits()),
            kickset: s("SRS+"),
            lineclear_are: 0,
            seed: 42,
            seed_random: true,
            spinbonuses: s("T-spins"),
            stock: 0,
            version: 19,
        },
    }
}

#[test]
fn migration_resumes_session() {
    let mut r = client();
    r.recv(inbound(Some(1), Packet::Session { ribbonid: s("r1"), tokenid: s("t1") }));
    r.recv(inbound(Some(2), authorize_ack()));
    let acts = r.recv(inbound(Some(3), Packet::ServerMigrate {
        endpoint: s("/new/path"),
        flag: s("f"),
        name: s("n"),
    }));
    assert_eq!(r.endpoint, "/new/path");
    assert!(r.migrating);
    assert_eq!(acts.len(), 2);
    assert!(matches!(acts[0], Action::StopHeartbeat));
    assert!(matches!(acts[1], Action::Disconnect));
    let closing = r.on_close();
    assert_eq!(closing.len(), 1);
    assert!(matches!(closing[0], Action::Reconnect));
    assert_eq!(r.uri(), "wss://tetr.io/new/path");
    let first = r.on_connect();
    match first {
        Message { id: None, packet: Packet::Session { ribbonid, tokenid } } => {
            assert_eq!(ribbonid, "r1");
            assert_eq!(tokenid, "t1");
        },
        other => panic!("unexpected opening {:?}", other),
    }
    assert!(!r.migrating);
}

#[test]
fn fresh_connection_asks_for_new_session() {
    let mut r = client();
    assert!(matches!(r.on_connect(), Message { id: None, packet: Packet::New }));
    assert!(r.on_close().is_empty());
}

#[test]
fn self_dm_gets_no_reply() {
    let mut r = client();
    assert!(r.recv(inbound(Some(1), server_dm("me"))).is_empty());
}

#[test]
fn dm_from_other_gets_acknowledged() {
    let mut r = client();
    let acts = r.recv(inbound(Some(1), server_dm("friend1")));
    assert_eq!(acts.len(), 1);
    match &acts[0] {
        Action::Send(Message { id: None, packet: Packet::SocialDm(Either::Client(c)) }) => {
            assert_eq!(c.recipient, "friend1");
            assert_eq!(c.msg, "!");
        },
        other => panic!("unexpected action {:?}", other),
    }
}

#[test]
fn invite_joins_room() {
    let mut r = client();
    let acts = r.recv(inbound(Some(1), Packet::SocialInvite {
        roomid: s("R1"),
        roomname: s("room"),
        roomname_safe: Some(s("room")),
        sender: s("u"),
    }));
    assert_eq!(acts.len(), 1);
    match &acts[0] {
        Action::Send(Message { id: None, packet: Packet::RoomJoin(Either::Client(room)) }) => {
            assert_eq!(room, "R1")
        },
        other => panic!("unexpected action {:?}", other),
    }
}

fn party(id: &str) -> Json {
    obj(vec![("_id", Json::Str(s(id))), ("username", Json::Str(s(id))), ("avatar_revision", Json::Null)])
}

fn friend_notification(kind: &str) -> Json {
    obj(vec![
        ("type", Json::Str(s(kind))),
        (
            "data",
            obj(vec![(
                "relationship",
                obj(vec![("ismutual", Json::Bool(false)), ("from", party("asker")), ("to", party("me"))]),
            )]),
        ),
    ])
}

#[test]
fn friend_request_is_accepted() {
    assert_eq!(friend_request(&friend_notification("friend")), Some(s("asker")));
    let mut r = client();
    let acts = r.recv(inbound(Some(1), Packet::SocialNotification(friend_notification("friend"))));
    assert_eq!(acts.len(), 1);
    match &acts[0] {
        Action::AcceptFriend(id) => assert_eq!(id, "asker"),
        other => panic!("unexpected action {:?}", other),
    }
}

#[test]
fn other_notifications_are_ignored() {
    assert_eq!(friend_request(&friend_notification("announcement")), None);
    assert_eq!(friend_request(&obj(vec![("type", Json::Str(s("friend")))])), None);
    let mut r = client();
    assert!(r.recv(inbound(Some(1), Packet::SocialNotification(friend_notification("test")))).is_empty());
}

#[test]
fn unhandled_packets_have_no_reaction() {
    let mut r = client();
    assert!(r.recv(inbound(Some(1), Packet::Kick { reason: s("bye") })).is_empty());
    assert!(r.recv(inbound(Some(2), Packet::GameStart(Json::Null))).is_empty());
    assert!(r.recv(inbound(Some(3), Packet::SocialOnline(12))).is_empty());
}

#[test]
fn chat_message_is_unpinned() {
    let m = Ribbon::send_chat_message(s("gg"));
    assert_eq!(sent_chat(&Action::Send(m)).unwrap(), "gg");
    let p = Ribbon::send_packet(Packet::New);
    assert!(matches!(p, Message { id: None, packet: Packet::New }));
}
