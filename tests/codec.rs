use lfbot::json::{Json, Num};
use lfbot::packet::{
    Bracket, ClientAuthorize, ClientSocialDm, DecodeError, Either, Handling, Message, Packet,
    Signature,
};

fn s(v: &str) -> String {
    v.to_string()
}

fn obj(members: Vec<(&str, Json)>) -> Json {
    Json::Object(members.into_iter().map(|(k, v)| (s(k), v)).collect())
}

fn frame(id: Option<u64>, command: &str, data: Option<Json>) -> Json {
    let mut members = vec![
        ("id", id.map_or(Json::Null, |n| Json::Number(Num::PosInt(n)))),
        ("command", Json::Str(s(command))),
    ];
    if let Some(d) = data {
        members.push(("data", d));
    }
    obj(members)
}

fn user(id: &str) -> Json {
    obj(vec![("_id", Json::Str(s(id)))])
}

/// Decodes, encodes, decodes again and checks that both encodings agree.
fn round_trip(j: &Json) -> Json {
    let m = Message::from_json(j).expect("decodes");
    let once = m.to_json();
    let again = Message::from_json(&once).expect("decodes again");
    assert_eq!(again.to_json(), once);
    once
}

#[test]
fn decodes_room_chat() {
    let j = frame(
        Some(12),
        "room.chat",
        Some(obj(vec![
            ("content", Json::Str(s("~join"))),
            ("pinned", Json::Bool(false)),
            ("system", Json::Bool(false)),
            ("user", obj(vec![("_id", Json::Str(s("u1"))), ("username", Json::Str(s("x")))])),
        ])),
    );
    let m = Message::from_json(&j).unwrap();
    assert_eq!(m.id, Some(12));
    match m.packet {
        Packet::RoomChat { content, pinned, system, user } => {
            assert_eq!(content, "~join");
            assert!(!pinned && !system);
            assert_eq!(user._id, "u1");
        },
        other => panic!("unexpected packet {:?}", other),
    }
}

#[test]
fn encodes_ping_with_tag_and_data() {
    let m = Message { id: None, packet: Packet::Ping { recvid: Some(5) } };
    assert_eq!(
        m.to_json(),
        frame(None, "ping", Some(obj(vec![("recvid", Json::Number(Num::PosInt(5)))])))
    );
}

#[test]
fn new_has_no_data() {
    let m = Message { id: None, packet: Packet::New };
    assert_eq!(m.to_json(), frame(None, "new", None));
    assert!(matches!(Message::from_json(&frame(None, "new", Some(Json::Null))).unwrap().packet, Packet::New));
    assert_eq!(
        Message::from_json(&frame(None, "new", Some(Json::Bool(true)))).unwrap_err(),
        DecodeError::UnknownOrMalformed
    );
}

#[test]
fn round_trip_keeps_known_packets() {
    let frames = vec![
        frame(None, "new", None),
        frame(Some(1), "session", Some(obj(vec![("ribbonid", Json::Str(s("r1"))), ("tokenid", Json::Str(s("t1")))]))),
        frame(Some(2), "kick", Some(obj(vec![("reason", Json::Str(s("bye")))]))),
        frame(Some(3), "social.online", Some(Json::Number(Num::PosInt(42)))),
        frame(Some(4), "ping", Some(obj(vec![("recvid", Json::Null)]))),
        frame(Some(5), "social.presence", Some(obj(vec![("status", Json::Str(s("away")))]))),
        frame(Some(6), "room.join", Some(Json::Str(s("ROOM")))),
        frame(
            Some(7),
            "room.join",
            Some(obj(vec![("banner", Json::Null), ("id", Json::Str(s("ROOM"))), ("silent", Json::Bool(true))])),
        ),
        frame(Some(8), "room.bracket.switch", Some(Json::Str(s("spectator")))),
        frame(Some(9), "notify", Some(obj(vec![("msg", Json::Str(s("hi"))), ("type", Json::Str(s("warn")))]))),
        frame(Some(10), "server.migrated", Some(obj(vec![]))),
        frame(
            Some(11),
            "server.migrate",
            Some(obj(vec![
                ("endpoint", Json::Str(s("/new/path"))),
                ("flag", Json::Str(s("f"))),
                ("name", Json::Str(s("n"))),
            ])),
        ),
        frame(Some(12), "room.chat.send", Some(obj(vec![("content", Json::Str(s("gg"))), ("pinned", Json::Bool(true))]))),
        frame(Some(13), "game.start", Some(Json::Array(vec![Json::Number(Num::NegInt(-1))]))),
        frame(
            Some(14),
            "social.dm",
            Some(obj(vec![("recipient", Json::Str(s("u2"))), ("msg", Json::Str(s("!")))])),
        ),
    ];
    for f in &frames {
        assert_eq!(round_trip(f), *f);
    }
}

#[test]
fn round_trip_of_nested_batch() {
    let inner = frame(Some(20), "kick", Some(obj(vec![("reason", Json::Str(s("x")))])));
    let nested = frame(None, "packets", Some(obj(vec![("packets", Json::Array(vec![inner.deep_copy()]))])));
    let outer = frame(None, "packets", Some(obj(vec![("packets", Json::Array(vec![nested.deep_copy(), inner.deep_copy()]))])));
    assert_eq!(round_trip(&outer), outer);
    match Message::from_json(&outer).unwrap().packet {
        Packet::Packets { packets } => {
            assert_eq!(packets.len(), 2);
            assert!(matches!(packets[0].packet, Packet::Packets { .. }));
            assert_eq!(packets[1].id, Some(20));
        },
        other => panic!("unexpected packet {:?}", other),
    }
}

#[test]
fn round_trip_of_room_update() {
    let options = obj(vec![
        ("allow180", Json::Bool(true)),
        ("allow_harddrop", Json::Bool(true)),
        ("bagtype", Json::Str(s("7-bag"))),
        ("boardheight", Json::Number(Num::PosInt(20))),
        ("boardwidth", Json::Number(Num::PosInt(10))),
        ("display_hold", Json::Bool(true)),
        ("display_next", Json::Bool(true)),
        ("display_shadow", Json::Bool(true)),
        ("display_username", Json::Bool(true)),
        ("g", Json::Number(Num::Float(0.02f64.to_bits()))),
        ("gincrease", Json::Number(Num::PosInt(0))),
        ("kickset", Json::Str(s("SRS+"))),
        ("lineclear_are", Json::Number(Num::PosInt(0))),
        ("seed", Json::Number(Num::PosInt(1234))),
        ("seed_random", Json::Bool(true)),
        ("spinbonuses", Json::Str(s("T-spins"))),
        ("stock", Json::Number(Num::PosInt(0))),
        ("version", Json::Number(Num::PosInt(19))),
    ]);
    let data = obj(vec![
        ("allowBots", Json::Bool(true)),
        ("allowChat", Json::Bool(true)),
        ("creator", Json::Str(s("c"))),
        ("id", Json::Str(s("ROOM"))),
        (
            "match",
            obj(vec![
                ("ft", Json::Number(Num::PosInt(3))),
                ("gamemode", Json::Str(s("versus"))),
                ("gp", Json::Number(Num::PosInt(0))),
                ("modename", Json::Str(s("versus"))),
            ]),
        ),
        ("players", Json::Array(vec![user("a"), user("b")])),
        ("state", Json::Str(s("lobby"))),
        ("type", Json::Str(s("custom"))),
        ("options", options),
    ]);
    let f = frame(Some(30), "room.update", Some(data));
    assert_eq!(round_trip(&f), f);
    match Message::from_json(&f).unwrap().packet {
        Packet::RoomUpdate { options, players, ty, .. } => {
            assert_eq!(options.boardwidth, 10);
            assert_eq!(options.g, Num::Float(0.02f64.to_bits()));
            assert_eq!(players.len(), 2);
            assert_eq!(ty, "custom");
        },
        other => panic!("unexpected packet {:?}", other),
    }
}

#[test]
fn round_trip_of_client_authorize() {
    let m = Message {
        id: None,
        packet: Packet::ServerAuthorize(Either::Client(ClientAuthorize {
            handling: Handling::default(),
            signature: Signature(obj(vec![("version", Json::Str(s("1")))])),
            token: s("tok"),
        })),
    };
    let j = m.to_json();
    assert_eq!(round_trip(&j), j);
    match Message::from_json(&j).unwrap().packet {
        Packet::ServerAuthorize(Either::Client(a)) => {
            assert_eq!(a.handling, Handling::default());
            assert_eq!(a.token, "tok");
        },
        other => panic!("unexpected packet {:?}", other),
    }
    let handling = match &j {
        Json::Object(fs) => match &fs[2].1 {
            Json::Object(d) => d[0].1.deep_copy(),
            _ => panic!("no data"),
        },
        _ => panic!("not an object"),
    };
    assert_eq!(
        handling,
        obj(vec![
            ("arr", Json::Number(Num::PosInt(2))),
            ("das", Json::Number(Num::PosInt(10))),
            ("dcd", Json::Number(Num::PosInt(0))),
            ("sdf", Json::Number(Num::PosInt(6))),
            ("safelock", Json::Bool(true)),
            ("cancel", Json::Bool(false)),
            ("may20g", Json::Bool(true)),
            ("ihs", Json::Str(s("tap"))),
            ("irs", Json::Str(s("tap"))),
        ])
    );
}

#[test]
fn server_form_is_preferred_when_both_fit() {
    let data = obj(vec![
        ("maintenance", Json::Bool(false)),
        ("worker", obj(vec![("name", Json::Str(s("w")))])),
    ]);
    let m = Message::from_json(&frame(Some(1), "server.authorize", Some(data))).unwrap();
    assert!(matches!(m.packet, Packet::ServerAuthorize(Either::Server(_))));
    let dm = Message::from_json(&frame(
        Some(2),
        "social.dm",
        Some(obj(vec![("recipient", Json::Str(s("u"))), ("msg", Json::Str(s("m")))])),
    ))
    .unwrap();
    assert!(matches!(dm.packet, Packet::SocialDm(Either::Client(ClientSocialDm { .. }))));
}

#[test]
fn decoding_normalises_optional_and_extra_members() {
    let f = frame(
        Some(40),
        "social.invite",
        Some(obj(vec![
            ("roomid", Json::Str(s("R"))),
            ("roomname", Json::Str(s("name"))),
            ("sender", Json::Str(s("u"))),
            ("extra", Json::Bool(true)),
        ])),
    );
    let expected = frame(
        Some(40),
        "social.invite",
        Some(obj(vec![
            ("roomid", Json::Str(s("R"))),
            ("roomname", Json::Str(s("name"))),
            ("roomname_safe", Json::Null),
            ("sender", Json::Str(s("u"))),
        ])),
    );
    assert_eq!(round_trip(&f), expected);
}

#[test]
fn bracket_and_initial_names() {
    assert_eq!(Bracket::Player.to_json(), Json::Str(s("player")));
    assert_eq!(Bracket::from_json(&Json::Str(s("spectator"))), Some(Bracket::Spectator));
    assert_eq!(Bracket::from_json(&Json::Str(s("referee"))), None);
    assert_eq!(lfbot::packet::Initial::Off.to_json(), Json::Str(s("none")));
}

#[test]
fn malformed_frames_are_rejected() {
    let bad = vec![
        frame(Some(1), "no.such.command", Some(Json::Null)),
        obj(vec![("id", Json::Null)]),
        Json::Array(vec![]),
        frame(Some(1), "kick", None),
        frame(Some(1), "kick", Some(obj(vec![("reason", Json::Number(Num::PosInt(1)))]))),
        frame(Some(1), "session", Some(obj(vec![("ribbonid", Json::Str(s("r")))]))),
        frame(Some(1), "room.bracket.switch", Some(Json::Str(s("referee")))),
        frame(Some(1), "social.online", Some(Json::Number(Num::NegInt(-3)))),
        obj(vec![("id", Json::Number(Num::NegInt(-1))), ("command", Json::Str(s("new")))]),
        obj(vec![("id", Json::Null), ("command", Json::Bool(true))]),
    ];
    for f in &bad {
        assert_eq!(Message::from_json(f).unwrap_err(), DecodeError::UnknownOrMalformed, "{:?}", f);
    }
}
