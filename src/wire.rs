use crate::codec::{
    lemma_users_round_trip, users_canon, users_from_json, users_shape, users_to_json, users_v,
};
use crate::json::{
    field_any, field_bool, field_opt_str, field_opt_u64, field_str, find, is_bool, is_opt_str,
    is_opt_u64, is_str, is_usize, key_sig, lemma_find_in_range, opt_str_json, opt_str_v,
    opt_u64_json, opt_u64_v, present, u64_v, Json, JsonV, Num,
};
use crate::packet::{
    Bracket, ClientAuthorize, ClientSocialDm, DecodeError, Either, Match, Message, Options, Packet,
    ServerAuthorize, ServerRoomJoin, ServerSocialDm, User,
};
use vstd::prelude::*;

verus! {

/// Values of `key_sig` on the names below; they differ pairwise.
proof fn tags()
    ensures
        key_sig("new"@) == 1037955831,
        key_sig("packets"@) == 2115827188,
        key_sig("kick"@) == 1299902955,
        key_sig("session"@) == 2122037743,
        key_sig("social.online"@) == 3732494188,
        key_sig("server.authorize"@) == 4537809650,
        key_sig("ping"@) == 1310324583,
        key_sig("social.presence"@) == 4269373541,
        key_sig("social.dm"@) == 2658889902,
        key_sig("social.notification"@) == 5343263329,
        key_sig("social.invite"@) == 3732494198,
        key_sig("room.join"@) == 2656802671,
        key_sig("room.update"@) == 3193535201,
        key_sig("server.migrate"@) == 4000937714,
        key_sig("social.dm.fail"@) == 4001051238,
        key_sig("server.migrated"@) == 4269356769,
        key_sig("notify"@) == 1843295462,
        key_sig("room.chat"@) == 2656900968,
        key_sig("room.update.bracket"@) == 5341264481,
        key_sig("game.ready"@) == 2902358369,
        key_sig("game.replay.ige"@) == 4244207662,
        key_sig("room.update.auto"@) == 4535873761,
        key_sig("game.match"@) == 2902079220,
        key_sig("game.start"@) == 2902276577,
        key_sig("room.bracket.switch"@) == 5341066743,
        key_sig("room.chat.send"@) == 3998822643,
{
    reveal_strlit("new");
    reveal_strlit("packets");
    reveal_strlit("kick");
    reveal_strlit("session");
    reveal_strlit("social.online");
    reveal_strlit("server.authorize");
    reveal_strlit("ping");
    reveal_strlit("social.presence");
    reveal_strlit("social.dm");
    reveal_strlit("social.notification");
    reveal_strlit("social.invite");
    reveal_strlit("room.join");
    reveal_strlit("room.update");
    reveal_strlit("server.migrate");
    reveal_strlit("social.dm.fail");
    reveal_strlit("server.migrated");
    reveal_strlit("notify");
    reveal_strlit("room.chat");
    reveal_strlit("room.update.bracket");
    reveal_strlit("game.ready");
    reveal_strlit("game.replay.ige");
    reveal_strlit("room.update.auto");
    reveal_strlit("game.match");
    reveal_strlit("game.start");
    reveal_strlit("room.bracket.switch");
    reveal_strlit("room.chat.send");
}

/// Values of `key_sig` on the names below; they differ pairwise.
proof fn keys_message()
    ensures
        key_sig("id"@) == 758723172,
        key_sig("command"@) == 2088318702,
        key_sig("data"@) == 1285061217,
{
    reveal_strlit("id");
    reveal_strlit("command");
    reveal_strlit("data");
}

/// Values of `key_sig` on the names below; they differ pairwise.
proof fn keys_authorize()
    ensures
        key_sig("maintenance"@) == 3183047406,
        key_sig("handling"@) == 2367288942,
        key_sig("signature"@) == 2658758901,
        key_sig("token"@) == 1587262949,
{
    reveal_strlit("maintenance");
    reveal_strlit("handling");
    reveal_strlit("signature");
    reveal_strlit("token");
}

/// Values of `key_sig` on the names below; they differ pairwise.
proof fn keys_dm()
    ensures
        key_sig("data"@) == 1285061217,
        key_sig("recipient"@) == 2656909413,
        key_sig("msg"@) == 1035598311,
{
    reveal_strlit("data");
    reveal_strlit("recipient");
    reveal_strlit("msg");
}

/// `d` can be read as the payload of a `kick` packet.
pub open spec fn kick_shape(d: JsonV) -> bool {
    &&& d is Object
    &&& is_str(d.field("reason"@))
}

/// The JSON form of the `kick` payload read from `d`.
pub open spec fn kick_canon(d: JsonV) -> JsonV {
    JsonV::Object(
        seq![
            ("reason"@, present(d.field("reason"@))),
        ],
    )
}

/// Reads the payload of a `kick` packet.
fn decode_kick(d: &Json) -> (r: Option<Packet>)
    ensures
        r is Some <==> kick_shape(d@),
        r matches Some(p) ==> p is Kick && p.data_enc() == kick_canon(d@),
{
    if !matches!(d, Json::Object(_)) {
        return None;
    }
    let reason = field_str(d, "reason")?;
    let p = Packet::Kick { reason };
    assert(p.data_enc()->Object_0 =~= kick_canon(d@)->Object_0);
    Some(p)
}

/// Reading back the payload of a `kick` packet gives it again.
proof fn lemma_kick_round_trip(p: Packet)
    requires
        p is Kick,
    ensures
        kick_shape(p.data_enc()),
        kick_canon(p.data_enc()) == p.data_enc(),
{
    keys_kick();
    reveal_with_fuel(find, 2);
    match p {
        Packet::Kick { reason } => {
            assert(p.data_enc().field("reason"@) == Some(JsonV::Str(reason@)));
            assert(kick_canon(p.data_enc())->Object_0 =~= p.data_enc()->Object_0);
        },
        _ => {},
    }
}

/// Values of `key_sig` on the names below; they differ pairwise.
proof fn keys_kick()
    ensures
        key_sig("reason"@) == 1851505135,
{
    reveal_strlit("reason");
}

/// `d` can be read as the payload of a `session` packet.
pub open spec fn session_shape(d: JsonV) -> bool {
    &&& d is Object
    &&& is_str(d.field("ribbonid"@))
    &&& is_str(d.field("tokenid"@))
}

/// The JSON form of the `session` payload read from `d`.
pub open spec fn session_canon(d: JsonV) -> JsonV {
    JsonV::Object(
        seq![
            ("ribbonid"@, present(d.field("ribbonid"@))),
            ("tokenid"@, present(d.field("tokenid"@))),
        ],
    )
}

/// Reads the payload of a `session` packet.
fn decode_session(d: &Json) -> (r: Option<Packet>)
    ensures
        r is Some <==> session_shape(d@),
        r matches Some(p) ==> p is Session && p.data_enc() == session_canon(d@),
{
    if !matches!(d, Json::Object(_)) {
        return None;
    }
    let ribbonid = field_str(d, "ribbonid")?;
    let tokenid = field_str(d, "tokenid")?;
    let p = Packet::Session { ribbonid, tokenid };
    assert(p.data_enc()->Object_0 =~= session_canon(d@)->Object_0);
    Some(p)
}

/// Reading back the payload of a `session` packet gives it again.
proof fn lemma_session_round_trip(p: Packet)
    requires
        p is Session,
    ensures
        session_shape(p.data_enc()),
        session_canon(p.data_enc()) == p.data_enc(),
{
    keys_session();
    reveal_with_fuel(find, 3);
    match p {
        Packet::Session { ribbonid, tokenid } => {
            assert(p.data_enc().field("ribbonid"@) == Some(JsonV::Str(ribbonid@)));
            assert(p.data_enc().field("tokenid"@) == Some(JsonV::Str(tokenid@)));
            assert(session_canon(p.data_enc())->Object_0 =~= p.data_enc()->Object_0);
        },
        _ => {},
    }
}

/// Values of `key_sig` on the names below; they differ pairwise.
proof fn keys_session()
    ensures
        key_sig("ribbonid"@) == 2388211689,
        key_sig("tokenid"@) == 2123969257,
{
    reveal_strlit("ribbonid");
    reveal_strlit("tokenid");
}

/// `d` can be read as the payload of a `ping` packet.
pub open spec fn ping_shape(d: JsonV) -> bool {
    &&& d is Object
    &&& is_opt_u64(d.field("recvid"@))
}

/// The JSON form of the `ping` payload read from `d`.
pub open spec fn ping_canon(d: JsonV) -> JsonV {
    JsonV::Object(
        seq![
            ("recvid"@, present(d.field("recvid"@))),
        ],
    )
}

/// Reads the payload of a `ping` packet.
fn decode_ping(d: &Json) -> (r: Option<Packet>)
    ensures
        r is Some <==> ping_shape(d@),
        r matches Some(p) ==> p is Ping && p.data_enc() == ping_canon(d@),
{
    if !matches!(d, Json::Object(_)) {
        return None;
    }
    let recvid = field_opt_u64(d, "recvid")?;
    let p = Packet::Ping { recvid };
    assert(p.data_enc()->Object_0 =~= ping_canon(d@)->Object_0);
    Some(p)
}

/// Reading back the payload of a `ping` packet gives it again.
proof fn lemma_ping_round_trip(p: Packet)
    requires
        p is Ping,
    ensures
        ping_shape(p.data_enc()),
        ping_canon(p.data_enc()) == p.data_enc(),
{
    keys_ping();
    reveal_with_fuel(find, 2);
    match p {
        Packet::Ping { recvid } => {
            assert(p.data_enc().field("recvid"@) == Some(opt_u64_v(recvid)));
            assert(ping_canon(p.data_enc())->Object_0 =~= p.data_enc()->Object_0);
        },
        _ => {},
    }
}

/// Values of `key_sig` on the names below; they differ pairwise.
proof fn keys_ping()
    ensures
        key_sig("recvid"@) == 1851341673,
{
    reveal_strlit("recvid");
}

/// `d` can be read as the payload of a `social.invite` packet.
pub open spec fn social_invite_shape(d: JsonV) -> bool {
    &&& d is Object
    &&& is_str(d.field("roomid"@))
    &&& is_str(d.field("roomname"@))
    &&& is_opt_str(d.field("roomname_safe"@))
    &&& is_str(d.field("sender"@))
}

/// The JSON form of the `social.invite` payload read from `d`.
pub open spec fn social_invite_canon(d: JsonV) -> JsonV {
    JsonV::Object(
        seq![
            ("roomid"@, present(d.field("roomid"@))),
            ("roomname"@, present(d.field("roomname"@))),
            ("roomname_safe"@, present(d.field("roomname_safe"@))),
            ("sender"@, present(d.field("sender"@))),
        ],
    )
}

/// Reads the payload of a `social.invite` packet.
fn decode_social_invite(d: &Json) -> (r: Option<Packet>)
    ensures
        r is Some <==> social_invite_shape(d@),
        r matches Some(p) ==> p is SocialInvite && p.data_enc() == social_invite_canon(d@),
{
    if !matches!(d, Json::Object(_)) {
        return None;
    }
    let roomid = field_str(d, "roomid")?;
    let roomname = field_str(d, "roomname")?;
    let roomname_safe = field_opt_str(d, "roomname_safe")?;
    let sender = field_str(d, "sender")?;
    let p = Packet::SocialInvite { roomid, roomname, roomname_safe, sender };
    assert(p.data_enc()->Object_0 =~= social_invite_canon(d@)->Object_0);
    Some(p)
}

/// Reading back the payload of a `social.invite` packet gives it again.
proof fn lemma_social_invite_round_trip(p: Packet)
    requires
        p is SocialInvite,
    ensures
        social_invite_shape(p.data_enc()),
        social_invite_canon(p.data_enc()) == p.data_enc(),
{
    keys_social_invite();
    reveal_with_fuel(find, 5);
    match p {
        Packet::SocialInvite { roomid, roomname, roomname_safe, sender } => {
            assert(p.data_enc().field("roomid"@) == Some(JsonV::Str(roomid@)));
            assert(p.data_enc().field("roomname"@) == Some(JsonV::Str(roomname@)));
            assert(p.data_enc().field("roomname_safe"@) == Some(opt_str_v(roomname_safe)));
            assert(p.data_enc().field("sender"@) == Some(JsonV::Str(sender@)));
            assert(social_invite_canon(p.data_enc())->Object_0 =~= p.data_enc()->Object_0);
        },
        _ => {},
    }
}

/// Values of `key_sig` on the names below; they differ pairwise.
proof fn keys_social_invite()
    ensures
        key_sig("roomid"@) == 1851340521,
        key_sig("roomname"@) == 2388227949,
        key_sig("roomname_safe"@) == 3730405107,
        key_sig("sender"@) == 1853665893,
{
    reveal_strlit("roomid");
    reveal_strlit("roomname");
    reveal_strlit("roomname_safe");
    reveal_strlit("sender");
}

/// `d` can be read as the payload of a `room.update` packet.
pub open spec fn room_update_shape(d: JsonV) -> bool {
    &&& d is Object
    &&& is_bool(d.field("allowBots"@))
    &&& is_bool(d.field("allowChat"@))
    &&& is_str(d.field("creator"@))
    &&& is_str(d.field("id"@))
    &&& d.field("match"@) is Some && Match::shape(present(d.field("match"@)))
    &&& users_shape(present(d.field("players"@)))
    &&& is_str(d.field("state"@))
    &&& is_str(d.field("type"@))
    &&& d.field("options"@) is Some && Options::shape(present(d.field("options"@)))
}

/// The JSON form of the `room.update` payload read from `d`.
pub open spec fn room_update_canon(d: JsonV) -> JsonV {
    JsonV::Object(
        seq![
            ("allowBots"@, present(d.field("allowBots"@))),
            ("allowChat"@, present(d.field("allowChat"@))),
            ("creator"@, present(d.field("creator"@))),
            ("id"@, present(d.field("id"@))),
            ("match"@, Match::canon(present(d.field("match"@)))),
            ("players"@, users_canon(present(d.field("players"@)))),
            ("state"@, present(d.field("state"@))),
            ("type"@, present(d.field("type"@))),
            ("options"@, Options::canon(present(d.field("options"@)))),
        ],
    )
}

/// Reads the payload of a `room.update` packet.
fn decode_room_update(d: &Json) -> (r: Option<Packet>)
    ensures
        r is Some <==> room_update_shape(d@),
        r matches Some(p) ==> p is RoomUpdate && p.data_enc() == room_update_canon(d@),
{
    if !matches!(d, Json::Object(_)) {
        return None;
    }
    let allow_bots = field_bool(d, "allowBots")?;
    let allow_chat = field_bool(d, "allowChat")?;
    let creator = field_str(d, "creator")?;
    let id = field_str(d, "id")?;
    let zmatch = Match::from_json(d.field("match")?)?;
    let players = users_from_json(d.field("players")?)?;
    let state = field_str(d, "state")?;
    let ty = field_str(d, "type")?;
    let options = Options::from_json(d.field("options")?)?;
    let p = Packet::RoomUpdate { allow_bots, allow_chat, creator, id, zmatch, players, state, ty, options };
    assert(p.data_enc()->Object_0 =~= room_update_canon(d@)->Object_0);
    Some(p)
}

#[verifier::rlimit(50)]
/// Reading back the payload of a `room.update` packet gives it again.
proof fn lemma_room_update_round_trip(p: Packet)
    requires
        p is RoomUpdate,
    ensures
        room_update_shape(p.data_enc()),
        room_update_canon(p.data_enc()) == p.data_enc(),
{
    keys_room_update();
    reveal_with_fuel(find, 10);
    match p {
        Packet::RoomUpdate { allow_bots, allow_chat, creator, id, zmatch, players, state, ty, options } => {
            zmatch.lemma_round_trip();
            lemma_users_round_trip(players);
            options.lemma_round_trip();
            assert(p.data_enc().field("allowBots"@) == Some(JsonV::Bool(allow_bots)));
            assert(p.data_enc().field("allowChat"@) == Some(JsonV::Bool(allow_chat)));
            assert(p.data_enc().field("creator"@) == Some(JsonV::Str(creator@)));
            assert(p.data_enc().field("id"@) == Some(JsonV::Str(id@)));
            assert(p.data_enc().field("match"@) == Some(zmatch.enc()));
            assert(p.data_enc().field("players"@) == Some(users_v(players)));
            assert(p.data_enc().field("state"@) == Some(JsonV::Str(state@)));
            assert(p.data_enc().field("type"@) == Some(JsonV::Str(ty@)));
            assert(p.data_enc().field("options"@) == Some(options.enc()));
            assert(room_update_canon(p.data_enc())->Object_0 =~= p.data_enc()->Object_0);
        },
        _ => {},
    }
}

/// Values of `key_sig` on the names below; they differ pairwise.
proof fn keys_room_update()
    ensures
        key_sig("allowBots"@) == 2621242351,
        key_sig("allowChat"@) == 2621258728,
        key_sig("creator"@) == 2088546543,
        key_sig("id"@) == 758723172,
        key_sig("match"@) == 1572485731,
        key_sig("players"@) == 2115828978,
        key_sig("state"@) == 1585017076,
        key_sig("type"@) == 1318680677,
        key_sig("options"@) == 2113729774,
{
    reveal_strlit("allowBots");
    reveal_strlit("allowChat");
    reveal_strlit("creator");
    reveal_strlit("id");
    reveal_strlit("match");
    reveal_strlit("players");
    reveal_strlit("state");
    reveal_strlit("type");
    reveal_strlit("options");
}

/// `d` can be read as the payload of a `server.migrate` packet.
pub open spec fn server_migrate_shape(d: JsonV) -> bool {
    &&& d is Object
    &&& is_str(d.field("endpoint"@))
    &&& is_str(d.field("flag"@))
    &&& is_str(d.field("name"@))
}

/// The JSON form of the `server.migrate` payload read from `d`.
pub open spec fn server_migrate_canon(d: JsonV) -> JsonV {
    JsonV::Object(
        seq![
            ("endpoint"@, present(d.field("endpoint"@))),
            ("flag"@, present(d.field("flag"@))),
            ("name"@, present(d.field("name"@))),
        ],
    )
}

/// Reads the payload of a `server.migrate` packet.
fn decode_server_migrate(d: &Json) -> (r: Option<Packet>)
    ensures
        r is Some <==> server_migrate_shape(d@),
        r matches Some(p) ==> p is ServerMigrate && p.data_enc() == server_migrate_canon(d@),
{
    if !matches!(d, Json::Object(_)) {
        return None;
    }
    let endpoint = field_str(d, "endpoint")?;
    let flag = field_str(d, "flag")?;
    let name = field_str(d, "name")?;
    let p = Packet::ServerMigrate { endpoint, flag, name };
    assert(p.data_enc()->Object_0 =~= server_migrate_canon(d@)->Object_0);
    Some(p)
}

/// Reading back the payload of a `server.migrate` packet gives it again.
proof fn lemma_server_migrate_round_trip(p: Packet)
    requires
        p is ServerMigrate,
    ensures
        server_migrate_shape(p.data_enc()),
        server_migrate_canon(p.data_enc()) == p.data_enc(),
{
    keys_server_migrate();
    reveal_with_fuel(find, 4);
    match p {
        Packet::ServerMigrate { endpoint, flag, name } => {
            assert(p.data_enc().field("endpoint"@) == Some(JsonV::Str(endpoint@)));
            assert(p.data_enc().field("flag"@) == Some(JsonV::Str(flag@)));
            assert(p.data_enc().field("name"@) == Some(JsonV::Str(name@)));
            assert(server_migrate_canon(p.data_enc())->Object_0 =~= p.data_enc()->Object_0);
        },
        _ => {},
    }
}

/// Values of `key_sig` on the names below; they differ pairwise.
proof fn keys_server_migrate()
    ensures
        key_sig("endpoint"@) == 2361210862,
        key_sig("flag"@) == 1289351399,
        key_sig("name"@) == 1306097381,
{
    reveal_strlit("endpoint");
    reveal_strlit("flag");
    reveal_strlit("name");
}

/// `d` can be read as the payload of a `server.migrated` packet.
pub open spec fn server_migrated_shape(d: JsonV) -> bool {
    &&& d is Object
}

/// The JSON form of the `server.migrated` payload read from `d`.
pub open spec fn server_migrated_canon(d: JsonV) -> JsonV {
    JsonV::Object(
        seq![
        ],
    )
}

/// Reads the payload of a `server.migrated` packet.
fn decode_server_migrated(d: &Json) -> (r: Option<Packet>)
    ensures
        r is Some <==> server_migrated_shape(d@),
        r matches Some(p) ==> p is ServerMigrated && p.data_enc() == server_migrated_canon(d@),
{
    if !matches!(d, Json::Object(_)) {
        return None;
    }
    let p = Packet::ServerMigrated {  };
    assert(p.data_enc()->Object_0 =~= server_migrated_canon(d@)->Object_0);
    Some(p)
}

/// Reading back the payload of a `server.migrated` packet gives it again.
proof fn lemma_server_migrated_round_trip(p: Packet)
    requires
        p is ServerMigrated,
    ensures
        server_migrated_shape(p.data_enc()),
        server_migrated_canon(p.data_enc()) == p.data_enc(),
{
    match p {
        Packet::ServerMigrated {  } => {
            assert(server_migrated_canon(p.data_enc())->Object_0 =~= p.data_enc()->Object_0);
        },
        _ => {},
    }
}

/// `d` can be read as the payload of a `notify` packet.
pub open spec fn notify_shape(d: JsonV) -> bool {
    &&& d is Object
    &&& is_str(d.field("msg"@))
    &&& is_opt_str(d.field("type"@))
}

/// The JSON form of the `notify` payload read from `d`.
pub open spec fn notify_canon(d: JsonV) -> JsonV {
    JsonV::Object(
        seq![
            ("msg"@, present(d.field("msg"@))),
            ("type"@, present(d.field("type"@))),
        ],
    )
}

/// Reads the payload of a `notify` packet.
fn decode_notify(d: &Json) -> (r: Option<Packet>)
    ensures
        r is Some <==> notify_shape(d@),
        r matches Some(p) ==> p is Notify && p.data_enc() == notify_canon(d@),
{
    if !matches!(d, Json::Object(_)) {
        return None;
    }
    let msg = field_str(d, "msg")?;
    let kind = field_opt_str(d, "type")?;
    let p = Packet::Notify { msg, kind };
    assert(p.data_enc()->Object_0 =~= notify_canon(d@)->Object_0);
    Some(p)
}

/// Reading back the payload of a `notify` packet gives it again.
proof fn lemma_notify_round_trip(p: Packet)
    requires
        p is Notify,
    ensures
        notify_shape(p.data_enc()),
        notify_canon(p.data_enc()) == p.data_enc(),
{
    keys_notify();
    reveal_with_fuel(find, 3);
    match p {
        Packet::Notify { msg, kind } => {
            assert(p.data_enc().field("msg"@) == Some(JsonV::Str(msg@)));
            assert(p.data_enc().field("type"@) == Some(opt_str_v(kind)));
            assert(notify_canon(p.data_enc())->Object_0 =~= p.data_enc()->Object_0);
        },
        _ => {},
    }
}

/// Values of `key_sig` on the names below; they differ pairwise.
proof fn keys_notify()
    ensures
        key_sig("msg"@) == 1035598311,
        key_sig("type"@) == 1318680677,
{
    reveal_strlit("msg");
    reveal_strlit("type");
}

/// `d` can be read as the payload of a `room.chat` packet.
pub open spec fn room_chat_shape(d: JsonV) -> bool {
    &&& d is Object
    &&& is_str(d.field("content"@))
    &&& is_bool(d.field("pinned"@))
    &&& is_bool(d.field("system"@))
    &&& d.field("user"@) is Some && User::shape(present(d.field("user"@)))
}

/// The JSON form of the `room.chat` payload read from `d`.
pub open spec fn room_chat_canon(d: JsonV) -> JsonV {
    JsonV::Object(
        seq![
            ("content"@, present(d.field("content"@))),
            ("pinned"@, present(d.field("pinned"@))),
            ("system"@, present(d.field("system"@))),
            ("user"@, User::canon(present(d.field("user"@)))),
        ],
    )
}

/// Reads the payload of a `room.chat` packet.
fn decode_room_chat(d: &Json) -> (r: Option<Packet>)
    ensures
        r is Some <==> room_chat_shape(d@),
        r matches Some(p) ==> p is RoomChat && p.data_enc() == room_chat_canon(d@),
{
    if !matches!(d, Json::Object(_)) {
        return None;
    }
    let content = field_str(d, "content")?;
    let pinned = field_bool(d, "pinned")?;
    let system = field_bool(d, "system")?;
    let user = User::from_json(d.field("user")?)?;
    let p = Packet::RoomChat { content, pinned, system, user };
    assert(p.data_enc()->Object_0 =~= room_chat_canon(d@)->Object_0);
    Some(p)
}

/// Reading back the payload of a `room.chat` packet gives it again.
proof fn lemma_room_chat_round_trip(p: Packet)
    requires
        p is RoomChat,
    ensures
        room_chat_shape(p.data_enc()),
        room_chat_canon(p.data_enc()) == p.data_enc(),
{
    keys_room_chat();
    reveal_with_fuel(find, 5);
    match p {
        Packet::RoomChat { content, pinned, system, user } => {
            user.lemma_round_trip();
            assert(p.data_enc().field("content"@) == Some(JsonV::Str(content@)));
            assert(p.data_enc().field("pinned"@) == Some(JsonV::Bool(pinned)));
            assert(p.data_enc().field("system"@) == Some(JsonV::Bool(system)));
            assert(p.data_enc().field("user"@) == Some(user.enc()));
            assert(room_chat_canon(p.data_enc())->Object_0 =~= p.data_enc()->Object_0);
        },
        _ => {},
    }
}

/// Values of `key_sig` on the names below; they differ pairwise.
proof fn keys_room_chat()
    ensures
        key_sig("content"@) == 2088581742,
        key_sig("pinned"@) == 1847146341,
        key_sig("system"@) == 1853586021,
        key_sig("user"@) == 1320989426,
{
    reveal_strlit("content");
    reveal_strlit("pinned");
    reveal_strlit("system");
    reveal_strlit("user");
}

/// `d` can be read as the payload of a `room.chat.send` packet.
pub open spec fn room_chat_send_shape(d: JsonV) -> bool {
    &&& d is Object
    &&& is_str(d.field("content"@))
    &&& is_bool(d.field("pinned"@))
}

/// The JSON form of the `room.chat.send` payload read from `d`.
pub open spec fn room_chat_send_canon(d: JsonV) -> JsonV {
    JsonV::Object(
        seq![
            ("content"@, present(d.field("content"@))),
            ("pinned"@, present(d.field("pinned"@))),
        ],
    )
}

/// Reads the payload of a `room.chat.send` packet.
fn decode_room_chat_send(d: &Json) -> (r: Option<Packet>)
    ensures
        r is Some <==> room_chat_send_shape(d@),
        r matches Some(p) ==> p is RoomChatSend && p.data_enc() == room_chat_send_canon(d@),
{
    if !matches!(d, Json::Object(_)) {
        return None;
    }
    let content = field_str(d, "content")?;
    let pinned = field_bool(d, "pinned")?;
    let p = Packet::RoomChatSend { content, pinned };
    assert(p.data_enc()->Object_0 =~= room_chat_send_canon(d@)->Object_0);
    Some(p)
}

/// Reading back the payload of a `room.chat.send` packet gives it again.
proof fn lemma_room_chat_send_round_trip(p: Packet)
    requires
        p is RoomChatSend,
    ensures
        room_chat_send_shape(p.data_enc()),
        room_chat_send_canon(p.data_enc()) == p.data_enc(),
{
    keys_room_chat_send();
    reveal_with_fuel(find, 3);
    match p {
        Packet::RoomChatSend { content, pinned } => {
            assert(p.data_enc().field("content"@) == Some(JsonV::Str(content@)));
            assert(p.data_enc().field("pinned"@) == Some(JsonV::Bool(pinned)));
            assert(room_chat_send_canon(p.data_enc())->Object_0 =~= p.data_enc()->Object_0);
        },
        _ => {},
    }
}

/// Values of `key_sig` on the names below; they differ pairwise.
proof fn keys_room_chat_send()
    ensures
        key_sig("content"@) == 2088581742,
        key_sig("pinned"@) == 1847146341,
{
    reveal_strlit("content");
    reveal_strlit("pinned");
}

impl Packet {
    /// The command tag of this packet.
    pub open spec fn tag(&self) -> Seq<char> {
        match self {
            Packet::New => "new"@,
            Packet::Packets { .. } => "packets"@,
            Packet::Kick { .. } => "kick"@,
            Packet::Session { .. } => "session"@,
            Packet::SocialOnline(_) => "social.online"@,
            Packet::ServerAuthorize(_) => "server.authorize"@,
            Packet::Ping { .. } => "ping"@,
            Packet::SocialPresence(_) => "social.presence"@,
            Packet::SocialDm(_) => "social.dm"@,
            Packet::SocialNotification(_) => "social.notification"@,
            Packet::SocialInvite { .. } => "social.invite"@,
            Packet::RoomJoin(_) => "room.join"@,
            Packet::RoomUpdate { .. } => "room.update"@,
            Packet::ServerMigrate { .. } => "server.migrate"@,
            Packet::SocialDmFail(_) => "social.dm.fail"@,
            Packet::ServerMigrated { .. } => "server.migrated"@,
            Packet::Notify { .. } => "notify"@,
            Packet::RoomChat { .. } => "room.chat"@,
            Packet::RoomUpdateBracket(_) => "room.update.bracket"@,
            Packet::GameReady(_) => "game.ready"@,
            Packet::GameReplayIge(_) => "game.replay.ige"@,
            Packet::RoomUpdateAuto(_) => "room.update.auto"@,
            Packet::GameMatch(_) => "game.match"@,
            Packet::GameStart(_) => "game.start"@,
            Packet::RoomBracketSwitch(_) => "room.bracket.switch"@,
            Packet::RoomChatSend { .. } => "room.chat.send"@,
        }
    }

    pub fn tag_str(&self) -> (r: &'static str)
        ensures
            r@ == self.tag(),
    {
        match self {
            Packet::New => "new",
            Packet::Packets { .. } => "packets",
            Packet::Kick { .. } => "kick",
            Packet::Session { .. } => "session",
            Packet::SocialOnline(_) => "social.online",
            Packet::ServerAuthorize(_) => "server.authorize",
            Packet::Ping { .. } => "ping",
            Packet::SocialPresence(_) => "social.presence",
            Packet::SocialDm(_) => "social.dm",
            Packet::SocialNotification(_) => "social.notification",
            Packet::SocialInvite { .. } => "social.invite",
            Packet::RoomJoin(_) => "room.join",
            Packet::RoomUpdate { .. } => "room.update",
            Packet::ServerMigrate { .. } => "server.migrate",
            Packet::SocialDmFail(_) => "social.dm.fail",
            Packet::ServerMigrated { .. } => "server.migrated",
            Packet::Notify { .. } => "notify",
            Packet::RoomChat { .. } => "room.chat",
            Packet::RoomUpdateBracket(_) => "room.update.bracket",
            Packet::GameReady(_) => "game.ready",
            Packet::GameReplayIge(_) => "game.replay.ige",
            Packet::RoomUpdateAuto(_) => "room.update.auto",
            Packet::GameMatch(_) => "game.match",
            Packet::GameStart(_) => "game.start",
            Packet::RoomBracketSwitch(_) => "room.bracket.switch",
            Packet::RoomChatSend { .. } => "room.chat.send",
        }
    }

    /// The JSON form of this packet's payload; `null` for `new`, which has none.
    pub open spec fn data_enc(&self) -> JsonV
        decreases self,
    {
        match *self {
            Packet::New => JsonV::Null,
            Packet::Packets { packets } => JsonV::Object(
                seq![
                    (
                        "packets"@,
                        JsonV::Array(
                            Seq::new(
                                packets.len() as nat,
                                |i: int|
                                    if 0 <= i < packets.len() {
                                        packets[i].enc()
                                    } else {
                                        JsonV::Null
                                    },
                            ),
                        ),
                    ),
                ],
            ),
            Packet::Kick { reason } => JsonV::Object(
                seq![
                    ("reason"@, JsonV::Str(reason@)),
                ],
            ),
            Packet::Session { ribbonid, tokenid } => JsonV::Object(
                seq![
                    ("ribbonid"@, JsonV::Str(ribbonid@)),
                    ("tokenid"@, JsonV::Str(tokenid@)),
                ],
            ),
            Packet::SocialOnline(n) => u64_v(n as u64),
            Packet::ServerAuthorize(e) => match e {
                Either::Server(s) => s.enc(),
                Either::Client(c) => c.enc(),
            },
            Packet::Ping { recvid } => JsonV::Object(
                seq![
                    ("recvid"@, opt_u64_v(recvid)),
                ],
            ),
            Packet::SocialPresence(j) => j@,
            Packet::SocialDm(e) => match e {
                Either::Server(s) => s.enc(),
                Either::Client(c) => c.enc(),
            },
            Packet::SocialNotification(j) => j@,
            Packet::SocialInvite { roomid, roomname, roomname_safe, sender } => JsonV::Object(
                seq![
                    ("roomid"@, JsonV::Str(roomid@)),
                    ("roomname"@, JsonV::Str(roomname@)),
                    ("roomname_safe"@, opt_str_v(roomname_safe)),
                    ("sender"@, JsonV::Str(sender@)),
                ],
            ),
            Packet::RoomJoin(e) => match e {
                Either::Server(s) => s.enc(),
                Either::Client(c) => JsonV::Str(c@),
            },
            Packet::RoomUpdate { allow_bots, allow_chat, creator, id, zmatch, players, state, ty, options } => JsonV::Object(
                seq![
                    ("allowBots"@, JsonV::Bool(allow_bots)),
                    ("allowChat"@, JsonV::Bool(allow_chat)),
                    ("creator"@, JsonV::Str(creator@)),
                    ("id"@, JsonV::Str(id@)),
                    ("match"@, zmatch.enc()),
                    ("players"@, users_v(players)),
                    ("state"@, JsonV::Str(state@)),
                    ("type"@, JsonV::Str(ty@)),
                    ("options"@, options.enc()),
                ],
            ),
            Packet::ServerMigrate { endpoint, flag, name } => JsonV::Object(
                seq![
                    ("endpoint"@, JsonV::Str(endpoint@)),
                    ("flag"@, JsonV::Str(flag@)),
                    ("name"@, JsonV::Str(name@)),
                ],
            ),
            Packet::SocialDmFail(j) => j@,
            Packet::ServerMigrated {  } => JsonV::Object(
                seq![
                ],
            ),
            Packet::Notify { msg, kind } => JsonV::Object(
                seq![
                    ("msg"@, JsonV::Str(msg@)),
                    ("type"@, opt_str_v(kind)),
                ],
            ),
            Packet::RoomChat { content, pinned, system, user } => JsonV::Object(
                seq![
                    ("content"@, JsonV::Str(content@)),
                    ("pinned"@, JsonV::Bool(pinned)),
                    ("system"@, JsonV::Bool(system)),
                    ("user"@, user.enc()),
                ],
            ),
            Packet::RoomUpdateBracket(j) => j@,
            Packet::GameReady(j) => j@,
            Packet::GameReplayIge(j) => j@,
            Packet::RoomUpdateAuto(j) => j@,
            Packet::GameMatch(j) => j@,
            Packet::GameStart(j) => j@,
            Packet::RoomBracketSwitch(b) => b.enc(),
            Packet::RoomChatSend { content, pinned } => JsonV::Object(
                seq![
                    ("content"@, JsonV::Str(content@)),
                    ("pinned"@, JsonV::Bool(pinned)),
                ],
            ),
        }
    }

    /// `d` can be read as the payload of a packet tagged `t`.
    pub open spec fn data_shape(t: Seq<char>, d: JsonV) -> bool
        decreases d, 1nat,
    {
        if t == "new"@ {
            d == JsonV::Null
        } else if t == "packets"@ {
            Packet::batch_shape(d)
        } else if t == "kick"@ {
            kick_shape(d)
        } else if t == "session"@ {
            session_shape(d)
        } else if t == "social.online"@ {
            is_usize(Some(d))
        } else if t == "server.authorize"@ {
            ServerAuthorize::shape(d) || ClientAuthorize::shape(d)
        } else if t == "ping"@ {
            ping_shape(d)
        } else if t == "social.presence"@ {
            true
        } else if t == "social.dm"@ {
            ServerSocialDm::shape(d) || ClientSocialDm::shape(d)
        } else if t == "social.notification"@ {
            true
        } else if t == "social.invite"@ {
            social_invite_shape(d)
        } else if t == "room.join"@ {
            ServerRoomJoin::shape(d) || d is Str
        } else if t == "room.update"@ {
            room_update_shape(d)
        } else if t == "server.migrate"@ {
            server_migrate_shape(d)
        } else if t == "social.dm.fail"@ {
            true
        } else if t == "server.migrated"@ {
            server_migrated_shape(d)
        } else if t == "notify"@ {
            notify_shape(d)
        } else if t == "room.chat"@ {
            room_chat_shape(d)
        } else if t == "room.update.bracket"@ {
            true
        } else if t == "game.ready"@ {
            true
        } else if t == "game.replay.ige"@ {
            true
        } else if t == "room.update.auto"@ {
            true
        } else if t == "game.match"@ {
            true
        } else if t == "game.start"@ {
            true
        } else if t == "room.bracket.switch"@ {
            Bracket::shape(d)
        } else if t == "room.chat.send"@ {
            room_chat_send_shape(d)
        } else {
            false
        }
    }

    /// The JSON form of the payload of a packet tagged `t` read from `d`.
    pub open spec fn data_canon(t: Seq<char>, d: JsonV) -> JsonV
        decreases d, 1nat,
    {
        if t == "new"@ {
            JsonV::Null
        } else if t == "packets"@ {
            Packet::batch_canon(d)
        } else if t == "kick"@ {
            kick_canon(d)
        } else if t == "session"@ {
            session_canon(d)
        } else if t == "social.online"@ {
            d
        } else if t == "server.authorize"@ {
            if ServerAuthorize::shape(d) { ServerAuthorize::canon(d) } else { ClientAuthorize::canon(d) }
        } else if t == "ping"@ {
            ping_canon(d)
        } else if t == "social.presence"@ {
            d
        } else if t == "social.dm"@ {
            if ServerSocialDm::shape(d) { ServerSocialDm::canon(d) } else { ClientSocialDm::canon(d) }
        } else if t == "social.notification"@ {
            d
        } else if t == "social.invite"@ {
            social_invite_canon(d)
        } else if t == "room.join"@ {
            if ServerRoomJoin::shape(d) { ServerRoomJoin::canon(d) } else { d }
        } else if t == "room.update"@ {
            room_update_canon(d)
        } else if t == "server.migrate"@ {
            server_migrate_canon(d)
        } else if t == "social.dm.fail"@ {
            d
        } else if t == "server.migrated"@ {
            server_migrated_canon(d)
        } else if t == "notify"@ {
            notify_canon(d)
        } else if t == "room.chat"@ {
            room_chat_canon(d)
        } else if t == "room.update.bracket"@ {
            d
        } else if t == "game.ready"@ {
            d
        } else if t == "game.replay.ige"@ {
            d
        } else if t == "room.update.auto"@ {
            d
        } else if t == "game.match"@ {
            d
        } else if t == "game.start"@ {
            d
        } else if t == "room.bracket.switch"@ {
            Bracket::canon(d)
        } else if t == "room.chat.send"@ {
            room_chat_send_canon(d)
        } else {
            d
        }
    }
}


impl Packet {
    /// `d` can be read as the payload of a `packets` batch.
    pub open spec fn batch_shape(d: JsonV) -> bool
        decreases d, 0nat,
    {
        match d {
            JsonV::Object(fs) => match find(fs, "packets"@) {
                Some(i) => if 0 <= i < fs.len() {
                    match fs[i].1 {
                        JsonV::Array(a) => forall|n: int|
                            0 <= n < a.len() ==> Message::shape(#[trigger] a[n]),
                        _ => false,
                    }
                } else {
                    false
                },
                None => false,
            },
            _ => false,
        }
    }

    /// The JSON form of the batch read from `d`.
    pub open spec fn batch_canon(d: JsonV) -> JsonV
        decreases d, 0nat,
    {
        match d {
            JsonV::Object(fs) => match find(fs, "packets"@) {
                Some(i) => if 0 <= i < fs.len() {
                    match fs[i].1 {
                        JsonV::Array(a) => JsonV::Object(
                            seq![
                                (
                                    "packets"@,
                                    JsonV::Array(
                                        Seq::new(
                                            a.len(),
                                            |n: int|
                                                if 0 <= n < a.len() {
                                                    Message::canon(a[n])
                                                } else {
                                                    JsonV::Null
                                                },
                                        ),
                                    ),
                                ),
                            ],
                        ),
                        _ => d,
                    }
                } else {
                    d
                },
                None => d,
            },
            _ => d,
        }
    }

    fn batch_to_json(&self) -> (r: Json)
        requires
            self is Packets,
        ensures
            r@ == self.data_enc(),
        decreases self, 0nat,
    {
        match self {
            Packet::Packets { packets } => {
                let mut out: Vec<Json> = Vec::new();
                let mut i: usize = 0;
                while i < packets.len()
                    invariant
                        i <= packets.len(),
                        *self == (Packet::Packets { packets: *packets }),
                        out@.len() == i,
                        forall|k: int| 0 <= k < i ==> #[trigger] out@[k]@ == packets@[k].enc(),
                    decreases packets.len() - i,
                {
                    proof {
                        vstd::std_specs::vec::axiom_vec_index_decreases(*packets, i as int);
                        assert(decreases_to!(*self => self->Packets_packets));
                        assert(decreases_to!(*packets => packets[i as int]));
                    }
                    out.push(packets[i].to_json());
                    i += 1;
                }
                let arr = Json::Array(out);
                let ghost items = Seq::new(
                    packets.len() as nat,
                    |k: int|
                        if 0 <= k < packets.len() {
                            packets[k].enc()
                        } else {
                            JsonV::Null
                        },
                );
                assert forall|k: int| 0 <= k < packets.len() implies arr@->Array_0[k] == items[k] by {
                    assert(out@[k]@ == packets@[k].enc());
                }
                assert(arr@->Array_0 =~= items);
                assert(self.data_enc()->Object_0[0].1->Array_0 =~= items);
                let mut j = Json::object();
                j.put("packets", arr);
                assert(j@->Object_0 =~= self.data_enc()->Object_0);
                j
            },
            _ => Json::Null,
        }
    }

    #[verifier::rlimit(40)]
    fn batch_from_json(d: &Json) -> (r: Option<Packet>)
        ensures
            r is Some <==> Packet::batch_shape(d@),
            r matches Some(p) ==> p is Packets && p.data_enc() == Packet::batch_canon(d@),
        decreases d, 0nat,
    {
        let i = match d.find_key("packets") {
            Some(i) => i,
            None => return None,
        };
        let fs = match d {
            Json::Object(fs) => fs,
            _ => return None,
        };
        proof {
            lemma_find_in_range(d@->Object_0, "packets"@);
        }
        assert(d@->Object_0[i as int].1 == fs@[i as int].1@);
        let a = match &fs[i].1 {
            Json::Array(a) => a,
            _ => return None,
        };
        let ghost av = Json::Array(*a)@->Array_0;
        assert(d@->Object_0[i as int].1 == fs@[i as int].1@);
        let mut out: Vec<Message> = Vec::new();
        let mut n: usize = 0;
        while n < a.len()
            invariant
                n <= a.len(),
                *d == Json::Object(*fs),
                i < fs.len(),
                find(d@->Object_0, "packets"@) == Some(i as int),
                fs[i as int].1 == Json::Array(*a),
                av == Json::Array(*a)@->Array_0,
                d@->Object_0[i as int].1 == JsonV::Array(av),
                av.len() == a.len(),
                out@.len() == n,
                forall|k: int| 0 <= k < n ==> Message::shape(#[trigger] av[k]),
                forall|k: int| 0 <= k < n ==> #[trigger] out@[k].enc() == Message::canon(av[k]),
            decreases a.len() - n,
        {
            proof {
                vstd::std_specs::vec::axiom_vec_index_decreases(*fs, i as int);
                vstd::std_specs::vec::axiom_vec_index_decreases(*a, n as int);
                assert(decreases_to!(*d => d->Object_0));
                assert(decreases_to!(*fs => fs[i as int]));
                assert(decreases_to!(fs[i as int] => fs[i as int].1));
                assert(decreases_to!(fs[i as int].1 => fs[i as int].1->Array_0));
                assert(decreases_to!(*a => a[n as int]));
            }
            assert(av[n as int] == a@[n as int]@);
            match Message::from_json(&a[n]) {
                Ok(m) => out.push(m),
                Err(_) => {
                    assert(!Message::shape(av[n as int]));
                    return None;
                },
            }
            n += 1;
        }
        let p = Packet::Packets { packets: out };
        let ghost items = Seq::new(
            av.len(),
            |k: int|
                if 0 <= k < av.len() {
                    Message::canon(av[k])
                } else {
                    JsonV::Null
                },
        );
        assert forall|k: int| 0 <= k < out.len() implies p.data_enc()->Object_0[0].1->Array_0[k]
            == items[k] by {
            assert(out@[k].enc() == Message::canon(av[k]));
        }
        assert(p.data_enc()->Object_0[0].1->Array_0 =~= items);
        assert(Packet::batch_canon(d@)->Object_0[0].1->Array_0 =~= items);
        assert(p.data_enc()->Object_0 =~= Packet::batch_canon(d@)->Object_0);
        Some(p)
    }

    proof fn lemma_batch_round_trip(self)
        requires
            self is Packets,
        ensures
            Packet::batch_shape(self.data_enc()),
            Packet::batch_canon(self.data_enc()) == self.data_enc(),
        decreases self, 0nat,
    {
        match self {
            Packet::Packets { packets } => {
                let a = self.data_enc()->Object_0[0].1->Array_0;
                assert forall|n: int| 0 <= n < a.len() implies Message::shape(#[trigger] a[n])
                    && Message::canon(a[n]) == a[n] by {
                    vstd::std_specs::vec::axiom_vec_index_decreases(packets, n);
                    packets[n].lemma_round_trip();
                }
                assert(Packet::batch_canon(self.data_enc())->Object_0[0].1->Array_0 =~= a);
                assert(Packet::batch_canon(self.data_enc())->Object_0 =~= self.data_enc()->Object_0);
            },
            _ => {},
        }
    }
}

impl Message {
    /// The JSON form of this message: its id, its command tag and, but for
    /// `new`, its payload under `data`.
    pub open spec fn enc(&self) -> JsonV
        decreases self,
    {
        let head = seq![("id"@, opt_u64_v(self.id)), ("command"@, JsonV::Str(self.packet.tag()))];
        if self.packet is New {
            JsonV::Object(head)
        } else {
            JsonV::Object(head.push(("data"@, self.packet.data_enc())))
        }
    }

    /// `j` can be read as a `Message`.
    pub open spec fn shape(j: JsonV) -> bool
        decreases j, 2nat,
    {
        match j {
            JsonV::Object(fs) => is_opt_u64(j.field("id"@)) && match j.field("command"@) {
                Some(JsonV::Str(t)) => match find(fs, "data"@) {
                    Some(i) => if 0 <= i < fs.len() {
                        Packet::data_shape(t, fs[i].1)
                    } else {
                        false
                    },
                    None => t == "new"@,
                },
                _ => false,
            },
            _ => false,
        }
    }

    /// The JSON form of the `Message` read from `j`.
    pub open spec fn canon(j: JsonV) -> JsonV
        decreases j, 2nat,
    {
        match j {
            JsonV::Object(fs) => match j.field("command"@) {
                Some(JsonV::Str(t)) => {
                    let head = seq![("id"@, present(j.field("id"@))), ("command"@, JsonV::Str(t))];
                    if t == "new"@ {
                        JsonV::Object(head)
                    } else {
                        match find(fs, "data"@) {
                            Some(i) => if 0 <= i < fs.len() {
                                JsonV::Object(head.push(("data"@, Packet::data_canon(t, fs[i].1))))
                            } else {
                                j
                            },
                            None => j,
                        }
                    }
                },
                _ => j,
            },
            _ => j,
        }
    }

    /// The frame that carries this message.
    pub fn to_json(&self) -> (r: Json)
        ensures
            r@ == self.enc(),
        decreases self, 2nat,
    {
        let mut j = Json::object();
        j.put("id", opt_u64_json(self.id));
        j.put("command", Json::Str(String::from_str(self.packet.tag_str())));
        if !matches!(self.packet, Packet::New) {
            j.put("data", self.packet.data_to_json());
        }
        assert(j@->Object_0 =~= self.enc()->Object_0);
        j
    }

    /// Reads a message from an inbound frame.
    pub fn from_json(j: &Json) -> (r: Result<Message, DecodeError>)
        ensures
            r is Ok <==> Message::shape(j@),
            r matches Ok(m) ==> m.enc() == Message::canon(j@),
        decreases j, 2nat,
    {
        let id = match field_opt_u64(j, "id") {
            Some(id) => id,
            None => return Err(DecodeError::UnknownOrMalformed),
        };
        let t = match field_str(j, "command") {
            Some(t) => t,
            None => return Err(DecodeError::UnknownOrMalformed),
        };
        match j.find_key("data") {
            Some(i) => match j {
                Json::Object(fs) => {
                    proof {
                        lemma_find_in_range(j@->Object_0, "data"@);
                        vstd::std_specs::vec::axiom_vec_index_decreases(*fs, i as int);
                        assert(decreases_to!(*j => j->Object_0));
                        assert(decreases_to!(*fs => fs[i as int]));
                        assert(decreases_to!(fs[i as int] => fs[i as int].1));
                    }
                    assert(j@->Object_0[i as int].1 == fs@[i as int].1@);
                    proof {
                        tags();
                    }
                    match Packet::from_json(&t, &fs[i].1) {
                        Some(packet) => {
                            let m = Message { id, packet };
                            assert(m.enc()->Object_0 =~= Message::canon(j@)->Object_0);
                            Ok(m)
                        },
                        None => Err(DecodeError::UnknownOrMalformed),
                    }
                },
                _ => Err(DecodeError::UnknownOrMalformed),
            },
            None => if is_tag(&t, "new") {
                let m = Message { id, packet: Packet::New };
                assert(m.enc()->Object_0 =~= Message::canon(j@)->Object_0);
                Ok(m)
            } else {
                Err(DecodeError::UnknownOrMalformed)
            },
        }
    }

    /// Reading back the JSON form of a message gives that form again: a
    /// decoded message, encoded and decoded again, is the same message.
    pub proof fn lemma_round_trip(self)
        ensures
            Message::shape(self.enc()),
            Message::canon(self.enc()) == self.enc(),
        decreases self, 2nat,
    {
        keys_message();
        tags();
        reveal_with_fuel(find, 4);
        self.packet.lemma_data_round_trip();
        assert(Message::canon(self.enc())->Object_0 =~= self.enc()->Object_0);
    }
}

/// `t` is the tag `s`.
fn is_tag(t: &String, s: &str) -> (r: bool)
    ensures
        r == (t@ == s@),
{
    *t == String::from_str(s)
}

impl Packet {
    /// The JSON form of this packet's payload.
    pub fn data_to_json(&self) -> (r: Json)
        ensures
            r@ == self.data_enc(),
        decreases self, 1nat,
    {
        match self {
            Packet::New => Json::Null,
            Packet::Packets { packets } => Packet::batch_to_json(self),
            Packet::Kick { reason } => {
                let mut j = Json::object();
                j.put("reason", Json::Str(reason.clone()));
                assert(j@->Object_0 =~= self.data_enc()->Object_0);
                j
            },
            Packet::Session { ribbonid, tokenid } => {
                let mut j = Json::object();
                j.put("ribbonid", Json::Str(ribbonid.clone()));
                j.put("tokenid", Json::Str(tokenid.clone()));
                assert(j@->Object_0 =~= self.data_enc()->Object_0);
                j
            },
            Packet::SocialOnline(n) => Json::Number(Num::PosInt(*n as u64)),
            Packet::ServerAuthorize(e) => match e {
                Either::Server(s) => s.to_json(),
                Either::Client(c) => c.to_json(),
            },
            Packet::Ping { recvid } => {
                let mut j = Json::object();
                j.put("recvid", opt_u64_json(*recvid));
                assert(j@->Object_0 =~= self.data_enc()->Object_0);
                j
            },
            Packet::SocialPresence(j) => j.deep_copy(),
            Packet::SocialDm(e) => match e {
                Either::Server(s) => s.to_json(),
                Either::Client(c) => c.to_json(),
            },
            Packet::SocialNotification(j) => j.deep_copy(),
            Packet::SocialInvite { roomid, roomname, roomname_safe, sender } => {
                let mut j = Json::object();
                j.put("roomid", Json::Str(roomid.clone()));
                j.put("roomname", Json::Str(roomname.clone()));
                j.put("roomname_safe", opt_str_json(roomname_safe));
                j.put("sender", Json::Str(sender.clone()));
                assert(j@->Object_0 =~= self.data_enc()->Object_0);
                j
            },
            Packet::RoomJoin(e) => match e {
                Either::Server(s) => s.to_json(),
                Either::Client(c) => Json::Str(c.clone()),
            },
            Packet::RoomUpdate { allow_bots, allow_chat, creator, id, zmatch, players, state, ty, options } => {
                let mut j = Json::object();
                j.put("allowBots", Json::Bool(*allow_bots));
                j.put("allowChat", Json::Bool(*allow_chat));
                j.put("creator", Json::Str(creator.clone()));
                j.put("id", Json::Str(id.clone()));
                j.put("match", zmatch.to_json());
                j.put("players", users_to_json(players));
                j.put("state", Json::Str(state.clone()));
                j.put("type", Json::Str(ty.clone()));
                j.put("options", options.to_json());
                assert(j@->Object_0 =~= self.data_enc()->Object_0);
                j
            },
            Packet::ServerMigrate { endpoint, flag, name } => {
                let mut j = Json::object();
                j.put("endpoint", Json::Str(endpoint.clone()));
                j.put("flag", Json::Str(flag.clone()));
                j.put("name", Json::Str(name.clone()));
                assert(j@->Object_0 =~= self.data_enc()->Object_0);
                j
            },
            Packet::SocialDmFail(j) => j.deep_copy(),
            Packet::ServerMigrated {  } => {
                let mut j = Json::object();
                assert(j@->Object_0 =~= self.data_enc()->Object_0);
                j
            },
            Packet::Notify { msg, kind } => {
                let mut j = Json::object();
                j.put("msg", Json::Str(msg.clone()));
                j.put("type", opt_str_json(kind));
                assert(j@->Object_0 =~= self.data_enc()->Object_0);
                j
            },
            Packet::RoomChat { content, pinned, system, user } => {
                let mut j = Json::object();
                j.put("content", Json::Str(content.clone()));
                j.put("pinned", Json::Bool(*pinned));
                j.put("system", Json::Bool(*system));
                j.put("user", user.to_json());
                assert(j@->Object_0 =~= self.data_enc()->Object_0);
                j
            },
            Packet::RoomUpdateBracket(j) => j.deep_copy(),
            Packet::GameReady(j) => j.deep_copy(),
            Packet::GameReplayIge(j) => j.deep_copy(),
            Packet::RoomUpdateAuto(j) => j.deep_copy(),
            Packet::GameMatch(j) => j.deep_copy(),
            Packet::GameStart(j) => j.deep_copy(),
            Packet::RoomBracketSwitch(b) => b.to_json(),
            Packet::RoomChatSend { content, pinned } => {
                let mut j = Json::object();
                j.put("content", Json::Str(content.clone()));
                j.put("pinned", Json::Bool(*pinned));
                assert(j@->Object_0 =~= self.data_enc()->Object_0);
                j
            },
        }
    }

    /// Reads the payload `d` of a packet tagged `t`.
    pub fn from_json(t: &String, d: &Json) -> (r: Option<Packet>)
        ensures
            r is Some <==> Packet::data_shape(t@, d@),
            r matches Some(p) ==> p.tag() == t@ && p.data_enc() == Packet::data_canon(t@, d@),
        decreases d, 1nat,
    {
        if is_tag(t, "new") {
            if matches!(d, Json::Null) {
                Some(Packet::New)
            } else {
                None
            }
        } else if is_tag(t, "packets") {
            Packet::batch_from_json(d)
        } else if is_tag(t, "kick") {
            decode_kick(d)
        } else if is_tag(t, "session") {
            decode_session(d)
        } else if is_tag(t, "social.online") {
            match d {
                Json::Number(Num::PosInt(n)) => if *n <= usize::MAX as u64 {
                    Some(Packet::SocialOnline(*n as usize))
                } else {
                    None
                },
                _ => None,
            }
        } else if is_tag(t, "server.authorize") {
            match ServerAuthorize::from_json(d) {
                Some(s) => Some(Packet::ServerAuthorize(Either::Server(s))),
                None => match ClientAuthorize::from_json(d) {
                    Some(c) => Some(Packet::ServerAuthorize(Either::Client(c))),
                    None => None,
                },
            }
        } else if is_tag(t, "ping") {
            decode_ping(d)
        } else if is_tag(t, "social.presence") {
            Some(Packet::SocialPresence(d.deep_copy()))
        } else if is_tag(t, "social.dm") {
            match ServerSocialDm::from_json(d) {
                Some(s) => Some(Packet::SocialDm(Either::Server(s))),
                None => match ClientSocialDm::from_json(d) {
                    Some(c) => Some(Packet::SocialDm(Either::Client(c))),
                    None => None,
                },
            }
        } else if is_tag(t, "social.notification") {
            Some(Packet::SocialNotification(d.deep_copy()))
        } else if is_tag(t, "social.invite") {
            decode_social_invite(d)
        } else if is_tag(t, "room.join") {
            match ServerRoomJoin::from_json(d) {
                Some(s) => Some(Packet::RoomJoin(Either::Server(s))),
                None => match d {
                    Json::Str(s) => Some(Packet::RoomJoin(Either::Client(s.clone()))),
                    _ => None,
                },
            }
        } else if is_tag(t, "room.update") {
            decode_room_update(d)
        } else if is_tag(t, "server.migrate") {
            decode_server_migrate(d)
        } else if is_tag(t, "social.dm.fail") {
            Some(Packet::SocialDmFail(d.deep_copy()))
        } else if is_tag(t, "server.migrated") {
            decode_server_migrated(d)
        } else if is_tag(t, "notify") {
            decode_notify(d)
        } else if is_tag(t, "room.chat") {
            decode_room_chat(d)
        } else if is_tag(t, "room.update.bracket") {
            Some(Packet::RoomUpdateBracket(d.deep_copy()))
        } else if is_tag(t, "game.ready") {
            Some(Packet::GameReady(d.deep_copy()))
        } else if is_tag(t, "game.replay.ige") {
            Some(Packet::GameReplayIge(d.deep_copy()))
        } else if is_tag(t, "room.update.auto") {
            Some(Packet::RoomUpdateAuto(d.deep_copy()))
        } else if is_tag(t, "game.match") {
            Some(Packet::GameMatch(d.deep_copy()))
        } else if is_tag(t, "game.start") {
            Some(Packet::GameStart(d.deep_copy()))
        } else if is_tag(t, "room.bracket.switch") {
            match Bracket::from_json(d) {
                Some(b) => Some(Packet::RoomBracketSwitch(b)),
                None => None,
            }
        } else if is_tag(t, "room.chat.send") {
            decode_room_chat_send(d)
        } else {
            None
        }
    }

    /// Reading back the JSON form of a packet's payload gives that form again.
    pub proof fn lemma_data_round_trip(self)
        ensures
            Packet::data_shape(self.tag(), self.data_enc()),
            Packet::data_canon(self.tag(), self.data_enc()) == self.data_enc(),
        decreases self, 1nat,
    {
        tags();
        match self {
            Packet::New => {},
            Packet::Packets { .. } => self.lemma_batch_round_trip(),
            Packet::Kick { .. } => lemma_kick_round_trip(self),
            Packet::Session { .. } => lemma_session_round_trip(self),
            Packet::SocialOnline(_) => {},
            Packet::ServerAuthorize(e) => match e {
                Either::Server(s) => s.lemma_round_trip(),
                Either::Client(c) => {
                    c.lemma_round_trip();
                    keys_authorize();
                    reveal_with_fuel(find, 4);
                    assert(!ServerAuthorize::shape(c.enc()));
                },
            },
            Packet::Ping { .. } => lemma_ping_round_trip(self),
            Packet::SocialPresence(_) => {},
            Packet::SocialDm(e) => match e {
                Either::Server(s) => s.lemma_round_trip(),
                Either::Client(c) => {
                    c.lemma_round_trip();
                    keys_dm();
                    reveal_with_fuel(find, 4);
                    assert(!ServerSocialDm::shape(c.enc()));
                },
            },
            Packet::SocialNotification(_) => {},
            Packet::SocialInvite { .. } => lemma_social_invite_round_trip(self),
            Packet::RoomJoin(e) => match e {
                Either::Server(s) => s.lemma_round_trip(),
                Either::Client(c) => {},
            },
            Packet::RoomUpdate { .. } => lemma_room_update_round_trip(self),
            Packet::ServerMigrate { .. } => lemma_server_migrate_round_trip(self),
            Packet::SocialDmFail(_) => {},
            Packet::ServerMigrated { .. } => lemma_server_migrated_round_trip(self),
            Packet::Notify { .. } => lemma_notify_round_trip(self),
            Packet::RoomChat { .. } => lemma_room_chat_round_trip(self),
            Packet::RoomUpdateBracket(_) => {},
            Packet::GameReady(_) => {},
            Packet::GameReplayIge(_) => {},
            Packet::RoomUpdateAuto(_) => {},
            Packet::GameMatch(_) => {},
            Packet::GameStart(_) => {},
            Packet::RoomBracketSwitch(b) => b.lemma_round_trip(),
            Packet::RoomChatSend { .. } => lemma_room_chat_send_round_trip(self),
        }
    }
}

} // verus!
