use crate::json::{Json, Num};
use vstd::prelude::*;

verus! {

/// A logical session, as issued by the server in a `session` packet.
#[derive(Debug)]
pub struct Session {
    pub ribbonid: String,
    pub tokenid: String,
}

/// A user, known by id.
#[derive(Debug)]
pub struct User {
    pub _id: String,
}

/// A payload whose shape depends on its direction: the server's form is tried
/// first when decoding.
#[derive(Debug)]
pub enum Either<T, U> {
    Server(T),
    Client(U),
}

/// The server configuration presented verbatim when authorizing.
#[derive(Debug)]
pub struct Signature(pub Json);

/// One frame of the protocol: an optional sequence number and a packet.
#[derive(Debug)]
pub struct Message {
    pub id: Option<u64>,
    pub packet: Packet,
}

/// The command catalog; each variant's tag is given by `Packet::tag`.
#[derive(Debug)]
pub enum Packet {
    New,
    Packets { packets: Vec<Message> },
    Kick { reason: String },
    Session { ribbonid: String, tokenid: String },
    SocialOnline(usize),
    ServerAuthorize(Either<ServerAuthorize, ClientAuthorize>),
    Ping { recvid: Option<u64> },
    SocialPresence(Json),
    SocialDm(Either<ServerSocialDm, ClientSocialDm>),
    SocialNotification(Json),
    SocialInvite {
        roomid: String,
        roomname: String,
        roomname_safe: Option<String>,
        sender: String,
    },
    RoomJoin(Either<ServerRoomJoin, String>),
    RoomUpdate {
        allow_bots: bool,
        allow_chat: bool,
        creator: String,
        id: String,
        zmatch: Match,
        players: Vec<User>,
        state: String,
        ty: String,
        options: Options,
    },
    ServerMigrate { endpoint: String, flag: String, name: String },
    SocialDmFail(Json),
    ServerMigrated {},
    Notify { msg: String, kind: Option<String> },
    RoomChat { content: String, pinned: bool, system: bool, user: User },
    RoomUpdateBracket(Json),
    GameReady(Json),
    GameReplayIge(Json),
    RoomUpdateAuto(Json),
    GameMatch(Json),
    GameStart(Json),
    RoomBracketSwitch(Bracket),
    RoomChatSend { content: String, pinned: bool },
}

/// A direct message as the server delivers it.
#[derive(Debug)]
pub struct ServerSocialDm {
    pub data: Dm,
    pub id: String,
    pub stream: String,
    pub ts: String,
}

/// A direct message as the client sends it.
#[derive(Debug)]
pub struct ClientSocialDm {
    pub recipient: String,
    pub msg: String,
}

/// The client's authorization request.
#[derive(Debug)]
pub struct ClientAuthorize {
    pub handling: Handling,
    pub signature: Signature,
    pub token: String,
}

/// The server's authorization acknowledgement.
#[derive(Debug)]
pub struct ServerAuthorize {
    pub maintenance: bool,
    pub worker: Json,
}

/// The server's confirmation that a room was joined.
#[derive(Debug)]
pub struct ServerRoomJoin {
    pub banner: Option<String>,
    pub id: String,
    pub silent: bool,
}

/// A participation role in a room.
#[derive(Clone, Copy, Debug, PartialEq, Eq, Structural)]
pub enum Bracket {
    Player,
    Spectator,
}

/// The body of a direct message; `user` is the sender's id.
#[derive(Debug)]
pub struct Dm {
    pub content: String,
    pub content_safe: Option<String>,
    pub system: Option<bool>,
    pub user: String,
}

/// Input timing configuration sent when authorizing.
#[derive(Clone, Copy, Debug, PartialEq, Eq, Structural)]
pub struct Handling {
    pub arr: usize,
    pub das: usize,
    pub dcd: usize,
    pub sdf: usize,
    pub safelock: bool,
    pub cancel: bool,
    pub may20g: bool,
    pub ihs: Initial,
    pub irs: Initial,
}

/// What an initial hold or rotation does.
#[derive(Clone, Copy, Debug, PartialEq, Eq, Structural)]
pub enum Initial {
    Tap,
    Hold,
    /// Written `none` on the wire.
    Off,
}

impl Handling {
    /// The fixed profile this client authorizes with.
    pub open spec fn default_spec() -> Handling {
        Handling {
            arr: 2,
            das: 10,
            dcd: 0,
            sdf: 6,
            safelock: true,
            cancel: false,
            may20g: true,
            ihs: Initial::Tap,
            irs: Initial::Tap,
        }
    }
}

impl Default for Handling {
    fn default() -> (r: Handling)
        ensures
            r == Handling::default_spec(),
    {
        Handling {
            arr: 2,
            das: 10,
            dcd: 0,
            sdf: 6,
            safelock: true,
            cancel: false,
            may20g: true,
            ihs: Initial::Tap,
            irs: Initial::Tap,
        }
    }
}

/// The locally cached options of the current room.
#[derive(Clone, Copy, Debug, PartialEq, Eq, Structural)]
pub struct Room {
    pub width: u64,
    pub g: Num,
    pub gi: Num,
}

/// The match settings of a room.
#[derive(Debug)]
pub struct Match {
    pub ft: u64,
    pub gamemode: String,
    pub gp: u64,
    pub modename: String,
}

/// The game options of a room.
#[derive(Debug)]
pub struct Options {
    pub allow180: bool,
    pub allow_harddrop: bool,
    pub bagtype: String,
    pub boardheight: u64,
    pub boardwidth: u64,
    pub display_hold: bool,
    pub display_next: bool,
    pub display_shadow: bool,
    pub display_username: bool,
    pub g: Num,
    pub gincrease: Num,
    pub kickset: String,
    pub lineclear_are: u64,
    pub seed: u64,
    pub seed_random: bool,
    pub spinbonuses: String,
    pub stock: u64,
    pub version: u64,
}

/// One side of a relationship between two users.
#[derive(Debug)]
pub struct RelationshipParty {
    pub _id: String,
    pub username: String,
    pub avatar_revision: Option<String>,
}

/// A relationship between two users; `from` is the one who asked.
#[derive(Debug)]
pub struct Relationship {
    pub ismutual: bool,
    pub from: RelationshipParty,
    pub to: RelationshipParty,
}

/// The kinds of social notification.
#[derive(Clone, Copy, Debug, PartialEq, Eq, Structural)]
pub enum SocialNotificationType {
    Test,
    Announcement,
    SupporterNew,
    SupporterGift,
    SupporterSpecialthanks,
    SupporterExpiring,
    SupporterExpired,
    Friend,
}

/// The body of a social notification.
#[derive(Debug)]
pub enum SocialNotification {
    Test { message: String },
    Announcement {
        pri: Option<String>,
        sec: Option<String>,
        img_main: Option<String>,
        img_sub: Option<String>,
        header: String,
        content: String,
        action: Option<String>,
    },
    SupporterNew,
    SupporterExpired,
    SupporterGift {
        userid: String,
        username: String,
        avatar_revision: Option<String>,
        months: usize,
    },
    SupporterSpecialthanks,
    SupporterExpiring { expires: String },
    Friend { relationship: Relationship },
}

/// Why an inbound frame could not be taken as a `Message`.
#[derive(Clone, Copy, Debug, PartialEq, Eq, Structural)]
pub enum DecodeError {
    UnknownOrMalformed,
}

impl Message {
    /// A client-originated message: no sequence number.
    pub fn outbound(packet: Packet) -> (r: Message)
        ensures
            r == (Message { id: None, packet }),
    {
        Message { id: None, packet }
    }
}

} // verus!
