use crate::codec::names_notification;
use crate::json::{present, Json, JsonV, Num};
use crate::packet::{
    Bracket, ClientAuthorize, ClientSocialDm, Either, Handling, Message, Packet, Relationship, Room,
    Session, Signature, SocialNotificationType, User,
};
use vstd::prelude::*;

verus! {

/// The host every endpoint path is served from.
pub const HOST: &'static str = "tetr.io";

/// The chat command that asks the client to join the room as a player.
pub const JOIN_COMMAND: &'static str = "~join";

/// What the connection driver is asked to do, in order.
#[derive(Debug)]
pub enum Action {
    /// Write one frame.
    Send(Message),
    /// Hand a message of a batch to a unit of work of its own.
    Dispatch(Message),
    /// Start the periodic heartbeat.
    StartHeartbeat,
    /// Cancel the running heartbeat.
    StopHeartbeat,
    /// Accept the friend request of the user with this id.
    AcceptFriend(String),
    /// End the current connection's read loop.
    Disconnect,
    /// Connect again, to the stored endpoint.
    Reconnect,
}

/// The state of one logical client.
#[derive(Debug)]
pub struct Ribbon {
    pub endpoint: String,
    pub session: Option<Session>,
    pub signature: Signature,
    pub token: String,
    pub user: User,
    pub migrating: bool,
    pub recvid: u64,
    pub heartbeat: bool,
    pub room: Option<Room>,
}

/// Packets that the ordering filter never drops.
pub open spec fn exempt(p: Packet) -> bool {
    p is Ping || p is Session || p is Packets
}

pub fn is_exempt(p: &Packet) -> (r: bool)
    ensures
        r == exempt(*p),
{
    match p {
        Packet::Ping { .. } | Packet::Session { .. } | Packet::Packets { .. } => true,
        _ => false,
    }
}

/// The presence announced once authorized.
pub open spec fn presence_v() -> JsonV {
    JsonV::Object(seq![("status"@, JsonV::Str("away"@)), ("detail"@, JsonV::Str(""@))])
}

/// The reply to a `~join` command in a room with these options: the first
/// failing constraint's rejection, or `None` when all hold.
pub open spec fn join_rejection(room: Room) -> Option<Seq<char>> {
    if room.width != 4 {
        Some("board.width must be 4"@)
    } else if !room.g.is_zero_spec() {
        Some("gravity must be 0"@)
    } else if !room.gi.is_zero_spec() {
        Some("gravity increase must be 0"@)
    } else {
        None
    }
}

/// The relationship carried by a friend request notification.
pub open spec fn friend_relationship(n: JsonV) -> JsonV {
    present(present(n.field("data"@)).field("relationship"@))
}

/// The id of the user who asked for friendship in a social notification:
/// one of type `friend` whose data holds a well-formed relationship.
pub open spec fn friend_requester(n: JsonV) -> Option<Seq<char>> {
    if n.field("type"@) == Some(SocialNotificationType::Friend.enc()) && Relationship::shape(
        friend_relationship(n),
    ) {
        Some(present(present(friend_relationship(n).field("from"@)).field("_id"@))->Str_0)
    } else {
        None
    }
}

/// `a` sends, with no sequence number, a packet for which `p` holds.
pub open spec fn sends(a: Action, p: spec_fn(Packet) -> bool) -> bool {
    a matches Action::Send(m) && m.id is None && p(m.packet)
}

/// `a` sends `text` to the room chat, unpinned.
pub open spec fn sends_chat(a: Action, text: Seq<char>) -> bool {
    sends(
        a,
        |p: Packet| p matches Packet::RoomChatSend { content, pinned } && content@ == text && !pinned,
    )
}

impl Ribbon {
    /// A client that has not connected yet.
    pub fn new(endpoint: String, signature: Signature, token: String, user: User) -> (r: Ribbon)
        ensures
            r == (Ribbon {
                endpoint,
                session: None,
                signature,
                token,
                user,
                migrating: false,
                recvid: 0,
                heartbeat: false,
                room: None,
            }),
    {
        Ribbon {
            endpoint,
            session: None,
            signature,
            token,
            user,
            migrating: false,
            recvid: 0,
            heartbeat: false,
            room: None,
        }
    }

    /// The address to connect to: the fixed host and the current endpoint path.
    pub fn uri(&self) -> (r: String)
        ensures
            r@ == "wss://"@ + HOST@ + self.endpoint@,
    {
        let s = String::from_str("wss://").concat(HOST);
        s.concat(self.endpoint.as_str())
    }

    /// `m` is stale: it has a sequence number below the cursor and is not exempt.
    pub open spec fn ignores(self, m: Message) -> bool {
        !exempt(m.packet) && (m.id matches Some(k) && k < self.recvid)
    }

    pub fn should_ignore(&self, msg: &Message) -> (r: bool)
        ensures
            r == self.ignores(*msg),
    {
        if is_exempt(&msg.packet) {
            return false;
        }
        match msg.id {
            Some(k) => k < self.recvid,
            None => false,
        }
    }

    /// The members of a batch that pass the filter, each handed on, in order.
    pub open spec fn batch_actions(self, ms: Seq<Message>) -> Seq<Action>
        decreases ms.len(),
    {
        if ms.len() == 0 {
            Seq::empty()
        } else {
            let rest = self.batch_actions(ms.drop_last());
            if self.ignores(ms.last()) {
                rest
            } else {
                rest.push(Action::Dispatch(ms.last()))
            }
        }
    }

    /// The heartbeat started afresh: any running one is cancelled first.
    pub open spec fn restart_heartbeat(self) -> Seq<Action> {
        if self.heartbeat {
            seq![Action::StopHeartbeat, Action::StartHeartbeat]
        } else {
            seq![Action::StartHeartbeat]
        }
    }

    /// The heartbeat stopped, where one runs.
    pub open spec fn stop_heartbeat(self) -> Seq<Action> {
        if self.heartbeat {
            seq![Action::StopHeartbeat]
        } else {
            Seq::empty()
        }
    }

    /// The cursor after `m` was taken on: it moves up to a non-exempt message's id.
    pub open spec fn advanced(self, m: Message) -> Ribbon {
        if !exempt(m.packet) && m.id is Some && m.id->Some_0 > self.recvid {
            Ribbon { recvid: m.id->Some_0, ..self }
        } else {
            self
        }
    }

    /// The state after `m` was processed.
    pub open spec fn dispatch_step(self, m: Message) -> Ribbon {
        let s = self.advanced(m);
        match m.packet {
            Packet::Session { ribbonid, tokenid } => Ribbon {
                session: Some(Session { ribbonid, tokenid }),
                ..s
            },
            Packet::ServerAuthorize(Either::Server(_)) => Ribbon { heartbeat: true, ..s },
            Packet::ServerMigrated {  } => Ribbon { heartbeat: true, ..s },
            Packet::ServerMigrate { endpoint, .. } => Ribbon {
                endpoint,
                migrating: true,
                heartbeat: false,
                ..s
            },
            Packet::RoomUpdate { options, .. } => Ribbon {
                room: Some(Room { width: options.boardwidth, g: options.g, gi: options.gincrease }),
                ..s
            },
            _ => s,
        }
    }

    /// `acts` is what processing `m` asks of the driver.
    pub open spec fn reacts(self, m: Message, acts: Seq<Action>) -> bool {
        match m.packet {
            Packet::Packets { packets } => acts == self.batch_actions(packets@),
            Packet::Session { .. } => acts.len() == 1 && sends(
                acts[0],
                |p: Packet|
                    p matches Packet::ServerAuthorize(Either::Client(a)) && a.handling
                        == Handling::default_spec() && a.signature.0@ == self.signature.0@
                        && a.token == self.token,
            ),
            Packet::ServerAuthorize(Either::Server(_)) => {
                let h = self.restart_heartbeat();
                &&& acts.len() == h.len() + 1
                &&& acts.take(h.len() as int) == h
                &&& sends(
                    acts.last(),
                    |p: Packet| p matches Packet::SocialPresence(j) && j@ == presence_v(),
                )
            },
            Packet::ServerMigrated {  } => acts == self.restart_heartbeat(),
            Packet::ServerMigrate { .. } => acts == self.stop_heartbeat().push(Action::Disconnect),
            Packet::SocialDm(Either::Server(dm)) => if dm.data.user@ == self.user._id@ {
                acts.len() == 0
            } else {
                acts.len() == 1 && sends(
                    acts[0],
                    |p: Packet|
                        p matches Packet::SocialDm(Either::Client(c)) && c.recipient
                            == dm.data.user && c.msg@ == "!"@,
                )
            },
            Packet::SocialInvite { roomid, .. } => acts == seq![
                Action::Send(Message { id: None, packet: Packet::RoomJoin(Either::Client(roomid)) }),
            ],
            Packet::SocialNotification(n) => match friend_requester(n@) {
                Some(id) => acts.len() == 1 && (acts[0] matches Action::AcceptFriend(s) && s@ == id),
                None => acts.len() == 0,
            },
            Packet::RoomChat { content, user, .. } => if user._id@ == self.user._id@ || content@
                != JOIN_COMMAND@ || self.room is None {
                acts.len() == 0
            } else {
                match join_rejection(self.room->Some_0) {
                    Some(text) => acts.len() == 1 && sends_chat(acts[0], text),
                    None => acts == seq![
                        Action::Send(
                            Message { id: None, packet: Packet::RoomBracketSwitch(Bracket::Player) },
                        ),
                    ],
                }
            },
            _ => acts.len() == 0,
        }
    }

    /// Takes an inbound message: drops it when stale, else processes it.
    pub fn recv(&mut self, msg: Message) -> (r: Vec<Action>)
        ensures
            old(self).ignores(msg) ==> *final(self) == *old(self) && r@.len() == 0,
            !old(self).ignores(msg) ==> *final(self) == old(self).dispatch_step(msg)
                && old(self).reacts(msg, r@),
    {
        if self.should_ignore(&msg) {
            return Vec::new();
        }
        self.dispatch(msg)
    }

    /// Processes a message that already passed the filter.
    pub fn dispatch(&mut self, msg: Message) -> (r: Vec<Action>)
        ensures
            *final(self) == old(self).dispatch_step(msg),
            old(self).reacts(msg, r@),
    {
        let ghost s0 = *self;
        if !is_exempt(&msg.packet) {
            if let Some(k) = msg.id {
                if k > self.recvid {
                    self.recvid = k;
                }
            }
        }
        assert(*self == s0.advanced(msg));
        let mut acts: Vec<Action> = Vec::new();
        match msg.packet {
            Packet::Packets { packets } => {
                let ghost all = packets@;
                let mut rest = packets;
                let n: usize = rest.len();
                assert(all.len() == n);
                let mut k: usize = 0;
                while rest.len() > 0
                    invariant
                        *self == s0,
                        k <= all.len(),
                        all.len() <= usize::MAX,
                        rest@ == all.subrange(k as int, all.len() as int),
                        acts@ == s0.batch_actions(all.subrange(0, k as int)),
                    decreases rest.len(),
                {
                    let p = rest.remove(0);
                    assert(all.subrange(0, k + 1).drop_last() =~= all.subrange(0, k as int));
                    assert(all.subrange(0, k + 1).last() == p);
                    if !self.should_ignore(&p) {
                        acts.push(Action::Dispatch(p));
                    }
                    k += 1;
                    assert(rest@ =~= all.subrange(k as int, all.len() as int));
                }
                assert(all.subrange(0, k as int) =~= all);
            },
            Packet::Session { ribbonid, tokenid } => {
                self.session = Some(Session { ribbonid, tokenid });
                let auth = ClientAuthorize {
                    handling: Handling::default(),
                    signature: Signature(self.signature.0.deep_copy()),
                    token: self.token.clone(),
                };
                acts.push(Action::Send(Message::outbound(Packet::ServerAuthorize(Either::Client(auth)))));
            },
            Packet::ServerAuthorize(Either::Server(_)) => {
                self.restart_heartbeat_into(&mut acts);
                let mut presence = Json::object();
                presence.put("status", Json::Str(String::from_str("away")));
                presence.put("detail", Json::Str(String::from_str("")));
                assert(presence@ == presence_v()) by {
                    assert(presence@->Object_0 =~= presence_v()->Object_0);
                }
                acts.push(Action::Send(Message::outbound(Packet::SocialPresence(presence))));
                assert(acts@.take(s0.restart_heartbeat().len() as int) =~= s0.restart_heartbeat());
            },
            Packet::ServerMigrated {  } => {
                self.restart_heartbeat_into(&mut acts);
            },
            Packet::ServerMigrate { endpoint, .. } => {
                if self.heartbeat {
                    acts.push(Action::StopHeartbeat);
                }
                acts.push(Action::Disconnect);
                self.endpoint = endpoint;
                self.migrating = true;
                self.heartbeat = false;
                assert(acts@ =~= s0.stop_heartbeat().push(Action::Disconnect));
            },
            Packet::SocialDm(Either::Server(dm)) => {
                if dm.data.user != self.user._id {
                    let reply = ClientSocialDm { recipient: dm.data.user, msg: String::from_str("!") };
                    acts.push(Action::Send(Message::outbound(Packet::SocialDm(Either::Client(reply)))));
                }
            },
            Packet::SocialInvite { roomid, .. } => {
                acts.push(Action::Send(Message::outbound(Packet::RoomJoin(Either::Client(roomid)))));
                assert(acts@ =~= seq![
                    Action::Send(Message { id: None, packet: Packet::RoomJoin(Either::Client(roomid)) }),
                ]);
            },
            Packet::SocialNotification(n) => {
                if let Some(id) = friend_request(&n) {
                    acts.push(Action::AcceptFriend(id));
                }
            },
            Packet::RoomChat { content, user, .. } => {
                if user._id != self.user._id && content == String::from_str(JOIN_COMMAND) {
                    if let Some(room) = self.room {
                        self.join_reply_into(room, &mut acts);
                    }
                }
            },
            Packet::RoomUpdate { options, .. } => {
                self.room = Some(Room { width: options.boardwidth, g: options.g, gi: options.gincrease });
            },
            _ => {},
        }
        acts
    }

    fn restart_heartbeat_into(&mut self, acts: &mut Vec<Action>)
        requires
            old(acts)@.len() == 0,
        ensures
            *final(self) == (Ribbon { heartbeat: true, ..*old(self) }),
            final(acts)@ == old(self).restart_heartbeat(),
    {
        if self.heartbeat {
            acts.push(Action::StopHeartbeat);
        }
        acts.push(Action::StartHeartbeat);
        self.heartbeat = true;
        assert(acts@ =~= old(self).restart_heartbeat());
    }

    fn join_reply_into(&self, room: Room, acts: &mut Vec<Action>)
        requires
            old(acts)@.len() == 0,
        ensures
            match join_rejection(room) {
                Some(text) => final(acts)@.len() == 1 && sends_chat(final(acts)@[0], text),
                None => final(acts)@ == seq![
                    Action::Send(Message { id: None, packet: Packet::RoomBracketSwitch(Bracket::Player) }),
                ],
            },
    {
        if room.width != 4 {
            acts.push(Action::Send(Ribbon::send_chat_message(String::from_str("board.width must be 4"))));
        } else if !room.g.is_zero() {
            acts.push(Action::Send(Ribbon::send_chat_message(String::from_str("gravity must be 0"))));
        } else if !room.gi.is_zero() {
            acts.push(Action::Send(Ribbon::send_chat_message(String::from_str("gravity increase must be 0"))));
        } else {
            acts.push(Action::Send(Message::outbound(Packet::RoomBracketSwitch(Bracket::Player))));
            assert(acts@ =~= seq![
                Action::Send(Message { id: None, packet: Packet::RoomBracketSwitch(Bracket::Player) }),
            ]);
        }
    }

    /// The message that says `content` in the room chat.
    pub fn send_chat_message(content: String) -> (r: Message)
        ensures
            r == (Message { id: None, packet: Packet::RoomChatSend { content, pinned: false } }),
    {
        Message::outbound(Packet::RoomChatSend { content, pinned: false })
    }

    /// A client-originated message carrying `packet`.
    pub fn send_packet(packet: Packet) -> (r: Message)
        ensures
            r == (Message { id: None, packet }),
    {
        Message::outbound(packet)
    }

    /// One heartbeat: a ping that reports the cursor.
    pub fn ping(&self) -> (r: Message)
        ensures
            r == (Message { id: None, packet: Packet::Ping { recvid: Some(self.recvid) } }),
    {
        Message::outbound(Packet::Ping { recvid: Some(self.recvid) })
    }

    /// The first packet of a connection: resume the stored session after a
    /// migration, else ask for a new one.
    pub open spec fn opening(self) -> Packet {
        if self.migrating && self.session is Some {
            Packet::Session {
                ribbonid: self.session->Some_0.ribbonid,
                tokenid: self.session->Some_0.tokenid,
            }
        } else {
            Packet::New
        }
    }

    /// A connection was opened: the message to send first.
    pub fn on_connect(&mut self) -> (r: Message)
        ensures
            r == (Message { id: None, packet: old(self).opening() }),
            *final(self) == (Ribbon { migrating: false, ..*old(self) }),
    {
        let packet = match &self.session {
            Some(s) if self.migrating => Packet::Session {
                ribbonid: s.ribbonid.clone(),
                tokenid: s.tokenid.clone(),
            },
            _ => Packet::New,
        };
        self.migrating = false;
        Message::outbound(packet)
    }

    /// The connection closed: stop the heartbeat, and connect again only when a
    /// migration asked for it.
    pub fn on_close(&mut self) -> (r: Vec<Action>)
        ensures
            *final(self) == (Ribbon { heartbeat: false, ..*old(self) }),
            r@ == if old(self).migrating {
                old(self).stop_heartbeat().push(Action::Reconnect)
            } else {
                old(self).stop_heartbeat()
            },
    {
        let mut acts: Vec<Action> = Vec::new();
        if self.heartbeat {
            acts.push(Action::StopHeartbeat);
        }
        if self.migrating {
            acts.push(Action::Reconnect);
        }
        self.heartbeat = false;
        assert(acts@ =~= if old(self).migrating {
            old(self).stop_heartbeat().push(Action::Reconnect)
        } else {
            old(self).stop_heartbeat()
        });
        acts
    }
}

/// The id of the requester, where `n` is a friend request notification.
pub fn friend_request(n: &Json) -> (r: Option<String>)
    ensures
        r matches Some(s) ==> friend_requester(n@) == Some(s@),
        r is None ==> friend_requester(n@) is None,
{
    match SocialNotificationType::from_json(n.field("type")?) {
        Some(SocialNotificationType::Friend) => {},
        _ => {
            proof {
                names_notification();
            }
            return None;
        },
    }
    let rel = Relationship::from_json(n.field("data")?.field("relationship")?)?;
    let ghost rv = friend_relationship(n@);
    assert(rel.enc()->Object_0[1].1 == Relationship::canon(rv)->Object_0[1].1);
    assert(rel.from.enc()->Object_0[0].1 == present(present(rv.field("from"@)).field("_id"@)));
    Some(rel.from._id)
}

/// A message numbered `k` is processed exactly when `k` is at least the
/// cursor, or its kind is exempt from the filter.
pub proof fn law_filter(s: Ribbon, m: Message, k: u64)
    requires
        m.id == Some(k),
    ensures
        !s.ignores(m) <==> (k >= s.recvid || exempt(m.packet)),
{
}

/// The members of a batch that pass the filter are handed on in the batch's
/// own order.
pub proof fn law_batch_order(s: Ribbon, ms: Seq<Message>)
    requires
        forall|i: int| 0 <= i < ms.len() ==> !s.ignores(#[trigger] ms[i]),
    ensures
        s.batch_actions(ms) == Seq::new(ms.len(), |i: int| Action::Dispatch(ms[i])),
    decreases ms.len(),
{
    if ms.len() > 0 {
        law_batch_order(s, ms.drop_last());
        assert(!s.ignores(ms[ms.len() - 1]));
        assert(s.batch_actions(ms) =~= Seq::new(ms.len(), |i: int| Action::Dispatch(ms[i])));
    } else {
        assert(s.batch_actions(ms) =~= Seq::new(ms.len(), |i: int| Action::Dispatch(ms[i])));
    }
}

/// After a migration the client holds the new endpoint and is migrating; the
/// next connection resumes the stored session rather than asking for a new
/// one, and leaves the migration behind.
pub proof fn law_migration_resumes(s: Ribbon, m: Message)
    requires
        m.packet is ServerMigrate,
        s.session is Some,
    ensures
        s.dispatch_step(m).endpoint == m.packet->ServerMigrate_endpoint,
        s.dispatch_step(m).migrating,
        s.dispatch_step(m).session == s.session,
        s.dispatch_step(m).opening() == (Packet::Session {
            ribbonid: s.session->Some_0.ribbonid,
            tokenid: s.session->Some_0.tokenid,
        }),
        !(Ribbon { migrating: false, ..s.dispatch_step(m) }).migrating,
{
}

/// A direct message whose sender is the client itself gets no reply.
pub proof fn law_self_dm_silent(s: Ribbon, m: Message, acts: Seq<Action>)
    requires
        m.packet matches Packet::SocialDm(Either::Server(dm)) && dm.data.user@ == s.user._id@,
        s.reacts(m, acts),
    ensures
        acts.len() == 0,
{
}

/// Processing a message never moves the cursor back.
pub proof fn law_cursor_never_decreases(s: Ribbon, m: Message)
    ensures
        s.dispatch_step(m).recvid >= s.recvid,
{
}

/// A migration keeps the session it interrupts.
pub proof fn law_migration_keeps_session(s: Ribbon, m: Message)
    requires
        m.packet is ServerMigrate,
    ensures
        s.dispatch_step(m).migrating,
        s.dispatch_step(m).session == s.session,
{
}

} // verus!
