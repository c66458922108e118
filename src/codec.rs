use crate::json::{
    field_any, field_bool, field_num, field_opt_bool, field_opt_str, field_opt_u64, field_str,
    field_u64, field_usize, find, is_bool, is_num, is_opt_bool, is_opt_str, is_opt_u64, is_str,
    is_u64, is_usize, key_sig, opt_bool_json, opt_bool_v, opt_str_json, opt_str_v, opt_u64_json,
    opt_u64_v, present, u64_v, Json, JsonV, Num,
};
use crate::packet::{
    Bracket, ClientAuthorize, ClientSocialDm, Dm, Handling, Initial, Match, Options,
    Relationship, RelationshipParty, ServerAuthorize, ServerRoomJoin, ServerSocialDm, Signature,
    SocialNotificationType, User,
};
use vstd::prelude::*;

verus! {

proof fn words_initial()
    ensures
        key_sig("tap"@) != key_sig("hold"@),
        key_sig("tap"@) != key_sig("none"@),
        key_sig("hold"@) != key_sig("none"@),
{
    reveal_strlit("tap");
    reveal_strlit("hold");
    reveal_strlit("none");
}

impl Initial {
    /// The JSON form of this value.
    pub open spec fn enc(&self) -> JsonV {
        match self {
            Initial::Tap => JsonV::Str("tap"@),
            Initial::Hold => JsonV::Str("hold"@),
            Initial::Off => JsonV::Str("none"@),
        }
    }

    /// `j` can be read as an `Initial`.
    pub open spec fn shape(j: JsonV) -> bool {
        j == JsonV::Str("tap"@) || j == JsonV::Str("hold"@) || j == JsonV::Str("none"@)
    }

    /// The JSON form of the `Initial` read from `j`.
    pub open spec fn canon(j: JsonV) -> JsonV {
        j
    }

    pub fn to_json(&self) -> (r: Json)
        ensures
            r@ == self.enc(),
    {
        match self {
            Initial::Tap => Json::Str(String::from_str("tap")),
            Initial::Hold => Json::Str(String::from_str("hold")),
            Initial::Off => Json::Str(String::from_str("none")),
        }
    }

    pub fn from_json(j: &Json) -> (r: Option<Initial>)
        ensures
            r is Some <==> Initial::shape(j@),
            r matches Some(x) ==> x.enc() == Initial::canon(j@),
    {
        match j {
            Json::Str(s) => {
                if *s == String::from_str("tap") {
                    Some(Initial::Tap)
                } else if *s == String::from_str("hold") {
                    Some(Initial::Hold)
                } else if *s == String::from_str("none") {
                    Some(Initial::Off)
                } else {
                    None
                }
            },
            _ => None,
        }
    }

    /// Reading back the JSON form of an `Initial` gives that form again.
    pub proof fn lemma_round_trip(self)
        ensures
            Initial::shape(self.enc()),
            Initial::canon(self.enc()) == self.enc(),
    {
    }
}

impl Bracket {
    /// The JSON form of this value.
    pub open spec fn enc(&self) -> JsonV {
        match self {
            Bracket::Player => JsonV::Str("player"@),
            Bracket::Spectator => JsonV::Str("spectator"@),
        }
    }

    /// `j` can be read as a `Bracket`.
    pub open spec fn shape(j: JsonV) -> bool {
        j == JsonV::Str("player"@) || j == JsonV::Str("spectator"@)
    }

    /// The JSON form of the `Bracket` read from `j`.
    pub open spec fn canon(j: JsonV) -> JsonV {
        j
    }

    pub fn to_json(&self) -> (r: Json)
        ensures
            r@ == self.enc(),
    {
        match self {
            Bracket::Player => Json::Str(String::from_str("player")),
            Bracket::Spectator => Json::Str(String::from_str("spectator")),
        }
    }

    pub fn from_json(j: &Json) -> (r: Option<Bracket>)
        ensures
            r is Some <==> Bracket::shape(j@),
            r matches Some(x) ==> x.enc() == Bracket::canon(j@),
    {
        match j {
            Json::Str(s) => {
                if *s == String::from_str("player") {
                    Some(Bracket::Player)
                } else if *s == String::from_str("spectator") {
                    Some(Bracket::Spectator)
                } else {
                    None
                }
            },
            _ => None,
        }
    }

    /// Reading back the JSON form of a `Bracket` gives that form again.
    pub proof fn lemma_round_trip(self)
        ensures
            Bracket::shape(self.enc()),
            Bracket::canon(self.enc()) == self.enc(),
    {
    }
}

/// Values of `key_sig` on the names below; they differ pairwise.
pub(crate) proof fn names_notification()
    ensures
        key_sig("test"@) == 1318926836,
        key_sig("announcement"@) == 3426562533,
        key_sig("supporter_new"@) == 3732798047,
        key_sig("supporter_gift"@) == 4001182439,
        key_sig("supporter_specialthanks"@) == 6417086580,
        key_sig("supporter_expiring"@) == 5074710505,
        key_sig("supporter_expired"@) == 4806228336,
        key_sig("friend"@) == 1826173678,
{
    reveal_strlit("test");
    reveal_strlit("announcement");
    reveal_strlit("supporter_new");
    reveal_strlit("supporter_gift");
    reveal_strlit("supporter_specialthanks");
    reveal_strlit("supporter_expiring");
    reveal_strlit("supporter_expired");
    reveal_strlit("friend");
}

impl SocialNotificationType {
    /// The JSON form of this value: the name of the kind.
    pub open spec fn enc(&self) -> JsonV {
        JsonV::Str(
            match self {
                SocialNotificationType::Test => "test"@,
                SocialNotificationType::Announcement => "announcement"@,
                SocialNotificationType::SupporterNew => "supporter_new"@,
                SocialNotificationType::SupporterGift => "supporter_gift"@,
                SocialNotificationType::SupporterSpecialthanks => "supporter_specialthanks"@,
                SocialNotificationType::SupporterExpiring => "supporter_expiring"@,
                SocialNotificationType::SupporterExpired => "supporter_expired"@,
                SocialNotificationType::Friend => "friend"@,
            },
        )
    }

    /// Reads the kind of a social notification from its name.
    pub fn from_json(j: &Json) -> (r: Option<SocialNotificationType>)
        ensures
            r matches Some(x) ==> x.enc() == j@,
            r is None ==> forall|x: SocialNotificationType| x.enc() != j@,
    {
        let s = match j {
            Json::Str(s) => s,
            _ => return None,
        };
        if *s == String::from_str("test") {
            Some(SocialNotificationType::Test)
        } else if *s == String::from_str("announcement") {
            Some(SocialNotificationType::Announcement)
        } else if *s == String::from_str("supporter_new") {
            Some(SocialNotificationType::SupporterNew)
        } else if *s == String::from_str("supporter_gift") {
            Some(SocialNotificationType::SupporterGift)
        } else if *s == String::from_str("supporter_specialthanks") {
            Some(SocialNotificationType::SupporterSpecialthanks)
        } else if *s == String::from_str("supporter_expiring") {
            Some(SocialNotificationType::SupporterExpiring)
        } else if *s == String::from_str("supporter_expired") {
            Some(SocialNotificationType::SupporterExpired)
        } else if *s == String::from_str("friend") {
            Some(SocialNotificationType::Friend)
        } else {
            None
        }
    }
}

impl Signature {
    /// The JSON form of this value: the configuration as it was received.
    pub open spec fn enc(&self) -> JsonV {
        self.0@
    }

    /// `j` can be read as a `Signature`: any value is taken as it is.
    pub open spec fn shape(j: JsonV) -> bool {
        true
    }

    /// The JSON form of the `Signature` read from `j`.
    pub open spec fn canon(j: JsonV) -> JsonV {
        j
    }

    pub fn to_json(&self) -> (r: Json)
        ensures
            r@ == self.enc(),
    {
        self.0.deep_copy()
    }

    pub fn from_json(j: &Json) -> (r: Option<Signature>)
        ensures
            r is Some <==> Signature::shape(j@),
            r matches Some(x) ==> x.enc() == Signature::canon(j@),
    {
        Some(Signature(j.deep_copy()))
    }

    /// Reading back the JSON form of a `Signature` gives that form again.
    pub proof fn lemma_round_trip(self)
        ensures
            Signature::shape(self.enc()),
            Signature::canon(self.enc()) == self.enc(),
    {
    }
}

/// The JSON form of a list of users.
pub open spec fn users_v(us: Vec<User>) -> JsonV {
    JsonV::Array(Seq::new(us.len() as nat, |i: int| us@[i].enc()))
}

/// `j` can be read as a list of users.
pub open spec fn users_shape(j: JsonV) -> bool {
    j matches JsonV::Array(a) && forall|i: int| 0 <= i < a.len() ==> User::shape(#[trigger] a[i])
}

/// The JSON form of the list of users read from `j`.
pub open spec fn users_canon(j: JsonV) -> JsonV {
    match j {
        JsonV::Array(a) => JsonV::Array(Seq::new(a.len(), |i: int| User::canon(a[i]))),
        _ => j,
    }
}

pub(crate) fn users_to_json(us: &Vec<User>) -> (r: Json)
    ensures
        r@ == users_v(*us),
{
    let mut out: Vec<Json> = Vec::new();
    let mut i: usize = 0;
    while i < us.len()
        invariant
            i <= us.len(),
            out@.len() == i,
            forall|k: int| 0 <= k < i ==> #[trigger] out@[k]@ == us@[k].enc(),
        decreases us.len() - i,
    {
        out.push(us[i].to_json());
        i += 1;
    }
    let r = Json::Array(out);
    assert forall|k: int| 0 <= k < us.len() implies r@->Array_0[k] == users_v(*us)->Array_0[k] by {
        assert(out@[k]@ == us@[k].enc());
    }
    assert(r@->Array_0 =~= users_v(*us)->Array_0);
    r
}

pub(crate) fn users_from_json(j: &Json) -> (r: Option<Vec<User>>)
    ensures
        r is Some <==> users_shape(j@),
        r matches Some(us) ==> users_v(us) == users_canon(j@),
{
    match j {
        Json::Array(a) => {
            let mut out: Vec<User> = Vec::new();
            let mut i: usize = 0;
            while i < a.len()
                invariant
                    i <= a.len(),
                    *j == Json::Array(*a),
                    out@.len() == i,
                    forall|k: int| 0 <= k < i ==> User::shape(#[trigger] j@->Array_0[k]),
                    forall|k: int|
                        0 <= k < i ==> #[trigger] out@[k].enc() == User::canon(j@->Array_0[k]),
                decreases a.len() - i,
            {
                assert(j@->Array_0[i as int] == a@[i as int]@);
                match User::from_json(&a[i]) {
                    Some(u) => out.push(u),
                    None => return None,
                }
                i += 1;
            }
            assert(users_v(out)->Array_0 =~= users_canon(j@)->Array_0);
            Some(out)
        },
        _ => None,
    }
}

/// Reading back the JSON form of a list of users gives that form again.
pub proof fn lemma_users_round_trip(us: Vec<User>)
    ensures
        users_shape(users_v(us)),
        users_canon(users_v(us)) == users_v(us),
{
    assert forall|i: int| 0 <= i < us.len() implies User::shape(#[trigger] users_v(us)->Array_0[i])
        && User::canon(users_v(us)->Array_0[i]) == users_v(us)->Array_0[i] by {
        us@[i].lemma_round_trip();
    }
    assert(users_canon(users_v(us))->Array_0 =~= users_v(us)->Array_0);
}

/// Values of `key_sig` on the names below; they differ pairwise.
proof fn keys_user()
    ensures
        key_sig("_id"@) == 1006187748,
{
    reveal_strlit("_id");
}

impl User {
    /// The JSON form of this value.
    pub open spec fn enc(&self) -> JsonV {
        JsonV::Object(
            seq![
                ("_id"@, JsonV::Str(self._id@)),
            ],
        )
    }

    /// `j` can be read as a `User`.
    pub open spec fn shape(j: JsonV) -> bool {
        &&& j is Object
        &&& is_str(j.field("_id"@))
    }

    /// The JSON form of the `User` read from `j`.
    pub open spec fn canon(j: JsonV) -> JsonV {
        JsonV::Object(
            seq![
                ("_id"@, present(j.field("_id"@))),
            ],
        )
    }

    pub fn to_json(&self) -> (r: Json)
        ensures
            r@ == self.enc(),
    {
        let mut j = Json::object();
        j.put("_id", Json::Str(self._id.clone()));
        assert(j@->Object_0 =~= self.enc()->Object_0);
        j
    }

    pub fn from_json(j: &Json) -> (r: Option<User>)
        ensures
            r is Some <==> User::shape(j@),
            r matches Some(x) ==> x.enc() == User::canon(j@),
    {
        if !matches!(j, Json::Object(_)) {
            return None;
        }
        let _id = field_str(j, "_id")?;
        let r = User { _id };
        assert(r.enc()->Object_0 =~= User::canon(j@)->Object_0);
        Some(r)
    }

    /// Reading back the JSON form of a `User` gives that form again.
    pub proof fn lemma_round_trip(self)
        ensures
            User::shape(self.enc()),
            User::canon(self.enc()) == self.enc(),
    {
        keys_user();
        reveal_with_fuel(find, 2);
        assert(self.enc().field("_id"@) == Some(JsonV::Str(self._id@)));
        assert(User::canon(self.enc())->Object_0 =~= self.enc()->Object_0);
    }
}

/// Values of `key_sig` on the names below; they differ pairwise.
proof fn keys_dm()
    ensures
        key_sig("content"@) == 2088581742,
        key_sig("content_safe"@) == 3430513249,
        key_sig("system"@) == 1853586021,
        key_sig("user"@) == 1320989426,
{
    reveal_strlit("content");
    reveal_strlit("content_safe");
    reveal_strlit("system");
    reveal_strlit("user");
}

impl Dm {
    /// The JSON form of this value.
    pub open spec fn enc(&self) -> JsonV {
        JsonV::Object(
            seq![
                ("content"@, JsonV::Str(self.content@)),
                ("content_safe"@, opt_str_v(self.content_safe)),
                ("system"@, opt_bool_v(self.system)),
                ("user"@, JsonV::Str(self.user@)),
            ],
        )
    }

    /// `j` can be read as a `Dm`.
    pub open spec fn shape(j: JsonV) -> bool {
        &&& j is Object
        &&& is_str(j.field("content"@))
        &&& is_opt_str(j.field("content_safe"@))
        &&& is_opt_bool(j.field("system"@))
        &&& is_str(j.field("user"@))
    }

    /// The JSON form of the `Dm` read from `j`.
    pub open spec fn canon(j: JsonV) -> JsonV {
        JsonV::Object(
            seq![
                ("content"@, present(j.field("content"@))),
                ("content_safe"@, present(j.field("content_safe"@))),
                ("system"@, present(j.field("system"@))),
                ("user"@, present(j.field("user"@))),
            ],
        )
    }

    pub fn to_json(&self) -> (r: Json)
        ensures
            r@ == self.enc(),
    {
        let mut j = Json::object();
        j.put("content", Json::Str(self.content.clone()));
        j.put("content_safe", opt_str_json(&self.content_safe));
        j.put("system", opt_bool_json(self.system));
        j.put("user", Json::Str(self.user.clone()));
        assert(j@->Object_0 =~= self.enc()->Object_0);
        j
    }

    pub fn from_json(j: &Json) -> (r: Option<Dm>)
        ensures
            r is Some <==> Dm::shape(j@),
            r matches Some(x) ==> x.enc() == Dm::canon(j@),
    {
        if !matches!(j, Json::Object(_)) {
            return None;
        }
        let content = field_str(j, "content")?;
        let content_safe = field_opt_str(j, "content_safe")?;
        let system = field_opt_bool(j, "system")?;
        let user = field_str(j, "user")?;
        let r = Dm { content, content_safe, system, user };
        assert(r.enc()->Object_0 =~= Dm::canon(j@)->Object_0);
        Some(r)
    }

    /// Reading back the JSON form of a `Dm` gives that form again.
    pub proof fn lemma_round_trip(self)
        ensures
            Dm::shape(self.enc()),
            Dm::canon(self.enc()) == self.enc(),
    {
        keys_dm();
        reveal_with_fuel(find, 5);
        assert(self.enc().field("content"@) == Some(JsonV::Str(self.content@)));
        assert(self.enc().field("content_safe"@) == Some(opt_str_v(self.content_safe)));
        assert(self.enc().field("system"@) == Some(opt_bool_v(self.system)));
        assert(self.enc().field("user"@) == Some(JsonV::Str(self.user@)));
        assert(Dm::canon(self.enc())->Object_0 =~= self.enc()->Object_0);
    }
}

/// Values of `key_sig` on the names below; they differ pairwise.
proof fn keys_server_social_dm()
    ensures
        key_sig("data"@) == 1285061217,
        key_sig("id"@) == 758723172,
        key_sig("stream"@) == 1853584097,
        key_sig("ts"@) == 782039539,
{
    reveal_strlit("data");
    reveal_strlit("id");
    reveal_strlit("stream");
    reveal_strlit("ts");
}

impl ServerSocialDm {
    /// The JSON form of this value.
    pub open spec fn enc(&self) -> JsonV {
        JsonV::Object(
            seq![
                ("data"@, self.data.enc()),
                ("id"@, JsonV::Str(self.id@)),
                ("stream"@, JsonV::Str(self.stream@)),
                ("ts"@, JsonV::Str(self.ts@)),
            ],
        )
    }

    /// `j` can be read as a `ServerSocialDm`.
    pub open spec fn shape(j: JsonV) -> bool {
        &&& j is Object
        &&& j.field("data"@) is Some && Dm::shape(present(j.field("data"@)))
        &&& is_str(j.field("id"@))
        &&& is_str(j.field("stream"@))
        &&& is_str(j.field("ts"@))
    }

    /// The JSON form of the `ServerSocialDm` read from `j`.
    pub open spec fn canon(j: JsonV) -> JsonV {
        JsonV::Object(
            seq![
                ("data"@, Dm::canon(present(j.field("data"@)))),
                ("id"@, present(j.field("id"@))),
                ("stream"@, present(j.field("stream"@))),
                ("ts"@, present(j.field("ts"@))),
            ],
        )
    }

    pub fn to_json(&self) -> (r: Json)
        ensures
            r@ == self.enc(),
    {
        let mut j = Json::object();
        j.put("data", self.data.to_json());
        j.put("id", Json::Str(self.id.clone()));
        j.put("stream", Json::Str(self.stream.clone()));
        j.put("ts", Json::Str(self.ts.clone()));
        assert(j@->Object_0 =~= self.enc()->Object_0);
        j
    }

    pub fn from_json(j: &Json) -> (r: Option<ServerSocialDm>)
        ensures
            r is Some <==> ServerSocialDm::shape(j@),
            r matches Some(x) ==> x.enc() == ServerSocialDm::canon(j@),
    {
        if !matches!(j, Json::Object(_)) {
            return None;
        }
        let data = Dm::from_json(j.field("data")?)?;
        let id = field_str(j, "id")?;
        let stream = field_str(j, "stream")?;
        let ts = field_str(j, "ts")?;
        let r = ServerSocialDm { data, id, stream, ts };
        assert(r.enc()->Object_0 =~= ServerSocialDm::canon(j@)->Object_0);
        Some(r)
    }

    /// Reading back the JSON form of a `ServerSocialDm` gives that form again.
    pub proof fn lemma_round_trip(self)
        ensures
            ServerSocialDm::shape(self.enc()),
            ServerSocialDm::canon(self.enc()) == self.enc(),
    {
        keys_server_social_dm();
        reveal_with_fuel(find, 5);
        self.data.lemma_round_trip();
        assert(self.enc().field("data"@) == Some(self.data.enc()));
        assert(self.enc().field("id"@) == Some(JsonV::Str(self.id@)));
        assert(self.enc().field("stream"@) == Some(JsonV::Str(self.stream@)));
        assert(self.enc().field("ts"@) == Some(JsonV::Str(self.ts@)));
        assert(ServerSocialDm::canon(self.enc())->Object_0 =~= self.enc()->Object_0);
    }
}

/// Values of `key_sig` on the names below; they differ pairwise.
proof fn keys_client_social_dm()
    ensures
        key_sig("recipient"@) == 2656909413,
        key_sig("msg"@) == 1035598311,
{
    reveal_strlit("recipient");
    reveal_strlit("msg");
}

impl ClientSocialDm {
    /// The JSON form of this value.
    pub open spec fn enc(&self) -> JsonV {
        JsonV::Object(
            seq![
                ("recipient"@, JsonV::Str(self.recipient@)),
                ("msg"@, JsonV::Str(self.msg@)),
            ],
        )
    }

    /// `j` can be read as a `ClientSocialDm`.
    pub open spec fn shape(j: JsonV) -> bool {
        &&& j is Object
        &&& is_str(j.field("recipient"@))
        &&& is_str(j.field("msg"@))
    }

    /// The JSON form of the `ClientSocialDm` read from `j`.
    pub open spec fn canon(j: JsonV) -> JsonV {
        JsonV::Object(
            seq![
                ("recipient"@, present(j.field("recipient"@))),
                ("msg"@, present(j.field("msg"@))),
            ],
        )
    }

    pub fn to_json(&self) -> (r: Json)
        ensures
            r@ == self.enc(),
    {
        let mut j = Json::object();
        j.put("recipient", Json::Str(self.recipient.clone()));
        j.put("msg", Json::Str(self.msg.clone()));
        assert(j@->Object_0 =~= self.enc()->Object_0);
        j
    }

    pub fn from_json(j: &Json) -> (r: Option<ClientSocialDm>)
        ensures
            r is Some <==> ClientSocialDm::shape(j@),
            r matches Some(x) ==> x.enc() == ClientSocialDm::canon(j@),
    {
        if !matches!(j, Json::Object(_)) {
            return None;
        }
        let recipient = field_str(j, "recipient")?;
        let msg = field_str(j, "msg")?;
        let r = ClientSocialDm { recipient, msg };
        assert(r.enc()->Object_0 =~= ClientSocialDm::canon(j@)->Object_0);
        Some(r)
    }

    /// Reading back the JSON form of a `ClientSocialDm` gives that form again.
    pub proof fn lemma_round_trip(self)
        ensures
            ClientSocialDm::shape(self.enc()),
            ClientSocialDm::canon(self.enc()) == self.enc(),
    {
        keys_client_social_dm();
        reveal_with_fuel(find, 3);
        assert(self.enc().field("recipient"@) == Some(JsonV::Str(self.recipient@)));
        assert(self.enc().field("msg"@) == Some(JsonV::Str(self.msg@)));
        assert(ClientSocialDm::canon(self.enc())->Object_0 =~= self.enc()->Object_0);
    }
}

/// Values of `key_sig` on the names below; they differ pairwise.
proof fn keys_handling()
    ensures
        key_sig("arr"@) == 1010612594,
        key_sig("das"@) == 1016918259,
        key_sig("dcd"@) == 1016672740,
        key_sig("sdf"@) == 1048162918,
        key_sig("safelock"@) == 2390423139,
        key_sig("cancel"@) == 1820013029,
        key_sig("may20g"@) == 1840896304,
        key_sig("ihs"@) == 1027404915,
        key_sig("irs"@) == 1027406195,
{
    reveal_strlit("arr");
    reveal_strlit("das");
    reveal_strlit("dcd");
    reveal_strlit("sdf");
    reveal_strlit("safelock");
    reveal_strlit("cancel");
    reveal_strlit("may20g");
    reveal_strlit("ihs");
    reveal_strlit("irs");
}

impl Handling {
    /// The JSON form of this value.
    pub open spec fn enc(&self) -> JsonV {
        JsonV::Object(
            seq![
                ("arr"@, u64_v(self.arr as u64)),
                ("das"@, u64_v(self.das as u64)),
                ("dcd"@, u64_v(self.dcd as u64)),
                ("sdf"@, u64_v(self.sdf as u64)),
                ("safelock"@, JsonV::Bool(self.safelock)),
                ("cancel"@, JsonV::Bool(self.cancel)),
                ("may20g"@, JsonV::Bool(self.may20g)),
                ("ihs"@, self.ihs.enc()),
                ("irs"@, self.irs.enc()),
            ],
        )
    }

    /// `j` can be read as a `Handling`.
    pub open spec fn shape(j: JsonV) -> bool {
        &&& j is Object
        &&& is_usize(j.field("arr"@))
        &&& is_usize(j.field("das"@))
        &&& is_usize(j.field("dcd"@))
        &&& is_usize(j.field("sdf"@))
        &&& is_bool(j.field("safelock"@))
        &&& is_bool(j.field("cancel"@))
        &&& is_bool(j.field("may20g"@))
        &&& j.field("ihs"@) is Some && Initial::shape(present(j.field("ihs"@)))
        &&& j.field("irs"@) is Some && Initial::shape(present(j.field("irs"@)))
    }

    /// The JSON form of the `Handling` read from `j`.
    pub open spec fn canon(j: JsonV) -> JsonV {
        JsonV::Object(
            seq![
                ("arr"@, present(j.field("arr"@))),
                ("das"@, present(j.field("das"@))),
                ("dcd"@, present(j.field("dcd"@))),
                ("sdf"@, present(j.field("sdf"@))),
                ("safelock"@, present(j.field("safelock"@))),
                ("cancel"@, present(j.field("cancel"@))),
                ("may20g"@, present(j.field("may20g"@))),
                ("ihs"@, Initial::canon(present(j.field("ihs"@)))),
                ("irs"@, Initial::canon(present(j.field("irs"@)))),
            ],
        )
    }

    pub fn to_json(&self) -> (r: Json)
        ensures
            r@ == self.enc(),
    {
        let mut j = Json::object();
        j.put("arr", Json::Number(Num::PosInt(self.arr as u64)));
        j.put("das", Json::Number(Num::PosInt(self.das as u64)));
        j.put("dcd", Json::Number(Num::PosInt(self.dcd as u64)));
        j.put("sdf", Json::Number(Num::PosInt(self.sdf as u64)));
        j.put("safelock", Json::Bool(self.safelock));
        j.put("cancel", Json::Bool(self.cancel));
        j.put("may20g", Json::Bool(self.may20g));
        j.put("ihs", self.ihs.to_json());
        j.put("irs", self.irs.to_json());
        assert(j@->Object_0 =~= self.enc()->Object_0);
        j
    }

    pub fn from_json(j: &Json) -> (r: Option<Handling>)
        ensures
            r is Some <==> Handling::shape(j@),
            r matches Some(x) ==> x.enc() == Handling::canon(j@),
    {
        if !matches!(j, Json::Object(_)) {
            return None;
        }
        let arr = field_usize(j, "arr")?;
        let das = field_usize(j, "das")?;
        let dcd = field_usize(j, "dcd")?;
        let sdf = field_usize(j, "sdf")?;
        let safelock = field_bool(j, "safelock")?;
        let cancel = field_bool(j, "cancel")?;
        let may20g = field_bool(j, "may20g")?;
        let ihs = Initial::from_json(j.field("ihs")?)?;
        let irs = Initial::from_json(j.field("irs")?)?;
        let r = Handling { arr, das, dcd, sdf, safelock, cancel, may20g, ihs, irs };
        assert(r.enc()->Object_0 =~= Handling::canon(j@)->Object_0);
        Some(r)
    }

    /// Reading back the JSON form of a `Handling` gives that form again.
    pub proof fn lemma_round_trip(self)
        ensures
            Handling::shape(self.enc()),
            Handling::canon(self.enc()) == self.enc(),
    {
        keys_handling();
        reveal_with_fuel(find, 10);
        self.ihs.lemma_round_trip();
        self.irs.lemma_round_trip();
        assert(self.enc().field("arr"@) == Some(u64_v(self.arr as u64)));
        assert(self.enc().field("das"@) == Some(u64_v(self.das as u64)));
        assert(self.enc().field("dcd"@) == Some(u64_v(self.dcd as u64)));
        assert(self.enc().field("sdf"@) == Some(u64_v(self.sdf as u64)));
        assert(self.enc().field("safelock"@) == Some(JsonV::Bool(self.safelock)));
        assert(self.enc().field("cancel"@) == Some(JsonV::Bool(self.cancel)));
        assert(self.enc().field("may20g"@) == Some(JsonV::Bool(self.may20g)));
        assert(self.enc().field("ihs"@) == Some(self.ihs.enc()));
        assert(self.enc().field("irs"@) == Some(self.irs.enc()));
        assert(Handling::canon(self.enc())->Object_0 =~= self.enc()->Object_0);
    }
}

/// Values of `key_sig` on the names below; they differ pairwise.
proof fn keys_client_authorize()
    ensures
        key_sig("handling"@) == 2367288942,
        key_sig("signature"@) == 2658758901,
        key_sig("token"@) == 1587262949,
{
    reveal_strlit("handling");
    reveal_strlit("signature");
    reveal_strlit("token");
}

impl ClientAuthorize {
    /// The JSON form of this value.
    pub open spec fn enc(&self) -> JsonV {
        JsonV::Object(
            seq![
                ("handling"@, self.handling.enc()),
                ("signature"@, self.signature.enc()),
                ("token"@, JsonV::Str(self.token@)),
            ],
        )
    }

    /// `j` can be read as a `ClientAuthorize`.
    pub open spec fn shape(j: JsonV) -> bool {
        &&& j is Object
        &&& j.field("handling"@) is Some && Handling::shape(present(j.field("handling"@)))
        &&& j.field("signature"@) is Some && Signature::shape(present(j.field("signature"@)))
        &&& is_str(j.field("token"@))
    }

    /// The JSON form of the `ClientAuthorize` read from `j`.
    pub open spec fn canon(j: JsonV) -> JsonV {
        JsonV::Object(
            seq![
                ("handling"@, Handling::canon(present(j.field("handling"@)))),
                ("signature"@, Signature::canon(present(j.field("signature"@)))),
                ("token"@, present(j.field("token"@))),
            ],
        )
    }

    pub fn to_json(&self) -> (r: Json)
        ensures
            r@ == self.enc(),
    {
        let mut j = Json::object();
        j.put("handling", self.handling.to_json());
        j.put("signature", self.signature.to_json());
        j.put("token", Json::Str(self.token.clone()));
        assert(j@->Object_0 =~= self.enc()->Object_0);
        j
    }

    pub fn from_json(j: &Json) -> (r: Option<ClientAuthorize>)
        ensures
            r is Some <==> ClientAuthorize::shape(j@),
            r matches Some(x) ==> x.enc() == ClientAuthorize::canon(j@),
    {
        if !matches!(j, Json::Object(_)) {
            return None;
        }
        let handling = Handling::from_json(j.field("handling")?)?;
        let signature = Signature::from_json(j.field("signature")?)?;
        let token = field_str(j, "token")?;
        let r = ClientAuthorize { handling, signature, token };
        assert(r.enc()->Object_0 =~= ClientAuthorize::canon(j@)->Object_0);
        Some(r)
    }

    /// Reading back the JSON form of a `ClientAuthorize` gives that form again.
    pub proof fn lemma_round_trip(self)
        ensures
            ClientAuthorize::shape(self.enc()),
            ClientAuthorize::canon(self.enc()) == self.enc(),
    {
        keys_client_authorize();
        reveal_with_fuel(find, 4);
        self.handling.lemma_round_trip();
        self.signature.lemma_round_trip();
        assert(self.enc().field("handling"@) == Some(self.handling.enc()));
        assert(self.enc().field("signature"@) == Some(self.signature.enc()));
        assert(self.enc().field("token"@) == Some(JsonV::Str(self.token@)));
        assert(ClientAuthorize::canon(self.enc())->Object_0 =~= self.enc()->Object_0);
    }
}

/// Values of `key_sig` on the names below; they differ pairwise.
proof fn keys_server_authorize()
    ensures
        key_sig("maintenance"@) == 3183047406,
        key_sig("worker"@) == 1862055397,
{
    reveal_strlit("maintenance");
    reveal_strlit("worker");
}

impl ServerAuthorize {
    /// The JSON form of this value.
    pub open spec fn enc(&self) -> JsonV {
        JsonV::Object(
            seq![
                ("maintenance"@, JsonV::Bool(self.maintenance)),
                ("worker"@, self.worker@),
            ],
        )
    }

    /// `j` can be read as a `ServerAuthorize`.
    pub open spec fn shape(j: JsonV) -> bool {
        &&& j is Object
        &&& is_bool(j.field("maintenance"@))
        &&& j.field("worker"@) is Some
    }

    /// The JSON form of the `ServerAuthorize` read from `j`.
    pub open spec fn canon(j: JsonV) -> JsonV {
        JsonV::Object(
            seq![
                ("maintenance"@, present(j.field("maintenance"@))),
                ("worker"@, present(j.field("worker"@))),
            ],
        )
    }

    pub fn to_json(&self) -> (r: Json)
        ensures
            r@ == self.enc(),
    {
        let mut j = Json::object();
        j.put("maintenance", Json::Bool(self.maintenance));
        j.put("worker", self.worker.deep_copy());
        assert(j@->Object_0 =~= self.enc()->Object_0);
        j
    }

    pub fn from_json(j: &Json) -> (r: Option<ServerAuthorize>)
        ensures
            r is Some <==> ServerAuthorize::shape(j@),
            r matches Some(x) ==> x.enc() == ServerAuthorize::canon(j@),
    {
        if !matches!(j, Json::Object(_)) {
            return None;
        }
        let maintenance = field_bool(j, "maintenance")?;
        let worker = field_any(j, "worker")?;
        let r = ServerAuthorize { maintenance, worker };
        assert(r.enc()->Object_0 =~= ServerAuthorize::canon(j@)->Object_0);
        Some(r)
    }

    /// Reading back the JSON form of a `ServerAuthorize` gives that form again.
    pub proof fn lemma_round_trip(self)
        ensures
            ServerAuthorize::shape(self.enc()),
            ServerAuthorize::canon(self.enc()) == self.enc(),
    {
        keys_server_authorize();
        reveal_with_fuel(find, 3);
        assert(self.enc().field("maintenance"@) == Some(JsonV::Bool(self.maintenance)));
        assert(self.enc().field("worker"@) == Some(self.worker@));
        assert(ServerAuthorize::canon(self.enc())->Object_0 =~= self.enc()->Object_0);
    }
}

/// Values of `key_sig` on the names below; they differ pairwise.
proof fn keys_server_room_join()
    ensures
        key_sig("banner"@) == 1818015589,
        key_sig("id"@) == 758723172,
        key_sig("silent"@) == 1853698798,
{
    reveal_strlit("banner");
    reveal_strlit("id");
    reveal_strlit("silent");
}

impl ServerRoomJoin {
    /// The JSON form of this value.
    pub open spec fn enc(&self) -> JsonV {
        JsonV::Object(
            seq![
                ("banner"@, opt_str_v(self.banner)),
                ("id"@, JsonV::Str(self.id@)),
                ("silent"@, JsonV::Bool(self.silent)),
            ],
        )
    }

    /// `j` can be read as a `ServerRoomJoin`.
    pub open spec fn shape(j: JsonV) -> bool {
        &&& j is Object
        &&& is_opt_str(j.field("banner"@))
        &&& is_str(j.field("id"@))
        &&& is_bool(j.field("silent"@))
    }

    /// The JSON form of the `ServerRoomJoin` read from `j`.
    pub open spec fn canon(j: JsonV) -> JsonV {
        JsonV::Object(
            seq![
                ("banner"@, present(j.field("banner"@))),
                ("id"@, present(j.field("id"@))),
                ("silent"@, present(j.field("silent"@))),
            ],
        )
    }

    pub fn to_json(&self) -> (r: Json)
        ensures
            r@ == self.enc(),
    {
        let mut j = Json::object();
        j.put("banner", opt_str_json(&self.banner));
        j.put("id", Json::Str(self.id.clone()));
        j.put("silent", Json::Bool(self.silent));
        assert(j@->Object_0 =~= self.enc()->Object_0);
        j
    }

    pub fn from_json(j: &Json) -> (r: Option<ServerRoomJoin>)
        ensures
            r is Some <==> ServerRoomJoin::shape(j@),
            r matches Some(x) ==> x.enc() == ServerRoomJoin::canon(j@),
    {
        if !matches!(j, Json::Object(_)) {
            return None;
        }
        let banner = field_opt_str(j, "banner")?;
        let id = field_str(j, "id")?;
        let silent = field_bool(j, "silent")?;
        let r = ServerRoomJoin { banner, id, silent };
        assert(r.enc()->Object_0 =~= ServerRoomJoin::canon(j@)->Object_0);
        Some(r)
    }

    /// Reading back the JSON form of a `ServerRoomJoin` gives that form again.
    pub proof fn lemma_round_trip(self)
        ensures
            ServerRoomJoin::shape(self.enc()),
            ServerRoomJoin::canon(self.enc()) == self.enc(),
    {
        keys_server_room_join();
        reveal_with_fuel(find, 4);
        assert(self.enc().field("banner"@) == Some(opt_str_v(self.banner)));
        assert(self.enc().field("id"@) == Some(JsonV::Str(self.id@)));
        assert(self.enc().field("silent"@) == Some(JsonV::Bool(self.silent)));
        assert(ServerRoomJoin::canon(self.enc())->Object_0 =~= self.enc()->Object_0);
    }
}

/// Values of `key_sig` on the names below; they differ pairwise.
proof fn keys_match()
    ensures
        key_sig("ft"@) == 752695924,
        key_sig("gamemode"@) == 2365159140,
        key_sig("gp"@) == 754727024,
        key_sig("modename"@) == 2377742189,
{
    reveal_strlit("ft");
    reveal_strlit("gamemode");
    reveal_strlit("gp");
    reveal_strlit("modename");
}

impl Match {
    /// The JSON form of this value.
    pub open spec fn enc(&self) -> JsonV {
        JsonV::Object(
            seq![
                ("ft"@, u64_v(self.ft)),
                ("gamemode"@, JsonV::Str(self.gamemode@)),
                ("gp"@, u64_v(self.gp)),
                ("modename"@, JsonV::Str(self.modename@)),
            ],
        )
    }

    /// `j` can be read as a `Match`.
    pub open spec fn shape(j: JsonV) -> bool {
        &&& j is Object
        &&& is_u64(j.field("ft"@))
        &&& is_str(j.field("gamemode"@))
        &&& is_u64(j.field("gp"@))
        &&& is_str(j.field("modename"@))
    }

    /// The JSON form of the `Match` read from `j`.
    pub open spec fn canon(j: JsonV) -> JsonV {
        JsonV::Object(
            seq![
                ("ft"@, present(j.field("ft"@))),
                ("gamemode"@, present(j.field("gamemode"@))),
                ("gp"@, present(j.field("gp"@))),
                ("modename"@, present(j.field("modename"@))),
            ],
        )
    }

    pub fn to_json(&self) -> (r: Json)
        ensures
            r@ == self.enc(),
    {
        let mut j = Json::object();
        j.put("ft", Json::Number(Num::PosInt(self.ft)));
        j.put("gamemode", Json::Str(self.gamemode.clone()));
        j.put("gp", Json::Number(Num::PosInt(self.gp)));
        j.put("modename", Json::Str(self.modename.clone()));
        assert(j@->Object_0 =~= self.enc()->Object_0);
        j
    }

    pub fn from_json(j: &Json) -> (r: Option<Match>)
        ensures
            r is Some <==> Match::shape(j@),
            r matches Some(x) ==> x.enc() == Match::canon(j@),
    {
        if !matches!(j, Json::Object(_)) {
            return None;
        }
        let ft = field_u64(j, "ft")?;
        let gamemode = field_str(j, "gamemode")?;
        let gp = field_u64(j, "gp")?;
        let modename = field_str(j, "modename")?;
        let r = Match { ft, gamemode, gp, modename };
        assert(r.enc()->Object_0 =~= Match::canon(j@)->Object_0);
        Some(r)
    }

    /// Reading back the JSON form of a `Match` gives that form again.
    pub proof fn lemma_round_trip(self)
        ensures
            Match::shape(self.enc()),
            Match::canon(self.enc()) == self.enc(),
    {
        keys_match();
        reveal_with_fuel(find, 5);
        assert(self.enc().field("ft"@) == Some(u64_v(self.ft)));
        assert(self.enc().field("gamemode"@) == Some(JsonV::Str(self.gamemode@)));
        assert(self.enc().field("gp"@) == Some(u64_v(self.gp)));
        assert(self.enc().field("modename"@) == Some(JsonV::Str(self.modename@)));
        assert(Match::canon(self.enc())->Object_0 =~= self.enc()->Object_0);
    }
}

/// Values of `key_sig` on the names below; they differ pairwise.
proof fn keys_options()
    ensures
        key_sig("allow180"@) == 2351709112,
        key_sig("allow_harddrop"@) == 3963367652,
        key_sig("bagtype"@) == 2086238832,
        key_sig("boardheight"@) == 3160224871,
        key_sig("boardwidth"@) == 2891594724,
        key_sig("display_hold"@) == 3432594671,
        key_sig("display_next"@) == 3432856805,
        key_sig("display_shadow"@) == 3969773537,
        key_sig("display_username"@) == 4506352366,
        key_sig("g"@) == 486142951,
        key_sig("gincrease"@) == 2633595233,
        key_sig("kickset"@) == 2105357797,
        key_sig("lineclear_are"@) == 3717821151,
        key_sig("seed"@) == 1316565732,
        key_sig("seed_random"@) == 3195763044,
        key_sig("spinbonuses"@) == 3195860979,
        key_sig("stock"@) == 1585117155,
        key_sig("version"@) == 2128329199,
{
    reveal_strlit("allow180");
    reveal_strlit("allow_harddrop");
    reveal_strlit("bagtype");
    reveal_strlit("boardheight");
    reveal_strlit("boardwidth");
    reveal_strlit("display_hold");
    reveal_strlit("display_next");
    reveal_strlit("display_shadow");
    reveal_strlit("display_username");
    reveal_strlit("g");
    reveal_strlit("gincrease");
    reveal_strlit("kickset");
    reveal_strlit("lineclear_are");
    reveal_strlit("seed");
    reveal_strlit("seed_random");
    reveal_strlit("spinbonuses");
    reveal_strlit("stock");
    reveal_strlit("version");
}

impl Options {
    /// The JSON form of this value.
    pub open spec fn enc(&self) -> JsonV {
        JsonV::Object(
            seq![
                ("allow180"@, JsonV::Bool(self.allow180)),
                ("allow_harddrop"@, JsonV::Bool(self.allow_harddrop)),
                ("bagtype"@, JsonV::Str(self.bagtype@)),
                ("boardheight"@, u64_v(self.boardheight)),
                ("boardwidth"@, u64_v(self.boardwidth)),
                ("display_hold"@, JsonV::Bool(self.display_hold)),
                ("display_next"@, JsonV::Bool(self.display_next)),
                ("display_shadow"@, JsonV::Bool(self.display_shadow)),
                ("display_username"@, JsonV::Bool(self.display_username)),
                ("g"@, JsonV::Number(self.g)),
                ("gincrease"@, JsonV::Number(self.gincrease)),
                ("kickset"@, JsonV::Str(self.kickset@)),
                ("lineclear_are"@, u64_v(self.lineclear_are)),
                ("seed"@, u64_v(self.seed)),
                ("seed_random"@, JsonV::Bool(self.seed_random)),
                ("spinbonuses"@, JsonV::Str(self.spinbonuses@)),
                ("stock"@, u64_v(self.stock)),
                ("version"@, u64_v(self.version)),
            ],
        )
    }

    /// `j` can be read as a `Options`.
    pub open spec fn shape(j: JsonV) -> bool {
        &&& j is Object
        &&& is_bool(j.field("allow180"@))
        &&& is_bool(j.field("allow_harddrop"@))
        &&& is_str(j.field("bagtype"@))
        &&& is_u64(j.field("boardheight"@))
        &&& is_u64(j.field("boardwidth"@))
        &&& is_bool(j.field("display_hold"@))
        &&& is_bool(j.field("display_next"@))
        &&& is_bool(j.field("display_shadow"@))
        &&& is_bool(j.field("display_username"@))
        &&& is_num(j.field("g"@))
        &&& is_num(j.field("gincrease"@))
        &&& is_str(j.field("kickset"@))
        &&& is_u64(j.field("lineclear_are"@))
        &&& is_u64(j.field("seed"@))
        &&& is_bool(j.field("seed_random"@))
        &&& is_str(j.field("spinbonuses"@))
        &&& is_u64(j.field("stock"@))
        &&& is_u64(j.field("version"@))
    }

    /// The JSON form of the `Options` read from `j`.
    pub open spec fn canon(j: JsonV) -> JsonV {
        JsonV::Object(
            seq![
                ("allow180"@, present(j.field("allow180"@))),
                ("allow_harddrop"@, present(j.field("allow_harddrop"@))),
                ("bagtype"@, present(j.field("bagtype"@))),
                ("boardheight"@, present(j.field("boardheight"@))),
                ("boardwidth"@, present(j.field("boardwidth"@))),
                ("display_hold"@, present(j.field("display_hold"@))),
                ("display_next"@, present(j.field("display_next"@))),
                ("display_shadow"@, present(j.field("display_shadow"@))),
                ("display_username"@, present(j.field("display_username"@))),
                ("g"@, present(j.field("g"@))),
                ("gincrease"@, present(j.field("gincrease"@))),
                ("kickset"@, present(j.field("kickset"@))),
                ("lineclear_are"@, present(j.field("lineclear_are"@))),
                ("seed"@, present(j.field("seed"@))),
                ("seed_random"@, present(j.field("seed_random"@))),
                ("spinbonuses"@, present(j.field("spinbonuses"@))),
                ("stock"@, present(j.field("stock"@))),
                ("version"@, present(j.field("version"@))),
            ],
        )
    }

    #[verifier::rlimit(50)]
    pub fn to_json(&self) -> (r: Json)
        ensures
            r@ == self.enc(),
    {
        let mut j = Json::object();
        j.put("allow180", Json::Bool(self.allow180));
        j.put("allow_harddrop", Json::Bool(self.allow_harddrop));
        j.put("bagtype", Json::Str(self.bagtype.clone()));
        j.put("boardheight", Json::Number(Num::PosInt(self.boardheight)));
        j.put("boardwidth", Json::Number(Num::PosInt(self.boardwidth)));
        j.put("display_hold", Json::Bool(self.display_hold));
        j.put("display_next", Json::Bool(self.display_next));
        j.put("display_shadow", Json::Bool(self.display_shadow));
        j.put("display_username", Json::Bool(self.display_username));
        j.put("g", Json::Number(self.g));
        j.put("gincrease", Json::Number(self.gincrease));
        j.put("kickset", Json::Str(self.kickset.clone()));
        j.put("lineclear_are", Json::Number(Num::PosInt(self.lineclear_are)));
        j.put("seed", Json::Number(Num::PosInt(self.seed)));
        j.put("seed_random", Json::Bool(self.seed_random));
        j.put("spinbonuses", Json::Str(self.spinbonuses.clone()));
        j.put("stock", Json::Number(Num::PosInt(self.stock)));
        j.put("version", Json::Number(Num::PosInt(self.version)));
        assert(j@->Object_0 =~= self.enc()->Object_0);
        j
    }

    pub fn from_json(j: &Json) -> (r: Option<Options>)
        ensures
            r is Some <==> Options::shape(j@),
            r matches Some(x) ==> x.enc() == Options::canon(j@),
    {
        if !matches!(j, Json::Object(_)) {
            return None;
        }
        let allow180 = field_bool(j, "allow180")?;
        let allow_harddrop = field_bool(j, "allow_harddrop")?;
        let bagtype = field_str(j, "bagtype")?;
        let boardheight = field_u64(j, "boardheight")?;
        let boardwidth = field_u64(j, "boardwidth")?;
        let display_hold = field_bool(j, "display_hold")?;
        let display_next = field_bool(j, "display_next")?;
        let display_shadow = field_bool(j, "display_shadow")?;
        let display_username = field_bool(j, "display_username")?;
        let g = field_num(j, "g")?;
        let gincrease = field_num(j, "gincrease")?;
        let kickset = field_str(j, "kickset")?;
        let lineclear_are = field_u64(j, "lineclear_are")?;
        let seed = field_u64(j, "seed")?;
        let seed_random = field_bool(j, "seed_random")?;
        let spinbonuses = field_str(j, "spinbonuses")?;
        let stock = field_u64(j, "stock")?;
        let version = field_u64(j, "version")?;
        let r = Options { allow180, allow_harddrop, bagtype, boardheight, boardwidth, display_hold, display_next, display_shadow, display_username, g, gincrease, kickset, lineclear_are, seed, seed_random, spinbonuses, stock, version };
        assert(r.enc()->Object_0 =~= Options::canon(j@)->Object_0);
        Some(r)
    }

    /// Reading back the JSON form of a `Options` gives that form again.
    pub proof fn lemma_round_trip(self)
        ensures
            Options::shape(self.enc()),
            Options::canon(self.enc()) == self.enc(),
    {
        keys_options();
        reveal_with_fuel(find, 19);
        assert(self.enc().field("allow180"@) == Some(JsonV::Bool(self.allow180)));
        assert(self.enc().field("allow_harddrop"@) == Some(JsonV::Bool(self.allow_harddrop)));
        assert(self.enc().field("bagtype"@) == Some(JsonV::Str(self.bagtype@)));
        assert(self.enc().field("boardheight"@) == Some(u64_v(self.boardheight)));
        assert(self.enc().field("boardwidth"@) == Some(u64_v(self.boardwidth)));
        assert(self.enc().field("display_hold"@) == Some(JsonV::Bool(self.display_hold)));
        assert(self.enc().field("display_next"@) == Some(JsonV::Bool(self.display_next)));
        assert(self.enc().field("display_shadow"@) == Some(JsonV::Bool(self.display_shadow)));
        assert(self.enc().field("display_username"@) == Some(JsonV::Bool(self.display_username)));
        assert(self.enc().field("g"@) == Some(JsonV::Number(self.g)));
        assert(self.enc().field("gincrease"@) == Some(JsonV::Number(self.gincrease)));
        assert(self.enc().field("kickset"@) == Some(JsonV::Str(self.kickset@)));
        assert(self.enc().field("lineclear_are"@) == Some(u64_v(self.lineclear_are)));
        assert(self.enc().field("seed"@) == Some(u64_v(self.seed)));
        assert(self.enc().field("seed_random"@) == Some(JsonV::Bool(self.seed_random)));
        assert(self.enc().field("spinbonuses"@) == Some(JsonV::Str(self.spinbonuses@)));
        assert(self.enc().field("stock"@) == Some(u64_v(self.stock)));
        assert(self.enc().field("version"@) == Some(u64_v(self.version)));
        assert(Options::canon(self.enc())->Object_0 =~= self.enc()->Object_0);
    }
}

/// Values of `key_sig` on the names below; they differ pairwise.
proof fn keys_relationship_party()
    ensures
        key_sig("_id"@) == 1006187748,
        key_sig("username"@) == 2394519405,
        key_sig("avatar_revision"@) == 4231772531,
{
    reveal_strlit("_id");
    reveal_strlit("username");
    reveal_strlit("avatar_revision");
}

impl RelationshipParty {
    /// The JSON form of this value.
    pub open spec fn enc(&self) -> JsonV {
        JsonV::Object(
            seq![
                ("_id"@, JsonV::Str(self._id@)),
                ("username"@, JsonV::Str(self.username@)),
                ("avatar_revision"@, opt_str_v(self.avatar_revision)),
            ],
        )
    }

    /// `j` can be read as a `RelationshipParty`.
    pub open spec fn shape(j: JsonV) -> bool {
        &&& j is Object
        &&& is_str(j.field("_id"@))
        &&& is_str(j.field("username"@))
        &&& is_opt_str(j.field("avatar_revision"@))
    }

    /// The JSON form of the `RelationshipParty` read from `j`.
    pub open spec fn canon(j: JsonV) -> JsonV {
        JsonV::Object(
            seq![
                ("_id"@, present(j.field("_id"@))),
                ("username"@, present(j.field("username"@))),
                ("avatar_revision"@, present(j.field("avatar_revision"@))),
            ],
        )
    }

    pub fn to_json(&self) -> (r: Json)
        ensures
            r@ == self.enc(),
    {
        let mut j = Json::object();
        j.put("_id", Json::Str(self._id.clone()));
        j.put("username", Json::Str(self.username.clone()));
        j.put("avatar_revision", opt_str_json(&self.avatar_revision));
        assert(j@->Object_0 =~= self.enc()->Object_0);
        j
    }

    pub fn from_json(j: &Json) -> (r: Option<RelationshipParty>)
        ensures
            r is Some <==> RelationshipParty::shape(j@),
            r matches Some(x) ==> x.enc() == RelationshipParty::canon(j@),
    {
        if !matches!(j, Json::Object(_)) {
            return None;
        }
        let _id = field_str(j, "_id")?;
        let username = field_str(j, "username")?;
        let avatar_revision = field_opt_str(j, "avatar_revision")?;
        let r = RelationshipParty { _id, username, avatar_revision };
        assert(r.enc()->Object_0 =~= RelationshipParty::canon(j@)->Object_0);
        Some(r)
    }

    /// Reading back the JSON form of a `RelationshipParty` gives that form again.
    pub proof fn lemma_round_trip(self)
        ensures
            RelationshipParty::shape(self.enc()),
            RelationshipParty::canon(self.enc()) == self.enc(),
    {
        keys_relationship_party();
        reveal_with_fuel(find, 4);
        assert(self.enc().field("_id"@) == Some(JsonV::Str(self._id@)));
        assert(self.enc().field("username"@) == Some(JsonV::Str(self.username@)));
        assert(self.enc().field("avatar_revision"@) == Some(opt_str_v(self.avatar_revision)));
        assert(RelationshipParty::canon(self.enc())->Object_0 =~= self.enc()->Object_0);
    }
}

/// Values of `key_sig` on the names below; they differ pairwise.
proof fn keys_relationship()
    ensures
        key_sig("ismutual"@) == 2369469025,
        key_sig("from"@) == 1289451501,
        key_sig("to"@) == 781973487,
{
    reveal_strlit("ismutual");
    reveal_strlit("from");
    reveal_strlit("to");
}

impl Relationship {
    /// The JSON form of this value.
    pub open spec fn enc(&self) -> JsonV {
        JsonV::Object(
            seq![
                ("ismutual"@, JsonV::Bool(self.ismutual)),
                ("from"@, self.from.enc()),
                ("to"@, self.to.enc()),
            ],
        )
    }

    /// `j` can be read as a `Relationship`.
    pub open spec fn shape(j: JsonV) -> bool {
        &&& j is Object
        &&& is_bool(j.field("ismutual"@))
        &&& j.field("from"@) is Some && RelationshipParty::shape(present(j.field("from"@)))
        &&& j.field("to"@) is Some && RelationshipParty::shape(present(j.field("to"@)))
    }

    /// The JSON form of the `Relationship` read from `j`.
    pub open spec fn canon(j: JsonV) -> JsonV {
        JsonV::Object(
            seq![
                ("ismutual"@, present(j.field("ismutual"@))),
                ("from"@, RelationshipParty::canon(present(j.field("from"@)))),
                ("to"@, RelationshipParty::canon(present(j.field("to"@)))),
            ],
        )
    }

    pub fn to_json(&self) -> (r: Json)
        ensures
            r@ == self.enc(),
    {
        let mut j = Json::object();
        j.put("ismutual", Json::Bool(self.ismutual));
        j.put("from", self.from.to_json());
        j.put("to", self.to.to_json());
        assert(j@->Object_0 =~= self.enc()->Object_0);
        j
    }

    pub fn from_json(j: &Json) -> (r: Option<Relationship>)
        ensures
            r is Some <==> Relationship::shape(j@),
            r matches Some(x) ==> x.enc() == Relationship::canon(j@),
    {
        if !matches!(j, Json::Object(_)) {
            return None;
        }
        let ismutual = field_bool(j, "ismutual")?;
        let from = RelationshipParty::from_json(j.field("from")?)?;
        let to = RelationshipParty::from_json(j.field("to")?)?;
        let r = Relationship { ismutual, from, to };
        assert(r.enc()->Object_0 =~= Relationship::canon(j@)->Object_0);
        Some(r)
    }

    /// Reading back the JSON form of a `Relationship` gives that form again.
    pub proof fn lemma_round_trip(self)
        ensures
            Relationship::shape(self.enc()),
            Relationship::canon(self.enc()) == self.enc(),
    {
        keys_relationship();
        reveal_with_fuel(find, 4);
        self.from.lemma_round_trip();
        self.to.lemma_round_trip();
        assert(self.enc().field("ismutual"@) == Some(JsonV::Bool(self.ismutual)));
        assert(self.enc().field("from"@) == Some(self.from.enc()));
        assert(self.enc().field("to"@) == Some(self.to.enc()));
        assert(Relationship::canon(self.enc())->Object_0 =~= self.enc()->Object_0);
    }
}

} // verus!
