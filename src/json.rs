use vstd::prelude::*;

verus! {

/// A JSON number as it stands on the wire: a non-negative integer, a negative
/// integer, or any other number, held as its IEEE-754 bit pattern.
#[derive(Clone, Copy, Debug, PartialEq, Eq, Structural)]
pub enum Num {
    PosInt(u64),
    NegInt(i64),
    Float(u64),
}

/// The bit pattern of negative zero.
pub const NEG_ZERO_BITS: u64 = 0x8000_0000_0000_0000;

impl Num {
    /// The number compares equal to zero (`0`, `-0`, `0.0` or `-0.0`).
    pub open spec fn is_zero_spec(self) -> bool {
        match self {
            Num::PosInt(n) => n == 0,
            Num::NegInt(n) => n == 0,
            Num::Float(b) => b == 0 || b == NEG_ZERO_BITS,
        }
    }

    pub fn is_zero(&self) -> (r: bool)
        ensures
            r == self.is_zero_spec(),
    {
        match self {
            Num::PosInt(n) => *n == 0,
            Num::NegInt(n) => *n == 0,
            Num::Float(b) => *b == 0 || *b == NEG_ZERO_BITS,
        }
    }
}

/// The mathematical value of a JSON document.
pub enum JsonV {
    Null,
    Bool(bool),
    Number(Num),
    Str(Seq<char>),
    Array(Seq<JsonV>),
    Object(Seq<(Seq<char>, JsonV)>),
}

/// A JSON document. Objects keep their members in order; a key looked up
/// finds its last occurrence.
#[derive(Debug, PartialEq)]
pub enum Json {
    Null,
    Bool(bool),
    Number(Num),
    Str(String),
    Array(Vec<Json>),
    Object(Vec<(String, Json)>),
}

impl Json {
    pub open spec fn view(self) -> JsonV
        decreases self,
    {
        match self {
            Json::Null => JsonV::Null,
            Json::Bool(b) => JsonV::Bool(b),
            Json::Number(n) => JsonV::Number(n),
            Json::Str(s) => JsonV::Str(s@),
            Json::Array(v) => JsonV::Array(
                Seq::new(
                    v.len() as nat,
                    |i: int|
                        if 0 <= i < v.len() {
                            v[i].view()
                        } else {
                            JsonV::Null
                        },
                ),
            ),
            Json::Object(v) => JsonV::Object(
                Seq::new(
                    v.len() as nat,
                    |i: int|
                        if 0 <= i < v.len() {
                            (v[i].0@, v[i].1.view())
                        } else {
                            (Seq::empty(), JsonV::Null)
                        },
                ),
            ),
        }
    }
}

/// Index of the last member of `fs` whose key is `k`.
pub open spec fn find(fs: Seq<(Seq<char>, JsonV)>, k: Seq<char>) -> Option<int>
    decreases fs.len(),
{
    if fs.len() == 0 {
        None
    } else if fs.last().0 == k {
        Some(fs.len() - 1)
    } else {
        find(fs.drop_last(), k)
    }
}

pub proof fn lemma_find_in_range(fs: Seq<(Seq<char>, JsonV)>, k: Seq<char>)
    ensures
        find(fs, k) matches Some(i) ==> 0 <= i < fs.len() && fs[i].0 == k,
    decreases fs.len(),
{
    if fs.len() > 0 && fs.last().0 != k {
        lemma_find_in_range(fs.drop_last(), k);
    }
}

impl JsonV {
    /// The value of member `k` of an object; `None` when absent or not an object.
    pub open spec fn field(self, k: Seq<char>) -> Option<JsonV> {
        match self {
            JsonV::Object(fs) => match find(fs, k) {
                Some(i) => if 0 <= i < fs.len() {
                    Some(fs[i].1)
                } else {
                    None
                },
                None => None,
            },
            _ => None,
        }
    }
}

/// A number that tells apart the keys of one object: its length and four of
/// its characters.
pub open spec fn key_sig(s: Seq<char>) -> int {
    let n = s.len() as int;
    (((n * 128 + s[0] as int) * 128 + s[n - 1] as int) * 128 + s[n / 2] as int) * 128 + s[n * 3 / 4] as int
}

/// An absent member reads as `null`.
pub open spec fn present(o: Option<JsonV>) -> JsonV {
    match o {
        Some(v) => v,
        None => JsonV::Null,
    }
}

pub open spec fn is_str(o: Option<JsonV>) -> bool {
    o matches Some(JsonV::Str(_))
}

pub open spec fn is_bool(o: Option<JsonV>) -> bool {
    o matches Some(JsonV::Bool(_))
}

pub open spec fn is_num(o: Option<JsonV>) -> bool {
    o matches Some(JsonV::Number(_))
}

pub open spec fn is_u64(o: Option<JsonV>) -> bool {
    o matches Some(JsonV::Number(Num::PosInt(_)))
}

pub open spec fn is_usize(o: Option<JsonV>) -> bool {
    o matches Some(JsonV::Number(Num::PosInt(n))) && n <= usize::MAX
}

pub open spec fn is_opt_str(o: Option<JsonV>) -> bool {
    o is None || o == Some(JsonV::Null) || is_str(o)
}

pub open spec fn is_opt_bool(o: Option<JsonV>) -> bool {
    o is None || o == Some(JsonV::Null) || is_bool(o)
}

pub open spec fn is_opt_u64(o: Option<JsonV>) -> bool {
    o is None || o == Some(JsonV::Null) || is_u64(o)
}

pub open spec fn u64_v(n: u64) -> JsonV {
    JsonV::Number(Num::PosInt(n))
}

pub open spec fn opt_str_v(o: Option<String>) -> JsonV {
    match o {
        Some(s) => JsonV::Str(s@),
        None => JsonV::Null,
    }
}

pub open spec fn opt_bool_v(o: Option<bool>) -> JsonV {
    match o {
        Some(b) => JsonV::Bool(b),
        None => JsonV::Null,
    }
}

pub open spec fn opt_u64_v(o: Option<u64>) -> JsonV {
    match o {
        Some(n) => u64_v(n),
        None => JsonV::Null,
    }
}

impl Json {
    /// A copy with the same value.
    pub fn deep_copy(&self) -> (r: Json)
        ensures
            r@ == self@,
        decreases self,
    {
        match self {
            Json::Null => Json::Null,
            Json::Bool(b) => Json::Bool(*b),
            Json::Number(n) => Json::Number(*n),
            Json::Str(s) => Json::Str(s.clone()),
            Json::Array(v) => {
                let mut out: Vec<Json> = Vec::new();
                let mut i: usize = 0;
                while i < v.len()
                    invariant
                        i <= v.len(),
                        *self == Json::Array(*v),
                        out@.len() == i,
                        forall|k: int| 0 <= k < i ==> #[trigger] out@[k]@ == v@[k]@,
                    decreases v.len() - i,
                {
                    proof {
                        vstd::std_specs::vec::axiom_vec_index_decreases(*v, i as int);
                        assert(decreases_to!(*self => self->Array_0));
                        assert(decreases_to!(*v => v[i as int]));
                    }
                    out.push(v[i].deep_copy());
                    i += 1;
                }
                let r = Json::Array(out);
                assert(r@ == self@) by {
                    assert forall|k: int| 0 <= k < out.len() implies r@->Array_0[k] == self@->Array_0[k] by {
                        assert(out@[k]@ == v@[k]@);
                    }
                    assert(r@->Array_0 =~= self@->Array_0);
                }
                r
            },
            Json::Object(v) => {
                let mut out: Vec<(String, Json)> = Vec::new();
                let mut i: usize = 0;
                while i < v.len()
                    invariant
                        i <= v.len(),
                        *self == Json::Object(*v),
                        out@.len() == i,
                        forall|k: int|
                            0 <= k < i ==> #[trigger] out@[k].0@ == v@[k].0@ && out@[k].1@
                                == v@[k].1@,
                    decreases v.len() - i,
                {
                    proof {
                        vstd::std_specs::vec::axiom_vec_index_decreases(*v, i as int);
                        assert(decreases_to!(*self => self->Object_0));
                        assert(decreases_to!(*v => v[i as int]));
                        assert(decreases_to!(v[i as int] => v[i as int].1));
                    }
                    out.push((v[i].0.clone(), v[i].1.deep_copy()));
                    i += 1;
                }
                let r = Json::Object(out);
                assert(r@ == self@) by {
                    assert forall|k: int| 0 <= k < out.len() implies r@->Object_0[k] == self@->Object_0[k] by {
                        assert(out@[k].0@ == v@[k].0@);
                        assert(out@[k].1@ == v@[k].1@);
                    }
                    assert(r@->Object_0 =~= self@->Object_0);
                }
                r
            },
        }
    }

    /// Index of the last member with key `k`, where `self` is an object.
    pub fn find_key(&self, k: &str) -> (r: Option<usize>)
        ensures
            match self@ {
                JsonV::Object(fs) => match find(fs, k@) {
                    Some(i) => r == Some(i as usize),
                    None => r is None,
                },
                _ => r is None,
            },
            r matches Some(i) ==> self is Object && i < self->Object_0@.len(),
    {
        match self {
            Json::Object(fs) => {
                let ghost all = self@->Object_0;
                let key = String::from_str(k);
                let mut n: usize = fs.len();
                assert(all.subrange(0, n as int) =~= all);
                while n > 0
                    invariant
                        n <= fs.len(),
                        all.len() == fs.len(),
                        all == self@->Object_0,
                        self == Json::Object(*fs),
                        key@ == k@,
                        find(all, k@) == find(all.subrange(0, n as int), k@),
                    decreases n,
                {
                    let ghost pre = all.subrange(0, n as int);
                    assert(pre.last().0 == fs@[n - 1].0@);
                    if fs[n - 1].0 == key {
                        return Some(n - 1);
                    }
                    assert(pre.drop_last() =~= all.subrange(0, n - 1));
                    n -= 1;
                }
                None
            },
            _ => None,
        }
    }

    /// The value of member `k` of an object.
    pub fn field(&self, k: &str) -> (r: Option<&Json>)
        ensures
            r matches Some(v) ==> self@.field(k@) == Some(v@),
            r is None ==> self@.field(k@) is None,
    {
        match self.find_key(k) {
            Some(i) => match self {
                Json::Object(fs) => {
                    proof {
                        lemma_find_in_range(self@->Object_0, k@);
                    }
                    Some(&fs[i].1)
                },
                _ => None,
            },
            None => None,
        }
    }

    /// An empty object.
    pub fn object() -> (r: Json)
        ensures
            r@ == JsonV::Object(Seq::empty()),
    {
        let r = Json::Object(Vec::new());
        assert(r@->Object_0 =~= Seq::empty());
        r
    }

    /// Appends member `k` with value `v` to an object.
    pub fn put(&mut self, k: &str, v: Json)
        requires
            old(self)@ is Object,
        ensures
            final(self)@ == JsonV::Object(old(self)@->Object_0.push((k@, v@))),
    {
        let ghost before = self@->Object_0;
        match self {
            Json::Object(fs) => {
                fs.push((String::from_str(k), v));
            },
            _ => {},
        }
        assert(self@->Object_0 =~= before.push((k@, v@)));
    }
}

/// Reads member `k` as a string.
pub fn field_str(j: &Json, k: &str) -> (r: Option<String>)
    ensures
        r is Some <==> is_str(j@.field(k@)),
        r matches Some(s) ==> j@.field(k@) == Some(JsonV::Str(s@)),
{
    match j.field(k) {
        Some(Json::Str(s)) => Some(s.clone()),
        _ => None,
    }
}

/// Reads member `k` as a boolean.
pub fn field_bool(j: &Json, k: &str) -> (r: Option<bool>)
    ensures
        r is Some <==> is_bool(j@.field(k@)),
        r matches Some(b) ==> j@.field(k@) == Some(JsonV::Bool(b)),
{
    match j.field(k) {
        Some(Json::Bool(b)) => Some(*b),
        _ => None,
    }
}

/// Reads member `k` as any number.
pub fn field_num(j: &Json, k: &str) -> (r: Option<Num>)
    ensures
        r is Some <==> is_num(j@.field(k@)),
        r matches Some(n) ==> j@.field(k@) == Some(JsonV::Number(n)),
{
    match j.field(k) {
        Some(Json::Number(n)) => Some(*n),
        _ => None,
    }
}

/// Reads member `k` as a non-negative integer.
pub fn field_u64(j: &Json, k: &str) -> (r: Option<u64>)
    ensures
        r is Some <==> is_u64(j@.field(k@)),
        r matches Some(n) ==> j@.field(k@) == Some(u64_v(n)),
{
    match j.field(k) {
        Some(Json::Number(Num::PosInt(n))) => Some(*n),
        _ => None,
    }
}

/// Reads member `k` as a non-negative integer that fits in `usize`.
pub fn field_usize(j: &Json, k: &str) -> (r: Option<usize>)
    ensures
        r is Some <==> is_usize(j@.field(k@)),
        r matches Some(n) ==> j@.field(k@) == Some(u64_v(n as u64)),
{
    match j.field(k) {
        Some(Json::Number(Num::PosInt(n))) => if *n <= usize::MAX as u64 {
            Some(*n as usize)
        } else {
            None
        },
        _ => None,
    }
}

/// Reads member `k` as any value.
pub fn field_any(j: &Json, k: &str) -> (r: Option<Json>)
    ensures
        r is Some <==> j@.field(k@) is Some,
        r matches Some(v) ==> j@.field(k@) == Some(v@),
{
    match j.field(k) {
        Some(v) => Some(v.deep_copy()),
        None => None,
    }
}

/// Reads member `k` as an optional string: absent or `null` is `None`.
pub fn field_opt_str(j: &Json, k: &str) -> (r: Option<Option<String>>)
    ensures
        r is Some <==> is_opt_str(j@.field(k@)),
        r matches Some(o) ==> opt_str_v(o) == present(j@.field(k@)),
{
    match j.field(k) {
        None => Some(None),
        Some(Json::Null) => Some(None),
        Some(Json::Str(s)) => Some(Some(s.clone())),
        _ => None,
    }
}

/// Reads member `k` as an optional boolean: absent or `null` is `None`.
pub fn field_opt_bool(j: &Json, k: &str) -> (r: Option<Option<bool>>)
    ensures
        r is Some <==> is_opt_bool(j@.field(k@)),
        r matches Some(o) ==> opt_bool_v(o) == present(j@.field(k@)),
{
    match j.field(k) {
        None => Some(None),
        Some(Json::Null) => Some(None),
        Some(Json::Bool(b)) => Some(Some(*b)),
        _ => None,
    }
}

/// Reads member `k` as an optional non-negative integer: absent or `null` is `None`.
pub fn field_opt_u64(j: &Json, k: &str) -> (r: Option<Option<u64>>)
    ensures
        r is Some <==> is_opt_u64(j@.field(k@)),
        r matches Some(o) ==> opt_u64_v(o) == present(j@.field(k@)),
{
    match j.field(k) {
        None => Some(None),
        Some(Json::Null) => Some(None),
        Some(Json::Number(Num::PosInt(n))) => Some(Some(*n)),
        _ => None,
    }
}

pub fn opt_str_json(o: &Option<String>) -> (r: Json)
    ensures
        r@ == opt_str_v(*o),
{
    match o {
        Some(s) => Json::Str(s.clone()),
        None => Json::Null,
    }
}

pub fn opt_bool_json(o: Option<bool>) -> (r: Json)
    ensures
        r@ == opt_bool_v(o),
{
    match o {
        Some(b) => Json::Bool(b),
        None => Json::Null,
    }
}

pub fn opt_u64_json(o: Option<u64>) -> (r: Json)
    ensures
        r@ == opt_u64_v(o),
{
    match o {
        Some(n) => Json::Number(Num::PosInt(n)),
        None => Json::Null,
    }
}

} // verus!
