use vstd::prelude::*;

verus! {

/// A JSON value as the library models it.
///
/// Numbers are split the way a JSON reader reports them: `Int` holds any
/// number representable as a signed 64-bit integer, `UInt` holds a
/// non-negative integer above `i64::MAX`, and `InexactNum` stands for a
/// number that is not a 64-bit integer at all (the scalar decoders reject
/// such a value wherever an integer is expected).
#[derive(Debug)]
pub enum Json {
    Null,
    Bool(bool),
    Int(i64),
    UInt(u64),
    InexactNum,
    Str(String),
    Arr(Vec<Json>),
    Obj(Vec<(String, Json)>),
}

/// A JSON object: field names paired with values, in document order.
pub type JsonObj = Vec<(String, Json)>;

/// The value of the first entry of `entries` whose key is `name`.
pub open spec fn obj_get(entries: Seq<(String, Json)>, name: Seq<char>) -> Option<Json>
    decreases entries.len(),
{
    if entries.len() == 0 {
        None
    } else if entries[0].0@ == name {
        Some(entries[0].1)
    } else {
        obj_get(entries.drop_first(), name)
    }
}

/// The number `v` holds, when it fits a signed 64-bit integer.
pub open spec fn json_as_i64(v: Json) -> Option<i64> {
    match v {
        Json::Int(i) => Some(i),
        Json::UInt(u) => if u <= i64::MAX as u64 {
            Some(u as i64)
        } else {
            None
        },
        _ => None,
    }
}

/// The number `v` holds, when it fits an unsigned 64-bit integer.
pub open spec fn json_as_u64(v: Json) -> Option<u64> {
    match v {
        Json::Int(i) => if i >= 0 {
            Some(i as u64)
        } else {
            None
        },
        Json::UInt(u) => Some(u),
        _ => None,
    }
}

/// Compares two string slices by their characters.
pub fn str_eq(a: &str, b: &str) -> (r: bool)
    ensures
        r == (a@ == b@),
{
    let aa = a.to_owned();
    let bb = b.to_owned();
    aa.eq(&bb)
}

impl Json {
    /// The number this value holds, when it fits a signed 64-bit integer.
    pub fn as_i64(&self) -> (r: Option<i64>)
        ensures
            r == json_as_i64(*self),
    {
        match self {
            Json::Int(i) => Some(*i),
            Json::UInt(u) => if *u <= i64::MAX as u64 {
                Some(*u as i64)
            } else {
                None
            },
            _ => None,
        }
    }

    /// The number this value holds, when it fits an unsigned 64-bit integer.
    pub fn as_u64(&self) -> (r: Option<u64>)
        ensures
            r == json_as_u64(*self),
    {
        match self {
            Json::Int(i) => if *i >= 0 {
                Some(*i as u64)
            } else {
                None
            },
            Json::UInt(u) => Some(*u),
            _ => None,
        }
    }

    /// The string this value holds, when it is a string.
    pub fn as_str(&self) -> (r: Option<&String>)
        ensures
            match r {
                Some(s) => self matches Json::Str(v) && v == *s,
                None => !(self matches Json::Str(_)),
            },
    {
        match self {
            Json::Str(s) => Some(s),
            _ => None,
        }
    }

    /// The boolean this value holds, when it is a boolean.
    pub fn as_bool(&self) -> (r: Option<bool>)
        ensures
            match r {
                Some(b) => *self == Json::Bool(b),
                None => !(self matches Json::Bool(_)),
            },
    {
        match self {
            Json::Bool(b) => Some(*b),
            _ => None,
        }
    }

    /// The entries of this value, when it is an object.
    pub fn as_object(&self) -> (r: Option<&JsonObj>)
        ensures
            match r {
                Some(o) => self matches Json::Obj(v) && v == *o,
                None => !(self matches Json::Obj(_)),
            },
    {
        match self {
            Json::Obj(o) => Some(o),
            _ => None,
        }
    }

    /// The elements of this value, when it is an array.
    pub fn as_array(&self) -> (r: Option<&Vec<Json>>)
        ensures
            match r {
                Some(a) => self matches Json::Arr(v) && v == *a,
                None => !(self matches Json::Arr(_)),
            },
    {
        match self {
            Json::Arr(a) => Some(a),
            _ => None,
        }
    }
}

/// Looks `name` up among `entries`, returning the first entry with that key.
pub fn obj_lookup<'m>(entries: &'m Vec<(String, Json)>, name: &str) -> (r: Option<&'m Json>)
    ensures
        match r {
            Some(v) => obj_get(entries@, name@) == Some(*v),
            None => obj_get(entries@, name@) is None,
        },
{
    let mut i: usize = 0;
    proof {
        assert(entries@.skip(0) =~= entries@);
    }
    while i < entries.len()
        invariant
            i <= entries.len(),
            obj_get(entries@, name@) == obj_get(entries@.skip(i as int), name@),
        decreases entries.len() - i,
    {
        proof {
            assert(entries@.skip(i as int)[0] == entries@[i as int]);
            assert(entries@.skip(i as int).drop_first() =~= entries@.skip(i + 1 as int));
        }
        if str_eq(entries[i].0.as_str(), name) {
            return Some(&entries[i].1);
        }
        i += 1;
    }
    None
}

} // verus!
