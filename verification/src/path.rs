use vstd::prelude::*;
use vstd::utf8::encode_utf8;
use crate::codec::{base64_decode, base64_decoded, hash_of_hex, parse_hash256, push_str, Hash256};
use crate::err::{errv, res_v, ErrKind, ErrV, ParseError};
use crate::json::{json_as_i64, json_as_u64, obj_get, obj_lookup, Json, JsonObj};
use crate::num::{capped_dec_of_bytes, i64_of_bytes, GRAMS_CAP};

verus! {

/// The UTF-8 bytes of a string value; numeric text is read byte-wise.
pub open spec fn sbytes(s: String) -> Seq<u8> {
    encode_utf8(s@)
}

/// A JSON object together with the traversal path that led to it, kept for
/// diagnostics: every getter reports failures against this path.
#[derive(Debug)]
pub struct PathMap<'m> {
    /// The object in scope.
    pub map: &'m JsonObj,
    /// The path segments from the document root, starting at the sentinel
    /// segment `root`.
    pub path: Vec<String>,
}

/// Looking a field up: the value, or a missing-field error at `p`.
pub open spec fn get_item_spec(o: Seq<(String, Json)>, p: Seq<Seq<char>>, name: Seq<char>) -> Result<
    Json,
    ErrV,
> {
    match obj_get(o, name) {
        Some(v) => Ok(v),
        None => Err(errv(ErrKind::MissingField, p, name)),
    }
}

/// A field that must be an object: its entries, or an error.
pub open spec fn get_obj_spec(o: Seq<(String, Json)>, p: Seq<Seq<char>>, name: Seq<char>) -> Result<
    Seq<(String, Json)>,
    ErrV,
> {
    match obj_get(o, name) {
        None => Err(errv(ErrKind::MissingField, p, name)),
        Some(Json::Obj(v)) => Ok(v@),
        Some(_) => Err(errv(ErrKind::WrongType, p, name)),
    }
}

/// A field that must be an array: its elements, or an error.
pub open spec fn get_vec_spec(o: Seq<(String, Json)>, p: Seq<Seq<char>>, name: Seq<char>) -> Result<
    Seq<Json>,
    ErrV,
> {
    match obj_get(o, name) {
        None => Err(errv(ErrKind::MissingField, p, name)),
        Some(Json::Arr(v)) => Ok(v@),
        Some(_) => Err(errv(ErrKind::WrongType, p, name)),
    }
}

/// A field that must be a string: its value, or an error.
pub open spec fn get_str_spec(o: Seq<(String, Json)>, p: Seq<Seq<char>>, name: Seq<char>) -> Result<
    String,
    ErrV,
> {
    match obj_get(o, name) {
        None => Err(errv(ErrKind::MissingField, p, name)),
        Some(Json::Str(s)) => Ok(s),
        Some(_) => Err(errv(ErrKind::WrongType, p, name)),
    }
}

/// A field that must be a boolean: its value, or an error.
pub open spec fn get_bool_spec(o: Seq<(String, Json)>, p: Seq<Seq<char>>, name: Seq<char>) -> Result<
    bool,
    ErrV,
> {
    match obj_get(o, name) {
        None => Err(errv(ErrKind::MissingField, p, name)),
        Some(Json::Bool(b)) => Ok(b),
        Some(_) => Err(errv(ErrKind::WrongType, p, name)),
    }
}

/// A field that must be a 256-bit hash in hex: its bytes, or an error.
pub open spec fn get_uint256_spec(o: Seq<(String, Json)>, p: Seq<Seq<char>>, name: Seq<char>) -> Result<
    Seq<u8>,
    ErrV,
> {
    match get_str_spec(o, p, name) {
        Err(e) => Err(e),
        Ok(s) => match hash_of_hex(sbytes(s)) {
            Some(h) => Ok(h),
            None => Err(errv(ErrKind::ParseFailure, p, name)),
        },
    }
}

/// A field that must be base64 text: its decoded bytes, or an error.
pub open spec fn get_base64_spec(o: Seq<(String, Json)>, p: Seq<Seq<char>>, name: Seq<char>) -> Result<
    Seq<u8>,
    ErrV,
> {
    match get_str_spec(o, p, name) {
        Err(e) => Err(e),
        Ok(s) => match base64_decoded(s@) {
            Some(b) => Ok(b),
            None => Err(errv(ErrKind::ParseFailure, p, name)),
        },
    }
}

/// Deriving a child context from an array element: the element must itself
/// be an object, and the failure is charged to the array's field name.
pub open spec fn cont_spec(v: Json, p: Seq<Seq<char>>, name: Seq<char>) -> Result<
    Seq<(String, Json)>,
    ErrV,
> {
    match v {
        Json::Obj(o) => Ok(o@),
        _ => Err(errv(ErrKind::WrongType, p, name)),
    }
}

/// The flexible integer resolution: a native 64-bit number under `name`;
/// else a decimal string under `name` with `_dec` appended; else a string
/// under `name`, read as hex when it starts with `0x` and as decimal
/// otherwise.
pub open spec fn get_num_spec(o: Seq<(String, Json)>, p: Seq<Seq<char>>, name: Seq<char>) -> Result<
    i64,
    ErrV,
> {
    if obj_get(o, name) is Some && json_as_i64(obj_get(o, name)->Some_0) is Some {
        Ok(json_as_i64(obj_get(o, name)->Some_0)->Some_0)
    } else {
        match obj_get(o, name + "_dec"@) {
            Some(Json::Str(s)) => match i64_of_bytes(sbytes(s), 10) {
                Some(v) => Ok(v),
                None => Err(errv(ErrKind::ParseFailure, p, name)),
            },
            _ => match obj_get(o, name) {
                Some(Json::Str(s)) => {
                    let b = sbytes(s);
                    if b.len() >= 2 && b[0] == 48 && b[1] == 120 {
                        match i64_of_bytes(b.skip(2), 16) {
                            Some(v) => Ok(v),
                            None => Err(errv(ErrKind::ParseFailure, p, name)),
                        }
                    } else {
                        match i64_of_bytes(b, 10) {
                            Some(v) => Ok(v),
                            None => Err(errv(ErrKind::ParseFailure, p, name)),
                        }
                    }
                },
                _ => Err(errv(ErrKind::MissingOrInvalidNumber, p, name)),
            },
        }
    }
}

/// The flexible currency resolution: a native unsigned 64-bit number under
/// `name`; else a decimal string under `name` with `_dec` appended; else a
/// decimal string under `name`. Hex is never accepted, and the amount must
/// lie below `GRAMS_CAP`.
pub open spec fn get_grams_spec(o: Seq<(String, Json)>, p: Seq<Seq<char>>, name: Seq<char>) -> Result<
    u128,
    ErrV,
> {
    if obj_get(o, name) is Some && json_as_u64(obj_get(o, name)->Some_0) is Some {
        Ok(json_as_u64(obj_get(o, name)->Some_0)->Some_0 as u128)
    } else {
        match obj_get(o, name + "_dec"@) {
            Some(Json::Str(s)) => match capped_dec_of_bytes(sbytes(s), GRAMS_CAP) {
                Some(v) => Ok(v),
                None => Err(errv(ErrKind::ParseFailure, p, name)),
            },
            _ => match obj_get(o, name) {
                Some(Json::Str(s)) => match capped_dec_of_bytes(sbytes(s), GRAMS_CAP) {
                    Some(v) => Ok(v),
                    None => Err(errv(ErrKind::ParseFailure, p, name)),
                },
                _ => Err(errv(ErrKind::MissingOrInvalidNumber, p, name)),
            },
        }
    }
}

impl<'m> PathMap<'m> {
    /// The entries of the object in scope.
    pub open spec fn entries(&self) -> Seq<(String, Json)> {
        self.map@
    }

    /// The traversal path, as character sequences.
    pub open spec fn pathv(&self) -> Seq<Seq<char>> {
        self.path.deep_view()
    }

    /// Scopes a fresh accessor over `map`, rooted at the sentinel path.
    pub fn new(map: &'m JsonObj) -> (r: PathMap<'m>)
        ensures
            r.entries() == map@,
            r.pathv() =~= seq!["root"@],
    {
        let mut path: Vec<String> = Vec::new();
        path.push("root".to_owned());
        let r = PathMap { map, path };
        proof {
            assert(r.pathv() =~= seq!["root"@]);
        }
        r
    }

    /// The path of this accessor extended by one segment.
    fn extended(&self, name: &str) -> (r: Vec<String>)
        ensures
            r.deep_view() == self.pathv().push(name@),
    {
        let mut segs = clone_path(&self.path);
        segs.push(name.to_owned());
        proof {
            assert(segs.deep_view() =~~= self.pathv().push(name@));
        }
        segs
    }

    /// Derives a child accessor from an array element that must itself be an
    /// object, extending the path with the array's field name.
    pub fn cont(prev: &PathMap<'m>, name: &str, value: &'m Json) -> (r: Result<
        PathMap<'m>,
        ParseError,
    >)
        ensures
            match r {
                Ok(m) => value matches Json::Obj(o) && m.entries() == o@ && m.pathv()
                    == prev.pathv().push(name@),
                Err(e) => !(value matches Json::Obj(_)) && e@ == errv(
                    ErrKind::WrongType,
                    prev.pathv(),
                    name@,
                ),
            },
    {
        match value {
            Json::Obj(o) => Ok(PathMap { map: o, path: prev.extended(name) }),
            _ => Err(ParseError::at(ErrKind::WrongType, &prev.path, name)),
        }
    }

    /// The entries of the object in scope, for callers that walk all fields.
    pub fn iter(&self) -> (r: &'m JsonObj)
        ensures
            r@ == self.entries(),
    {
        self.map
    }

    /// Looks a field up, failing with a missing-field error naming the path.
    pub fn get_item(&self, name: &str) -> (r: Result<&'m Json, ParseError>)
        ensures
            match r {
                Ok(v) => get_item_spec(self.entries(), self.pathv(), name@) == Ok::<Json, ErrV>(*v),
                Err(e) => get_item_spec(self.entries(), self.pathv(), name@) == Err::<
                    Json,
                    ErrV,
                >(e@),
            },
    {
        match obj_lookup(self.map, name) {
            Some(v) => Ok(v),
            None => Err(ParseError::at(ErrKind::MissingField, &self.path, name)),
        }
    }

    /// A field that must be an object: a child accessor scoped to it.
    pub fn get_obj(&self, name: &str) -> (r: Result<PathMap<'m>, ParseError>)
        ensures
            match r {
                Ok(m) => get_obj_spec(self.entries(), self.pathv(), name@) == Ok::<_, ErrV>(
                    m.entries(),
                ) && m.pathv() == self.pathv().push(name@),
                Err(e) => get_obj_spec(self.entries(), self.pathv(), name@) == Err::<
                    Seq<(String, Json)>,
                    _,
                >(e@),
            },
    {
        match obj_lookup(self.map, name) {
            None => Err(ParseError::at(ErrKind::MissingField, &self.path, name)),
            Some(v) => match v {
                Json::Obj(o) => Ok(PathMap { map: o, path: self.extended(name) }),
                _ => Err(ParseError::at(ErrKind::WrongType, &self.path, name)),
            },
        }
    }

    /// A field that must be an array: its elements.
    pub fn get_vec(&self, name: &str) -> (r: Result<&'m Vec<Json>, ParseError>)
        ensures
            match r {
                Ok(v) => get_vec_spec(self.entries(), self.pathv(), name@) == Ok::<_, ErrV>(v@),
                Err(e) => get_vec_spec(self.entries(), self.pathv(), name@) == Err::<Seq<Json>, _>(
                    e@,
                ),
            },
    {
        match obj_lookup(self.map, name) {
            None => Err(ParseError::at(ErrKind::MissingField, &self.path, name)),
            Some(v) => match v {
                Json::Arr(a) => Ok(a),
                _ => Err(ParseError::at(ErrKind::WrongType, &self.path, name)),
            },
        }
    }

    /// A field that must be a string: its value.
    pub fn get_str(&self, name: &str) -> (r: Result<&'m String, ParseError>)
        ensures
            match r {
                Ok(s) => get_str_spec(self.entries(), self.pathv(), name@) == Ok::<_, ErrV>(*s),
                Err(e) => get_str_spec(self.entries(), self.pathv(), name@) == Err::<String, _>(e@),
            },
    {
        match obj_lookup(self.map, name) {
            None => Err(ParseError::at(ErrKind::MissingField, &self.path, name)),
            Some(v) => match v {
                Json::Str(s) => Ok(s),
                _ => Err(ParseError::at(ErrKind::WrongType, &self.path, name)),
            },
        }
    }

    /// A field that must be a boolean: its value.
    pub fn get_bool(&self, name: &str) -> (r: Result<bool, ParseError>)
        ensures
            res_v(r) == get_bool_spec(self.entries(), self.pathv(), name@),
    {
        match obj_lookup(self.map, name) {
            None => Err(ParseError::at(ErrKind::MissingField, &self.path, name)),
            Some(v) => match v {
                Json::Bool(b) => Ok(*b),
                _ => Err(ParseError::at(ErrKind::WrongType, &self.path, name)),
            },
        }
    }

    /// A field that must be a 256-bit hash in hex: its value.
    pub fn get_uint256(&self, name: &str) -> (r: Result<Hash256, ParseError>)
        ensures
            match r {
                Ok(h) => get_uint256_spec(self.entries(), self.pathv(), name@) == Ok::<_, ErrV>(h@)
                    && h.wf(),
                Err(e) => get_uint256_spec(self.entries(), self.pathv(), name@) == Err::<
                    Seq<u8>,
                    _,
                >(e@),
            },
    {
        let s = self.get_str(name)?;
        match parse_hash256(s.as_str()) {
            Some(h) => Ok(h),
            None => Err(ParseError::at(ErrKind::ParseFailure, &self.path, name)),
        }
    }

    /// A field that must be base64 text: its decoded bytes.
    pub fn get_base64(&self, name: &str) -> (r: Result<Vec<u8>, ParseError>)
        ensures
            match r {
                Ok(b) => get_base64_spec(self.entries(), self.pathv(), name@) == Ok::<_, ErrV>(b@),
                Err(e) => get_base64_spec(self.entries(), self.pathv(), name@) == Err::<
                    Seq<u8>,
                    _,
                >(e@),
            },
    {
        let s = self.get_str(name)?;
        match base64_decode(s.as_str()) {
            Some(b) => Ok(b),
            None => Err(ParseError::at(ErrKind::ParseFailure, &self.path, name)),
        }
    }

    /// Resolves a logical integer field across its accepted encodings.
    pub fn get_num(&self, name: &str) -> (r: Result<i64, ParseError>)
        ensures
            res_v(r) == get_num_spec(self.entries(), self.pathv(), name@),
    {
        match obj_lookup(self.map, name) {
            Some(v) => match v.as_i64() {
                Some(i) => {
                    return Ok(i);
                },
                None => {},
            },
            None => {},
        }
        let mut dec_name = name.to_owned();
        push_str(&mut dec_name, "_dec");
        match obj_lookup(self.map, dec_name.as_str()) {
            Some(v) => match v {
                Json::Str(s) => {
                    return match crate::num::parse_i64_bytes(s.as_str().as_bytes(), 10) {
                        Some(x) => Ok(x),
                        None => Err(ParseError::at(ErrKind::ParseFailure, &self.path, name)),
                    };
                },
                _ => {},
            },
            None => {},
        }
        match obj_lookup(self.map, name) {
            Some(v) => match v {
                Json::Str(s) => {
                    let b = s.as_str().as_bytes();
                    if b.len() >= 2 && b[0] == 48 && b[1] == 120 {
                        let body: &[u8] = &b[2..b.len()];
                        proof {
                            assert(body@ =~= sbytes(*s).skip(2));
                        }
                        match crate::num::parse_i64_bytes(body, 16) {
                            Some(x) => Ok(x),
                            None => Err(ParseError::at(ErrKind::ParseFailure, &self.path, name)),
                        }
                    } else {
                        match crate::num::parse_i64_bytes(b, 10) {
                            Some(x) => Ok(x),
                            None => Err(ParseError::at(ErrKind::ParseFailure, &self.path, name)),
                        }
                    }
                },
                _ => Err(ParseError::at(ErrKind::MissingOrInvalidNumber, &self.path, name)),
            },
            None => Err(ParseError::at(ErrKind::MissingOrInvalidNumber, &self.path, name)),
        }
    }

    /// Resolves a currency amount across its accepted encodings; hex is
    /// never accepted.
    pub fn get_grams(&self, name: &str) -> (r: Result<u128, ParseError>)
        ensures
            res_v(r) == get_grams_spec(self.entries(), self.pathv(), name@),
    {
        match obj_lookup(self.map, name) {
            Some(v) => match v.as_u64() {
                Some(u) => {
                    return Ok(u as u128);
                },
                None => {},
            },
            None => {},
        }
        let mut dec_name = name.to_owned();
        push_str(&mut dec_name, "_dec");
        match obj_lookup(self.map, dec_name.as_str()) {
            Some(v) => match v {
                Json::Str(s) => {
                    return match crate::num::parse_capped_dec_bytes(
                        s.as_str().as_bytes(),
                        GRAMS_CAP,
                    ) {
                        Some(x) => Ok(x),
                        None => Err(ParseError::at(ErrKind::ParseFailure, &self.path, name)),
                    };
                },
                _ => {},
            },
            None => {},
        }
        match obj_lookup(self.map, name) {
            Some(v) => match v {
                Json::Str(s) => match crate::num::parse_capped_dec_bytes(
                    s.as_str().as_bytes(),
                    GRAMS_CAP,
                ) {
                    Some(x) => Ok(x),
                    None => Err(ParseError::at(ErrKind::ParseFailure, &self.path, name)),
                },
                _ => Err(ParseError::at(ErrKind::MissingOrInvalidNumber, &self.path, name)),
            },
            None => Err(ParseError::at(ErrKind::MissingOrInvalidNumber, &self.path, name)),
        }
    }

    /// Overwrites `value` with the field's number, truncated to 32 bits,
    /// when the field resolves; leaves it untouched otherwise.
    pub fn get_u32(&self, name: &str, value: &mut u32)
        ensures
            *final(value) == (match get_num_spec(self.entries(), self.pathv(), name@) {
                Ok(v) => v as u32,
                Err(_) => *old(value),
            }),
    {
        match self.get_num(name) {
            Ok(v) => {
                *value = #[verifier::truncate] (v as u32);
            },
            Err(_) => {},
        }
    }

    /// Overwrites `value` with the field's number, truncated to 16 bits,
    /// when the field resolves; leaves it untouched otherwise.
    pub fn get_u16(&self, name: &str, value: &mut u16)
        ensures
            *final(value) == (match get_num_spec(self.entries(), self.pathv(), name@) {
                Ok(v) => v as u16,
                Err(_) => *old(value),
            }),
    {
        match self.get_num(name) {
            Ok(v) => {
                *value = #[verifier::truncate] (v as u16);
            },
            Err(_) => {},
        }
    }

    /// Overwrites `value` with the field's number, truncated to 8 bits,
    /// when the field resolves; leaves it untouched otherwise.
    pub fn get_u8(&self, name: &str, value: &mut u8)
        ensures
            *final(value) == (match get_num_spec(self.entries(), self.pathv(), name@) {
                Ok(v) => v as u8,
                Err(_) => *old(value),
            }),
    {
        match self.get_num(name) {
            Ok(v) => {
                *value = #[verifier::truncate] (v as u8);
            },
            Err(_) => {},
        }
    }

    /// The field's number truncated to 16 bits, or the resolution error.
    pub fn get_num16(&self, name: &str) -> (r: Result<u16, ParseError>)
        ensures
            res_v(r) == (match get_num_spec(self.entries(), self.pathv(), name@) {
                Ok(v) => Ok(v as u16),
                Err(e) => Err::<u16, ErrV>(e),
            }),
    {
        let v = self.get_num(name)?;
        Ok(#[verifier::truncate] (v as u16))
    }
}

/// Copies a path, segment by segment.
fn clone_path(path: &Vec<String>) -> (r: Vec<String>)
    ensures
        r.deep_view() == path.deep_view(),
{
    let segs = path.clone();
    proof {
        assert forall|i: int| 0 <= i < path@.len() implies segs@[i] == path@[i] by {
            assert(cloned::<String>(path@[i], segs@[i]));
        }
        assert(segs.deep_view() =~~= path.deep_view());
    }
    segs
}

} // verus!
