//! A JSON value as the decoder reads it.
use vstd::prelude::*;

verus! {

/// A JSON number: an integer that fits in a `u64` or an `i64`, or one with a
/// fraction or an exponent, which no message field accepts.
#[derive(Debug, Clone, Copy, PartialEq, Eq, Structural)]
pub enum JsonNumber {
    PosInt(u64),
    NegInt(i64),
    Fraction,
}

/// A JSON value. The members of an object keep their order; a lookup finds
/// the first member with the key.
#[derive(Debug, PartialEq)]
pub enum Json {
    Null,
    Bool(bool),
    Number(JsonNumber),
    Str(String),
    Array(Vec<Json>),
    Object(Vec<(String, Json)>),
}

/// The value of the first member named `key`.
pub open spec fn lookup(members: Seq<(String, Json)>, key: Seq<char>) -> Option<Json>
    decreases members.len(),
{
    if members.len() == 0 {
        None
    } else if members[0].0@ == key {
        Some(members[0].1)
    } else {
        lookup(members.drop_first(), key)
    }
}

/// The member `key` of `j`, if `j` is an object that has one.
pub open spec fn member(j: Json, key: Seq<char>) -> Option<Json> {
    match j {
        Json::Object(members) => lookup(members@, key),
        _ => None,
    }
}

/// The integer that `j` holds.
pub open spec fn integer_of(j: Json) -> Option<int> {
    match j {
        Json::Number(JsonNumber::PosInt(v)) => Some(v as int),
        Json::Number(JsonNumber::NegInt(v)) => Some(v as int),
        _ => None,
    }
}

pub open spec fn as_i32(j: Json) -> Option<i32> {
    match integer_of(j) {
        Some(v) => if i32::MIN <= v <= i32::MAX { Some(v as i32) } else { None },
        None => None,
    }
}

pub open spec fn as_u8(j: Json) -> Option<u8> {
    match integer_of(j) {
        Some(v) => if 0 <= v <= u8::MAX { Some(v as u8) } else { None },
        None => None,
    }
}

pub open spec fn as_usize(j: Json) -> Option<usize> {
    match integer_of(j) {
        Some(v) => if 0 <= v <= usize::MAX { Some(v as usize) } else { None },
        None => None,
    }
}

pub open spec fn as_string(j: Json) -> Option<String> {
    match j {
        Json::Str(s) => Some(s),
        _ => None,
    }
}

/// The member `key` of `j`, found by a linear scan.
pub fn get_member<'a>(j: &'a Json, key: &str) -> (r: Option<&'a Json>)
    ensures
        match r {
            Some(v) => member(*j, key@) == Some(*v),
            None => member(*j, key@) is None,
        },
{
    match j {
        Json::Object(members) => {
            let wanted = key.to_owned();
            let n = members.len();
            let mut i: usize = 0;
            assert(members@.subrange(0, n as int) =~= members@);
            while i < n
                invariant
                    n == members@.len(),
                    wanted@ == key@,
                    member(*j, key@) == lookup(members@, key@),
                    i <= n,
                    lookup(members@, key@) == lookup(members@.subrange(i as int, n as int), key@),
                decreases n - i,
            {
                proof {
                    let tail = members@.subrange(i as int, n as int);
                    assert(tail[0] == members@[i as int]);
                    assert(tail.drop_first() =~= members@.subrange(i + 1, n as int));
                }
                if members[i].0 == wanted {
                    assert(members@.subrange(i as int, n as int).len() > 0);
                    return Some(&members[i].1);
                }
                i = i + 1;
            }
            None
        },
        _ => None,
    }
}

} // verus!
