//! JSON documents as trees, and the field readers that the decoders use.
use vstd::prelude::*;
use vstd::utf8::encode_utf8;
use crate::number::{integer_value, decimal_value, parse_integer, parse_decimal};

verus! {

/// A JSON value.
#[derive(Debug)]
pub enum Json {
    Null,
    Bool(bool),
    /// A number, held as its decimal text (`12`, `-3`, `0.5`).
    Number(String),
    Str(String),
    Array(Vec<Json>),
    /// The members of an object, in document order.
    Object(Vec<(String, Json)>),
}

/// `LIMIT` as a signed number.
pub const LIMIT_I: i128 = 18446744073709551616;

/// Tells objects from other values.
pub fn is_object(j: &Json) -> (r: bool)
    ensures
        r == (*j is Object),
{
    match j {
        Json::Object(_) => true,
        _ => false,
    }
}

/// The value of the first member named `key`.
pub open spec fn lookup(members: Seq<(String, Json)>, key: Seq<char>) -> Option<Json>
    decreases members.len(),
{
    if members.len() == 0 {
        None
    } else if members[0].0@ == key {
        Some(members[0].1)
    } else {
        lookup(members.drop_first(), key)
    }
}

/// The member `key` of an object; `None` when `j` is no object or lacks it.
pub open spec fn field(j: Json, key: Seq<char>) -> Option<Json> {
    match j {
        Json::Object(members) => lookup(members@, key),
        _ => None,
    }
}

/// Reads the member `key` of an object.
pub fn get_field<'a>(j: &'a Json, key: &str) -> (r: Option<&'a Json>)
    ensures
        match r {
            Some(v) => field(*j, key@) == Some(*v),
            None => field(*j, key@) is None,
        },
{
    match j {
        Json::Object(members) => {
            let k = key.to_owned();
            let mut i: usize = 0;
            assert(members@.subrange(0, members@.len() as int) =~= members@);
            while i < members.len()
                invariant
                    i <= members@.len(),
                    k@ == key@,
                    field(*j, key@) == lookup(members@, key@),
                    lookup(members@.subrange(i as int, members@.len() as int), key@)
                        == lookup(members@, key@),
                decreases members@.len() - i,
            {
                let ghost rest = members@.subrange(i as int, members@.len() as int);
                assert(rest.drop_first() =~= members@.subrange(i + 1, members@.len() as int));
                assert(rest[0] == members@[i as int]);
                if members[i].0 == k {
                    assert(lookup(rest, key@) == Some(rest[0].1));
                    let v = &members[i].1;
                    return Some(v);
                }
                i += 1;
            }
            None
        },
        _ => None,
    }
}

/// Why a payload did not decode.
#[derive(Debug, PartialEq, Eq)]
pub enum DecodeError {
    /// The answer is no JSON text.
    NotJson,
    /// The payload, or an element of a list, is not a JSON object.
    NotAnObject,
    /// A required field is absent.
    MissingField(String),
    /// A field holds a value of the wrong kind, or a number out of range.
    InvalidField(String),
}

impl DecodeError {
    /// This error reports the field `key`, whose value is `f`: missing when
    /// it is absent, invalid when it is there.
    pub open spec fn reports(self, f: Option<Json>, key: Seq<char>) -> bool {
        match self {
            DecodeError::MissingField(n) => n@ == key && f is None,
            DecodeError::InvalidField(n) => n@ == key && f is Some,
            _ => false,
        }
    }
}

/// The spec value of a field read by `get_field`.
pub open spec fn found(f: Option<&Json>) -> Option<Json> {
    match f {
        Some(v) => Some(*v),
        None => None,
    }
}

/// The error for the field `key`, whose value is `f`.
pub(crate) fn field_error(f: Option<&Json>, key: &str) -> (e: DecodeError)
    ensures
        e.reports(found(f), key@),
{
    match f {
        Some(_) => DecodeError::InvalidField(key.to_owned()),
        None => DecodeError::MissingField(key.to_owned()),
    }
}

/// A field is absent or `null`.
pub open spec fn is_absent(f: Option<Json>) -> bool {
    f is None || f == Some(Json::Null)
}

/// The text of a string field.
pub open spec fn string_of(f: Option<Json>) -> Option<String> {
    match f {
        Some(Json::Str(s)) => Some(s),
        _ => None,
    }
}

/// A field that may be absent holds, when present, a value that `valid` accepts.
pub open spec fn optional_ok(f: Option<Json>, valid: bool) -> bool {
    is_absent(f) || valid
}

/// The value of a number field, when it is an integer in `[lo, hi]`.
pub open spec fn integer_of(f: Option<Json>, lo: int, hi: int) -> Option<int> {
    match f {
        Some(Json::Number(t)) => match integer_value(encode_utf8(t@)) {
            Some(v) => if lo <= v <= hi {
                Some(v)
            } else {
                None
            },
            None => None,
        },
        _ => None,
    }
}

/// The value of a number field, when it is a non-negative decimal whose
/// digits fit in `u64`.
pub open spec fn decimal_of(f: Option<Json>) -> Option<(int, nat)> {
    match f {
        Some(Json::Number(t)) => match decimal_value(encode_utf8(t@)) {
            Some((v, k)) => if v <= u64::MAX {
                Some((v, k))
            } else {
                None
            },
            None => None,
        },
        _ => None,
    }
}

/// Every element of `a` is a string.
pub open spec fn all_strings(a: Seq<Json>) -> bool {
    forall|i: int| 0 <= i < a.len() ==> #[trigger] a[i] is Str
}

/// `v` holds the texts of the strings `a`, in order.
pub open spec fn strings_match(a: Seq<Json>, v: Seq<String>) -> bool {
    a.len() == v.len() && forall|i: int| 0 <= i < a.len() ==> #[trigger] a[i] == Json::Str(v[i])
}

/// Every element of `a` is an integer in `[0, u64::MAX]`.
pub open spec fn all_u64s(a: Seq<Json>) -> bool {
    forall|i: int| 0 <= i < a.len() ==> (#[trigger] integer_of(Some(a[i]), 0, u64::MAX as int)) is Some
}

/// `v` holds the values of the integers `a`, in order.
pub open spec fn u64s_match(a: Seq<Json>, v: Seq<u64>) -> bool {
    a.len() == v.len() && forall|i: int|
        0 <= i < a.len() ==> #[trigger] integer_of(Some(a[i]), 0, u64::MAX as int) == Some(
            v[i] as int,
        )
}

/// Every member of `m` has a string value.
pub open spec fn all_string_members(m: Seq<(String, Json)>) -> bool {
    forall|i: int| 0 <= i < m.len() ==> (#[trigger] m[i]).1 is Str
}

/// No two members of `m` have the same name.
pub open spec fn distinct_names(m: Seq<(String, Json)>) -> bool {
    forall|x: int, y: int| 0 <= x < y < m.len() ==> (#[trigger] m[x]).0@ != (#[trigger] m[y]).0@
}

/// `v` holds the members of `m` with their texts, in order.
pub open spec fn members_match(m: Seq<(String, Json)>, v: Seq<(String, String)>) -> bool {
    m.len() == v.len() && forall|i: int|
        0 <= i < m.len() ==> (#[trigger] m[i]).0 == v[i].0 && m[i].1 == Json::Str(v[i].1)
}

/// A list-of-strings field: absent, `null`, or an array of strings.
pub open spec fn string_list_ok(f: Option<Json>) -> bool {
    match f {
        Some(Json::Array(a)) => all_strings(a@),
        _ => is_absent(f),
    }
}

/// `v` is what the list-of-strings field `f` holds (`None` when absent).
pub open spec fn string_list_matches(f: Option<Json>, v: Option<Vec<String>>) -> bool {
    match (f, v) {
        (Some(Json::Array(a)), Some(l)) => strings_match(a@, l@),
        (Some(Json::Array(_)), None) => false,
        (_, Some(_)) => false,
        (_, None) => true,
    }
}

/// A list-of-integers field: absent, `null`, or an array of integers in `u64`.
pub open spec fn u64_list_ok(f: Option<Json>) -> bool {
    match f {
        Some(Json::Array(a)) => all_u64s(a@),
        _ => is_absent(f),
    }
}

/// `v` is what the list-of-integers field `f` holds (`None` when absent).
pub open spec fn u64_list_matches(f: Option<Json>, v: Option<Vec<u64>>) -> bool {
    match (f, v) {
        (Some(Json::Array(a)), Some(l)) => u64s_match(a@, l@),
        (Some(Json::Array(_)), None) => false,
        (_, Some(_)) => false,
        (_, None) => true,
    }
}

/// A field mapping names to strings: absent, `null`, or an object whose
/// members are all strings, each under a name of its own.
pub open spec fn string_map_ok(f: Option<Json>) -> bool {
    match f {
        Some(Json::Object(m)) => all_string_members(m@) && distinct_names(m@),
        _ => is_absent(f),
    }
}

/// `v` is what the field `f` maps to strings (`None` when absent).
pub open spec fn string_map_matches(f: Option<Json>, v: Option<Vec<(String, String)>>) -> bool {
    match (f, v) {
        (Some(Json::Object(m)), Some(l)) => members_match(m@, l@),
        (Some(Json::Object(_)), None) => false,
        (_, Some(_)) => false,
        (_, None) => true,
    }
}

/// Reads a required string field.
pub fn read_string(j: &Json, key: &str) -> (r: Result<String, DecodeError>)
    ensures
        match r {
            Ok(s) => string_of(field(*j, key@)) == Some(s),
            Err(e) => string_of(field(*j, key@)) is None && e.reports(field(*j, key@), key@),
        },
{
    let f = get_field(j, key);
    match f {
        Some(Json::Str(s)) => Ok(s.clone()),
        _ => Err(field_error(f, key)),
    }
}

/// Reads a string field that may be absent or `null`.
pub fn read_optional_string(j: &Json, key: &str) -> (r: Result<Option<String>, DecodeError>)
    ensures
        match r {
            Ok(s) => optional_ok(field(*j, key@), string_of(field(*j, key@)) is Some) && s
                == string_of(field(*j, key@)),
            Err(e) => !optional_ok(field(*j, key@), string_of(field(*j, key@)) is Some)
                && e.reports(field(*j, key@), key@),
        },
{
    let f = get_field(j, key);
    match f {
        None => Ok(None),
        Some(Json::Null) => Ok(None),
        Some(Json::Str(s)) => Ok(Some(s.clone())),
        _ => Err(field_error(f, key)),
    }
}

/// Reads a required boolean field.
pub fn read_bool(j: &Json, key: &str) -> (r: Result<bool, DecodeError>)
    ensures
        match r {
            Ok(b) => field(*j, key@) == Some(Json::Bool(b)),
            Err(e) => !(field(*j, key@) matches Some(Json::Bool(_))) && e.reports(
                field(*j, key@),
                key@,
            ),
        },
{
    let f = get_field(j, key);
    match f {
        Some(Json::Bool(b)) => Ok(*b),
        _ => Err(field_error(f, key)),
    }
}

/// Reads a number field as an integer in `[lo, hi]`.
fn read_integer(j: &Json, key: &str, lo: i128, hi: i128) -> (r: Result<i128, DecodeError>)
    requires
        -LIMIT_I <= lo,
        hi <= LIMIT_I,
    ensures
        match r {
            Ok(v) => integer_of(field(*j, key@), lo as int, hi as int) == Some(v as int),
            Err(e) => integer_of(field(*j, key@), lo as int, hi as int) is None && e.reports(
                field(*j, key@),
                key@,
            ),
        },
{
    let f = get_field(j, key);
    match f {
        Some(Json::Number(t)) => match parse_integer(t.as_str()) {
            Some(v) => {
                if lo <= v && v <= hi {
                    Ok(v)
                } else {
                    Err(field_error(f, key))
                }
            },
            None => Err(field_error(f, key)),
        },
        _ => Err(field_error(f, key)),
    }
}

/// Reads a number field that may be absent or `null` as an integer in `[lo, hi]`.
fn read_optional_integer(j: &Json, key: &str, lo: i128, hi: i128) -> (r: Result<
    Option<i128>,
    DecodeError,
>)
    requires
        -LIMIT_I <= lo,
        hi <= LIMIT_I,
    ensures
        match r {
            Ok(v) => optional_ok(field(*j, key@), integer_of(field(*j, key@), lo as int, hi as int) is Some)
                && match v {
                Some(x) => integer_of(field(*j, key@), lo as int, hi as int) == Some(x as int),
                None => is_absent(field(*j, key@)),
            },
            Err(e) => !optional_ok(
                field(*j, key@),
                integer_of(field(*j, key@), lo as int, hi as int) is Some,
            ) && e.reports(field(*j, key@), key@),
        },
{
    let f = get_field(j, key);
    match f {
        None => Ok(None),
        Some(Json::Null) => Ok(None),
        _ => match read_integer(j, key, lo, hi) {
            Ok(v) => Ok(Some(v)),
            Err(e) => Err(e),
        },
    }
}

/// Reads a number field that may be absent or `null` as an `i64`.
pub fn read_optional_i64(j: &Json, key: &str) -> (r: Result<Option<i64>, DecodeError>)
    ensures
        match r {
            Ok(v) => optional_ok(
                field(*j, key@),
                integer_of(field(*j, key@), i64::MIN as int, i64::MAX as int) is Some,
            ) && match v {
                Some(x) => integer_of(field(*j, key@), i64::MIN as int, i64::MAX as int) == Some(
                    x as int,
                ),
                None => is_absent(field(*j, key@)),
            },
            Err(e) => !optional_ok(
                field(*j, key@),
                integer_of(field(*j, key@), i64::MIN as int, i64::MAX as int) is Some,
            ) && e.reports(field(*j, key@), key@),
        },
{
    match read_optional_integer(j, key, i64::MIN as i128, i64::MAX as i128) {
        Ok(Some(v)) => Ok(Some(v as i64)),
        Ok(None) => Ok(None),
        Err(e) => Err(e),
    }
}

/// Reads a number field that may be absent or `null` as a `u64`.
pub fn read_optional_u64(j: &Json, key: &str) -> (r: Result<Option<u64>, DecodeError>)
    ensures
        match r {
            Ok(v) => optional_ok(
                field(*j, key@),
                integer_of(field(*j, key@), 0, u64::MAX as int) is Some,
            ) && match v {
                Some(x) => integer_of(field(*j, key@), 0, u64::MAX as int) == Some(x as int),
                None => is_absent(field(*j, key@)),
            },
            Err(e) => !optional_ok(
                field(*j, key@),
                integer_of(field(*j, key@), 0, u64::MAX as int) is Some,
            ) && e.reports(field(*j, key@), key@),
        },
{
    match read_optional_integer(j, key, 0, u64::MAX as i128) {
        Ok(Some(v)) => Ok(Some(v as u64)),
        Ok(None) => Ok(None),
        Err(e) => Err(e),
    }
}

/// Reads a number field that may be absent or `null` as a `u32`.
pub fn read_optional_u32(j: &Json, key: &str) -> (r: Result<Option<u32>, DecodeError>)
    ensures
        match r {
            Ok(v) => optional_ok(
                field(*j, key@),
                integer_of(field(*j, key@), 0, u32::MAX as int) is Some,
            ) && match v {
                Some(x) => integer_of(field(*j, key@), 0, u32::MAX as int) == Some(x as int),
                None => is_absent(field(*j, key@)),
            },
            Err(e) => !optional_ok(
                field(*j, key@),
                integer_of(field(*j, key@), 0, u32::MAX as int) is Some,
            ) && e.reports(field(*j, key@), key@),
        },
{
    match read_optional_integer(j, key, 0, u32::MAX as i128) {
        Ok(Some(v)) => Ok(Some(v as u32)),
        Ok(None) => Ok(None),
        Err(e) => Err(e),
    }
}

/// Reads a required number field as a count: an integer in `[0, i32::MAX]`.
pub fn read_count(j: &Json, key: &str) -> (r: Result<i32, DecodeError>)
    ensures
        match r {
            Ok(v) => integer_of(field(*j, key@), 0, i32::MAX as int) == Some(v as int),
            Err(e) => integer_of(field(*j, key@), 0, i32::MAX as int) is None && e.reports(
                field(*j, key@),
                key@,
            ),
        },
{
    match read_integer(j, key, 0, i32::MAX as i128) {
        Ok(v) => Ok(v as i32),
        Err(e) => Err(e),
    }
}

/// Reads a required number field as a non-negative decimal: the number formed
/// by its digits and the count of digits after its point.
pub fn read_decimal(j: &Json, key: &str) -> (r: Result<(u64, usize), DecodeError>)
    ensures
        match r {
            Ok((v, k)) => decimal_of(field(*j, key@)) == Some((v as int, k as nat)),
            Err(e) => decimal_of(field(*j, key@)) is None && e.reports(field(*j, key@), key@),
        },
{
    let f = get_field(j, key);
    match f {
        Some(Json::Number(t)) => match parse_decimal(t.as_str()) {
            Some(d) => Ok(d),
            None => Err(field_error(f, key)),
        },
        _ => Err(field_error(f, key)),
    }
}

/// The texts of an array of strings; `None` when an element is no string.
fn strings_of(a: &Vec<Json>) -> (r: Option<Vec<String>>)
    ensures
        match r {
            Some(v) => all_strings(a@) && strings_match(a@, v@),
            None => !all_strings(a@),
        },
{
    let mut v: Vec<String> = Vec::new();
    let mut i: usize = 0;
    while i < a.len()
        invariant
            i <= a@.len(),
            all_strings(a@.take(i as int)),
            strings_match(a@.take(i as int), v@),
        decreases a@.len() - i,
    {
        match &a[i] {
            Json::Str(s) => {
                v.push(s.clone());
            },
            _ => {
                assert(!(a@[i as int] is Str));
                return None;
            },
        }
        assert(a@.take(i + 1).drop_last() =~= a@.take(i as int));
        assert forall|k: int| 0 <= k < i + 1 implies #[trigger] a@.take(i + 1)[k] == Json::Str(
            v@[k],
        ) by {
            if k < i {
                assert(a@.take(i + 1)[k] == a@.take(i as int)[k]);
            }
        }
        i += 1;
    }
    assert(a@.take(a@.len() as int) =~= a@);
    Some(v)
}

/// Reads a list-of-strings field that may be absent or `null`.
pub fn read_string_list(j: &Json, key: &str) -> (r: Result<Option<Vec<String>>, DecodeError>)
    ensures
        match r {
            Ok(v) => string_list_ok(field(*j, key@)) && string_list_matches(field(*j, key@), v),
            Err(e) => !string_list_ok(field(*j, key@)) && e.reports(field(*j, key@), key@),
        },
{
    let f = get_field(j, key);
    match f {
        None => Ok(None),
        Some(Json::Null) => Ok(None),
        Some(Json::Array(a)) => match strings_of(a) {
            Some(v) => Ok(Some(v)),
            None => Err(field_error(f, key)),
        },
        _ => Err(field_error(f, key)),
    }
}

/// Reads a list-of-integers field that may be absent or `null`.
pub fn read_u64_list(j: &Json, key: &str) -> (r: Result<Option<Vec<u64>>, DecodeError>)
    ensures
        match r {
            Ok(v) => u64_list_ok(field(*j, key@)) && u64_list_matches(field(*j, key@), v),
            Err(e) => !u64_list_ok(field(*j, key@)) && e.reports(field(*j, key@), key@),
        },
{
    let f = get_field(j, key);
    match f {
        None => Ok(None),
        Some(Json::Null) => Ok(None),
        Some(Json::Array(a)) => {
            let mut v: Vec<u64> = Vec::new();
            let mut i: usize = 0;
            while i < a.len()
                invariant
                    found(f) == Some(Json::Array(*a)),
                    found(f) == field(*j, key@),
                    i <= a@.len(),
                    all_u64s(a@.take(i as int)),
                    u64s_match(a@.take(i as int), v@),
                decreases a@.len() - i,
            {
                let ghost e = a@[i as int];
                let x = match &a[i] {
                    Json::Number(t) => parse_integer(t.as_str()),
                    _ => None,
                };
                match x {
                    Some(n) => {
                        if 0 <= n && n <= u64::MAX as i128 {
                            v.push(n as u64);
                        } else {
                            assert(integer_of(Some(e), 0, u64::MAX as int) is None);
                            return Err(field_error(f, key));
                        }
                    },
                    None => {
                        assert(integer_of(Some(e), 0, u64::MAX as int) is None);
                        return Err(field_error(f, key));
                    },
                }
                assert(a@.take(i + 1).drop_last() =~= a@.take(i as int));
                assert forall|k: int| 0 <= k < i + 1 implies #[trigger] integer_of(
                    Some(a@.take(i + 1)[k]),
                    0,
                    u64::MAX as int,
                ) == Some(v@[k] as int) by {
                    if k < i {
                        assert(a@.take(i + 1)[k] == a@.take(i as int)[k]);
                    }
                }
                i += 1;
            }
            assert(a@.take(a@.len() as int) =~= a@);
            Ok(Some(v))
        },
        _ => Err(field_error(f, key)),
    }
}

/// Reads a field that maps names to strings and may be absent or `null`;
/// the members keep their order, and a name that comes twice is an error.
pub fn read_string_map(j: &Json, key: &str) -> (r: Result<Option<Vec<(String, String)>>, DecodeError>)
    ensures
        match r {
            Ok(v) => string_map_ok(field(*j, key@)) && string_map_matches(field(*j, key@), v),
            Err(e) => !string_map_ok(field(*j, key@)) && e.reports(field(*j, key@), key@),
        },
{
    let f = get_field(j, key);
    match f {
        None => Ok(None),
        Some(Json::Null) => Ok(None),
        Some(Json::Object(m)) => {
            let mut v: Vec<(String, String)> = Vec::new();
            let mut i: usize = 0;
            while i < m.len()
                invariant
                    found(f) == Some(Json::Object(*m)),
                    found(f) == field(*j, key@),
                    i <= m@.len(),
                    all_string_members(m@.take(i as int)),
                    distinct_names(m@.take(i as int)),
                    members_match(m@.take(i as int), v@),
                decreases m@.len() - i,
            {
                let mut x: usize = 0;
                while x < v.len()
                    invariant
                        i < m@.len(),
                        found(f) == Some(Json::Object(*m)),
                        found(f) == field(*j, key@),
                        members_match(m@.take(i as int), v@),
                        x <= v@.len(),
                        forall|y: int| 0 <= y < x ==> (#[trigger] m@[y]).0@ != m@[i as int].0@,
                    decreases v@.len() - x,
                {
                    assert(m@.take(i as int)[x as int] == m@[x as int]);
                    if v[x].0 == m[i].0 {
                        assert(!distinct_names(m@));
                        return Err(field_error(f, key));
                    }
                    x += 1;
                }
                match &m[i].1 {
                    Json::Str(s) => {
                        v.push((m[i].0.clone(), s.clone()));
                    },
                    _ => {
                        assert(!(m@[i as int].1 is Str));
                        return Err(field_error(f, key));
                    },
                }
                assert(m@.take(i + 1).drop_last() =~= m@.take(i as int));
                assert forall|a: int, b: int| 0 <= a < b < i + 1 implies (#[trigger] m@.take(i + 1)[a]).0@
                    != (#[trigger] m@.take(i + 1)[b]).0@ by {
                    assert(m@.take(i + 1)[a] == m@[a]);
                    assert(m@.take(i + 1)[b] == m@[b]);
                    if b < i {
                        assert(m@.take(i as int)[a] == m@[a]);
                        assert(m@.take(i as int)[b] == m@[b]);
                    }
                }
                assert forall|k: int| 0 <= k < i + 1 implies (#[trigger] m@.take(i + 1)[k]).0
                    == v@[k].0 && m@.take(i + 1)[k].1 == Json::Str(v@[k].1) by {
                    if k < i {
                        assert(m@.take(i + 1)[k] == m@.take(i as int)[k]);
                    }
                }
                i += 1;
            }
            assert(m@.take(m@.len() as int) =~= m@);
            Ok(Some(v))
        },
        _ => Err(field_error(f, key)),
    }
}

} // verus!
