//! JSON, one level at a time. A JSON value is held as its text; what `serde_json`
//! reads in that text has a name here, and the library's own rules are stated
//! over those names.
use crate::ieee::ZERO_64;
use crate::text;
use crate::url::pair_views;
use serde_json::value::RawValue;
use std::collections::BTreeMap;
use vstd::prelude::*;

verus! {

/// Whether `serde_json::from_str` reads a text as a `serde_json::Value`.
pub uninterp spec fn is_json(text: Seq<char>) -> bool;

/// Calls `serde_json::from_str` for a `serde_json::Value`, and tells whether it reads
/// one. The result depends on the text alone.
#[verifier::external_body]
pub(crate) fn valid(text: &str) -> (r: bool)
    ensures
        r == is_json(text@),
{
    serde_json::from_str::<serde_json::Value>(text).is_ok()
}

/// The members of the object that a text writes, each a key and the text of its value
/// as it stands there, as `serde_json::from_str` finds them for a map of
/// `serde_json::value::RawValue`s: of several with one key, the last. Nothing where the
/// text is no object.
pub uninterp spec fn members_of(text: Seq<char>) -> Option<Seq<(Seq<char>, Seq<char>)>>;

/// Calls `serde_json::from_str` for a map of raw values, and takes each key and the text
/// of its value. The result depends on the text alone.
#[verifier::external_body]
pub(crate) fn members(text: &str) -> (r: Option<Vec<(String, String)>>)
    ensures
        match (r, members_of(text@)) {
            (Some(found), Some(named)) => pair_views(found@) == named,
            (None, None) => true,
            _ => false,
        },
{
    match serde_json::from_str::<BTreeMap<String, Box<RawValue>>>(text) {
        Ok(found) => Some(
            found.into_iter().map(|(key, value)| (key, value.get().to_owned())).collect(),
        ),
        Err(_) => None,
    }
}

/// The value that stands under `key` among the members of an object.
pub open spec fn under(members: Seq<(Seq<char>, Seq<char>)>, key: Seq<char>) -> Option<Seq<char>>
    decreases members.len(),
{
    if members.len() == 0 {
        None
    } else if members[0].0 == key {
        Some(members[0].1)
    } else {
        under(members.skip(1), key)
    }
}

/// The text of the member `key` of the object that a text writes; nothing where the text
/// is no object or has no such member.
pub open spec fn member_of(text: Seq<char>, key: Seq<char>) -> Option<Seq<char>> {
    match members_of(text) {
        Some(members) => under(members, key),
        None => None,
    }
}

/// Finds a member of an object, see [`member_of`].
pub fn member(text: &str, key: &str) -> (r: Option<String>)
    ensures
        opt_view(r) == member_of(text@, key@),
{
    let found: Vec<(String, String)> = match members(text) {
        Some(found) => found,
        None => {
            return None;
        },
    };
    let ghost all = pair_views(found@);
    let mut i: usize = 0;
    assert(all.skip(0) =~= all);
    while i < found.len()
        invariant
            i <= found.len(),
            all == pair_views(found@),
            members_of(text@) == Some(all),
            under(all, key@) == under(all.skip(i as int), key@),
        decreases found.len() - i,
    {
        assert(all.skip(i as int)[0] == (found@[i as int].0@, found@[i as int].1@));
        assert(all.skip(i as int).skip(1) =~= all.skip(i + 1));
        if text::same(found[i].0.as_str(), key) {
            return Some(found[i].1.clone());
        }
        i = i + 1;
    }
    None
}

/// The texts of the items of the array that a text writes, as they stand there, as
/// `serde_json::from_str` finds them for a list of `serde_json::value::RawValue`s;
/// nothing where the text is no array.
pub uninterp spec fn items_of(text: Seq<char>) -> Option<Seq<Seq<char>>>;

/// Calls `serde_json::from_str` for a list of raw values, and takes the text of each.
/// The result depends on the text alone.
#[verifier::external_body]
pub(crate) fn items(text: &str) -> (r: Option<Vec<String>>)
    ensures
        match (r, items_of(text@)) {
            (Some(found), Some(named)) => text_views(found@) == named,
            (None, None) => true,
            _ => false,
        },
{
    match serde_json::from_str::<Vec<Box<RawValue>>>(text) {
        Ok(found) => Some(found.iter().map(|item| item.get().to_owned()).collect()),
        Err(_) => None,
    }
}

/// The text of the string that a text writes, as `serde_json::Value::as_str` gives
/// it; nothing where the text is no string.
pub uninterp spec fn string_in(text: Seq<char>) -> Option<Seq<char>>;

/// Calls `serde_json::Value::as_str` on the value that `text` writes. The result
/// depends on the text alone.
#[verifier::external_body]
pub(crate) fn string(text: &str) -> (r: Option<String>)
    ensures
        opt_view(r) == string_in(text@),
{
    match serde_json::from_str::<serde_json::Value>(text) {
        Ok(value) => match value.as_str() {
            Some(found) => Some(found.to_owned()),
            None => None,
        },
        Err(_) => None,
    }
}

/// The integer that a text writes, as `serde_json::Value::as_i64` gives it; nothing
/// where the text is no integer, or one that an `i64` does not hold.
pub uninterp spec fn integer_in(text: Seq<char>) -> Option<i64>;

/// Calls `serde_json::Value::as_i64` on the value that `text` writes. The result
/// depends on the text alone.
#[verifier::external_body]
pub(crate) fn integer(text: &str) -> (r: Option<i64>)
    ensures
        r == integer_in(text@),
{
    match serde_json::from_str::<serde_json::Value>(text) {
        Ok(value) => value.as_i64(),
        Err(_) => None,
    }
}

/// The bits of the number that a text writes, as `serde_json::Value::as_f64` gives
/// it; nothing where the text is no number.
pub uninterp spec fn real_in(text: Seq<char>) -> Option<u64>;

/// Calls `serde_json::Value::as_f64` on the value that `text` writes, and takes the
/// bits of the number. The result depends on the text alone.
#[verifier::external_body]
pub(crate) fn real_bits(text: &str) -> (r: Option<u64>)
    ensures
        r == real_in(text@),
{
    match serde_json::from_str::<serde_json::Value>(text) {
        Ok(value) => match value.as_f64() {
            Some(number) => Some(number.to_bits()),
            None => None,
        },
        Err(_) => None,
    }
}

/// The text of an optional string.
pub open spec fn opt_view(s: Option<String>) -> Option<Seq<char>> {
    match s {
        Some(t) => Some(t@),
        None => None,
    }
}

/// The texts of strings, in order.
pub open spec fn text_views(strings: Seq<String>) -> Seq<Seq<char>> {
    strings.map_values(|s: String| s@)
}

/// The value at the end of a path of keys; nothing where one of them is missing.
pub open spec fn at_path(value: Option<Seq<char>>, path: Seq<Seq<char>>) -> Option<Seq<char>>
    decreases path.len(),
{
    if path.len() == 0 || value is None {
        value
    } else {
        at_path(member_of(value->0, path[0]), path.skip(1))
    }
}

/// Whether a value is null or missing.
pub open spec fn is_nothing(value: Option<Seq<char>>) -> bool {
    value is None || value->0 == "null"@
}

/// A field of a record, which is written either as an object that names its fields,
/// or as an array that holds them in order: the member `key` of the one, the item at
/// `place` of the other. Nothing where it is missing.
pub open spec fn field_of(record: Seq<char>, place: nat, key: Seq<char>) -> Option<Seq<char>> {
    match items_of(record) {
        Some(fields) => if place < fields.len() {
            Some(fields[place as int])
        } else {
            None
        },
        None => member_of(record, key),
    }
}

/// Finds a field of a record, see [`field_of`].
pub fn field(record: &str, place: usize, key: &str) -> (r: Option<String>)
    ensures
        opt_view(r) == field_of(record@, place as nat, key@),
{
    match items(record) {
        Some(fields) => if place < fields.len() {
            assert(text_views(fields@)[place as int] == fields@[place as int]@);
            Some(fields[place].clone())
        } else {
            None
        },
        None => member(record, key),
    }
}

/// Whether a text writes a record with `count` fields: an object, or an array of no more
/// items than that.
pub open spec fn is_record(value: Seq<char>, count: nat) -> bool {
    match items_of(value) {
        Some(fields) => fields.len() <= count,
        None => members_of(value) is Some,
    }
}

/// Whether a value is a record, see [`is_record`].
pub fn record(value: &str, count: usize) -> (r: bool)
    ensures
        r == is_record(value@, count as nat),
{
    match items(value) {
        Some(fields) => {
            assert(text_views(fields@).len() == fields@.len());
            fields.len() <= count
        },
        None => members(value).is_some(),
    }
}

/// A string that has to be there.
pub open spec fn wanted_text(value: Option<Seq<char>>) -> Option<Seq<char>> {
    match value {
        Some(value) => string_in(value),
        None => None,
    }
}

/// A string that is empty where it is missing.
pub open spec fn text_or_empty(value: Option<Seq<char>>) -> Option<Seq<char>> {
    match value {
        Some(value) => string_in(value),
        None => Some(Seq::empty()),
    }
}

/// A string that may be missing or null.
pub open spec fn maybe_text(value: Option<Seq<char>>) -> Option<Option<Seq<char>>> {
    match value {
        Some(value) => if value == "null"@ {
            Some(None)
        } else {
            match string_in(value) {
                Some(s) => Some(Some(s)),
                None => None,
            }
        },
        None => Some(None),
    }
}

/// The count that a value writes, if a `u32` holds it.
pub open spec fn count_in(value: Seq<char>) -> Option<u32> {
    match integer_in(value) {
        Some(n) => if 0 <= n <= u32::MAX {
            Some(n as u32)
        } else {
            None
        },
        None => None,
    }
}

/// A count that is zero where it is missing.
pub open spec fn count_or_zero(value: Option<Seq<char>>) -> Option<u32> {
    match value {
        Some(value) => count_in(value),
        None => Some(0),
    }
}

/// A count that may be missing or null.
pub open spec fn maybe_count(value: Option<Seq<char>>) -> Option<Option<u32>> {
    match value {
        Some(value) => if value == "null"@ {
            Some(None)
        } else {
            match count_in(value) {
                Some(n) => Some(Some(n)),
                None => None,
            }
        },
        None => Some(None),
    }
}

/// An integer that may be missing or null.
pub open spec fn maybe_integer(value: Option<Seq<char>>) -> Option<Option<i64>> {
    match value {
        Some(value) => if value == "null"@ {
            Some(None)
        } else {
            match integer_in(value) {
                Some(n) => Some(Some(n)),
                None => None,
            }
        },
        None => Some(None),
    }
}

/// A number that may be missing or null, as its bits.
pub open spec fn maybe_real(value: Option<Seq<char>>) -> Option<Option<u64>> {
    match value {
        Some(value) => if value == "null"@ {
            Some(None)
        } else {
            match real_in(value) {
                Some(n) => Some(Some(n)),
                None => None,
            }
        },
        None => Some(None),
    }
}

/// A number that is zero where it is missing, as its bits.
pub open spec fn real_or_zero(value: Option<Seq<char>>) -> Option<u64> {
    match value {
        Some(value) => real_in(value),
        None => Some(crate::ieee::ZERO_64),
    }
}

/// A truth value that is false where it is missing.
pub open spec fn flag_or_false(value: Option<Seq<char>>) -> Option<bool> {
    match value {
        Some(value) => if value == "true"@ {
            Some(true)
        } else if value == "false"@ {
            Some(false)
        } else {
            None
        },
        None => Some(false),
    }
}

/// Reads a string that has to be there.
pub fn read_wanted_text(value: Option<String>) -> (r: Option<String>)
    ensures
        opt_view(r) == wanted_text(opt_view(value)),
{
    match value {
        Some(value) => string(value.as_str()),
        None => None,
    }
}

/// Reads a string that is empty where it is missing.
pub fn read_text_or_empty(value: Option<String>) -> (r: Option<String>)
    ensures
        opt_view(r) == text_or_empty(opt_view(value)),
{
    match value {
        Some(value) => string(value.as_str()),
        None => {
            let none = String::new();
            assert(none@ =~= Seq::<char>::empty());
            Some(none)
        },
    }
}

/// The text of an optional string that may not be there.
pub open spec fn opt_opt_view(s: Option<Option<String>>) -> Option<Option<Seq<char>>> {
    match s {
        Some(t) => Some(opt_view(t)),
        None => None,
    }
}

/// Reads a string that may be missing or null.
pub fn read_maybe_text(value: Option<String>) -> (r: Option<Option<String>>)
    ensures
        opt_opt_view(r) == maybe_text(opt_view(value)),
{
    match value {
        Some(value) => if text::same(value.as_str(), "null") {
            Some(None)
        } else {
            match string(value.as_str()) {
                Some(s) => Some(Some(s)),
                None => None,
            }
        },
        None => Some(None),
    }
}

fn read_count(value: &str) -> (r: Option<u32>)
    ensures
        r == count_in(value@),
{
    match integer(value) {
        Some(n) => if 0 <= n && n <= 0xffff_ffff {
            Some(n as u32)
        } else {
            None
        },
        None => None,
    }
}

/// Reads a count that is zero where it is missing.
pub fn read_count_or_zero(value: Option<String>) -> (r: Option<u32>)
    ensures
        r == count_or_zero(opt_view(value)),
{
    match value {
        Some(value) => read_count(value.as_str()),
        None => Some(0),
    }
}

/// Reads a count that may be missing or null.
pub fn read_maybe_count(value: Option<String>) -> (r: Option<Option<u32>>)
    ensures
        r == maybe_count(opt_view(value)),
{
    match value {
        Some(value) => if text::same(value.as_str(), "null") {
            Some(None)
        } else {
            match read_count(value.as_str()) {
                Some(n) => Some(Some(n)),
                None => None,
            }
        },
        None => Some(None),
    }
}

/// Reads an integer that may be missing or null.
pub fn read_maybe_integer(value: Option<String>) -> (r: Option<Option<i64>>)
    ensures
        r == maybe_integer(opt_view(value)),
{
    match value {
        Some(value) => if text::same(value.as_str(), "null") {
            Some(None)
        } else {
            match integer(value.as_str()) {
                Some(n) => Some(Some(n)),
                None => None,
            }
        },
        None => Some(None),
    }
}

/// Reads a number that may be missing or null, as its bits.
pub fn read_maybe_real(value: Option<String>) -> (r: Option<Option<u64>>)
    ensures
        r == maybe_real(opt_view(value)),
{
    match value {
        Some(value) => if text::same(value.as_str(), "null") {
            Some(None)
        } else {
            match real_bits(value.as_str()) {
                Some(n) => Some(Some(n)),
                None => None,
            }
        },
        None => Some(None),
    }
}

/// Reads a number that is zero where it is missing, as its bits.
pub fn read_real_or_zero(value: Option<String>) -> (r: Option<u64>)
    ensures
        r == real_or_zero(opt_view(value)),
{
    match value {
        Some(value) => real_bits(value.as_str()),
        None => Some(ZERO_64),
    }
}

/// Reads a truth value that is false where it is missing.
pub fn read_flag_or_false(value: Option<String>) -> (r: Option<bool>)
    ensures
        r == flag_or_false(opt_view(value)),
{
    match value {
        Some(value) => if text::same(value.as_str(), "true") {
            Some(true)
        } else if text::same(value.as_str(), "false") {
            Some(false)
        } else {
            None
        },
        None => Some(false),
    }
}

/// The value at two keys, one inside the other.
pub fn at_two(value: &str, first: &str, second: &str) -> (r: Option<String>)
    ensures
        opt_view(r) == at_path(Some(value@), seq![first@, second@]),
{
    proof {
        reveal_with_fuel(at_path, 3);
        let path = seq![first@, second@];
        assert(path.skip(1) =~= seq![second@]);
        assert(path.skip(1).skip(1) =~= Seq::<Seq<char>>::empty());
    }
    match member(value, first) {
        Some(inner) => member(inner.as_str(), second),
        None => None,
    }
}

/// A type that is read from a JSON value.
pub trait Decode: View + Sized {
    /// What a value says, where it has the type's shape.
    spec fn decoded(value: Seq<char>) -> Option<Self::V>;

    /// Reads a value.
    fn decode(value: &str) -> (r: Option<Self>)
        ensures
            match Self::decoded(value@) {
                Some(v) => r matches Some(t) && t@ == v,
                None => r is None,
            },
    ;
}

/// Whether every item has the type's shape.
pub open spec fn all_decode<T: Decode>(items: Seq<Seq<char>>) -> bool {
    forall|i: int| 0 <= i < items.len() ==> T::decoded(#[trigger] items[i]) is Some
}

/// What the items say, in order.
pub open spec fn decoded_items<T: Decode>(items: Seq<Seq<char>>) -> Seq<T::V> {
    items.map_values(|item: Seq<char>| T::decoded(item)->0)
}

/// What the values say, in order.
pub open spec fn item_views<T: View>(values: Seq<T>) -> Seq<T::V> {
    values.map_values(|t: T| t@)
}

/// Reads the items of a list; nothing where one of them has another shape.
pub fn read_items<T: Decode>(items: &Vec<String>) -> (r: Option<Vec<T>>)
    ensures
        r is Some == all_decode::<T>(text_views(items@)),
        r is Some ==> item_views(r->0@) == decoded_items::<T>(text_views(items@)),
{
    let mut out: Vec<T> = Vec::new();
    let ghost all = text_views(items@);
    let mut i: usize = 0;
    while i < items.len()
        invariant
            i <= items.len(),
            all == text_views(items@),
            forall|k: int| 0 <= k < i ==> T::decoded(#[trigger] all[k]) is Some,
            item_views(out@) == decoded_items::<T>(all.take(i as int)),
        decreases items.len() - i,
    {
        assert(all[i as int] == items@[i as int]@);
        match T::decode(items[i].as_str()) {
            Some(t) => {
                let ghost before = out@;
                out.push(t);
                assert(item_views(out@) =~= item_views(before).push(t@));
                assert(decoded_items::<T>(all.take(i + 1)) =~= decoded_items::<T>(
                    all.take(i as int),
                ).push(t@));
            },
            None => {
                return None;
            },
        }
        i = i + 1;
    }
    assert(all.take(i as int) =~= all);
    Some(out)
}

/// The items of a list that is empty where it is missing or null; nothing where
/// it is no list.
pub open spec fn list_in(value: Option<Seq<char>>) -> Option<Seq<Seq<char>>> {
    if is_nothing(value) {
        Some(Seq::empty())
    } else {
        items_of(value->0)
    }
}

/// What a list says, empty where it is missing or null; nothing where it is no
/// list, or one of its items has another shape.
pub open spec fn decoded_list<T: Decode>(value: Option<Seq<char>>) -> Option<Seq<T::V>> {
    match list_in(value) {
        Some(items) => if all_decode::<T>(items) {
            Some(decoded_items::<T>(items))
        } else {
            None
        },
        None => None,
    }
}

/// Reads a list that is empty where it is missing or null.
pub fn read_list<T: Decode>(value: &Option<String>) -> (r: Option<Vec<T>>)
    ensures
        match decoded_list::<T>(opt_view(*value)) {
            Some(v) => r matches Some(list) && item_views(list@) == v,
            None => r is None,
        },
{
    match value {
        None => {
            let none: Vec<T> = Vec::new();
            assert(item_views(none@) =~= decoded_items::<T>(Seq::empty()));
            Some(none)
        },
        Some(written) => if text::same(written.as_str(), "null") {
            let none: Vec<T> = Vec::new();
            assert(item_views(none@) =~= decoded_items::<T>(Seq::empty()));
            Some(none)
        } else {
            match items(written.as_str()) {
                Some(found) => read_items(&found),
                None => None,
            }
        },
    }
}

/// What a member that is a list says, empty where it is missing; nothing where it
/// is no list, or one of its items has another shape.
pub open spec fn list_or_empty<T: Decode>(value: Option<Seq<char>>) -> Option<Seq<T::V>> {
    match value {
        Some(value) => if value == "null"@ {
            None
        } else {
            decoded_list::<T>(Some(value))
        },
        None => Some(Seq::empty()),
    }
}

/// Reads a member that is a list, empty where it is missing.
pub fn read_list_or_empty<T: Decode>(value: Option<String>) -> (r: Option<Vec<T>>)
    ensures
        match list_or_empty::<T>(opt_view(value)) {
            Some(v) => r matches Some(list) && item_views(list@) == v,
            None => r is None,
        },
{
    match value {
        Some(value) => if text::same(value.as_str(), "null") {
            None
        } else {
            read_list(&Some(value))
        },
        None => {
            let none: Vec<T> = Vec::new();
            assert(item_views(none@) =~= Seq::<T::V>::empty());
            Some(none)
        },
    }
}

/// Whether an object has the member `key`, and `value` is what stands first under it.
pub open spec fn has_member(text: Seq<char>, key: Seq<char>, value: Seq<char>) -> bool {
    members_of(text) matches Some(members) && exists|i: int|
        0 <= i < members.len() && #[trigger] members[i] == (key, value) && forall|j: int|
            0 <= j < i ==> (#[trigger] members[j]).0 != key
}

proof fn under_finds(members: Seq<(Seq<char>, Seq<char>)>, key: Seq<char>, i: int)
    requires
        0 <= i < members.len(),
        members[i].0 == key,
        forall|j: int| 0 <= j < i ==> (#[trigger] members[j]).0 != key,
    ensures
        under(members, key) == Some(members[i].1),
    decreases members.len(),
{
    if i > 0 {
        assert(members[0].0 != key);
        let rest = members.skip(1);
        assert forall|j: int| 0 <= j < i - 1 implies (#[trigger] rest[j]).0 != key by {
            assert(rest[j] == members[j + 1]);
        }
        under_finds(rest, key, i - 1);
    }
}

proof fn under_misses(members: Seq<(Seq<char>, Seq<char>)>, key: Seq<char>)
    requires
        forall|j: int| 0 <= j < members.len() ==> (#[trigger] members[j]).0 != key,
    ensures
        under(members, key) is None,
    decreases members.len(),
{
    if members.len() > 0 {
        assert(members[0].0 != key);
        let rest = members.skip(1);
        assert forall|j: int| 0 <= j < rest.len() implies (#[trigger] rest[j]).0 != key by {
            assert(rest[j] == members[j + 1]);
        }
        under_misses(rest, key);
    }
}

/// A member is found under its key, and only there: an object without the key, and
/// what is no object, has none.
pub proof fn member_is_found(text: Seq<char>, key: Seq<char>, value: Seq<char>)
    ensures
        has_member(text, key, value) <==> member_of(text, key) == Some(value),
{
    match members_of(text) {
        Some(members) => {
            if has_member(text, key, value) {
                let i = choose|i: int|
                    0 <= i < members.len() && #[trigger] members[i] == (key, value) && forall|
                        j: int,
                    |
                        0 <= j < i ==> (#[trigger] members[j]).0 != key;
                under_finds(members, key, i);
            } else if exists|i: int| 0 <= i < members.len() && (#[trigger] members[i]).0 == key {
                let i = first_under(members, key, choose|i: int|
                    0 <= i < members.len() && (#[trigger] members[i]).0 == key);
                under_finds(members, key, i);
                assert(members[i] == (key, members[i].1));
            } else {
                under_misses(members, key);
            }
        },
        None => {},
    }
}

proof fn first_under(members: Seq<(Seq<char>, Seq<char>)>, key: Seq<char>, i: int) -> (k: int)
    requires
        0 <= i < members.len(),
        members[i].0 == key,
    ensures
        0 <= k < members.len(),
        members[k].0 == key,
        forall|j: int| 0 <= j < k ==> (#[trigger] members[j]).0 != key,
    decreases i,
{
    if exists|j: int| 0 <= j < i && (#[trigger] members[j]).0 == key {
        first_under(
            members,
            key,
            choose|j: int| 0 <= j < i && (#[trigger] members[j]).0 == key,
        )
    } else {
        i
    }
}

/// Whether `list` is a list whose items all have the shape that is wanted.
pub open spec fn is_list_of<T: Decode>(list: Seq<char>, items: Seq<Seq<char>>) -> bool {
    &&& list != "null"@
    &&& items_of(list) == Some(items)
    &&& forall|i: int| 0 <= i < items.len() ==> T::decoded(#[trigger] items[i]) is Some
}

/// A list is read item by item, in order; a missing one, or null, is read as empty; one
/// with an item of another shape is not read at all.
pub proof fn list_is_read_in_order<T: Decode>(list: Seq<char>, items: Seq<Seq<char>>)
    requires
        list != "null"@,
        items_of(list) == Some(items),
    ensures
        decoded_list::<T>(Some(list)) is Some <==> is_list_of::<T>(list, items),
        is_list_of::<T>(list, items) ==> decoded_list::<T>(Some(list))->0.len() == items.len(),
        forall|i: int|
            is_list_of::<T>(list, items) && 0 <= i < items.len() ==> T::decoded(
                #[trigger] items[i],
            ) == Some(decoded_list::<T>(Some(list))->0[i]),
        decoded_list::<T>(None) == Some(Seq::<T::V>::empty()),
        decoded_list::<T>(Some("null"@)) == Some(Seq::<T::V>::empty()),
{
    assert(decoded_items::<T>(Seq::empty()) =~= Seq::<T::V>::empty());
}

} // verus!
