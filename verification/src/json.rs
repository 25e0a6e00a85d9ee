//! A document model for the service's JSON payloads and the schema-tolerant
//! search that pulls digest fields out of them.
//!
//! The service is inconsistent about the names and the nesting depth of its
//! checksum fields. The search is a pre-order traversal: at an object the
//! accepted keys are tried in priority order on the object itself, and only
//! when none of them yields a usable value are the members' values searched,
//! in member order. An array is searched item by item.

use crate::digest::{DigestView, PackageDigestSnapshot};
use crate::text::{decimal, parse_u64, parse_u64_spec, push_decimal, push_signed_decimal, signed_decimal};
use serde_json::Value;
use vstd::prelude::*;
use vstd::string::StringExecFns;

verus! {

/// A JSON number: a non-negative integer, a negative integer, or any other
/// number, kept as the text it is written as.
#[derive(Debug, Clone)]
pub enum JsonNumber {
    Unsigned(u64),
    Negative(i64),
    Fraction(String),
}

/// A JSON document. An object is a list of members, and the order of that
/// list is the order in which a search visits them.
#[derive(Debug)]
pub enum JsonValue {
    Null,
    Bool(bool),
    Number(JsonNumber),
    Text(String),
    Array(Vec<JsonValue>),
    Object(Vec<JsonMember>),
}

/// One `key: value` pair of an object.
#[derive(Debug)]
pub struct JsonMember {
    pub key: String,
    pub value: JsonValue,
}

/// The parsed form of a JSON text, as `serde_json` reads it.
#[verifier::external_type_specification]
#[verifier::external_body]
pub struct ExValue(serde_json::Value);

/// Why `serde_json` could not read a text.
#[verifier::external_type_specification]
#[verifier::external_body]
pub struct ExError(serde_json::Error);

/// The text is not a JSON document.
#[derive(Debug)]
pub struct MalformedDocument {}

/// The document that the JSON text `text` denotes; none where `text` is not
/// JSON.
pub uninterp spec fn parsed_document(text: Seq<char>) -> Option<Json>;

/// The document that a parsed value holds.
pub uninterp spec fn value_content(value: Value) -> Json;

/// `serde_json::from_str` reads a whole text as one JSON value, or fails;
/// whether it fails, and what the value holds, depends on the text alone.
/// The contract gives that content its name and claims nothing else.
#[verifier::external_body]
fn read_value(text: &str) -> (r: Result<Value, serde_json::Error>)
    ensures
        match r {
            Ok(value) => parsed_document(text@) == Some(value_content(value)),
            Err(_) => parsed_document(text@) is None,
        },
{
    serde_json::from_str::<Value>(text)
}

/// Carries a `serde_json::Value` over into a document, variant by variant.
/// An array keeps the order of its items, an object the order in which
/// `serde_json::Map::iter` yields its entries; `Number::as_u64` gives the
/// value of a non-negative integer, `Number::as_i64` that of a negative one,
/// and any other number is kept as the text that its `Display` gives. The
/// contract says that the document is what the value holds, under the name
/// of that content, and claims nothing else.
#[verifier::external_body]
fn document_of(value: &Value) -> (doc: JsonValue)
    ensures
        doc@ == value_content(*value),
{
    match value {
        Value::Null => JsonValue::Null,
        Value::Bool(b) => JsonValue::Bool(*b),
        Value::Number(n) => JsonValue::Number(match (n.as_u64(), n.as_i64()) {
            (Some(u), _) => JsonNumber::Unsigned(u),
            (None, Some(i)) => JsonNumber::Negative(i),
            _ => JsonNumber::Fraction(n.to_string()),
        }),
        Value::String(s) => JsonValue::Text(s.clone()),
        Value::Array(a) => JsonValue::Array(a.iter().map(document_of).collect()),
        Value::Object(m) => JsonValue::Object(
            m.iter().map(|(k, v)| JsonMember { key: k.clone(), value: document_of(v) }).collect(),
        ),
    }
}

/// Reads a JSON text as a document. The members of an object come in the
/// order in which `serde_json` keeps them.
pub fn parse_document(text: &str) -> (r: Result<JsonValue, MalformedDocument>)
    ensures
        match r {
            Ok(doc) => parsed_document(text@) == Some(doc@),
            Err(_) => parsed_document(text@) is None,
        },
{
    match read_value(text) {
        Ok(value) => Ok(document_of(&value)),
        Err(_) => Err(MalformedDocument {  }),
    }
}

/// Which digest field is being searched for: a text or a size.
#[derive(Debug, Clone, Copy, PartialEq, Eq, Structural)]
pub enum Wanted {
    Text,
    Size,
}

/// The mathematical content of a number.
pub ghost enum Num {
    Unsigned(u64),
    Negative(i64),
    Fraction(Seq<char>),
}

/// The mathematical content of a document.
pub ghost enum Json {
    Null,
    Bool(bool),
    Number(Num),
    Text(Seq<char>),
    Array(Seq<Json>),
    Object(Seq<(Seq<char>, Json)>),
}

impl View for JsonNumber {
    type V = Num;

    open spec fn view(&self) -> Num {
        match self {
            JsonNumber::Unsigned(n) => Num::Unsigned(*n),
            JsonNumber::Negative(n) => Num::Negative(*n),
            JsonNumber::Fraction(t) => Num::Fraction(t@),
        }
    }
}

/// The content of a document.
pub open spec fn content(value: JsonValue) -> Json
    decreases value, 0nat,
{
    match value {
        JsonValue::Null => Json::Null,
        JsonValue::Bool(b) => Json::Bool(b),
        JsonValue::Number(n) => Json::Number(n@),
        JsonValue::Text(s) => Json::Text(s@),
        JsonValue::Array(items) => Json::Array(contents(items, items.len() as int)),
        JsonValue::Object(members) => Json::Object(
            member_contents(members, members.len() as int),
        ),
    }
}

/// The contents of the first `n` items.
pub open spec fn contents(items: Vec<JsonValue>, n: int) -> Seq<Json>
    decreases items, n,
{
    if n <= 0 || n > items.len() {
        Seq::empty()
    } else {
        contents(items, n - 1).push(content(items[n - 1]))
    }
}

/// The keys and contents of the first `n` members.
pub open spec fn member_contents(members: Vec<JsonMember>, n: int) -> Seq<(Seq<char>, Json)>
    decreases members, n,
{
    if n <= 0 || n > members.len() {
        Seq::empty()
    } else {
        member_contents(members, n - 1).push((members[n - 1].key@, content(members[n - 1].value)))
    }
}

impl View for JsonValue {
    type V = Json;

    open spec fn view(&self) -> Json {
        content(*self)
    }
}

impl Num {
    /// The number as text.
    pub open spec fn rendering(self) -> Seq<char> {
        match self {
            Num::Unsigned(n) => decimal(n as nat),
            Num::Negative(n) => signed_decimal(n as int),
            Num::Fraction(t) => t,
        }
    }

    /// The number as an unsigned 64-bit integer, if it is one.
    pub open spec fn unsigned(self) -> Option<u64> {
        match self {
            Num::Unsigned(n) => Some(n),
            _ => None,
        }
    }
}

/// The text that a leaf value stands for: a non-empty string as it is, a
/// number as its rendering, nothing else.
pub open spec fn scalar_text(v: Json) -> Option<Seq<char>> {
    match v {
        Json::Text(s) => if s.len() == 0 {
            None
        } else {
            Some(s)
        },
        Json::Number(n) => Some(n.rendering()),
        _ => None,
    }
}

/// The size that a leaf value stands for: an unsigned number, or a string
/// that reads as one.
pub open spec fn scalar_size(v: Json) -> Option<u64> {
    match v {
        Json::Number(n) => n.unsigned(),
        Json::Text(s) => parse_u64_spec(s),
        _ => None,
    }
}

/// Whether a leaf value is usable for the wanted field.
pub open spec fn usable(v: Json, wanted: Wanted) -> bool {
    match wanted {
        Wanted::Text => scalar_text(v) is Some,
        Wanted::Size => scalar_size(v) is Some,
    }
}

/// The value of the first member at or after `from` whose key is `key`.
pub open spec fn lookup(members: Seq<(Seq<char>, Json)>, key: Seq<char>, from: int) -> Option<Json>
    decreases members.len() - from,
{
    if from < 0 || from >= members.len() {
        None
    } else if members[from].0 == key {
        Some(members[from].1)
    } else {
        lookup(members, key, from + 1)
    }
}

/// The usable value that the object itself holds under the first key, at or
/// after position `from` of the priority list, that has one.
pub open spec fn direct(
    members: Seq<(Seq<char>, Json)>,
    keys: Seq<Seq<char>>,
    wanted: Wanted,
    from: int,
) -> Option<Json>
    decreases keys.len() - from,
{
    if from < 0 || from >= keys.len() {
        None
    } else {
        match lookup(members, keys[from], 0) {
            Some(v) => if usable(v, wanted) {
                Some(v)
            } else {
                direct(members, keys, wanted, from + 1)
            },
            None => direct(members, keys, wanted, from + 1),
        }
    }
}

/// The first usable value under one of `keys` that the pre-order traversal
/// of `value` meets.
pub open spec fn found(value: Json, keys: Seq<Seq<char>>, wanted: Wanted) -> Option<Json>
    decreases value, 0nat,
{
    match value {
        Json::Object(members) => match direct(members, keys, wanted, 0) {
            Some(v) => Some(v),
            None => found_in_members(members, keys, wanted, 0),
        },
        Json::Array(items) => found_in_items(items, keys, wanted, 0),
        _ => None,
    }
}

/// The result of searching the values of the members at or after `from`.
pub open spec fn found_in_members(
    members: Seq<(Seq<char>, Json)>,
    keys: Seq<Seq<char>>,
    wanted: Wanted,
    from: int,
) -> Option<Json>
    decreases members, members.len() - from,
{
    if from < 0 || from >= members.len() {
        None
    } else {
        match found(members[from].1, keys, wanted) {
            Some(v) => Some(v),
            None => found_in_members(members, keys, wanted, from + 1),
        }
    }
}

/// The result of searching the items at or after `from`.
pub open spec fn found_in_items(
    items: Seq<Json>,
    keys: Seq<Seq<char>>,
    wanted: Wanted,
    from: int,
) -> Option<Json>
    decreases items, items.len() - from,
{
    if from < 0 || from >= items.len() {
        None
    } else {
        match found(items[from], keys, wanted) {
            Some(v) => Some(v),
            None => found_in_items(items, keys, wanted, from + 1),
        }
    }
}

/// The first text under one of `keys` in `value`.
pub open spec fn first_text(value: Json, keys: Seq<Seq<char>>) -> Option<Seq<char>> {
    match found(value, keys, Wanted::Text) {
        Some(v) => scalar_text(v),
        None => None,
    }
}

/// The first size under one of `keys` in `value`.
pub open spec fn first_size(value: Json, keys: Seq<Seq<char>>) -> Option<u64> {
    match found(value, keys, Wanted::Size) {
        Some(v) => scalar_size(v),
        None => None,
    }
}

/// Whatever the search finds is usable for the wanted field: a text that is
/// found is a non-empty string or a number, a size that is found reads as an
/// unsigned number.
pub proof fn lemma_found_is_usable(value: Json, keys: Seq<Seq<char>>, wanted: Wanted)
    ensures
        found(value, keys, wanted) is Some ==> usable(found(value, keys, wanted)->0, wanted),
        wanted == Wanted::Text ==> (first_text(value, keys) is Some <==> found(value, keys, wanted)
            is Some),
        wanted == Wanted::Size ==> (first_size(value, keys) is Some <==> found(value, keys, wanted)
            is Some),
    decreases value, 0nat,
{
    match value {
        Json::Object(members) => {
            lemma_direct_is_usable(members, keys, wanted, 0);
            lemma_found_in_members_is_usable(members, keys, wanted, 0);
        },
        Json::Array(items) => {
            lemma_found_in_items_is_usable(items, keys, wanted, 0);
        },
        _ => {},
    }
}

proof fn lemma_direct_is_usable(
    members: Seq<(Seq<char>, Json)>,
    keys: Seq<Seq<char>>,
    wanted: Wanted,
    from: int,
)
    ensures
        direct(members, keys, wanted, from) is Some ==> usable(
            direct(members, keys, wanted, from)->0,
            wanted,
        ),
    decreases keys.len() - from,
{
    if 0 <= from < keys.len() {
        lemma_direct_is_usable(members, keys, wanted, from + 1);
    }
}

proof fn lemma_found_in_members_is_usable(
    members: Seq<(Seq<char>, Json)>,
    keys: Seq<Seq<char>>,
    wanted: Wanted,
    from: int,
)
    ensures
        found_in_members(members, keys, wanted, from) is Some ==> usable(
            found_in_members(members, keys, wanted, from)->0,
            wanted,
        ),
    decreases members, members.len() - from,
{
    if 0 <= from < members.len() {
        lemma_found_is_usable(members[from].1, keys, wanted);
        lemma_found_in_members_is_usable(members, keys, wanted, from + 1);
    }
}

proof fn lemma_found_in_items_is_usable(
    items: Seq<Json>,
    keys: Seq<Seq<char>>,
    wanted: Wanted,
    from: int,
)
    ensures
        found_in_items(items, keys, wanted, from) is Some ==> usable(
            found_in_items(items, keys, wanted, from)->0,
            wanted,
        ),
    decreases items, items.len() - from,
{
    if 0 <= from < items.len() {
        lemma_found_is_usable(items[from], keys, wanted);
        lemma_found_in_items_is_usable(items, keys, wanted, from + 1);
    }
}

/// A key that the object itself answers is never looked for deeper: where
/// the object holds a usable value under one of the keys, that value is the
/// result, whatever its members hold.
pub proof fn lemma_direct_wins(
    members: Seq<(Seq<char>, Json)>,
    keys: Seq<Seq<char>>,
    wanted: Wanted,
)
    requires
        direct(members, keys, wanted, 0) is Some,
    ensures
        found(Json::Object(members), keys, wanted) == direct(members, keys, wanted, 0),
{
}

/// A leaf holds nothing under any key.
pub proof fn lemma_leaf_holds_nothing(value: Json, keys: Seq<Seq<char>>, wanted: Wanted)
    requires
        !(value is Object) && !(value is Array),
    ensures
        found(value, keys, wanted) is None,
{
}

/// The contents of a list of key names.
pub open spec fn key_texts(keys: Seq<&str>) -> Seq<Seq<char>> {
    Seq::new(keys.len(), |i: int| keys[i]@)
}

/// The contents of a list of owned key names.
pub open spec fn owned_key_texts(keys: Seq<String>) -> Seq<Seq<char>> {
    Seq::new(keys.len(), |i: int| keys[i]@)
}

/// The members of an object, as pairs of key and content.
pub open spec fn member_views(members: Seq<JsonMember>) -> Seq<(Seq<char>, Json)> {
    Seq::new(members.len(), |i: int| (members[i].key@, members[i].value@))
}

/// The items of an array, as contents.
pub open spec fn item_views(items: Seq<JsonValue>) -> Seq<Json> {
    Seq::new(items.len(), |i: int| items[i]@)
}

proof fn lemma_member_contents(members: Vec<JsonMember>, n: int)
    requires
        0 <= n <= members.len(),
    ensures
        member_contents(members, n) == member_views(members@.take(n)),
    decreases n,
{
    if n > 0 {
        lemma_member_contents(members, n - 1);
        assert(member_views(members@.take(n)) =~= member_views(members@.take(n - 1)).push(
            (members[n - 1].key@, members[n - 1].value@),
        ));
    } else {
        assert(member_views(members@.take(n)) =~= Seq::empty());
    }
}

proof fn lemma_contents(items: Vec<JsonValue>, n: int)
    requires
        0 <= n <= items.len(),
    ensures
        contents(items, n) == item_views(items@.take(n)),
    decreases n,
{
    if n > 0 {
        lemma_contents(items, n - 1);
        assert(item_views(items@.take(n)) =~= item_views(items@.take(n - 1)).push(items[n - 1]@));
    } else {
        assert(item_views(items@.take(n)) =~= Seq::empty());
    }
}

/// The content of an object is the list of its members' keys and contents.
pub proof fn lemma_object_view(members: Vec<JsonMember>)
    ensures
        JsonValue::Object(members)@ == Json::Object(member_views(members@)),
{
    lemma_member_contents(members, members.len() as int);
    assert(members@.take(members.len() as int) =~= members@);
}

/// The content of an array is the list of its items' contents.
pub proof fn lemma_array_view(items: Vec<JsonValue>)
    ensures
        JsonValue::Array(items)@ == Json::Array(item_views(items@)),
{
    lemma_contents(items, items.len() as int);
    assert(items@.take(items.len() as int) =~= items@);
}

/// The text that a leaf value stands for.
pub fn value_to_string(value: &JsonValue) -> (r: Option<String>)
    ensures
        match r {
            Some(s) => scalar_text(value@) == Some(s@),
            None => scalar_text(value@) is None,
        },
{
    match value {
        JsonValue::Text(s) => {
            if s.as_str().unicode_len() == 0 {
                None
            } else {
                Some(s.clone())
            }
        },
        JsonValue::Number(n) => {
            let mut out = String::new();
            match n {
                JsonNumber::Unsigned(u) => push_decimal(&mut out, *u),
                JsonNumber::Negative(i) => push_signed_decimal(&mut out, *i),
                JsonNumber::Fraction(t) => out.append(t.as_str()),
            }
            assert(out@ =~= n@.rendering());
            Some(out)
        },
        _ => None,
    }
}

/// The size that a leaf value stands for.
pub fn value_to_u64(value: &JsonValue) -> (r: Option<u64>)
    ensures
        r == scalar_size(value@),
{
    match value {
        JsonValue::Number(n) => match n {
            JsonNumber::Unsigned(u) => Some(*u),
            _ => None,
        },
        JsonValue::Text(s) => parse_u64(s.as_str()),
        _ => None,
    }
}

fn is_usable(value: &JsonValue, wanted: Wanted) -> (r: bool)
    ensures
        r == usable(value@, wanted),
{
    match wanted {
        Wanted::Text => value_to_string(value).is_some(),
        Wanted::Size => value_to_u64(value).is_some(),
    }
}

fn get<'a>(members: &'a Vec<JsonMember>, key: &String) -> (r: Option<&'a JsonValue>)
    ensures
        match r {
            Some(v) => lookup(member_views(members@), key@, 0) == Some(v@),
            None => lookup(member_views(members@), key@, 0) is None,
        },
{
    let ghost views = member_views(members@);
    let mut i: usize = 0;
    while i < members.len()
        invariant
            i <= members.len(),
            views == member_views(members@),
            lookup(views, key@, 0) == lookup(views, key@, i as int),
        decreases members.len() - i,
    {
        assert(views[i as int] == (members@[i as int].key@, members@[i as int].value@));
        if members[i].key == *key {
            return Some(&members[i].value);
        }
        i += 1;
    }
    None
}

fn get_direct<'a>(members: &'a Vec<JsonMember>, keys: &Vec<String>, wanted: Wanted) -> (r: Option<
    &'a JsonValue,
>)
    ensures
        match r {
            Some(v) => direct(member_views(members@), owned_key_texts(keys@), wanted, 0) == Some(
                v@,
            ),
            None => direct(member_views(members@), owned_key_texts(keys@), wanted, 0) is None,
        },
{
    let ghost texts = owned_key_texts(keys@);
    let ghost views = member_views(members@);
    let mut k: usize = 0;
    while k < keys.len()
        invariant
            k <= keys.len(),
            texts == owned_key_texts(keys@),
            views == member_views(members@),
            direct(views, texts, wanted, 0) == direct(views, texts, wanted, k as int),
        decreases keys.len() - k,
    {
        assert(texts[k as int] == keys@[k as int]@);
        match get(members, &keys[k]) {
            Some(v) => {
                if is_usable(v, wanted) {
                    return Some(v);
                }
            },
            None => {},
        }
        k += 1;
    }
    None
}

/// The first usable value under one of `keys` that the pre-order traversal
/// of `value` meets.
pub fn find_first<'a>(value: &'a JsonValue, keys: &Vec<String>, wanted: Wanted) -> (r: Option<
    &'a JsonValue,
>)
    ensures
        match r {
            Some(v) => found(value@, owned_key_texts(keys@), wanted) == Some(v@),
            None => found(value@, owned_key_texts(keys@), wanted) is None,
        },
    decreases value,
{
    let ghost texts = owned_key_texts(keys@);
    match value {
        JsonValue::Object(members) => {
            let ghost views = member_views(members@);
            proof {
                lemma_object_view(*members);
            }
            match get_direct(members, keys, wanted) {
                Some(v) => {
                    return Some(v);
                },
                None => {},
            }
            let mut i: usize = 0;
            while i < members.len()
                invariant
                    i <= members.len(),
                    texts == owned_key_texts(keys@),
                    views == member_views(members@),
                    *value == JsonValue::Object(*members),
                    value@ == Json::Object(views),
                    direct(views, texts, wanted, 0) is None,
                    found_in_members(views, texts, wanted, 0) == found_in_members(
                        views,
                        texts,
                        wanted,
                        i as int,
                    ),
                decreases members.len() - i,
            {
                assert(views[i as int].1 == members@[i as int].value@);
                match find_first(&members[i].value, keys, wanted) {
                    Some(v) => {
                        return Some(v);
                    },
                    None => {},
                }
                i += 1;
            }
            None
        },
        JsonValue::Array(items) => {
            let ghost views = item_views(items@);
            proof {
                lemma_array_view(*items);
            }
            let mut i: usize = 0;
            while i < items.len()
                invariant
                    i <= items.len(),
                    texts == owned_key_texts(keys@),
                    views == item_views(items@),
                    *value == JsonValue::Array(*items),
                    value@ == Json::Array(views),
                    found_in_items(views, texts, wanted, 0) == found_in_items(
                        views,
                        texts,
                        wanted,
                        i as int,
                    ),
                decreases items.len() - i,
            {
                assert(views[i as int] == items@[i as int]@);
                match find_first(&items[i], keys, wanted) {
                    Some(v) => {
                        return Some(v);
                    },
                    None => {},
                }
                i += 1;
            }
            None
        },
        _ => None,
    }
}

/// Owned copies of a list of key names.
pub fn owned_keys(keys: &[&str]) -> (r: Vec<String>)
    ensures
        owned_key_texts(r@) == key_texts(keys@),
{
    let mut r: Vec<String> = Vec::new();
    let mut i: usize = 0;
    while i < keys.len()
        invariant
            i <= keys.len(),
            r.len() == i,
            forall|j: int| 0 <= j < i ==> r@[j]@ == keys@[j]@,
        decreases keys.len() - i,
    {
        r.push(String::from_str(keys[i]));
        i += 1;
    }
    assert(owned_key_texts(r@) =~= key_texts(keys@));
    r
}

fn find_text(value: &JsonValue, keys: &Vec<String>) -> (r: Option<String>)
    ensures
        match r {
            Some(s) => first_text(value@, owned_key_texts(keys@)) == Some(s@),
            None => first_text(value@, owned_key_texts(keys@)) is None,
        },
{
    match find_first(value, keys, Wanted::Text) {
        Some(v) => value_to_string(v),
        None => None,
    }
}

fn find_size(value: &JsonValue, keys: &Vec<String>) -> (r: Option<u64>)
    ensures
        r == first_size(value@, owned_key_texts(keys@)),
{
    match find_first(value, keys, Wanted::Size) {
        Some(v) => value_to_u64(v),
        None => None,
    }
}

/// The first text found in `value` under one of `keys`, tried in priority
/// order at each object before its members are searched.
pub fn find_first_string(value: &JsonValue, keys: &[&str]) -> (r: Option<String>)
    ensures
        match r {
            Some(s) => first_text(value@, key_texts(keys@)) == Some(s@),
            None => first_text(value@, key_texts(keys@)) is None,
        },
{
    let owned = owned_keys(keys);
    find_text(value, &owned)
}

/// The first size found in `value` under one of `keys`, tried in priority
/// order at each object before its members are searched.
pub fn find_first_u64(value: &JsonValue, keys: &[&str]) -> (r: Option<u64>)
    ensures
        r == first_size(value@, key_texts(keys@)),
{
    let owned = owned_keys(keys);
    find_size(value, &owned)
}

/// Accepted names of the MD5 field, in priority order.
pub open spec fn md5_keys() -> Seq<Seq<char>> {
    seq!["md5Hash"@, "md5"@, "md5Checksum"@, "md5Sum"@, "MD5"@]
}

/// Accepted names of the hash-type field, in priority order.
pub open spec fn hash_type_keys() -> Seq<Seq<char>> {
    seq!["hashType"@, "checksumType"@]
}

/// Accepted names of the hash-value field, in priority order.
pub open spec fn hash_value_keys() -> Seq<Seq<char>> {
    seq!["hashValue"@, "checksum"@, "hash"@]
}

/// Accepted names of the file-size field, in priority order.
pub open spec fn file_size_keys() -> Seq<Seq<char>> {
    seq!["fileSize"@, "size"@, "fileSizeBytes"@]
}

/// The digest fields that a package detail document reports.
pub open spec fn snapshot_of(payload: Json) -> DigestView {
    DigestView {
        md5_hash: first_text(payload, md5_keys()),
        hash_type: first_text(payload, hash_type_keys()),
        hash_value: first_text(payload, hash_value_keys()),
        file_size: first_size(payload, file_size_keys()),
    }
}

impl PackageDigestSnapshot {
    /// Reads the digest fields out of a package detail document. The result
    /// is absent exactly when the document holds none of them.
    pub fn from_payload(payload: &JsonValue) -> (r: Option<PackageDigestSnapshot>)
        ensures
            match r {
                Some(s) => s@ == snapshot_of(payload@) && !s@.is_empty(),
                None => snapshot_of(payload@).is_empty(),
            },
    {
        let mut md5: Vec<String> = Vec::new();
        md5.push(String::from_str("md5Hash"));
        md5.push(String::from_str("md5"));
        md5.push(String::from_str("md5Checksum"));
        md5.push(String::from_str("md5Sum"));
        md5.push(String::from_str("MD5"));
        assert(owned_key_texts(md5@) =~= md5_keys());
        let mut kind: Vec<String> = Vec::new();
        kind.push(String::from_str("hashType"));
        kind.push(String::from_str("checksumType"));
        assert(owned_key_texts(kind@) =~= hash_type_keys());
        let mut hash: Vec<String> = Vec::new();
        hash.push(String::from_str("hashValue"));
        hash.push(String::from_str("checksum"));
        hash.push(String::from_str("hash"));
        assert(owned_key_texts(hash@) =~= hash_value_keys());
        let mut size: Vec<String> = Vec::new();
        size.push(String::from_str("fileSize"));
        size.push(String::from_str("size"));
        size.push(String::from_str("fileSizeBytes"));
        assert(owned_key_texts(size@) =~= file_size_keys());
        let snapshot = PackageDigestSnapshot {
            md5_hash: find_text(payload, &md5),
            hash_type: find_text(payload, &kind),
            hash_value: find_text(payload, &hash),
            file_size: find_size(payload, &size),
        };
        if snapshot.is_empty() {
            None
        } else {
            Some(snapshot)
        }
    }

    /// Reads the digest fields out of the body of a package detail answer.
    /// The body must be JSON; the snapshot is absent exactly when the
    /// document holds none of the digest fields.
    pub fn from_body(body: &str) -> (r: Result<Option<PackageDigestSnapshot>, MalformedDocument>)
        ensures
            match parsed_document(body@) {
                Some(doc) => match r {
                    Ok(Some(s)) => s@ == snapshot_of(doc) && !s@.is_empty(),
                    Ok(None) => snapshot_of(doc).is_empty(),
                    Err(_) => false,
                },
                None => r is Err,
            },
    {
        match parse_document(body) {
            Ok(doc) => Ok(Self::from_payload(&doc)),
            Err(e) => Err(e),
        }
    }
}

} // verus!
