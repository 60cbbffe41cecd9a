//! JSON documents, held as `serde_json` values.

use vstd::prelude::*;

verus! {

// ── Names ──────────────────────────────────────────────────────────────

/// `serde_json::Value`, a JSON document.
#[verifier::external_type_specification]
#[verifier::external_body]
pub struct ExValue(serde_json::Value);

/// The members of a JSON object, by key. Empty for any other document.
pub uninterp spec fn json_members(v: serde_json::Value) -> Map<Seq<char>, serde_json::Value>;

/// Whether a document is an object.
pub uninterp spec fn is_json_object(v: serde_json::Value) -> bool;

/// Whether a document is `null`.
pub uninterp spec fn is_json_null(v: serde_json::Value) -> bool;

/// The document that is the string `s`.
pub uninterp spec fn json_string(s: Seq<char>) -> serde_json::Value;

/// The document that is the boolean `b`.
pub uninterp spec fn json_bool(b: bool) -> serde_json::Value;

/// The document that is the whole number `n`, where `n` fits an `i64` or a
/// `u64`.
pub uninterp spec fn json_number(n: int) -> serde_json::Value;

/// The document that is the array of `items`.
pub uninterp spec fn json_array(items: Seq<serde_json::Value>) -> serde_json::Value;

/// The document that a JSON text spells; `None` where it is not JSON.
pub uninterp spec fn parsed_json(text: Seq<char>) -> Option<serde_json::Value>;

/// A document as indented JSON text; `None` where it cannot be written.
pub uninterp spec fn pretty_json(v: serde_json::Value) -> Option<Seq<char>>;

/// A document as JSON text on one line.
pub uninterp spec fn compact_json(v: serde_json::Value) -> Seq<char>;

/// The members of an empty object.
pub open spec fn no_members() -> Map<Seq<char>, serde_json::Value> {
    Map::empty()
}

/// `v` is an object with exactly these members.
pub open spec fn is_object_of(
    v: serde_json::Value,
    members: Map<Seq<char>, serde_json::Value>,
) -> bool {
    is_json_object(v) && json_members(v) == members
}

/// Whether a document is a string.
pub open spec fn is_json_string(v: serde_json::Value) -> bool {
    exists|s: Seq<char>| v == #[trigger] json_string(s)
}

/// Whether a key is plain: it is not the one that `serde_json` gives a meaning
/// of its own.
pub open spec fn plain_key(k: Seq<char>) -> bool {
    k != "$serde_json::private::RawValue"@
}

/// Whether a document is a boolean.
pub open spec fn is_json_bool(v: serde_json::Value) -> bool {
    exists|b: bool| v == #[trigger] json_bool(b)
}

/// Whether a document is a whole number that fits an `i64` or a `u64`.
pub open spec fn is_json_number(v: serde_json::Value) -> bool {
    exists|n: int| i64::MIN <= n <= u64::MAX && v == #[trigger] json_number(n)
}

/// How deep a document may be nested to be read: the parser of `serde_json`
/// refuses to go deeper.
pub open spec fn plain_depth() -> nat {
    127
}

/// Whether a document is plain: made of strings, booleans, whole numbers and
/// `null`, in arrays, and in objects with plain keys, nested at most `depth`
/// deep.
pub open spec fn plain(v: serde_json::Value, depth: nat) -> bool
    decreases depth, 0nat,
{
    ||| is_json_null(v)
    ||| is_json_string(v)
    ||| is_json_bool(v)
    ||| is_json_number(v)
    ||| depth > 0 && is_json_object(v) && plain_members(json_members(v), (depth - 1) as nat)
    ||| depth > 0 && exists|items: Seq<serde_json::Value>|
        v == #[trigger] json_array(items) && plain_items(items, (depth - 1) as nat)
}

/// Whether the items of an array are plain.
pub open spec fn plain_items(items: Seq<serde_json::Value>, depth: nat) -> bool
    decreases depth, 1nat,
{
    forall|i: int| 0 <= i < items.len() ==> plain(#[trigger] items[i], depth)
}

/// Whether the members of an object are plain, and its keys.
pub open spec fn plain_members(members: Map<Seq<char>, serde_json::Value>, depth: nat) -> bool
    decreases depth, 1nat,
{
    forall|k: Seq<char>| #[trigger]
        members.dom().contains(k) ==> plain_key(k) && plain(members[k], depth)
}

/// A plain document is plain where more nesting is allowed too.
pub proof fn lemma_plain_deeper(v: serde_json::Value, depth: nat, more: nat)
    requires
        plain(v, depth),
        depth <= more,
    ensures
        plain(v, more),
    decreases depth,
{
    if depth > 0 {
        let d = (depth - 1) as nat;
        let m = (more - 1) as nat;
        if is_json_object(v) && plain_members(json_members(v), d) {
            let members = json_members(v);
            assert forall|k: Seq<char>| #[trigger] members.dom().contains(k) implies plain_key(k)
                && plain(members[k], m) by {
                lemma_plain_deeper(members[k], d, m);
            }
            assert(plain_members(members, m));
        } else if exists|items: Seq<serde_json::Value>|
            v == #[trigger] json_array(items) && plain_items(items, d) {
            let items = choose|items: Seq<serde_json::Value>|
                v == #[trigger] json_array(items) && plain_items(items, d);
            assert forall|i: int| 0 <= i < items.len() implies plain(#[trigger] items[i], m) by {
                lemma_plain_deeper(items[i], d, m);
            }
            assert(plain_items(items, m));
        }
    }
}

/// `text` spells an object with exactly these members.
pub open spec fn spells_object(
    text: Seq<char>,
    members: Map<Seq<char>, serde_json::Value>,
) -> bool {
    parsed_json(text) matches Some(v) && is_object_of(v, members)
}

// ── Calls ──────────────────────────────────────────────────────────────

/// Calls `serde_json::from_str` for a `Value`. The result is a function of the
/// text.
#[verifier::external_body]
pub(crate) fn parse(text: &str) -> (r: Option<serde_json::Value>)
    ensures
        r == parsed_json(text@),
{
    serde_json::from_str(text).ok()
}

/// Calls `serde_json::to_string_pretty` on a `Value`. The result is a function
/// of the document. A plain document can always be written, and its text spells
/// the same document. Of others this is left unsaid: a number with a fraction
/// may be read back slightly off, and a document nested deeper than the parser
/// goes not at all.
#[verifier::external_body]
pub(crate) fn pretty(v: &serde_json::Value) -> (r: Option<String>)
    ensures
        match pretty_json(*v) {
            Some(text) => r is Some && r->0@ == text,
            None => r is None,
        },
        plain(*v, plain_depth()) ==> r is Some && parsed_json(r->0@) == Some(*v),
{
    serde_json::to_string_pretty(v).ok()
}

/// Calls `to_string` on a `serde_json::Value`, whose `Display` writes it on one
/// line. The result is a function of the document.
#[verifier::external_body]
pub(crate) fn compact(v: &serde_json::Value) -> (r: String)
    ensures
        r@ == compact_json(*v),
{
    v.to_string()
}

/// Makes `serde_json::Value::Object` of an empty `serde_json::Map`: an object
/// without members.
#[verifier::external_body]
pub(crate) fn object() -> (r: serde_json::Value)
    ensures
        is_json_object(r),
        json_members(r) == no_members(),
{
    serde_json::Value::Object(serde_json::Map::new())
}

/// Calls `serde_json::Value::is_object`. What is not an object has no members.
#[verifier::external_body]
pub(crate) fn is_object(v: &serde_json::Value) -> (r: bool)
    ensures
        r == is_json_object(*v),
        !r ==> json_members(*v) == no_members(),
{
    v.is_object()
}

/// Calls `serde_json::Value::is_null`.
#[verifier::external_body]
pub(crate) fn is_null(v: &serde_json::Value) -> (r: bool)
    ensures
        r == is_json_null(*v),
{
    v.is_null()
}

/// Assigns through `IndexMut<&str>` of `serde_json::Value`, which takes an
/// object, or `null` for an empty one, and panics on anything else. The member
/// is added or replaced and the others stay.
#[verifier::external_body]
pub(crate) fn set(v: &mut serde_json::Value, key: &str, value: serde_json::Value)
    requires
        is_json_object(*old(v)) || is_json_null(*old(v)),
    ensures
        is_json_object(*final(v)),
        is_json_object(*old(v)) ==> json_members(*final(v)) == json_members(*old(v)).insert(
            key@,
            value,
        ),
        !is_json_object(*old(v)) ==> json_members(*final(v)) == no_members().insert(
            key@,
            value,
        ),
{
    v[key] = value;
}

/// Calls `From<&str>` of `serde_json::Value`: a JSON string.
#[verifier::external_body]
pub(crate) fn string(s: &str) -> (r: serde_json::Value)
    ensures
        r == json_string(s@),
{
    serde_json::Value::from(s)
}

/// Calls `From<bool>` of `serde_json::Value`: a JSON boolean.
#[verifier::external_body]
pub(crate) fn boolean(b: bool) -> (r: serde_json::Value)
    ensures
        r == json_bool(b),
{
    serde_json::Value::from(b)
}

/// Calls `From<u64>` of `serde_json::Value`: a whole number.
#[verifier::external_body]
pub(crate) fn number(n: u64) -> (r: serde_json::Value)
    ensures
        r == json_number(n as int),
{
    serde_json::Value::from(n)
}

/// Calls `From<Vec<Value>>` of `serde_json::Value`: a JSON array.
#[verifier::external_body]
pub(crate) fn array(items: Vec<serde_json::Value>) -> (r: serde_json::Value)
    ensures
        r == json_array(items@),
{
    serde_json::Value::from(items)
}

/// `Clone` of `serde_json::Value` copies the document.
pub assume_specification[ <serde_json::Value as Clone>::clone ](v: &serde_json::Value) -> (r:
    serde_json::Value)
    ensures
        r == *v,
;

// ── Laws ───────────────────────────────────────────────────────────────

/// What is plain: strings, booleans, whole numbers of 64 bits and `null` at any
/// depth, and arrays and objects of what is plain one level less deep, but for
/// objects with the one key that has a meaning of its own.
pub proof fn law_plain_documents(
    s: Seq<char>,
    b: bool,
    n: int,
    items: Seq<serde_json::Value>,
    v: serde_json::Value,
    depth: nat,
)
    ensures
        plain(json_string(s), depth),
        plain(json_bool(b), depth),
        -0x8000_0000_0000_0000 <= n <= 0xFFFF_FFFF_FFFF_FFFF ==> plain(json_number(n), depth),
        is_json_null(v) ==> plain(v, depth),
        depth > 0 && (forall|i: int|
            0 <= i < items.len() ==> plain(#[trigger] items[i], (depth - 1) as nat)) ==> plain(
            json_array(items),
            depth,
        ),
        depth > 0 && is_json_object(v) && (forall|k: Seq<char>| #[trigger]
            json_members(v).dom().contains(k) ==> k != "$serde_json::private::RawValue"@ && plain(
                json_members(v)[k],
                (depth - 1) as nat,
            )) ==> plain(v, depth),
{
    assert(is_json_string(json_string(s)));
    assert(is_json_bool(json_bool(b)));
    if -0x8000_0000_0000_0000 <= n <= 0xFFFF_FFFF_FFFF_FFFF {
        assert(is_json_number(json_number(n)));
    }
    if depth > 0 && (forall|i: int|
        0 <= i < items.len() ==> plain(#[trigger] items[i], (depth - 1) as nat)) {
        assert(plain_items(items, (depth - 1) as nat));
    }
    if depth > 0 && is_json_object(v) && (forall|k: Seq<char>| #[trigger]
        json_members(v).dom().contains(k) ==> k != "$serde_json::private::RawValue"@ && plain(
            json_members(v)[k],
            (depth - 1) as nat,
        )) {
        assert(plain_members(json_members(v), (depth - 1) as nat));
    }
}

/// An object is its members: a text spells one with given members where what it
/// parses as is an object that has just these.
pub proof fn law_objects(
    v: serde_json::Value,
    members: Map<Seq<char>, serde_json::Value>,
    text: Seq<char>,
)
    ensures
        is_object_of(v, members) <==> is_json_object(v) && json_members(v) == members,
        spells_object(text, members) <==> (parsed_json(text) matches Some(w) && is_json_object(w)
            && json_members(w) == members),
{
}

} // verus!
