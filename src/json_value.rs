use vstd::prelude::*;
use vstd::string::*;
use vstd::utf8::encode_utf8;

verus! {

#[verifier::external_type_specification]
#[verifier::external_body]
pub struct ExJsonValue(json::JsonValue);

#[verifier::external_type_specification]
#[verifier::external_body]
pub struct ExJsonError(json::Error);

/// What kind of JSON value a field holds: a string, a boolean, or anything
/// else (a number, null, an array or an object).
#[derive(Debug, PartialEq, Eq, Structural, Clone, Copy)]
pub enum FieldKind {
    Text,
    Flag,
    Other,
}

/// A field's value as the codec reads it: its kind and the text it displays as.
pub type Field = (FieldKind, Seq<char>);

/// The fields of a JSON object, each key mapped to its kind and the text that
/// the value displays as; `None` for a value that is not an object.
pub uninterp spec fn json_fields(v: json::JsonValue) -> Option<Map<Seq<char>, Field>>;

/// The members of a JSON array, each given by its fields as in `json_fields`;
/// `None` for a value that is not an array.
pub uninterp spec fn json_members(v: json::JsonValue) -> Option<Seq<Option<Map<Seq<char>, Field>>>>;

/// What `json::parse` makes of a text: `None` where it fails, else the members
/// of the value that it returns, as `json_members` gives them.
pub uninterp spec fn parsed_members(text: Seq<char>) -> Option<Option<Seq<Option<Map<Seq<char>, Field>>>>>;

/// An array of objects whose fields are all strings or booleans.
pub open spec fn flat_records(m: Option<Seq<Option<Map<Seq<char>, Field>>>>) -> bool {
    &&& m is Some
    &&& forall|i: int| 0 <= i < m->0.len() ==> (#[trigger] m->0[i]) is Some
    &&& forall|i: int, k: Seq<char>|
        0 <= i < m->0.len() && #[trigger] m->0[i]->0.contains_key(k) ==> m->0[i]->0[k].0
            != FieldKind::Other
}

/// The largest number of ASCII digits in a row, outside strings, that
/// `json::parse` is given: it counts a number's fraction digits in a 16-bit
/// exponent. Digits inside strings never reach that count.
pub const MAX_DIGIT_RUN: usize = 32767;

/// Whether the byte is an ASCII digit.
pub open spec fn is_digit_byte(b: u8) -> bool {
    0x30 <= b <= 0x39
}

/// Where a scan of JSON text stands after one more byte, from where it stood:
/// inside a string, just after a backslash in one, and the number of ASCII
/// digits in a row outside strings that end here.
pub open spec fn scan_step(st: (bool, bool, nat), b: u8) -> (bool, bool, nat) {
    if st.0 {
        if st.1 {
            (true, false, 0)
        } else if b == 0x5c {
            (true, true, 0)
        } else if b == 0x22 {
            (false, false, 0)
        } else {
            (true, false, 0)
        }
    } else if b == 0x22 {
        (true, false, 0)
    } else if is_digit_byte(b) {
        (false, false, st.2 + 1)
    } else {
        (false, false, 0)
    }
}

/// Where a scan of the first `i` bytes of JSON text stands.
pub open spec fn scan_to(s: Seq<u8>, i: int) -> (bool, bool, nat)
    decreases i,
{
    if i <= 0 || i > s.len() {
        (false, false, 0)
    } else {
        scan_step(scan_to(s, i - 1), s[i - 1])
    }
}

/// No run of ASCII digits outside strings is longer than `MAX_DIGIT_RUN`.
pub open spec fn digit_runs_bounded(s: Seq<u8>) -> bool {
    forall|i: int| 0 <= i <= s.len() ==> #[trigger] scan_to(s, i).2 <= MAX_DIGIT_RUN
}

/// Whether no run of ASCII digits outside strings is too long for `json::parse`.
pub fn digit_runs_fit(text: &str) -> (r: bool)
    ensures
        r == digit_runs_bounded(text.spec_bytes()),
{
    let bytes = text.as_bytes();
    let mut in_string = false;
    let mut escaped = false;
    let mut run: usize = 0;
    let mut i: usize = 0;
    while i < bytes.len()
        invariant
            bytes@ == text.spec_bytes(),
            i <= bytes@.len(),
            scan_to(bytes@, i as int) == (in_string, escaped, run as nat),
            forall|j: int| 0 <= j <= i ==> #[trigger] scan_to(bytes@, j).2 <= MAX_DIGIT_RUN,
        decreases bytes@.len() - i,
    {
        let b = bytes[i];
        assert(scan_to(bytes@, i as int).2 <= MAX_DIGIT_RUN);
        if in_string {
            if escaped {
                escaped = false;
            } else if b == 0x5c {
                escaped = true;
            } else if b == 0x22 {
                in_string = false;
            }
            run = 0;
        } else if b == 0x22 {
            in_string = true;
            run = 0;
        } else if 0x30 <= b && b <= 0x39 {
            run = run + 1;
        } else {
            run = 0;
        }
        i = i + 1;
        assert(scan_to(bytes@, i as int) == (in_string, escaped, run as nat));
        if run > MAX_DIGIT_RUN {
            assert(scan_to(bytes@, i as int).2 > MAX_DIGIT_RUN);
            return false;
        }
    }
    assert(bytes@ == text.spec_bytes());
    true
}

/// The text that a boolean displays as.
pub open spec fn flag_text(b: bool) -> Seq<char> {
    if b {
        "true"@
    } else {
        "false"@
    }
}

/// The members of an array value, with no members for any other value.
pub open spec fn members_or_empty(
    m: Option<Seq<Option<Map<Seq<char>, Field>>>>,
) -> Seq<Option<Map<Seq<char>, Field>>> {
    match m {
        Some(s) => s,
        None => Seq::empty(),
    }
}

/// Relies on JsonValue::new_object: an object with no fields.
pub assume_specification[ json::JsonValue::new_object ]() -> (r: json::JsonValue)
    ensures
        json_fields(r) == Some(Map::<Seq<char>, Field>::empty()),
        json_members(r) is None,
;

/// Relies on JsonValue::new_array: an array with no members.
pub assume_specification[ json::JsonValue::new_array ]() -> (r: json::JsonValue)
    ensures
        json_members(r) == Some(Seq::<Option<Map<Seq<char>, Field>>>::empty()),
        json_fields(r) is None,
;

/// Relies on JsonValue::has_key: true exactly for an object that holds the key.
pub assume_specification[ json::JsonValue::has_key ](v: &json::JsonValue, key: &str) -> (r: bool)
    ensures
        r == (json_fields(*v) is Some && json_fields(*v)->0.contains_key(key@)),
;

/// Relies on JsonValue::insert with a `String` value: on an object it sets the
/// key to a string, which displays as itself; a key already there is replaced.
#[verifier::external_body]
pub(crate) fn insert_text(v: &mut json::JsonValue, key: &str, value: String)
    requires
        json_fields(*old(v)) is Some,
    ensures
        json_fields(*final(v)) == Some(json_fields(*old(v))->0.insert(key@, (FieldKind::Text, value@))),
        json_members(*final(v)) is None,
{
    let _ = v.insert(key, value);
}

/// Relies on JsonValue::insert with a `bool` value: on an object it sets the
/// key to a boolean, which displays as `true` or `false`.
#[verifier::external_body]
pub(crate) fn insert_flag(v: &mut json::JsonValue, key: &str, value: bool)
    requires
        json_fields(*old(v)) is Some,
    ensures
        json_fields(*final(v)) == Some(json_fields(*old(v))->0.insert(key@, (FieldKind::Flag, flag_text(value)))),
        json_members(*final(v)) is None,
{
    let _ = v.insert(key, value);
}

/// Relies on indexing a JsonValue by key and on its `Display`: the text of the
/// value held under a key that the object has.
#[verifier::external_body]
pub(crate) fn field_text(v: &json::JsonValue, key: &str) -> (r: String)
    requires
        json_fields(*v) is Some,
        json_fields(*v)->0.contains_key(key@),
    ensures
        r@ == json_fields(*v)->0[key@].1,
{
    v[key].to_string()
}

/// Relies on JsonValue::push: on an array it appends the value as its last member.
#[verifier::external_body]
pub(crate) fn push_member(v: &mut json::JsonValue, item: json::JsonValue)
    requires
        json_members(*old(v)) is Some,
    ensures
        json_members(*final(v)) == Some(json_members(*old(v))->0.push(json_fields(item))),
        json_fields(*final(v)) is None,
{
    let _ = v.push(item);
}

/// Relies on JsonValue::members: the number of members of an array, none for
/// any other value.
#[verifier::external_body]
pub(crate) fn member_count(v: &json::JsonValue) -> (r: usize)
    ensures
        r == members_or_empty(json_members(*v)).len(),
{
    v.members().len()
}

/// Relies on indexing a JsonValue by position and on its `Clone`: a copy of an
/// array's member.
#[verifier::external_body]
pub(crate) fn member_at(v: &json::JsonValue, i: usize) -> (r: json::JsonValue)
    requires
        json_members(*v) is Some,
        i < json_members(*v)->0.len(),
    ensures
        json_fields(r) == json_members(*v)->0[i as int],
{
    v[i].clone()
}

/// Relies on json::parse: whether the text parses, and the members of what it
/// parses to, depend on the text alone. A number with more fraction digits
/// than its 16-bit exponent can count would overflow it, so long digit runs
/// are left out.
#[verifier::external_body]
pub(crate) fn parse_text(text: &str) -> (r: Result<json::JsonValue, json::Error>)
    requires
        digit_runs_bounded(text.spec_bytes()),
    ensures
        r is Ok <==> parsed_members(text@) is Some,
        r is Ok ==> json_members(r->Ok_0) == parsed_members(text@)->0,
{
    json::parse(text)
}

/// Relies on JsonValue::dump: the value written as compact JSON text. Strings
/// and keys are written with escapes that json::parse reads back, so an array
/// of objects with string and boolean fields parses to the same members.
/// Such an array is written with strings, `true`, `false` and punctuation
/// alone, so no digit stands outside a string.
#[verifier::external_body]
pub(crate) fn dump_text(v: &json::JsonValue) -> (r: String)
    ensures
        flat_records(json_members(*v)) ==> parsed_members(r@) == Some(json_members(*v)),
        flat_records(json_members(*v)) ==> digit_runs_bounded(encode_utf8(r@)),
{
    v.dump()
}

} // verus!
