//! Opaque page cursors: a small JSON payload, written as lowercase hex,
//! that binds a position in a result list to the query that produced it.
use vstd::prelude::*;
use vstd::utf8::{encode_utf8, is_ascii_chars, is_ascii_chars_encode_utf8};
use crate::failure::{failure, str_equals, FailureView, ProtocolFailure};
use crate::text::{chars_of, decimal_int, decimal_nat, digit_char, i64_to_decimal, parse_i64, parse_i64_spec, push_decimal, string_of};
use crate::validate::MAXIMUM_CURSOR_CHARACTERS;

verus! {

/// The sort value a cursor resumes from, as carried on the wire.
#[derive(Debug, Clone)]
pub enum CursorScalar {
    Integer(String),
    Text(String),
}

/// The decoded content of a page cursor.
#[derive(Debug, Clone)]
pub struct CursorPayload {
    pub version: u8,
    pub kind: String,
    pub query: String,
    pub before: bool,
    pub value: CursorScalar,
    pub id: i64,
}

/// The sort value a page starts after (or before).
#[derive(Debug, Clone)]
pub enum PageCursorValue {
    Integer(i64),
    Text(String),
}

/// A validated position in a keyset-paged result list.
#[derive(Debug, Clone)]
pub struct PageCursor {
    pub value: PageCursorValue,
    pub id: i64,
    pub before: bool,
}

/// The failure every malformed or foreign cursor earns.
pub open spec fn invalid_cursor_failure() -> FailureView {
    failure("invalid_cursor"@, "The page cursor is invalid or belongs to a different query"@, seq![])
}

pub fn invalid_cursor() -> (r: ProtocolFailure)
    ensures
        r@ =~~= invalid_cursor_failure(),
{
    ProtocolFailure::new("invalid_cursor", "The page cursor is invalid or belongs to a different query")
}

/// A lowercase hexadecimal digit.
pub open spec fn hex_digit(n: nat) -> char {
    if n < 10 {
        digit_char(n)
    } else if n == 10 {
        'a'
    } else if n == 11 {
        'b'
    } else if n == 12 {
        'c'
    } else if n == 13 {
        'd'
    } else if n == 14 {
        'e'
    } else {
        'f'
    }
}

/// Two lowercase hex digits per byte, most significant first.
pub open spec fn hex_encode_spec(b: Seq<u8>) -> Seq<char>
    decreases b.len(),
{
    if b.len() == 0 {
        Seq::empty()
    } else {
        hex_encode_spec(b.drop_last()) + seq![hex_digit((b.last() / 16) as nat), hex_digit((b.last() % 16) as nat)]
    }
}

/// The value of one hex digit byte, either case.
pub open spec fn hex_value(b: u8) -> Option<nat> {
    if 48 <= b <= 57 {
        Some((b - 48) as nat)
    } else if 97 <= b <= 102 {
        Some((b - 87) as nat)
    } else if 65 <= b <= 70 {
        Some((b - 55) as nat)
    } else {
        None
    }
}

/// `u8::from_str_radix(pair, 16)`: two hex digits, or `+` and one digit.
pub open spec fn pair_value(hi: u8, lo: u8) -> Option<u8> {
    match (hex_value(hi), hex_value(lo)) {
        (Some(h), Some(l)) => Some((h * 16 + l) as u8),
        (None, Some(l)) => if hi == 43 {
            Some(l as u8)
        } else {
            None
        },
        _ => None,
    }
}

/// The bytes encoded by an even-length run of hex pairs.
pub open spec fn hex_decode_pairs(b: Seq<u8>) -> Option<Seq<u8>>
    decreases b.len(),
{
    if b.len() == 0 {
        Some(Seq::empty())
    } else if b.len() < 2 {
        None
    } else {
        match (hex_decode_pairs(b.subrange(0, b.len() - 2)), pair_value(b[b.len() - 2], b[b.len() - 1])) {
            (Some(p), Some(v)) => Some(p.push(v)),
            _ => None,
        }
    }
}

/// The bytes of a cursor, given the bytes of its text: a nonempty,
/// even-length text of at most 524288 bytes made of hex pairs.
pub open spec fn cursor_bytes_spec(text: Seq<u8>) -> Option<Seq<u8>> {
    if text.len() == 0 || text.len() > MAXIMUM_CURSOR_CHARACTERS || text.len() % 2 != 0 {
        None
    } else {
        hex_decode_pairs(text)
    }
}

fn hex_digit_of(n: u8) -> (r: char)
    requires
        n < 16,
    ensures
        r == hex_digit(n as nat),
{
    if n < 10 {
        if n == 0 {
            '0'
        } else if n == 1 {
            '1'
        } else if n == 2 {
            '2'
        } else if n == 3 {
            '3'
        } else if n == 4 {
            '4'
        } else if n == 5 {
            '5'
        } else if n == 6 {
            '6'
        } else if n == 7 {
            '7'
        } else if n == 8 {
            '8'
        } else {
            '9'
        }
    } else if n == 10 {
        'a'
    } else if n == 11 {
        'b'
    } else if n == 12 {
        'c'
    } else if n == 13 {
        'd'
    } else if n == 14 {
        'e'
    } else {
        'f'
    }
}

/// Lowercase hex text of a byte sequence.
pub fn hex_encode(bytes: &[u8]) -> (r: String)
    ensures
        r@ == hex_encode_spec(bytes@),
{
    let mut out: Vec<char> = Vec::new();
    let mut i: usize = 0;
    while i < bytes.len()
        invariant
            i <= bytes@.len(),
            out@ == hex_encode_spec(bytes@.subrange(0, i as int)),
        decreases bytes.len() - i,
    {
        let b = bytes[i];
        out.push(hex_digit_of(b / 16));
        out.push(hex_digit_of(b % 16));
        let ghost next = bytes@.subrange(0, i + 1);
        assert(next.drop_last() =~= bytes@.subrange(0, i as int));
        assert(next.last() == b);
        i = i + 1;
    }
    assert(bytes@.subrange(0, bytes@.len() as int) =~= bytes@);
    string_of(&out)
}

fn hex_value_of(b: u8) -> (r: Option<u8>)
    ensures
        r matches Some(v) ==> hex_value(b) == Some(v as nat),
        r is None ==> hex_value(b) is None,
{
    if 48 <= b && b <= 57 {
        Some(b - 48)
    } else if 97 <= b && b <= 102 {
        Some(b - 87)
    } else if 65 <= b && b <= 70 {
        Some(b - 55)
    } else {
        None
    }
}

/// Decodes the hex text of a cursor into its payload bytes.
pub fn decode_cursor_bytes(encoded: &str) -> (r: Result<Vec<u8>, ProtocolFailure>)
    ensures
        r is Ok <==> cursor_bytes_spec(encode_utf8(encoded@)) is Some,
        r matches Ok(b) ==> cursor_bytes_spec(encode_utf8(encoded@)) == Some(b@),
        r matches Err(f) ==> f@ =~~= invalid_cursor_failure(),
{
    let text = encoded.as_bytes();
    let n = text.len();
    if n == 0 || n > MAXIMUM_CURSOR_CHARACTERS || n % 2 != 0 {
        return Err(invalid_cursor());
    }
    let mut out: Vec<u8> = Vec::new();
    let mut i: usize = 0;
    while i < n
        invariant
            i <= n,
            n == text@.len(),
            text@ == encode_utf8(encoded@),
            i % 2 == 0,
            n % 2 == 0,
            hex_decode_pairs(text@.subrange(0, i as int)) == Some(out@),
            cursor_bytes_spec(text@) == hex_decode_pairs(text@),
        decreases n - i,
    {
        let ghost prefix = text@.subrange(0, i + 2);
        assert(prefix.subrange(0, prefix.len() - 2) =~= text@.subrange(0, i as int));
        assert(prefix[prefix.len() - 2] == text[i as int]);
        assert(prefix[prefix.len() - 1] == text[i + 1]);
        let hi = hex_value_of(text[i]);
        let lo = hex_value_of(text[i + 1]);
        let v: u8 = match (hi, lo) {
            (Some(h), Some(l)) => h * 16 + l,
            (None, Some(l)) => {
                if text[i] == 43 {
                    l
                } else {
                    proof {
                        lemma_failed_prefix_fails(text@, i as int + 2);
                    }
                    return Err(invalid_cursor());
                }
            },
            _ => {
                proof {
                    lemma_failed_prefix_fails(text@, i as int + 2);
                }
                return Err(invalid_cursor());
            },
        };
        out.push(v);
        i = i + 2;
    }
    assert(text@.subrange(0, n as int) =~= text@);
    Ok(out)
}

/// A failing even-length prefix makes the whole text fail.
proof fn lemma_failed_prefix_fails(b: Seq<u8>, k: int)
    requires
        0 <= k <= b.len(),
        k % 2 == 0,
        b.len() % 2 == 0,
        hex_decode_pairs(b.subrange(0, k)) is None,
    ensures
        hex_decode_pairs(b) is None,
    decreases b.len() - k,
{
    if k < b.len() {
        let next = b.subrange(0, k + 2);
        assert(next.subrange(0, next.len() - 2) =~= b.subrange(0, k));
        lemma_failed_prefix_fails(b, k + 2);
    } else {
        assert(b.subrange(0, k) =~= b);
    }
}

proof fn lemma_hex_encode_len(b: Seq<u8>)
    ensures
        hex_encode_spec(b).len() == 2 * b.len(),
    decreases b.len(),
{
    if b.len() > 0 {
        lemma_hex_encode_len(b.drop_last());
    }
}

proof fn lemma_hex_encode_ascii(b: Seq<u8>)
    ensures
        is_ascii_chars(hex_encode_spec(b)),
        forall|i: int| 0 <= i < hex_encode_spec(b).len() ==> {
            let c = #[trigger] hex_encode_spec(b)[i];
            ('0' <= c <= '9') || ('a' <= c <= 'f')
        },
    decreases b.len(),
{
    if b.len() > 0 {
        lemma_hex_encode_ascii(b.drop_last());
        lemma_hex_encode_len(b.drop_last());
        let p = hex_encode_spec(b.drop_last());
        let q = seq![hex_digit((b.last() / 16) as nat), hex_digit((b.last() % 16) as nat)];
        assert forall|i: int| 0 <= i < (p + q).len() implies {
            let c = #[trigger] (p + q)[i];
            ('0' <= c <= '9') || ('a' <= c <= 'f')
        } by {
            if i >= p.len() {
                assert((p + q)[i] == q[i - p.len()]);
            } else {
                assert((p + q)[i] == p[i]);
            }
        }
        assert forall|i: int| 0 <= i < (p + q).len() implies '\0' <= #[trigger] (p + q)[i] <= '\u{7f}' by {
            let c = (p + q)[i];
            assert(('0' <= c <= '9') || ('a' <= c <= 'f'));
        }
    }
}

/// The bytes of hex text (which is ASCII) are its characters.
proof fn lemma_hex_text_bytes(b: Seq<u8>)
    ensures
        encode_utf8(hex_encode_spec(b)) =~= Seq::new(hex_encode_spec(b).len(), |i: int| hex_encode_spec(b)[i] as u8),
{
    lemma_hex_encode_ascii(b);
    is_ascii_chars_encode_utf8(hex_encode_spec(b));
}

/// Decoding the hex text of any bytes gives the bytes back.
pub proof fn lemma_hex_round_trip(b: Seq<u8>)
    ensures
        hex_decode_pairs(Seq::new(hex_encode_spec(b).len(), |i: int| hex_encode_spec(b)[i] as u8)) == Some(b),
    decreases b.len(),
{
    lemma_hex_encode_len(b);
    if b.len() > 0 {
        let p = b.drop_last();
        lemma_hex_round_trip(p);
        lemma_hex_encode_len(p);
        let t = Seq::new(hex_encode_spec(b).len(), |i: int| hex_encode_spec(b)[i] as u8);
        let tp = Seq::new(hex_encode_spec(p).len(), |i: int| hex_encode_spec(p)[i] as u8);
        assert(t.subrange(0, t.len() - 2) =~= tp);
        let last = b.last();
        let hi = hex_digit((last / 16) as nat);
        let lo = hex_digit((last % 16) as nat);
        assert(t[t.len() - 2] == hi as u8);
        assert(t[t.len() - 1] == lo as u8);
        assert(hex_value(hi as u8) == Some((last / 16) as nat));
        assert(hex_value(lo as u8) == Some((last % 16) as nat));
        assert(b =~= p.push(last));
    } else {
        assert(Seq::new(hex_encode_spec(b).len(), |i: int| hex_encode_spec(b)[i] as u8) =~= Seq::<u8>::empty());
    }
}

/// The cursor text of nonempty payload bytes decodes to those bytes, as long
/// as it fits the cursor length limit.
pub proof fn lemma_cursor_text_round_trip(b: Seq<u8>)
    requires
        0 < b.len(),
        2 * b.len() <= MAXIMUM_CURSOR_CHARACTERS,
    ensures
        cursor_bytes_spec(encode_utf8(hex_encode_spec(b))) == Some(b),
{
    lemma_hex_text_bytes(b);
    lemma_hex_encode_len(b);
    lemma_hex_round_trip(b);
}

/// JSON escape of one character, as `serde_json` writes strings.
pub open spec fn json_escape(c: char) -> Seq<char> {
    if c == '"' {
        seq!['\\', '"']
    } else if c == '\\' {
        seq!['\\', '\\']
    } else if c == '\u{8}' {
        seq!['\\', 'b']
    } else if c == '\t' {
        seq!['\\', 't']
    } else if c == '\n' {
        seq!['\\', 'n']
    } else if c == '\u{c}' {
        seq!['\\', 'f']
    } else if c == '\r' {
        seq!['\\', 'r']
    } else if (c as u32) < 0x20 {
        seq!['\\', 'u', '0', '0', hex_digit(((c as u32) / 16) as nat), hex_digit(((c as u32) % 16) as nat)]
    } else {
        seq![c]
    }
}

/// The escaped body of a JSON string.
pub open spec fn json_escaped(s: Seq<char>) -> Seq<char>
    decreases s.len(),
{
    if s.len() == 0 {
        Seq::empty()
    } else {
        json_escaped(s.drop_last()) + json_escape(s.last())
    }
}

/// A JSON string literal.
pub open spec fn json_string(s: Seq<char>) -> Seq<char> {
    seq!['"'] + json_escaped(s) + seq!['"']
}

pub struct ScalarView {
    pub is_text: bool,
    pub value: Seq<char>,
}

pub open spec fn scalar_view(v: CursorScalar) -> ScalarView {
    match v {
        CursorScalar::Integer(s) => ScalarView { is_text: false, value: s@ },
        CursorScalar::Text(s) => ScalarView { is_text: true, value: s@ },
    }
}

/// The JSON text of a cursor payload from its parts: the fields in
/// declaration order, the scalar as an adjacently tagged `{"type", "value"}` object.
pub open spec fn payload_json(
    version: nat,
    kind: Seq<char>,
    query: Seq<char>,
    before: bool,
    is_text: bool,
    value: Seq<char>,
    id: int,
) -> Seq<char> {
    "{\"version\":"@ + decimal_nat(version) + ",\"kind\":"@ + json_string(kind) + ",\"query\":"@ + json_string(query)
        + ",\"before\":"@ + (if before {
        "true"@
    } else {
        "false"@
    }) + ",\"value\":{\"type\":"@ + (if is_text {
        "\"text\""@
    } else {
        "\"integer\""@
    }) + ",\"value\":"@ + json_string(value) + "},\"id\":"@ + decimal_int(id) + "}"@
}

/// The JSON text of a cursor payload, as `serde_json` writes it.
pub open spec fn cursor_json(p: CursorPayload) -> Seq<char> {
    payload_json(
        p.version as nat,
        p.kind@,
        p.query@,
        p.before,
        scalar_view(p.value).is_text,
        scalar_view(p.value).value,
        p.id as int,
    )
}

/// The cursor text of a payload.
pub open spec fn cursor_text(p: CursorPayload) -> Seq<char> {
    hex_encode_spec(encode_utf8(cursor_json(p)))
}

pub(crate) fn push_str(out: &mut Vec<char>, s: &str)
    ensures
        final(out)@ == old(out)@ + s@,
{
    let v = chars_of(s);
    let mut i: usize = 0;
    let ghost start = out@;
    while i < v.len()
        invariant
            i <= v@.len(),
            v@ == s@,
            out@ == start + v@.subrange(0, i as int),
        decreases v.len() - i,
    {
        out.push(v[i]);
        assert(v@.subrange(0, i + 1) =~= v@.subrange(0, i as int).push(v@[i as int]));
        i = i + 1;
    }
    assert(v@.subrange(0, v@.len() as int) =~= v@);
}

/// `serde_json::to_string` of a string: the string in quotes, with `"`,
/// `\\` and the control characters escaped as `json_string` states (the
/// escape table of serde_json's serializer). Serializing a `str` into a
/// `String` does not fail.
#[verifier::external_body]
fn json_string_text(s: &str) -> (r: String)
    ensures
        r@ == json_string(s@),
{
    match serde_json::to_string(s) {
        Ok(text) => text,
        Err(_) => String::new(),
    }
}

pub(crate) fn push_json_string(out: &mut Vec<char>, s: &str)
    ensures
        final(out)@ == old(out)@ + json_string(s@),
{
    let text = json_string_text(s);
    push_str(out, text.as_str());
}

/// The JSON text of a cursor payload.
pub fn cursor_payload_json(p: &CursorPayload) -> (r: String)
    ensures
        r@ == cursor_json(*p),
{
    let mut out: Vec<char> = Vec::new();
    push_str(&mut out, "{\"version\":");
    push_decimal(p.version as u64, &mut out);
    push_str(&mut out, ",\"kind\":");
    push_json_string(&mut out, p.kind.as_str());
    push_str(&mut out, ",\"query\":");
    push_json_string(&mut out, p.query.as_str());
    push_str(&mut out, ",\"before\":");
    if p.before {
        push_str(&mut out, "true");
    } else {
        push_str(&mut out, "false");
    }
    push_str(&mut out, ",\"value\":{\"type\":");
    match &p.value {
        CursorScalar::Integer(s) => {
            push_str(&mut out, "\"integer\"");
            push_str(&mut out, ",\"value\":");
            push_json_string(&mut out, s.as_str());
        },
        CursorScalar::Text(s) => {
            push_str(&mut out, "\"text\"");
            push_str(&mut out, ",\"value\":");
            push_json_string(&mut out, s.as_str());
        },
    }
    push_str(&mut out, "},\"id\":");
    let id_text = i64_to_decimal(p.id);
    push_str(&mut out, id_text.as_str());
    push_str(&mut out, "}");
    assert(out@ =~= cursor_json(*p));
    string_of(&out)
}

/// The opaque cursor text of a payload: the hex of its JSON bytes.
pub fn encode_cursor(p: &CursorPayload) -> (r: String)
    ensures
        r@ == cursor_text(*p),
{
    let json = cursor_payload_json(p);
    let bytes = json.as_str().as_bytes();
    hex_encode(bytes)
}

/// A cursor that resumes after the row with the given id, sorted by that id.
pub open spec fn id_cursor(kind: Seq<char>, id: i64, signature: Seq<char>) -> Seq<char> {
    hex_encode_spec(encode_utf8(payload_json(1, kind, signature, false, false, decimal_int(id as int), id as int)))
}

fn id_cursor_payload(kind: &str, id: i64, signature: &str) -> (r: CursorPayload)
    ensures
        cursor_text(r) == id_cursor(kind@, id, signature@),
{
    CursorPayload {
        version: 1,
        kind: kind.to_owned(),
        query: signature.to_owned(),
        before: false,
        value: CursorScalar::Integer(i64_to_decimal(id)),
        id,
    }
}

/// Cursor for the next page of review groups.
pub fn encode_review_group_cursor(group_id: i64, signature: &str) -> (r: Result<String, ProtocolFailure>)
    ensures
        r matches Ok(s) && s@ == id_cursor("review-groups"@, group_id, signature@),
{
    Ok(encode_cursor(&id_cursor_payload("review-groups", group_id, signature)))
}

/// Cursor for the next page of a preference-rule preview.
pub fn encode_preference_preview_cursor(group_id: i64, signature: &str) -> (r: Result<String, ProtocolFailure>)
    ensures
        r matches Ok(s) && s@ == id_cursor("preference-rule-preview"@, group_id, signature@),
{
    Ok(encode_cursor(&id_cursor_payload("preference-rule-preview", group_id, signature)))
}

/// Cursor for the next page of preference-rule applications.
pub fn encode_preference_application_cursor(application_id: i64, signature: &str) -> (r: Result<String, ProtocolFailure>)
    ensures
        r matches Ok(s) && s@ == id_cursor("preference-rule-applications"@, application_id, signature@),
{
    Ok(encode_cursor(&id_cursor_payload("preference-rule-applications", application_id, signature)))
}

/// Cursor for the next page of review folder groups.
pub fn encode_review_folder_group_cursor(folder_group_id: i64, signature: &str) -> (r: Result<String, ProtocolFailure>)
    ensures
        r matches Ok(s) && s@ == id_cursor("review-folder-groups"@, folder_group_id, signature@),
{
    Ok(encode_cursor(&id_cursor_payload("review-folder-groups", folder_group_id, signature)))
}

/// Whether a decoded payload is a cursor of the expected kind for the
/// expected query.
pub open spec fn payload_acceptable(p: CursorPayload, expected_kind: Seq<char>, expected_query: Seq<char>) -> bool {
    &&& p.version == 1
    &&& p.kind@ == expected_kind
    &&& p.query@ == expected_query
    &&& p.id > 0
    &&& scalar_view(p.value).is_text || parse_i64_spec(scalar_view(p.value).value) is Some
}

/// Checks a decoded payload against the query it is presented with.
pub fn check_cursor_payload(p: CursorPayload, expected_kind: &str, expected_query: &str) -> (r: Result<PageCursor, ProtocolFailure>)
    ensures
        r is Ok <==> payload_acceptable(p, expected_kind@, expected_query@),
        r matches Ok(c) ==> {
            &&& c.id == p.id
            &&& c.before == p.before
            &&& match (c.value, p.value) {
                (PageCursorValue::Integer(i), CursorScalar::Integer(s)) => parse_i64_spec(s@) == Some(i),
                (PageCursorValue::Text(t), CursorScalar::Text(s)) => t@ == s@,
                _ => false,
            }
        },
        r matches Err(f) ==> f@ =~~= invalid_cursor_failure(),
{
    if p.version != 1 || !str_equals(p.kind.as_str(), expected_kind) || !str_equals(p.query.as_str(), expected_query) || p.id <= 0 {
        return Err(invalid_cursor());
    }
    let value = match p.value {
        CursorScalar::Integer(s) => match parse_i64(s.as_str()) {
            Some(i) => PageCursorValue::Integer(i),
            None => {
                return Err(invalid_cursor());
            },
        },
        CursorScalar::Text(s) => PageCursorValue::Text(s),
    };
    Ok(PageCursor { value, id: p.id, before: p.before })
}

/// A cursor's value must have the type the sort field orders by.
pub fn validate_cursor_value(cursor: Option<&PageCursor>, expects_text: bool) -> (r: Result<(), ProtocolFailure>)
    ensures
        r is Ok <==> match cursor {
            None => true,
            Some(c) => (c.value is Text) == expects_text,
        },
        r matches Err(f) ==> f@ =~~= invalid_cursor_failure(),
{
    match cursor {
        None => Ok(()),
        Some(c) => match (&c.value, expects_text) {
            (PageCursorValue::Text(_), true) => Ok(()),
            (PageCursorValue::Integer(_), false) => Ok(()),
            _ => Err(invalid_cursor()),
        },
    }
}

} // verus!
