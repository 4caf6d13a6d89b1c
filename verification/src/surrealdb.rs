//! Helpers for an external record store: parsing and serializing `table:key`
//! record identifiers, and inspection-only decoding of the store's
//! dot-delimited authentication tokens.

use vstd::prelude::*;

verus! {

// ---------------------------------------------------------------------------
// Character scanning
// ---------------------------------------------------------------------------
/// Whether the character `c` occurs anywhere in `s`.
pub open spec fn contains_char(s: Seq<char>, c: char) -> bool {
    exists|i: int| 0 <= i < s.len() && s[i] == c
}

/// The index of the first occurrence of `c` in `s`, or `s.len()` when `c`
/// does not occur.
pub open spec fn first_index_of(s: Seq<char>, c: char) -> int
    decreases s.len(),
{
    if s.len() == 0 {
        0
    } else if s[0] == c {
        0
    } else {
        1 + first_index_of(s.drop_first(), c)
    }
}

/// What `first_index_of` returns: a position within the string, pointing at
/// `c` with no earlier occurrence, or the length when `c` does not occur.
pub proof fn lemma_first_index_of(s: Seq<char>, c: char)
    ensures
        0 <= first_index_of(s, c) <= s.len(),
        first_index_of(s, c) < s.len() ==> s[first_index_of(s, c)] == c,
        forall|j: int| 0 <= j < first_index_of(s, c) ==> s[j] != c,
        contains_char(s, c) <==> first_index_of(s, c) < s.len(),
    decreases s.len(),
{
    if s.len() == 0 {
        assert(!contains_char(s, c));
    } else if s[0] == c {
        assert(contains_char(s, c));
    } else {
        let rest = s.drop_first();
        lemma_first_index_of(rest, c);
        let f = first_index_of(s, c);
        let fr = first_index_of(rest, c);
        assert(f == 1 + fr);
        assert forall|j: int| 0 <= j < f implies s[j] != c by {
            if j > 0 {
                assert(s[j] == rest[j - 1]);
            }
        }
        if f < s.len() {
            assert(s[f] == rest[fr]);
        }
        if contains_char(s, c) {
            let i = choose|i: int| 0 <= i < s.len() && s[i] == c;
            assert(i != 0);
            assert(rest[i - 1] == s[i]);
            assert(contains_char(rest, c));
        }
        if contains_char(rest, c) {
            let i = choose|i: int| 0 <= i < rest.len() && rest[i] == c;
            assert(s[i + 1] == rest[i]);
            assert(contains_char(s, c));
        }
    }
}

/// Find the first occurrence of `c` in `s`, scanning left to right.
fn find_char(s: &str, c: char) -> (r: Option<usize>)
    ensures
        match r {
            Some(i) => i == first_index_of(s@, c) && i < s@.len() && s@[i as int] == c,
            None => !contains_char(s@, c) && first_index_of(s@, c) == s@.len(),
        },
{
    proof {
        lemma_first_index_of(s@, c);
    }
    let n = s.unicode_len();
    let mut i: usize = 0;
    while i < n
        invariant
            n == s@.len(),
            i <= n,
            forall|j: int| 0 <= j < i ==> s@[j] != c,
            0 <= first_index_of(s@, c) <= s@.len(),
            first_index_of(s@, c) < s@.len() ==> s@[first_index_of(s@, c)] == c,
            forall|j: int| 0 <= j < first_index_of(s@, c) ==> s@[j] != c,
            contains_char(s@, c) <==> first_index_of(s@, c) < s@.len(),
        decreases n - i,
    {
        if s.get_char(i) == c {
            proof {
                let f = first_index_of(s@, c);
                assert(s@[i as int] == c);
                assert(contains_char(s@, c));
                if f < i {
                    assert(s@[f] != c);
                }
            }
            return Some(i);
        }
        i = i + 1;
    }
    proof {
        if contains_char(s@, c) {
            let f = first_index_of(s@, c);
            assert(s@[f] != c);
        }
    }
    None
}

// ---------------------------------------------------------------------------
// Record identifiers
// ---------------------------------------------------------------------------
/// A record identifier of the external store's `table:key` form, owned
/// independently of any backing store.
#[derive(Debug, Clone)]
pub struct RecordId {
    pub table: String,
    pub key: String,
}

impl RecordId {
    /// Neither portion of a well-formed identifier contains a colon: the
    /// text format has no escaping mechanism for one.
    pub open spec fn wf(self) -> bool {
        !contains_char(self.table@, ':') && !contains_char(self.key@, ':')
    }
}

/// Whether position `p` holds the only colon of `s`.
pub open spec fn colon_only_at(s: Seq<char>, p: int) -> bool {
    &&& 0 <= p < s.len()
    &&& s[p] == ':'
    &&& forall|j: int| 0 <= j < s.len() && j != p ==> s[j] != ':'
}

/// Whether `s` contains exactly one colon. An empty string trivially has
/// none, so it never qualifies.
pub open spec fn has_single_colon(s: Seq<char>) -> bool {
    exists|p: int| colon_only_at(s, p)
}

/// Parse a record identifier of the form `<table>:<key>`.
///
/// Succeeds exactly when the input contains one single colon, which splits it
/// into the table portion and the key portion; an empty input, an input
/// without a colon, and an input with more than one colon all yield `None`.
pub fn string_to_record_id(s: &str) -> (r: Option<RecordId>)
    ensures
        r is Some <==> has_single_colon(s@),
        r matches Some(id) ==> forall|p: int|
            colon_only_at(s@, p) ==> id.table@ == s@.take(p) && id.key@ == s@.skip(p + 1),
        r matches Some(id) ==> id.wf(),
{
    let n = s.unicode_len();
    let p = match find_char(s, ':') {
        None => {
            proof {
                if has_single_colon(s@) {
                    let q = choose|q: int| colon_only_at(s@, q);
                    assert(s@[q] == ':');
                    assert(contains_char(s@, ':'));
                }
            }
            return None;
        },
        Some(p) => p,
    };
    let key = s.substring_char(p + 1, n);
    match find_char(key, ':') {
        None => {
            let table = s.substring_char(0, p);
            proof {
                lemma_first_index_of(s@, ':');
                assert(key@ =~= s@.skip(p as int + 1));
                assert(table@ =~= s@.take(p as int));
                assert forall|j: int| 0 <= j < s@.len() && j != p as int implies s@[j] != ':' by {
                    if j > p as int {
                        assert(s@[j] == key@[j - (p as int) - 1]);
                        if s@[j] == ':' {
                            assert(contains_char(key@, ':'));
                        }
                    }
                }
                assert(colon_only_at(s@, p as int));
                assert(has_single_colon(s@));
                assert forall|q: int| colon_only_at(s@, q) implies q == p as int by {
                    if q != p as int {
                        assert(s@[p as int] != ':');
                    }
                }
                assert(!contains_char(table@, ':')) by {
                    if contains_char(table@, ':') {
                        let i = choose|i: int| 0 <= i < table@.len() && table@[i] == ':';
                        assert(s@[i] == ':');
                    }
                }
            }
            Some(RecordId { table: String::from_str(table), key: String::from_str(key) })
        },
        Some(q) => {
            proof {
                assert(s@[p as int + q as int + 1] == key@[q as int]);
                if has_single_colon(s@) {
                    let w = choose|w: int| colon_only_at(s@, w);
                    if w != p as int {
                        assert(s@[p as int] != ':');
                    }
                    if w != p as int + q as int + 1 {
                        assert(s@[p as int + q as int + 1] != ':');
                    }
                }
            }
            None
        },
    }
}

/// Round trip of the text form: joining a colon-free table portion and a
/// colon-free key portion with a colon yields a text that parses, and it
/// parses back to exactly those two portions. With [`string_to_record_id`]'s
/// contract this pins the parse of every well-formed identifier text.
pub proof fn lemma_record_id_text_round_trip(table: Seq<char>, key: Seq<char>)
    requires
        !contains_char(table, ':'),
        !contains_char(key, ':'),
    ensures
        ({
            let s = table + seq![':'] + key;
            &&& has_single_colon(s)
            &&& forall|p: int| colon_only_at(s, p) ==> s.take(p) == table && s.skip(p + 1) == key
        }),
{
    let s = table + seq![':'] + key;
    let t = table.len() as int;
    assert(s[t] == ':');
    assert forall|j: int| 0 <= j < s.len() && j != t implies s[j] != ':' by {
        if j < t {
            assert(s[j] == table[j]);
            if s[j] == ':' {
                assert(contains_char(table, ':'));
            }
        } else {
            assert(s[j] == key[j - t - 1]);
            if s[j] == ':' {
                assert(contains_char(key, ':'));
            }
        }
    }
    assert(colon_only_at(s, t));
    assert(has_single_colon(s));
    assert forall|p: int| colon_only_at(s, p) implies s.take(p) == table && s.skip(p + 1)
        == key by {
        if p != t {
            assert(s[t] != ':');
        }
        assert(s.take(t) =~= table);
        assert(s.skip(t + 1) =~= key);
    }
}

/// Serialize a record identifier to its key portion only; the table portion
/// is carried separately by the transport or storage layer.
pub fn serialize_record_id(id: &RecordId) -> (r: String)
    ensures
        r@ == id.key@,
{
    id.key.clone()
}

// ---------------------------------------------------------------------------
// Token claims
// ---------------------------------------------------------------------------
/// Why a token's payload could not be decoded.
#[derive(Debug, Clone, Copy, PartialEq, Eq, Structural)]
pub enum DecodeError {
    /// The token has fewer than two dot-separated segments.
    MalformedToken,
    /// The payload segment is not valid unpadded URL-safe base64.
    InvalidEncoding,
    /// The decoded payload is not a JSON document carrying the required
    /// claim fields with the required types.
    InvalidPayload,
}

/// The claims carried by the record store's authentication tokens. All
/// timestamps are seconds since the Unix epoch. This library never enforces
/// any ordering among them: validation is explicitly the caller's
/// responsibility.
#[derive(Debug, Clone)]
pub struct SurrealJWTClaims {
    /// Issued at: when the token was created.
    pub iat: u64,
    /// Not before: when the token starts being acceptable.
    pub nbf: u64,
    /// Expiration time: when the token stops being acceptable.
    pub exp: u64,
    /// Issuer: the entity that issued the token.
    pub iss: String,
    /// Token id: a unique identifier for revocation or deduplication.
    pub jti: String,
    /// Namespace the token grants access to; wire name `NS`.
    pub ns: String,
    /// Database the token grants access to; wire name `DB`.
    pub db: String,
    /// Access claims: a free-form payload of permissions or roles; wire
    /// name `AC`.
    pub ac: serde_json::Value,
    /// Subject identifier of the user or service; wire name `ID`.
    pub id: String,
}

#[verifier::external_type_specification]
#[verifier::external_body]
pub struct ExValue(serde_json::Value);

/// Relies on serde_json's `Value: Clone`; nothing is claimed of the copy.
pub assume_specification[ <serde_json::Value as Clone>::clone ](
    v: &serde_json::Value,
) -> serde_json::Value;

/// What unpadded URL-safe base64 decoding yields for a string: the decoded
/// bytes, or nothing when the string is not valid in that encoding.
pub uninterp spec fn b64url_decoded(s: Seq<char>) -> Option<Seq<u8>>;

/// Relies on base64's `URL_SAFE_NO_PAD` engine: what `Engine::decode`
/// returns is a function of the input characters alone (URL-safe alphabet,
/// no padding accepted, no trailing bits).
#[verifier::external_body]
fn b64url_decode(s: &str) -> (r: Option<Vec<u8>>)
    ensures
        r is Some <==> b64url_decoded(s@) is Some,
        r matches Some(b) ==> Some(b@) == b64url_decoded(s@),
{
    base64::Engine::decode(&base64::engine::general_purpose::URL_SAFE_NO_PAD, s).ok()
}

/// Whether the bytes form one well-formed JSON document.
pub uninterp spec fn json_parses(bytes: Seq<u8>) -> bool;

/// The JSON document the bytes parse to, when they parse at all.
pub uninterp spec fn json_doc_of(bytes: Seq<u8>) -> serde_json::Value;

/// Relies on `serde_json::from_slice` for `serde_json::Value`: whether bytes
/// parse as a JSON document, and to which, is a function of the bytes alone.
#[verifier::external_body]
fn parse_json(bytes: &Vec<u8>) -> (r: Option<serde_json::Value>)
    ensures
        r is Some <==> json_parses(bytes@),
        r matches Some(v) ==> v == json_doc_of(bytes@),
{
    serde_json::from_slice::<serde_json::Value>(bytes.as_slice()).ok()
}

/// The member of a JSON document under a key, narrowed to an unsigned
/// 64-bit integer: nothing when the document is not an object, has no such
/// member, or the member is not such a number.
pub uninterp spec fn json_u64_field(v: serde_json::Value, key: Seq<char>) -> Option<u64>;

/// Relies on serde_json's `Value::get` and `Value::as_u64`.
#[verifier::external_body]
fn json_get_u64(v: &serde_json::Value, key: &str) -> (r: Option<u64>)
    ensures
        r == json_u64_field(*v, key@),
{
    v.get(key).and_then(serde_json::Value::as_u64)
}

/// The member of a JSON document under a key, narrowed to a text value.
pub uninterp spec fn json_str_field(v: serde_json::Value, key: Seq<char>) -> Option<Seq<char>>;

/// Relies on serde_json's `Value::get` and `Value::as_str`.
#[verifier::external_body]
fn json_get_str(v: &serde_json::Value, key: &str) -> (r: Option<String>)
    ensures
        r is Some <==> json_str_field(*v, key@) is Some,
        r matches Some(s) ==> Some(s@) == json_str_field(*v, key@),
{
    v.get(key).and_then(serde_json::Value::as_str).map(|s| s.to_owned())
}

/// The member of a JSON document under a key, whatever its shape: nothing
/// when the document is not an object or has no such member.
pub uninterp spec fn json_value_field(v: serde_json::Value, key: Seq<char>) -> Option<
    serde_json::Value,
>;

/// Whether a JSON document is an object with a member under the key.
pub open spec fn json_has_field(v: serde_json::Value, key: Seq<char>) -> bool {
    json_value_field(v, key) is Some
}

/// Relies on serde_json's `Value::get`, cloning the member out; the copy is
/// structurally equal to the member.
#[verifier::external_body]
fn json_get_value(v: &serde_json::Value, key: &str) -> (r: Option<serde_json::Value>)
    ensures
        r == json_value_field(*v, key@),
{
    v.get(key).cloned()
}

/// Whether the JSON document carries every required claim field with the
/// required type: the three numeric timestamps and the issuer and token id
/// under their natural lowercase names, and the namespace, database, access
/// claims and subject id under the issuer's uppercase wire names.
pub open spec fn claims_fields_present(v: serde_json::Value) -> bool {
    &&& json_u64_field(v, "iat"@) is Some
    &&& json_u64_field(v, "nbf"@) is Some
    &&& json_u64_field(v, "exp"@) is Some
    &&& json_str_field(v, "iss"@) is Some
    &&& json_str_field(v, "jti"@) is Some
    &&& json_str_field(v, "NS"@) is Some
    &&& json_str_field(v, "DB"@) is Some
    &&& json_has_field(v, "AC"@)
    &&& json_str_field(v, "ID"@) is Some
}

/// Whether the claims value holds exactly what the JSON document carries
/// under the wire names.
pub open spec fn claims_match(v: serde_json::Value, c: SurrealJWTClaims) -> bool {
    &&& json_u64_field(v, "iat"@) == Some(c.iat)
    &&& json_u64_field(v, "nbf"@) == Some(c.nbf)
    &&& json_u64_field(v, "exp"@) == Some(c.exp)
    &&& json_str_field(v, "iss"@) == Some(c.iss@)
    &&& json_str_field(v, "jti"@) == Some(c.jti@)
    &&& json_str_field(v, "NS"@) == Some(c.ns@)
    &&& json_str_field(v, "DB"@) == Some(c.db@)
    &&& json_value_field(v, "AC"@) == Some(c.ac)
    &&& json_str_field(v, "ID"@) == Some(c.id@)
}

/// Read a claims value out of a decoded JSON document.
///
/// Succeeds exactly when every required claim field is present with its
/// required type; the values of the timestamps are never inspected, only
/// copied, so an expired token reads like any other. Anything else is an
/// invalid payload.
pub fn claims_from_json(v: &serde_json::Value) -> (r: Result<SurrealJWTClaims, DecodeError>)
    ensures
        r is Ok <==> claims_fields_present(*v),
        r matches Ok(c) ==> claims_match(*v, c),
        r is Err ==> r == Err::<SurrealJWTClaims, DecodeError>(DecodeError::InvalidPayload),
{
    let iat = match json_get_u64(v, "iat") {
        Some(n) => n,
        None => {
            return Err(DecodeError::InvalidPayload);
        },
    };
    let nbf = match json_get_u64(v, "nbf") {
        Some(n) => n,
        None => {
            return Err(DecodeError::InvalidPayload);
        },
    };
    let exp = match json_get_u64(v, "exp") {
        Some(n) => n,
        None => {
            return Err(DecodeError::InvalidPayload);
        },
    };
    let iss = match json_get_str(v, "iss") {
        Some(s) => s,
        None => {
            return Err(DecodeError::InvalidPayload);
        },
    };
    let jti = match json_get_str(v, "jti") {
        Some(s) => s,
        None => {
            return Err(DecodeError::InvalidPayload);
        },
    };
    let ns = match json_get_str(v, "NS") {
        Some(s) => s,
        None => {
            return Err(DecodeError::InvalidPayload);
        },
    };
    let db = match json_get_str(v, "DB") {
        Some(s) => s,
        None => {
            return Err(DecodeError::InvalidPayload);
        },
    };
    let ac = match json_get_value(v, "AC") {
        Some(x) => x,
        None => {
            return Err(DecodeError::InvalidPayload);
        },
    };
    let id = match json_get_str(v, "ID") {
        Some(s) => s,
        None => {
            return Err(DecodeError::InvalidPayload);
        },
    };
    Ok(SurrealJWTClaims { iat, nbf, exp, iss, jti, ns, db, ac, id })
}

/// The token's payload segment: the characters between the first dot and
/// the next dot or the end. Meaningful only when the token contains a dot.
pub open spec fn payload_segment(token: Seq<char>) -> Seq<char> {
    let rest = token.skip(first_index_of(token, '.') + 1);
    rest.take(first_index_of(rest, '.'))
}

/// Decode a token's payload segment without any signature or timestamp
/// validation. This is an inspection utility, not an authentication check:
/// a successful decode proves neither authenticity nor validity.
///
/// The token must have at least two dot-separated segments; the second is
/// decoded as unpadded URL-safe base64 and the bytes are read as a JSON
/// document carrying the claim fields, else the matching [`DecodeError`]
/// names the first step that failed.
pub fn decode_payload_insecurely(token: &str) -> (r: Result<SurrealJWTClaims, DecodeError>)
    ensures
        r == Err::<SurrealJWTClaims, DecodeError>(DecodeError::MalformedToken) <==> !contains_char(
            token@,
            '.',
        ),
        contains_char(token@, '.') ==> (r == Err::<SurrealJWTClaims, DecodeError>(
            DecodeError::InvalidEncoding,
        ) <==> b64url_decoded(payload_segment(token@)) is None),
        contains_char(token@, '.') ==> (b64url_decoded(payload_segment(token@)) matches Some(
            bytes,
        ) ==> ({
            &&& !json_parses(bytes) ==> r == Err::<SurrealJWTClaims, DecodeError>(
                DecodeError::InvalidPayload,
            )
            &&& r is Ok || r == Err::<SurrealJWTClaims, DecodeError>(DecodeError::InvalidPayload)
            &&& r is Ok ==> json_parses(bytes)
            &&& json_parses(bytes) ==> (r is Ok <==> claims_fields_present(json_doc_of(bytes)))
            &&& r matches Ok(c) ==> claims_match(json_doc_of(bytes), c)
        })),
{
    let n = token.unicode_len();
    let d1 = match find_char(token, '.') {
        None => {
            return Err(DecodeError::MalformedToken);
        },
        Some(i) => i,
    };
    let rest = token.substring_char(d1 + 1, n);
    let end = match find_char(rest, '.') {
        None => rest.unicode_len(),
        Some(j) => j,
    };
    let seg = rest.substring_char(0, end);
    proof {
        lemma_first_index_of(rest@, '.');
        assert(rest@ =~= token@.skip(d1 as int + 1));
        assert(seg@ =~= payload_segment(token@));
    }
    let bytes = match b64url_decode(seg) {
        None => {
            return Err(DecodeError::InvalidEncoding);
        },
        Some(b) => b,
    };
    let v = match parse_json(&bytes) {
        None => {
            return Err(DecodeError::InvalidPayload);
        },
        Some(val) => val,
    };
    claims_from_json(&v)
}

} // verus!
