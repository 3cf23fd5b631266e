use vstd::prelude::*;
use vstd::string::StrSliceExecFns;

verus! {

/// What base64 decoding yields for a piece of text: `Some` of the
/// decoded bytes when the text is well-formed standard-alphabet base64,
/// `None` otherwise.
pub uninterp spec fn base64_decoding(text: Seq<char>) -> Option<Seq<u8>>;

/// Relies on base64::decode (standard alphabet, padded): decoding the
/// textual credential payload into bytes; a malformed payload is
/// reported as `None`.
#[verifier::external_body]
fn decode_base64(text: &str) -> (r: Option<Vec<u8>>)
    ensures
        r is Some <==> base64_decoding(text@) is Some,
        r matches Some(bytes) ==> base64_decoding(text@) == Some(bytes@),
{
    base64::decode(text).ok()
}

/// The one accepted credential pair, `forecast:forecast`, as the bytes
/// of its `user:password` form.
pub open spec fn expected_credentials() -> Seq<u8> {
    seq![102u8, 111u8, 114u8, 101u8, 99u8, 97u8, 115u8, 116u8, 58u8, 102u8, 111u8, 114u8, 101u8, 99u8, 97u8, 115u8, 116u8]
}

/// The accepted credential bytes, as a value.
fn expected_credential_bytes() -> (v: Vec<u8>)
    ensures
        v@ == expected_credentials(),
{
    let mut v: Vec<u8> = Vec::new();
    v.push(102u8);
    v.push(111u8);
    v.push(114u8);
    v.push(101u8);
    v.push(99u8);
    v.push(97u8);
    v.push(115u8);
    v.push(116u8);
    v.push(58u8);
    v.push(102u8);
    v.push(111u8);
    v.push(114u8);
    v.push(101u8);
    v.push(99u8);
    v.push(97u8);
    v.push(115u8);
    v.push(116u8);
    proof {
        assert(v@ =~= expected_credentials());
    }
    v
}

/// Whether decoded credential bytes are exactly the one accepted
/// `user:password` pair.
pub fn credentials_match(bytes: &Vec<u8>) -> (r: bool)
    ensures
        r == (bytes@ == expected_credentials()),
{
    let expected = expected_credential_bytes();
    if bytes.len() != expected.len() {
        return false;
    }
    let n = expected.len();
    let mut i: usize = 0;
    while i < n
        invariant
            n == expected@.len(),
            bytes@.len() == n,
            expected@ == expected_credentials(),
            0 <= i <= n,
            forall|j: int| 0 <= j < i ==> bytes@[j] == expected@[j],
        decreases n - i,
    {
        if bytes[i] != expected[i] {
            return false;
        }
        i += 1;
    }
    proof {
        assert(bytes@ =~= expected_credentials());
    }
    true
}

/// Whether `h` starts with the `Basic ` authorization scheme marker.
pub open spec fn has_basic_prefix(h: Seq<char>) -> bool {
    h.len() >= 6 && h.take(6) == "Basic "@
}

/// `h` with every leading `Basic ` marker removed: the textual
/// credential payload of a basic-authorization header.
pub open spec fn strip_basic_prefixes(h: Seq<char>) -> Seq<char>
    decreases h.len(),
{
    if has_basic_prefix(h) {
        strip_basic_prefixes(h.skip(6))
    } else {
        h
    }
}

/// When an `Authorization` header value grants access to the stats
/// page: it names the basic scheme, and its payload decodes to exactly
/// the one accepted credential pair.
pub open spec fn authorization_accepted(header: Seq<char>) -> bool {
    &&& has_basic_prefix(header)
    &&& (base64_decoding(strip_basic_prefixes(header)) matches Some(d) && d
        == expected_credentials())
}

/// Whether `s` starts with the `Basic ` marker.
fn has_basic_prefix_exec(s: &str) -> (r: bool)
    ensures
        r == has_basic_prefix(s@),
{
    proof {
        reveal_strlit("Basic ");
    }
    let n = s.unicode_len();
    if n < 6 {
        return false;
    }
    let r = s.get_char(0) == 'B' && s.get_char(1) == 'a' && s.get_char(2) == 's' && s.get_char(3)
        == 'i' && s.get_char(4) == 'c' && s.get_char(5) == ' ';
    proof {
        if r {
            assert(s@.take(6) =~= "Basic "@);
        } else {
            if s@.take(6) == "Basic "@ {
                assert(s@[0] == s@.take(6)[0]);
                assert(s@[1] == s@.take(6)[1]);
                assert(s@[2] == s@.take(6)[2]);
                assert(s@[3] == s@.take(6)[3]);
                assert(s@[4] == s@.take(6)[4]);
                assert(s@[5] == s@.take(6)[5]);
                assert(false);
            }
        }
    }
    r
}

/// The basic-authentication gate of the stats page: whether this
/// `Authorization` header value carries, base64-encoded, the one
/// accepted credential pair. Any missing marker, malformed payload or
/// wrong pair is simply rejected.
pub fn basic_auth_accepted(header: &str) -> (r: bool)
    ensures
        r == authorization_accepted(header@),
{
    if !has_basic_prefix_exec(header) {
        return false;
    }
    let mut rest: &str = header;
    while has_basic_prefix_exec(rest)
        invariant
            strip_basic_prefixes(rest@) == strip_basic_prefixes(header@),
        decreases rest@.len(),
    {
        let n = rest.unicode_len();
        let stripped = rest.substring_char(6, n);
        proof {
            assert(stripped@ =~= rest@.skip(6));
        }
        rest = stripped;
    }
    proof {
        assert(strip_basic_prefixes(rest@) == rest@);
        assert(rest@ == strip_basic_prefixes(header@));
    }
    match decode_base64(rest) {
        None => false,
        Some(bytes) => credentials_match(&bytes),
    }
}

} // verus!
