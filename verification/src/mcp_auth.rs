//! How a remote MCP server's refusal of a connection is read: whether the caller supplied
//! credentials of its own, and whether the server's `WWW-Authenticate` challenges ask for
//! OAuth (they name a `resource_metadata` parameter).
use vstd::prelude::*;
use vstd::string::*;

use crate::text::{all_ws, ascii_lower, eq_ignore_ascii_case, eq_ignore_ascii_case_spec, is_blank};

verus! {

/// ASCII `A`.
pub const UPPER_A: u8 = 65;
/// ASCII `Z`.
pub const UPPER_Z: u8 = 90;
/// ASCII space.
pub const SPACE: u8 = 32;
/// ASCII horizontal tab.
pub const TAB: u8 = 9;
/// ASCII `,`.
pub const COMMA: u8 = 44;
/// ASCII `=`.
pub const EQUALS: u8 = 61;
/// ASCII `"`.
pub const QUOTE: u8 = 34;
/// ASCII backslash.
pub const BACKSLASH: u8 = 92;

/// Whether a header name (in any ASCII case) is one that carries credentials:
/// `Authorization`, `X-API-Key` or `Api-Key`.
pub open spec fn is_credential_header(name: Seq<char>) -> bool {
    ||| eq_ignore_ascii_case_spec(name, "authorization"@)
    ||| eq_ignore_ascii_case_spec(name, "x-api-key"@)
    ||| eq_ignore_ascii_case_spec(name, "api-key"@)
}

/// Some header carries credentials and has a value that is not blank.
pub open spec fn has_credential_spec(headers: Seq<(String, String)>) -> bool {
    exists|i: int|
        0 <= i < headers.len() && is_credential_header(#[trigger] headers[i].0@) && !all_ws(
            headers[i].1@,
        )
}

fn credential_header_name(name: &str) -> (r: bool)
    ensures
        r == is_credential_header(name@),
{
    let a = "authorization";
    let b = "x-api-key";
    let c = "api-key";
    proof {
        reveal_strlit("authorization");
        reveal_strlit("x-api-key");
        reveal_strlit("api-key");
    }
    eq_ignore_ascii_case(name, a) || eq_ignore_ascii_case(name, b) || eq_ignore_ascii_case(name, c)
}

/// Whether the caller configured credentials of its own for the server; see
/// [`has_credential_spec`].
pub fn has_caller_supplied_credential(headers: &[(String, String)]) -> (r: bool)
    ensures
        r == has_credential_spec(headers@),
{
    let mut i: usize = 0;
    while i < headers.len()
        invariant
            i <= headers@.len(),
            forall|j: int|
                0 <= j < i ==> !(is_credential_header(#[trigger] headers@[j].0@) && !all_ws(
                    headers@[j].1@,
                )),
        decreases headers@.len() - i,
    {
        let (name, value) = &headers[i];
        if credential_header_name(name.as_str()) && !is_blank(value.as_str()) {
            assert(is_credential_header(headers@[i as int].0@) && !all_ws(headers@[i as int].1@));
            return true;
        }
        i = i + 1;
    }
    false
}

/// The parameter name that marks an OAuth challenge, `resource_metadata`, as ASCII bytes.
pub open spec fn resource_metadata_name() -> Seq<u8> {
    seq![
        114u8, 101u8, 115u8, 111u8, 117u8, 114u8, 99u8, 101u8, 95u8, 109u8, 101u8, 116u8, 97u8,
        100u8, 97u8, 116u8, 97u8,
    ]
}

/// The ASCII lower-case form of a byte.
pub open spec fn lower_byte(b: u8) -> u8 {
    if UPPER_A <= b && b <= UPPER_Z {
        (b + 32) as u8
    } else {
        b
    }
}

/// Bytes that end a token: space, tab, comma, `=` and the double quote.
pub open spec fn is_delimiter(b: u8) -> bool {
    b == SPACE || b == TAB || b == COMMA || b == EQUALS || b == QUOTE
}

/// Whether the first `i` bytes of `s` leave the reader inside a quoted string, and whether
/// the last of them was an escaping backslash there.
pub open spec fn quote_state(s: Seq<u8>, i: int) -> (bool, bool)
    decreases i,
{
    if i <= 0 {
        (false, false)
    } else {
        let prev = quote_state(s, i - 1);
        let c = s[i - 1];
        if prev.0 {
            if prev.1 {
                (true, false)
            } else if c == BACKSLASH {
                (true, true)
            } else if c == QUOTE {
                (false, false)
            } else {
                (true, false)
            }
        } else if c == QUOTE {
            (true, false)
        } else {
            (false, false)
        }
    }
}

/// Index of the first byte at or after `j` that is neither a space nor a tab.
pub open spec fn skip_blanks(s: Seq<u8>, j: int) -> int
    decreases s.len() - j,
{
    if j < s.len() && (s[j] == SPACE || s[j] == TAB) {
        skip_blanks(s, j + 1)
    } else {
        j
    }
}

/// A parameter named `resource_metadata` (in any ASCII case) starts at `i`: outside quoted
/// strings, at the start of a token, and followed by optional blanks and `=`.
pub open spec fn names_resource_metadata_at(s: Seq<u8>, i: int) -> bool {
    let n = resource_metadata_name().len() as int;
    &&& 0 <= i
    &&& i + n <= s.len()
    &&& !quote_state(s, i).0
    &&& (i == 0 || is_delimiter(s[i - 1]))
    &&& forall|k: int| 0 <= k < n ==> #[trigger] lower_byte(s[i + k]) == resource_metadata_name()[k]
    &&& skip_blanks(s, i + n) < s.len()
    &&& s[skip_blanks(s, i + n)] == EQUALS
}

/// Whether a challenge asks for OAuth: some parameter in it, outside quoted strings, is named
/// `resource_metadata`.
pub open spec fn is_oauth_spec(s: Seq<u8>) -> bool {
    exists|i: int| #[trigger] names_resource_metadata_at(s, i)
}

fn to_lower_byte(b: u8) -> (r: u8)
    ensures
        r == lower_byte(b),
{
    if UPPER_A <= b && b <= UPPER_Z {
        b + 32
    } else {
        b
    }
}

fn skip_blanks_from(s: &[u8], j: usize) -> (r: usize)
    requires
        j <= s@.len(),
    ensures
        r as int == skip_blanks(s@, j as int),
        j <= r <= s@.len(),
    decreases s@.len() - j,
{
    if j < s.len() && (s[j] == SPACE || s[j] == TAB) {
        skip_blanks_from(s, j + 1)
    } else {
        j
    }
}

/// Whether the name and the `=` that [`names_resource_metadata_at`] asks for follow `i`.
fn name_and_equals_at(s: &[u8], i: usize) -> (r: bool)
    ensures
        r == ({
            let n = resource_metadata_name().len() as int;
            &&& i + n <= s@.len()
            &&& forall|k: int| 0 <= k < n ==> #[trigger] lower_byte(s@[i + k]) == resource_metadata_name()[k]
            &&& skip_blanks(s@, i + n) < s@.len()
            &&& s@[skip_blanks(s@, i + n)] == EQUALS
        }),
{
    let name: [u8; 17] = [
        114u8, 101u8, 115u8, 111u8, 117u8, 114u8, 99u8, 101u8, 95u8, 109u8, 101u8, 116u8, 97u8,
        100u8, 97u8, 116u8, 97u8,
    ];
    proof {
        assert(name@ =~= resource_metadata_name());
    }
    let len = s.len();
    if len < 17 || i > len - 17 {
        return false;
    }
    let mut k: usize = 0;
    while k < 17
        invariant
            k <= 17,
            len == s@.len(),
            i + 17 <= len,
            name@ == resource_metadata_name(),
            forall|t: int| 0 <= t < k ==> #[trigger] lower_byte(s@[i + t]) == resource_metadata_name()[t],
        decreases 17 - k,
    {
        if to_lower_byte(s[i + k]) != name[k] {
            return false;
        }
        k = k + 1;
    }
    let j = skip_blanks_from(s, i + 17);
    j < s.len() && s[j] == EQUALS
}

/// Whether a `WWW-Authenticate` challenge asks for OAuth; see [`is_oauth_spec`].
pub fn is_oauth_challenge(challenge: &[u8]) -> (r: bool)
    ensures
        r == is_oauth_spec(challenge@),
{
    let mut in_quote = false;
    let mut escaped = false;
    let mut i: usize = 0;
    while i < challenge.len()
        invariant
            i <= challenge@.len(),
            (in_quote, escaped) == quote_state(challenge@, i as int),
            forall|j: int| 0 <= j < i ==> !#[trigger] names_resource_metadata_at(challenge@, j),
        decreases challenge@.len() - i,
    {
        if !in_quote && (i == 0 || is_delimiter_byte(challenge[i - 1])) && name_and_equals_at(challenge, i) {
            assert(names_resource_metadata_at(challenge@, i as int));
            assert(is_oauth_spec(challenge@));
            return true;
        }
        let c = challenge[i];
        if in_quote {
            if escaped {
                escaped = false;
            } else if c == BACKSLASH {
                escaped = true;
            } else if c == QUOTE {
                in_quote = false;
            }
        } else if c == QUOTE {
            in_quote = true;
        }
        i = i + 1;
    }
    proof {
        assert forall|j: int| !#[trigger] names_resource_metadata_at(challenge@, j) by {
            if 0 <= j < challenge@.len() {
            }
        }
    }
    false
}

fn is_delimiter_byte(b: u8) -> (r: bool)
    ensures
        r == is_delimiter(b),
{
    b == SPACE || b == TAB || b == COMMA || b == EQUALS || b == QUOTE
}

/// How a refused connection (HTTP 401) is handled.
#[derive(Debug, Clone, Copy, PartialEq, Eq, Structural)]
pub enum UnauthorizedRoute {
    /// Go through OAuth.
    OAuth,
    /// Report that the server rejected the credentials that the caller configured.
    CredentialsRejected,
}

/// How a refused connection is handled: OAuth when some challenge asks for it, or when the
/// caller supplied no credentials; otherwise the caller's credentials were rejected.
pub fn unauthorized_route(challenges: &[Vec<u8>], headers: &[(String, String)]) -> (r: UnauthorizedRoute)
    ensures
        r == if (exists|i: int| 0 <= i < challenges@.len() && is_oauth_spec(#[trigger] challenges@[i]@))
            || !has_credential_spec(headers@) {
            UnauthorizedRoute::OAuth
        } else {
            UnauthorizedRoute::CredentialsRejected
        },
{
    let mut i: usize = 0;
    while i < challenges.len()
        invariant
            i <= challenges@.len(),
            forall|j: int| 0 <= j < i ==> !is_oauth_spec(#[trigger] challenges@[j]@),
        decreases challenges@.len() - i,
    {
        if is_oauth_challenge(challenges[i].as_slice()) {
            return UnauthorizedRoute::OAuth;
        }
        i = i + 1;
    }
    if has_caller_supplied_credential(headers) {
        UnauthorizedRoute::CredentialsRejected
    } else {
        UnauthorizedRoute::OAuth
    }
}

} // verus!
