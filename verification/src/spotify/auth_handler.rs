//! The OAuth authorization-code flow with PKCE, and the tokens it yields.
use vstd::prelude::*;
use vstd::string::StringExecFns;
use vstd::utf8::encode_utf8;
use crate::spotify::client::HttpStatus;
use crate::events::message::{AuthState, StateUpdateEnum};
use crate::text::{chars_of, owned, occurs_at, find, first_match_from, slice_chars, string_of};
use rand::distributions::DistString;
use sha2::Digest;
use base64::Engine;

verus! {

/// The scopes the application needs, in the order it asks for them.
pub open spec fn required_scopes() -> Seq<Seq<char>> {
    seq![
        "playlist-read-private"@,
        "playlist-read-collaborative"@,
        "user-library-read"@,
        "user-read-currently-playing"@,
        "user-modify-playback-state"@,
        "user-read-playback-state"@,
        "user-read-recently-played"@,
    ]
}

/// The scopes the application needs, in the order it asks for them.
pub fn required_scope_list() -> (r: Vec<&'static str>)
    ensures
        r@.len() == required_scopes().len(),
        forall|i: int| 0 <= i < r@.len() ==> #[trigger] r@[i]@ == required_scopes()[i],
{
    let r = vec![
        "playlist-read-private",
        "playlist-read-collaborative",
        "user-library-read",
        "user-read-currently-playing",
        "user-modify-playback-state",
        "user-read-playback-state",
        "user-read-recently-played",
    ];
    assert(r@[0]@ == required_scopes()[0]);
    assert(r@[1]@ == required_scopes()[1]);
    assert(r@[2]@ == required_scopes()[2]);
    assert(r@[3]@ == required_scopes()[3]);
    assert(r@[4]@ == required_scopes()[4]);
    assert(r@[5]@ == required_scopes()[5]);
    assert(r@[6]@ == required_scopes()[6]);
    r
}

/// A whitespace character as Unicode defines it (the White_Space property,
/// which `char::is_whitespace` tests).
pub open spec fn is_whitespace(c: char) -> bool {
    ||| ('\u{9}' <= c <= '\u{d}')
    ||| c == ' '
    ||| c == '\u{85}'
    ||| c == '\u{a0}'
    ||| c == '\u{1680}'
    ||| ('\u{2000}' <= c <= '\u{200a}')
    ||| c == '\u{2028}'
    ||| c == '\u{2029}'
    ||| c == '\u{202f}'
    ||| c == '\u{205f}'
    ||| c == '\u{3000}'
}

/// Whether `c` is whitespace.
pub fn is_whitespace_char(c: char) -> (r: bool)
    ensures
        r == is_whitespace(c),
{
    ('\u{9}' <= c && c <= '\u{d}') || c == ' ' || c == '\u{85}' || c == '\u{a0}' || c == '\u{1680}' || (
    '\u{2000}' <= c && c <= '\u{200a}') || c == '\u{2028}' || c == '\u{2029}' || c == '\u{202f}' || c
        == '\u{205f}' || c == '\u{3000}'
}

/// `t` occurs in `s` at position `i`, bounded on each side by whitespace or
/// by an end of `s`; for a `t` that is not empty and holds no whitespace,
/// this is `t` being one of the whitespace-separated words of `s`.
pub open spec fn word_at(s: Seq<char>, t: Seq<char>, i: int) -> bool {
    &&& 0 <= i
    &&& i + t.len() <= s.len()
    &&& s.subrange(i, i + t.len()) == t
    &&& (i == 0 || is_whitespace(s[i - 1]))
    &&& (i + t.len() == s.len() || is_whitespace(s[i + t.len()]))
}

/// `t` is one of the whitespace-separated words of `s`.
pub open spec fn has_word(s: Seq<char>, t: Seq<char>) -> bool {
    exists|i: int| word_at(s, t, i)
}

/// The granted scopes include every required scope.
pub open spec fn grants_required_scopes(scope: Seq<char>) -> bool {
    forall|k: int| 0 <= k < required_scopes().len() ==> has_word(scope, #[trigger] required_scopes()[k])
}

fn contains_word(s: &Vec<char>, t: &Vec<char>) -> (r: bool)
    ensures
        r == has_word(s@, t@),
{
    let n = s.len();
    if t.len() > n {
        return false;
    }
    let last = n - t.len();
    let mut i: usize = 0;
    loop
        invariant_except_break
            i <= last,
            forall|k: int| 0 <= k < i ==> !word_at(s@, t@, k),
        invariant
            last == s@.len() - t@.len(),
            n == s@.len(),
            t@.len() <= s@.len(),
        ensures
            forall|k: int| 0 <= k <= last ==> !word_at(s@, t@, k),
        decreases last - i,
    {
        let before = i == 0 || is_whitespace_char(s[i - 1]);
        let after = i + t.len() == n || is_whitespace_char(s[i + t.len()]);
        if before && after && occurs_at(s, t, i) {
            assert(word_at(s@, t@, i as int));
            return true;
        }
        assert(!word_at(s@, t@, i as int));
        if i == last {
            break;
        }
        i = i + 1;
    }
    assert forall|k: int| !word_at(s@, t@, k) by {
        if 0 <= k <= last {
        }
    }
    false
}

/// Whether the granted scopes (`None` for none) include every required scope,
/// each as one of the whitespace-separated words of `scope`.
pub fn has_required_scopes(scope: Option<&str>) -> (r: bool)
    ensures
        r == grants_required_scopes(
            match scope {
                Some(s) => s@,
                None => Seq::empty(),
            },
        ),
        r == split_grants_required(
            match scope {
                Some(s) => s@,
                None => Seq::empty(),
            },
        ),
        ({
            let g = match scope {
                Some(s) => s@,
                None => Seq::empty(),
            };
            r == ({
                &&& words(g).contains("playlist-read-private"@)
                &&& words(g).contains("playlist-read-collaborative"@)
                &&& words(g).contains("user-library-read"@)
                &&& words(g).contains("user-read-currently-playing"@)
                &&& words(g).contains("user-modify-playback-state"@)
                &&& words(g).contains("user-read-playback-state"@)
                &&& words(g).contains("user-read-recently-played"@)
            })
        }),
{
    proof {
        lemma_scope_check_needs_all_seven(
            match scope {
                Some(s) => s@,
                None => Seq::empty(),
            },
        );
        lemma_scope_check_is_split_membership(
            match scope {
                Some(s) => s@,
                None => Seq::empty(),
            },
        );
    }
    let granted: Vec<char> = match scope {
        Some(s) => chars_of(s),
        None => Vec::new(),
    };
    let scopes = required_scope_list();
    let mut k: usize = 0;
    while k < scopes.len()
        invariant
            k <= scopes@.len(),
            scopes@.len() == required_scopes().len(),
            forall|i: int| 0 <= i < scopes@.len() ==> #[trigger] scopes@[i]@ == required_scopes()[i],
            forall|i: int| 0 <= i < k ==> has_word(granted@, #[trigger] required_scopes()[i]),
            granted@ == match scope {
                Some(s) => s@,
                None => Seq::empty(),
            },
        decreases scopes@.len() - k,
    {
        let word = chars_of(scopes[k]);
        if !contains_word(&granted, &word) {
            assert(!has_word(granted@, required_scopes()[k as int]));
            assert(!grants_required_scopes(granted@));
            proof {
                lemma_scope_check_is_split_membership(granted@);
                lemma_scope_check_needs_all_seven(granted@);
            }
            return false;
        }
        k = k + 1;
    }
    true
}


/// An ASCII letter or digit.
pub open spec fn is_ascii_alphanumeric(c: char) -> bool {
    ('0' <= c <= '9') || ('A' <= c <= 'Z') || ('a' <= c <= 'z')
}

/// The character of the URL-safe base64 alphabet for a 6-bit value.
pub open spec fn b64_char(v: int) -> char {
    if v < 26 {
        (65 + v) as char
    } else if v < 52 {
        (71 + v) as char
    } else if v < 62 {
        (v - 4) as char
    } else if v == 62 {
        '-'
    } else {
        '_'
    }
}

/// URL-safe base64 without padding: each group of three bytes as four
/// characters, a last group of two bytes as three, of one byte as two.
pub open spec fn base64_url_no_pad(data: Seq<u8>) -> Seq<char>
    decreases data.len(),
{
    if data.len() == 0 {
        Seq::empty()
    } else if data.len() == 1 {
        seq![b64_char((data[0] / 4) as int), b64_char((data[0] % 4) * 16)]
    } else if data.len() == 2 {
        seq![
            b64_char((data[0] / 4) as int),
            b64_char((data[0] % 4) * 16 + data[1] / 16),
            b64_char((data[1] % 16) * 4),
        ]
    } else {
        seq![
            b64_char((data[0] / 4) as int),
            b64_char((data[0] % 4) * 16 + data[1] / 16),
            b64_char((data[1] % 16) * 4 + data[2] / 64),
            b64_char((data[2] % 64) as int),
        ] + base64_url_no_pad(data.skip(3))
    }
}

/// Base64 without padding writes `n` bytes as `(4n + 2) / 3` characters; a
/// PKCE challenge, the encoding of a 32-byte digest, is 43 characters long.
pub proof fn lemma_base64_length(data: Seq<u8>)
    ensures
        base64_url_no_pad(data).len() == (4 * data.len() + 2) / 3,
        data.len() == 32 ==> base64_url_no_pad(data).len() == 43,
    decreases data.len(),
{
    if data.len() >= 3 {
        lemma_base64_length(data.skip(3));
    }
}

/// A character of the URL-safe base64 alphabet: an ASCII letter or digit,
/// `-` or `_`.
pub open spec fn is_url_safe_b64(c: char) -> bool {
    is_ascii_alphanumeric(c) || c == '-' || c == '_'
}

/// Every character of a URL-safe base64 encoding is of its alphabet; in
/// particular it is never padded with `=`.
pub proof fn lemma_base64_alphabet(data: Seq<u8>)
    ensures
        forall|i: int| 0 <= i < base64_url_no_pad(data).len() ==> is_url_safe_b64(#[trigger] base64_url_no_pad(data)[i]),
    decreases data.len(),
{
    assert forall|v: int| 0 <= v < 64 implies is_url_safe_b64(#[trigger] b64_char(v)) by {
        if v < 26 {
            assert(65 <= 65 + v <= 90);
        } else if v < 52 {
            assert(97 <= 71 + v <= 122);
        } else if v < 62 {
            assert(48 <= v - 4 <= 57);
        }
    }
    if data.len() >= 3 {
        lemma_base64_alphabet(data.skip(3));
        let head = seq![
            b64_char((data[0] / 4) as int),
            b64_char((data[0] % 4) * 16 + data[1] / 16),
            b64_char((data[1] % 16) * 4 + data[2] / 64),
            b64_char((data[2] % 64) as int),
        ];
        assert(base64_url_no_pad(data) == head + base64_url_no_pad(data.skip(3)));
        assert forall|i: int| 0 <= i < base64_url_no_pad(data).len() implies is_url_safe_b64(
            #[trigger] base64_url_no_pad(data)[i],
        ) by {
            if i >= 4 {
                assert(base64_url_no_pad(data)[i] == base64_url_no_pad(data.skip(3))[i - 4]);
            }
        }
    }
}

/// The SHA-256 digest of `data`.
pub uninterp spec fn sha256(data: Seq<u8>) -> Seq<u8>;

/// `len` characters drawn at random from the thread's generator, each an
/// ASCII letter or digit (`rand`'s `Alphanumeric` distribution).
#[verifier::external_body]
fn random_alphanumeric(len: usize) -> (r: String)
    ensures
        r@.len() == len,
        forall|i: int| 0 <= i < r@.len() ==> is_ascii_alphanumeric(#[trigger] r@[i]),
{
    rand::distributions::Alphanumeric.sample_string(&mut rand::thread_rng(), len)
}

/// The SHA-256 digest of `data` (`sha2`'s `Sha256`), 32 bytes long.
#[verifier::external_body]
fn sha256_digest(data: &[u8]) -> (r: Vec<u8>)
    ensures
        r@ == sha256(data@),
        r@.len() == 32,
{
    sha2::Sha256::digest(data).to_vec()
}

/// `data` in URL-safe base64 without padding (`base64`'s `URL_SAFE_NO_PAD`).
#[verifier::external_body]
fn encode_base64_url_no_pad(data: &[u8]) -> (r: String)
    ensures
        r@ == base64_url_no_pad(data@),
{
    base64::engine::general_purpose::URL_SAFE_NO_PAD.encode(data)
}

/// The PKCE challenge of a verifier: the SHA-256 digest of its UTF-8 bytes,
/// in URL-safe base64 without padding.
pub open spec fn pkce_challenge_of(verifier: Seq<char>) -> Seq<char> {
    base64_url_no_pad(sha256(encode_utf8(verifier)))
}

/// The PKCE challenge of `verifier`.
pub fn pkce_challenge(verifier: &str) -> (r: String)
    ensures
        r@ == pkce_challenge_of(verifier@),
        r@.len() == 43,
        forall|i: int| 0 <= i < 43 ==> is_url_safe_b64(#[trigger] r@[i]),
{
    let digest = sha256_digest(verifier.as_bytes());
    proof {
        lemma_base64_length(digest@);
        lemma_base64_alphabet(digest@);
    }
    encode_base64_url_no_pad(digest.as_slice())
}

/// A fresh PKCE pair: a verifier of 64 random ASCII letters and digits, and
/// its challenge, 43 characters of the URL-safe base64 alphabet.
pub fn generate_pkce_pair() -> (r: (String, String))
    ensures
        r.0@.len() == 64,
        forall|i: int| 0 <= i < 64 ==> is_ascii_alphanumeric(#[trigger] r.0@[i]),
        r.1@ == pkce_challenge_of(r.0@),
        r.1@.len() == 43,
        forall|i: int| 0 <= i < 43 ==> is_url_safe_b64(#[trigger] r.1@[i]),
{
    let verifier = random_alphanumeric(64);
    let challenge = pkce_challenge(verifier.as_str());
    (verifier, challenge)
}

/// The required scopes joined by `%20`.
pub open spec fn joined_scopes(n: nat) -> Seq<char>
    decreases n,
{
    if n == 0 {
        Seq::empty()
    } else if n == 1 {
        required_scopes()[0]
    } else {
        joined_scopes((n - 1) as nat) + "%20"@ + required_scopes()[n - 1]
    }
}

/// The `scope` parameter of the authorization address: the required scopes
/// joined by `%20`.
pub fn scope_param() -> (r: String)
    ensures
        r@ == joined_scopes(required_scopes().len()),
{
    let scopes = required_scope_list();
    let mut out = String::new();
    let mut k: usize = 0;
    while k < scopes.len()
        invariant
            k <= scopes@.len(),
            scopes@.len() == required_scopes().len(),
            forall|i: int| 0 <= i < scopes@.len() ==> #[trigger] scopes@[i]@ == required_scopes()[i],
            out@ == joined_scopes(k as nat),
        decreases scopes@.len() - k,
    {
        if k > 0 {
            out.append("%20");
        }
        out.append(scopes[k]);
        assert(scopes@[k as int]@ == required_scopes()[k as int]);
        k = k + 1;
    }
    out
}

/// The address at which the user grants the application access.
pub open spec fn authorization_url_of(
    client_id: Seq<char>,
    redirect_uri: Seq<char>,
    code_challenge: Seq<char>,
) -> Seq<char> {
    "https://accounts.spotify.com/authorize?client_id="@ + client_id + "&response_type=code&redirect_uri="@
        + redirect_uri + "&code_challenge_method=S256&code_challenge="@ + code_challenge + "&scope="@
        + joined_scopes(required_scopes().len())
}

/// The address at which the user grants the application access, asking for
/// the required scopes with the PKCE challenge `code_challenge`.
pub fn authorization_url(client_id: &str, redirect_uri: &str, code_challenge: &str) -> (r: String)
    ensures
        r@ == authorization_url_of(client_id@, redirect_uri@, code_challenge@),
{
    let mut url = owned("https://accounts.spotify.com/authorize?client_id=");
    url.append(client_id);
    url.append("&response_type=code&redirect_uri=");
    url.append(redirect_uri);
    url.append("&code_challenge_method=S256&code_challenge=");
    url.append(code_challenge);
    url.append("&scope=");
    let scopes = scope_param();
    url.append(scopes.as_str());
    url
}


/// The whitespace-separated words of `s`, in order (`str::split_whitespace`).
pub open spec fn words(s: Seq<char>) -> Seq<Seq<char>>
    decreases s.len(),
{
    if s.len() == 0 {
        Seq::empty()
    } else {
        let before = words(s.drop_last());
        let c = s.last();
        if is_whitespace(c) {
            before
        } else if s.len() >= 2 && !is_whitespace(s[s.len() - 2]) {
            before.drop_last().push(before.last().push(c))
        } else {
            before.push(seq![c])
        }
    }
}

/// The piece of `s` between the first and the second occurrence of `pat`
/// (or the end): `s.split(pat).nth(1)`.
pub open spec fn second_piece(s: Seq<char>, pat: Seq<char>) -> Option<Seq<char>> {
    match first_match_from(s, pat, 0) {
        None => None,
        Some(k) => {
            let rest = s.skip(k + pat.len());
            match first_match_from(rest, pat, 0) {
                Some(k2) => Some(rest.take(k2)),
                None => Some(rest),
            }
        },
    }
}

/// The piece of `s` before its first `&` (all of it when there is none).
pub open spec fn before_ampersand(s: Seq<char>) -> Seq<char> {
    match first_match_from(s, seq!['&'], 0) {
        Some(k) => s.take(k),
        None => s,
    }
}

/// The authorization code in the request line of the OAuth callback: in the
/// second word (the request target), the text after `code=` up to the next
/// `code=` or `&`.
pub open spec fn auth_code_of(request_line: Seq<char>) -> Option<Seq<char>> {
    let w = words(request_line);
    if w.len() >= 2 {
        match second_piece(w[1], "code="@) {
            Some(p) => Some(before_ampersand(p)),
            None => None,
        }
    } else {
        None
    }
}

fn word_list(s: &Vec<char>) -> (r: Vec<Vec<char>>)
    ensures
        r@.map_values(|w: Vec<char>| w@) == words(s@),
{
    let mut done: Vec<Vec<char>> = Vec::new();
    let mut cur: Vec<char> = Vec::new();
    let mut i: usize = 0;
    while i < s.len()
        invariant
            i <= s@.len(),
            (cur@.len() > 0) == (i > 0 && !is_whitespace(s@[i - 1])),
            words(s@.take(i as int)) == if cur@.len() > 0 {
                done@.map_values(|w: Vec<char>| w@).push(cur@)
            } else {
                done@.map_values(|w: Vec<char>| w@)
            },
        decreases s@.len() - i,
    {
        let c = s[i];
        assert(s@.take(i + 1).drop_last() =~= s@.take(i as int));
        assert(s@.take(i + 1).last() == c);
        if is_whitespace_char(c) {
            if cur.len() > 0 {
                let ghost old_done = done@;
                let ghost old_cur = cur@;
                let w = cur;
                done.push(w);
                cur = Vec::new();
                assert(done@.map_values(|w: Vec<char>| w@) =~= old_done.map_values(|w: Vec<char>| w@).push(old_cur));
            }
        } else {
            if i > 0 {
                assert(s@.take(i + 1)[i - 1] == s@[i - 1]);
            }
            let ghost dv = done@.map_values(|w: Vec<char>| w@);
            let ghost old_cur = cur@;
            cur.push(c);
            proof {
                if old_cur.len() > 0 {
                    assert(dv.push(old_cur).drop_last() =~= dv);
                    assert(words(s@.take(i + 1)) == dv.push(old_cur).drop_last().push(old_cur.push(c)));
                } else {
                    assert(cur@ =~= seq![c]);
                }
            }
        }
        i = i + 1;
    }
    assert(s@.take(s@.len() as int) =~= s@);
    if cur.len() > 0 {
        let ghost old_done = done@;
        let ghost old_cur = cur@;
        done.push(cur);
        assert(done@.map_values(|w: Vec<char>| w@) =~= old_done.map_values(|w: Vec<char>| w@).push(old_cur));
    }
    done
}


/// The authorization code carried by the request line of the OAuth callback,
/// such as `GET /callback?code=abc&state=x HTTP/1.1`; `None` when the request
/// target has no `code=`.
pub fn extract_auth_code(request_line: &str) -> (r: Option<String>)
    ensures
        match r {
            Some(code) => auth_code_of(request_line@) == Some(code@),
            None => auth_code_of(request_line@) is None,
        },
{
    let line = chars_of(request_line);
    let ws = word_list(&line);
    if ws.len() < 2 {
        return None;
    }
    assert(ws@.map_values(|w: Vec<char>| w@)[1] == ws@[1]@);
    let target = &ws[1];
    let marker = chars_of("code=");
    proof {
        reveal_strlit("code=");
    }
    let k = match find(target, &marker) {
        Some(k) => k,
        None => return None,
    };
    let tlen = target.len();
    let rest = slice_chars(target, k + marker.len(), tlen);
    assert(rest@ =~= target@.skip(k + marker@.len()));
    let piece = match find(&rest, &marker) {
        Some(k2) => slice_chars(&rest, 0, k2),
        None => slice_chars(&rest, 0, rest.len()),
    };
    assert(rest@.subrange(0, rest@.len() as int) =~= rest@);
    assert(forall|k2: int| 0 <= k2 <= rest@.len() ==> rest@.subrange(0, k2) =~= rest@.take(k2));
    let amp = chars_of("&");
    proof {
        reveal_strlit("&");
    }
    assert(amp@ =~= seq!['&']);
    let code = match find(&piece, &amp) {
        Some(k3) => string_of(&piece, 0, k3),
        None => string_of(&piece, 0, piece.len()),
    };
    assert(piece@.subrange(0, piece@.len() as int) =~= piece@);
    assert(forall|k3: int| 0 <= k3 <= piece@.len() ==> piece@.subrange(0, k3) =~= piece@.take(k3));
    Some(code)
}


/// The token endpoint's answer.
#[derive(Debug, Clone)]
pub struct TokenResponse {
    pub access_token: Option<String>,
    pub expires_in: Option<i64>,
    pub scope: Option<String>,
    pub refresh_token: Option<String>,
    pub token_type: Option<String>,
}

/// The credentials kept between runs; `expires_at` is a Unix time in seconds.
#[derive(Debug, Clone)]
pub struct StoredToken {
    pub access_token: Option<String>,
    pub refresh_token: Option<String>,
    pub expires_at: Option<i64>,
    pub token_type: Option<String>,
    pub scope: Option<String>,
}

/// The current Unix time in seconds (`chrono::Utc::now().timestamp()`).
#[verifier::external_body]
pub(crate) fn unix_now() -> (t: i64) {
    chrono::Utc::now().timestamp()
}

impl StoredToken {
    /// The token can be used: it has an access token, a refresh token and an
    /// expiry time.
    pub open spec fn spec_is_valid(&self) -> bool {
        self.access_token is Some && self.refresh_token is Some && self.expires_at is Some
    }

    /// The token has expired at the Unix time `now` (a token without an expiry
    /// time counts as expired).
    pub open spec fn expired_at(&self, now: i64) -> bool {
        match self.expires_at {
            Some(exp) => exp < now,
            None => true,
        }
    }

    /// Whether it has an access token, a refresh token and an expiry time.
    pub fn is_valid(&self) -> (r: bool)
        ensures
            r == self.spec_is_valid(),
    {
        self.access_token.is_some() && self.refresh_token.is_some() && self.expires_at.is_some()
    }

    /// Whether the token has expired at the Unix time `now`.
    pub fn is_expired_at(&self, now: i64) -> (r: bool)
        ensures
            r == self.expired_at(now),
    {
        match self.expires_at {
            Some(exp) => exp < now,
            None => true,
        }
    }

    /// Whether the token has expired by the clock: the answer is
    /// `expired_at(t)` for the instant `t` read from the system clock. Which
    /// instant that is is not stated; a token without an expiry time is always
    /// expired, and one that expires at the last representable second never is.
    pub fn is_expired(&self) -> (r: bool)
        ensures
            exists|t: i64| #[trigger] self.expired_at(t) == r,
            self.expires_at is None ==> r,
    {
        let now = unix_now();
        let r = self.is_expired_at(now);
        assert(self.expired_at(now) == r);
        r
    }
}

fn clone_opt(o: &Option<String>) -> (r: Option<String>)
    ensures
        r == *o,
{
    match o {
        Some(s) => Some(s.clone()),
        None => None,
    }
}

/// An expiry time `expires_in` seconds after `now` that fits an `i64`.
pub open spec fn expiry_fits(now: i64, expires_in: Option<i64>) -> bool {
    match expires_in {
        Some(e) => i64::MIN <= now + e <= i64::MAX,
        None => false,
    }
}

/// The credentials to keep after a code exchange: those of the answer, with
/// the expiry time `expires_in` seconds after `now`.
pub fn stored_from_token(body: &TokenResponse, now: i64) -> (t: StoredToken)
    requires
        expiry_fits(now, body.expires_in),
    ensures
        t.access_token == body.access_token,
        t.refresh_token == body.refresh_token,
        t.expires_at == Some((now + body.expires_in->0) as i64),
        t.token_type == body.token_type,
        t.scope == body.scope,
{
    let exp = match body.expires_in {
        Some(e) => e,
        None => 0,
    };
    StoredToken {
        access_token: clone_opt(&body.access_token),
        refresh_token: clone_opt(&body.refresh_token),
        expires_at: Some(now + exp),
        token_type: clone_opt(&body.token_type),
        scope: clone_opt(&body.scope),
    }
}

/// The credentials to keep after a refresh: those of the answer, keeping the
/// old refresh token and scope where the answer has none, with the expiry
/// time `expires_in` seconds after `now`.
pub fn stored_from_refresh(body: &TokenResponse, old_refresh_token: &str, old_scope: Option<&str>, now: i64) -> (t:
    StoredToken)
    requires
        expiry_fits(now, body.expires_in),
    ensures
        t.access_token == body.access_token,
        match body.refresh_token {
            Some(r) => t.refresh_token == Some(r),
            None => t.refresh_token matches Some(r) && r@ == old_refresh_token@,
        },
        t.expires_at == Some((now + body.expires_in->0) as i64),
        t.token_type == body.token_type,
        match body.scope {
            Some(sc) => t.scope == Some(sc),
            None => match old_scope {
                Some(o) => t.scope matches Some(sc) && sc@ == o@,
                None => t.scope is None,
            },
        },
{
    let exp = match body.expires_in {
        Some(e) => e,
        None => 0,
    };
    let refresh_token = match &body.refresh_token {
        Some(r) => Some(r.clone()),
        None => Some(owned(old_refresh_token)),
    };
    let scope = match &body.scope {
        Some(sc) => Some(sc.clone()),
        None => match old_scope {
            Some(o) => Some(owned(o)),
            None => None,
        },
    };
    StoredToken {
        access_token: clone_opt(&body.access_token),
        refresh_token,
        expires_at: Some(now + exp),
        token_type: clone_opt(&body.token_type),
        scope,
    }
}

/// The form fields of a code exchange, in order: `client_id`, `code`,
/// `redirect_uri`, `grant_type` (`authorization_code`) and `code_verifier`.
pub open spec fn token_form_of(
    client_id: Seq<char>,
    code: Seq<char>,
    code_verifier: Seq<char>,
    redirect_uri: Seq<char>,
) -> Seq<(Seq<char>, Seq<char>)> {
    seq![
        ("client_id"@, client_id),
        ("code"@, code),
        ("redirect_uri"@, redirect_uri),
        ("grant_type"@, "authorization_code"@),
        ("code_verifier"@, code_verifier),
    ]
}

/// The form fields of a refresh, in order: `client_id`, `grant_type`
/// (`refresh_token`) and `refresh_token`.
pub open spec fn refresh_form_of(client_id: Seq<char>, refresh_token: Seq<char>) -> Seq<(Seq<char>, Seq<char>)> {
    seq![
        ("client_id"@, client_id),
        ("grant_type"@, "refresh_token"@),
        ("refresh_token"@, refresh_token),
    ]
}

/// Pairs of strings, by their characters.
pub open spec fn pairs_view(v: Seq<(String, String)>) -> Seq<(Seq<char>, Seq<char>)> {
    v.map_values(|p: (String, String)| (p.0@, p.1@))
}

fn pair(k: &str, v: &str) -> (r: (String, String))
    ensures
        r.0@ == k@,
        r.1@ == v@,
{
    (owned(k), owned(v))
}

/// The form with which the application registered under `client_id`
/// exchanges an authorization code for a token.
pub fn token_form(client_id: &str, code: &str, code_verifier: &str, redirect_uri: &str) -> (r: Vec<(String, String)>)
    ensures
        pairs_view(r@) == token_form_of(client_id@, code@, code_verifier@, redirect_uri@),
{
    let mut r: Vec<(String, String)> = Vec::new();
    r.push(pair("client_id", client_id));
    r.push(pair("code", code));
    r.push(pair("redirect_uri", redirect_uri));
    r.push(pair("grant_type", "authorization_code"));
    r.push(pair("code_verifier", code_verifier));
    assert(pairs_view(r@) =~= token_form_of(client_id@, code@, code_verifier@, redirect_uri@));
    r
}

/// The form with which the application registered under `client_id`
/// refreshes a token.
pub fn refresh_form(client_id: &str, refresh_token: &str) -> (r: Vec<(String, String)>)
    ensures
        pairs_view(r@) == refresh_form_of(client_id@, refresh_token@),
{
    let mut r: Vec<(String, String)> = Vec::new();
    r.push(pair("client_id", client_id));
    r.push(pair("grant_type", "refresh_token"));
    r.push(pair("refresh_token", refresh_token));
    assert(pairs_view(r@) =~= refresh_form_of(client_id@, refresh_token@));
    r
}

/// The message of a failed code exchange.
pub fn token_request_failed(status: &HttpStatus, error_body: &str) -> (r: String)
    ensures
        r@ == "Token request failed with status "@ + status.spec_text() + ": "@ + error_body@,
{
    let mut m = owned("Token request failed with status ");
    let t = status.text();
    m.append(t.as_str());
    m.append(": ");
    m.append(error_body);
    m
}


/// How to authenticate, given the credentials kept from an earlier run.
#[derive(Debug, Clone)]
pub enum AuthPlan {
    /// The kept token is usable as it is.
    UseCached { access_token: String, refresh_token: String, expires_at: i64 },
    /// The kept token has expired: refresh it.
    Refresh { refresh_token: String, scope: Option<String> },
    /// The kept token lacks a required scope: tell the user, then authorize anew.
    Reauthorize,
    /// There is no usable kept token: authorize anew.
    FullAuth,
}

/// The granted scopes of a kept token, empty when it names none.
pub open spec fn scope_chars(t: StoredToken) -> Seq<char> {
    match t.scope {
        Some(s) => s@,
        None => Seq::empty(),
    }
}

/// The plan for the kept credentials `loaded` at the Unix time `now`.
pub open spec fn auth_plan_for(loaded: Option<StoredToken>, now: i64, p: AuthPlan) -> bool {
    match loaded {
        Some(t) => if t.spec_is_valid() && !t.expired_at(now) && grants_required_scopes(scope_chars(t)) {
            p == AuthPlan::UseCached {
                access_token: t.access_token->0,
                refresh_token: t.refresh_token->0,
                expires_at: t.expires_at->0,
            }
        } else if t.spec_is_valid() && grants_required_scopes(scope_chars(t)) {
            p == AuthPlan::Refresh { refresh_token: t.refresh_token->0, scope: t.scope }
        } else if t.spec_is_valid() {
            p is Reauthorize
        } else {
            p is FullAuth
        },
        None => p is FullAuth,
    }
}

/// Decides how to authenticate from the credentials kept from an earlier run
/// (`None` when there are none or they could not be read) at the Unix time
/// `now`: a valid token with the required scopes is used while it has not
/// expired and refreshed once it has; a valid token without them calls for a
/// new authorization, as does the lack of a valid token.
pub fn auth_plan(loaded: Option<StoredToken>, now: i64) -> (p: AuthPlan)
    ensures
        auth_plan_for(loaded, now, p),
{
    match loaded {
        None => AuthPlan::FullAuth,
        Some(t) => {
            let valid = t.is_valid();
            let expired = t.is_expired_at(now);
            let scoped = match &t.scope {
                Some(s) => has_required_scopes(Some(s.as_str())),
                None => has_required_scopes(None),
            };
            if valid && !expired && scoped {
                match (t.access_token, t.refresh_token, t.expires_at) {
                    (Some(a), Some(r), Some(e)) => AuthPlan::UseCached {
                        access_token: a,
                        refresh_token: r,
                        expires_at: e,
                    },
                    _ => AuthPlan::FullAuth,
                }
            } else if valid && scoped {
                match t.refresh_token {
                    Some(r) => AuthPlan::Refresh { refresh_token: r, scope: t.scope },
                    None => AuthPlan::FullAuth,
                }
            } else if valid {
                AuthPlan::Reauthorize
            } else {
                AuthPlan::FullAuth
            }
        },
    }
}

/// The answer to a refresh request that failed: `None` for a reply in the
/// 2xx range, whose token is used; otherwise the error `Refresh token
/// failed`.
pub fn refresh_request_failed(status: &HttpStatus) -> (r: Option<String>)
    ensures
        status.spec_is_success() ==> r is None,
        !status.spec_is_success() ==> (r matches Some(m) && m@ == "Refresh token failed"@),
{
    if status.is_success() {
        None
    } else {
        Some(owned("Refresh token failed"))
    }
}

/// The credentials to hold after a successful refresh: the new access token,
/// the new refresh token or else the one refreshed, and an expiry time
/// `expires_in` seconds after `now`.
pub fn credentials_after_refresh(new_token: TokenResponse, refresh_token: String, now: i64) -> (r: (
    String,
    String,
    i64,
))
    requires
        new_token.access_token is Some,
        expiry_fits(now, new_token.expires_in),
    ensures
        r.0 == new_token.access_token->0,
        r.1 == match new_token.refresh_token {
            Some(t) => t,
            None => refresh_token,
        },
        r.2 == now + new_token.expires_in->0,
{
    let exp = match new_token.expires_in {
        Some(e) => e,
        None => 0,
    };
    let refresh = match new_token.refresh_token {
        Some(t) => t,
        None => refresh_token,
    };
    match new_token.access_token {
        Some(a) => (a, refresh, now + exp),
        None => (String::new(), refresh, now + exp),
    }
}

/// The credentials to hold after a new authorization: the access token, the
/// refresh token and an expiry time `expires_in` seconds after `now`; it is
/// an error when the answer lacks any of the three, named in that order.
pub fn credentials_from_token(token: TokenResponse, now: i64) -> (r: Result<(String, String, i64), String>)
    requires
        token.access_token is Some && token.refresh_token is Some && token.expires_in is Some ==> expiry_fits(
            now,
            token.expires_in,
        ),
    ensures
        token.access_token is None ==> (r matches Err(m) && m@ == "No access token received"@),
        token.access_token is Some && token.refresh_token is None ==> (r matches Err(m) && m@
            == "No refresh token received"@),
        token.access_token is Some && token.refresh_token is Some && token.expires_in is None ==> (r matches Err(
            m,
        ) && m@ == "No expiry time received"@),
        token.access_token is Some && token.refresh_token is Some && token.expires_in is Some ==> r == Ok::<
            (String, String, i64),
            String,
        >((token.access_token->0, token.refresh_token->0, (now + token.expires_in->0) as i64)),
{
    let access = match token.access_token {
        Some(a) => a,
        None => return Err(owned("No access token received")),
    };
    let refresh = match token.refresh_token {
        Some(r) => r,
        None => return Err(owned("No refresh token received")),
    };
    let exp = match token.expires_in {
        Some(e) => e,
        None => return Err(owned("No expiry time received")),
    };
    Ok((access, refresh, now + exp))
}

/// The notice that a kept token lacks a required scope.
pub fn permissions_changed() -> (u: StateUpdateEnum)
    ensures
        u matches StateUpdateEnum::Error(m) && m@
            == "Spotify permissions changed. Please authenticate again to grant the required scopes."@,
{
    StateUpdateEnum::Error(
        owned("Spotify permissions changed. Please authenticate again to grant the required scopes."),
    )
}

/// The notice that refreshing failed with `message`, before a new authorization.
pub fn refresh_failed(message: &str) -> (u: StateUpdateEnum)
    ensures
        u matches StateUpdateEnum::Error(m) && m@ == "Token refresh failed ("@ + message@
            + "), retrying full auth..."@,
{
    let mut m = owned("Token refresh failed (");
    m.append(message);
    m.append("), retrying full auth...");
    StateUpdateEnum::Error(m)
}

/// The authentication status after the flow failed with `message`.
pub fn authentication_failed(message: &str) -> (u: StateUpdateEnum)
    ensures
        u matches StateUpdateEnum::AuthStatus(AuthState::Error(m)) && m@ == "Authentication failed: "@
            + message@,
{
    let mut m = owned("Authentication failed: ");
    m.append(message);
    StateUpdateEnum::AuthStatus(AuthState::Error(m))
}


/// The required scopes separated by single spaces, as the token endpoint
/// reports the scopes it granted.
pub open spec fn spaced_scopes() -> Seq<char> {
    required_scopes()[0] + " "@ + required_scopes()[1] + " "@ + required_scopes()[2] + " "@
        + required_scopes()[3] + " "@ + required_scopes()[4] + " "@ + required_scopes()[5] + " "@
        + required_scopes()[6]
}

/// A grant of exactly the scopes the authorization address asks for passes
/// the scope check: what is requested and what is required are the same.
pub proof fn lemma_requested_scopes_suffice()
    ensures
        grants_required_scopes(spaced_scopes()),
{
    reveal_strlit("playlist-read-private");
    reveal_strlit("playlist-read-collaborative");
    reveal_strlit("user-library-read");
    reveal_strlit("user-read-currently-playing");
    reveal_strlit("user-modify-playback-state");
    reveal_strlit("user-read-playback-state");
    reveal_strlit("user-read-recently-played");
    reveal_strlit(" ");
    let s = spaced_scopes();
    let r = required_scopes();
    let sp = " "@;
    assert(sp =~= seq![' ']);
    assert(is_whitespace(' '));
    let p1 = r[0] + sp;
    let p2 = p1 + r[1] + sp;
    let p3 = p2 + r[2] + sp;
    let p4 = p3 + r[3] + sp;
    let p5 = p4 + r[4] + sp;
    let p6 = p5 + r[5] + sp;
    assert(s =~= p6 + r[6]);
    assert(s.subrange(0, r[0].len() as int) =~= r[0]);
    assert(word_at(s, r[0], 0));
    assert(s.subrange(p1.len() as int, (p1.len() + r[1].len()) as int) =~= r[1]);
    assert(word_at(s, r[1], p1.len() as int));
    assert(s.subrange(p2.len() as int, (p2.len() + r[2].len()) as int) =~= r[2]);
    assert(word_at(s, r[2], p2.len() as int));
    assert(s.subrange(p3.len() as int, (p3.len() + r[3].len()) as int) =~= r[3]);
    assert(word_at(s, r[3], p3.len() as int));
    assert(s.subrange(p4.len() as int, (p4.len() + r[4].len()) as int) =~= r[4]);
    assert(word_at(s, r[4], p4.len() as int));
    assert(s.subrange(p5.len() as int, (p5.len() + r[5].len()) as int) =~= r[5]);
    assert(word_at(s, r[5], p5.len() as int));
    assert(s.subrange(p6.len() as int, (p6.len() + r[6].len()) as int) =~= r[6]);
    assert(word_at(s, r[6], p6.len() as int));
    assert forall|k: int| 0 <= k < r.len() implies has_word(s, #[trigger] r[k]) by {
        if k == 0 {
            assert(word_at(s, r[0], 0));
        } else if k == 1 {
            assert(word_at(s, r[1], p1.len() as int));
        } else if k == 2 {
            assert(word_at(s, r[2], p2.len() as int));
        } else if k == 3 {
            assert(word_at(s, r[3], p3.len() as int));
        } else if k == 4 {
            assert(word_at(s, r[4], p4.len() as int));
        } else if k == 5 {
            assert(word_at(s, r[5], p5.len() as int));
        } else {
            assert(word_at(s, r[6], p6.len() as int));
        }
    }
}


/// A word followed by whitespace has the same words as the word alone.
proof fn lemma_words_trailing_space(x: Seq<char>, c: char)
    requires
        is_whitespace(c),
    ensures
        words(x.push(c)) == words(x),
{
    assert(x.push(c).drop_last() =~= x);
}

/// Appending a run `y` of non-whitespace characters to text that is empty or
/// ends in whitespace adds `y` as one more word.
proof fn lemma_words_append_word(x: Seq<char>, y: Seq<char>)
    requires
        x.len() == 0 || is_whitespace(x.last()),
        y.len() > 0,
        forall|i: int| 0 <= i < y.len() ==> !is_whitespace(#[trigger] y[i]),
    ensures
        words(x + y) == words(x).push(y),
    decreases y.len(),
{
    let c = y.last();
    let y0 = y.drop_last();
    assert((x + y).drop_last() =~= x + y0);
    assert((x + y).last() == c);
    if y0.len() == 0 {
        assert(x + y0 =~= x);
        assert(y =~= seq![c]);
        if x.len() > 0 {
            assert((x + y)[(x + y).len() - 2] == x.last());
        }
    } else {
        lemma_words_append_word(x, y0);
        assert((x + y)[(x + y).len() - 2] == y0.last());
        assert(words(x).push(y0).drop_last() =~= words(x));
        assert(y0.push(c) =~= y);
    }
}

/// Where the last run of non-whitespace characters of `s` begins (the length
/// of `s` when it is empty or ends in whitespace).
pub open spec fn run_start(s: Seq<char>) -> int
    decreases s.len(),
{
    if s.len() == 0 {
        0
    } else if is_whitespace(s.last()) {
        s.len() as int
    } else {
        run_start(s.drop_last())
    }
}

proof fn lemma_run_start(s: Seq<char>)
    ensures
        0 <= run_start(s) <= s.len(),
        run_start(s) == 0 || is_whitespace(s[run_start(s) - 1]),
        forall|k: int| run_start(s) <= k < s.len() ==> !is_whitespace(#[trigger] s[k]),
        s.len() > 0 && !is_whitespace(s.last()) ==> run_start(s) < s.len(),
    decreases s.len(),
{
    if s.len() > 0 && !is_whitespace(s.last()) {
        let x = s.drop_last();
        lemma_run_start(x);
        assert forall|k: int| run_start(s) <= k < s.len() implies !is_whitespace(#[trigger] s[k]) by {
            if k < x.len() {
                assert(s[k] == x[k]);
            }
        }
        if run_start(s) > 0 {
            assert(s[run_start(s) - 1] == x[run_start(s) - 1]);
        }
    }
}

/// A piece of text that is not empty and holds no whitespace.
pub open spec fn is_token(t: Seq<char>) -> bool {
    t.len() > 0 && forall|i: int| 0 <= i < t.len() ==> !is_whitespace(#[trigger] t[i])
}

/// Whitespace at the end of a text adds no bounded occurrence of a token and
/// takes none away.
proof fn lemma_word_trailing_space(x: Seq<char>, c: char, t: Seq<char>)
    requires
        is_token(t),
        is_whitespace(c),
    ensures
        has_word(x.push(c), t) == has_word(x, t),
{
    let s = x.push(c);
    if has_word(s, t) {
        let i = choose|i: int| word_at(s, t, i);
        assert(s.subrange(i, i + t.len())[t.len() - 1] == s[i + t.len() - 1]);
        assert(i + t.len() < s.len());
        assert(x.subrange(i, i + t.len()) =~= s.subrange(i, i + t.len()));
        if i > 0 {
            assert(x[i - 1] == s[i - 1]);
        }
        if i + t.len() < x.len() {
            assert(x[i + t.len()] == s[i + t.len()]);
        }
        assert(word_at(x, t, i));
    }
    if has_word(x, t) {
        let i = choose|i: int| word_at(x, t, i);
        assert(s.subrange(i, i + t.len()) =~= x.subrange(i, i + t.len()));
        if i > 0 {
            assert(x[i - 1] == s[i - 1]);
        }
        if i + t.len() < x.len() {
            assert(x[i + t.len()] == s[i + t.len()]);
        }
        assert(word_at(s, t, i));
    }
}

/// A token occurs bounded by whitespace in `x + y`, where `x` is empty or
/// ends in whitespace and `y` is a token, exactly when it does so in `x` or
/// is `y`.
proof fn lemma_word_last_run(x: Seq<char>, y: Seq<char>, t: Seq<char>)
    requires
        is_token(t),
        is_token(y),
        x.len() == 0 || is_whitespace(x.last()),
    ensures
        has_word(x + y, t) == (has_word(x, t) || t == y),
{
    let s = x + y;
    let j = x.len() as int;
    assert forall|k: int| j <= k < s.len() implies !is_whitespace(#[trigger] s[k]) by {
        assert(s[k] == y[k - j]);
    }
    if has_word(s, t) {
        let i = choose|i: int| word_at(s, t, i);
        assert(s.subrange(i, i + t.len())[t.len() - 1] == s[i + t.len() - 1]);
        if i < j {
            if i + t.len() - 1 >= j - 1 {
                assert(s.subrange(i, i + t.len())[j - 1 - i] == s[j - 1]);
                assert(s[j - 1] == x.last());
                assert(false);
            }
            assert(x.subrange(i, i + t.len()) =~= s.subrange(i, i + t.len()));
            if i > 0 {
                assert(x[i - 1] == s[i - 1]);
            }
            assert(x[i + t.len()] == s[i + t.len()]);
            assert(word_at(x, t, i));
        } else {
            if i > j {
                assert(!is_whitespace(s[i - 1]));
                assert(false);
            }
            if i + t.len() < s.len() {
                assert(!is_whitespace(s[i + t.len()]));
                assert(false);
            }
            assert(s.subrange(j, s.len() as int) =~= y);
            assert(t =~= y);
        }
    }
    if has_word(x, t) {
        let i = choose|i: int| word_at(x, t, i);
        assert(x.subrange(i, i + t.len())[t.len() - 1] == x[i + t.len() - 1]);
        assert(i + t.len() < x.len());
        assert(s.subrange(i, i + t.len()) =~= x.subrange(i, i + t.len()));
        if i > 0 {
            assert(x[i - 1] == s[i - 1]);
        }
        assert(x[i + t.len()] == s[i + t.len()]);
        assert(word_at(s, t, i));
    }
    if t == y {
        assert(s.subrange(j, j + t.len()) =~= y);
        if j > 0 {
            assert(s[j - 1] == x.last());
        }
        assert(word_at(s, t, j));
    }
}

/// A token occurs bounded by whitespace in `s` exactly when it is one of the
/// pieces `str::split_whitespace` cuts `s` into.
pub proof fn lemma_word_iff_split(s: Seq<char>, t: Seq<char>)
    requires
        is_token(t),
    ensures
        has_word(s, t) == words(s).contains(t),
    decreases s.len(),
{
    if s.len() == 0 {
        assert(words(s) =~= Seq::<Seq<char>>::empty());
        assert(!has_word(s, t));
    } else if is_whitespace(s.last()) {
        let x = s.drop_last();
        let c = s.last();
        assert(s =~= x.push(c));
        lemma_words_trailing_space(x, c);
        lemma_word_iff_split(x, t);
        lemma_word_trailing_space(x, c, t);
    } else {
        lemma_run_start(s);
        let j = run_start(s);
        let x = s.take(j);
        let y = s.skip(j);
        assert(s =~= x + y);
        if x.len() > 0 {
            assert(x.last() == s[j - 1]);
        }
        assert forall|i: int| 0 <= i < y.len() implies !is_whitespace(#[trigger] y[i]) by {
            assert(y[i] == s[j + i]);
        }
        lemma_words_append_word(x, y);
        lemma_word_iff_split(x, t);
        lemma_word_last_run(x, y, t);
        let wx = words(x);
        assert(words(s) == wx.push(y));
        assert(wx.push(y).contains(t) == (wx.contains(t) || t == y)) by {
            if t == y {
                assert(wx.push(y)[wx.len() as int] == y);
            }
            if wx.contains(t) {
                let k = choose|k: int| 0 <= k < wx.len() && wx[k] == t;
                assert(wx.push(y)[k] == t);
            }
            if wx.push(y).contains(t) {
                let k = choose|k: int| 0 <= k < wx.push(y).len() && wx.push(y)[k] == t;
                if k < wx.len() {
                    assert(wx[k] == t);
                }
            }
        }
    }
}

/// A grant passes the scope check exactly when it names each of the seven
/// scopes `playlist-read-private`, `playlist-read-collaborative`,
/// `user-library-read`, `user-read-currently-playing`,
/// `user-modify-playback-state`, `user-read-playback-state` and
/// `user-read-recently-played` as one of its whitespace-separated words; a
/// grant that lacks any one of them fails.
pub proof fn lemma_scope_check_needs_all_seven(scope: Seq<char>)
    ensures
        grants_required_scopes(scope) == ({
            &&& words(scope).contains("playlist-read-private"@)
            &&& words(scope).contains("playlist-read-collaborative"@)
            &&& words(scope).contains("user-library-read"@)
            &&& words(scope).contains("user-read-currently-playing"@)
            &&& words(scope).contains("user-modify-playback-state"@)
            &&& words(scope).contains("user-read-playback-state"@)
            &&& words(scope).contains("user-read-recently-played"@)
        }),
        split_grants_required(scope) == grants_required_scopes(scope),
{
    lemma_scope_check_is_split_membership(scope);
    let r = required_scopes();
    if ({
            &&& words(scope).contains("playlist-read-private"@)
            &&& words(scope).contains("playlist-read-collaborative"@)
            &&& words(scope).contains("user-library-read"@)
            &&& words(scope).contains("user-read-currently-playing"@)
            &&& words(scope).contains("user-modify-playback-state"@)
            &&& words(scope).contains("user-read-playback-state"@)
            &&& words(scope).contains("user-read-recently-played"@)
        }) {
        assert forall|k: int| 0 <= k < r.len() implies words(scope).contains(#[trigger] r[k]) by {
            if k == 0 {} else if k == 1 {} else if k == 2 {} else if k == 3 {} else if k == 4 {} else if k == 5 {} else {}
        }
    }
    if split_grants_required(scope) {
        assert(words(scope).contains(r[0]));
        assert(words(scope).contains(r[1]));
        assert(words(scope).contains(r[2]));
        assert(words(scope).contains(r[3]));
        assert(words(scope).contains(r[4]));
        assert(words(scope).contains(r[5]));
        assert(words(scope).contains(r[6]));
    }
}

/// Every required scope is a token: not empty, with no whitespace.
pub proof fn lemma_required_scopes_are_tokens()
    ensures
        forall|k: int| 0 <= k < required_scopes().len() ==> is_token(#[trigger] required_scopes()[k]),
{
    reveal_strlit("playlist-read-private");
    reveal_strlit("playlist-read-collaborative");
    reveal_strlit("user-library-read");
    reveal_strlit("user-read-currently-playing");
    reveal_strlit("user-modify-playback-state");
    reveal_strlit("user-read-playback-state");
    reveal_strlit("user-read-recently-played");
    assert forall|k: int| 0 <= k < required_scopes().len() implies is_token(#[trigger] required_scopes()[k]) by {
        let t = required_scopes()[k];
        assert forall|i: int| 0 <= i < t.len() implies !is_whitespace(#[trigger] t[i]) by {
            assert(('a' <= t[i] <= 'z') || t[i] == '-');
        }
    }
}

/// The granted scopes, cut by `str::split_whitespace`, include every required
/// scope.
pub open spec fn split_grants_required(scope: Seq<char>) -> bool {
    forall|k: int| 0 <= k < required_scopes().len() ==> words(scope).contains(#[trigger] required_scopes()[k])
}

/// The scope check is membership of every required scope among the pieces
/// `str::split_whitespace` cuts the granted scopes into; so it ignores the
/// order of the scopes, repeated scopes and scopes that are not required.
pub proof fn lemma_scope_check_is_split_membership(scope: Seq<char>)
    ensures
        grants_required_scopes(scope) == split_grants_required(scope),
{
    lemma_required_scopes_are_tokens();
    assert forall|k: int| 0 <= k < required_scopes().len() implies has_word(scope, #[trigger] required_scopes()[k])
        == words(scope).contains(required_scopes()[k]) by {
        lemma_word_iff_split(scope, required_scopes()[k]);
    }
}

/// Granting more scopes never fails a check that passed: when every scope of
/// `fewer` is among those of `more`, a grant of `fewer` that passes means a
/// grant of `more` passes.
pub proof fn lemma_scope_check_monotone(fewer: Seq<char>, more: Seq<char>)
    requires
        forall|w: Seq<char>| words(fewer).contains(w) ==> words(more).contains(w),
    ensures
        grants_required_scopes(fewer) ==> grants_required_scopes(more),
{
    lemma_scope_check_is_split_membership(fewer);
    lemma_scope_check_is_split_membership(more);
}

/// No non-empty piece of text with no character `c` holds the pattern `[c]`.
proof fn lemma_no_char_no_match(s: Seq<char>, c: char, i: int)
    requires
        0 <= i,
        forall|j: int| 0 <= j < s.len() ==> s[j] != c,
    ensures
        first_match_from(s, seq![c], i) is None,
    decreases s.len() + 1 - i,
{
    if i + 1 <= s.len() {
        assert(s.subrange(i, i + 1)[0] == s[i]);
        assert(s.subrange(i, i + 1) != seq![c]);
        lemma_no_char_no_match(s, c, i + 1);
    }
}

/// Where the pattern differs from the text at one place, the search goes on
/// from the next position.
proof fn lemma_skip_mismatch(s: Seq<char>, pat: Seq<char>, i: int, j: int)
    requires
        0 <= i,
        0 <= j < pat.len(),
        i + pat.len() <= s.len(),
        s[i + j] != pat[j],
    ensures
        first_match_from(s, pat, i) == first_match_from(s, pat, i + 1),
{
    assert(s.subrange(i, i + pat.len())[j] == s[i + j]);
}

/// The request line with which the browser returns to the callback address
/// with the authorization code `code`.
pub open spec fn callback_line(code: Seq<char>) -> Seq<char> {
    "GET /callback?code="@ + code + " HTTP/1.1"@
}

/// A code as the authorization server issues it: not empty, with no
/// whitespace, no `&` and no `code=` inside.
pub open spec fn plain_code(code: Seq<char>) -> bool {
    &&& code.len() > 0
    &&& forall|i: int| 0 <= i < code.len() ==> !is_whitespace(#[trigger] code[i]) && code[i] != '&'
    &&& first_match_from(code, "code="@, 0) is None
}

/// The code read from the callback's request line is the code the
/// authorization server put in it.
pub proof fn lemma_callback_code_roundtrip(code: Seq<char>)
    requires
        plain_code(code),
    ensures
        auth_code_of(callback_line(code)) == Some(code),
{
    reveal_strlit("GET /callback?code=");
    reveal_strlit(" HTTP/1.1");
    reveal_strlit("code=");
    let get = seq!['G', 'E', 'T'];
    let prefix = seq!['/', 'c', 'a', 'l', 'l', 'b', 'a', 'c', 'k', '?'];
    let marker = "code="@;
    assert(marker =~= seq!['c', 'o', 'd', 'e', '=']);
    let target = prefix + marker + code;
    let proto = seq!['H', 'T', 'T', 'P', '/', '1', '.', '1'];
    let line = callback_line(code);
    assert(line =~= ((((get.push(' ')) + target).push(' ')) + proto));
    // the words of the line
    assert(words(Seq::<char>::empty()) =~= Seq::<Seq<char>>::empty());
    assert(Seq::<char>::empty() + get =~= get);
    lemma_words_append_word(Seq::<char>::empty(), get);
    lemma_words_trailing_space(get, ' ');
    assert forall|i: int| 0 <= i < target.len() implies !is_whitespace(#[trigger] target[i]) by {
        if i >= prefix.len() + marker.len() {
            assert(target[i] == code[i - prefix.len() - marker.len()]);
        }
    }
    lemma_words_append_word(get.push(' '), target);
    lemma_words_trailing_space(get.push(' ') + target, ' ');
    lemma_words_append_word((get.push(' ') + target).push(' '), proto);
    let w = words(line);
    assert(w == seq![get, target, proto]);
    assert(w[1] == target);
    // the piece after the first `code=`
    let pre = prefix + marker;
    assert(target =~= pre + code);
    lemma_skip_mismatch(target, marker, 0, 0);
    lemma_skip_mismatch(target, marker, 1, 1);
    lemma_skip_mismatch(target, marker, 2, 0);
    lemma_skip_mismatch(target, marker, 3, 0);
    lemma_skip_mismatch(target, marker, 4, 0);
    lemma_skip_mismatch(target, marker, 5, 0);
    lemma_skip_mismatch(target, marker, 6, 0);
    lemma_skip_mismatch(target, marker, 7, 1);
    lemma_skip_mismatch(target, marker, 8, 0);
    lemma_skip_mismatch(target, marker, 9, 0);
    assert(target.subrange(10, 15) =~= marker);
    assert(first_match_from(target, marker, 10) == Some(10int));
    assert(first_match_from(target, marker, 0) == Some(10int));
    assert(target.skip(15) =~= code);
    assert(second_piece(target, marker) == Some(code));
    // nothing after it to cut at `&`
    lemma_no_char_no_match(code, '&', 0);
    assert(before_ampersand(code) == code);
}

} // verus!
