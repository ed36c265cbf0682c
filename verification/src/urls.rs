//! URLs as the `url` crate parses them, and whether a URL's text writes a
//! port: `Url` forgets a written port that equals the scheme's default, so
//! that fact is read from the text itself.

use vstd::prelude::*;
use crate::text::{chars_of, is_digit};

verus! {

#[verifier::external_type_specification]
#[verifier::external_body]
pub struct ExUrlParseError(url::ParseError);

/// The parts of a parsed URL that connection planning reads.
pub struct UrlParts {
    /// The scheme, as `Url::scheme` gives it.
    pub scheme: String,
    /// The host, as `Url::host_str` gives it.
    pub host: Option<String>,
    /// The port, as `Url::port` gives it: `None` both when no port is
    /// written and when the written port is the scheme's default.
    pub port: Option<u16>,
    /// The port, as `Url::port_or_known_default` gives it.
    pub known_port: Option<u16>,
}

/// The character view of an optional string.
pub open spec fn opt_view(o: Option<String>) -> Option<Seq<char>> {
    match o {
        Some(s) => Some(s@),
        None => None,
    }
}

/// The mathematical form of the parts: scheme, host, port, known port.
pub type UrlPartsView = (Seq<char>, Option<Seq<char>>, Option<u16>, Option<u16>);

impl View for UrlParts {
    type V = UrlPartsView;

    open spec fn view(&self) -> UrlPartsView {
        (self.scheme@, opt_view(self.host), self.port, self.known_port)
    }
}

/// The default port `url` knows for a scheme: 80 for `http` and `ws`, 443
/// for `https` and `wss`, 21 for `ftp`, none for any other.
pub open spec fn default_port_spec(scheme: Seq<char>) -> Option<u16> {
    if scheme == "http"@ || scheme == "ws"@ {
        Some(80)
    } else if scheme == "https"@ || scheme == "wss"@ {
        Some(443)
    } else if scheme == "ftp"@ {
        Some(21)
    } else {
        None
    }
}

/// What `url::Url::parse` makes of a text, read through `scheme`,
/// `host_str`, `port` and `port_or_known_default`, or the error it gives.
pub uninterp spec fn url_components(s: Seq<char>) -> Result<UrlPartsView, url::ParseError>;

/// Calls `url::Url::parse` and reads the parsed URL's `scheme`,
/// `host_str`, `port` and `port_or_known_default` into plain values. The
/// contract names the outcome, error included, as a function of the text
/// alone, and states what the source of `port_or_known_default` shows: it
/// is the port when there is one, else the scheme's default from
/// `parser::default_port`.
#[verifier::external_body]
pub fn parse_url_parts(s: &str) -> (r: Result<UrlParts, url::ParseError>)
    ensures
        match r {
            Ok(p) => url_components(s@) == Ok::<UrlPartsView, url::ParseError>(p@),
            Err(e) => url_components(s@) == Err::<UrlPartsView, url::ParseError>(e),
        },
        r matches Ok(p) ==> p.known_port == match p.port {
            Some(x) => Some(x),
            None => default_port_spec(p.scheme@),
        },
{
    match url::Url::parse(s) {
        Ok(u) => Ok(UrlParts {
            scheme: u.scheme().to_string(),
            host: match u.host_str() {
                Some(h) => Some(h.to_string()),
                None => None,
            },
            port: u.port(),
            known_port: u.port_or_known_default(),
        }),
        Err(e) => Err(e),
    }
}

// ---------------------------------------------------------------------------
// The written port
// ---------------------------------------------------------------------------

/// The first position at or after `from` that holds `c`.
pub open spec fn first_index(s: Seq<char>, c: char, from: int) -> Option<int>
    decreases s.len() - from,
{
    if from < 0 || from >= s.len() {
        None
    } else if s[from] == c {
        Some(from)
    } else {
        first_index(s, c, from + 1)
    }
}

/// The first position at or after `from` that is not a slash or backslash.
pub open spec fn skip_slashes(s: Seq<char>, from: int) -> int
    decreases s.len() - from,
{
    if 0 <= from < s.len() && (s[from] == '/' || s[from] == '\\') {
        skip_slashes(s, from + 1)
    } else {
        from
    }
}

/// Whether a character ends the authority (host and port) of a URL.
pub open spec fn ends_authority(c: char) -> bool {
    c == '/' || c == '\\' || c == '?' || c == '#'
}

/// The position where the authority that starts at `from` ends.
pub open spec fn authority_end(s: Seq<char>, from: int) -> int
    decreases s.len() - from,
{
    if 0 <= from < s.len() && !ends_authority(s[from]) {
        authority_end(s, from + 1)
    } else {
        from
    }
}

/// The last position in `[lo, hi)` that holds `c`.
pub open spec fn last_index_in(s: Seq<char>, c: char, lo: int, hi: int) -> Option<int>
    decreases hi - lo,
{
    if hi <= lo {
        None
    } else if s[hi - 1] == c {
        Some(hi - 1)
    } else {
        last_index_in(s, c, lo, hi - 1)
    }
}

/// The port text written in a URL: the scheme ends at the first colon, the
/// authority follows the slashes after it and runs to the next `/`, `\`,
/// `?` or `#`; user information ends at its last `@`; the port follows the
/// last colon of the rest, unless that colon lies inside `[...]`.
pub open spec fn written_port_text(s: Seq<char>) -> Seq<char> {
    match first_index(s, ':', 0) {
        None => Seq::<char>::empty(),
        Some(k) => {
            let a0 = skip_slashes(s, k + 1);
            let b = authority_end(s, a0);
            let a = match last_index_in(s, '@', a0, b) {
                Some(j) => j + 1,
                None => a0,
            };
            match last_index_in(s, ':', a, b) {
                None => Seq::<char>::empty(),
                Some(c) => if last_index_in(s, ']', a, b) matches Some(r) && r > c {
                    Seq::<char>::empty()
                } else {
                    s.subrange(c + 1, b)
                },
            }
        },
    }
}

/// Whether the URL text writes a port: its port text holds a digit.
pub open spec fn port_written(s: Seq<char>) -> bool {
    exists|i: int| 0 <= i < written_port_text(s).len() && is_digit(#[trigger] written_port_text(s)[i])
}

fn find_char(cs: &Vec<char>, c: char) -> (r: Option<usize>)
    ensures
        match first_index(cs@, c, 0) {
            Some(k) => r == Some(k as usize),
            None => r is None,
        },
{
    let mut i: usize = 0;
    while i < cs.len()
        invariant
            i <= cs@.len(),
            first_index(cs@, c, 0) == first_index(cs@, c, i as int),
        decreases cs.len() - i,
    {
        if cs[i] == c {
            return Some(i);
        }
        i = i + 1;
    }
    None
}

fn skip_slashes_exec(cs: &Vec<char>, from: usize) -> (r: usize)
    requires
        from <= cs@.len(),
    ensures
        r == skip_slashes(cs@, from as int),
        from <= r <= cs@.len(),
{
    let mut i = from;
    while i < cs.len() && (cs[i] == '/' || cs[i] == '\\')
        invariant
            from <= i <= cs@.len(),
            skip_slashes(cs@, from as int) == skip_slashes(cs@, i as int),
        decreases cs.len() - i,
    {
        i = i + 1;
    }
    i
}

fn authority_end_exec(cs: &Vec<char>, from: usize) -> (r: usize)
    requires
        from <= cs@.len(),
    ensures
        r == authority_end(cs@, from as int),
        from <= r <= cs@.len(),
{
    let mut i = from;
    while i < cs.len() && !(cs[i] == '/' || cs[i] == '\\' || cs[i] == '?' || cs[i] == '#')
        invariant
            from <= i <= cs@.len(),
            authority_end(cs@, from as int) == authority_end(cs@, i as int),
        decreases cs.len() - i,
    {
        i = i + 1;
    }
    i
}

fn last_index_exec(cs: &Vec<char>, c: char, lo: usize, hi: usize) -> (r: Option<usize>)
    requires
        lo <= hi <= cs@.len(),
    ensures
        match last_index_in(cs@, c, lo as int, hi as int) {
            Some(k) => r == Some(k as usize) && lo <= k < hi,
            None => r is None,
        },
{
    let mut j = hi;
    while j > lo
        invariant
            lo <= j <= hi <= cs@.len(),
            last_index_in(cs@, c, lo as int, hi as int) == last_index_in(cs@, c, lo as int, j as int),
            forall|k: int| j <= k < hi ==> cs@[k] != c,
        decreases j,
    {
        if cs[j - 1] == c {
            return Some(j - 1);
        }
        j = j - 1;
    }
    None
}

proof fn lemma_last_index_range(s: Seq<char>, c: char, lo: int, hi: int)
    requires
        lo <= hi,
    ensures
        last_index_in(s, c, lo, hi) matches Some(k) ==> lo <= k < hi && s[k] == c,
    decreases hi - lo,
{
    if hi > lo && s[hi - 1] != c {
        lemma_last_index_range(s, c, lo, hi - 1);
    }
}

proof fn lemma_first_index_range(s: Seq<char>, c: char, from: int)
    ensures
        first_index(s, c, from) matches Some(k) ==> 0 <= from <= k < s.len(),
    decreases s.len() - from,
{
    if 0 <= from < s.len() && s[from] != c {
        lemma_first_index_range(s, c, from + 1);
    }
}

/// Whether the URL text writes a port.
pub fn url_port_written(s: &str) -> (b: bool)
    ensures
        b == port_written(s@),
{
    let cs = chars_of(s);
    let ghost t = written_port_text(s@);
    proof {
        lemma_first_index_range(s@, ':', 0);
    }
    let k = match find_char(&cs, ':') {
        None => {
            assert(t.len() == 0);
            return false;
        },
        Some(k) => k,
    };
    let a0 = skip_slashes_exec(&cs, k + 1);
    let b = authority_end_exec(&cs, a0);
    proof {
        lemma_last_index_range(s@, '@', a0 as int, b as int);
    }
    let a = match last_index_exec(&cs, '@', a0, b) {
        Some(j) => j + 1,
        None => a0,
    };
    proof {
        lemma_last_index_range(s@, ':', a as int, b as int);
        lemma_last_index_range(s@, ']', a as int, b as int);
    }
    let c = match last_index_exec(&cs, ':', a, b) {
        None => {
            assert(t.len() == 0);
            return false;
        },
        Some(c) => c,
    };
    match last_index_exec(&cs, ']', a, b) {
        Some(r) => {
            if r > c {
                assert(t.len() == 0);
                return false;
            }
        },
        None => {},
    }
    assert(t =~= s@.subrange(c + 1, b as int));
    let mut i = c + 1;
    while i < b
        invariant
            c + 1 <= i <= b <= cs@.len(),
            cs@ == s@,
            t == s@.subrange(c + 1, b as int),
            t == written_port_text(s@),
            forall|m: int| c + 1 <= m < i ==> !is_digit(s@[m]),
        decreases b - i,
    {
        if '0' <= cs[i] && cs[i] <= '9' {
            assert(is_digit(t[i - (c + 1)]));
            assert(is_digit(written_port_text(s@)[i - (c + 1)]));
            return true;
        }
        i = i + 1;
    }
    assert forall|m: int| 0 <= m < t.len() implies !is_digit(#[trigger] t[m]) by {
        assert(t[m] == s@[m + c + 1]);
    }
    false
}

} // verus!
