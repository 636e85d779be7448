use vstd::prelude::*;

verus! {

/// The parts of an absolute URL that source resolution reads.
pub struct SourceUrl {
    /// The host, when it is a domain name (not an IP address).
    pub domain: Option<String>,
    /// The percent-encoded path, starting with `/` unless the URL cannot be a base.
    pub path: String,
}

/// The domain and path of the URL that `text` parses to, if it parses.
pub uninterp spec fn parsed_url(text: Seq<char>) -> Option<(Option<Seq<char>>, Seq<char>)>;

/// The view of an optional string.
pub open spec fn opt_view(o: Option<String>) -> Option<Seq<char>> {
    match o {
        Some(s) => Some(s@),
        None => None,
    }
}

/// Relies on `url::Url::parse`, with `Url::domain` and `Url::path` on its result.
#[verifier::external_body]
fn parse_url(text: &str) -> (r: Option<SourceUrl>)
    ensures
        match r {
            Some(u) => parsed_url(text@) == Some((opt_view(u.domain), u.path@)),
            None => parsed_url(text@) is None,
        },
{
    match url::Url::parse(text) {
        Ok(u) => Some(SourceUrl { domain: u.domain().map(String::from), path: u.path().to_string() }),
        Err(_) => None,
    }
}

impl SourceUrl {
    /// Parses an absolute URL; `None` when `text` is not one.
    pub fn parse(text: &str) -> (r: Option<SourceUrl>)
        ensures
            match r {
                Some(u) => parsed_url(text@) == Some((opt_view(u.domain), u.path@)),
                None => parsed_url(text@) is None,
            },
    {
        parse_url(text)
    }
}

/// Whether `a` and `b` hold the same characters.
pub fn same_text(a: &str, b: &str) -> (r: bool)
    ensures
        r == (a@ == b@),
{
    let n = a.unicode_len();
    if n != b.unicode_len() {
        return false;
    }
    let mut i: usize = 0;
    while i < n
        invariant
            i <= n,
            n == a@.len(),
            n == b@.len(),
            forall|j: int| 0 <= j < i ==> a@[j] == b@[j],
        decreases n - i,
    {
        if a.get_char(i) != b.get_char(i) {
            return false;
        }
        i = i + 1;
    }
    assert(a@ =~= b@);
    true
}

/// Whether `s` begins with `p`.
pub open spec fn starts_with(s: Seq<char>, p: Seq<char>) -> bool {
    p.len() <= s.len() && s.subrange(0, p.len() as int) == p
}

/// Whether `s` begins with `prefix`.
pub fn has_prefix(s: &str, prefix: &str) -> (r: bool)
    ensures
        r == starts_with(s@, prefix@),
{
    let n = s.unicode_len();
    let m = prefix.unicode_len();
    if m > n {
        return false;
    }
    let mut i: usize = 0;
    while i < m
        invariant
            i <= m,
            m <= n,
            n == s@.len(),
            m == prefix@.len(),
            forall|j: int| 0 <= j < i ==> s@[j] == prefix@[j],
        decreases m - i,
    {
        if s.get_char(i) != prefix.get_char(i) {
            assert(s@.subrange(0, m as int)[i as int] != prefix@[i as int]);
            return false;
        }
        i = i + 1;
    }
    assert(s@.subrange(0, m as int) =~= prefix@);
    true
}

/// Whether `p` holds a `/` at position `i`.
pub open spec fn slash_at(p: Seq<char>, i: int) -> bool {
    0 <= i < p.len() && p[i] == '/'
}

/// The last `/`-separated segment of a path, which must start with `/`;
/// none for a path that does not (a URL that cannot be a base).
pub open spec fn last_segment_of(p: Seq<char>) -> Option<Seq<char>> {
    if p.len() > 0 && p[0] == '/' {
        let i = choose|i: int| slash_at(p, i) && forall|j: int| j > i ==> !slash_at(p, j);
        Some(p.subrange(i + 1, p.len() as int))
    } else {
        None
    }
}

/// The last segment of a path: the text after its last `/`.
pub fn last_segment(path: &str) -> (r: Option<String>)
    ensures
        opt_view(r) == last_segment_of(path@),
{
    let n = path.unicode_len();
    if n == 0 || path.get_char(0) != '/' {
        return None;
    }
    let mut i: usize = n;
    while i > 0
        invariant
            i <= n,
            n == path@.len(),
            n > 0,
            path@[0] == '/',
            forall|j: int| j >= i ==> !slash_at(path@, j),
        decreases i,
    {
        i = i - 1;
        if path.get_char(i) == '/' {
            let rest = path.substring_char(i + 1, n);
            let ghost p = path@;
            proof {
                let c = choose|c: int| slash_at(p, c) && forall|j: int| j > c ==> !slash_at(p, j);
                assert(slash_at(p, i as int) && forall|j: int| j > i ==> !slash_at(p, j));
                // The chosen position is the last one: neither before nor after it.
                if c < i {
                } else if c > i {
                }
                assert(c == i);
            }
            return Some(String::from_str(rest));
        }
    }
    assert(slash_at(path@, 0));
    None
}

} // verus!
