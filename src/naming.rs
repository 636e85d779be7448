use vstd::prelude::*;

verus! {

/// The marker that precedes a suggested filename in a disposition header.
pub open spec fn filename_marker() -> Seq<char> {
    seq!['f', 'i', 'l', 'e', 'n', 'a', 'm', 'e', '=']
}

/// Whether the marker occurs in `s` starting at position `i`.
pub open spec fn marker_at(s: Seq<char>, i: int) -> bool {
    0 <= i && i + filename_marker().len() <= s.len() && s.subrange(i, i + filename_marker().len())
        == filename_marker()
}

/// The filename suggested by a disposition header value: the text that follows
/// the last occurrence of the marker, taken verbatim; none without a marker.
pub open spec fn suggested_filename_of(s: Seq<char>) -> Option<Seq<char>> {
    if exists|i: int| marker_at(s, i) {
        let i = choose|i: int| marker_at(s, i) && forall|j: int| j > i ==> !marker_at(s, j);
        Some(s.subrange(i + filename_marker().len(), s.len() as int))
    } else {
        None
    }
}

/// Whether the marker occurs in `s` at position `i`.
fn has_marker_at(s: &str, i: usize) -> (r: bool)
    requires
        i + 9 <= s@.len(),
        i + 9 <= usize::MAX,
    ensures
        r == marker_at(s@, i as int),
{
    let m = "filename=";
    proof {
        reveal_strlit("filename=");
        assert(m@ == filename_marker());
    }
    let mut k: usize = 0;
    while k < 9
        invariant
            k <= 9,
            i + 9 <= s@.len(),
            i + 9 <= usize::MAX,
            m@ == filename_marker(),
            forall|t: int| 0 <= t < k ==> s@[i + t] == m@[t],
        decreases 9 - k,
    {
        if s.get_char(i + k) != m.get_char(k) {
            proof {
                assert(s@.subrange(i as int, i + 9)[k as int] != filename_marker()[k as int]);
            }
            return false;
        }
        k = k + 1;
    }
    assert(s@.subrange(i as int, i + 9) =~= filename_marker());
    true
}

/// Naming metadata attached to a fetched item: where it came from, and the
/// filename that the response suggested, if any.
pub struct NamingContext {
    pub url: String,
    pub disposition: Option<String>,
}

/// The filename suggested by a disposition header value, if it holds the marker.
pub fn suggested_filename(header: &str) -> (r: Option<String>)
    ensures
        match (r, suggested_filename_of(header@)) {
            (Some(f), Some(g)) => f@ == g,
            (None, None) => true,
            _ => false,
        },
{
    let n = header.unicode_len();
    if n < 9 {
        assert forall|i: int| !marker_at(header@, i) by {}
        return None;
    }
    let mut i: usize = n - 9 + 1;
    while i > 0
        invariant
            i <= n - 9 + 1,
            n == header@.len(),
            n >= 9,
            forall|j: int| j >= i ==> !marker_at(header@, j),
        decreases i,
    {
        i = i - 1;
        if has_marker_at(header, i) {
            let rest = header.substring_char(i + 9, n);
            let ghost s = header@;
            proof {
                let c = choose|c: int| marker_at(s, c) && forall|j: int| j > c ==> !marker_at(s, j);
                assert(marker_at(s, i as int) && forall|j: int| j > i ==> !marker_at(s, j));
                // The chosen position is the last one: neither before nor after it.
                if c < i {
                } else if c > i {
                }
                assert(c == i);
            }
            return Some(String::from_str(rest));
        }
    }
    assert forall|j: int| !marker_at(header@, j) by {
        if j < 0 {
        }
    }
    None
}

impl NamingContext {
    /// The naming context of an item fetched from `url`, given the value of the
    /// response's disposition header, if it had one.
    pub fn new(url: String, header: Option<&str>) -> (r: NamingContext)
        ensures
            r.url@ == url@,
            match header {
                Some(h) => match (r.disposition, suggested_filename_of(h@)) {
                    (Some(f), Some(g)) => f@ == g,
                    (None, None) => true,
                    _ => false,
                },
                None => r.disposition is None,
            },
    {
        let disposition = match header {
            Some(h) => suggested_filename(h),
            None => None,
        };
        NamingContext { url, disposition }
    }
}

/// A header made of any text, the marker, and a name that holds no marker
/// suggests exactly that name.
pub proof fn lemma_filename_after_marker(prefix: Seq<char>, name: Seq<char>)
    requires
        forall|i: int| !marker_at(name, i),
    ensures
        suggested_filename_of(prefix + filename_marker() + name) == Some(name),
{
    let m = filename_marker();
    let s = prefix + m + name;
    let p = prefix.len() as int;
    assert(m.len() == 9);
    assert(forall|k: int| 1 <= k < 9 ==> m[k] != 'f') by {
        assert(m[1] == 'i' && m[2] == 'l' && m[3] == 'e' && m[4] == 'n');
        assert(m[5] == 'a' && m[6] == 'm' && m[7] == 'e' && m[8] == '=');
    }
    assert(s.subrange(p, p + 9) =~= m);
    assert forall|j: int| j > p implies !marker_at(s, j) by {
        if marker_at(s, j) {
            lemma_no_marker_past(prefix, name, j);
        }
    }
    let c = choose|c: int| marker_at(s, c) && forall|j: int| j > c ==> !marker_at(s, j);
    assert(marker_at(s, p));
    // The chosen position is the last one: neither before nor after it.
    if c < p {
    } else if c > p {
    }
    assert(c == p);
    assert(s.subrange(p + 9, s.len() as int) =~= name);
}

proof fn lemma_no_marker_past(prefix: Seq<char>, name: Seq<char>, j: int)
    requires
        forall|i: int| !marker_at(name, i),
        forall|k: int| 1 <= k < 9 ==> filename_marker()[k] != 'f',
        j > prefix.len(),
    ensures
        !marker_at(prefix + filename_marker() + name, j),
{
    let m = filename_marker();
    let s = prefix + m + name;
    let p = prefix.len() as int;
    if marker_at(s, j) {
        let w = s.subrange(j, j + 9);
        if j < p + 9 {
            assert(w[0] == s[j]);
            assert(s[j] == m[j - p]);
            assert(m[0] == 'f');
        } else {
            assert(name.subrange(j - p - 9, j - p) =~= w);
            assert(marker_at(name, j - p - 9));
        }
    }
}

} // verus!
