//! Maps a request path to the MIME type of the file it names, keyed by
//! the extension of the path's final component.

use vstd::prelude::*;

verus! {

/// `d` is the position of the dot introducing the extension of `s`:
/// the last dot of the final path component, not at the component's
/// start (a name that begins with its only dot has no extension).
pub open spec fn is_ext_dot(s: Seq<char>, d: int) -> bool {
    &&& 0 <= d < s.len()
    &&& s[d] == '.'
    &&& forall|j: int| d < j < s.len() ==> s[j] != '.' && s[j] != '/'
    &&& d > 0
    &&& s[d - 1] != '/'
}

/// The extension of the final component of `s`, without its dot, or
/// `None` where that component has none.
pub open spec fn ext_of(s: Seq<char>) -> Option<Seq<char>> {
    if exists|d: int| is_ext_dot(s, d) {
        let d = choose|d: int| is_ext_dot(s, d);
        Some(s.subrange(d + 1, s.len() as int))
    } else {
        None
    }
}

/// The content type served for a path with extension `ext`: the fixed
/// extension table, `text/plain; charset=utf8` for an unknown extension,
/// and plain `text/plain` for no extension at all.
pub open spec fn mime_of(ext: Option<Seq<char>>) -> Seq<char> {
    match ext {
        None => "text/plain"@,
        Some(e) => if e == "css"@ {
            "text/css"@
        } else if e == "js"@ {
            "application/javascript"@
        } else if e == "json"@ {
            "application/json"@
        } else if e == "svg"@ {
            "image/svg+xml"@
        } else if e == "gif"@ {
            "image/gif"@
        } else if e == "jpg"@ {
            "image/jpeg"@
        } else if e == "jpeg"@ {
            "image/jpeg"@
        } else if e == "png"@ {
            "image/png"@
        } else if e == "pdf"@ {
            "application/pdf"@
        } else if e == "htm"@ {
            "text/html; charset=utf8"@
        } else if e == "html"@ {
            "text/html; charset=utf8"@
        } else if e == "txt"@ {
            "text/plain; charset=utf8"@
        } else {
            "text/plain; charset=utf8"@
        },
    }
}

/// Character-for-character string comparison.
pub fn str_eq(a: &str, b: &str) -> (r: bool)
    ensures
        r == (a@ == b@),
{
    let an = a.unicode_len();
    let bn = b.unicode_len();
    if an != bn {
        assert(a@ != b@) by {
            assert(a@.len() != b@.len());
        }
        return false;
    }
    let mut i: usize = 0;
    while i < an
        invariant
            i <= an,
            an == a@.len(),
            an == b@.len(),
            forall|j: int| 0 <= j < i ==> a@[j] == b@[j],
        decreases an - i,
    {
        if a.get_char(i) != b.get_char(i) {
            return false;
        }
        i += 1;
    }
    proof {
        assert(a@ =~= b@);
    }
    true
}

/// Finds the extension dot of `path`, if any: the last `.` of the final
/// component, skipping a leading dot of that component.
fn find_ext_dot(path: &str) -> (r: Option<usize>)
    ensures
        match r {
            Some(d) => is_ext_dot(path@, d as int),
            None => forall|d: int| !is_ext_dot(path@, d),
        },
{
    let n = path.unicode_len();
    let mut i: usize = n;
    while i > 0
        invariant
            i <= n,
            n == path@.len(),
            forall|j: int| i <= j < n ==> path@[j] != '.' && path@[j] != '/',
        decreases i,
    {
        let c = path.get_char(i - 1);
        if c == '/' {
            assert forall|d: int| !is_ext_dot(path@, d) by {
                if 0 <= d < i - 1 {
                    assert(path@[i - 1] == '/');
                }
            }
            return None;
        }
        if c == '.' {
            if i - 1 == 0 || path.get_char(i - 2) == '/' {
                assert forall|d: int| !is_ext_dot(path@, d) by {
                    if 0 <= d < i - 1 {
                        assert(path@[i - 1] == '.');
                    }
                }
                return None;
            }
            return Some(i - 1);
        }
        i -= 1;
    }
    assert forall|d: int| !is_ext_dot(path@, d) by {
        if 0 <= d < n {
            assert(path@[d] != '.');
        }
    }
    None
}

/// Proves that the extension dot, where one exists, is the only one.
proof fn lemma_ext_dot_unique(s: Seq<char>, d1: int, d2: int)
    requires
        is_ext_dot(s, d1),
        is_ext_dot(s, d2),
    ensures
        d1 == d2,
{
    if d1 < d2 {
        assert(s[d2] != '.');
    }
    if d2 < d1 {
        assert(s[d1] != '.');
    }
}

/// Resolves the content type a file at `path` is served with, from the
/// extension of the path's final component.
pub fn get_content_type(path: &str) -> (r: &'static str)
    ensures
        r@ == mime_of(ext_of(path@)),
{
    let n = path.unicode_len();
    let dot = find_ext_dot(path);
    match dot {
        None => {
            assert(ext_of(path@) is None);
            "text/plain"
        },
        Some(d) => {
            proof {
                let dd = choose|dd: int| is_ext_dot(path@, dd);
                lemma_ext_dot_unique(path@, dd, d as int);
            }
            let ext = path.substring_char(d + 1, n);
            assert(ext_of(path@) == Some(ext@));
            if str_eq(ext, "css") {
                "text/css"
            } else if str_eq(ext, "js") {
                "application/javascript"
            } else if str_eq(ext, "json") {
                "application/json"
            } else if str_eq(ext, "svg") {
                "image/svg+xml"
            } else if str_eq(ext, "gif") {
                "image/gif"
            } else if str_eq(ext, "jpg") {
                "image/jpeg"
            } else if str_eq(ext, "jpeg") {
                "image/jpeg"
            } else if str_eq(ext, "png") {
                "image/png"
            } else if str_eq(ext, "pdf") {
                "application/pdf"
            } else if str_eq(ext, "htm") {
                "text/html; charset=utf8"
            } else if str_eq(ext, "html") {
                "text/html; charset=utf8"
            } else if str_eq(ext, "txt") {
                "text/plain; charset=utf8"
            } else {
                "text/plain; charset=utf8"
            }
        },
    }
}

} // verus!
