//! Request dispatch: the path of a request URL, the route it selects, and the
//! `job_id` query parameter.
use vstd::prelude::*;
use vstd::string::*;
use crate::text::{concat, str_eq, starts_with};

verus! {

/// `e` is the first index at or after `from` where `s` holds `c1` or `c2`,
/// or the length of `s` when there is none.
pub open spec fn stops_at(s: Seq<char>, from: int, e: int, c1: char, c2: char) -> bool {
    &&& 0 <= from <= e <= s.len()
    &&& forall|j: int| from <= j < e ==> #[trigger] s[j] != c1 && s[j] != c2
    &&& e == s.len() || s[e] == c1 || s[e] == c2
}

/// The first index at or after `from` where `s` holds `c1` or `c2`, or the
/// length of `s`.
pub fn find_stop(s: &str, from: usize, c1: char, c2: char) -> (r: usize)
    requires
        from <= s@.len(),
    ensures
        stops_at(s@, from as int, r as int, c1, c2),
{
    let n = s.unicode_len();
    let mut i = from;
    while i < n
        invariant
            n == s@.len(),
            from <= i <= n,
            forall|j: int| from <= j < i ==> #[trigger] s@[j] != c1 && s@[j] != c2,
        decreases n - i,
    {
        let c = s.get_char(i);
        if c == c1 || c == c2 {
            return i;
        }
        i = i + 1;
    }
    i
}

/// The number of `/` characters in `s`.
pub open spec fn slash_count(s: Seq<char>) -> nat
    decreases s.len(),
{
    if s.len() == 0 {
        0
    } else {
        slash_count(s.drop_last()) + if s.last() == '/' { 1nat } else { 0nat }
    }
}

/// `k` is the position of the third `/` of `p`.
pub open spec fn is_third_slash(p: Seq<char>, k: int) -> bool {
    0 <= k < p.len() && p[k] == '/' && slash_count(p.subrange(0, k)) == 2
}

/// Whether `p` holds `://`.
pub open spec fn has_scheme(p: Seq<char>) -> bool {
    exists|i: int| 0 <= i && i + 3 <= p.len() && #[trigger] p.subrange(i, i + 3) == "://"@
}

/// The path named by `p`, a URL or path without query or fragment: for an
/// absolute URL what follows the host (`/` when nothing does), and
/// otherwise `p` with a leading `/`.
pub open spec fn path_from(p: Seq<char>, r: Seq<char>) -> bool {
    if has_scheme(p) {
        if exists|k: int| is_third_slash(p, k) {
            exists|k: int| is_third_slash(p, k) && r == "/"@ + p.subrange(k + 1, p.len() as int)
        } else {
            r == "/"@
        }
    } else if p.len() > 0 && p[0] == '/' {
        r == p
    } else {
        r == "/"@ + p
    }
}

/// Whether `p` holds `://`.
fn find_scheme(p: &str) -> (r: bool)
    ensures
        r == has_scheme(p@),
{
    proof {
        reveal_strlit("://");
    }
    let n = p.unicode_len();
    if n < 3 {
        return false;
    }
    let mut i: usize = 0;
    while i < n - 2
        invariant
            n == p@.len(),
            n >= 3,
            i <= n - 2,
            "://"@.len() == 3 && "://"@[0] == ':' && "://"@[1] == '/' && "://"@[2] == '/',
            forall|j: int| 0 <= j < i ==> #[trigger] p@.subrange(j, j + 3) != "://"@,
        decreases n - i,
    {
        if p.get_char(i) == ':' && p.get_char(i + 1) == '/' && p.get_char(i + 2) == '/' {
            assert(p@.subrange(i as int, i + 3) =~= "://"@);
            return true;
        }
        assert(p@.subrange(i as int, i + 3)[0] == p@[i as int]);
        assert(p@.subrange(i as int, i + 3)[1] == p@[i + 1]);
        assert(p@.subrange(i as int, i + 3)[2] == p@[i + 2]);
        i = i + 1;
    }
    false
}

/// The position of the third `/` of `p`, if it has three.
fn third_slash(p: &str) -> (r: Option<usize>)
    ensures
        r matches Some(k) ==> is_third_slash(p@, k as int),
        r is None ==> forall|k: int| !is_third_slash(p@, k),
{
    let n = p.unicode_len();
    let mut count: usize = 0;
    let mut i: usize = 0;
    while i < n
        invariant
            n == p@.len(),
            i <= n,
            count <= 2,
            count == slash_count(p@.subrange(0, i as int)),
            forall|k: int| 0 <= k < i ==> !is_third_slash(p@, k),
        decreases n - i,
    {
        assert(p@.subrange(0, i + 1).drop_last() =~= p@.subrange(0, i as int));
        if p.get_char(i) == '/' {
            if count == 2 {
                return Some(i);
            }
            count = count + 1;
        }
        i = i + 1;
    }
    None
}

/// `path` is the path of the request URL `url`.
pub open spec fn route_path(url: Seq<char>, path: Seq<char>) -> bool {
    exists|e: int| stops_at(url, 0, e, '?', '#') && path_from(url.subrange(0, e), path)
}

/// The path of a request URL: query and fragment dropped, the scheme and
/// host of an absolute URL dropped, and a leading `/` ensured.
pub fn request_path(url: &str) -> (r: String)
    ensures
        route_path(url@, r@),
{
    proof {
        reveal_strlit("/");
    }
    let e = find_stop(url, 0, '?', '#');
    let p = url.substring_char(0, e);
    if find_scheme(p) {
        match third_slash(p) {
            Some(k) => concat("/", p.substring_char(k + 1, p.unicode_len())),
            None => String::from_str("/"),
        }
    } else if p.unicode_len() > 0 && p.get_char(0) == '/' {
        String::from_str(p)
    } else {
        concat("/", p)
    }
}

/// What a request selects.
#[derive(Clone, Copy, Debug, PartialEq, Eq, Structural)]
pub enum Route {
    Health,
    Upload,
    Analyze,
    Status,
    NotFound,
    /// A known path asked with the wrong method.
    MethodNotAllowed,
}

/// The route selected by `method` on `path`. Every method on
/// `/api/analyze` goes to its handler, which answers the wrong ones itself.
pub open spec fn route_of(method: Seq<char>, path: Seq<char>) -> Route {
    if path == "/health"@ {
        if method == "GET"@ { Route::Health } else { Route::MethodNotAllowed }
    } else if path == "/upload"@ {
        if method == "POST"@ { Route::Upload } else { Route::MethodNotAllowed }
    } else if path == "/api/analyze"@ {
        Route::Analyze
    } else if path == "/api/status"@ {
        if method == "GET"@ { Route::Status } else { Route::MethodNotAllowed }
    } else {
        Route::NotFound
    }
}

/// Dispatches a request by method and path.
pub fn route(method: &str, path: &str) -> (r: Route)
    ensures
        r == route_of(method@, path@),
{
    if str_eq(path, "/health") {
        if str_eq(method, "GET") { Route::Health } else { Route::MethodNotAllowed }
    } else if str_eq(path, "/upload") {
        if str_eq(method, "POST") { Route::Upload } else { Route::MethodNotAllowed }
    } else if str_eq(path, "/api/analyze") {
        Route::Analyze
    } else if str_eq(path, "/api/status") {
        if str_eq(method, "GET") { Route::Status } else { Route::MethodNotAllowed }
    } else {
        Route::NotFound
    }
}

/// `a` starts a `&`-separated segment of `q` that begins with `job_id=`.
pub open spec fn is_job_param_at(q: Seq<char>, a: int) -> bool {
    &&& 0 <= a
    &&& a == 0 || q[a - 1] == '&'
    &&& a + 7 <= q.len()
    &&& q.subrange(a, a + 7) == "job_id="@
}

/// The `job_id` parameter of the query `q`: the first segment that begins
/// with `job_id=`, read up to its next `=` or its end.
pub open spec fn job_param_in(q: Seq<char>, r: Option<Seq<char>>) -> bool {
    match r {
        None => forall|a: int| !is_job_param_at(q, a),
        Some(v) => exists|a: int| {
            &&& #[trigger] is_job_param_at(q, a)
            &&& (forall|b: int| 0 <= b < a ==> !is_job_param_at(q, b))
            &&& exists|e: int| #[trigger] stops_at(q, a + 7, e, '=', '&') && v == q.subrange(a + 7, e)
        },
    }
}

/// The `job_id` parameter of `q`.
fn job_param(q: &str) -> (r: Option<String>)
    ensures
        job_param_in(q@, match r { Some(v) => Some(v@), None => None }),
{
    proof {
        reveal_strlit("job_id=");
    }
    let n = q.unicode_len();
    let mut a: usize = 0;
    while a < n && n - a >= 7
        invariant
            n == q@.len(),
            forall|b: int| 0 <= b < a ==> !is_job_param_at(q@, b),
        decreases n + 1 - a,
    {
        let at_start = a == 0 || q.get_char(a - 1) == '&';
        let rest = q.substring_char(a, n);
        let prefixed = starts_with(rest, "job_id=");
        proof {
            reveal_strlit("job_id=");
            assert(rest@.subrange(0, 7) =~= q@.subrange(a as int, a + 7));
        }
        if at_start && prefixed {
            let e = find_stop(q, a + 7, '=', '&');
            let v = String::from_str(q.substring_char(a + 7, e));
            proof {
                assert(is_job_param_at(q@, a as int));
                assert(stops_at(q@, a + 7, e as int, '=', '&') && v@ == q@.subrange(a + 7, e as int));
            }
            return Some(v);
        }
        a = a + 1;
    }
    None
}

/// `rv` is the `job_id` query parameter of the request URL `url`: `None`
/// when the URL has no query or the query no such parameter. The query runs
/// from the first `?` to the next `?` or the end.
pub open spec fn job_id_of(url: Seq<char>, rv: Option<Seq<char>>) -> bool {
    ||| (forall|j: int| 0 <= j < url.len() ==> url[j] != '?') && rv is None
    ||| exists|i: int| {
        &&& #[trigger] stops_at(url, 0, i, '?', '?')
        &&& i < url.len()
        &&& exists|e: int| #[trigger] stops_at(url, i + 1, e, '?', '?')
            && job_param_in(url.subrange(i + 1, e), rv)
    }
}

/// The `job_id` query parameter of a request URL.
pub fn job_id_param(url: &str) -> (r: Option<String>)
    ensures
        job_id_of(url@, match r { Some(v) => Some(v@), None => None }),
{
    let n = url.unicode_len();
    let i = find_stop(url, 0, '?', '?');
    if i == n {
        return None;
    }
    let e = find_stop(url, i + 1, '?', '?');
    job_param(url.substring_char(i + 1, e))
}

} // verus!
