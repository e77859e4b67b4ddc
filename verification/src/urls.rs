//! Normalization of dependency links against the platform origin.
//!
//! A link that already carries a scheme passes through unchanged; an
//! absolute path is prefixed with the origin; anything else is joined as a
//! relative path under the origin. The origin is a configuration value of
//! the resolver, not a hardcoded literal.

use vstd::prelude::*;
use crate::chars::chars_of;
use crate::chars::has_prefix;

verus! {

broadcast use vstd::string::group_string_axioms;

/// `s` begins with the characters of `p`.
pub open spec fn starts_with_seq(s: Seq<char>, p: Seq<char>) -> bool {
    p.len() <= s.len() && s.subrange(0, p.len() as int) == p
}

/// What `normalize_dependency_url` returns for one link.
pub open spec fn normalize_url_spec(origin: Seq<char>, url: Seq<char>) -> Seq<char> {
    if starts_with_seq(url, ("http://")@) || starts_with_seq(url, ("https://")@) {
        url
    } else if url.len() > 0 && url[0] == '/' {
        origin + url
    } else {
        origin + ("/")@ + url
    }
}

/// The platform origin that relative dependency links are resolved
/// against when the resolver is built without an explicit origin.
pub fn workshop_base_url() -> (r: &'static str)
    ensures
        r@ == ("https://reforger.armaplatform.com")@,
{
    "https://reforger.armaplatform.com"
}

/// Resolves one dependency link against `origin`: a link with an `http://`
/// or `https://` scheme passes through unchanged, an absolute path gets the
/// origin prefixed, and any other link is joined under the origin with a
/// slash.
pub fn normalize_dependency_url(origin: &str, url: &str) -> (r: String)
    ensures
        r@ == normalize_url_spec(origin@, url@),
{
    let v = chars_of(url);
    let http = chars_of("http://");
    let https = chars_of("https://");
    if has_prefix(&v, &http) || has_prefix(&v, &https) {
        url.to_owned()
    } else if v.len() > 0 && v[0] == '/' {
        let mut s = origin.to_owned();
        s.append(url);
        s
    } else {
        let mut s = origin.to_owned();
        s.append("/");
        s.append(url);
        s
    }
}

/// Resolves every link of the list against `origin`, in order.
pub fn normalize_dependency_urls(origin: &str, urls: Vec<String>) -> (r: Vec<String>)
    ensures
        r@.map_values(|x: String| x@) == urls@.map_values(|x: String| x@).map_values(
            |u: Seq<char>| normalize_url_spec(origin@, u),
        ),
{
    let mut r: Vec<String> = Vec::new();
    let n = urls.len();
    let mut k: usize = 0;
    while k < n
        invariant
            n == urls.len(),
            k <= n,
            r@.map_values(|x: String| x@) == urls@.map_values(|x: String| x@).take(
                k as int,
            ).map_values(|u: Seq<char>| normalize_url_spec(origin@, u)),
        decreases n - k,
    {
        let ghost before = r@.map_values(|x: String| x@);
        let nu = normalize_dependency_url(origin, urls[k].as_str());
        r.push(nu);
        proof {
            let views = urls@.map_values(|x: String| x@);
            assert(r@.map_values(|x: String| x@) =~= before.push(
                normalize_url_spec(origin@, views[k as int]),
            ));
            assert(views.take(k as int + 1).map_values(
                |u: Seq<char>| normalize_url_spec(origin@, u),
            ) =~= views.take(k as int).map_values(|u: Seq<char>| normalize_url_spec(origin@, u))
                .push(normalize_url_spec(origin@, views[k as int])));
        }
        k += 1;
    }
    proof {
        assert(urls@.map_values(|x: String| x@).take(n as int) =~= urls@.map_values(
            |x: String| x@,
        ));
    }
    r
}

} // verus!
