//! The traversal engine.
//!
//! Resolution starts from a single page URL: the root page and its
//! companion scenarios page are fetched and parsed, then the root's
//! dependency links are expanded breadth-first, level by level, up to a
//! caller-chosen depth. A URL once visited is never fetched again, an
//! identifier once recorded is never recorded again, and a failure on a
//! dependency page is recorded as a soft error without stopping the
//! traversal. Failures on the root page, the scenarios page, or a root URL
//! without an identifier abort the whole call.

use vstd::prelude::*;
use crate::chars::str_eq;
use crate::dedup::lemma_dedup_first_no_duplicates;
use crate::ids::extract_id_from_url_spec;
use crate::ids::extract_workshop_id_from_url;
use crate::page::parse_root_page;
use crate::page::parsed_dep_urls;
use crate::page::parsed_root_id;
use crate::scenarios::parse_scenarios_page;
use crate::urls::workshop_base_url;

verus! {

broadcast use vstd::string::group_string_axioms;

/// A resolution request: the root URL and the optional traversal depth.
#[derive(Clone, Debug)]
pub struct WorkshopResolveRequest {
    pub url: String,
    pub max_depth: Option<usize>,
}

impl WorkshopResolveRequest {
    /// The depth to traverse to: the requested depth, or five levels when
    /// the request leaves it out.
    pub fn effective_max_depth(&self) -> (r: usize)
        ensures
            r == (match self.max_depth {
                Some(d) => d,
                None => 5usize,
            }),
    {
        match self.max_depth {
            Some(d) => d,
            None => 5,
        }
    }
}

/// The outcome of a successful resolution.
#[derive(Clone, Debug)]
pub struct WorkshopResolveResult {
    pub root_id: String,
    pub root_url: String,
    pub scenarios: Vec<String>,
    pub dependency_ids: Vec<String>,
    pub errors: Vec<String>,
}

/// A call-level failure: the whole resolution aborts with one of these,
/// and no partial result is returned.
#[derive(Clone, Debug)]
pub enum ResolveError {
    /// The supplied root URL holds no extractable identifier.
    UrlFormat,
    /// The root page or the scenarios page could not be fetched.
    Fetch { url: String, cause: String },
    /// The root page did not yield an identifier.
    Parse { url: String, cause: String },
}

impl ResolveError {
    /// The failure as the human-readable text the caller reports.
    pub fn message(&self) -> (r: String)
        ensures
            match self {
                ResolveError::UrlFormat => r@ == ("failed to extract workshop id from url")@,
                ResolveError::Fetch { cause, .. } => r@ == cause@,
                ResolveError::Parse { cause, .. } => r@ == cause@,
            },
    {
        match self {
            ResolveError::UrlFormat => "failed to extract workshop id from url".to_owned(),
            ResolveError::Fetch { cause, .. } => cause.clone(),
            ResolveError::Parse { cause, .. } => cause.clone(),
        }
    }
}

/// The fetch capability the resolver is built around: retrieves the raw
/// text body of a URL, or fails with a reason. Supplied by the caller;
/// the resolver depends on nothing about its behaviour.
pub trait WorkshopFetcher {
    fn fetch_html(&self, url: &str) -> Result<String, String>;
}

/// The views of a vector of strings.
pub open spec fn str_views(v: Vec<String>) -> Seq<Seq<char>> {
    v@.map_values(|x: String| x@)
}

/// No two positions of `s` hold the same element.
pub open spec fn seq_no_dups(s: Seq<Seq<char>>) -> bool {
    forall|i: int, j: int| 0 <= i < j < s.len() ==> s[i] != s[j]
}

/// The running state of one resolution: the root identifier, every
/// identifier and URL seen so far, and the output lists under
/// construction.
pub struct ResolveState {
    pub root_id: String,
    pub visited_ids: Vec<String>,
    pub visited_urls: Vec<String>,
    pub dependency_ids: Vec<String>,
    pub errors: Vec<String>,
}

/// Well-formedness of the running state: the root identifier is among the
/// visited identifiers, every recorded dependency identifier is visited,
/// none equals the root identifier, and no identifier is recorded twice.
pub open spec fn state_wf(st: ResolveState) -> bool {
    &&& str_views(st.visited_ids).contains(st.root_id@)
    &&& forall|i: int|
        0 <= i < st.dependency_ids@.len() ==> str_views(st.visited_ids).contains(
            #[trigger] str_views(st.dependency_ids)[i],
        )
    &&& forall|i: int|
        0 <= i < st.dependency_ids@.len() ==> #[trigger] str_views(st.dependency_ids)[i]
            != st.root_id@
    &&& seq_no_dups(str_views(st.dependency_ids))
}

/// The state a resolution starts from: the root identifier and the root
/// URL are already visited, and every output list is empty.
pub fn initial_resolve_state(root_id: String, root_url: String) -> (st: ResolveState)
    ensures
        state_wf(st),
        st.root_id == root_id,
        st.dependency_ids@.len() == 0,
        st.errors@.len() == 0,
        str_views(st.visited_urls) == seq![root_url@],
{
    let mut visited_ids: Vec<String> = Vec::new();
    visited_ids.push(root_id.clone());
    let mut visited_urls: Vec<String> = Vec::new();
    visited_urls.push(root_url);
    let st = ResolveState {
        root_id,
        visited_ids,
        visited_urls,
        dependency_ids: Vec::new(),
        errors: Vec::new(),
    };
    proof {
        assert(str_views(st.visited_ids) =~= seq![st.root_id@]);
        assert(str_views(st.visited_ids)[0] == st.root_id@);
        assert(str_views(st.visited_ids).contains(st.root_id@));
        assert(str_views(st.visited_urls) =~= seq![root_url@]);
        assert(str_views(st.dependency_ids) =~= Seq::<Seq<char>>::empty());
    }
    st
}

/// Whether the list holds a string equal to `x`.
pub fn contains_string(v: &Vec<String>, x: &str) -> (r: bool)
    ensures
        r == str_views(*v).contains(x@),
{
    let n = v.len();
    let mut k: usize = 0;
    while k < n
        invariant
            n == v.len(),
            k <= n,
            forall|t: int| 0 <= t < k ==> (#[trigger] v@[t])@ != x@,
        decreases n - k,
    {
        if str_eq(v[k].as_str(), x) {
            proof {
                assert(str_views(*v)[k as int] == x@);
            }
            return true;
        }
        k += 1;
    }
    proof {
        if str_views(*v).contains(x@) {
            let t = choose|t: int| 0 <= t < str_views(*v).len() && str_views(*v)[t] == x@;
            assert(v@[t]@ == x@);
            assert(false);
        }
    }
    false
}

fn fetch_error_message(url: &str, cause: &str) -> (r: String)
    ensures
        r@ == ("failed to fetch dependency ")@ + url@ + (": ")@ + cause@,
{
    let mut s = "failed to fetch dependency ".to_owned();
    s.append(url);
    s.append(": ");
    s.append(cause);
    s
}

fn parse_error_message(url: &str, cause: &str) -> (r: String)
    ensures
        r@ == ("failed to parse dependency ")@ + url@ + (": ")@ + cause@,
{
    let mut s = "failed to parse dependency ".to_owned();
    s.append(url);
    s.append(": ");
    s.append(cause);
    s
}

/// Appends every URL of `urls` that is not yet in `visited` to
/// `next_frontier`, in order.
fn push_unvisited(next_frontier: &mut Vec<String>, urls: &Vec<String>, visited: &Vec<String>)
    ensures
        str_views(*final(next_frontier)) == str_views(*old(next_frontier)) + str_views(
            *urls,
        ).filter(|u: Seq<char>| !str_views(*visited).contains(u)),
{
    let ghost pred = |u: Seq<char>| !str_views(*visited).contains(u);
    let ghost base = str_views(*old(next_frontier));
    let n = urls.len();
    let mut k: usize = 0;
    while k < n
        invariant
            n == urls.len(),
            k <= n,
            base == str_views(*old(next_frontier)),
            pred == (|u: Seq<char>| !str_views(*visited).contains(u)),
            str_views(*next_frontier) == base + str_views(*urls).take(k as int).filter(pred),
        decreases n - k,
    {
        let ghost views = str_views(*urls);
        let ghost before = str_views(*next_frontier);
        if !contains_string(visited, urls[k].as_str()) {
            next_frontier.push(urls[k].clone());
            proof {
                assert(str_views(*next_frontier) =~= before.push(views[k as int]));
            }
        }
        proof {
            reveal(Seq::filter);
            let t1 = views.take(k as int + 1);
            assert(t1.drop_last() =~= views.take(k as int));
            assert(t1.last() == views[k as int]);
            assert(t1.len() == k as int + 1);
            assert(t1.drop_last().filter(pred) == views.take(k as int).filter(pred));
            if pred(views[k as int]) {
                assert(t1.filter(pred) == views.take(k as int).filter(pred).push(
                    views[k as int],
                ));
                assert(base + t1.filter(pred) =~= (base + views.take(k as int).filter(
                    pred,
                )).push(views[k as int]));
            } else {
                assert(t1.filter(pred) == views.take(k as int).filter(pred));
            }
        }
        k += 1;
    }
    proof {
        assert(str_views(*urls).take(n as int) =~= str_views(*urls));
    }
}


/// Folds the outcome of one dependency node's fetch into the state.
///
/// A fetch failure appends exactly one error entry and changes nothing
/// else. A fetched page that yields no identifier appends exactly one
/// error entry and changes nothing else. A parsed page records its
/// identifier unless an equal one was recorded or is the root's, and,
/// when `expand` allows it, appends the page's not-yet-visited dependency
/// URLs to `next_frontier`. The node contributes nothing to the
/// dependency list on any failure.
pub fn apply_fetch_outcome(
    st: &mut ResolveState,
    node_url: &str,
    outcome: Result<String, String>,
    origin: &str,
    expand: bool,
    next_frontier: &mut Vec<String>,
)
    requires
        state_wf(*old(st)),
    ensures
        state_wf(*final(st)),
        final(st).root_id == old(st).root_id,
        final(st).visited_urls == old(st).visited_urls,
        match outcome {
            Err(cause) => {
                &&& str_views(final(st).errors) == str_views(old(st).errors).push(
                    ("failed to fetch dependency ")@ + node_url@ + (": ")@ + cause@,
                )
                &&& final(st).dependency_ids == old(st).dependency_ids
                &&& final(st).visited_ids == old(st).visited_ids
                &&& *final(next_frontier) == *old(next_frontier)
            },
            Ok(html) => match parsed_root_id(html@, extract_id_from_url_spec(node_url@)) {
                None => {
                    &&& str_views(final(st).errors) == str_views(old(st).errors).push(
                        ("failed to parse dependency ")@ + node_url@ + (": ")@ + (
                        "workshop id not found")@,
                    )
                    &&& final(st).dependency_ids == old(st).dependency_ids
                    &&& final(st).visited_ids == old(st).visited_ids
                    &&& *final(next_frontier) == *old(next_frontier)
                },
                Some(id) => {
                    &&& final(st).errors == old(st).errors
                    &&& (if str_views(old(st).visited_ids).contains(id) {
                        final(st).dependency_ids == old(st).dependency_ids && final(st).visited_ids
                            == old(st).visited_ids
                    } else {
                        str_views(final(st).dependency_ids) == str_views(
                            old(st).dependency_ids,
                        ).push(id) && str_views(final(st).visited_ids) == str_views(
                            old(st).visited_ids,
                        ).push(id)
                    })
                    &&& (!expand ==> *final(next_frontier) == *old(next_frontier))
                    &&& (expand ==> str_views(*final(next_frontier)) == str_views(
                        *old(next_frontier),
                    ) + parsed_dep_urls(html@, origin@).filter(
                        |u: Seq<char>| !str_views(old(st).visited_urls).contains(u),
                    ))
                },
            },
        },
{
    let html = match outcome {
        Ok(html) => html,
        Err(cause) => {
            let msg = fetch_error_message(node_url, cause.as_str());
            let ghost before = str_views(st.errors);
            st.errors.push(msg);
            proof {
                assert(str_views(st.errors) =~= before.push(
                    ("failed to fetch dependency ")@ + node_url@ + (": ")@ + cause@,
                ));
            }
            return ;
        },
    };
    let hint = extract_workshop_id_from_url(node_url);
    let hint_ref = match &hint {
        Some(h) => Some(h.as_str()),
        None => None,
    };
    let page = match parse_root_page(html.as_str(), hint_ref, origin) {
        Ok(page) => page,
        Err(cause) => {
            let msg = parse_error_message(node_url, cause.as_str());
            let ghost before = str_views(st.errors);
            st.errors.push(msg);
            proof {
                assert(str_views(st.errors) =~= before.push(
                    ("failed to parse dependency ")@ + node_url@ + (": ")@ + (
                    "workshop id not found")@,
                ));
            }
            return ;
        },
    };
    let ghost id = page.workshop_id@;
    if !contains_string(&st.visited_ids, page.workshop_id.as_str()) {
        let ghost vis_before = str_views(st.visited_ids);
        let ghost dep_before = str_views(st.dependency_ids);
        st.visited_ids.push(page.workshop_id.clone());
        st.dependency_ids.push(page.workshop_id.clone());
        proof {
            assert(str_views(st.visited_ids) =~= vis_before.push(id));
            assert(str_views(st.dependency_ids) =~= dep_before.push(id));
            assert(str_views(st.visited_ids).contains(st.root_id@)) by {
                let t = choose|t: int|
                    0 <= t < vis_before.len() && vis_before[t] == st.root_id@;
                assert(str_views(st.visited_ids)[t] == st.root_id@);
            };
            assert forall|i: int|
                0 <= i < st.dependency_ids@.len() implies str_views(st.visited_ids).contains(
                #[trigger] str_views(st.dependency_ids)[i],
            ) by {
                if i < dep_before.len() {
                    let t = choose|t: int|
                        0 <= t < vis_before.len() && vis_before[t] == dep_before[i];
                    assert(str_views(st.visited_ids)[t] == str_views(st.dependency_ids)[i]);
                } else {
                    assert(str_views(st.visited_ids).last() == id);
                }
            };
        }
    }
    if expand {
        push_unvisited(next_frontier, &page.dependency_urls, &st.visited_urls);
    }
}

/// The resolver: a fetch capability together with the origin that
/// relative dependency links are resolved against.
pub struct WorkshopResolver<F> {
    pub fetcher: F,
    pub origin: String,
}

impl<F: WorkshopFetcher> WorkshopResolver<F> {
    /// Builds a resolver over `fetcher` with the default platform
    /// origin.
    pub fn new(fetcher: F) -> (r: WorkshopResolver<F>)
        ensures
            r.origin@ == ("https://reforger.armaplatform.com")@,
    {
        WorkshopResolver { fetcher, origin: workshop_base_url().to_owned() }
    }

    /// Builds a resolver over `fetcher` that resolves relative links
    /// against `origin`.
    pub fn with_origin(fetcher: F, origin: String) -> (r: WorkshopResolver<F>)
        ensures
            r.origin == origin,
    {
        WorkshopResolver { fetcher, origin }
    }

    /// Resolves the transitive dependency graph of the item at `url`, to
    /// at most `max_depth` levels below the root.
    ///
    /// The identifier is taken from the URL; the root page and the
    /// scenarios companion page are then fetched and parsed, and the
    /// root's dependency links are expanded breadth-first. A result is
    /// returned whenever the root stage succeeds; failures on dependency
    /// pages are recorded in `errors` and never abort the call.
    pub fn resolve(&self, url: &str, max_depth: usize) -> (r: Result<
        WorkshopResolveResult,
        ResolveError,
    >)
        ensures
            match r {
                Ok(res) => {
                    &&& extract_id_from_url_spec(url@) == Some(res.root_id@)
                    &&& res.root_url@ == url@
                    &&& seq_no_dups(str_views(res.dependency_ids))
                    &&& forall|i: int|
                        0 <= i < res.dependency_ids@.len() ==> #[trigger] str_views(
                            res.dependency_ids,
                        )[i] != res.root_id@
                    &&& seq_no_dups(str_views(res.scenarios))
                    &&& max_depth == 0 ==> res.dependency_ids@.len() == 0 && res.errors@.len()
                        == 0
                },
                Err(e) => {
                    &&& (e is UrlFormat <==> extract_id_from_url_spec(url@) is None)
                },
            },
    {
        let root_id = match extract_workshop_id_from_url(url) {
            Some(id) => id,
            None => {
                return Err(ResolveError::UrlFormat);
            },
        };
        let root_html = match self.fetcher.fetch_html(url) {
            Ok(html) => html,
            Err(cause) => {
                return Err(ResolveError::Fetch { url: url.to_owned(), cause });
            },
        };
        let root_page = match parse_root_page(
            root_html.as_str(),
            Some(root_id.as_str()),
            self.origin.as_str(),
        ) {
            Ok(page) => page,
            Err(cause) => {
                return Err(ResolveError::Parse { url: url.to_owned(), cause });
            },
        };
        let mut scenarios_url = url.to_owned();
        scenarios_url.append("/scenarios");
        let scenarios_html = match self.fetcher.fetch_html(scenarios_url.as_str()) {
            Ok(html) => html,
            Err(cause) => {
                return Err(ResolveError::Fetch { url: scenarios_url, cause });
            },
        };
        let scenarios = parse_scenarios_page(scenarios_html.as_str());
        proof {
            lemma_dedup_first_no_duplicates(crate::scenarios::scenario_matches(scenarios_html@));
        }
        let mut st = initial_resolve_state(root_id, url.to_owned());
        if max_depth > 0 {
            let mut frontier = root_page.dependency_urls;
            let mut depth: usize = 1;
            loop
                invariant
                    state_wf(st),
                    extract_id_from_url_spec(url@) == Some(st.root_id@),
                    1 <= depth <= max_depth,
                ensures
                    state_wf(st),
                    extract_id_from_url_spec(url@) == Some(st.root_id@),
                decreases max_depth - depth,
            {
                if frontier.len() == 0 {
                    break ;
                }
                let mut next_frontier: Vec<String> = Vec::new();
                let n = frontier.len();
                let mut idx: usize = 0;
                while idx < n
                    invariant
                        state_wf(st),
                        extract_id_from_url_spec(url@) == Some(st.root_id@),
                        n == frontier.len(),
                        idx <= n,
                        depth <= max_depth,
                    decreases n - idx,
                {
                    if !contains_string(&st.visited_urls, frontier[idx].as_str()) {
                        st.visited_urls.push(frontier[idx].clone());
                        let outcome = self.fetcher.fetch_html(frontier[idx].as_str());
                        let expand = depth < max_depth;
                        apply_fetch_outcome(
                            &mut st,
                            frontier[idx].as_str(),
                            outcome,
                            self.origin.as_str(),
                            expand,
                            &mut next_frontier,
                        );
                    }
                    idx += 1;
                }
                frontier = next_frontier;
                if depth >= max_depth {
                    break ;
                }
                depth += 1;
            }
        }
        Ok(
            WorkshopResolveResult {
                root_id: st.root_id,
                root_url: url.to_owned(),
                scenarios,
                dependency_ids: st.dependency_ids,
                errors: st.errors,
            },
        )
    }
}

} // verus!
