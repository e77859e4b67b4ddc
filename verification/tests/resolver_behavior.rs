use workshop_resolver::resolve::ResolveError;
use workshop_resolver::resolve::WorkshopFetcher;
use workshop_resolver::resolve::WorkshopResolveRequest;
use workshop_resolver::resolve::WorkshopResolver;

const ROOT_URL: &str = "https://reforger.armaplatform.com/workshop/595F2BF2F44836FB-RHS-StatusQuo";
const DEP_A_URL: &str = "https://reforger.armaplatform.com/workshop/5AAAC70D754245DD-Some-Mod";
const DEP_B_URL: &str = "https://reforger.armaplatform.com/workshop/5C9758250C8C56F1-Other-Mod";
const DEP_C_URL: &str = "https://reforger.armaplatform.com/workshop/5DDD0000111122EE-Deep-Mod";

fn root_html() -> String {
    [
        "<html><body>",
        "<p>Version 1.0 ID 595F2BF2F44836FB build</p>",
        "<section><h2>Dependencies</h2>",
        "<a href=\"/workshop/5AAAC70D754245DD-Some-Mod\">Some Mod</a>",
        "<a href=\"/workshop/5C9758250C8C56F1-Other-Mod\">Other Mod</a>",
        "</section>",
        "</body></html>",
    ]
    .join("\n")
}

fn scenarios_page_html() -> String {
    [
        "<html><body>",
        "<p>Scenario ID</p>",
        "<pre>{C5EAD55037EB4751}Missions/RHS_CombatOps_MSV.conf</pre>",
        "<pre>{731B585620A3F461}Missions/Coop_CombatOps_Cain_Plus.conf</pre>",
        "</body></html>",
    ]
    .join("\n")
}

fn plain_page() -> String {
    "<html><body><p>A mod page with nothing else on it.</p></body></html>".to_string()
}

fn page_linking_to(url: &str) -> String {
    format!(
        "<html><body><section><h2>Dependencies</h2><a href=\"{url}\">next</a></section></body></html>"
    )
}

struct MockFetcher;

impl WorkshopFetcher for MockFetcher {
    fn fetch_html(&self, url: &str) -> Result<String, String> {
        if url == ROOT_URL {
            Ok(root_html())
        } else if url == format!("{ROOT_URL}/scenarios") {
            Ok(scenarios_page_html())
        } else if url == DEP_A_URL || url == DEP_B_URL {
            Ok(plain_page())
        } else {
            Err("unknown url".to_string())
        }
    }
}

#[test]
fn resolves_dependencies_recursively() {
    let resolver = WorkshopResolver::new(MockFetcher);
    let result = resolver.resolve(ROOT_URL, 2).expect("resolve failed");

    assert_eq!(result.root_id, "595F2BF2F44836FB");
    assert_eq!(result.scenarios.len(), 2);
    assert_eq!(result.dependency_ids.len(), 2);
    assert!(result.dependency_ids.contains(&"5AAAC70D754245DD".to_string()));
    assert!(result.dependency_ids.contains(&"5C9758250C8C56F1".to_string()));
}

#[test]
fn full_resolution_reports_no_errors() {
    let resolver = WorkshopResolver::new(MockFetcher);
    let result = resolver.resolve(ROOT_URL, 2).expect("resolve failed");

    assert_eq!(result.root_url, ROOT_URL);
    assert!(result.errors.is_empty());
    assert_eq!(
        result.scenarios,
        vec![
            "{C5EAD55037EB4751}Missions/RHS_CombatOps_MSV.conf".to_string(),
            "{731B585620A3F461}Missions/Coop_CombatOps_Cain_Plus.conf".to_string(),
        ]
    );
}

#[test]
fn depth_zero_skips_expansion() {
    let resolver = WorkshopResolver::new(MockFetcher);
    let result = resolver.resolve(ROOT_URL, 0).expect("resolve failed");

    assert_eq!(result.root_id, "595F2BF2F44836FB");
    assert!(result.dependency_ids.is_empty());
    assert!(result.errors.is_empty());
    assert_eq!(result.scenarios.len(), 2);
}

struct ChainFetcher;

impl WorkshopFetcher for ChainFetcher {
    fn fetch_html(&self, url: &str) -> Result<String, String> {
        if url == ROOT_URL {
            Ok(page_linking_to(DEP_A_URL))
        } else if url == format!("{ROOT_URL}/scenarios") {
            Ok(plain_page())
        } else if url == DEP_A_URL {
            Ok(page_linking_to(DEP_B_URL))
        } else if url == DEP_B_URL {
            Ok(page_linking_to(DEP_C_URL))
        } else {
            Err("fetched beyond the depth bound".to_string())
        }
    }
}

#[test]
fn depth_bound_stops_expansion() {
    let resolver = WorkshopResolver::new(ChainFetcher);
    let result = resolver.resolve(ROOT_URL, 2).expect("resolve failed");

    assert_eq!(
        result.dependency_ids,
        vec!["5AAAC70D754245DD".to_string(), "5C9758250C8C56F1".to_string()]
    );
    assert!(!result.dependency_ids.contains(&"5DDD0000111122EE".to_string()));
    assert!(result.errors.is_empty());
}

#[test]
fn no_scenario_marker_still_resolves_dependencies() {
    let resolver = WorkshopResolver::new(ChainFetcher);
    let result = resolver.resolve(ROOT_URL, 1).expect("resolve failed");

    assert!(result.scenarios.is_empty());
    assert_eq!(result.dependency_ids, vec!["5AAAC70D754245DD".to_string()]);
    assert!(result.errors.is_empty());
}

struct HalfBrokenFetcher;

impl WorkshopFetcher for HalfBrokenFetcher {
    fn fetch_html(&self, url: &str) -> Result<String, String> {
        if url == ROOT_URL {
            Ok(root_html())
        } else if url == format!("{ROOT_URL}/scenarios") {
            Ok(scenarios_page_html())
        } else if url == DEP_A_URL {
            Ok(plain_page())
        } else {
            Err("connection refused".to_string())
        }
    }
}

#[test]
fn fetch_failure_on_one_dependency_is_soft() {
    let resolver = WorkshopResolver::new(HalfBrokenFetcher);
    let result = resolver.resolve(ROOT_URL, 2).expect("resolve failed");

    assert_eq!(result.dependency_ids, vec!["5AAAC70D754245DD".to_string()]);
    assert_eq!(result.errors.len(), 1);
    assert_eq!(
        result.errors[0],
        format!("failed to fetch dependency {DEP_B_URL}: connection refused")
    );
}

#[test]
fn root_url_without_identifier_aborts() {
    let resolver = WorkshopResolver::new(MockFetcher);
    let err = resolver
        .resolve("https://reforger.armaplatform.com/about", 2)
        .expect_err("resolve should fail");
    assert!(matches!(err, ResolveError::UrlFormat));
    assert_eq!(err.message(), "failed to extract workshop id from url");
}

#[test]
fn root_fetch_failure_aborts() {
    struct NoFetcher;

    impl WorkshopFetcher for NoFetcher {
        fn fetch_html(&self, _url: &str) -> Result<String, String> {
            Err("offline".to_string())
        }
    }

    let resolver = WorkshopResolver::new(NoFetcher);
    let err = resolver.resolve(ROOT_URL, 2).expect_err("resolve should fail");
    match err {
        ResolveError::Fetch { url, cause } => {
            assert_eq!(url, ROOT_URL);
            assert_eq!(cause, "offline");
        }
        other => panic!("unexpected error: {:?}", other.message()),
    }
}

#[test]
fn blank_root_page_takes_id_from_url() {
    struct BlankFetcher;

    impl WorkshopFetcher for BlankFetcher {
        fn fetch_html(&self, _url: &str) -> Result<String, String> {
            Ok("<html><body>empty</body></html>".to_string())
        }
    }

    let resolver = WorkshopResolver::new(BlankFetcher);
    let result = resolver.resolve(ROOT_URL, 3).expect("resolve failed");
    assert_eq!(result.root_id, "595F2BF2F44836FB");
    assert!(result.dependency_ids.is_empty());
    assert!(result.scenarios.is_empty());
    assert!(result.errors.is_empty());
}

#[test]
fn scenarios_page_fetch_failure_aborts() {
    struct NoScenariosFetcher;

    impl WorkshopFetcher for NoScenariosFetcher {
        fn fetch_html(&self, url: &str) -> Result<String, String> {
            if url == ROOT_URL {
                Ok("<html><body><p>ID 595F2BF2F44836FB</p></body></html>".to_string())
            } else {
                Err("no such page".to_string())
            }
        }
    }

    let resolver = WorkshopResolver::new(NoScenariosFetcher);
    let err = resolver.resolve(ROOT_URL, 2).expect_err("resolve should fail");
    match err {
        ResolveError::Fetch { url, cause } => {
            assert_eq!(url, format!("{ROOT_URL}/scenarios"));
            assert_eq!(cause, "no such page");
        }
        other => panic!("unexpected error: {:?}", other.message()),
    }
}

#[test]
fn request_depth_defaults_to_five() {
    let with_depth = WorkshopResolveRequest {
        url: ROOT_URL.to_string(),
        max_depth: Some(2),
    };
    let without_depth = WorkshopResolveRequest {
        url: ROOT_URL.to_string(),
        max_depth: None,
    };
    assert_eq!(with_depth.effective_max_depth(), 2);
    assert_eq!(without_depth.effective_max_depth(), 5);
}

#[test]
fn same_identifier_via_two_urls_is_recorded_once() {
    struct AliasFetcher;

    impl WorkshopFetcher for AliasFetcher {
        fn fetch_html(&self, url: &str) -> Result<String, String> {
            if url == ROOT_URL {
                Ok([
                    "<html><body><p>ID 595F2BF2F44836FB</p>",
                    "<section><h2>Dependencies</h2>",
                    "<a href=\"/workshop/5AAAC70D754245DD-Some-Mod\">a</a>",
                    "<a href=\"/workshop/5AAAC70D754245DD-Same-Mod-Renamed\">b</a>",
                    "</section></body></html>",
                ]
                .join("\n"))
            } else if url == format!("{ROOT_URL}/scenarios") {
                Ok("<html><body>nothing</body></html>".to_string())
            } else {
                Ok(plain_page())
            }
        }
    }

    let resolver = WorkshopResolver::new(AliasFetcher);
    let result = resolver.resolve(ROOT_URL, 1).expect("resolve failed");
    assert_eq!(result.dependency_ids, vec!["5AAAC70D754245DD".to_string()]);
}
