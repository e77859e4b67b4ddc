use workshop_resolver::ids::extract_workshop_id_from_html;
use workshop_resolver::ids::extract_workshop_id_from_url;
use workshop_resolver::page::parse_root_page;
use workshop_resolver::scenarios::parse_scenarios_page;

const ORIGIN: &str = "https://reforger.armaplatform.com";

fn root_with_deps_html() -> String {
    [
        "<!doctype html>",
        "<html lang=\"en\">",
        "<head><title>RHS - Status Quo</title></head>",
        "<body>",
        "<div class=\"header\"><h1>RHS - Status Quo</h1><p>Version 1.0 ID 595F2BF2F44836FB build</p></div>",
        "<section>",
        "<h2>Dependencies</h2>",
        "<ul>",
        "<li><a href=\"/workshop/5AAAC70D754245DD-Some-Mod\">Some Mod</a></li>",
        "<li><a href=\"/workshop/5C9758250C8C56F1-Other-Mod\">Other Mod</a></li>",
        "</ul>",
        "</section>",
        "<div class=\"footer\"><a href=\"/workshop/595F2BF2F44836FB-RHS-StatusQuo\">Permalink</a></div>",
        "</body>",
        "</html>",
    ]
    .join("\n")
}

fn scenarios_html() -> String {
    [
        "<!doctype html>",
        "<html lang=\"en\">",
        "<body>",
        "<h2>Scenarios</h2>",
        "<p>Copy a Scenario ID below.</p>",
        "<pre>{C5EAD55037EB4751}Missions/RHS_CombatOps_MSV.conf</pre>",
        "<pre>{731B585620A3F461}Missions/Coop_CombatOps_Cain_Plus.conf</pre>",
        "<pre>{C5EAD55037EB4751}Missions/RHS_CombatOps_MSV.conf</pre>",
        "</body>",
        "</html>",
    ]
    .join("\n")
}

fn scenarios_empty_html() -> String {
    [
        "<!doctype html>",
        "<html lang=\"en\">",
        "<body>",
        "<h2>Scenarios</h2>",
        "<p>Nothing is advertised here.</p>",
        "<pre>{AAAABBBBCCCCDDDD}Missions/Hidden.conf</pre>",
        "</body>",
        "</html>",
    ]
    .join("\n")
}

#[test]
fn parses_multi_scenario_fixture() {
    let html = root_with_deps_html();
    let parsed = parse_root_page(&html, None, ORIGIN).expect("parse failed");

    assert_eq!(parsed.workshop_id, "595F2BF2F44836FB");
    assert_eq!(parsed.dependency_urls.len(), 2);
    assert!(parsed
        .dependency_urls
        .iter()
        .any(|url| url.contains("5AAAC70D754245DD")));
    assert!(parsed
        .dependency_urls
        .iter()
        .any(|url| url.contains("5C9758250C8C56F1")));

    let dep_ids: Vec<String> = parsed
        .dependency_urls
        .iter()
        .filter_map(|url| extract_workshop_id_from_url(url))
        .collect();
    assert!(dep_ids.contains(&"5AAAC70D754245DD".to_string()));
    assert!(dep_ids.contains(&"5C9758250C8C56F1".to_string()));
}

#[test]
fn parses_no_scenario_fixture() {
    let html = scenarios_empty_html();
    let scenarios = parse_scenarios_page(&html);
    assert!(scenarios.is_empty());
}

#[test]
fn extracts_workshop_id_from_url() {
    let url = "https://reforger.armaplatform.com/workshop/595F2BF2F44836FB-RHS-StatusQuo";
    assert_eq!(
        extract_workshop_id_from_url(url),
        Some("595F2BF2F44836FB".to_string())
    );
}

#[test]
fn extracts_workshop_id_from_html() {
    let html = root_with_deps_html();
    assert_eq!(
        extract_workshop_id_from_html(&html),
        Some("595F2BF2F44836FB".to_string())
    );
}

#[test]
fn parses_scenarios_from_fixture() {
    let html = scenarios_html();
    let scenarios = parse_scenarios_page(&html);

    assert_eq!(scenarios.len(), 2);
    assert!(scenarios.contains(&"{C5EAD55037EB4751}Missions/RHS_CombatOps_MSV.conf".to_string()));
    assert!(
        scenarios.contains(&"{731B585620A3F461}Missions/Coop_CombatOps_Cain_Plus.conf".to_string())
    );
}

#[test]
fn scenario_order_follows_first_occurrence() {
    let html = scenarios_html();
    let scenarios = parse_scenarios_page(&html);
    assert_eq!(
        scenarios,
        vec![
            "{C5EAD55037EB4751}Missions/RHS_CombatOps_MSV.conf".to_string(),
            "{731B585620A3F461}Missions/Coop_CombatOps_Cain_Plus.conf".to_string(),
        ]
    );
}

#[test]
fn embedded_state_wins_for_id_and_dependencies() {
    let html = [
        "<html><body>",
        "<script id=\"__WORKSHOP_STATE__\">{\"workshopId\":\"AAAABBBBCCCC1234\",\"dependencies\":[\"/workshop/1111222233334444-Dep\"]}</script>",
        "<p>ID 595F2BF2F44836FB</p>",
        "<section><h2>Dependencies</h2><a href=\"/workshop/5AAAC70D754245DD-Some-Mod\">x</a></section>",
        "</body></html>",
    ]
    .join("\n");
    let parsed = parse_root_page(&html, None, ORIGIN).expect("parse failed");
    assert_eq!(parsed.workshop_id, "AAAABBBBCCCC1234");
    assert_eq!(
        parsed.dependency_urls,
        vec!["https://reforger.armaplatform.com/workshop/1111222233334444-Dep".to_string()]
    );
}

#[test]
fn embedded_state_id_alias_is_used() {
    let html = [
        "<html><body>",
        "<script id=\"__WORKSHOP_STATE__\">{\"id\":\"0123456789ABCDEF\"}</script>",
        "</body></html>",
    ]
    .join("");
    let parsed = parse_root_page(&html, None, ORIGIN).expect("parse failed");
    assert_eq!(parsed.workshop_id, "0123456789ABCDEF");
    assert!(parsed.dependency_urls.is_empty());
}

#[test]
fn hint_beats_label_scan() {
    let html = "<html><body><p>ID 595F2BF2F44836FB</p></body></html>";
    let parsed = parse_root_page(html, Some("5C9758250C8C56F1"), ORIGIN).expect("parse failed");
    assert_eq!(parsed.workshop_id, "5C9758250C8C56F1");
}

#[test]
fn data_props_supply_the_id_last() {
    let html = [
        "<html><body>",
        "<div data-props='{\"id\":\"FFFF0000FFFF0000\"}'>card</div>",
        "</body></html>",
    ]
    .join("");
    let parsed = parse_root_page(&html, None, ORIGIN).expect("parse failed");
    assert_eq!(parsed.workshop_id, "FFFF0000FFFF0000");
}

#[test]
fn page_without_identifier_is_rejected() {
    let html = "<html><body><p>No identifier advertised anywhere.</p></body></html>";
    let err = parse_root_page(html, None, ORIGIN).expect_err("parse should fail");
    assert_eq!(err, "workshop id not found");
}

#[test]
fn whole_document_anchor_scan_is_the_fallback() {
    let html = [
        "<html><body>",
        "<p>ID 595F2BF2F44836FB</p>",
        "<a href=\"/workshop/5AAAC70D754245DD-Some-Mod\">a</a>",
        "<a href=\"https://elsewhere.example/workshop/5C9758250C8C56F1-Other-Mod\">b</a>",
        "<a href=\"/workshop/5AAAC70D754245DD-Some-Mod\">again</a>",
        "</body></html>",
    ]
    .join("");
    let parsed = parse_root_page(&html, None, ORIGIN).expect("parse failed");
    assert_eq!(
        parsed.dependency_urls,
        vec![
            "https://reforger.armaplatform.com/workshop/5AAAC70D754245DD-Some-Mod".to_string(),
            "https://elsewhere.example/workshop/5C9758250C8C56F1-Other-Mod".to_string(),
        ]
    );
}

#[test]
fn scenarios_need_the_marker_before_any_match() {
    let with_marker = "Scenario ID\n{AAAABBBBCCCCDDDD}Missions/One.conf";
    let without_marker = "{AAAABBBBCCCCDDDD}Missions/One.conf";
    assert_eq!(
        parse_scenarios_page(with_marker),
        vec!["{AAAABBBBCCCCDDDD}Missions/One.conf".to_string()]
    );
    assert!(parse_scenarios_page(without_marker).is_empty());
}

#[test]
fn url_without_identifier_yields_nothing() {
    assert_eq!(
        extract_workshop_id_from_url("https://reforger.armaplatform.com/workshop/short"),
        None
    );
    assert_eq!(
        extract_workshop_id_from_url("https://reforger.armaplatform.com/workshop/0123456789abcdef-lower"),
        None
    );
}

#[test]
fn label_scan_needs_word_boundaries() {
    assert_eq!(
        extract_workshop_id_from_html("GRID 0123456789ABCDEF here"),
        None
    );
    assert_eq!(
        extract_workshop_id_from_html("mod ID 0123456789ABCDEFF tail"),
        None
    );
    assert_eq!(
        extract_workshop_id_from_html("mod ID\t\n0123456789ABCDEF tail"),
        Some("0123456789ABCDEF".to_string())
    );
}
