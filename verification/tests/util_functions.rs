use workshop_resolver::config::baseline_config;
use workshop_resolver::dedup::dedupe_preserve_order;
use workshop_resolver::dedup::push_unique;
use workshop_resolver::paths;
use workshop_resolver::services::effective_value;
use workshop_resolver::services::format_duration;
use workshop_resolver::services::format_duration_from;
use workshop_resolver::services::normalize_optional_path;
use workshop_resolver::services::parse_mod_id_input;
use workshop_resolver::services::parse_mod_ids;
use workshop_resolver::services::parse_scenario_ids;
use workshop_resolver::services::scenario_display_name;
use workshop_resolver::services::trim_str;
use workshop_resolver::services::update_list_selection;
use workshop_resolver::urls::normalize_dependency_url;
use workshop_resolver::urls::normalize_dependency_urls;
use workshop_resolver::urls::workshop_base_url;
use workshop_resolver::views::breadcrumb;
use workshop_resolver::views::health_html;

const ORIGIN: &str = "https://reforger.armaplatform.com";

#[test]
fn normalizes_each_link_shape() {
    assert_eq!(
        normalize_dependency_url(ORIGIN, "http://example.net/a"),
        "http://example.net/a"
    );
    assert_eq!(
        normalize_dependency_url(ORIGIN, "https://example.net/a"),
        "https://example.net/a"
    );
    assert_eq!(
        normalize_dependency_url(ORIGIN, "/workshop/0123456789ABCDEF-x"),
        "https://reforger.armaplatform.com/workshop/0123456789ABCDEF-x"
    );
    assert_eq!(
        normalize_dependency_url(ORIGIN, "workshop/0123456789ABCDEF-x"),
        "https://reforger.armaplatform.com/workshop/0123456789ABCDEF-x"
    );
}

#[test]
fn normalizes_lists_in_order() {
    let urls = vec!["/a".to_string(), "https://e/b".to_string(), "c".to_string()];
    assert_eq!(
        normalize_dependency_urls(ORIGIN, urls),
        vec![
            "https://reforger.armaplatform.com/a".to_string(),
            "https://e/b".to_string(),
            "https://reforger.armaplatform.com/c".to_string(),
        ]
    );
}

#[test]
fn base_url_is_the_platform_origin() {
    assert_eq!(workshop_base_url(), ORIGIN);
}

#[test]
fn dedupe_keeps_first_occurrences() {
    let values = vec![
        "a".to_string(),
        "b".to_string(),
        "a".to_string(),
        "c".to_string(),
        "b".to_string(),
    ];
    assert_eq!(
        dedupe_preserve_order(values),
        vec!["a".to_string(), "b".to_string(), "c".to_string()]
    );
}

#[test]
fn push_unique_skips_present_values() {
    let mut values = vec!["a".to_string(), "b".to_string()];
    push_unique(&mut values, "a".to_string());
    assert_eq!(values, vec!["a".to_string(), "b".to_string()]);
    push_unique(&mut values, "c".to_string());
    assert_eq!(values, vec!["a".to_string(), "b".to_string(), "c".to_string()]);
}

#[test]
fn mod_id_input_accepts_urls_and_bare_ids() {
    assert_eq!(
        parse_mod_id_input("  https://reforger.armaplatform.com/workshop/595F2BF2F44836FB-RHS "),
        Some("595F2BF2F44836FB".to_string())
    );
    assert_eq!(
        parse_mod_id_input("0123456789abcDEF"),
        Some("0123456789abcDEF".to_string())
    );
    assert_eq!(parse_mod_id_input("0123456789abcDE"), None);
    assert_eq!(parse_mod_id_input("0123456789abcDEG"), None);
    assert_eq!(parse_mod_id_input("https://reforger.armaplatform.com/workshop/short"), None);
}

#[test]
fn mod_ids_split_on_lines_and_commas() {
    assert_eq!(
        parse_mod_ids("a, b\nc,,\n  \nd"),
        vec!["a".to_string(), "b".to_string(), "c".to_string(), "d".to_string()]
    );
    assert!(parse_mod_ids("").is_empty());
}

#[test]
fn scenario_ids_split_on_lines_only() {
    assert_eq!(
        parse_scenario_ids("one,two\n three \n\n"),
        vec!["one,two".to_string(), "three".to_string()]
    );
}

#[test]
fn optional_path_drops_blank_input() {
    assert_eq!(normalize_optional_path("  "), None);
    assert_eq!(normalize_optional_path(" /srv/x "), Some("/srv/x".to_string()));
}

#[test]
fn trims_ascii_whitespace() {
    assert_eq!(trim_str("  abc \r\n"), "abc");
    assert_eq!(trim_str("\t\n "), "");
    assert_eq!(trim_str("abc"), "abc");
}

#[test]
fn effective_value_prefers_non_blank_overrides() {
    let set = Some("override".to_string());
    let blank = Some("   ".to_string());
    let unset: Option<String> = None;
    assert_eq!(effective_value(&set, "fallback"), "override");
    assert_eq!(effective_value(&blank, "fallback"), "fallback");
    assert_eq!(effective_value(&unset, "fallback"), "fallback");
}

#[test]
fn list_selection_actions() {
    let current = vec!["a".to_string(), "b".to_string()];
    assert_eq!(
        update_list_selection(Some(current.clone()), "add", "c"),
        vec!["a".to_string(), "b".to_string(), "c".to_string()]
    );
    assert_eq!(
        update_list_selection(Some(current.clone()), "add", "a"),
        vec!["a".to_string(), "b".to_string()]
    );
    assert_eq!(
        update_list_selection(Some(current.clone()), "remove", "a"),
        vec!["b".to_string()]
    );
    assert_eq!(update_list_selection(Some(current), "shuffle", "a").len(), 2);
    assert_eq!(update_list_selection(None, "add", "x"), vec!["x".to_string()]);
}

#[test]
fn scenario_display_names() {
    assert_eq!(
        scenario_display_name(Some("{C5EAD55037EB4751}Missions/RHS_CombatOps_MSV.conf")),
        Some("RHS_CombatOps_MSV".to_string())
    );
    assert_eq!(
        scenario_display_name(Some("{C5EAD55037EB4751}Missions/NoExtension")),
        Some("NoExtension".to_string())
    );
    assert_eq!(scenario_display_name(Some("{C5EAD55037EB4751}Missions/")), None);
    assert_eq!(scenario_display_name(Some("no marker at all")), None);
    assert_eq!(scenario_display_name(None), None);
}

#[test]
fn duration_renders_hours_minutes_seconds() {
    assert_eq!(format_duration_from(7325, 0), "2h 2m 5s");
    assert_eq!(format_duration_from(59, 0), "0h 0m 59s");
    assert_eq!(format_duration_from(3600, 0), "1h 0m 0s");
    assert_eq!(format_duration_from(10, 20), "0h 0m 0s");
    assert!(format_duration(0).ends_with('s'));
}

#[test]
fn paths_join_under_their_base() {
    assert_eq!(paths::settings_path("/base"), "/base/settings.json");
    assert_eq!(paths::profiles_dir("/base"), "/base/profiles");
    assert_eq!(paths::profile_path("/base", "p1"), "/base/profiles/p1.json");
    assert_eq!(
        paths::generated_config_path("/work", "p1"),
        "/work/configs/p1/server.json"
    );
    assert_eq!(paths::mods_path("/base"), "/base/mods.json");
    assert_eq!(paths::packages_path("/base"), "/base/packages.json");
    assert_eq!(paths::logs_dir("/base"), "/base/logs");
    assert_eq!(paths::log_file_path("/base", "p1"), "/base/logs/p1.log");
    assert_eq!(paths::credentials_path("/base"), "/base/credentials.json");
    assert_eq!(paths::certs_dir("/base"), "/base/certs");
    assert_eq!(paths::cert_path("/base"), "/base/certs/arssm.crt.pem");
    assert_eq!(paths::key_path("/base"), "/base/certs/arssm.key.pem");
}

#[test]
fn health_page_is_self_contained() {
    let page = health_html();
    assert!(page.contains("ARSSM"));
    assert!(page.contains("Status: ok"));
}

#[test]
fn breadcrumb_carries_label_and_target() {
    let crumb = breadcrumb("Profiles", Some("/server".to_string()));
    assert_eq!(crumb.label, "Profiles");
    assert_eq!(crumb.href, Some("/server".to_string()));
}

#[test]
fn baseline_config_is_valid_json_with_a_game_section() {
    let value: serde_json::Value =
        serde_json::from_str(baseline_config()).expect("baseline must parse");
    let game = value.get("game").expect("missing game");
    assert!(game.get("scenarioId").is_some());
    assert!(game.get("mods").and_then(|mods| mods.as_array()).is_some());
}
