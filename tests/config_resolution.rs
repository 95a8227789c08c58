use discorder::config::{
    lines_fit, merge, parse_config, resolve, ConfigError, Params, MAX_LINE_BYTES,
};
use discorder::paths::{
    default_config_paths, expand_candidates, expand_home, first_found, select_config_path,
    PathError,
};

fn s(v: &str) -> Option<String> {
    Some(v.to_string())
}

fn params(webhook: Option<String>, text: Option<String>, file: Option<String>) -> Params {
    Params { webhook, text, file }
}

#[test]
fn command_line_value_wins_over_config() {
    let cli = params(s("https://cli"), s("cli text"), s("cli.txt"));
    let config = params(s("https://config"), s("config text"), s("config.txt"));
    let merged = merge(cli.clone(), config);
    assert_eq!(merged, cli);
}

#[test]
fn config_fills_missing_fields_only() {
    let cli = params(None, s("cli text"), None);
    let config = params(s("https://config"), s("config text"), s("config.txt"));
    let merged = merge(cli, config);
    assert_eq!(merged, params(s("https://config"), s("cli text"), s("config.txt")));
}

#[test]
fn every_combination_of_sources_prefers_command_line() {
    for mask in 0u32..64 {
        let pick = |bit: u32, v: &str| if mask & (1 << bit) != 0 { s(v) } else { None };
        let cli = params(pick(0, "cw"), pick(1, "ct"), pick(2, "cf"));
        let config = params(pick(3, "fw"), pick(4, "ft"), pick(5, "ff"));
        let merged = merge(cli.clone(), config.clone());
        assert_eq!(merged.webhook, cli.webhook.clone().or(config.webhook.clone()));
        assert_eq!(merged.text, cli.text.clone().or(config.text.clone()));
        assert_eq!(merged.file, cli.file.clone().or(config.file.clone()));
    }
}

#[test]
fn resolve_without_config_keeps_command_line() {
    let cli = params(s("https://cli"), None, None);
    let r = resolve(cli.clone(), None).unwrap();
    assert_eq!(r, cli);
}

#[test]
fn resolve_with_config_text_merges() {
    let cli = params(None, s("hello"), None);
    let r = resolve(cli, Some("webhook: https://example.com/hook\ntext: ignored\n")).unwrap();
    assert_eq!(r, params(s("https://example.com/hook"), s("hello"), None));
}

#[test]
fn resolve_with_malformed_config_fails() {
    let cli = params(s("https://cli"), None, None);
    let r = resolve(cli, Some("webhook: [unclosed\n"));
    assert!(matches!(r, Err(ConfigError::Malformed(_))));
}

#[test]
fn parse_config_reads_string_entries() {
    let p = parse_config("webhook: https://w\ntext: hi there\nfile: ./a.txt\n").unwrap();
    assert_eq!(p, params(s("https://w"), s("hi there"), s("./a.txt")));
}

#[test]
fn parse_config_ignores_non_string_values_and_other_keys() {
    let p = parse_config("webhook: 42\ntext: [a, b]\nother: x\n").unwrap();
    assert_eq!(p, params(None, None, None));
}

#[test]
fn parse_config_of_empty_text_is_empty() {
    let p = parse_config("").unwrap();
    assert_eq!(p, Params::empty());
}

#[test]
fn parse_config_of_a_scalar_document_is_empty() {
    let p = parse_config("just a string\n").unwrap();
    assert_eq!(p, Params::empty());
}

#[test]
fn parse_config_takes_the_first_document() {
    let p = parse_config("---\ntext: first\n---\ntext: second\n").unwrap();
    assert_eq!(p.text, s("first"));
}

#[test]
fn parse_config_rejects_malformed_yaml() {
    assert!(parse_config("text: \"unterminated\n").is_err());
}

#[test]
fn tilde_expands_to_home() {
    let home = s("/home/user");
    assert_eq!(expand_home("~/.config/x.yml", &home), s("/home/user/.config/x.yml"));
    assert_eq!(expand_home("~", &home), s("/home/user"));
}

#[test]
fn only_a_leading_tilde_expands() {
    let home = s("/home/user");
    assert_eq!(expand_home("./a~b.yml", &home), s("./a~b.yml"));
    assert_eq!(expand_home("./x.yml", &None), s("./x.yml"));
}

#[test]
fn tilde_without_home_fails() {
    assert_eq!(expand_home("~/x.yml", &None), None);
}

#[test]
fn default_paths_in_search_order() {
    let d = default_config_paths();
    assert_eq!(
        d,
        vec![
            "./discorder.yml".to_string(),
            "./discorder.yaml".to_string(),
            "~/.config/discorder/discorder.yml".to_string(),
            "~/.config/discorder/discorder.yaml".to_string(),
        ]
    );
}

#[test]
fn candidates_are_expanded_before_lookup() {
    let c = expand_candidates(&default_config_paths(), &s("/home/u"));
    assert_eq!(
        c,
        vec![
            s("./discorder.yml"),
            s("./discorder.yaml"),
            s("/home/u/.config/discorder/discorder.yml"),
            s("/home/u/.config/discorder/discorder.yaml"),
        ]
    );
    let c = expand_candidates(&default_config_paths(), &None);
    assert_eq!(c, vec![s("./discorder.yml"), s("./discorder.yaml"), None, None]);
}

#[test]
fn first_found_takes_earliest_existing() {
    let c = vec![s("a"), None, s("c"), s("d")];
    assert_eq!(first_found(&c, &vec![false, true, true, true]), s("c"));
    assert_eq!(first_found(&c, &vec![false, false, false, false]), None);
    assert_eq!(first_found(&c, &vec![false]), None);
}

#[test]
fn env_override_preferred_over_explicit_and_search() {
    let c = vec![s("./discorder.yml")];
    let r = select_config_path(&s("/env.yml"), &s("/explicit.yml"), &None, &c, &vec![true]);
    assert_eq!(r, Ok(s("/env.yml")));
}

#[test]
fn explicit_preferred_over_search() {
    let c = vec![s("./discorder.yml")];
    let r = select_config_path(&None, &s("/explicit.yml"), &None, &c, &vec![true]);
    assert_eq!(r, Ok(s("/explicit.yml")));
}

#[test]
fn search_used_without_override_or_explicit() {
    let c = vec![s("./discorder.yml"), s("./discorder.yaml")];
    let r = select_config_path(&None, &None, &None, &c, &vec![false, true]);
    assert_eq!(r, Ok(s("./discorder.yaml")));
}

#[test]
fn nothing_found_is_no_error() {
    let home = s("/home/u");
    let c = expand_candidates(&default_config_paths(), &home);
    let r = select_config_path(&None, &None, &home, &c, &vec![false; 4]);
    assert_eq!(r, Ok(None));
}

#[test]
fn env_override_is_expanded() {
    let r = select_config_path(&s("~/cfg.yml"), &None, &s("/home/u"), &vec![], &vec![]);
    assert_eq!(r, Ok(s("/home/u/cfg.yml")));
}

#[test]
fn selected_tilde_path_without_home_fails() {
    let r = select_config_path(&None, &s("~/cfg.yml"), &None, &vec![], &vec![]);
    assert_eq!(r, Err(PathError::NoHomeDirectory));
}

#[test]
fn line_at_the_limit_is_accepted() {
    let line = format!("text: {}", "x".repeat(MAX_LINE_BYTES - 6));
    assert_eq!(line.len(), MAX_LINE_BYTES);
    assert!(lines_fit(&line));
    let p = parse_config(&line).unwrap();
    assert_eq!(p.text, Some("x".repeat(MAX_LINE_BYTES - 6)));
}

#[test]
fn line_over_the_limit_is_refused() {
    let text = format!("webhook: https://w\ntext: {}\n", "x".repeat(MAX_LINE_BYTES - 5));
    assert!(!lines_fit(&text));
    assert!(matches!(parse_config(&text), Err(ConfigError::LineTooLong)));
    let cli = params(s("https://cli"), None, None);
    assert!(matches!(resolve(cli, Some(&text)), Err(ConfigError::LineTooLong)));
}

#[test]
fn carriage_return_does_not_end_a_line() {
    let text = format!("a: b\r{}", "x".repeat(MAX_LINE_BYTES));
    assert!(!lines_fit(&text));
    let text = format!("a: b\n{}", "x".repeat(MAX_LINE_BYTES));
    assert!(lines_fit(&text));
}

#[test]
fn deepest_nesting_on_one_line_loads() {
    let text = "- ".repeat(MAX_LINE_BYTES / 2 - 1) + "x";
    assert!(lines_fit(&text));
    assert_eq!(parse_config(&text).unwrap(), Params::empty());
}

#[test]
fn deepest_nesting_by_indentation_loads() {
    let mut text = String::new();
    for depth in 0..MAX_LINE_BYTES - 2 {
        text.push_str(&" ".repeat(depth));
        text.push_str("a:\n");
    }
    assert!(lines_fit(&text));
    assert_eq!(parse_config(&text).unwrap(), Params::empty());
}

#[test]
fn nesting_past_the_limit_is_refused_before_loading() {
    let text = "- ".repeat(20_000) + "x";
    assert!(matches!(parse_config(&text), Err(ConfigError::LineTooLong)));
}

#[test]
fn deepest_mixed_nesting_loads() {
    let mut text = String::new();
    for depth in 0..MAX_LINE_BYTES / 2 {
        text.push_str(&" ".repeat(depth));
        text.push_str("a:\n");
    }
    let flow = MAX_LINE_BYTES / 2 - 1;
    text.push_str(&" ".repeat(MAX_LINE_BYTES / 2));
    text.push_str(&"[".repeat(flow));
    text.push('\n');
    text.push_str(&" ".repeat(MAX_LINE_BYTES / 2 + 1));
    text.push_str(&"]".repeat(flow));
    text.push('\n');
    assert!(lines_fit(&text));
    assert_eq!(parse_config(&text).unwrap(), Params::empty());
}
