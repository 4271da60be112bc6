use edr_lite::detect::{
    first_non_rule, is_rule_file, rule_file_positions, load_sigma_rules, load_yara_rules, try_load_sigma_rules, match_sigma_rule, match_yara_rule,
    single_rule_match, yara_verdict, SigmaEvent, SigmaRule, SigmaVerdict, YaraScanFailure,
};

const RULE_CAT: &str = r#"
title: Cat launched
logsource:
    category: process_creation
detection:
    selection:
        Image|endswith: /cat
    condition: selection
"#;

const RULE_SUDO: &str = r#"
title: Sudo launched
logsource:
    category: process_creation
detection:
    selection:
        Image|endswith: /sudo
    condition: selection
"#;

#[test]
fn rule_file_names() {
    assert!(is_rule_file("proc.yaml"));
    assert!(is_rule_file("a.b.yaml"));
    assert!(is_rule_file("..yaml"));
    assert!(!is_rule_file(".yaml"));
    assert!(!is_rule_file("yaml"));
    assert!(!is_rule_file("rule.yml"));
    assert!(!is_rule_file("rule.yaml.bak"));
    assert!(!is_rule_file("rule.YAML"));
}

#[test]
fn sigma_rules_parse_and_keep_titles() {
    let r = SigmaRule::from_yaml(RULE_CAT).unwrap();
    assert_eq!(r.title(), "Cat launched");
    assert!(SigmaRule::from_yaml("not: [a rule").is_none());
}

#[test]
fn sigma_events_parse() {
    assert!(SigmaEvent::from_json(r#"{"Image": "/usr/bin/cat"}"#).is_some());
    assert!(SigmaEvent::from_json("{").is_none());
}

#[test]
fn one_verdict_per_rule_in_order() {
    let rules = load_sigma_rules(&vec![RULE_CAT.to_string(), RULE_SUDO.to_string()]);
    let event = SigmaEvent::from_json(r#"{"Image": "/usr/bin/cat"}"#).unwrap();
    let verdicts = match_sigma_rule(&rules, &event);
    assert_eq!(verdicts.len(), 2);
    assert!(matches!(&verdicts[0], SigmaVerdict::Match(t) if t == "Cat launched"));
    assert!(matches!(verdicts[1], SigmaVerdict::NoMatch));
    assert!(match_sigma_rule(&Vec::new(), &event).is_empty());
}

#[test]
fn loading_stops_at_first_bad_rule() {
    let sources = vec![RULE_CAT.to_string(), "title: [".to_string(), RULE_SUDO.to_string()];
    assert_eq!(try_load_sigma_rules(&sources).err(), Some(1));
    assert_eq!(first_non_rule(&sources), Some(1));
    assert_eq!(try_load_sigma_rules(&Vec::new()).unwrap().len(), 0);
    assert_eq!(load_sigma_rules(&Vec::new()).len(), 0);
    let good = vec![RULE_SUDO.to_string(), RULE_CAT.to_string()];
    assert_eq!(first_non_rule(&good), None);
    let rules = try_load_sigma_rules(&good).unwrap();
    assert_eq!(rules.len(), 2);
    assert_eq!(rules[0].title(), SigmaRule::from_yaml(RULE_SUDO).unwrap().title());
}

#[test]
fn yara_single_match_rule() {
    assert!(single_rule_match(1));
    assert!(!single_rule_match(0));
    assert!(!single_rule_match(2));
}

#[test]
fn yara_scans() {
    let one = vec!["rule evil { strings: $a = \"EVIL\" condition: $a }".to_string()];
    let rules = load_yara_rules(".", &one).unwrap();
    assert_eq!(match_yara_rule(b"xxEVILxx", &rules).unwrap(), true);
    assert_eq!(match_yara_rule(b"benign", &rules).unwrap(), false);

    let two = vec![
        "rule a { strings: $a = \"EVIL\" condition: $a }".to_string(),
        "rule b { condition: true }".to_string(),
    ];
    let rules = load_yara_rules(".", &two).unwrap();
    assert_eq!(match_yara_rule(b"EVIL", &rules).unwrap(), false);
    assert_eq!(match_yara_rule(b"nothing", &rules).unwrap(), true);
}

#[test]
fn yara_bad_source_is_reported() {
    let sources = vec!["rule ok { condition: true }".to_string(), "rule {".to_string()];
    assert_eq!(load_yara_rules(".", &sources).err(), Some(1));
}

#[test]
fn yara_modules_are_available() {
    let sources = vec!["import \"math\"\nrule m { condition: math.abs(-1) == 1 }".to_string()];
    let rules = load_yara_rules(".", &sources).unwrap();
    assert_eq!(match_yara_rule(b"anything", &rules).unwrap(), true);
}

#[test]
fn yara_verdicts() {
    assert!(matches!(yara_verdict(Some(1)), Ok(true)));
    assert!(matches!(yara_verdict(Some(0)), Ok(false)));
    assert!(matches!(yara_verdict(Some(3)), Ok(false)));
    assert!(matches!(yara_verdict(None), Err(YaraScanFailure::ScanFailed)));
}

#[test]
fn sigma_rule_matches_event() {
    let rule = SigmaRule::from_yaml(RULE_SUDO).unwrap();
    let hit = SigmaEvent::from_json(r#"{"Image": "/usr/bin/sudo"}"#).unwrap();
    let miss = SigmaEvent::from_json(r#"{"Image": "/usr/bin/cat"}"#).unwrap();
    assert!(rule.is_match(&hit));
    assert!(!rule.is_match(&miss));
}

#[test]
fn yara_include_of_missing_file_is_refused() {
    let sources = vec!["include \"no_such_file_here.yar\"".to_string()];
    assert_eq!(load_yara_rules("no_such_dir_here", &sources).err(), Some(0));
}

#[test]
fn yara_rules_from_no_source_detect_nothing() {
    let rules = load_yara_rules(".", &Vec::new()).unwrap();
    assert_eq!(match_yara_rule(b"EVIL", &rules).unwrap(), false);
    assert_eq!(match_yara_rule(b"", &rules).unwrap(), false);
}

#[test]
fn rule_files_are_picked_in_order() {
    let names: Vec<String> = vec!["a.yaml", "notes.txt", ".yaml", "b.yml", "c.yaml", "yaml"]
        .into_iter()
        .map(String::from)
        .collect();
    assert_eq!(rule_file_positions(&names), vec![0, 4]);
    let mut more = names.clone();
    more.insert(1, "README.md".to_string());
    more.push("x.yaml.bak".to_string());
    assert_eq!(rule_file_positions(&more), vec![0, 5]);
    assert_eq!(rule_file_positions(&Vec::new()), Vec::<usize>::new());
}
