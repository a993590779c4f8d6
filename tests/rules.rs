use minecraft_launcher::manifest::version::{Os, Rule, RuleAction, RuleOs};
use minecraft_launcher::rules::{match_optional_rules, match_rules, platform_os, PlatformContext};

fn ctx(os: Os, arch: &str, features: &[&str]) -> PlatformContext {
    PlatformContext {
        os,
        os_version: String::from("10.0"),
        arch: String::from(arch),
        features: features.iter().map(|f| String::from(*f)).collect(),
    }
}

fn os_rule(action: RuleAction, name: &str) -> Rule {
    Rule {
        action,
        features: None,
        os: Some(RuleOs { name: Some(String::from(name)), version: None, arch: None }),
    }
}

#[test]
fn empty_rules_allow_on_every_platform() {
    for os in [Os::Windows, Os::MacOs, Os::Linux] {
        for arch in ["x86", "x86_64", "aarch64"] {
            assert_eq!(match_rules(&Vec::new(), &ctx(os, arch, &["is_demo_user"])), RuleAction::Allow);
        }
    }
    assert_eq!(match_optional_rules(&None, &ctx(Os::Linux, "x86_64", &[])), RuleAction::Allow);
    assert_eq!(match_optional_rules(&Some(Vec::new()), &ctx(Os::Linux, "x86_64", &[])), RuleAction::Allow);
}

#[test]
fn single_unmatched_disallow_rule_disallows() {
    let rules = vec![os_rule(RuleAction::Disallow, "osx")];
    assert_eq!(match_rules(&rules, &ctx(Os::Linux, "x86_64", &[])), RuleAction::Disallow);
}

#[test]
fn later_unconditional_allow_overwrites() {
    let rules = vec![
        os_rule(RuleAction::Disallow, "osx"),
        Rule { action: RuleAction::Allow, features: None, os: None },
    ];
    assert_eq!(match_rules(&rules, &ctx(Os::MacOs, "x86_64", &[])), RuleAction::Allow);
}

#[test]
fn last_matching_rule_decides() {
    let rules = vec![
        Rule { action: RuleAction::Allow, features: None, os: None },
        os_rule(RuleAction::Disallow, "osx"),
    ];
    assert_eq!(match_rules(&rules, &ctx(Os::MacOs, "x86_64", &[])), RuleAction::Disallow);
    assert_eq!(match_rules(&rules, &ctx(Os::Windows, "x86_64", &[])), RuleAction::Allow);
}

#[test]
fn repeated_evaluation_agrees() {
    let rules = vec![
        os_rule(RuleAction::Allow, "windows"),
        Rule {
            action: RuleAction::Disallow,
            features: Some(vec![(String::from("has_custom_resolution"), true)]),
            os: None,
        },
    ];
    for c in [
        ctx(Os::Windows, "x86", &[]),
        ctx(Os::Windows, "x86", &["has_custom_resolution"]),
        ctx(Os::Linux, "x86_64", &[]),
    ] {
        let first = match_rules(&rules, &c);
        let second = match_rules(&rules, &c);
        assert_eq!(first, second);
    }
}

#[test]
fn feature_constraints_need_the_required_state() {
    let on = Rule {
        action: RuleAction::Allow,
        features: Some(vec![(String::from("is_demo_user"), true)]),
        os: None,
    };
    let off = Rule {
        action: RuleAction::Allow,
        features: Some(vec![(String::from("is_demo_user"), false)]),
        os: None,
    };
    assert_eq!(match_rules(&vec![on.clone()], &ctx(Os::Linux, "x86_64", &["is_demo_user"])), RuleAction::Allow);
    assert_eq!(match_rules(&vec![on], &ctx(Os::Linux, "x86_64", &[])), RuleAction::Disallow);
    assert_eq!(match_rules(&vec![off.clone()], &ctx(Os::Linux, "x86_64", &[])), RuleAction::Allow);
    assert_eq!(match_rules(&vec![off], &ctx(Os::Linux, "x86_64", &["is_demo_user"])), RuleAction::Disallow);
}

#[test]
fn every_os_constraint_must_hold() {
    let rule = Rule {
        action: RuleAction::Allow,
        features: None,
        os: Some(RuleOs { name: Some(String::from("windows")), version: None, arch: Some(String::from("x86")) }),
    };
    assert_eq!(match_rules(&vec![rule.clone()], &ctx(Os::Windows, "x86", &[])), RuleAction::Allow);
    assert_eq!(match_rules(&vec![rule.clone()], &ctx(Os::Windows, "x86_64", &[])), RuleAction::Disallow);
    assert_eq!(match_rules(&vec![rule], &ctx(Os::Linux, "x86", &[])), RuleAction::Disallow);
    let versioned = Rule {
        action: RuleAction::Allow,
        features: None,
        os: Some(RuleOs { name: None, version: Some(String::from("10.0")), arch: None }),
    };
    assert_eq!(match_rules(&vec![versioned], &ctx(Os::Linux, "x86", &[])), RuleAction::Allow);
}

#[test]
fn std_os_names_map_to_rule_systems() {
    assert_eq!(platform_os("windows"), Os::Windows);
    assert_eq!(platform_os("macos"), Os::MacOs);
    assert_eq!(platform_os("linux"), Os::Linux);
    assert_eq!(platform_os("freebsd"), Os::Linux);
}
