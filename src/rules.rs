//! Platform rule evaluation: whether a rule list allows something on a platform.

use vstd::prelude::*;

use crate::manifest::version::{os_name, Os, Rule, RuleAction, RuleOs};
use crate::text::str_eq;

verus! {

/// The platform an installation runs for.
#[derive(Clone, Debug, PartialEq, Eq)]
pub struct PlatformContext {
    pub os: Os,
    pub os_version: String,
    /// The processor architecture, as `std::env::consts::ARCH` names it.
    pub arch: String,
    /// The feature flags that are on; every other flag is off.
    pub features: Vec<String>,
}

/// Whether an optional constraint is absent or equal to `actual`.
pub open spec fn constraint_holds(c: Option<String>, actual: Seq<char>) -> bool {
    match c {
        None => true,
        Some(v) => v@ == actual,
    }
}

/// Whether every operating-system constraint holds on `ctx`.
pub open spec fn os_matches(os: RuleOs, ctx: PlatformContext) -> bool {
    &&& constraint_holds(os.name, os_name(ctx.os))
    &&& constraint_holds(os.version, ctx.os_version@)
    &&& constraint_holds(os.arch, ctx.arch@)
}

/// Whether the feature flag `name` is on in `ctx`.
pub open spec fn feature_on(ctx: PlatformContext, name: Seq<char>) -> bool {
    exists|i: int| 0 <= i < ctx.features@.len() && #[trigger] ctx.features@[i]@ == name
}

/// Whether every flag of `fs` has its required state in `ctx`.
pub open spec fn features_match(fs: Seq<(String, bool)>, ctx: PlatformContext) -> bool {
    forall|i: int| 0 <= i < fs.len() ==> feature_on(ctx, #[trigger] fs[i].0@) == fs[i].1
}

/// Whether every constraint present in `r` holds on `ctx`.
pub open spec fn rule_matches(r: Rule, ctx: PlatformContext) -> bool {
    &&& (r.os matches Some(os) ==> os_matches(os, ctx))
    &&& (r.features matches Some(fs) ==> features_match(fs@, ctx))
}

/// The running decision after scanning `rules` in order from an initial
/// Disallow: each matching rule overwrites it with its action.
pub open spec fn scan_rules(rules: Seq<Rule>, ctx: PlatformContext) -> RuleAction
    decreases rules.len(),
{
    if rules.len() == 0 {
        RuleAction::Disallow
    } else if rule_matches(rules.last(), ctx) {
        rules.last().action
    } else {
        scan_rules(rules.drop_last(), ctx)
    }
}

/// The decision of a rule list: Allow when it is empty, else the scan's result.
pub open spec fn rules_decision(rules: Seq<Rule>, ctx: PlatformContext) -> RuleAction {
    if rules.len() == 0 {
        RuleAction::Allow
    } else {
        scan_rules(rules, ctx)
    }
}

/// The decision of an optional rule list: an absent list allows.
pub open spec fn optional_rules_decision(rules: Option<Vec<Rule>>, ctx: PlatformContext) -> RuleAction {
    match rules {
        None => RuleAction::Allow,
        Some(rs) => rules_decision(rs@, ctx),
    }
}

/// An empty rule list allows on every platform.
pub proof fn lemma_empty_rules_allow(rules: Seq<Rule>, ctx: PlatformContext)
    requires
        rules.len() == 0,
    ensures
        rules_decision(rules, ctx) == RuleAction::Allow,
{
}

/// The decision of a non-empty list is the action of its last matching rule,
/// or Disallow when no rule matches.
pub proof fn lemma_last_matching_rule_decides(rules: Seq<Rule>, ctx: PlatformContext)
    requires
        rules.len() > 0,
    ensures
        (forall|i: int| 0 <= i < rules.len() ==> !rule_matches(#[trigger] rules[i], ctx))
            ==> rules_decision(rules, ctx) == RuleAction::Disallow,
        forall|i: int|
            0 <= i < rules.len() && rule_matches(#[trigger] rules[i], ctx) && (forall|j: int|
                i < j < rules.len() ==> !rule_matches(rules[j], ctx)) ==> rules_decision(rules, ctx)
                == rules[i].action,
    decreases rules.len(),
{
    lemma_scan_last_match(rules, ctx);
}

proof fn lemma_scan_last_match(rules: Seq<Rule>, ctx: PlatformContext)
    ensures
        (forall|i: int| 0 <= i < rules.len() ==> !rule_matches(#[trigger] rules[i], ctx))
            ==> scan_rules(rules, ctx) == RuleAction::Disallow,
        forall|i: int|
            0 <= i < rules.len() && rule_matches(#[trigger] rules[i], ctx) && (forall|j: int|
                i < j < rules.len() ==> !rule_matches(rules[j], ctx)) ==> scan_rules(rules, ctx)
                == rules[i].action,
    decreases rules.len(),
{
    if rules.len() > 0 {
        let init = rules.drop_last();
        lemma_scan_last_match(init, ctx);
        assert forall|i: int| 0 <= i < init.len() implies init[i] == rules[i] by {}
        if !rule_matches(rules.last(), ctx) {
            assert forall|i: int|
                0 <= i < rules.len() && rule_matches(#[trigger] rules[i], ctx) && (forall|j: int|
                    i < j < rules.len() ==> !rule_matches(rules[j], ctx)) implies scan_rules(rules, ctx)
                == rules[i].action by {
                assert(i < rules.len() - 1);
                assert(init[i] == rules[i]);
                assert forall|j: int| i < j < init.len() implies !rule_matches(init[j], ctx) by {
                    assert(init[j] == rules[j]);
                }
            }
            if forall|i: int| 0 <= i < rules.len() ==> !rule_matches(#[trigger] rules[i], ctx) {
                assert forall|i: int| 0 <= i < init.len() implies !rule_matches(#[trigger] init[i], ctx) by {
                    assert(init[i] == rules[i]);
                }
            }
        } else {
            assert forall|i: int|
                0 <= i < rules.len() && rule_matches(#[trigger] rules[i], ctx) && (forall|j: int|
                    i < j < rules.len() ==> !rule_matches(rules[j], ctx)) implies scan_rules(rules, ctx)
                == rules[i].action by {
                if i < rules.len() - 1 {
                    assert(!rule_matches(rules[rules.len() - 1], ctx));
                }
            }
        }
    }
}

/// Whether an optional constraint is absent or equal to `actual`.
fn constraint_check(c: &Option<String>, actual: &str) -> (r: bool)
    ensures
        r == constraint_holds(*c, actual@),
{
    match c {
        None => true,
        Some(v) => str_eq(v.as_str(), actual),
    }
}

/// Whether the feature flag `name` is on in `ctx`.
pub fn feature_enabled(ctx: &PlatformContext, name: &str) -> (r: bool)
    ensures
        r == feature_on(*ctx, name@),
{
    let mut i: usize = 0;
    while i < ctx.features.len()
        invariant
            i <= ctx.features.len(),
            forall|j: int| 0 <= j < i ==> ctx.features@[j]@ != name@,
        decreases ctx.features.len() - i,
    {
        if str_eq(ctx.features[i].as_str(), name) {
            return true;
        }
        i = i + 1;
    }
    false
}

/// Whether every constraint present in `rule` holds on `ctx`.
pub fn rule_applies(rule: &Rule, ctx: &PlatformContext) -> (r: bool)
    ensures
        r == rule_matches(*rule, *ctx),
{
    if let Some(os) = &rule.os {
        let name = ctx.os.to_str();
        if !constraint_check(&os.name, name.as_str()) {
            return false;
        }
        if !constraint_check(&os.version, ctx.os_version.as_str()) {
            return false;
        }
        if !constraint_check(&os.arch, ctx.arch.as_str()) {
            return false;
        }
    }
    if let Some(fs) = &rule.features {
        let mut i: usize = 0;
        while i < fs.len()
            invariant
                rule.features == Some(*fs),
                i <= fs.len(),
                forall|j: int| 0 <= j < i ==> feature_on(*ctx, #[trigger] fs@[j].0@) == fs@[j].1,
            decreases fs.len() - i,
        {
            if feature_enabled(ctx, fs[i].0.as_str()) != fs[i].1 {
                return false;
            }
            i = i + 1;
        }
    }
    true
}

/// Evaluates a rule list on `ctx`: an empty list allows; otherwise the decision
/// starts at Disallow and each rule whose constraints all hold, in order,
/// overwrites it with its action.
pub fn match_rules(rules: &Vec<Rule>, ctx: &PlatformContext) -> (r: RuleAction)
    ensures
        r == rules_decision(rules@, *ctx),
{
    if rules.len() == 0 {
        return RuleAction::Allow;
    }
    let mut decision = RuleAction::Disallow;
    let mut i: usize = 0;
    while i < rules.len()
        invariant
            i <= rules.len(),
            decision == scan_rules(rules@.take(i as int), *ctx),
        decreases rules.len() - i,
    {
        proof {
            let t = rules@.take(i as int + 1);
            assert(t.drop_last() =~= rules@.take(i as int));
            assert(t.last() == rules@[i as int]);
        }
        if rule_applies(&rules[i], ctx) {
            decision = rules[i].action;
        }
        i = i + 1;
    }
    proof {
        assert(rules@.take(rules.len() as int) =~= rules@);
    }
    decision
}

/// The decision of an optional rule list on `ctx`: an absent list allows.
pub fn match_optional_rules(rules: &Option<Vec<Rule>>, ctx: &PlatformContext) -> (r: RuleAction)
    ensures
        r == optional_rules_decision(*rules, *ctx),
{
    match rules {
        None => RuleAction::Allow,
        Some(rs) => match_rules(rs, ctx),
    }
}

/// The operating system that `std::env::consts::OS` names: Windows and macOS
/// by their names, every other system as Linux.
pub open spec fn os_of_std_name(name: Seq<char>) -> Os {
    if name == "windows"@ {
        Os::Windows
    } else if name == "macos"@ {
        Os::MacOs
    } else {
        Os::Linux
    }
}

/// The operating system that `name`, as `std::env::consts::OS` gives it, stands for.
pub fn platform_os(name: &str) -> (r: Os)
    ensures
        r == os_of_std_name(name@),
{
    if str_eq(name, "windows") {
        Os::Windows
    } else if str_eq(name, "macos") {
        Os::MacOs
    } else {
        Os::Linux
    }
}

} // verus!
