//! Matching of rules against a host.

use crate::pattern::{pattern_compiles, pattern_found, search};
use crate::table::StringTable;
use crate::vanilla::version::{PistonRule, PistonRuleConstraints};
use crate::McError;
use vstd::prelude::*;
use vstd::string::StringExecFns;

verus! {

/// The operating system of a host.
#[derive(Debug, Clone)]
pub struct PistonOs {
    pub name: String,
    pub arch: String,
    pub version: String,
}

/// The families of operating systems that launch descriptors tell apart.
#[derive(Debug, Clone, Copy, PartialEq, Eq)]
pub enum HostFamily {
    Windows,
    Macos,
    /// Every other system; descriptors know it as Linux.
    Other,
}

impl HostFamily {
    /// The name by which launch descriptors call the family.
    pub open spec fn name(self) -> Seq<char> {
        match self {
            HostFamily::Windows => "windows"@,
            HostFamily::Macos => "osx"@,
            HostFamily::Other => "linux"@,
        }
    }
}

/// `PistonRuleMatcher` matches the rules of arguments and libraries against
/// one host: its operating system and the features switched on for it.
pub struct PistonRuleMatcher {
    pub os: PistonOs,
    pub features: StringTable<bool>,
}

/// The verdict of a rule that forbids what `outcome` found.
pub open spec fn negated(outcome: Option<bool>) -> Option<bool> {
    match outcome {
        Some(b) => Some(!b),
        None => None,
    }
}

impl PistonRuleMatcher {
    /// The host has `feature`, and it is switched on.
    pub open spec fn has_feature(&self, feature: Seq<char>) -> bool {
        self.features@.contains_key(feature) && self.features@[feature]
    }

    /// The host has every feature that is a key of `required`; the values
    /// stored under the keys do not count.
    pub open spec fn has_each(&self, required: StringTable<bool>) -> bool {
        forall|feature: Seq<char>| #[trigger]
            required@.contains_key(feature) ==> self.has_feature(feature)
    }

    /// The host has every feature that the constraint names.
    pub open spec fn has_features(&self, constraint: PistonRuleConstraints) -> bool {
        match constraint.features {
            Some(required) => self.has_each(required),
            None => true,
        }
    }

    /// The host's system has the name and the architecture that the
    /// constraint asks for.
    pub open spec fn is_named(&self, constraint: PistonRuleConstraints) -> bool {
        match constraint.os {
            Some(os) => (os.name@.len() == 0 || os.name@ == self.os.name@) && (os.arch@.len() == 0
                || os.arch@ == self.os.arch@),
            None => true,
        }
    }

    /// The pattern that the constraint holds the system's version to, if
    /// it has one.
    pub open spec fn version_pattern(constraint: PistonRuleConstraints) -> Option<Seq<char>> {
        match constraint.os {
            Some(os) => if os.version@.len() == 0 {
                None
            } else {
                Some(os.version@)
            },
            None => None,
        }
    }

    /// Whether the host meets the constraint: `None` where that cannot be
    /// told, because the version pattern had to be read and does not
    /// compile.
    pub open spec fn constraint_outcome(&self, constraint: PistonRuleConstraints) -> Option<bool> {
        if !self.is_named(constraint) {
            Some(false)
        } else {
            match Self::version_pattern(constraint) {
                Some(pattern) => if pattern_compiles(pattern) {
                    Some(
                        pattern_found(pattern, self.os.version@) && self.has_features(constraint),
                    )
                } else {
                    None
                },
                None => Some(self.has_features(constraint)),
            }
        }
    }

    /// Whether the host passes the rule.
    pub open spec fn rule_outcome(&self, rule: PistonRule) -> Option<bool> {
        match rule {
            PistonRule::Allow(constraint) => self.constraint_outcome(constraint),
            PistonRule::Deny(constraint) => negated(self.constraint_outcome(constraint)),
        }
    }

    /// Whether the host passes every rule of the list, read in order: the
    /// first rule that does not pass decides.
    pub open spec fn rules_outcome(&self, rules: Seq<PistonRule>) -> Option<bool>
        decreases rules.len(),
    {
        if rules.len() == 0 {
            Some(true)
        } else if self.rules_outcome(rules.drop_last()) == Some(true) {
            self.rule_outcome(rules.last())
        } else {
            self.rules_outcome(rules.drop_last())
        }
    }

    /// Creates a piston rule matcher with the provided OS information.
    #[must_use]
    pub fn new(os_name: String, os_arch: String, os_version: String) -> (matcher: Self)
        ensures
            matcher.os.name == os_name,
            matcher.os.arch == os_arch,
            matcher.os.version == os_version,
            matcher.features@ == Map::<Seq<char>, bool>::empty(),
    {
        Self {
            os: PistonOs { name: os_name, arch: os_arch, version: os_version },
            features: StringTable::new(),
        }
    }

    /// Creates a piston rule matcher with empty OS information.
    #[must_use]
    pub fn empty() -> (matcher: Self)
        ensures
            matcher.os.name@.len() == 0,
            matcher.os.arch@.len() == 0,
            matcher.os.version@.len() == 0,
            matcher.features@ == Map::<Seq<char>, bool>::empty(),
    {
        Self {
            os: PistonOs { name: String::new(), arch: String::new(), version: String::new() },
            features: StringTable::new(),
        }
    }

    /// Creates a rule matcher for a system that was probed: `family` is what
    /// the system was recognised as, `version` its version where one is
    /// known. No feature is switched on.
    #[must_use]
    pub fn for_system(family: HostFamily, arch: String, version: Option<String>) -> (matcher: Self)
        ensures
            matcher.os.name@ == family.name(),
            matcher.os.arch == arch,
            matcher.os.version@ == match version {
                Some(known) => known@,
                None => Seq::<char>::empty(),
            },
            matcher.features@ == Map::<Seq<char>, bool>::empty(),
    {
        let name = match family {
            HostFamily::Windows => "windows",
            HostFamily::Macos => "osx",
            HostFamily::Other => "linux",
        };
        let os_version = match version {
            Some(known) => known,
            None => String::new(),
        };
        Self::new(String::from_str(name), arch, os_version)
    }

    /// Whether the feature `name` is switched on for the host.
    pub fn feature_enabled(&self, name: &str) -> (enabled: bool)
        ensures
            enabled == self.has_feature(name@),
    {
        match self.features.get(name) {
            Some(on) => *on,
            None => false,
        }
    }

    /// Whether every key of `required` is a feature switched on for the
    /// host.
    pub fn has_all(&self, required: &StringTable<bool>) -> (all: bool)
        ensures
            all == self.has_each(*required),
    {
        let mut i: usize = 0;
        while i < required.entries.len()
            invariant
                i <= required.entries@.len(),
                forall|j: int|
                    0 <= j < i ==> self.has_feature((#[trigger] required.entries@[j]).0@),
            decreases required.entries@.len() - i,
        {
            if !self.feature_enabled(required.entries[i].0.as_str()) {
                proof {
                    let missing = required.entries@[i as int].0@;
                    required.lemma_entry_key(i as int);
                    assert(required@.contains_key(missing) && !self.has_feature(missing));
                }
                return false;
            }
            i += 1;
        }
        proof {
            assert forall|feature: Seq<char>| #[trigger]
                required@.contains_key(feature) implies self.has_feature(feature) by {
                let j = required.lemma_key_entry(feature);
            }
        }
        true
    }

    /// Whether the host has every feature that the constraint names.
    pub fn match_features(&self, constraint: &PistonRuleConstraints) -> (all: bool)
        ensures
            all == self.has_features(*constraint),
    {
        match &constraint.features {
            Some(required) => self.has_all(required),
            None => true,
        }
    }

    /// Whether the host's system has the name and the architecture that the
    /// constraint asks for.
    pub fn match_os_name(&self, constraint: &PistonRuleConstraints) -> (named: bool)
        ensures
            named == self.is_named(*constraint),
    {
        match &constraint.os {
            Some(os) => {
                if !os.name.as_str().is_empty() && !os.name.as_str().eq(
                    self.os.name.as_str(),
                ) {
                    return false;
                }
                if !os.arch.as_str().is_empty() && !os.arch.as_str().eq(
                    self.os.arch.as_str(),
                ) {
                    return false;
                }
                true
            },
            None => true,
        }
    }

    /// What the constraint comes to once the search for its version pattern
    /// has given `searched`: the error of a pattern that does not compile,
    /// and else whether the pattern was found and the features are there.
    ///
    /// This is for a constraint whose system's name and architecture the
    /// host has already been found to have.
    pub fn conclude_constraint(
        &self,
        constraint: &PistonRuleConstraints,
        searched: Result<bool, regex::Error>,
    ) -> (verdict: Result<bool, McError>)
        ensures
            match searched {
                Ok(hit) => verdict == Ok::<bool, McError>(hit && self.has_features(*constraint)),
                Err(error) => verdict == Err::<bool, McError>(McError::Regex(error)),
            },
    {
        match searched {
            Ok(hit) => Ok(hit && self.match_features(constraint)),
            Err(error) => Err(McError::Regex(error)),
        }
    }

    /// Whether the host meets the constraint. The version pattern is
    /// compiled only where the name and the architecture fit; if it does not
    /// compile, the error says so.
    pub fn match_constraint(&self, constraint: &PistonRuleConstraints) -> (verdict: Result<
        bool,
        McError,
    >)
        ensures
            match verdict {
                Ok(met) => self.constraint_outcome(*constraint) == Some(met),
                Err(error) => self.constraint_outcome(*constraint) is None && error is Regex,
            },
    {
        if !self.match_os_name(constraint) {
            return Ok(false);
        }
        match &constraint.os {
            Some(os) => {
                if !os.version.as_str().is_empty() {
                    let searched = search(os.version.as_str(), self.os.version.as_str());
                    return self.conclude_constraint(constraint, searched);
                }
            },
            None => {},
        }
        Ok(self.match_features(constraint))
    }

    /// Whether the host passes the rule: it meets what the rule allows, or
    /// does not meet what the rule denies.
    pub fn match_rule(&self, rule: &PistonRule) -> (verdict: Result<bool, McError>)
        ensures
            match verdict {
                Ok(passed) => self.rule_outcome(*rule) == Some(passed),
                Err(error) => self.rule_outcome(*rule) is None && error is Regex,
            },
    {
        match rule {
            PistonRule::Allow(constraint) => self.match_constraint(constraint),
            PistonRule::Deny(constraint) => {
                match self.match_constraint(constraint) {
                    Ok(met) => Ok(!met),
                    Err(error) => Err(error),
                }
            },
        }
    }

    /// Whether the host passes every rule of the list. The rules are read in
    /// order and the first that does not pass ends the reading; an empty
    /// list is passed.
    pub fn match_rules(&self, rules: &Vec<PistonRule>) -> (verdict: Result<bool, McError>)
        ensures
            match verdict {
                Ok(passed) => self.rules_outcome(rules@) == Some(passed),
                Err(error) => self.rules_outcome(rules@) is None && error is Regex,
            },
    {
        let mut i: usize = 0;
        while i < rules.len()
            invariant
                i <= rules@.len(),
                self.rules_outcome(rules@.take(i as int)) == Some(true),
            decreases rules@.len() - i,
        {
            assert(rules@.take(i + 1).drop_last() =~= rules@.take(i as int));
            match self.match_rule(&rules[i]) {
                Ok(true) => {},
                Ok(false) => {
                    proof {
                        self.lemma_decided(rules@, i + 1);
                    }
                    return Ok(false);
                },
                Err(error) => {
                    proof {
                        self.lemma_decided(rules@, i + 1);
                    }
                    return Err(error);
                },
            }
            i += 1;
        }
        assert(rules@.take(i as int) =~= rules@);
        Ok(true)
    }

    /// The empty list of rules is passed by every host.
    pub proof fn lemma_no_rules_pass(&self)
        ensures
            self.rules_outcome(Seq::<PistonRule>::empty()) == Some(true),
    {
    }

    /// A rule that allows is passed exactly where its constraint is met, a
    /// rule that denies exactly where it is not; either fails to be told
    /// where the constraint does.
    pub proof fn lemma_allow_and_deny(&self, constraint: PistonRuleConstraints)
        ensures
            self.rule_outcome(PistonRule::Allow(constraint)) == self.constraint_outcome(
                constraint,
            ),
            self.rule_outcome(PistonRule::Deny(constraint)) == negated(
                self.constraint_outcome(constraint),
            ),
            self.constraint_outcome(constraint) == Some(true) ==> self.rule_outcome(
                PistonRule::Deny(constraint),
            ) == Some(false),
            self.constraint_outcome(constraint) == Some(false) ==> self.rule_outcome(
                PistonRule::Deny(constraint),
            ) == Some(true),
    {
    }

    /// A constraint that asks nothing is met by every host: absent parts,
    /// empty fields and an empty list of features exclude nobody.
    pub proof fn lemma_nothing_asked(&self, constraint: PistonRuleConstraints)
        requires
            constraint.os matches Some(os) ==> os.name@.len() == 0 && os.arch@.len() == 0
                && os.version@.len() == 0,
            constraint.features matches Some(required) ==> required@ == Map::<
                Seq<char>,
                bool,
            >::empty(),
        ensures
            self.constraint_outcome(constraint) == Some(true),
    {
    }

    /// A feature that the host does not list counts as switched off.
    pub proof fn lemma_absent_feature_is_off(&self, feature: Seq<char>)
        requires
            !self.features@.contains_key(feature),
        ensures
            !self.has_feature(feature),
    {
    }

    /// A list of rules is passed exactly where each of its rules is passed.
    pub proof fn lemma_all_rules_pass(&self, rules: Seq<PistonRule>)
        ensures
            self.rules_outcome(rules) == Some(true) <==> forall|i: int|
                0 <= i < rules.len() ==> self.rule_outcome(#[trigger] rules[i]) == Some(true),
        decreases rules.len(),
    {
        if rules.len() > 0 {
            let front = rules.drop_last();
            self.lemma_all_rules_pass(front);
            if self.rules_outcome(rules) == Some(true) {
                assert forall|i: int| 0 <= i < rules.len() implies self.rule_outcome(
                    #[trigger] rules[i],
                ) == Some(true) by {
                    if i < front.len() {
                        assert(rules[i] == front[i]);
                    }
                }
            }
            if forall|i: int|
                0 <= i < rules.len() ==> self.rule_outcome(#[trigger] rules[i]) == Some(true) {
                assert forall|i: int| 0 <= i < front.len() implies self.rule_outcome(
                    #[trigger] front[i],
                ) == Some(true) by {
                    assert(front[i] == rules[i]);
                }
                assert(self.rule_outcome(rules.last()) == Some(true));
            }
        }
    }

    /// The first rule that is not passed decides the list: where it fails,
    /// the list fails; where it cannot be told, neither can the list.
    pub proof fn lemma_first_failure_decides(&self, rules: Seq<PistonRule>, k: int)
        requires
            0 <= k < rules.len(),
            self.rule_outcome(rules[k]) != Some(true),
            forall|j: int| 0 <= j < k ==> self.rule_outcome(#[trigger] rules[j]) == Some(true),
        ensures
            self.rules_outcome(rules) == self.rule_outcome(rules[k]),
    {
        let front = rules.take(k);
        assert forall|i: int| 0 <= i < front.len() implies self.rule_outcome(
            #[trigger] front[i],
        ) == Some(true) by {
            assert(front[i] == rules[i]);
        }
        self.lemma_all_rules_pass(front);
        assert(rules.take(k + 1).drop_last() =~= front);
        assert(rules.take(k + 1).last() == rules[k]);
        self.lemma_decided(rules, k + 1);
    }

    /// Where every rule can be told to pass or to fail, so can the list.
    pub proof fn lemma_outcome_told(&self, rules: Seq<PistonRule>)
        requires
            forall|i: int| 0 <= i < rules.len() ==> self.rule_outcome(#[trigger] rules[i]) is Some,
        ensures
            self.rules_outcome(rules) is Some,
        decreases rules.len(),
    {
        if rules.len() > 0 {
            let front = rules.drop_last();
            assert forall|i: int| 0 <= i < front.len() implies self.rule_outcome(
                #[trigger] front[i],
            ) is Some by {
                assert(front[i] == rules[i]);
            }
            self.lemma_outcome_told(front);
            assert(self.rule_outcome(rules.last()) is Some);
        }
    }

    /// Where every rule can be told to pass or to fail and one of them
    /// fails, the list fails.
    pub proof fn lemma_any_failure_fails(&self, rules: Seq<PistonRule>, k: int)
        requires
            0 <= k < rules.len(),
            self.rule_outcome(rules[k]) == Some(false),
            forall|i: int| 0 <= i < rules.len() ==> self.rule_outcome(#[trigger] rules[i]) is Some,
        ensures
            self.rules_outcome(rules) == Some(false),
    {
        self.lemma_outcome_told(rules);
        self.lemma_all_rules_pass(rules);
    }

    /// Once the first `k` rules have not all passed, the rules after them
    /// change nothing.
    pub proof fn lemma_decided(&self, rules: Seq<PistonRule>, k: int)
        requires
            0 <= k <= rules.len(),
            self.rules_outcome(rules.take(k)) != Some(true),
        ensures
            self.rules_outcome(rules) == self.rules_outcome(rules.take(k)),
        decreases rules.len() - k,
    {
        if k == rules.len() {
            assert(rules.take(k) =~= rules);
        } else {
            assert(rules.take(k + 1).drop_last() =~= rules.take(k));
            self.lemma_decided(rules, k + 1);
        }
    }
}

} // verus!
