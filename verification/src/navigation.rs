//! The navigation policy interceptor: which top-level navigations are
//! cancelled and loaded again under a custom scheme.
//!
//! Per decision the interceptor is a state machine with one step: from
//! pending to rewritten-and-cancelled, allowed or not-applicable.

use vstd::prelude::*;
use vstd::string::StringExecFns;
use vstd::string::StrSliceExecFns;
use crate::address::lemma_split_joined;
use crate::address::spec_scheme_prefix;
use crate::address::spec_split;
use crate::address::split_identifier;
use crate::scheme::RewriteRule;
use crate::scheme::RewriteRuleView;
use crate::scheme::rules_view;
use crate::scheme::SchemeTable;
use crate::scheme::SchemeTableView;
use crate::text::has_prefix;
use crate::text::has_suffix;

verus! {

/// What the engine asks a decision for.
#[derive(Clone, Copy, Debug, PartialEq, Eq, Structural)]
pub enum DecisionKind {
    /// A top-level navigation.
    NavigationAction,
    /// A request to open a new window.
    NewWindowAction,
    /// A response; a sub-load.
    Response,
    /// A kind that the engine may add.
    Other,
}

/// One pending decision: its kind and the address it is about, where the
/// engine names one. A target is handed to the interceptor by value: it is
/// decided once.
#[derive(Debug)]
pub struct NavigationTarget {
    pub kind: DecisionKind,
    pub uri: Option<String>,
}

/// The mathematical value of a `NavigationTarget`.
pub struct NavigationTargetView {
    pub kind: DecisionKind,
    pub uri: Option<Seq<char>>,
}

impl View for NavigationTarget {
    type V = NavigationTargetView;

    open spec fn view(&self) -> NavigationTargetView {
        NavigationTargetView {
            kind: self.kind,
            uri: match self.uri {
                Some(u) => Some(u@),
                None => None,
            },
        }
    }
}

/// Where a decision ends.
#[derive(Debug)]
pub enum NavigationOutcome {
    /// The navigation is cancelled, and `address` is loaded in its place.
    Rewritten { address: String },
    /// The navigation proceeds as it is.
    Allowed,
    /// The decision is none of the interceptor's.
    NotApplicable,
}

/// The mathematical value of a `NavigationOutcome`.
pub enum NavigationOutcomeView {
    Rewritten { address: Seq<char> },
    Allowed,
    NotApplicable,
}

impl NavigationOutcomeView {
    /// Whether the interceptor took the decision over.
    pub open spec fn handled(self) -> bool {
        self is Rewritten
    }
}

impl View for NavigationOutcome {
    type V = NavigationOutcomeView;

    open spec fn view(&self) -> NavigationOutcomeView {
        match self {
            NavigationOutcome::Rewritten { address } => NavigationOutcomeView::Rewritten {
                address: address@,
            },
            NavigationOutcome::Allowed => NavigationOutcomeView::Allowed,
            NavigationOutcome::NotApplicable => NavigationOutcomeView::NotApplicable,
        }
    }
}

impl NavigationOutcome {
    /// Whether the interceptor took the decision over: `true` tells the
    /// engine to drop its own policy for this decision.
    pub fn handled(&self) -> (r: bool)
        ensures
            r == self@.handled(),
    {
        match self {
            NavigationOutcome::Rewritten { .. } => true,
            _ => false,
        }
    }
}

/// What follows `https://` or `http://` in an address of ordinary web
/// traffic; nothing for any other address.
pub open spec fn spec_web_rest(uri: Seq<char>) -> Option<Seq<char>> {
    if "https://"@.is_prefix_of(uri) {
        Some(uri.skip("https://"@.len() as int))
    } else if "http://"@.is_prefix_of(uri) {
        Some(uri.skip("http://"@.len() as int))
    } else {
        None
    }
}

/// The domain of what follows the web prefix: all before the first `/`.
pub open spec fn spec_domain(rest: Seq<char>) -> Seq<char> {
    spec_split(rest).0
}

/// Rule `k` is the first in registration order whose suffix ends `domain`.
pub open spec fn is_first_match(rules: Seq<RewriteRuleView>, domain: Seq<char>, k: int) -> bool {
    &&& 0 <= k < rules.len()
    &&& rules[k].domain_suffix.is_suffix_of(domain)
    &&& forall|j: int| 0 <= j < k ==> !(#[trigger] rules[j]).domain_suffix.is_suffix_of(domain)
}

/// `domain` is outside the table: no rule's suffix ends it.
pub open spec fn no_rule_matches(rules: Seq<RewriteRuleView>, domain: Seq<char>) -> bool {
    forall|j: int| 0 <= j < rules.len() ==> !(#[trigger] rules[j]).domain_suffix.is_suffix_of(domain)
}

/// The rule that rewrites `domain`: the first one that matches.
pub open spec fn spec_first_match(rules: Seq<RewriteRuleView>, domain: Seq<char>) -> Option<int> {
    if exists|k: int| is_first_match(rules, domain, k) {
        Some(choose|k: int| is_first_match(rules, domain, k))
    } else {
        None
    }
}

/// The outcome of the decision `target` under `table`.
pub open spec fn spec_intercept(table: SchemeTableView, target: NavigationTargetView)
    -> NavigationOutcomeView {
    if target.kind != DecisionKind::NavigationAction {
        NavigationOutcomeView::NotApplicable
    } else {
        match target.uri {
            None => NavigationOutcomeView::NotApplicable,
            Some(uri) => match spec_web_rest(uri) {
                None => NavigationOutcomeView::NotApplicable,
                Some(rest) => match spec_first_match(table.rewrites, spec_domain(rest)) {
                    Some(k) => NavigationOutcomeView::Rewritten {
                        address: spec_scheme_prefix(table.scheme_name(table.rewrites[k].scheme))
                            + rest,
                    },
                    None => NavigationOutcomeView::Allowed,
                },
            },
        }
    }
}

/// There is one first match at most, and `spec_first_match` names it.
pub proof fn lemma_first_match_is_unique(rules: Seq<RewriteRuleView>, domain: Seq<char>, k: int)
    requires
        is_first_match(rules, domain, k),
    ensures
        spec_first_match(rules, domain) == Some(k),
{
    let c = choose|c: int| is_first_match(rules, domain, c);
    if c < k {
        assert(!rules[c].domain_suffix.is_suffix_of(domain));
    } else if k < c {
        assert(!rules[k].domain_suffix.is_suffix_of(domain));
    }
}

/// A domain outside the table has no first match.
pub proof fn lemma_no_match_outside_table(rules: Seq<RewriteRuleView>, domain: Seq<char>)
    requires
        no_rule_matches(rules, domain),
    ensures
        spec_first_match(rules, domain) is None,
{
    if exists|k: int| is_first_match(rules, domain, k) {
        let k = choose|k: int| is_first_match(rules, domain, k);
        assert(!rules[k].domain_suffix.is_suffix_of(domain));
    }
}

/// The rewrite is a no-op for every domain outside the suffix table:
/// whatever the decision's kind and address, where no registered suffix
/// ends the domain the interceptor does not take the decision over.
pub proof fn lemma_unregistered_domain_not_handled(
    table: SchemeTableView,
    target: NavigationTargetView,
)
    requires
        target.uri matches Some(uri) ==> (spec_web_rest(uri) matches Some(rest) ==> no_rule_matches(
            table.rewrites,
            spec_domain(rest),
        )),
    ensures
        !spec_intercept(table, target).handled(),
{
    if target.uri is Some && spec_web_rest(target.uri->0) is Some {
        lemma_no_match_outside_table(table.rewrites, spec_domain(spec_web_rest(target.uri->0)->0));
    }
}

/// With an empty table no navigation is ever taken over.
pub proof fn lemma_empty_table_handles_nothing(table: SchemeTableView, target: NavigationTargetView)
    requires
        table.rewrites.len() == 0,
    ensures
        !spec_intercept(table, target).handled(),
{
    lemma_unregistered_domain_not_handled(table, target);
}

/// Only ordinary web traffic of a top-level navigation is ever rewritten,
/// and the rewritten address is the scheme prefix of the first matching
/// rule followed by everything that followed the web prefix.
pub proof fn lemma_rewrite_keeps_the_rest(table: SchemeTableView, target: NavigationTargetView)
    requires
        spec_intercept(table, target).handled(),
    ensures
        target.kind == DecisionKind::NavigationAction,
        target.uri is Some,
        spec_web_rest(target.uri->0) is Some,
        exists|k: int|
            is_first_match(table.rewrites, spec_domain(spec_web_rest(target.uri->0)->0), k)
                && spec_intercept(table, target) == (NavigationOutcomeView::Rewritten {
                address: spec_scheme_prefix(table.scheme_name(table.rewrites[k].scheme))
                    + spec_web_rest(target.uri->0)->0,
            }),
{
    let rest = spec_web_rest(target.uri->0)->0;
    let k = spec_first_match(table.rewrites, spec_domain(rest))->0;
    assert(is_first_match(table.rewrites, spec_domain(rest), k));
}

/// A top-level navigation to `http://domain/path` whose domain ends with
/// a registered suffix is rewritten to `scheme://domain/path`, for the
/// scheme of the first rule that matches; likewise for `https://`.
pub proof fn lemma_rewrite_of_registered_domain(
    table: SchemeTableView,
    secure: bool,
    domain: Seq<char>,
    path: Seq<char>,
    k: int,
)
    requires
        !domain.contains('/'),
        is_first_match(table.rewrites, domain, k),
    ensures
        spec_intercept(
            table,
            NavigationTargetView {
                kind: DecisionKind::NavigationAction,
                uri: Some(
                    (if secure {
                        "https://"@
                    } else {
                        "http://"@
                    }) + (domain + seq!['/'] + path),
                ),
            },
        ) == (NavigationOutcomeView::Rewritten {
            address: spec_scheme_prefix(table.scheme_name(table.rewrites[k].scheme)) + (domain
                + seq!['/'] + path),
        }),
{
    reveal_strlit("https://");
    reveal_strlit("http://");
    let rest = domain + seq!['/'] + path;
    let prefix = if secure {
        "https://"@
    } else {
        "http://"@
    };
    let uri = prefix + rest;
    assert(uri.subrange(0, prefix.len() as int) =~= prefix);
    assert(uri.skip(prefix.len() as int) =~= rest);
    if !secure {
        assert(uri[4] == ':');
        assert("https://"@[4] == 's');
        if "https://"@.is_prefix_of(uri) {
            assert(uri.subrange(0, 8)[4] == uri[4]);
        }
    }
    assert(spec_web_rest(uri) == Some(rest));
    lemma_split_joined(domain, path);
    lemma_first_match_is_unique(table.rewrites, domain, k);
}

/// Strips `https://` or `http://`; nothing for an address with neither.
pub fn web_rest(uri: &str) -> (r: Option<&str>)
    ensures
        r is Some <==> spec_web_rest(uri@) is Some,
        r matches Some(rest) ==> spec_web_rest(uri@) == Some(rest@),
{
    let n = uri.unicode_len();
    if has_prefix(uri, "https://") {
        let m = "https://".unicode_len();
        Some(uri.substring_char(m, n))
    } else if has_prefix(uri, "http://") {
        let m = "http://".unicode_len();
        Some(uri.substring_char(m, n))
    } else {
        None
    }
}

/// Finds the first rule, in registration order, whose suffix ends `domain`.
pub fn first_match(rules: &Vec<RewriteRule>, domain: &str) -> (r: Option<usize>)
    ensures
        r is Some <==> spec_first_match(rules_view(rules@), domain@) is Some,
        r matches Some(k) ==> spec_first_match(rules_view(rules@), domain@) == Some(k as int)
            && is_first_match(rules_view(rules@), domain@, k as int),
        r is None ==> no_rule_matches(rules_view(rules@), domain@),
{
    let ghost views = rules_view(rules@);
    let mut k: usize = 0;
    while k < rules.len()
        invariant
            k <= rules.len(),
            views == rules_view(rules@),
            forall|j: int| 0 <= j < k ==> !(#[trigger] views[j]).domain_suffix.is_suffix_of(domain@),
        decreases rules.len() - k,
    {
        if has_suffix(domain, rules[k].domain_suffix.as_str()) {
            proof {
                assert(views[k as int] == rules@[k as int]@);
                assert(is_first_match(views, domain@, k as int));
                lemma_first_match_is_unique(views, domain@, k as int);
            }
            return Some(k);
        }
        proof {
            assert(views[k as int] == rules@[k as int]@);
        }
        k = k + 1;
    }
    proof {
        assert(no_rule_matches(views, domain@));
        lemma_no_match_outside_table(views, domain@);
    }
    None
}

/// Decides one pending decision. A top-level navigation to ordinary web
/// traffic whose domain ends with a registered suffix is rewritten to the
/// scheme of the first such rule; any other such navigation is allowed;
/// everything else is not applicable.
pub fn intercept(table: &SchemeTable, target: NavigationTarget) -> (r: NavigationOutcome)
    ensures
        r@ == spec_intercept(table@, target@),
{
    match target.kind {
        DecisionKind::NavigationAction => {},
        _ => {
            return NavigationOutcome::NotApplicable;
        },
    }
    let uri = match target.uri {
        Some(uri) => uri,
        None => {
            return NavigationOutcome::NotApplicable;
        },
    };
    let rest = match web_rest(uri.as_str()) {
        Some(rest) => rest,
        None => {
            return NavigationOutcome::NotApplicable;
        },
    };
    let parts = split_identifier(rest);
    match first_match(&table.rewrites, parts.0.as_str()) {
        Some(k) => {
            let scheme = table.scheme_name(table.rewrites[k].scheme);
            let address = String::from_str(scheme).concat("://").concat(rest);
            proof {
                assert(table@.rewrites[k as int] == table.rewrites@[k as int]@);
            }
            NavigationOutcome::Rewritten { address }
        },
        None => NavigationOutcome::Allowed,
    }
}

/// What the embedding window does about one decision.
#[derive(Debug)]
pub enum PolicyAction {
    /// Cancel the navigation and load `address` in the same view.
    LoadRewritten { address: String },
    /// Cancel the request and open `uri` in a new tab.
    OpenTab { uri: String },
    /// Leave the decision to the engine.
    Proceed,
}

/// The mathematical value of a `PolicyAction`.
pub enum PolicyActionView {
    LoadRewritten { address: Seq<char> },
    OpenTab { uri: Seq<char> },
    Proceed,
}

impl PolicyActionView {
    /// Whether the decision was taken over from the engine.
    pub open spec fn handled(self) -> bool {
        !(self is Proceed)
    }
}

impl View for PolicyAction {
    type V = PolicyActionView;

    open spec fn view(&self) -> PolicyActionView {
        match self {
            PolicyAction::LoadRewritten { address } => PolicyActionView::LoadRewritten {
                address: address@,
            },
            PolicyAction::OpenTab { uri } => PolicyActionView::OpenTab { uri: uri@ },
            PolicyAction::Proceed => PolicyActionView::Proceed,
        }
    }
}

impl PolicyAction {
    /// The answer to the engine: `true` where the decision was taken over.
    pub fn handled(&self) -> (r: bool)
        ensures
            r == self@.handled(),
    {
        match self {
            PolicyAction::Proceed => false,
            _ => true,
        }
    }
}

/// The action on the decision `target` under `table`: a new-window request
/// that names an address opens a tab, a navigation goes by the
/// interceptor, and everything else proceeds.
pub open spec fn spec_decide_policy(table: SchemeTableView, target: NavigationTargetView)
    -> PolicyActionView {
    match target.kind {
        DecisionKind::NewWindowAction => match target.uri {
            Some(uri) => PolicyActionView::OpenTab { uri },
            None => PolicyActionView::Proceed,
        },
        _ => match spec_intercept(table, target) {
            NavigationOutcomeView::Rewritten { address } => PolicyActionView::LoadRewritten {
                address,
            },
            _ => PolicyActionView::Proceed,
        },
    }
}

/// A navigation is taken over exactly where the interceptor rewrites it.
pub proof fn lemma_navigation_handled_iff_rewritten(
    table: SchemeTableView,
    target: NavigationTargetView,
)
    requires
        target.kind != DecisionKind::NewWindowAction,
    ensures
        spec_decide_policy(table, target).handled() == spec_intercept(table, target).handled(),
{
}

/// Decides what the window does about one decision of the engine.
pub fn decide_policy(table: &SchemeTable, target: NavigationTarget) -> (r: PolicyAction)
    ensures
        r@ == spec_decide_policy(table@, target@),
{
    match target.kind {
        DecisionKind::NewWindowAction => match target.uri {
            Some(uri) => PolicyAction::OpenTab { uri },
            None => PolicyAction::Proceed,
        },
        _ => match intercept(table, target) {
            NavigationOutcome::Rewritten { address } => PolicyAction::LoadRewritten { address },
            _ => PolicyAction::Proceed,
        },
    }
}

} // verus!
