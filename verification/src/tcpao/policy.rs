//! Choice of the policy that applies to a peer.

use crate::addr::IpAddress;
use crate::config::{peer_tuples_unique, policy_views, same_peer, AoPolicyConfig, PolicyView};
use vstd::multiset::Multiset;
use vstd::prelude::*;

verus! {

/// The three ways in which a policy can be matched against a peer address.
pub enum Rule {
    /// The policy names the address and exactly this port.
    Exact(u16),
    /// The policy names the address and no port.
    IpOnly,
    /// The policy names the address, with or without a port.
    AnyPort,
}

impl Rule {
    /// Whether `policy` matches the peer address `ip` under this rule.
    pub open spec fn admits(self, ip: IpAddress, policy: PolicyView) -> bool {
        policy.peer_ip == ip && match self {
            Rule::Exact(port) => policy.peer_port == Some(port),
            Rule::IpOnly => policy.peer_port is None,
            Rule::AnyPort => true,
        }
    }

    pub open spec fn test(self, ip: IpAddress) -> spec_fn(PolicyView) -> bool {
        |policy: PolicyView| self.admits(ip, policy)
    }
}

/// The policies of `store` that match `ip` under `rule`, in declaration order.
pub open spec fn candidates(store: Seq<PolicyView>, ip: IpAddress, rule: Rule) -> Seq<PolicyView> {
    store.filter(rule.test(ip))
}

/// The policy that applies to the peer `ip`, whose port is `port` where it
/// is known.
///
/// With a port: a policy for exactly that port, else one for any port of
/// the address. Without one: the policy for any port, if it is the only
/// such; else the only policy for the address, if there is but one. Where
/// several policies would do for a peer whose port is not known, none
/// applies.
pub open spec fn selected(store: Seq<PolicyView>, ip: IpAddress, port: Option<u16>) -> Option<
    PolicyView,
> {
    let ip_only = candidates(store, ip, Rule::IpOnly);
    match port {
        Some(p) => {
            let exact = candidates(store, ip, Rule::Exact(p));
            if exact.len() > 0 {
                Some(exact[0])
            } else if ip_only.len() > 0 {
                Some(ip_only[0])
            } else {
                None
            }
        },
        None => {
            let any = candidates(store, ip, Rule::AnyPort);
            if ip_only.len() > 0 {
                if ip_only.len() == 1 {
                    Some(ip_only[0])
                } else {
                    None
                }
            } else if any.len() == 1 {
                Some(any[0])
            } else {
                None
            }
        },
    }
}

fn admits(rule: &Rule, ip: IpAddress, policy: &AoPolicyConfig) -> (yes: bool)
    ensures
        yes == rule.admits(ip, policy@),
{
    policy.peer_ip == ip && match rule {
        Rule::Exact(port) => match policy.peer_port {
            Some(p) => p == *port,
            None => false,
        },
        Rule::IpOnly => policy.peer_port.is_none(),
        Rule::AnyPort => true,
    }
}

/// Counts the candidates and finds the first of them.
fn scan(policies: &[AoPolicyConfig], ip: IpAddress, rule: Rule) -> (found: (usize, usize))
    ensures
        found.0 == candidates(policy_views(policies@), ip, rule).len(),
        found.0 > 0 ==> found.1 < policies.len() && candidates(policy_views(policies@), ip, rule)[0]
            == policies[found.1 as int]@,
{
    let ghost store = policy_views(policies@);
    let ghost test = rule.test(ip);
    let mut count: usize = 0;
    let mut first: usize = 0;
    let mut at: usize = 0;
    proof {
        store.take(0).lemma_filter_len(test);
    }
    while at < policies.len()
        invariant
            at <= policies.len(),
            store == policy_views(policies@),
            test == rule.test(ip),
            count <= at,
            count == store.take(at as int).filter(test).len(),
            count > 0 ==> first < at && store.take(at as int).filter(test)[0] == store[first as int],
        decreases policies.len() - at,
    {
        proof {
            assert(store.take(at + 1) =~= store.take(at as int).push(store[at as int]));
            store.take(at as int).lemma_filter_push(store[at as int], test);
        }
        if admits(&rule, ip, &policies[at]) {
            if count == 0 {
                first = at;
            }
            count += 1;
        }
        at += 1;
    }
    assert(store.take(at as int) =~= store);
    (count, first)
}

/// Chooses the policy for a peer.
pub fn select_policy<'a>(
    policies: &'a [AoPolicyConfig],
    peer_ip: IpAddress,
    peer_port: Option<u16>,
) -> (chosen: Option<&'a AoPolicyConfig>)
    ensures
        match chosen {
            Some(policy) => selected(policy_views(policies@), peer_ip, peer_port) == Some(policy@)
                && policies@.contains(*policy),
            None => selected(policy_views(policies@), peer_ip, peer_port) is None,
        },
{
    if let Some(port) = peer_port {
        let (exact, first_exact) = scan(policies, peer_ip, Rule::Exact(port));
        if exact > 0 {
            return Some(&policies[first_exact]);
        }
        let (ip_only, first_ip_only) = scan(policies, peer_ip, Rule::IpOnly);
        if ip_only > 0 {
            return Some(&policies[first_ip_only]);
        }
        return None;
    }
    let (ip_only, first_ip_only) = scan(policies, peer_ip, Rule::IpOnly);
    if ip_only > 0 {
        return if ip_only == 1 {
            Some(&policies[first_ip_only])
        } else {
            None
        };
    }
    let (any, first_any) = scan(policies, peer_ip, Rule::AnyPort);
    if any == 1 {
        Some(&policies[first_any])
    } else {
        None
    }
}

/// Whether some policy of the store matches `ip` under `rule`.
pub open spec fn has_candidate(store: Seq<PolicyView>, ip: IpAddress, rule: Rule) -> bool {
    exists|i: int| 0 <= i < store.len() && rule.admits(ip, #[trigger] store[i])
}

/// Whether all candidates under `rule` are one and the same policy.
pub open spec fn candidates_agree(store: Seq<PolicyView>, ip: IpAddress, rule: Rule) -> bool {
    let found = candidates(store, ip, rule);
    forall|i: int, j: int| 0 <= i < found.len() && 0 <= j < found.len() ==> found[i] == found[j]
}

/// Whether the rule that decides for a peer with a known port has
/// candidates that are one and the same policy.
pub open spec fn decided_alike(store: Seq<PolicyView>, ip: IpAddress, port: u16) -> bool {
    if candidates(store, ip, Rule::Exact(port)).len() > 0 {
        candidates_agree(store, ip, Rule::Exact(port))
    } else {
        candidates_agree(store, ip, Rule::IpOnly)
    }
}

/// The candidates are the policies that the rule admits: there is one
/// exactly if the store holds a policy that the rule admits, each candidate
/// is admitted, and each is a policy of the store.
pub proof fn lemma_candidates(store: Seq<PolicyView>, ip: IpAddress, rule: Rule)
    ensures
        candidates(store, ip, rule).len() > 0 <==> has_candidate(store, ip, rule),
        forall|k: int|
            0 <= k < candidates(store, ip, rule).len() ==> rule.admits(
                ip,
                #[trigger] candidates(store, ip, rule)[k],
            ) && store.contains(candidates(store, ip, rule)[k]),
{
    let test = rule.test(ip);
    let found = store.filter(test);
    if has_candidate(store, ip, rule) {
        let i = choose|i: int| 0 <= i < store.len() && rule.admits(ip, #[trigger] store[i]);
        store.lemma_filter_contains(test, i);
    }
    assert forall|k: int| 0 <= k < found.len() implies rule.admits(ip, #[trigger] found[k])
        && store.contains(found[k]) by {
        store.lemma_filter_pred(test, k);
        store.lemma_filter_contains_rev(test, found[k]);
    }
    if found.len() > 0 {
        let i = choose|i: int| 0 <= i < store.len() && store[i] == found[0];
    }
}

/// With the peer's port known, the choice is a policy for exactly that
/// port if the store holds one; else a policy for any port of the address
/// if it holds one; else none.
pub proof fn lemma_selection_with_port(store: Seq<PolicyView>, ip: IpAddress, port: u16)
    ensures
        has_candidate(store, ip, Rule::Exact(port)) ==> selected(store, ip, Some(port)) is Some
            && Rule::Exact(port).admits(ip, selected(store, ip, Some(port))->0),
        !has_candidate(store, ip, Rule::Exact(port)) && has_candidate(store, ip, Rule::IpOnly)
            ==> selected(store, ip, Some(port)) is Some && Rule::IpOnly.admits(
            ip,
            selected(store, ip, Some(port))->0,
        ),
        !has_candidate(store, ip, Rule::Exact(port)) && !has_candidate(store, ip, Rule::IpOnly)
            ==> selected(store, ip, Some(port)) is None,
        selected(store, ip, Some(port)) matches Some(policy) ==> store.contains(policy),
{
    lemma_candidates(store, ip, Rule::Exact(port));
    lemma_candidates(store, ip, Rule::IpOnly);
}

/// With the peer's port unknown, and at most one policy for any port of the
/// address: the choice is that policy if the store holds it; else the one
/// policy for the address if there is exactly one; else none.
pub proof fn lemma_selection_without_port(store: Seq<PolicyView>, ip: IpAddress)
    requires
        candidates(store, ip, Rule::IpOnly).len() <= 1,
    ensures
        has_candidate(store, ip, Rule::IpOnly) ==> selected(store, ip, None) is Some
            && Rule::IpOnly.admits(ip, selected(store, ip, None)->0),
        !has_candidate(store, ip, Rule::IpOnly) && candidates(store, ip, Rule::AnyPort).len() == 1
            ==> selected(store, ip, None) is Some && Rule::AnyPort.admits(
            ip,
            selected(store, ip, None)->0,
        ),
        !has_candidate(store, ip, Rule::IpOnly) && candidates(store, ip, Rule::AnyPort).len() != 1
            ==> selected(store, ip, None) is None,
        selected(store, ip, None) matches Some(policy) ==> store.contains(policy),
{
    lemma_candidates(store, ip, Rule::IpOnly);
    lemma_candidates(store, ip, Rule::AnyPort);
}

/// In a store where no two policies claim the same peer, a rule that fixes
/// the port has at most one candidate.
pub proof fn lemma_unique_peers_one_candidate(store: Seq<PolicyView>, ip: IpAddress, rule: Rule)
    requires
        peer_tuples_unique(store),
        !(rule is AnyPort),
    ensures
        candidates(store, ip, rule).len() <= 1,
        candidates_agree(store, ip, rule),
    decreases store.len(),
{
    let test = rule.test(ip);
    if store.len() == 0 {
        store.lemma_filter_len(test);
    } else {
        let rest = store.drop_last();
        let last = store.last();
        assert(store =~= rest.push(last));
        assert forall|i: int, j: int| 0 <= i < j < rest.len() implies !same_peer(
            rest[i],
            rest[j],
        ) by {}
        lemma_unique_peers_one_candidate(rest, ip, rule);
        rest.lemma_filter_push(last, test);
        if test(last) && rest.filter(test).len() > 0 {
            let earlier = rest.filter(test)[0];
            lemma_candidates(rest, ip, rule);
            let i = choose|i: int| 0 <= i < rest.len() && rest[i] == earlier;
            assert(same_peer(store[i], store[store.len() - 1]));
        }
    }
}

/// Filtering a sequence and then forgetting the order is filtering what is
/// left of it once the order is forgotten.
proof fn lemma_filter_to_multiset(s: Seq<PolicyView>, test: spec_fn(PolicyView) -> bool)
    ensures
        s.filter(test).to_multiset() == s.to_multiset().filter(test),
    decreases s.len(),
{
    broadcast use vstd::multiset::group_multiset_axioms;

    if s.len() == 0 {
        s.lemma_filter_len(test);
        vstd::seq_lib::to_multiset_len(s);
        vstd::seq_lib::to_multiset_len(s.filter(test));
        vstd::multiset::lemma_multiset_empty_len(s.to_multiset());
        vstd::multiset::lemma_multiset_empty_len(s.filter(test).to_multiset());
    } else {
        let rest = s.drop_last();
        let last = s.last();
        assert(s =~= rest.push(last));
        lemma_filter_to_multiset(rest, test);
        rest.lemma_filter_push(last, test);
        vstd::seq_lib::to_multiset_build(rest, last);
        if test(last) {
            vstd::seq_lib::to_multiset_build(rest.filter(test), last);
        }
    }
}

/// Two sequences with the same elements, each as often, of which one holds
/// one value only, begin with the same element.
proof fn lemma_same_first(a: Seq<PolicyView>, b: Seq<PolicyView>)
    requires
        a.to_multiset() == b.to_multiset(),
        forall|i: int, j: int| 0 <= i < a.len() && 0 <= j < a.len() ==> a[i] == a[j],
    ensures
        a.len() == b.len(),
        a.len() > 0 ==> a[0] == b[0],
{
    vstd::seq_lib::to_multiset_len(a);
    vstd::seq_lib::to_multiset_len(b);
    if a.len() > 0 {
        vstd::seq_lib::to_multiset_contains(b, b[0]);
        vstd::seq_lib::to_multiset_contains(a, b[0]);
        let k = choose|k: int| 0 <= k < a.len() && a[k] == b[0];
    }
}

/// The choice does not depend on the order in which the store declares its
/// policies: two stores that hold the same policies, each as often, give
/// the same choice. For a peer whose port is known this is stated of the
/// stores in which the candidates of the deciding rule are one and the same
/// policy; a store with two different policies for one peer and port gives
/// the one declared first.
pub proof fn lemma_selection_ignores_order(
    a: Seq<PolicyView>,
    b: Seq<PolicyView>,
    ip: IpAddress,
    port: Option<u16>,
)
    requires
        a.to_multiset() == b.to_multiset(),
        port matches Some(p) ==> decided_alike(a, ip, p),
    ensures
        selected(a, ip, port) == selected(b, ip, port),
{
    let ip_only_a = candidates(a, ip, Rule::IpOnly);
    let ip_only_b = candidates(b, ip, Rule::IpOnly);
    lemma_filter_to_multiset(a, Rule::IpOnly.test(ip));
    lemma_filter_to_multiset(b, Rule::IpOnly.test(ip));
    vstd::seq_lib::to_multiset_len(ip_only_a);
    vstd::seq_lib::to_multiset_len(ip_only_b);
    match port {
        Some(p) => {
            let exact_a = candidates(a, ip, Rule::Exact(p));
            let exact_b = candidates(b, ip, Rule::Exact(p));
            lemma_filter_to_multiset(a, Rule::Exact(p).test(ip));
            lemma_filter_to_multiset(b, Rule::Exact(p).test(ip));
            vstd::seq_lib::to_multiset_len(exact_a);
            vstd::seq_lib::to_multiset_len(exact_b);
            if exact_a.len() > 0 {
                lemma_same_first(exact_a, exact_b);
            } else {
                lemma_same_first(ip_only_a, ip_only_b);
            }
        },
        None => {
            let any_a = candidates(a, ip, Rule::AnyPort);
            let any_b = candidates(b, ip, Rule::AnyPort);
            lemma_filter_to_multiset(a, Rule::AnyPort.test(ip));
            lemma_filter_to_multiset(b, Rule::AnyPort.test(ip));
            vstd::seq_lib::to_multiset_len(any_a);
            vstd::seq_lib::to_multiset_len(any_b);
            if ip_only_a.len() == 1 {
                lemma_same_first(ip_only_a, ip_only_b);
            } else if ip_only_a.len() == 0 && any_a.len() == 1 {
                lemma_same_first(any_a, any_b);
            }
        },
    }
}

} // verus!
