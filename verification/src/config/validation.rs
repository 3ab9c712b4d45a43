//! Validation of a configuration record before any socket is opened.

use crate::config::{
    duplicate_name_error, duplicate_peer_error, first_repetition, first_unrecognized,
    key_source_kind, names_unique, peer_tuples_unique, policy_views,
    repeats_name, repeats_peer, same_peer, AoPolicyConfig, Config, Mode, PolicyView,
};
use crate::error::ProxyError;
use crate::text::append_decimal;
use vstd::prelude::*;
use vstd::string::*;

verus! {

fn name_seen(policies: &Vec<AoPolicyConfig>, at: usize) -> (seen: bool)
    requires
        at < policies.len(),
    ensures
        seen == repeats_name(policy_views(policies@), at as int),
{
    let ghost store = policy_views(policies@);
    let mut earlier: usize = 0;
    while earlier < at
        invariant
            earlier <= at < policies.len(),
            store == policy_views(policies@),
            forall|j: int| 0 <= j < earlier ==> store[j].name != store[at as int].name,
        decreases at - earlier,
    {
        if policies[earlier].name == policies[at].name {
            assert(store[earlier as int].name == store[at as int].name);
            return true;
        }
        earlier += 1;
    }
    false
}

fn peer_seen(policies: &Vec<AoPolicyConfig>, at: usize) -> (seen: bool)
    requires
        at < policies.len(),
    ensures
        seen == repeats_peer(policy_views(policies@), at as int),
{
    let ghost store = policy_views(policies@);
    let mut earlier: usize = 0;
    while earlier < at
        invariant
            earlier <= at < policies.len(),
            store == policy_views(policies@),
            forall|j: int| 0 <= j < earlier ==> !same_peer(store[j], store[at as int]),
        decreases at - earlier,
    {
        if policies[earlier].peer_ip == policies[at].peer_ip && policies[earlier].peer_port
            == policies[at].peer_port {
            assert(same_peer(store[earlier as int], store[at as int]));
            return true;
        }
        earlier += 1;
    }
    false
}

fn duplicate_name(policy: &AoPolicyConfig) -> (error: ProxyError)
    ensures
        error@ == duplicate_name_error(policy@.name),
{
    let mut message = String::from_str("duplicate ao_policy name '");
    message.append(policy.name.as_str());
    message.append("'");
    ProxyError::Config(message)
}

fn duplicate_peer(policy: &AoPolicyConfig) -> (error: ProxyError)
    ensures
        error@ == duplicate_peer_error(policy@),
{
    let mut message = String::from_str("duplicate ao_policy peer tuple ");
    policy.peer_ip.append_to(&mut message);
    message.append(":");
    match policy.peer_port {
        Some(port) => append_decimal(&mut message, port as u64),
        None => message.append("*"),
    }
    ProxyError::Config(message)
}

/// A store is free of repeated names and peers exactly if no policy of it
/// repeats the name or the peer of an earlier one.
pub proof fn lemma_unique_iff_no_repetition(store: Seq<PolicyView>)
    ensures
        names_unique(store) <==> forall|i: int|
            0 <= i < store.len() ==> !#[trigger] repeats_name(store, i),
        peer_tuples_unique(store) <==> forall|i: int|
            0 <= i < store.len() ==> !#[trigger] repeats_peer(store, i),
{
    if forall|i: int| 0 <= i < store.len() ==> !#[trigger] repeats_name(store, i) {
        assert forall|i: int, j: int| 0 <= i < j < store.len() implies store[i].name
            != store[j].name by {
            assert(!repeats_name(store, j));
        }
    }
    if forall|i: int| 0 <= i < store.len() ==> !#[trigger] repeats_peer(store, i) {
        assert forall|i: int, j: int| 0 <= i < j < store.len() implies !same_peer(
            store[i],
            store[j],
        ) by {
            assert(!repeats_peer(store, j));
        }
    }
}

impl Config {
    /// Checks the configuration for `mode`. Nothing is read or opened.
    #[verifier::loop_isolation(false)]
    pub fn validate(&self, mode: Mode) -> (checked: Result<(), ProxyError>)
        ensures
            checked is Ok <==> self.valid_for(mode),
            checked matches Err(e) ==> self.validation_error(mode, e@),
    {
        match mode {
            Mode::Initiator => {
                if self.initiator.is_none() {
                    return Err(ProxyError::MissingModeConfig("initiator"));
                }
            },
            Mode::Terminator => {
                if self.terminator.is_none() {
                    return Err(ProxyError::MissingModeConfig("terminator"));
                }
            },
        }
        let count: usize = self.ao_policy.len();
        if count == 0 {
            return Err(
                ProxyError::Config(String::from_str("at least one [[ao_policy]] entry is required")),
            );
        }
        let ghost store = self.policies();
        let mut at: usize = 0;
        while at < count
            invariant
                at <= count,
                count == self.ao_policy.len(),
                store == self.policies(),
                forall|j: int|
                    0 <= j < at ==> (#[trigger] key_source_kind(store[j].key_source)) is Ok,
            decreases count - at,
        {
            match self.ao_policy[at].key_source.kind() {
                Ok(_) => {},
                Err(e) => {
                    assert(first_unrecognized(store, at as int));
                    return Err(e);
                },
            }
            at += 1;
        }
        let mut at: usize = 0;
        while at < count
            invariant
                at <= count,
                count == self.ao_policy.len(),
                store == self.policies(),
                forall|j: int| 0 <= j < at ==> !#[trigger] repeats_name(store, j),
                forall|j: int| 0 <= j < at ==> !#[trigger] repeats_peer(store, j),
            decreases count - at,
        {
            if name_seen(&self.ao_policy, at) {
                proof {
                    assert(first_repetition(store, at as int));
                    lemma_unique_iff_no_repetition(store);
                }
                return Err(duplicate_name(&self.ao_policy[at]));
            }
            if peer_seen(&self.ao_policy, at) {
                proof {
                    assert(first_repetition(store, at as int));
                    lemma_unique_iff_no_repetition(store);
                }
                return Err(duplicate_peer(&self.ao_policy[at]));
            }
            at += 1;
        }
        proof {
            lemma_unique_iff_no_repetition(store);
        }
        Ok(())
    }
}

} // verus!
