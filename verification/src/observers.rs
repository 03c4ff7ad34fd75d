//! Observer identity and the dispatch filtering rules: which observer sees
//! which observation.

use vstd::prelude::*;
use crate::builds::{observation_collector, Observation};

verus! {

/// Identity and filter of one configured observer. Built once from
/// configuration; never mutated afterwards.
pub struct ObserverInfo {
    pub id: String,
    pub enabled: bool,
    /// `None` means "all collectors".
    pub collectors: Option<Vec<String>>,
}

/// Whether the filter of `info` admits an observation from collector `c`.
pub open spec fn allows_collector(info: &ObserverInfo, c: Seq<char>) -> bool {
    match info.collectors {
        None => true,
        Some(list) => exists|i: int| 0 <= i < list@.len() && list@[i]@ == c,
    }
}

/// The dispatch rule: an observer sees an observation exactly when it is
/// enabled and, for an observation that originates from a collector, its
/// filter admits that collector.
pub open spec fn should_observe_spec(info: &ObserverInfo, o: &Observation) -> bool {
    info.enabled && match observation_collector(o) {
        None => true,
        Some(c) => allows_collector(info, c),
    }
}

fn list_contains(list: &Vec<String>, c: &String) -> (r: bool)
    ensures
        r == exists|i: int| 0 <= i < list@.len() && list@[i]@ == c@,
{
    let mut i: usize = 0;
    while i < list.len()
        invariant
            i <= list@.len(),
            forall|j: int| 0 <= j < i ==> list@[j]@ != c@,
        decreases list@.len() - i,
    {
        if list[i] == *c {
            return true;
        }
        i = i + 1;
    }
    false
}

/// Decides whether the dispatcher hands `observation` to the observer that
/// `info` describes.
pub fn should_observe(info: &ObserverInfo, observation: &Observation) -> (r: bool)
    ensures
        r == should_observe_spec(info, observation),
{
    if !info.enabled {
        return false;
    }
    match observation {
        Observation::BuildStatusChanged(build) => match &info.collectors {
            None => true,
            Some(list) => list_contains(list, &build.collector),
        },
        _ => true,
    }
}

/// A disabled observer is never invoked: the dispatch rule rejects every
/// observation for it, whatever the observation is.
pub proof fn lemma_disabled_never_observes(info: &ObserverInfo, o: &Observation)
    requires
        !info.enabled,
    ensures
        !should_observe_spec(info, o),
{
}

/// The collector filter decides invocation: an enabled observer is offered
/// an observation that originates from a collector exactly when its filter
/// admits that collector, and is always offered one that has no collector.
pub proof fn lemma_collector_filter_decides(info: &ObserverInfo, o: &Observation)
    requires
        info.enabled,
    ensures
        match observation_collector(o) {
            Some(c) => should_observe_spec(info, o) <==> allows_collector(info, c),
            None => should_observe_spec(info, o),
        },
{
}

pub(crate) fn clone_collectors(src: &Vec<String>) -> (r: Vec<String>)
    ensures
        r@ == src@,
{
    let mut r: Vec<String> = Vec::new();
    let mut i: usize = 0;
    while i < src.len()
        invariant
            i <= src@.len(),
            r@ == src@.take(i as int),
        decreases src@.len() - i,
    {
        r.push(src[i].clone());
        proof {
            assert(r@ =~= src@.take(i as int + 1));
        }
        i = i + 1;
    }
    proof {
        assert(src@.take(src@.len() as int) =~= src@);
    }
    r
}

/// Builds an `ObserverInfo` from the common configuration fields: the id is
/// kept, a missing enabled flag defaults to true, and a missing collector
/// list means "all collectors".
pub fn info_from_config(
    id: &String,
    enabled: &Option<bool>,
    collectors: &Option<Vec<String>>,
) -> (info: ObserverInfo)
    ensures
        info.id == *id,
        info.enabled == match enabled {
            None => true,
            Some(e) => *e,
        },
        match (&info.collectors, collectors) {
            (None, None) => true,
            (Some(a), Some(b)) => a@ == b@,
            _ => false,
        },
{
    let enabled_value = match enabled {
        None => true,
        Some(e) => *e,
    };
    let collectors_value = match collectors {
        None => None,
        Some(list) => Some(clone_collectors(list)),
    };
    ObserverInfo { id: id.clone(), enabled: enabled_value, collectors: collectors_value }
}

} // verus!
