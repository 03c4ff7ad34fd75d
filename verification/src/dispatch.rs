//! The dispatcher's contract with the observers: every registered observer
//! is offered every observation; a disabled observer, or one whose collector
//! filter rejects the observation's collector, is skipped untouched; each
//! remaining observer is invoked and its result recorded independently, so
//! one failure never keeps the next observer from being notified.

use vstd::prelude::*;
use crate::builds::Observation;
use crate::errors::{DuckError, DuckResult};
use crate::hue::{hue_observe_post, HueObserver};
use crate::mattermost::{mattermost_observe_post, MattermostObserver};
use crate::mqtt::{mqtt_observe_post, MqttObserver, MqttPublish};
use crate::observers::{should_observe, should_observe_spec, ObserverInfo};
use crate::slack::{slack_observe_post, SlackObserver};
use crate::transport::Transport;

verus! {

/// Every kind of observer the dispatcher can hold.
pub enum AnyObserver<T: Transport> {
    Hue(HueObserver<T>),
    Slack(SlackObserver<T>),
    Mattermost(MattermostObserver<T>),
    Mqtt(MqttObserver),
}

/// What the dispatcher records for one observer and one observation.
pub enum DispatchOutcome {
    /// The filter kept the observation from the observer.
    Skipped,
    /// The observer processed the observation and succeeded.
    Done,
    /// The observer processed the observation and failed.
    Failed(DuckError),
    /// The observer asks for this publish to be performed (the broker
    /// connection lives outside the verified core).
    Publish(MqttPublish),
}

pub open spec fn any_info<T: Transport>(o: &AnyObserver<T>) -> ObserverInfo {
    match o {
        AnyObserver::Hue(h) => h.info,
        AnyObserver::Slack(s) => s.info,
        AnyObserver::Mattermost(m) => m.info,
        AnyObserver::Mqtt(q) => q.info,
    }
}

/// The contract of `AnyObserver::observe`: each variant keeps its kind and
/// meets its own adapter's contract, with `Done`/`Failed` mirroring the
/// adapter's result and `Publish` carrying the broker work out.
pub open spec fn any_observe_post<T: Transport>(
    pre: &AnyObserver<T>,
    post: &AnyObserver<T>,
    o: &Observation,
    out: &DispatchOutcome,
) -> bool {
    match (pre, post) {
        (AnyObserver::Hue(a), AnyObserver::Hue(b)) => match out {
            DispatchOutcome::Done => hue_observe_post(a, b, o, &Ok(())),
            DispatchOutcome::Failed(e) => hue_observe_post(a, b, o, &Err(*e)),
            _ => false,
        },
        (AnyObserver::Slack(a), AnyObserver::Slack(b)) => match out {
            DispatchOutcome::Done => slack_observe_post(a, b, o, &Ok(())),
            DispatchOutcome::Failed(e) => slack_observe_post(a, b, o, &Err(*e)),
            _ => false,
        },
        (AnyObserver::Mattermost(a), AnyObserver::Mattermost(b)) => match out {
            DispatchOutcome::Done => mattermost_observe_post(a, b, o, &Ok(())),
            DispatchOutcome::Failed(e) => mattermost_observe_post(a, b, o, &Err(*e)),
            _ => false,
        },
        (AnyObserver::Mqtt(a), AnyObserver::Mqtt(b)) => b == a && match out {
            DispatchOutcome::Done => mqtt_observe_post(a, o, &None),
            DispatchOutcome::Publish(p) => mqtt_observe_post(a, o, &Some(*p)),
            _ => false,
        },
        _ => false,
    }
}

impl<T: Transport> AnyObserver<T> {
    pub fn info(&self) -> (r: &ObserverInfo)
        ensures
            *r == any_info(self),
    {
        match self {
            AnyObserver::Hue(h) => h.info(),
            AnyObserver::Slack(s) => s.info(),
            AnyObserver::Mattermost(m) => m.info(),
            AnyObserver::Mqtt(q) => q.info(),
        }
    }

    /// Processes one observation with whichever adapter this is.
    pub fn observe(&mut self, observation: &Observation) -> (out: DispatchOutcome)
        ensures
            any_observe_post(&*old(self), &*final(self), observation, &out),
    {
        match self {
            AnyObserver::Hue(h) => match h.observe(observation) {
                Ok(_) => DispatchOutcome::Done,
                Err(e) => DispatchOutcome::Failed(e),
            },
            AnyObserver::Slack(s) => match s.observe(observation) {
                Ok(_) => DispatchOutcome::Done,
                Err(e) => DispatchOutcome::Failed(e),
            },
            AnyObserver::Mattermost(m) => match m.observe(observation) {
                Ok(_) => DispatchOutcome::Done,
                Err(e) => DispatchOutcome::Failed(e),
            },
            AnyObserver::Mqtt(q) => match q.observe(observation) {
                Some(p) => DispatchOutcome::Publish(p),
                None => DispatchOutcome::Done,
            },
        }
    }
}

/// Offers `observation` to every observer in order and records one outcome
/// per observer. A filtered-out observer is returned exactly as it came and
/// marked `Skipped`; every other observer is invoked, whatever happened to
/// the observers before it.
pub fn dispatch<T: Transport>(observers: Vec<AnyObserver<T>>, observation: &Observation) -> (r: (
    Vec<AnyObserver<T>>,
    Vec<DispatchOutcome>,
))
    ensures
        r.0@.len() == observers@.len(),
        r.1@.len() == observers@.len(),
        forall|i: int|
            0 <= i < observers@.len() && !should_observe_spec(
                &any_info(&observers@[i]),
                observation,
            ) ==> r.0@[i] == observers@[i] && r.1@[i] == DispatchOutcome::Skipped,
        forall|i: int|
            0 <= i < observers@.len() && should_observe_spec(
                &any_info(&observers@[i]),
                observation,
            ) ==> any_observe_post(&observers@[i], &r.0@[i], observation, &r.1@[i]),
{
    let ghost orig = observers@;
    let mut rest = observers;
    let mut done: Vec<AnyObserver<T>> = Vec::new();
    let mut results: Vec<DispatchOutcome> = Vec::new();
    while rest.len() > 0
        invariant
            done@.len() == results@.len(),
            done@.len() + rest@.len() == orig.len(),
            rest@ == orig.skip(done@.len() as int),
            forall|i: int|
                0 <= i < done@.len() && !should_observe_spec(
                    &any_info(&orig[i]),
                    observation,
                ) ==> done@[i] == orig[i] && results@[i] == DispatchOutcome::Skipped,
            forall|i: int|
                0 <= i < done@.len() && should_observe_spec(
                    &any_info(&orig[i]),
                    observation,
                ) ==> any_observe_post(&orig[i], &done@[i], observation, &results@[i]),
        decreases rest@.len(),
    {
        let mut ob = rest.remove(0);
        proof {
            assert(orig[done@.len() as int] == ob);
            assert(rest@ =~= orig.skip(done@.len() as int + 1));
        }
        let eligible = should_observe(ob.info(), observation);
        if eligible {
            let out = ob.observe(observation);
            results.push(out);
        } else {
            results.push(DispatchOutcome::Skipped);
        }
        done.push(ob);
    }
    proof {
        assert(done@.len() == orig.len());
    }
    (done, results)
}

} // verus!
