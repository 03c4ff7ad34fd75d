//! The Mattermost adapter: posts a chat line to a webhook for every build
//! status change except an unknown one.

use vstd::prelude::*;
use crate::builds::{build_message, build_message_text, Build, BuildStatus, Observation};
use crate::errors::{DuckError, DuckResult};
use crate::observers::{info_from_config, ObserverInfo};
use crate::text::{escape_json, json_escaped};
use crate::transport::{
    is_success_code, replay_reply, replay_rest, Exchange, ExpectationView, HttpMethod,
    HttpRequest, RequestView, SendOutcome, Transport,
};

verus! {

pub enum MattermostCredentials {
    Webhook { url: String },
}

pub struct MattermostConfiguration {
    pub id: String,
    pub enabled: Option<bool>,
    pub collectors: Option<Vec<String>>,
    pub channel: Option<String>,
    pub credentials: MattermostCredentials,
}

pub open spec fn mattermost_webhook_url(c: &MattermostCredentials) -> Seq<char> {
    match c {
        MattermostCredentials::Webhook { url } => url@,
    }
}

/// Mattermost hears about every status except an unknown one.
pub open spec fn mattermost_acts_on(status: BuildStatus) -> bool {
    status != BuildStatus::Unknown
}

/// The webhook payload, keys in a fixed alphabetical order.
pub open spec fn mattermost_payload(b: &Build, channel: &Option<String>) -> Seq<char> {
    match channel {
        None => "{\"text\":\""@ + json_escaped(build_message(b)) + "\"}"@,
        Some(c) => "{\"channel_id\":\""@ + json_escaped(c@) + "\",\"text\":\""@ + json_escaped(
            build_message(b),
        ) + "\"}"@,
    }
}

pub struct MattermostObserver<T: Transport> {
    pub http: T,
    pub info: ObserverInfo,
    pub channel: Option<String>,
    pub webhook_url: String,
}

/// The one request an acted-on build draws.
pub open spec fn mattermost_request_view<T: Transport>(
    pre: &MattermostObserver<T>,
    b: &Build,
) -> RequestView {
    RequestView {
        method: HttpMethod::Post,
        url: pre.webhook_url@,
        body: Some(mattermost_payload(b, &pre.channel)),
    }
}

/// How the result of `observe` reflects the one reply drawn.
pub open spec fn mattermost_outcome_matches(
    url: Seq<char>,
    reply: Option<u16>,
    r: &DuckResult<()>,
) -> bool {
    match reply {
        Some(code) => if is_success_code(code) {
            r is Ok
        } else {
            match r {
                Err(DuckError::MattermostSend { code: c }) => *c == code,
                _ => false,
            }
        },
        None => match r {
            Err(DuckError::Unreachable { target }) => target@ == url,
            _ => false,
        },
    }
}

/// The full contract of `MattermostObserver::observe`.
pub open spec fn mattermost_observe_post<T: Transport>(
    pre: &MattermostObserver<T>,
    post: &MattermostObserver<T>,
    o: &Observation,
    r: &DuckResult<()>,
) -> bool {
    &&& post.info == pre.info
    &&& post.channel == pre.channel
    &&& post.webhook_url == pre.webhook_url
    &&& match o {
        Observation::BuildStatusChanged(b) => if mattermost_acts_on(b.status) {
            &&& post.http.history().len() == pre.http.history().len() + 1
            &&& post.http.history().take(pre.http.history().len() as int) == pre.http.history()
            &&& post.http.history().last().request == mattermost_request_view(pre, b)
            &&& mattermost_outcome_matches(pre.webhook_url@, post.http.history().last().reply, r)
            &&& (T::deterministic() ==> post.http.history().last().reply == replay_reply(
                pre.http.queue(),
                mattermost_request_view(pre, b),
            ) && post.http.queue() == replay_rest(pre.http.queue(), mattermost_request_view(pre, b)))
        } else {
            post.http == pre.http && r is Ok
        },
        _ => post.http == pre.http && r is Ok,
    }
}

/// Two deliveries of one observation are independent: when the same
/// acted-on build observation is processed twice in succession, the second
/// call appends its own request after the first's, and both carry the same
/// exact payload — nothing is deduplicated or cached between calls.
pub proof fn lemma_two_observations_two_posts<T: Transport>(
    m0: MattermostObserver<T>,
    m1: MattermostObserver<T>,
    m2: MattermostObserver<T>,
    o: &Observation,
    r1: DuckResult<()>,
    r2: DuckResult<()>,
)
    requires
        mattermost_observe_post(&m0, &m1, o, &r1),
        mattermost_observe_post(&m1, &m2, o, &r2),
        match o {
            Observation::BuildStatusChanged(b) => mattermost_acts_on(b.status),
            _ => false,
        },
    ensures
        m2.http.history().len() == m0.http.history().len() + 2,
        match o {
            Observation::BuildStatusChanged(b) => {
                &&& m2.http.history()[m0.http.history().len() as int].request
                    == mattermost_request_view(&m0, b)
                &&& m2.http.history()[m0.http.history().len() as int + 1].request
                    == mattermost_request_view(&m0, b)
            },
            _ => true,
        },
{
    match o {
        Observation::BuildStatusChanged(b) => {
            let n0 = m0.http.history().len() as int;
            assert(m1.http.history().len() == n0 + 1);
            assert(m2.http.history().len() == n0 + 2);
            assert(m2.http.history()[n0] == m1.http.history()[n0]);
            assert(m1.http.history()[n0] == m1.http.history().last());
            assert(m2.http.history()[n0 + 1] == m2.http.history().last());
            assert(mattermost_request_view(&m1, b) == mattermost_request_view(&m0, b));
        },
        _ => {},
    }
}

impl<T: Transport> MattermostObserver<T> {
    pub fn new(config: &MattermostConfiguration) -> (s: Self)
        ensures
            s.info.id == config.id,
            s.info.enabled == match config.enabled {
                None => true,
                Some(e) => e,
            },
            match (&s.info.collectors, &config.collectors) {
                (None, None) => true,
                (Some(a), Some(b)) => a@ == b@,
                _ => false,
            },
            s.webhook_url@ == mattermost_webhook_url(&config.credentials),
            s.channel == config.channel,
            s.http.history() == Seq::<Exchange>::empty(),
            s.http.queue() == Seq::<ExpectationView>::empty(),
    {
        let webhook_url = match &config.credentials {
            MattermostCredentials::Webhook { url } => url.clone(),
        };
        let channel = match &config.channel {
            Some(c) => Some(c.clone()),
            None => None,
        };
        MattermostObserver {
            http: T::create(),
            info: info_from_config(&config.id, &config.enabled, &config.collectors),
            channel,
            webhook_url,
        }
    }

    pub fn get_client(&self) -> (r: &T)
        ensures
            r == &self.http,
    {
        &self.http
    }

    pub fn info(&self) -> (r: &ObserverInfo)
        ensures
            r == &self.info,
    {
        &self.info
    }

    /// Processes one observation: any known build status is posted to the
    /// webhook; anything else is silently ignored.
    pub fn observe(&mut self, observation: &Observation) -> (r: DuckResult<()>)
        ensures
            mattermost_observe_post(&*old(self), &*final(self), observation, &r),
    {
        match observation {
            Observation::BuildStatusChanged(build) => {
                if !matches!(build.status, BuildStatus::Unknown) {
                    let text = build_message_text(build);
                    let escaped = escape_json(text.as_str());
                    let mut body = String::new();
                    match &self.channel {
                        Some(c) => {
                            let channel_escaped = escape_json(c.as_str());
                            body.append("{\"channel_id\":\"");
                            body.append(channel_escaped.as_str());
                            body.append("\",\"text\":\"");
                        },
                        None => {
                            body.append("{\"text\":\"");
                        },
                    }
                    body.append(escaped.as_str());
                    body.append("\"}");
                    proof {
                        assert(body@ =~= mattermost_payload(build, &self.channel));
                    }
                    let request = HttpRequest {
                        method: HttpMethod::Post,
                        url: self.webhook_url.clone(),
                        body: Some(body),
                    };
                    proof {
                        assert(request@ == mattermost_request_view(&*old(self), build));
                    }
                    let out = self.http.send(request);
                    proof {
                        assert(self.http.history().take(
                            old(self).http.history().len() as int,
                        ) =~= old(self).http.history());
                    }
                    match out {
                        SendOutcome::Reply(code) => {
                            if 200 <= code && code < 300 {
                                Ok(())
                            } else {
                                Err(DuckError::MattermostSend { code })
                            }
                        },
                        SendOutcome::Unreachable => {
                            Err(DuckError::Unreachable { target: self.webhook_url.clone() })
                        },
                    }
                } else {
                    Ok(())
                }
            },
            _ => Ok(()),
        }
    }
}

} // verus!
