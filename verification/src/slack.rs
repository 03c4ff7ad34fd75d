//! The Slack adapter: posts a chat line to a webhook when a build reaches a
//! status worth telling people about.

use vstd::prelude::*;
use crate::builds::{build_message, build_message_text, Build, BuildStatus, Observation};
use crate::errors::{DuckError, DuckResult};
use crate::observers::{info_from_config, ObserverInfo};
use crate::text::{escape_json, json_escaped};
use crate::transport::{
    is_success_code, replay_reply, replay_rest, Exchange, ExpectationView, HttpMethod,
    HttpRequest, RequestView, SendOutcome, Transport,
};

verus! {

pub enum SlackCredentials {
    Webhook { url: String },
}

pub struct SlackConfiguration {
    pub id: String,
    pub enabled: Option<bool>,
    pub collectors: Option<Vec<String>>,
    pub channel: Option<String>,
    pub credentials: SlackCredentials,
}

pub open spec fn slack_webhook_url(c: &SlackCredentials) -> Seq<char> {
    match c {
        SlackCredentials::Webhook { url } => url@,
    }
}

/// Only these statuses are worth a Slack message.
pub open spec fn interesting_status(status: BuildStatus) -> bool {
    status == BuildStatus::Success || status == BuildStatus::Failed
}

pub fn is_interesting_status(status: &BuildStatus) -> (r: bool)
    ensures
        r == interesting_status(*status),
{
    match status {
        BuildStatus::Success | BuildStatus::Failed => true,
        _ => false,
    }
}

pub open spec fn emoji_label(status: BuildStatus) -> Seq<char> {
    if status == BuildStatus::Success {
        ":heavy_check_mark:"@
    } else if status == BuildStatus::Failed {
        ":heavy_multiplication_x:"@
    } else {
        ":question:"@
    }
}

fn emoji_str(status: BuildStatus) -> (r: &'static str)
    ensures
        r@ == emoji_label(status),
{
    match status {
        BuildStatus::Success => ":heavy_check_mark:",
        BuildStatus::Failed => ":heavy_multiplication_x:",
        _ => ":question:",
    }
}

/// The webhook payload, keys in a fixed alphabetical order.
pub open spec fn slack_payload(b: &Build, channel: &Option<String>) -> Seq<char> {
    match channel {
        None => "{\"icon_emoji\":\""@ + emoji_label(b.status) + "\",\"text\":\""@ + json_escaped(
            build_message(b),
        ) + "\",\"username\":\"Duck\"}"@,
        Some(c) => "{\"channel\":\""@ + json_escaped(c@) + "\",\"icon_emoji\":\""@ + emoji_label(
            b.status,
        ) + "\",\"text\":\""@ + json_escaped(build_message(b)) + "\",\"username\":\"Duck\"}"@,
    }
}

pub struct SlackObserver<T: Transport> {
    pub http: T,
    pub info: ObserverInfo,
    pub channel: Option<String>,
    pub webhook_url: String,
}

/// The one request an interesting build draws.
pub open spec fn slack_request_view<T: Transport>(pre: &SlackObserver<T>, b: &Build) -> RequestView {
    RequestView {
        method: HttpMethod::Post,
        url: pre.webhook_url@,
        body: Some(slack_payload(b, &pre.channel)),
    }
}

/// How the result of `observe` reflects the one reply drawn.
pub open spec fn slack_outcome_matches(url: Seq<char>, reply: Option<u16>, r: &DuckResult<()>) -> bool {
    match reply {
        Some(code) => if is_success_code(code) {
            r is Ok
        } else {
            match r {
                Err(DuckError::SlackSend { code: c }) => *c == code,
                _ => false,
            }
        },
        None => match r {
            Err(DuckError::Unreachable { target }) => target@ == url,
            _ => false,
        },
    }
}

/// The full contract of `SlackObserver::observe`: configuration is never
/// touched; an interesting build status draws exactly one POST of the exact
/// payload, and the result mirrors the reply; everything else draws nothing
/// and succeeds.
pub open spec fn slack_observe_post<T: Transport>(
    pre: &SlackObserver<T>,
    post: &SlackObserver<T>,
    o: &Observation,
    r: &DuckResult<()>,
) -> bool {
    &&& post.info == pre.info
    &&& post.channel == pre.channel
    &&& post.webhook_url == pre.webhook_url
    &&& match o {
        Observation::BuildStatusChanged(b) => if interesting_status(b.status) {
            &&& post.http.history().len() == pre.http.history().len() + 1
            &&& post.http.history().take(pre.http.history().len() as int) == pre.http.history()
            &&& post.http.history().last().request == slack_request_view(pre, b)
            &&& slack_outcome_matches(pre.webhook_url@, post.http.history().last().reply, r)
            &&& (T::deterministic() ==> post.http.history().last().reply == replay_reply(
                pre.http.queue(),
                slack_request_view(pre, b),
            ) && post.http.queue() == replay_rest(pre.http.queue(), slack_request_view(pre, b)))
        } else {
            post.http == pre.http && r is Ok
        },
        _ => post.http == pre.http && r is Ok,
    }
}

/// Exact response control through the transport seam: when a replaying
/// transport holds the one canned reply that matches the post an interesting
/// observation draws, the canned status decides the result — Ok for a
/// success status, the Slack error carrying that status otherwise.
pub proof fn lemma_canned_reply_decides_result<T: Transport>(
    pre: SlackObserver<T>,
    post: SlackObserver<T>,
    o: &Observation,
    r: DuckResult<()>,
    code: u16,
)
    requires
        T::deterministic(),
        slack_observe_post(&pre, &post, o, &r),
        match o {
            Observation::BuildStatusChanged(b) => interesting_status(b.status),
            _ => false,
        },
        pre.http.queue().len() == 1,
        pre.http.queue()[0].0 == HttpMethod::Post,
        pre.http.queue()[0].1 == pre.webhook_url@,
        pre.http.queue()[0].2 == code,
    ensures
        is_success_code(code) ==> r is Ok,
        !is_success_code(code) ==> r == Err::<(), DuckError>(DuckError::SlackSend { code }),
        post.http.queue().len() == 0,
{
    match o {
        Observation::BuildStatusChanged(b) => {
            assert(post.http.history().last().reply == Some(code));
            if !is_success_code(code) {
                match r {
                    Err(DuckError::SlackSend { code: c }) => {
                        assert(c == code);
                    },
                    _ => {
                        assert(false);
                    },
                }
            }
        },
        _ => {},
    }
}

/// Two deliveries of one observation are independent: when the same
/// interesting build observation is processed twice in succession, the
/// second call appends its own request after the first's, and both carry
/// the same exact payload — nothing is deduplicated or cached between
/// calls.
pub proof fn lemma_two_observations_two_requests<T: Transport>(
    s0: SlackObserver<T>,
    s1: SlackObserver<T>,
    s2: SlackObserver<T>,
    o: &Observation,
    r1: DuckResult<()>,
    r2: DuckResult<()>,
)
    requires
        slack_observe_post(&s0, &s1, o, &r1),
        slack_observe_post(&s1, &s2, o, &r2),
        match o {
            Observation::BuildStatusChanged(b) => interesting_status(b.status),
            _ => false,
        },
    ensures
        s2.http.history().len() == s0.http.history().len() + 2,
        match o {
            Observation::BuildStatusChanged(b) => {
                &&& s2.http.history()[s0.http.history().len() as int].request
                    == slack_request_view(&s0, b)
                &&& s2.http.history()[s0.http.history().len() as int + 1].request == slack_request_view(
                    &s0,
                    b,
                )
            },
            _ => true,
        },
{
    match o {
        Observation::BuildStatusChanged(b) => {
            let n0 = s0.http.history().len() as int;
            assert(s1.http.history().len() == n0 + 1);
            assert(s2.http.history().len() == n0 + 2);
            assert(s2.http.history()[n0] == s1.http.history()[n0]);
            assert(s1.http.history()[n0] == s1.http.history().last());
            assert(s2.http.history()[n0 + 1] == s2.http.history().last());
            assert(slack_request_view(&s1, b) == slack_request_view(&s0, b));
        },
        _ => {},
    }
}

impl<T: Transport> SlackObserver<T> {
    pub fn new(config: &SlackConfiguration) -> (s: Self)
        ensures
            s.info.id == config.id,
            s.info.enabled == match config.enabled {
                None => true,
                Some(e) => e,
            },
            match (&s.info.collectors, &config.collectors) {
                (None, None) => true,
                (Some(a), Some(b)) => a@ == b@,
                _ => false,
            },
            s.webhook_url@ == slack_webhook_url(&config.credentials),
            s.channel == config.channel,
            s.http.history() == Seq::<Exchange>::empty(),
            s.http.queue() == Seq::<ExpectationView>::empty(),
    {
        let webhook_url = match &config.credentials {
            SlackCredentials::Webhook { url } => url.clone(),
        };
        let channel = match &config.channel {
            Some(c) => Some(c.clone()),
            None => None,
        };
        SlackObserver {
            http: T::create(),
            info: info_from_config(&config.id, &config.enabled, &config.collectors),
            channel,
            webhook_url,
        }
    }

    pub fn get_client(&self) -> (r: &T)
        ensures
            r == &self.http,
    {
        &self.http
    }

    pub fn info(&self) -> (r: &ObserverInfo)
        ensures
            r == &self.info,
    {
        &self.info
    }

    /// Processes one observation: an interesting build status is posted to
    /// the webhook; anything else is silently ignored.
    pub fn observe(&mut self, observation: &Observation) -> (r: DuckResult<()>)
        ensures
            slack_observe_post(&*old(self), &*final(self), observation, &r),
    {
        match observation {
            Observation::BuildStatusChanged(build) => {
                if is_interesting_status(&build.status) {
                    let text = build_message_text(build);
                    let escaped = escape_json(text.as_str());
                    let mut body = String::new();
                    match &self.channel {
                        Some(c) => {
                            let channel_escaped = escape_json(c.as_str());
                            body.append("{\"channel\":\"");
                            body.append(channel_escaped.as_str());
                            body.append("\",\"icon_emoji\":\"");
                        },
                        None => {
                            body.append("{\"icon_emoji\":\"");
                        },
                    }
                    body.append(emoji_str(build.status));
                    body.append("\",\"text\":\"");
                    body.append(escaped.as_str());
                    body.append("\",\"username\":\"Duck\"}");
                    proof {
                        assert(body@ =~= slack_payload(build, &self.channel));
                    }
                    let request = HttpRequest {
                        method: HttpMethod::Post,
                        url: self.webhook_url.clone(),
                        body: Some(body),
                    };
                    proof {
                        assert(request@ == slack_request_view(&*old(self), build));
                    }
                    let out = self.http.send(request);
                    proof {
                        assert(self.http.history().take(
                            old(self).http.history().len() as int,
                        ) =~= old(self).http.history());
                    }
                    match out {
                        SendOutcome::Reply(code) => {
                            if 200 <= code && code < 300 {
                                Ok(())
                            } else {
                                Err(DuckError::SlackSend { code })
                            }
                        },
                        SendOutcome::Unreachable => {
                            Err(DuckError::Unreachable { target: self.webhook_url.clone() })
                        },
                    }
                } else {
                    Ok(())
                }
            },
            _ => Ok(()),
        }
    }
}

} // verus!
