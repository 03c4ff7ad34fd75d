//! The Hue adapter: sets every configured light to a colour that reflects
//! the overall status, and turns the lights off at shutdown.

use vstd::prelude::*;
use crate::builds::{BuildStatus, Observation};
use crate::errors::{DuckError, DuckResult};
use crate::observers::{info_from_config, ObserverInfo};
use crate::text::{dec_str, push_dec};
use crate::transport::{
    is_success_code, is_success_reply, lemma_replay_rest_all_push, replay_reply, replay_rest_all,
    replayed_run, requests_of, Exchange, ExpectationView, HttpMethod, HttpRequest, RequestView,
    SendOutcome, Transport,
};

verus! {

pub struct HueConfiguration {
    pub id: String,
    pub enabled: Option<bool>,
    pub collectors: Option<Vec<String>>,
    /// Defaults to full brightness when absent.
    pub brightness: Option<u8>,
    pub hub_url: String,
    pub username: String,
    pub lights: Vec<String>,
}

/// The state endpoint of one light on the bridge.
pub open spec fn hue_light_url_spec(hub: Seq<char>, user: Seq<char>, light: Seq<char>) -> Seq<char> {
    hub + "/api/"@ + user + "/lights/"@ + light + "/state"@
}

/// The CIE xy coordinate pair rendered for a status category: green for
/// success, red for failure, yellow while work is queued or running, and a
/// neutral white otherwise.
pub open spec fn xy_label(status: BuildStatus) -> Seq<char> {
    if status == BuildStatus::Success {
        "0.32114217,0.59787315"@
    } else if status == BuildStatus::Failed {
        "0.674,0.322"@
    } else if status == BuildStatus::Running || status == BuildStatus::Queued {
        "0.4432,0.5154"@
    } else {
        "0.3227,0.3290"@
    }
}

/// The body PUT to a light when the status changes.
pub open spec fn hue_state_body_spec(status: BuildStatus, brightness: u8) -> Seq<char> {
    "{\"alert\":\"none\",\"xy\":["@ + xy_label(status) + "],\"on\":true,\"bri\":"@ + dec_str(
        brightness as int,
    ) + "}"@
}

/// The minimal body PUT to a light at shutdown.
pub open spec fn hue_off_body_spec() -> Seq<char> {
    "{\"on\":false}"@
}

pub struct HueObserver<T: Transport> {
    pub client: T,
    pub info: ObserverInfo,
    pub brightness: u8,
    pub hub_url: String,
    pub username: String,
    pub lights: Vec<String>,
}

pub open spec fn hue_state_request<T: Transport>(
    pre: &HueObserver<T>,
    status: BuildStatus,
    light: Seq<char>,
) -> RequestView {
    RequestView {
        method: HttpMethod::Put,
        url: hue_light_url_spec(pre.hub_url@, pre.username@, light),
        body: Some(hue_state_body_spec(status, pre.brightness)),
    }
}

pub open spec fn hue_off_request<T: Transport>(pre: &HueObserver<T>, light: Seq<char>) -> RequestView {
    RequestView {
        method: HttpMethod::Put,
        url: hue_light_url_spec(pre.hub_url@, pre.username@, light),
        body: Some(hue_off_body_spec()),
    }
}

/// The error reported for one failed light: a non-success status names the
/// light and carries the code; no answer at all names the endpoint.
pub open spec fn hue_failure_error(
    light: Seq<char>,
    url: Seq<char>,
    reply: Option<u16>,
    e: &DuckError,
) -> bool {
    match e {
        DuckError::HueLight { light: l, code } => reply == Some(*code) && l@ == light
            && !is_success_code(*code),
        DuckError::Unreachable { target } => reply is None && target@ == url,
        _ => false,
    }
}

pub open spec fn hue_same_config<T: Transport>(pre: &HueObserver<T>, post: &HueObserver<T>) -> bool {
    &&& post.info == pre.info
    &&& post.brightness == pre.brightness
    &&& post.hub_url == pre.hub_url
    &&& post.username == pre.username
    &&& post.lights == pre.lights
}

/// A status change walks the lights in order, PUTs the state body to each,
/// and stops at the first light that fails, reporting it.
pub open spec fn hue_update_trace<T: Transport>(
    pre: &HueObserver<T>,
    post: &HueObserver<T>,
    status: BuildStatus,
    r: &DuckResult<()>,
) -> bool {
    let h0 = pre.client.history();
    let h1 = post.client.history();
    let sent = h1.skip(h0.len() as int);
    &&& h0.len() <= h1.len() <= h0.len() + pre.lights@.len()
    &&& h1.take(h0.len() as int) == h0
    &&& forall|i: int|
        0 <= i < sent.len() ==> (#[trigger] sent[i]).request == hue_state_request(
            pre,
            status,
            pre.lights@[i]@,
        )
    &&& forall|i: int| 0 <= i < sent.len() - 1 ==> is_success_reply((#[trigger] sent[i]).reply)
    &&& (T::deterministic() ==> replayed_run(pre.client.queue(), sent, post.client.queue()))
    &&& (r is Ok <==> sent.len() == pre.lights@.len() && (sent.len() == 0 || is_success_reply(
        sent.last().reply,
    )))
    &&& match r {
        Ok(_) => true,
        Err(e) => sent.len() >= 1 && !is_success_reply(sent.last().reply) && hue_failure_error(
            pre.lights@[sent.len() - 1]@,
            hue_light_url_spec(pre.hub_url@, pre.username@, pre.lights@[sent.len() - 1]@),
            sent.last().reply,
            e,
        ),
    }
}

/// Shutdown turns every light off, continuing through failures, and reports
/// the first failure encountered.
pub open spec fn hue_shutdown_trace<T: Transport>(
    pre: &HueObserver<T>,
    post: &HueObserver<T>,
    r: &DuckResult<()>,
) -> bool {
    let h0 = pre.client.history();
    let h1 = post.client.history();
    let sent = h1.skip(h0.len() as int);
    &&& h1.len() == h0.len() + pre.lights@.len()
    &&& h1.take(h0.len() as int) == h0
    &&& forall|i: int|
        0 <= i < sent.len() ==> (#[trigger] sent[i]).request == hue_off_request(
            pre,
            pre.lights@[i]@,
        )
    &&& (T::deterministic() ==> replayed_run(pre.client.queue(), sent, post.client.queue()))
    &&& (r is Ok <==> forall|i: int|
        0 <= i < sent.len() ==> is_success_reply((#[trigger] sent[i]).reply))
    &&& match r {
        Ok(_) => true,
        Err(e) => exists|k: int|
            0 <= k < sent.len() && !is_success_reply((#[trigger] sent[k]).reply) && (forall|j: int|
                0 <= j < k ==> is_success_reply((#[trigger] sent[j]).reply)) && hue_failure_error(
                pre.lights@[k]@,
                hue_light_url_spec(pre.hub_url@, pre.username@, pre.lights@[k]@),
                sent[k].reply,
                e,
            ),
    }
}

/// The full contract of `HueObserver::observe`.
pub open spec fn hue_observe_post<T: Transport>(
    pre: &HueObserver<T>,
    post: &HueObserver<T>,
    o: &Observation,
    r: &DuckResult<()>,
) -> bool {
    &&& hue_same_config(pre, post)
    &&& match o {
        Observation::DuckStatusChanged(status) => hue_update_trace(pre, post, *status, r),
        Observation::ShuttingDown => hue_shutdown_trace(pre, post, r),
        _ => post.client == pre.client && r is Ok,
    }
}

/// Two deliveries of one status change are independent: when both walks of
/// the lights succeed, the second walk PUTs the same request to every light
/// again, right after the first walk's requests — nothing is deduplicated
/// or cached between calls.
pub proof fn lemma_two_updates_reach_every_light_twice<T: Transport>(
    h0: HueObserver<T>,
    h1: HueObserver<T>,
    h2: HueObserver<T>,
    status: BuildStatus,
    r1: DuckResult<()>,
    r2: DuckResult<()>,
)
    requires
        hue_same_config(&h0, &h1),
        hue_same_config(&h1, &h2),
        hue_update_trace(&h0, &h1, status, &r1),
        hue_update_trace(&h1, &h2, status, &r2),
        r1 is Ok,
        r2 is Ok,
    ensures
        h2.client.history().len() == h0.client.history().len() + 2 * h0.lights@.len(),
        forall|i: int|
            0 <= i < h0.lights@.len() ==> #[trigger] h2.client.history()[h0.client.history().len()
                + i].request == hue_state_request(&h0, status, h0.lights@[i]@),
        forall|i: int|
            0 <= i < h0.lights@.len() ==> #[trigger] h2.client.history()[h0.client.history().len()
                + h0.lights@.len() + i].request == hue_state_request(&h0, status, h0.lights@[i]@),
{
    let n0 = h0.client.history().len() as int;
    let n = h0.lights@.len() as int;
    let first = h1.client.history().skip(n0);
    let second = h2.client.history().skip(n0 + n);
    assert(first.len() == n);
    assert(second.len() == n);
    assert forall|i: int| 0 <= i < n implies #[trigger] h2.client.history()[n0 + i].request
        == hue_state_request(&h0, status, h0.lights@[i]@) by {
        assert(h1.client.history()[n0 + i] == h2.client.history().take(n0 + n)[n0 + i]);
        assert(first[i] == h1.client.history()[n0 + i]);
        assert(first[i].request == hue_state_request(&h0, status, h0.lights@[i]@));
    }
    assert forall|i: int| 0 <= i < n implies #[trigger] h2.client.history()[n0 + n + i].request
        == hue_state_request(&h0, status, h0.lights@[i]@) by {
        assert(second[i] == h2.client.history()[n0 + n + i]);
        assert(second[i].request == hue_state_request(&h1, status, h1.lights@[i]@));
        assert(hue_state_request(&h1, status, h1.lights@[i]@) == hue_state_request(
            &h0,
            status,
            h0.lights@[i]@,
        ));
    }
}

fn xy_str(status: BuildStatus) -> (r: &'static str)
    ensures
        r@ == xy_label(status),
{
    match status {
        BuildStatus::Success => "0.32114217,0.59787315",
        BuildStatus::Failed => "0.674,0.322",
        BuildStatus::Running | BuildStatus::Queued => "0.4432,0.5154",
        _ => "0.3227,0.3290",
    }
}

fn state_body(status: BuildStatus, brightness: u8) -> (r: String)
    ensures
        r@ == hue_state_body_spec(status, brightness),
{
    let mut out = String::new();
    out.append("{\"alert\":\"none\",\"xy\":[");
    out.append(xy_str(status));
    out.append("],\"on\":true,\"bri\":");
    push_dec(brightness as u16, &mut out);
    out.append("}");
    proof {
        assert(out@ =~= hue_state_body_spec(status, brightness));
    }
    out
}

fn light_url(hub_url: &String, username: &String, light: &String) -> (r: String)
    ensures
        r@ == hue_light_url_spec(hub_url@, username@, light@),
{
    let mut out = String::new();
    out.append(hub_url.as_str());
    out.append("/api/");
    out.append(username.as_str());
    out.append("/lights/");
    out.append(light.as_str());
    out.append("/state");
    proof {
        assert(out@ =~= hue_light_url_spec(hub_url@, username@, light@));
    }
    out
}

impl<T: Transport> HueObserver<T> {
    pub fn new(config: &HueConfiguration) -> (s: Self)
        ensures
            s.info.id == config.id,
            s.info.enabled == match config.enabled {
                None => true,
                Some(e) => e,
            },
            match (&s.info.collectors, &config.collectors) {
                (None, None) => true,
                (Some(a), Some(b)) => a@ == b@,
                _ => false,
            },
            s.brightness == match config.brightness {
                None => 255u8,
                Some(b) => b,
            },
            s.hub_url == config.hub_url,
            s.username == config.username,
            s.lights@ == config.lights@,
            s.client.history() == Seq::<Exchange>::empty(),
            s.client.queue() == Seq::<ExpectationView>::empty(),
    {
        let brightness = match config.brightness {
            None => 255,
            Some(b) => b,
        };
        let mut lights: Vec<String> = Vec::new();
        let mut i: usize = 0;
        while i < config.lights.len()
            invariant
                i <= config.lights@.len(),
                lights@ == config.lights@.take(i as int),
            decreases config.lights@.len() - i,
        {
            lights.push(config.lights[i].clone());
            proof {
                assert(lights@ =~= config.lights@.take(i as int + 1));
            }
            i = i + 1;
        }
        proof {
            assert(config.lights@.take(config.lights@.len() as int) =~= config.lights@);
        }
        HueObserver {
            client: T::create(),
            info: info_from_config(&config.id, &config.enabled, &config.collectors),
            brightness,
            hub_url: config.hub_url.clone(),
            username: config.username.clone(),
            lights,
        }
    }

    pub fn get_client(&self) -> (r: &T)
        ensures
            r == &self.client,
    {
        &self.client
    }

    pub fn info(&self) -> (r: &ObserverInfo)
        ensures
            r == &self.info,
    {
        &self.info
    }

    /// Processes one observation: a status change recolours every light,
    /// stopping at the first failure; shutdown turns every light off,
    /// continuing through failures; anything else is silently ignored.
    pub fn observe(&mut self, observation: &Observation) -> (r: DuckResult<()>)
        ensures
            hue_observe_post(&*old(self), &*final(self), observation, &r),
    {
        match observation {
            Observation::DuckStatusChanged(status) => self.set_all_lights(*status),
            Observation::ShuttingDown => self.turn_all_off(),
            _ => Ok(()),
        }
    }

    fn set_all_lights(&mut self, status: BuildStatus) -> (r: DuckResult<()>)
        ensures
            hue_same_config(&*old(self), &*final(self)),
            hue_update_trace(&*old(self), &*final(self), status, &r),
    {
        let ghost h0 = self.client.history();
        let ghost h0q = self.client.queue();
        proof {
            assert(self.client.history().skip(h0.len() as int) =~= Seq::<Exchange>::empty());
            assert(requests_of(Seq::<Exchange>::empty()) =~= Seq::<RequestView>::empty());
        }
        let mut i: usize = 0;
        while i < self.lights.len()
            invariant
                i <= self.lights@.len(),
                hue_same_config(&*old(self), self),
                self.client.history().len() == h0.len() + i,
                self.client.history().take(h0.len() as int) == h0,
                h0 == old(self).client.history(),
                h0q == old(self).client.queue(),
                T::deterministic() ==> replayed_run(
                    h0q,
                    self.client.history().skip(h0.len() as int),
                    self.client.queue(),
                ),
                forall|j: int|
                    0 <= j < i ==> (#[trigger] self.client.history()[h0.len() + j]).request
                        == hue_state_request(&*old(self), status, old(self).lights@[j]@)
                        && is_success_reply(self.client.history()[h0.len() + j].reply),
            decreases self.lights@.len() - i,
        {
            let url = light_url(&self.hub_url, &self.username, &self.lights[i]);
            let body = state_body(status, self.brightness);
            let request = HttpRequest {
                method: HttpMethod::Put,
                url: url.clone(),
                body: Some(body),
            };
            let ghost prev_hist = self.client.history();
            let ghost prev_queue = self.client.queue();
            let ghost rv = request@;
            let out = self.client.send(request);
            proof {
                assert(self.client.history().take(h0.len() as int) =~= h0);
                let n0 = h0.len() as int;
                let prev_sent = prev_hist.skip(n0);
                let cur_sent = self.client.history().skip(n0);
                let e = Exchange { request: rv, reply: out.reply() };
                assert(cur_sent =~= prev_sent.push(e));
                assert(requests_of(cur_sent) =~= requests_of(prev_sent).push(rv));
                if T::deterministic() {
                    lemma_replay_rest_all_push(h0q, requests_of(prev_sent), rv);
                    assert(self.client.queue() == replay_rest_all(h0q, requests_of(cur_sent)));
                    assert(requests_of(cur_sent).take(i as int) =~= requests_of(prev_sent));
                    assert forall|j: int| 0 <= j < i + 1 implies (#[trigger] cur_sent[j]).reply
                        == replay_reply(
                        replay_rest_all(h0q, requests_of(cur_sent).take(j)),
                        cur_sent[j].request,
                    ) by {
                        if j < i {
                            assert(cur_sent[j] == prev_sent[j]);
                            assert(requests_of(cur_sent).take(j) =~= requests_of(
                                prev_sent,
                            ).take(j));
                        } else {
                            assert(cur_sent[j] == e);
                        }
                    }
                    assert(replayed_run(h0q, cur_sent, self.client.queue()));
                }
            }
            match out {
                SendOutcome::Reply(code) => {
                    if !(200 <= code && code < 300) {
                        let e = DuckError::HueLight { light: self.lights[i].clone(), code };
                        proof {
                            let sent = self.client.history().skip(h0.len() as int);
                            assert(sent.len() == i + 1);
                            assert(forall|j: int|
                                0 <= j < sent.len() ==> (#[trigger] sent[j])
                                    == self.client.history()[h0.len() + j]);
                            assert(sent.last() == self.client.history().last());
                        }
                        return Err(e);
                    }
                },
                SendOutcome::Unreachable => {
                    let e = DuckError::Unreachable { target: url };
                    proof {
                        let sent = self.client.history().skip(h0.len() as int);
                        assert(sent.len() == i + 1);
                        assert(forall|j: int|
                            0 <= j < sent.len() ==> (#[trigger] sent[j])
                                == self.client.history()[h0.len() + j]);
                        assert(sent.last() == self.client.history().last());
                    }
                    return Err(e);
                },
            }
            i = i + 1;
        }
        proof {
            let sent = self.client.history().skip(h0.len() as int);
            assert(sent.len() == self.lights@.len());
            assert(forall|j: int|
                0 <= j < sent.len() ==> (#[trigger] sent[j]) == self.client.history()[h0.len()
                    + j]);
            if sent.len() > 0 {
                assert(sent.last() == self.client.history()[h0.len() + (sent.len() - 1)]);
            }
        }
        Ok(())
    }

    fn turn_all_off(&mut self) -> (r: DuckResult<()>)
        ensures
            hue_same_config(&*old(self), &*final(self)),
            hue_shutdown_trace(&*old(self), &*final(self), &r),
    {
        let ghost h0 = self.client.history();
        let ghost h0q = self.client.queue();
        proof {
            assert(self.client.history().skip(h0.len() as int) =~= Seq::<Exchange>::empty());
            assert(requests_of(Seq::<Exchange>::empty()) =~= Seq::<RequestView>::empty());
        }
        let mut first_err: Option<DuckError> = None;
        let ghost mut fail_k: int = 0;
        let mut i: usize = 0;
        while i < self.lights.len()
            invariant
                i <= self.lights@.len(),
                hue_same_config(&*old(self), self),
                self.client.history().len() == h0.len() + i,
                self.client.history().take(h0.len() as int) == h0,
                h0 == old(self).client.history(),
                h0q == old(self).client.queue(),
                T::deterministic() ==> replayed_run(
                    h0q,
                    self.client.history().skip(h0.len() as int),
                    self.client.queue(),
                ),
                forall|j: int|
                    0 <= j < i ==> (#[trigger] self.client.history()[h0.len() + j]).request
                        == hue_off_request(&*old(self), old(self).lights@[j]@),
                match first_err {
                    None => forall|j: int|
                        0 <= j < i ==> is_success_reply(
                            (#[trigger] self.client.history()[h0.len() + j]).reply,
                        ),
                    Some(e) => 0 <= fail_k < i && !is_success_reply(
                        self.client.history()[h0.len() + fail_k].reply,
                    ) && (forall|j: int|
                        0 <= j < fail_k ==> is_success_reply(
                            (#[trigger] self.client.history()[h0.len() + j]).reply,
                        )) && hue_failure_error(
                        old(self).lights@[fail_k]@,
                        hue_light_url_spec(
                            old(self).hub_url@,
                            old(self).username@,
                            old(self).lights@[fail_k]@,
                        ),
                        self.client.history()[h0.len() + fail_k].reply,
                        &e,
                    ),
                },
            decreases self.lights@.len() - i,
        {
            let url = light_url(&self.hub_url, &self.username, &self.lights[i]);
            let mut body = String::new();
            body.append("{\"on\":false}");
            proof {
                assert(body@ =~= hue_off_body_spec());
            }
            let request = HttpRequest {
                method: HttpMethod::Put,
                url: url.clone(),
                body: Some(body),
            };
            let ghost prev_hist = self.client.history();
            let ghost rv = request@;
            let out = self.client.send(request);
            proof {
                assert(self.client.history().take(h0.len() as int) =~= h0);
                assert(self.client.history()[h0.len() + i as int] == Exchange {
                    request: rv,
                    reply: out.reply(),
                });
                let n0 = h0.len() as int;
                let prev_sent = prev_hist.skip(n0);
                let cur_sent = self.client.history().skip(n0);
                let e = Exchange { request: rv, reply: out.reply() };
                assert(cur_sent =~= prev_sent.push(e));
                assert(requests_of(cur_sent) =~= requests_of(prev_sent).push(rv));
                if T::deterministic() {
                    lemma_replay_rest_all_push(h0q, requests_of(prev_sent), rv);
                    assert(self.client.queue() == replay_rest_all(h0q, requests_of(cur_sent)));
                    assert(requests_of(cur_sent).take(i as int) =~= requests_of(prev_sent));
                    assert forall|j: int| 0 <= j < i + 1 implies (#[trigger] cur_sent[j]).reply
                        == replay_reply(
                        replay_rest_all(h0q, requests_of(cur_sent).take(j)),
                        cur_sent[j].request,
                    ) by {
                        if j < i {
                            assert(cur_sent[j] == prev_sent[j]);
                            assert(requests_of(cur_sent).take(j) =~= requests_of(
                                prev_sent,
                            ).take(j));
                        } else {
                            assert(cur_sent[j] == e);
                        }
                    }
                    assert(replayed_run(h0q, cur_sent, self.client.queue()));
                }
            }
            match out {
                SendOutcome::Reply(code) => {
                    if !(200 <= code && code < 300) {
                        if first_err.is_none() {
                            let e = DuckError::HueLight { light: self.lights[i].clone(), code };
                            proof {
                                assert(!is_success_reply(
                                    self.client.history()[h0.len() + i as int].reply,
                                ));
                                assert(hue_failure_error(
                                    old(self).lights@[i as int]@,
                                    hue_light_url_spec(
                                        old(self).hub_url@,
                                        old(self).username@,
                                        old(self).lights@[i as int]@,
                                    ),
                                    self.client.history()[h0.len() + i as int].reply,
                                    &e,
                                ));
                            }
                            first_err = Some(e);
                            proof {
                                fail_k = i as int;
                            }
                        }
                    } else {
                        proof {
                            assert(is_success_reply(
                                self.client.history()[h0.len() + i as int].reply,
                            ));
                        }
                    }
                },
                SendOutcome::Unreachable => {
                    if first_err.is_none() {
                        let e = DuckError::Unreachable { target: url };
                        proof {
                            assert(!is_success_reply(
                                self.client.history()[h0.len() + i as int].reply,
                            ));
                            assert(hue_failure_error(
                                old(self).lights@[i as int]@,
                                hue_light_url_spec(
                                    old(self).hub_url@,
                                    old(self).username@,
                                    old(self).lights@[i as int]@,
                                ),
                                self.client.history()[h0.len() + i as int].reply,
                                &e,
                            ));
                        }
                        first_err = Some(e);
                        proof {
                            fail_k = i as int;
                        }
                    }
                },
            }
            i = i + 1;
        }
        proof {
            let sent = self.client.history().skip(h0.len() as int);
            assert(sent.len() == self.lights@.len());
            assert(forall|j: int|
                0 <= j < sent.len() ==> (#[trigger] sent[j]) == self.client.history()[h0.len()
                    + j]);
            if first_err is Some {
                assert(sent[fail_k] == self.client.history()[h0.len() + fail_k]);
            }
        }
        match first_err {
            None => Ok(()),
            Some(e) => Err(e),
        }
    }
}

} // verus!
