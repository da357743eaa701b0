//! The instance registry: the explicitly owned map from instance id to
//! per-instance trust-override state, passed to every operation instead of
//! living as a process-wide singleton.
//!
//! Each instance is created once under a fresh id and torn down explicitly,
//! dropping all its contained state at once.  The collaborator operations —
//! adding a domain to an instance's bypass set by redeeming a token,
//! removing one, membership queries, clearing — and the per-request and
//! per-failure orchestrator decisions all resolve their instance here.

use vstd::prelude::*;

verus! {

use crate::HudsuckerError;
use crate::classify::ConnectError;
use crate::handler::CertErrorHandler;
use crate::handler::ErrorResponse;
use crate::handler::RequestAction;
use crate::handler::RequestInfo;
use crate::handler::spec_error_outcome;
use crate::handler::spec_request_outcome;
use crate::token::TOKEN_TTL_SECS;
use crate::token::spec_redeemable;
use crate::tls::spec_der_views;
use crate::tls::standard_verdict_of;
use crate::trust::BypassAwareVerifier;
use crate::trust::TrustVerdict;
use crate::trust::spec_verdict;

/// One proxy instance: its identifier and its trust-override state.
pub struct ProxyInstance {
    /// The instance's identifier.
    pub id: usize,
    /// The instance's trust-override state.
    pub handler: CertErrorHandler,
}

/// The registry of live proxy instances, keyed by unique instance ids.
pub struct ProxyRegistry {
    instances: Vec<ProxyInstance>,
    next_id: usize,
}

impl ProxyRegistry {
    /// The live instances, abstractly.
    pub closed spec fn spec_instances(&self) -> Seq<ProxyInstance> {
        self.instances@
    }

    /// The id the next created instance will receive.
    pub closed spec fn spec_next_id(&self) -> usize {
        self.next_id
    }

    /// Whether an instance with the given id is live.
    pub open spec fn has_instance(&self, id: usize) -> bool {
        exists|i: int|
            0 <= i < self.spec_instances().len() && self.spec_instances()[i].id == id
    }

    /// The position of the instance with the given id (ids are unique).
    pub open spec fn instance_index(&self, id: usize) -> int {
        choose|i: int|
            0 <= i < self.spec_instances().len() && self.spec_instances()[i].id == id
    }

    /// The instance with the given id.
    pub open spec fn instance(&self, id: usize) -> ProxyInstance {
        self.spec_instances()[self.instance_index(id)]
    }

    /// The registry's invariant: ids are unique and below the next fresh
    /// id.
    pub closed spec fn wf(&self) -> bool {
        &&& forall|i: int, j: int|
            0 <= i < j < self.instances@.len() ==> self.instances@[i].id != self.instances@[j].id
        &&& forall|i: int| 0 <= i < self.instances@.len() ==> (#[trigger] self.instances@[i].id)
            < self.next_id
    }

    /// An instance found at position `i` is the (unique) instance of its
    /// id.
    proof fn lemma_instance_at(&self, id: usize, i: int)
        requires
            self.wf(),
            0 <= i < self.spec_instances().len(),
            self.spec_instances()[i].id == id,
        ensures
            self.has_instance(id),
            self.instance_index(id) == i,
    {
        assert(self.has_instance(id));
        let j = self.instance_index(id);
        assert(0 <= j < self.spec_instances().len() && self.spec_instances()[j].id == id);
    }

    /// An empty registry.
    pub fn new() -> (r: Self)
        ensures
            r.wf(),
            r.spec_instances() == Seq::<ProxyInstance>::empty(),
    {
        let r = ProxyRegistry { instances: Vec::new(), next_id: 1 };
        proof {
            assert(r.spec_instances() =~= Seq::<ProxyInstance>::empty());
        }
        r
    }

    /// Finds the position of the instance with the given id.
    fn find_instance(&self, id: usize) -> (r: Option<usize>)
        ensures
            r matches Some(i) ==> i < self.spec_instances().len()
                && self.spec_instances()[i as int].id == id,
            r is None ==> !self.has_instance(id),
    {
        let n = self.instances.len();
        let mut i: usize = 0;
        while i < n
            invariant
                n == self.instances@.len(),
                i <= n,
                forall|j: int| 0 <= j < i ==> self.instances@[j].id != id,
            decreases n - i,
        {
            if self.instances[i].id == id {
                return Some(i);
            }
            i = i + 1;
        }
        None
    }

    /// Creates a new instance around the given error-page template, under a
    /// fresh id that no earlier instance ever had.  Fails only when the id
    /// space is exhausted.
    pub fn register_instance(&mut self, html_template: String) -> (r: Result<
        usize,
        HudsuckerError,
    >)
        requires
            old(self).wf(),
        ensures
            final(self).wf(),
            match r {
                Ok(id) => {
                    &&& id == old(self).spec_next_id()
                    &&& final(self).spec_next_id() == old(self).spec_next_id() + 1
                    &&& !old(self).has_instance(id)
                    &&& final(self).has_instance(id)
                    &&& final(self).instance(id).handler.bypassed_hosts@ == Set::<
                        Seq<char>,
                    >::empty()
                    &&& final(self).instance(id).handler.current_bypass_token.current is None
                    &&& final(self).instance(id).handler.html_template@ == html_template@
                    &&& forall|b: usize|
                        b != id ==> (#[trigger] old(self).has_instance(b) <==> final(self).has_instance(b))
                    &&& forall|b: usize|
                        b != id && #[trigger] old(self).has_instance(b) ==> final(self).instance(b)
                            == old(self).instance(b)
                },
                Err(e) => e == HudsuckerError::RuntimeError && final(self).spec_instances() == old(self).spec_instances() && final(self).spec_next_id() == old(self).spec_next_id(),
            },
            (r is Err) <==> old(self).spec_next_id() == usize::MAX,
    {
        if self.next_id == usize::MAX {
            return Err(HudsuckerError::RuntimeError);
        }
        let id = self.next_id;
        self.next_id = self.next_id + 1;
        let handler = CertErrorHandler::new(id, html_template);
        let ghost pre = self.instances@;
        self.instances.push(ProxyInstance { id, handler });
        proof {
            let n = pre.len() as int;
            assert(self.instances@[n].id == id);
            assert(forall|k: int| 0 <= k < n ==> self.instances@[k] == pre[k]);
            self.lemma_instance_at(id, n);
            assert forall|b: usize| b != id && #[trigger] old(self).has_instance(b) implies
                final(self).has_instance(b) && final(self).instance(b) == old(self).instance(
                b,
            ) by {
                let o = old(self).instance_index(b);
                assert(0 <= o < pre.len() && pre[o].id == b);
                old(self).lemma_instance_at(b, o);
                self.lemma_instance_at(b, o);
            }
            assert forall|b: usize| b != id && #[trigger] final(self).has_instance(b) implies
                old(self).has_instance(b) by {
                let o = self.instance_index(b);
                assert(0 <= o < self.instances@.len() && self.instances@[o].id == b);
                assert(o != n);
                assert(pre[o].id == b);
            }
        }
        Ok(id)
    }

    /// Tears the instance down, dropping its bypass set, token slot and
    /// template at once; reports whether it was live.
    pub fn destroy_instance(&mut self, id: usize) -> (r: bool)
        requires
            old(self).wf(),
        ensures
            final(self).wf(),
            final(self).spec_next_id() == old(self).spec_next_id(),
            r == old(self).has_instance(id),
            !final(self).has_instance(id),
            forall|b: usize|
                b != id ==> (#[trigger] old(self).has_instance(b) <==> final(self).has_instance(b)),
            forall|b: usize|
                b != id && #[trigger] old(self).has_instance(b) ==> final(self).instance(b) == old(self).instance(b),
    {
        let found = self.find_instance(id);
        match found {
            None => {
                assert(final(self).spec_instances() == old(self).spec_instances());
                false
            },
            Some(i) => {
                let ghost pre = self.instances@;
                self.instances.swap_remove(i);
                proof {
                    let n = pre.len() as int;
                    let fc = self.instances@;
                    assert(fc =~= pre.update(i as int, pre.last()).drop_last());
                    // each remaining instance is an old one other than i
                    assert forall|k: int| 0 <= k < fc.len() implies {
                        &&& fc[k] == pre[src_after_swap_remove(i as int, n, k)]
                        &&& 0 <= src_after_swap_remove(i as int, n, k) < n
                        &&& src_after_swap_remove(i as int, n, k) != i
                    } by {}
                    assert forall|b: usize| b != id && #[trigger] old(self).has_instance(
                        b,
                    ) implies final(self).has_instance(b) && final(self).instance(b) == old(self).instance(b) by {
                        let o = old(self).instance_index(b);
                        assert(0 <= o < n && pre[o].id == b);
                        old(self).lemma_instance_at(b, o);
                        assert(o != i);
                        let k: int = if o == n - 1 {
                            i as int
                        } else {
                            o
                        };
                        assert(fc[k] == pre[o]);
                        self.lemma_instance_at(b, k);
                    }
                    assert forall|b: usize| #[trigger] final(self).has_instance(b) implies b != id
                        && old(self).has_instance(b) by {
                        let k = self.instance_index(b);
                        assert(0 <= k < fc.len() && fc[k].id == b);
                        let o = src_after_swap_remove(i as int, n, k);
                        assert(pre[o].id == b);
                        if b == id {
                            assert(pre[i as int].id == id);
                        }
                        old(self).lemma_instance_at(b, o);
                    }
                }
                true
            },
        }
    }

    /// Redeems `token` for `domain` against the instance's token slot and,
    /// on success, admits the domain to its bypass set.  A missing
    /// instance, or an invalid, mismatched or expired token, is reported as
    /// an invalid parameter, and a failed attempt clears the slot without
    /// admitting anything.
    pub fn add_bypassed_domain(
        &mut self,
        id: usize,
        domain: &String,
        token: &String,
        now: u64,
    ) -> (r: HudsuckerError)
        requires
            old(self).wf(),
        ensures
            final(self).wf(),
            final(self).spec_next_id() == old(self).spec_next_id(),
            !old(self).has_instance(id) ==> r == HudsuckerError::InvalidParameter && final(self).spec_instances() == old(self).spec_instances(),
            old(self).has_instance(id) ==> {
                let oldh = old(self).instance(id).handler;
                let newh = final(self).instance(id).handler;
                &&& final(self).has_instance(id)
                &&& (r == HudsuckerError::Success <==> spec_redeemable(
                    oldh.current_bypass_token.current,
                    token@,
                    domain@,
                    now,
                ))
                &&& r != HudsuckerError::Success ==> r == HudsuckerError::InvalidParameter
                &&& (spec_redeemable(oldh.current_bypass_token.current, token@, domain@, now)
                    ==> newh.bypassed_hosts@ == oldh.bypassed_hosts@.insert(domain@))
                &&& (!spec_redeemable(oldh.current_bypass_token.current, token@, domain@, now)
                    ==> newh.bypassed_hosts@ == oldh.bypassed_hosts@)
                &&& newh.current_bypass_token.current is None
                &&& newh.html_template@ == oldh.html_template@
            },
            forall|b: usize|
                b != id ==> (#[trigger] old(self).has_instance(b) <==> final(self).has_instance(b)),
            forall|b: usize|
                b != id && #[trigger] old(self).has_instance(b) ==> final(self).instance(b) == old(self).instance(b),
    {
        let found = self.find_instance(id);
        match found {
            None => HudsuckerError::InvalidParameter,
            Some(i) => {
                let ghost pre = *self;
                proof {
                    pre.lemma_instance_at(id, i as int);
                }
                let ok = self.instances[i].handler.validate_and_consume_bypass_token(
                    token,
                    domain,
                    now,
                );
                let r = if ok {
                    self.instances[i].handler.bypassed_hosts.insert(domain.clone());
                    HudsuckerError::Success
                } else {
                    HudsuckerError::InvalidParameter
                };
                proof {
                    self.lemma_after_update(pre, id, i as int);
                }
                r
            },
        }
    }

    /// Removes `domain` from the instance's bypass set; subsequent
    /// handshakes for it fall back to standard validation.
    pub fn remove_bypassed_domain(&mut self, id: usize, domain: &String) -> (r: HudsuckerError)
        requires
            old(self).wf(),
        ensures
            final(self).wf(),
            final(self).spec_next_id() == old(self).spec_next_id(),
            !old(self).has_instance(id) ==> r == HudsuckerError::InvalidParameter && final(self).spec_instances() == old(self).spec_instances(),
            old(self).has_instance(id) ==> {
                let oldh = old(self).instance(id).handler;
                let newh = final(self).instance(id).handler;
                &&& r == HudsuckerError::Success
                &&& final(self).has_instance(id)
                &&& newh.bypassed_hosts@ == oldh.bypassed_hosts@.remove(domain@)
                &&& newh.current_bypass_token == oldh.current_bypass_token
                &&& newh.html_template@ == oldh.html_template@
            },
            forall|b: usize|
                b != id ==> (#[trigger] old(self).has_instance(b) <==> final(self).has_instance(b)),
            forall|b: usize|
                b != id && #[trigger] old(self).has_instance(b) ==> final(self).instance(b) == old(self).instance(b),
    {
        let found = self.find_instance(id);
        match found {
            None => HudsuckerError::InvalidParameter,
            Some(i) => {
                let ghost pre = *self;
                proof {
                    pre.lemma_instance_at(id, i as int);
                }
                self.instances[i].handler.bypassed_hosts.remove(domain.as_str());
                proof {
                    self.lemma_after_update(pre, id, i as int);
                }
                HudsuckerError::Success
            },
        }
    }

    /// Whether `domain` is in the instance's bypass set; `None` when the
    /// instance is not live.
    pub fn is_domain_bypassed(&self, id: usize, domain: &String) -> (r: Option<bool>)
        requires
            self.wf(),
        ensures
            match r {
                Some(b) => self.has_instance(id) && b == self.instance(
                    id,
                ).handler.bypassed_hosts@.contains(domain@),
                None => !self.has_instance(id),
            },
    {
        let found = self.find_instance(id);
        match found {
            None => None,
            Some(i) => {
                proof {
                    self.lemma_instance_at(id, i as int);
                }
                Some(self.instances[i].handler.bypassed_hosts.contains(domain.as_str()))
            },
        }
    }

    /// Empties the instance's bypass set.
    pub fn clear_bypassed_domains(&mut self, id: usize) -> (r: HudsuckerError)
        requires
            old(self).wf(),
        ensures
            final(self).wf(),
            final(self).spec_next_id() == old(self).spec_next_id(),
            !old(self).has_instance(id) ==> r == HudsuckerError::InvalidParameter && final(self).spec_instances() == old(self).spec_instances(),
            old(self).has_instance(id) ==> {
                let oldh = old(self).instance(id).handler;
                let newh = final(self).instance(id).handler;
                &&& r == HudsuckerError::Success
                &&& final(self).has_instance(id)
                &&& newh.bypassed_hosts@ == Set::<Seq<char>>::empty()
                &&& newh.current_bypass_token == oldh.current_bypass_token
                &&& newh.html_template@ == oldh.html_template@
            },
            forall|b: usize|
                b != id ==> (#[trigger] old(self).has_instance(b) <==> final(self).has_instance(b)),
            forall|b: usize|
                b != id && #[trigger] old(self).has_instance(b) ==> final(self).instance(b) == old(self).instance(b),
    {
        let found = self.find_instance(id);
        match found {
            None => HudsuckerError::InvalidParameter,
            Some(i) => {
                let ghost pre = *self;
                proof {
                    pre.lemma_instance_at(id, i as int);
                }
                self.instances[i].handler.bypassed_hosts.clear();
                proof {
                    self.lemma_after_update(pre, id, i as int);
                }
                HudsuckerError::Success
            },
        }
    }

    /// The per-request decision of the given instance (see
    /// `CertErrorHandler::handle_request`); `None` when the instance is not
    /// live.
    pub fn handle_request(&mut self, id: usize, req: &RequestInfo, now: u64) -> (r: Option<
        RequestAction,
    >)
        requires
            old(self).wf(),
        ensures
            final(self).wf(),
            final(self).spec_next_id() == old(self).spec_next_id(),
            !old(self).has_instance(id) ==> r is None && final(self).spec_instances() == old(self).spec_instances(),
            old(self).has_instance(id) ==> r is Some && final(self).has_instance(id)
                && spec_request_outcome(
                old(self).instance(id).handler,
                final(self).instance(id).handler,
                *req,
                now,
                r.unwrap(),
            ),
            forall|b: usize|
                b != id ==> (#[trigger] old(self).has_instance(b) <==> final(self).has_instance(b)),
            forall|b: usize|
                b != id && #[trigger] old(self).has_instance(b) ==> final(self).instance(b) == old(self).instance(b),
    {
        let found = self.find_instance(id);
        match found {
            None => None,
            Some(i) => {
                let ghost pre = *self;
                proof {
                    pre.lemma_instance_at(id, i as int);
                }
                let action = self.instances[i].handler.handle_request(req, now);
                proof {
                    self.lemma_after_update(pre, id, i as int);
                }
                Some(action)
            },
        }
    }

    /// The failure answer of the given instance (see
    /// `CertErrorHandler::handle_error`); `None` when the instance is not
    /// live.
    pub fn handle_error(&mut self, id: usize, err: &ConnectError, now: u64) -> (r: Option<
        ErrorResponse,
    >)
        requires
            old(self).wf(),
            now + TOKEN_TTL_SECS <= u64::MAX,
        ensures
            final(self).wf(),
            final(self).spec_next_id() == old(self).spec_next_id(),
            !old(self).has_instance(id) ==> r is None && final(self).spec_instances() == old(self).spec_instances(),
            old(self).has_instance(id) ==> r is Some && final(self).has_instance(id)
                && spec_error_outcome(
                old(self).instance(id).handler,
                final(self).instance(id).handler,
                *err,
                now,
                r.unwrap(),
            ),
            forall|b: usize|
                b != id ==> (#[trigger] old(self).has_instance(b) <==> final(self).has_instance(b)),
            forall|b: usize|
                b != id && #[trigger] old(self).has_instance(b) ==> final(self).instance(b) == old(self).instance(b),
    {
        let found = self.find_instance(id);
        match found {
            None => None,
            Some(i) => {
                let ghost pre = *self;
                proof {
                    pre.lemma_instance_at(id, i as int);
                }
                let resp = self.instances[i].handler.handle_error(err, now);
                proof {
                    self.lemma_after_update(pre, id, i as int);
                }
                Some(resp)
            },
        }
    }

    /// The handshake-time trust decision of the given instance: the bypass
    /// verdict exactly when the hostname is in that instance's bypass set
    /// at decision time, otherwise the standard validator's verdict (see
    /// `BypassAwareVerifier::verify_server_cert`); `None` when the instance
    /// is not live.
    pub fn verify_server_cert(
        &self,
        id: usize,
        verifier: &BypassAwareVerifier,
        end_entity: &Vec<u8>,
        intermediates: &Vec<Vec<u8>>,
        hostname: &String,
        now: u64,
    ) -> (r: Option<TrustVerdict>)
        requires
            self.wf(),
        ensures
            match r {
                Some(v) => {
                    &&& self.has_instance(id)
                    &&& ((v is BypassTrusted) <==> self.instance(
                        id,
                    ).handler.bypassed_hosts@.contains(hostname@))
                    &&& !self.instance(id).handler.bypassed_hosts@.contains(hostname@) ==> v
                        == spec_verdict(
                        false,
                        standard_verdict_of(
                            end_entity@,
                            spec_der_views(intermediates@),
                            hostname@,
                            now,
                        ),
                    )
                },
                None => !self.has_instance(id),
            },
    {
        let found = self.find_instance(id);
        match found {
            None => None,
            Some(i) => {
                proof {
                    self.lemma_instance_at(id, i as int);
                }
                Some(
                    verifier.verify_server_cert(
                        &self.instances[i].handler.bypassed_hosts,
                        end_entity,
                        intermediates,
                        hostname,
                        now,
                    ),
                )
            },
        }
    }

    /// Every live instance's id lies strictly below the next fresh id.
    /// Since creation hands out exactly the next id and then raises it, and
    /// no other operation lowers it, an id returned by one creation is
    /// never returned by a later one — even after the instance is torn
    /// down.
    pub proof fn lemma_live_ids_below_next(&self)
        requires
            self.wf(),
        ensures
            forall|id: usize| #[trigger] self.has_instance(id) ==> id < self.spec_next_id(),
    {
        assert forall|id: usize| #[trigger] self.has_instance(id) implies id
            < self.spec_next_id() by {
            let i = self.instance_index(id);
            assert(0 <= i < self.instances@.len() && self.instances@[i].id == id);
        }
    }

    /// After mutating the instance at position `i` (its id unchanged), the
    /// registry is still well formed, that id still resolves to position
    /// `i`, and every other instance is untouched.
    proof fn lemma_after_update(&self, pre: ProxyRegistry, id: usize, i: int)
        requires
            pre.wf(),
            0 <= i < pre.spec_instances().len(),
            pre.spec_instances()[i].id == id,
            self.spec_instances().len() == pre.spec_instances().len(),
            self.spec_instances()[i].id == id,
            forall|k: int|
                0 <= k < pre.spec_instances().len() && k != i ==> self.spec_instances()[k]
                    == pre.spec_instances()[k],
            self.spec_next_id() == pre.spec_next_id(),
        ensures
            self.wf(),
            self.has_instance(id),
            self.instance_index(id) == i,
            pre.instance_index(id) == i,
            forall|b: usize| b != id ==> (pre.has_instance(b) <==> self.has_instance(b)),
            forall|b: usize|
                b != id && pre.has_instance(b) ==> self.instance(b) == pre.instance(b),
    {
        let n = pre.spec_instances().len() as int;
        assert forall|k: int| 0 <= k < n implies self.spec_instances()[k].id
            == pre.spec_instances()[k].id by {}
        assert(self.wf());
        self.lemma_instance_at(id, i);
        pre.lemma_instance_at(id, i);
        assert forall|b: usize| b != id && pre.has_instance(b) implies self.has_instance(b)
            && self.instance(b) == pre.instance(b) by {
            let o = pre.instance_index(b);
            assert(0 <= o < n && pre.spec_instances()[o].id == b);
            pre.lemma_instance_at(b, o);
            assert(o != i);
            self.lemma_instance_at(b, o);
        }
        assert forall|b: usize| b != id && self.has_instance(b) implies pre.has_instance(b) by {
            let o = self.instance_index(b);
            assert(0 <= o < n && self.spec_instances()[o].id == b);
            assert(o != i);
            assert(pre.spec_instances()[o].id == b);
        }
    }
}

/// The pre-removal position a post-`swap_remove` element at position `k`
/// came from: the last element moves into the removed slot.
spec fn src_after_swap_remove(i: int, n: int, k: int) -> int {
    if k == i {
        n - 1
    } else {
        k
    }
}

} // verus!
