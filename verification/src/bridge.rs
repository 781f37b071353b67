//! The completion bridge: every pending request is completed once, with
//! the renderer's finish call or with its error call, never with both.
//!
//! The renderer's handle of a request stays with the bridge, on the
//! rendering thread. What travels with the fetch is a `PendingRequest`, a
//! token that cannot be copied and is used up by the one completion.

use vstd::prelude::*;
use crate::failure::Failure;
use crate::failure::FailureView;
use crate::fetch::FetchResult;
use crate::fetch::FetchResultView;

verus! {

/// The token of one request in flight. It has no copy: what holds it holds
/// the one right to complete the request.
#[derive(Debug)]
pub struct PendingRequest {
    id: u64,
}

impl PendingRequest {
    /// The number under which the bridge keeps the request.
    pub closed spec fn spec_id(&self) -> u64 {
        self.id
    }

    /// The number under which the bridge keeps the request.
    pub fn id(&self) -> (r: u64)
        ensures
            r == self.spec_id(),
    {
        self.id
    }
}

/// The one call that completes a request at the renderer.
#[derive(Debug)]
pub enum Completion {
    /// Finish with a stream over `body`, its length and the content type.
    Finish { body: Vec<u8>, length: usize, content_type: Option<String> },
    /// Finish with an error.
    FinishError { failure: Failure },
}

/// The mathematical value of a `Completion`.
pub enum CompletionView {
    Finish { body: Seq<u8>, length: nat, content_type: Option<Seq<char>> },
    FinishError { failure: FailureView },
}

impl View for Completion {
    type V = CompletionView;

    open spec fn view(&self) -> CompletionView {
        match self {
            Completion::Finish { body, length, content_type } => CompletionView::Finish {
                body: body@,
                length: *length as nat,
                content_type: match content_type {
                    Some(t) => Some(t@),
                    None => None,
                },
            },
            Completion::FinishError { failure } => CompletionView::FinishError {
                failure: failure@,
            },
        }
    }
}

/// The call that a fetch result asks for: a success finishes with its
/// three values as they are, a failure finishes with the error.
pub open spec fn spec_completion(result: FetchResultView) -> CompletionView {
    match result {
        FetchResultView::Success { body, length, content_type } => CompletionView::Finish {
            body,
            length,
            content_type,
        },
        FetchResultView::Failure(failure) => CompletionView::FinishError { failure },
    }
}

impl Completion {
    /// The call that `result` asks for.
    pub fn of(result: FetchResult) -> (r: Completion)
        ensures
            r@ == spec_completion(result@),
    {
        match result {
            FetchResult::Success { body, length, content_type } => Completion::Finish {
                body,
                length,
                content_type,
            },
            FetchResult::Failure(failure) => Completion::FinishError { failure },
        }
    }

    /// Whether this is the finish call, not the error call.
    pub fn is_finish(&self) -> (r: bool)
        ensures
            r == (self@ is Finish),
    {
        match self {
            Completion::Finish { .. } => true,
            Completion::FinishError { .. } => false,
        }
    }
}

/// One completion that the bridge has issued.
pub struct CompletionRecord {
    /// The request that was completed.
    pub id: u64,
    /// Whether it was the finish call; the error call where not.
    pub finished: bool,
}

/// The ledger of requests: those in flight, each with the renderer's
/// handle of type `H`, and the record of every completion issued.
pub struct CompletionBridge<H> {
    first_id: u64,
    next_id: u64,
    ids: Vec<u64>,
    handles: Vec<H>,
    log: Ghost<Seq<CompletionRecord>>,
}

impl<H> CompletionBridge<H> {
    /// The number that the first request got, or will get.
    pub closed spec fn first_number(&self) -> nat {
        self.first_id as nat
    }

    /// The number that the next request gets.
    pub closed spec fn next_number(&self) -> nat {
        self.next_id as nat
    }

    /// The request `id` has entered the bridge.
    pub open spec fn has_entered(&self, id: u64) -> bool {
        self.first_number() <= id < self.next_number()
    }

    /// The requests in flight, oldest first.
    pub closed spec fn pending_ids(&self) -> Seq<u64> {
        self.ids@
    }

    /// The renderer's handles of the requests in flight, in the same order.
    pub closed spec fn pending_handles(&self) -> Seq<H> {
        self.handles@
    }

    /// Every completion issued so far, in the order of issue.
    pub closed spec fn completed(&self) -> Seq<CompletionRecord> {
        self.log@
    }

    /// The request `id` is in flight.
    pub open spec fn is_pending(&self, id: u64) -> bool {
        self.pending_ids().contains(id)
    }

    /// The completion number `j` was that of the request `id`.
    pub open spec fn completed_at(&self, id: u64, j: int) -> bool {
        0 <= j < self.completed().len() && self.completed()[j].id == id
    }

    /// The request `id` has been completed.
    pub open spec fn is_completed(&self, id: u64) -> bool {
        exists|j: int| self.completed_at(id, j)
    }

    /// Where the request `id` stands among those in flight.
    pub open spec fn slot_of(&self, id: u64) -> int {
        choose|i: int| 0 <= i < self.pending_ids().len() && self.pending_ids()[i] == id
    }

    /// The ledger is consistent: a request is listed once at most, in
    /// flight or completed and not both, and every request that entered is
    /// listed.
    pub open spec fn wf(&self) -> bool {
        &&& self.first_number() <= self.next_number() <= u64::MAX
        &&& self.pending_ids().len() == self.pending_handles().len()
        &&& self.pending_ids().no_duplicates()
        &&& forall|i: int|
            0 <= i < self.pending_ids().len() ==> self.has_entered(#[trigger] self.pending_ids()[i])
        &&& forall|j: int|
            0 <= j < self.completed().len() ==> self.has_entered(
                (#[trigger] self.completed()[j]).id,
            )
        &&& forall|j1: int, j2: int|
            0 <= j1 < j2 < self.completed().len() ==> (#[trigger] self.completed()[j1]).id != (
            #[trigger] self.completed()[j2]).id
        &&& forall|i: int, j: int|
            0 <= i < self.pending_ids().len() && 0 <= j < self.completed().len() ==> (
            #[trigger] self.pending_ids()[i]) != (#[trigger] self.completed()[j]).id
        &&& forall|id: u64|
            self.has_entered(id) ==> #[trigger] self.is_pending(id) || self.is_completed(id)
    }

    /// Every request that entered the bridge is either in flight, with no
    /// completion issued, or has been completed by exactly one call: no
    /// request is completed twice, and none is dropped from the ledger.
    pub proof fn lemma_completed_exactly_once(&self, id: u64)
        requires
            self.wf(),
            self.has_entered(id),
        ensures
            self.is_pending(id) != self.is_completed(id),
            self.is_completed(id) ==> exists|j: int|
                self.completed_at(id, j) && forall|k: int| self.completed_at(id, k) ==> k == j,
    {
        if self.is_pending(id) {
            let i = choose|i: int| 0 <= i < self.pending_ids().len() && self.pending_ids()[i] == id;
            if self.is_completed(id) {
                let j = choose|j: int| self.completed_at(id, j);
                assert(self.pending_ids()[i] != self.completed()[j].id);
            }
        }
        if self.is_completed(id) {
            let j = choose|j: int| self.completed_at(id, j);
            assert forall|k: int| self.completed_at(id, k) implies k == j by {
                if k < j {
                    assert(self.completed()[k].id != self.completed()[j].id);
                } else if j < k {
                    assert(self.completed()[j].id != self.completed()[k].id);
                }
            }
        }
    }

    /// A request that never entered the bridge has no completion.
    pub proof fn lemma_unknown_never_completed(&self, id: u64)
        requires
            self.wf(),
            !self.has_entered(id),
        ensures
            !self.is_pending(id),
            !self.is_completed(id),
    {
        if self.is_pending(id) {
            let i = choose|i: int| 0 <= i < self.pending_ids().len() && self.pending_ids()[i] == id;
            assert(self.has_entered(self.pending_ids()[i]));
        }
        if self.is_completed(id) {
            let j = choose|j: int| self.completed_at(id, j);
            assert(self.has_entered(self.completed()[j].id));
        }
    }

    /// An empty ledger that numbers its requests from 0.
    pub fn new() -> (b: CompletionBridge<H>)
        ensures
            b.wf(),
            b.first_number() == 0,
            b.next_number() == 0,
            b.pending_ids().len() == 0,
            b.completed().len() == 0,
    {
        CompletionBridge::numbered_from(0)
    }

    /// An empty ledger that numbers its requests from `first`.
    pub fn numbered_from(first: u64) -> (b: CompletionBridge<H>)
        ensures
            b.wf(),
            b.first_number() == first,
            b.next_number() == first,
            b.pending_ids().len() == 0,
            b.completed().len() == 0,
    {
        let b = CompletionBridge {
            first_id: first,
            next_id: first,
            ids: Vec::new(),
            handles: Vec::new(),
            log: Ghost(Seq::empty()),
        };
        proof {
            assert forall|id: u64| b.has_entered(id) implies #[trigger] b.is_pending(id)
                || b.is_completed(id) by {}
        }
        b
    }

    /// How many requests are in flight.
    pub fn pending_count(&self) -> (n: usize)
        ensures
            n == self.pending_ids().len(),
    {
        self.ids.len()
    }

    /// Takes a request in: keeps the renderer's handle and gives out the
    /// token that completes the request. The handle comes back unused
    /// where the ledger's numbers are exhausted.
    pub fn enter(&mut self, handle: H) -> (r: Result<PendingRequest, H>)
        requires
            old(self).wf(),
        ensures
            final(self).wf(),
            final(self).first_number() == old(self).first_number(),
            final(self).completed() == old(self).completed(),
            r is Ok <==> old(self).next_number() < u64::MAX,
            r matches Ok(token) ==> {
                &&& token.spec_id() == old(self).next_number()
                &&& final(self).next_number() == old(self).next_number() + 1
                &&& final(self).pending_ids() == old(self).pending_ids().push(token.spec_id())
                &&& final(self).pending_handles() == old(self).pending_handles().push(handle)
                &&& final(self).is_pending(token.spec_id())
                &&& !old(self).is_pending(token.spec_id())
                &&& !final(self).is_completed(token.spec_id())
            },
            r matches Err(h) ==> {
                &&& h == handle
                &&& final(self).next_number() == old(self).next_number()
                &&& final(self).pending_ids() == old(self).pending_ids()
                &&& final(self).pending_handles() == old(self).pending_handles()
            },
    {
        if self.next_id == u64::MAX {
            return Err(handle);
        }
        let id = self.next_id;
        proof {
            old(self).lemma_unknown_never_completed(id);
        }
        self.ids.push(id);
        self.handles.push(handle);
        self.next_id = id + 1;
        proof {
            let before = old(self).pending_ids();
            let after = self.pending_ids();
            assert(after == before.push(id));
            assert(after[before.len() as int] == id);
            assert(self.is_pending(id));
            assert forall|a: int, b: int|
                0 <= a < after.len() && 0 <= b < after.len() && a != b implies after[a]
                != after[b] by {
                if a == before.len() {
                    assert(old(self).has_entered(before[b]));
                } else if b == before.len() {
                    assert(old(self).has_entered(before[a]));
                }
            }
            assert forall|i: int| 0 <= i < after.len() implies self.has_entered(
                #[trigger] after[i],
            ) by {
                if i < before.len() {
                    assert(old(self).has_entered(before[i]));
                }
            }
            assert forall|j: int| 0 <= j < self.completed().len() implies self.has_entered(
                (#[trigger] self.completed()[j]).id,
            ) by {
                assert(old(self).has_entered(old(self).completed()[j].id));
            }
            assert forall|x: u64| self.has_entered(x) implies #[trigger] self.is_pending(x)
                || self.is_completed(x) by {
                if x == id {
                } else {
                    assert(old(self).has_entered(x));
                    if old(self).is_pending(x) {
                        let i = choose|i: int| 0 <= i < before.len() && before[i] == x;
                        assert(after[i] == x);
                    } else {
                        assert(old(self).is_completed(x));
                        let j = choose|j: int| old(self).completed_at(x, j);
                        assert(self.completed_at(x, j));
                    }
                }
            }
            if self.is_completed(id) {
                let j = choose|j: int| self.completed_at(id, j);
                assert(old(self).completed_at(id, j));
            }
        }
        Ok(PendingRequest { id })
    }

    /// Where `id` stands among the requests in flight, if it does.
    fn find(&self, id: u64) -> (r: Option<usize>)
        requires
            self.wf(),
        ensures
            r is Some <==> self.is_pending(id),
            r matches Some(i) ==> i < self.pending_ids().len() && self.pending_ids()[i as int] == id
                && i == self.slot_of(id),
    {
        let mut i: usize = 0;
        while i < self.ids.len()
            invariant
                i <= self.ids.len(),
                self.wf(),
                forall|k: int| 0 <= k < i ==> self.ids@[k] != id,
            decreases self.ids.len() - i,
        {
            if self.ids[i] == id {
                proof {
                    let c = self.slot_of(id);
                    assert(self.pending_ids()[i as int] == id);
                    assert(0 <= c < self.pending_ids().len() && self.pending_ids()[c] == id);
                }
                return Some(i);
            }
            i = i + 1;
        }
        None
    }

    /// Completes the request of `token` with the call that `result` asks
    /// for, and hands the renderer's handle back for that one call. The
    /// token is used up. A token that this ledger does not list in flight
    /// completes nothing: no call is issued for it, and nothing changes.
    pub fn complete(&mut self, token: PendingRequest, result: FetchResult) -> (r: Option<
        (H, Completion),
    >)
        requires
            old(self).wf(),
        ensures
            final(self).wf(),
            final(self).first_number() == old(self).first_number(),
            final(self).next_number() == old(self).next_number(),
            r is Some <==> old(self).is_pending(token.spec_id()),
            r matches Some(done) ==> {
                let i = old(self).slot_of(token.spec_id());
                &&& done.1@ == spec_completion(result@)
                &&& done.0 == old(self).pending_handles()[i]
                &&& final(self).pending_ids() == old(self).pending_ids().remove(i)
                &&& final(self).pending_handles() == old(self).pending_handles().remove(i)
                &&& final(self).completed() == old(self).completed().push(
                    CompletionRecord {
                        id: token.spec_id(),
                        finished: result@ is Success,
                    },
                )
                &&& !final(self).is_pending(token.spec_id())
                &&& final(self).is_completed(token.spec_id())
            },
            r is None ==> {
                &&& final(self).pending_ids() == old(self).pending_ids()
                &&& final(self).pending_handles() == old(self).pending_handles()
                &&& final(self).completed() == old(self).completed()
            },
    {
        let id = token.id;
        let i = match self.find(id) {
            Some(i) => i,
            None => {
                return None;
            },
        };
        let ghost record = CompletionRecord { id, finished: result@ is Success };
        let call = Completion::of(result);
        let _ = self.ids.remove(i);
        let handle = self.handles.remove(i);
        self.log = Ghost(self.log@.push(record));
        proof {
            let before = old(self).pending_ids();
            let after = self.pending_ids();
            let log_before = old(self).completed();
            let log_after = self.completed();
            assert(after == before.remove(i as int));
            assert(log_after == log_before.push(record));
            assert forall|k: int| 0 <= k < after.len() implies after[k] == before[if k < i {
                k
            } else {
                k + 1
            }] by {}
            assert forall|k: int| 0 <= k < after.len() implies after[k] != id by {
                let src = if k < i {
                    k
                } else {
                    k + 1
                };
                assert(after[k] == before[src]);
                assert(before[src] != before[i as int]);
            }
            assert(!self.is_pending(id));
            assert(log_after[log_before.len() as int].id == id);
            assert(self.completed_at(id, log_before.len() as int));
            assert forall|a: int, b: int|
                0 <= a < after.len() && 0 <= b < after.len() && a != b implies after[a]
                != after[b] by {
                let sa = if a < i {
                    a
                } else {
                    a + 1
                };
                let sb = if b < i {
                    b
                } else {
                    b + 1
                };
                assert(before[sa] != before[sb]);
            }
            assert forall|j1: int, j2: int| 0 <= j1 < j2 < log_after.len() implies (
            #[trigger] log_after[j1]).id != (#[trigger] log_after[j2]).id by {
                if j2 == log_before.len() {
                    assert(log_after[j1] == log_before[j1]);
                    assert(before[i as int] != log_before[j1].id);
                } else {
                    assert(log_after[j1] == log_before[j1]);
                    assert(log_after[j2] == log_before[j2]);
                }
            }
            assert forall|a: int, j: int|
                0 <= a < after.len() && 0 <= j < log_after.len() implies (#[trigger] after[a]) != (
            #[trigger] log_after[j]).id by {
                let sa = if a < i {
                    a
                } else {
                    a + 1
                };
                assert(after[a] == before[sa]);
                if j == log_before.len() {
                } else {
                    assert(log_after[j] == log_before[j]);
                    assert(before[sa] != log_before[j].id);
                }
            }
            assert forall|j: int| 0 <= j < log_after.len() implies self.has_entered(
                (#[trigger] log_after[j]).id,
            ) by {
                if j == log_before.len() {
                    assert(old(self).has_entered(before[i as int]));
                } else {
                    assert(log_after[j] == log_before[j]);
                    assert(old(self).has_entered(log_before[j].id));
                }
            }
            assert forall|k: int| 0 <= k < after.len() implies self.has_entered(
                #[trigger] after[k],
            ) by {
                let src = if k < i {
                    k
                } else {
                    k + 1
                };
                assert(after[k] == before[src]);
                assert(old(self).has_entered(before[src]));
            }
            assert forall|x: u64| self.has_entered(x) implies #[trigger] self.is_pending(x)
                || self.is_completed(x) by {
                if x == id {
                } else if old(self).is_pending(x) {
                    let s = choose|s: int| 0 <= s < before.len() && before[s] == x;
                    let t = if s < i {
                        s
                    } else {
                        s - 1
                    };
                    assert(after[t] == x);
                } else {
                    assert(old(self).is_completed(x));
                    let j = choose|j: int| old(self).completed_at(x, j);
                    assert(log_after[j] == log_before[j]);
                    assert(self.completed_at(x, j));
                }
            }
        }
        Some((handle, call))
    }
}

} // verus!
