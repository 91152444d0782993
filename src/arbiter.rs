//! Exclusive access to the one shared actuator: workers queue for it in the order
//! they ask, and each release hands it to the longest waiting worker.
use vstd::prelude::*;

verus! {

/// The mathematical value of an [`Arbiter`]: who holds access, and who waits, in
/// order of arrival.
pub struct ArbiterView {
    pub holder: Option<usize>,
    pub waiting: Seq<usize>,
}

/// Grants exclusive access to the actuator to one worker at a time.
pub struct Arbiter {
    holder: Option<usize>,
    waiting: Vec<usize>,
}

impl View for Arbiter {
    type V = ArbiterView;

    closed spec fn view(&self) -> ArbiterView {
        ArbiterView { holder: self.holder, waiting: self.waiting@ }
    }
}

/// Nobody waits while access is free, and each worker appears at most once.
pub open spec fn arbiter_wf(v: ArbiterView) -> bool {
    &&& v.holder is None ==> v.waiting.len() == 0
    &&& v.waiting.no_duplicates()
    &&& v.holder matches Some(h) ==> !v.waiting.contains(h)
}

/// A worker asks for access: it gets it at once when nobody holds it, else it
/// joins the end of the queue. A worker that already holds or waits changes nothing.
pub open spec fn request_spec(v: ArbiterView, w: usize) -> ArbiterView {
    if v.holder == Some(w) || v.waiting.contains(w) {
        v
    } else if v.holder is None {
        ArbiterView { holder: Some(w), waiting: v.waiting }
    } else {
        ArbiterView { holder: v.holder, waiting: v.waiting.push(w) }
    }
}

/// The holder gives access up: it passes to the first waiting worker, or becomes free.
pub open spec fn pass_on(v: ArbiterView) -> ArbiterView {
    if v.waiting.len() == 0 {
        ArbiterView { holder: None, waiting: v.waiting }
    } else {
        ArbiterView { holder: Some(v.waiting[0]), waiting: v.waiting.drop_first() }
    }
}

/// The position of a waiting worker in the queue.
pub open spec fn queue_position(v: ArbiterView, w: usize) -> int {
    choose|i: int| 0 <= i < v.waiting.len() && v.waiting[i] == w
}

/// A worker gives up its claim: the holder passes access on, a waiting worker
/// leaves the queue, and any other worker changes nothing.
pub open spec fn release_spec(v: ArbiterView, w: usize) -> ArbiterView {
    if v.holder == Some(w) {
        pass_on(v)
    } else if v.waiting.contains(w) {
        ArbiterView { holder: v.holder, waiting: v.waiting.remove(queue_position(v, w)) }
    } else {
        v
    }
}

/// The state after the holder has released `n` times in a row.
pub open spec fn after_passes(v: ArbiterView, n: nat) -> ArbiterView
    decreases n,
{
    if n == 0 {
        v
    } else {
        after_passes(pass_on(v), (n - 1) as nat)
    }
}

/// Access has one holder at most, and the holder does not also wait in the queue.
pub proof fn lemma_single_holder(v: ArbiterView, a: usize, b: usize)
    requires
        arbiter_wf(v),
        v.holder == Some(a),
        v.holder == Some(b),
    ensures
        a == b,
        !v.waiting.contains(a),
{
}

/// When the holder releases, access passes to the worker that has waited longest.
pub proof fn lemma_release_by_holder(v: ArbiterView, w: usize)
    requires
        v.holder == Some(w),
    ensures
        release_spec(v, w) == pass_on(v),
{
}

/// A waiting worker holds access once the holders have released as many times as
/// there are workers ahead of it, plus one: nobody waits forever.
pub proof fn lemma_waiter_granted(v: ArbiterView, w: usize, k: nat)
    requires
        k < v.waiting.len(),
        v.waiting[k as int] == w,
    ensures
        after_passes(v, k + 1).holder == Some(w),
    decreases k,
{
    let v1 = pass_on(v);
    assert(after_passes(v, k + 1) == after_passes(v1, k));
    if k == 0 {
        assert(after_passes(v1, 0) == v1);
    } else {
        assert(v1.waiting[(k - 1) as int] == w);
        lemma_waiter_granted(v1, w, (k - 1) as nat);
        assert((k - 1) as nat + 1 == k);
    }
}

/// A request from another worker leaves a waiting worker's place in the queue.
pub proof fn lemma_request_keeps_place(v: ArbiterView, w: usize, x: usize, k: int)
    requires
        arbiter_wf(v),
        0 <= k < v.waiting.len(),
        v.waiting[k] == w,
    ensures
        request_spec(v, x).waiting[k] == w,
        request_spec(v, x).waiting.len() >= v.waiting.len(),
{
}

/// Two workers that set the actuator one after the other, starting from free
/// access, hold it one at a time: the second waits until the first releases, and
/// access is free again after both.
pub proof fn lemma_writes_serialized(v: ArbiterView, a: usize, b: usize)
    requires
        arbiter_wf(v),
        v.holder is None,
        a != b,
    ensures
        request_spec(v, a).holder == Some(a),
        request_spec(request_spec(v, a), b).holder == Some(a),
        release_spec(request_spec(request_spec(v, a), b), a).holder == Some(b),
        release_spec(release_spec(request_spec(request_spec(v, a), b), a), b).holder is None,
{
    let v1 = request_spec(v, a);
    let v2 = request_spec(v1, b);
    assert(!v.waiting.contains(a));
    assert(v1.waiting.len() == 0);
    assert(!v1.waiting.contains(b));
    assert(v2.waiting =~= seq![b]);
    let v3 = release_spec(v2, a);
    assert(v3.waiting.len() == 0);
}

impl Arbiter {
    /// The arbiter is well formed.
    pub open spec fn wf(&self) -> bool {
        arbiter_wf(self@)
    }

    /// Access is free and nobody waits.
    pub fn new() -> (r: Arbiter)
        ensures
            r@.holder is None,
            r@.waiting.len() == 0,
            r.wf(),
    {
        Arbiter { holder: None, waiting: Vec::new() }
    }

    /// The worker that holds access, if any.
    pub fn holder(&self) -> (r: Option<usize>)
        ensures
            r == self@.holder,
    {
        self.holder
    }

    /// Whether the worker holds access.
    pub fn holds(&self, w: usize) -> (r: bool)
        ensures
            r == (self@.holder == Some(w)),
    {
        match self.holder {
            Some(h) => h == w,
            None => false,
        }
    }

    /// Where the worker stands in the queue, if it waits.
    pub fn position(&self, w: usize) -> (r: Option<usize>)
        ensures
            r matches Some(i) ==> i < self@.waiting.len() && self@.waiting[i as int] == w,
            r is None <==> !self@.waiting.contains(w),
    {
        let mut i: usize = 0;
        while i < self.waiting.len()
            invariant
                0 <= i <= self@.waiting.len(),
                forall|j: int| 0 <= j < i ==> self@.waiting[j] != w,
            decreases self@.waiting.len() - i,
        {
            if self.waiting[i] == w {
                return Some(i);
            }
            i += 1;
        }
        None
    }

    /// A worker asks for access; the result says whether it holds access now.
    pub fn request(&mut self, w: usize) -> (granted: bool)
        requires
            old(self).wf(),
        ensures
            final(self)@ == request_spec(old(self)@, w),
            granted == (final(self)@.holder == Some(w)),
            final(self).wf(),
    {
        if self.holds(w) {
            return true;
        }
        if self.position(w).is_some() {
            return false;
        }
        match self.holder {
            None => {
                self.holder = Some(w);
                true
            },
            Some(_) => {
                self.waiting.push(w);
                proof {
                    let v = old(self)@;
                    let s = self@.waiting;
                    assert forall|i: int, j: int| 0 <= i < j < s.len() implies s[i] != s[j] by {
                        if j == s.len() - 1 {
                            assert(v.waiting.contains(s[i]) || s[i] != w);
                        }
                    }
                    assert(!s.contains(self@.holder->0)) by {
                        if s.contains(self@.holder->0) {
                            let k = choose|k: int| 0 <= k < s.len() && s[k] == self@.holder->0;
                            if k < s.len() - 1 {
                                assert(v.waiting.contains(s[k]));
                            }
                        }
                    }
                }
                false
            },
        }
    }

    /// A worker gives up its claim, held or queued; the result is the worker
    /// that holds access afterwards.
    pub fn release(&mut self, w: usize) -> (next: Option<usize>)
        requires
            old(self).wf(),
        ensures
            final(self)@ == release_spec(old(self)@, w),
            next == final(self)@.holder,
            final(self).wf(),
    {
        let ghost v = old(self)@;
        if self.holds(w) {
            if self.waiting.len() == 0 {
                self.holder = None;
            } else {
                let first = self.waiting.remove(0);
                self.holder = Some(first);
                proof {
                    assert(self@.waiting =~= v.waiting.drop_first());
                    assert forall|i: int, j: int|
                        0 <= i < j < self@.waiting.len() implies self@.waiting[i]
                        != self@.waiting[j] by {
                        assert(self@.waiting[i] == v.waiting[i + 1]);
                        assert(self@.waiting[j] == v.waiting[j + 1]);
                    }
                    assert(!self@.waiting.contains(first)) by {
                        if self@.waiting.contains(first) {
                            let k = choose|k: int|
                                0 <= k < self@.waiting.len() && self@.waiting[k] == first;
                            assert(v.waiting[k + 1] == v.waiting[0]);
                        }
                    }
                }
            }
        } else {
            match self.position(w) {
                Some(i) => {
                    proof {
                        let c = queue_position(v, w);
                        assert(v.waiting.contains(w));
                        assert(0 <= c < v.waiting.len() && v.waiting[c] == w);
                        assert(c == i as int);
                    }
                    self.waiting.remove(i);
                    proof {
                        let s = self@.waiting;
                        assert forall|a: int, b: int| 0 <= a < b < s.len() implies s[a] != s[b] by {
                            let a2 = if a < i { a } else { a + 1 };
                            let b2 = if b < i { b } else { b + 1 };
                            assert(s[a] == v.waiting[a2]);
                            assert(s[b] == v.waiting[b2]);
                        }
                        if let Some(h) = self@.holder {
                            assert(!s.contains(h)) by {
                                if s.contains(h) {
                                    let k = choose|k: int| 0 <= k < s.len() && s[k] == h;
                                    let k2 = if k < i { k } else { k + 1 };
                                    assert(v.waiting[k2] == h);
                                }
                            }
                        }
                    }
                },
                None => {},
            }
        }
        self.holder
    }
}

} // verus!
