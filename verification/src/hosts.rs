//! The shared address book.
//!
//! All connections' address-exchange instances store into and load from one
//! `Hosts` value. Its invariant: no two entries refer to the same address.
//! A store is "insert each new address if absent", never "replace".

use vstd::prelude::*;

use crate::addr::{addrs_view, Addr};

verus! {

/// What storing `incoming` into a deduplicated book holding `cur` yields:
/// each incoming address is appended, in order, unless already present.
pub open spec fn store_result(cur: Seq<(Seq<char>, u16)>, incoming: Seq<(Seq<char>, u16)>) -> Seq<
    (Seq<char>, u16),
>
    decreases incoming.len(),
{
    if incoming.len() == 0 {
        cur
    } else {
        let next = if cur.contains(incoming[0]) {
            cur
        } else {
            cur.push(incoming[0])
        };
        store_result(next, incoming.subrange(1, incoming.len() as int))
    }
}

/// Storing adds exactly the incoming addresses: afterwards the book holds
/// an address precisely when it held it before or the incoming list
/// carries it.
pub proof fn lemma_store_result_membership(
    cur: Seq<(Seq<char>, u16)>,
    incoming: Seq<(Seq<char>, u16)>,
)
    ensures
        forall|x: (Seq<char>, u16)| #![trigger store_result(cur, incoming).contains(x)]
            store_result(cur, incoming).contains(x) <==> cur.contains(x) || incoming.contains(x),
    decreases incoming.len(),
{
    if incoming.len() == 0 {
        assert forall|x: (Seq<char>, u16)|
            store_result(cur, incoming).contains(x) <==> cur.contains(x) || incoming.contains(
                x,
            ) by {
            assert(store_result(cur, incoming) == cur);
            if incoming.contains(x) {
                let k = choose|k: int| 0 <= k < incoming.len() && incoming[k] == x;
            }
        }
    } else {
        let head = incoming[0];
        let next = if cur.contains(head) {
            cur
        } else {
            cur.push(head)
        };
        let rest = incoming.subrange(1, incoming.len() as int);
        lemma_store_result_membership(next, rest);
        assert forall|x: (Seq<char>, u16)|
            store_result(cur, incoming).contains(x) <==> cur.contains(x) || incoming.contains(
                x,
            ) by {
            assert(store_result(cur, incoming) == store_result(next, rest));
            assert(store_result(next, rest).contains(x) <==> next.contains(x) || rest.contains(x));
            assert(next.contains(x) <==> cur.contains(x) || x == head) by {
                if cur.contains(x) {
                    let k = choose|k: int| 0 <= k < cur.len() && cur[k] == x;
                    assert(next[k] == x);
                }
                if x == head {
                    if !cur.contains(head) {
                        assert(next[cur.len() as int] == x);
                    }
                }
                if next.contains(x) {
                    let k = choose|k: int| 0 <= k < next.len() && next[k] == x;
                    if k < cur.len() {
                        assert(cur[k] == x);
                    } else {
                        assert(x == head);
                    }
                }
            }
            assert(incoming.contains(x) <==> x == head || rest.contains(x)) by {
                if incoming.contains(x) {
                    let k = choose|k: int| 0 <= k < incoming.len() && incoming[k] == x;
                    if k > 0 {
                        assert(rest[k - 1] == x);
                    }
                }
                if rest.contains(x) {
                    let k = choose|k: int| 0 <= k < rest.len() && rest[k] == x;
                    assert(incoming[k + 1] == x);
                }
                if x == head {
                    assert(incoming[0] == x);
                }
            }
        }
    }
}

/// The deduplicated, unordered address book shared by all protocol handlers.
#[derive(Debug)]
pub struct Hosts {
    addrs: Vec<Addr>,
}

impl View for Hosts {
    type V = Seq<(Seq<char>, u16)>;

    closed spec fn view(&self) -> Seq<(Seq<char>, u16)> {
        addrs_view(self.addrs@)
    }
}

impl Hosts {
    /// No two entries refer to the same address.
    pub open spec fn wf(&self) -> bool {
        forall|i: int, j: int| 0 <= i < j < self@.len() ==> self@[i] != self@[j]
    }

    pub fn new() -> (r: Hosts)
        ensures
            r@ == Seq::<(Seq<char>, u16)>::empty(),
            r.wf(),
    {
        let h = Hosts { addrs: Vec::new() };
        proof {
            assert(h@ =~= Seq::<(Seq<char>, u16)>::empty());
        }
        h
    }

    /// Whether `a` is already in the book.
    pub fn contains(&self, a: &Addr) -> (r: bool)
        ensures
            r == self@.contains(a@),
    {
        let mut i: usize = 0;
        while i < self.addrs.len()
            invariant
                i <= self.addrs.len(),
                forall|k: int| 0 <= k < i ==> self@[k] != a@,
            decreases self.addrs.len() - i,
        {
            if self.addrs[i] == *a {
                assert(self@[i as int] == a@);
                return true;
            }
            i = i + 1;
        }
        false
    }

    /// Inserts each address of `incoming` that is not already present,
    /// in order; present ones are left where they are.
    pub fn store(&mut self, incoming: Vec<Addr>)
        requires
            old(self).wf(),
        ensures
            final(self)@ == store_result(old(self)@, addrs_view(incoming@)),
            final(self).wf(),
            forall|x: (Seq<char>, u16)|
                final(self)@.contains(x) <==> old(self)@.contains(x) || addrs_view(
                    incoming@,
                ).contains(x),
            final(self)@.take(old(self)@.len() as int) == old(self)@,
    {
        let ghost orig = self@;
        let ghost inc = addrs_view(incoming@);
        proof {
            assert(inc.subrange(0, inc.len() as int) =~= inc);
        }
        let mut i: usize = 0;
        while i < incoming.len()
            invariant
                i <= incoming.len(),
                inc == addrs_view(incoming@),
                store_result(orig, inc) == store_result(
                    self@,
                    inc.subrange(i as int, inc.len() as int),
                ),
                self.wf(),
                forall|x: (Seq<char>, u16)| #![trigger self@.contains(x)]
                    self@.contains(x) <==> orig.contains(x) || inc.subrange(0, i as int).contains(
                        x,
                    ),
                self@.take(orig.len() as int) == orig,
                self@.len() >= orig.len(),
            decreases incoming.len() - i,
        {
            let ghost pre = self@;
            let a = &incoming[i];
            let ghost av = a@;
            proof {
                assert(inc[i as int] == av);
                assert(forall|x: (Seq<char>, u16)| #![trigger pre.contains(x)]
                    pre.contains(x) <==> orig.contains(x) || inc.subrange(0, i as int).contains(
                        x,
                    ));
            }
            let present = self.contains(a);
            if !present {
                self.addrs.push(a.duplicate());
                proof {
                    assert(self@ =~= pre.push(av));
                }
            }
            proof {
                // One unfolding of store_result over the element handled now.
                let rest_pre = inc.subrange(i as int, inc.len() as int);
                let rest_post = inc.subrange(i + 1, inc.len() as int);
                assert(rest_pre[0] == av);
                assert(rest_pre.len() > 0);
                assert(rest_pre.subrange(1, rest_pre.len() as int) =~= rest_post);
                if present {
                    assert(self@ == pre);
                    assert(pre.contains(av));
                    assert(store_result(pre, rest_pre) == store_result(pre, rest_post));
                } else {
                    assert(!pre.contains(av));
                    assert(self@ == pre.push(av));
                    assert(store_result(pre, rest_pre) == store_result(pre.push(av), rest_post));
                }
                // Membership after this step.
                assert forall|x: (Seq<char>, u16)| #![trigger self@.contains(x)]
                    self@.contains(x) <==> pre.contains(x) || x == av by {
                    if present {
                        if x == av {
                            assert(pre.contains(x));
                        }
                    } else {
                        if pre.contains(x) {
                            let k = choose|k: int| 0 <= k < pre.len() && pre[k] == x;
                            assert(self@[k] == x);
                        }
                        if x == av {
                            assert(self@[pre.len() as int] == x);
                        }
                        if self@.contains(x) {
                            let k = choose|k: int| 0 <= k < self@.len() && self@[k] == x;
                            if k < pre.len() {
                                assert(pre[k] == x);
                            } else {
                                assert(x == av);
                            }
                        }
                    }
                }
                assert forall|x: (Seq<char>, u16)| #![trigger inc.subrange(0, i + 1).contains(x)]
                    inc.subrange(0, i + 1).contains(x) <==> inc.subrange(0, i as int).contains(x)
                        || x == av by {
                    let subi = inc.subrange(0, i as int);
                    let subi1 = inc.subrange(0, i + 1);
                    if subi.contains(x) {
                        let k = choose|k: int| 0 <= k < subi.len() && subi[k] == x;
                        assert(subi1[k] == x);
                    }
                    if x == av {
                        assert(subi1[i as int] == x);
                    }
                    if subi1.contains(x) {
                        let k = choose|k: int| 0 <= k < subi1.len() && subi1[k] == x;
                        if k < i {
                            assert(subi[k] == x);
                        } else {
                            assert(x == av);
                        }
                    }
                }
                assert forall|x: (Seq<char>, u16)| #![trigger self@.contains(x)]
                    self@.contains(x) <==> orig.contains(x) || inc.subrange(0, i + 1).contains(
                        x,
                    ) by {
                    assert(self@.contains(x) <==> pre.contains(x) || x == av);
                    assert(pre.contains(x) <==> orig.contains(x) || inc.subrange(
                        0,
                        i as int,
                    ).contains(x));
                    assert(inc.subrange(0, i + 1).contains(x) <==> inc.subrange(
                        0,
                        i as int,
                    ).contains(x) || x == av);
                }
                // The stored prefix is untouched.
                if !present {
                    assert(self@.take(orig.len() as int) =~= pre.take(orig.len() as int));
                }
            }
            i = i + 1;
        }
        proof {
            assert(inc.subrange(i as int, inc.len() as int) =~= Seq::<(Seq<char>, u16)>::empty());
            assert(inc.subrange(0, i as int) =~= inc);
        }
    }

    /// Loads the whole current contents, in storage order.
    pub fn load_all(&self) -> (r: Vec<Addr>)
        ensures
            addrs_view(r@) == self@,
    {
        let mut out: Vec<Addr> = Vec::new();
        let mut i: usize = 0;
        while i < self.addrs.len()
            invariant
                i <= self.addrs.len(),
                out@.len() == i,
                forall|k: int| 0 <= k < i ==> out@[k]@ == self@[k],
            decreases self.addrs.len() - i,
        {
            out.push(self.addrs[i].duplicate());
            i = i + 1;
        }
        proof {
            assert(addrs_view(out@) =~= self@);
        }
        out
    }

    /// How many addresses the book holds.
    pub fn len(&self) -> (r: usize)
        ensures
            r == self@.len(),
    {
        self.addrs.len()
    }
}

} // verus!
