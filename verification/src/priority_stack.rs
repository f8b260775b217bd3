//! The priority stack: which of several concurrently publishing
//! applications is "the" current media source. The most recently active
//! application stands at the front; pushing an identifier that is already
//! present moves it to the front instead of duplicating it, so no
//! identifier ever occurs twice.

use std::collections::VecDeque;

use vstd::prelude::*;

verus! {

/// Whether no identifier occurs twice in `s`.
pub open spec fn distinct_ids(s: Seq<Seq<char>>) -> bool {
    forall|i: int, j: int| 0 <= i < j < s.len() ==> s[i] != s[j]
}

/// `s` with its first occurrence of `x` removed, or `s` unchanged when `x`
/// does not occur.
pub open spec fn remove_first(s: Seq<Seq<char>>, x: Seq<char>) -> Seq<Seq<char>>
    decreases s.len(),
{
    if s.len() == 0 {
        s
    } else if s[0] == x {
        s.drop_first()
    } else {
        seq![s[0]] + remove_first(s.drop_first(), x)
    }
}

/// Most-recently-active-first ordering of application identifiers; the
/// front entry is the current source.
#[derive(Debug)]
pub struct PriorityStack {
    stack: VecDeque<String>,
}

impl View for PriorityStack {
    type V = Seq<Seq<char>>;

    closed spec fn view(&self) -> Seq<Seq<char>> {
        self.stack@.map_values(|s: String| s@)
    }
}

impl PriorityStack {
    /// Invariant: no application identifier occurs twice.
    pub open spec fn wf(&self) -> bool {
        distinct_ids(self@)
    }

    /// An empty stack: no application has become active yet.
    pub fn new() -> (stack: Self)
        ensures
            stack@ == Seq::<Seq<char>>::empty(),
            stack.wf(),
    {
        let stack = PriorityStack { stack: VecDeque::new() };
        proof {
            assert(stack@ =~= Seq::<Seq<char>>::empty());
        }
        stack
    }

    /// Marks `app` as the most recently active source: any existing
    /// occurrence is removed, then `app` is inserted at the front.
    pub fn push(&mut self, app: String)
        ensures
            final(self)@ == seq![app@] + remove_first(old(self)@, app@),
            old(self).wf() ==> final(self).wf(),
    {
        let ghost old_ids = self@;
        let n = self.stack.len();
        let mut i: usize = 0;
        let mut pos: Option<usize> = None;
        while i < n
            invariant
                self.stack@ == old(self).stack@,
                n == self.stack@.len(),
                i <= n,
                match pos {
                    None => forall|k: int| 0 <= k < i ==> self.stack@[k]@ != app@,
                    Some(p) => p < i && self.stack@[p as int]@ == app@ && (forall|k: int|
                        0 <= k < p ==> self.stack@[k]@ != app@),
                },
            decreases n - i,
        {
            if pos.is_none() {
                if self.stack[i] == app {
                    pos = Some(i);
                }
            }
            i += 1;
        }
        match pos {
            Some(p) => {
                proof {
                    assert(old_ids[p as int] == self.stack@[p as int]@);
                    assert(forall|k: int| 0 <= k < p ==> old_ids[k] == self.stack@[k]@);
                    lemma_remove_first_at(old_ids, app@, p as int);
                }
                let removed = self.stack.remove(p);
                proof {
                    assert(self@ =~= old_ids.remove(p as int)) by {
                        assert forall|m: int| 0 <= m < self@.len() implies self@[m] == old_ids.remove(
                            p as int,
                        )[m] by {
                            assert(self@[m] == self.stack@[m]@);
                        }
                    }
                }
            },
            None => {
                proof {
                    lemma_remove_first_absent(old_ids, app@);
                }
            },
        }
        let ghost trimmed = self@;
        self.stack.push_front(app);
        proof {
            assert(self@ =~= seq![app@] + trimmed) by {
                assert forall|m: int| 0 <= m < self@.len() implies self@[m] == (seq![app@]
                    + trimmed)[m] by {
                    assert(self@[m] == self.stack@[m]@);
                    if m > 0 {
                        assert(trimmed[m - 1] == self.stack@[m]@);
                    }
                }
            }
            if distinct_ids(old_ids) {
                lemma_push_keeps_distinct(old_ids, app@);
            }
        }
    }

    /// The current source: the front entry, or `None` while the stack is
    /// empty.
    pub fn current(&self) -> (front: Option<&String>)
        ensures
            match front {
                None => self@.len() == 0,
                Some(app) => self@.len() > 0 && app@ == self@[0],
            },
    {
        if self.stack.len() == 0 {
            None
        } else {
            Some(&self.stack[0])
        }
    }

    /// How many applications are registered.
    pub fn len(&self) -> (n: usize)
        ensures
            n == self@.len(),
    {
        self.stack.len()
    }

    /// The identifier at `index`, front first, or `None` past the end.
    pub fn get(&self, index: usize) -> (entry: Option<&String>)
        ensures
            match entry {
                None => index >= self@.len(),
                Some(app) => index < self@.len() && app@ == self@[index as int],
            },
    {
        if index < self.stack.len() {
            Some(&self.stack[index])
        } else {
            None
        }
    }
}

/// When the first occurrence of `x` in `s` stands at `p`, removing the
/// first occurrence is removing index `p`.
proof fn lemma_remove_first_at(s: Seq<Seq<char>>, x: Seq<char>, p: int)
    requires
        0 <= p < s.len(),
        s[p] == x,
        forall|k: int| 0 <= k < p ==> s[k] != x,
    ensures
        remove_first(s, x) == s.remove(p),
    decreases p,
{
    if p == 0 {
        assert(remove_first(s, x) == s.drop_first());
        assert(s.remove(0) =~= s.drop_first());
    } else {
        let t = s.drop_first();
        assert(t[p - 1] == s[p]);
        assert(forall|k: int| 0 <= k < p - 1 ==> t[k] == s[k + 1] && t[k] != x);
        lemma_remove_first_at(t, x, p - 1);
        assert(seq![s[0]] + t.remove(p - 1) =~= s.remove(p));
    }
}

/// When `x` does not occur in `s`, removing its first occurrence changes
/// nothing.
proof fn lemma_remove_first_absent(s: Seq<Seq<char>>, x: Seq<char>)
    requires
        forall|k: int| 0 <= k < s.len() ==> s[k] != x,
    ensures
        remove_first(s, x) == s,
    decreases s.len(),
{
    if s.len() > 0 {
        let t = s.drop_first();
        assert(forall|k: int| 0 <= k < t.len() ==> t[k] == s[k + 1]);
        lemma_remove_first_absent(t, x);
        assert(seq![s[0]] + t =~= s);
    }
}

/// Removing the first occurrence keeps the remaining identifiers distinct,
/// leaves no occurrence of `x` behind, and introduces nothing new.
proof fn lemma_remove_first_props(s: Seq<Seq<char>>, x: Seq<char>)
    requires
        distinct_ids(s),
    ensures
        distinct_ids(remove_first(s, x)),
        forall|k: int|
            0 <= k < remove_first(s, x).len() ==> #[trigger] remove_first(s, x)[k] != x,
        forall|k: int|
            0 <= k < remove_first(s, x).len() ==> exists|m: int|
                0 <= m < s.len() && #[trigger] remove_first(s, x)[k] == s[m],
    decreases s.len(),
{
    let r = remove_first(s, x);
    if s.len() == 0 {
    } else {
        let t = s.drop_first();
        assert(forall|k: int| 0 <= k < t.len() ==> t[k] == s[k + 1]);
        assert(distinct_ids(t));
        if s[0] == x {
            assert(r == t);
            assert forall|k: int| 0 <= k < r.len() implies #[trigger] r[k] != x by {
                assert(r[k] == s[k + 1]);
                assert(s[k + 1] != s[0]);
            }
            assert forall|k: int| 0 <= k < r.len() implies exists|m: int|
                0 <= m < s.len() && #[trigger] r[k] == s[m] by {
                assert(r[k] == s[k + 1]);
            }
        } else {
            lemma_remove_first_props(t, x);
            let rt = remove_first(t, x);
            assert(r == seq![s[0]] + rt);
            assert forall|k: int| 0 <= k < r.len() implies #[trigger] r[k] != x by {
                if k == 0 {
                    assert(r[0] == s[0]);
                } else {
                    assert(r[k] == rt[k - 1]);
                }
            }
            assert forall|k: int| 0 <= k < r.len() implies exists|m: int|
                0 <= m < s.len() && #[trigger] r[k] == s[m] by {
                if k == 0 {
                    assert(r[0] == s[0]);
                } else {
                    assert(r[k] == rt[k - 1]);
                    let m0 = choose|m0: int| 0 <= m0 < t.len() && rt[k - 1] == t[m0];
                    assert(r[k] == s[m0 + 1]);
                }
            }
            assert forall|i: int, j: int| 0 <= i < j < r.len() implies r[i] != r[j] by {
                if i == 0 {
                    assert(r[j] == rt[j - 1]);
                    let m0 = choose|m0: int| 0 <= m0 < t.len() && rt[j - 1] == t[m0];
                    assert(t[m0] == s[m0 + 1]);
                    assert(s[0] != s[m0 + 1]);
                } else {
                    assert(r[i] == rt[i - 1]);
                    assert(r[j] == rt[j - 1]);
                }
            }
        }
    }
}

/// Law: pushing onto a stack of distinct identifiers leaves the
/// identifiers distinct — the pushed one now occurs exactly once, at the
/// front.
pub proof fn lemma_push_keeps_distinct(s: Seq<Seq<char>>, x: Seq<char>)
    requires
        distinct_ids(s),
    ensures
        distinct_ids(seq![x] + remove_first(s, x)),
        (seq![x] + remove_first(s, x))[0] == x,
        forall|k: int|
            1 <= k < (seq![x] + remove_first(s, x)).len() ==> (seq![x] + remove_first(s, x))[k]
                != x,
{
    lemma_remove_first_props(s, x);
    let r = remove_first(s, x);
    let pushed = seq![x] + r;
    assert forall|k: int| 1 <= k < pushed.len() implies pushed[k] != x by {
        assert(pushed[k] == r[k - 1]);
    }
    assert forall|i: int, j: int| 0 <= i < j < pushed.len() implies pushed[i] != pushed[j] by {
        if i == 0 {
            assert(pushed[j] == r[j - 1]);
        } else {
            assert(pushed[i] == r[i - 1]);
            assert(pushed[j] == r[j - 1]);
        }
    }
}

} // verus!
