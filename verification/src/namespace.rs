//! Nested scopes of namespace prefix bindings.
//!
//! Each scope maps prefixes to namespace URIs; the empty prefix stands for
//! the default namespace. One scope is pushed per element start and one
//! popped per element end, so the stack depth always equals the number of
//! currently open elements. Lookup scans innermost to outermost, so inner
//! bindings shadow outer ones; within one scope a later binding shadows an
//! earlier one for the same prefix.

use vstd::prelude::*;

verus! {

/// The mathematical content of one binding: prefix and URI.
pub open spec fn binding_view(b: (String, String)) -> (Seq<char>, Seq<char>) {
    (b.0@, b.1@)
}

/// The mathematical content of one scope.
pub open spec fn scope_view(s: Seq<(String, String)>) -> Seq<(Seq<char>, Seq<char>)> {
    s.map_values(|b: (String, String)| binding_view(b))
}

/// The mathematical content of a sequence of borrowed bindings, as they
/// arrive with a start-element event.
pub open spec fn bindings_view(bs: Seq<(&str, &str)>) -> Seq<(Seq<char>, Seq<char>)> {
    bs.map_values(|b: (&str, &str)| (b.0@, b.1@))
}

/// Innermost-first lookup within one scope: the binding added last wins.
pub open spec fn resolve_in_scope(scope: Seq<(Seq<char>, Seq<char>)>, prefix: Seq<char>) -> Option<
    Seq<char>,
>
    decreases scope.len(),
{
    if scope.len() == 0 {
        None
    } else if scope.last().0 == prefix {
        Some(scope.last().1)
    } else {
        resolve_in_scope(scope.drop_last(), prefix)
    }
}

/// Innermost-first lookup across all scopes: inner scopes shadow outer ones.
pub open spec fn resolve_spec(
    scopes: Seq<Seq<(Seq<char>, Seq<char>)>>,
    prefix: Seq<char>,
) -> Option<Seq<char>>
    decreases scopes.len(),
{
    if scopes.len() == 0 {
        None
    } else {
        match resolve_in_scope(scopes.last(), prefix) {
            Some(uri) => Some(uri),
            None => resolve_spec(scopes.drop_last(), prefix),
        }
    }
}

/// A stack of namespace scopes, one per currently open element.
pub struct NamespaceStack {
    scopes: Vec<Vec<(String, String)>>,
}

impl View for NamespaceStack {
    type V = Seq<Seq<(Seq<char>, Seq<char>)>>;

    closed spec fn view(&self) -> Seq<Seq<(Seq<char>, Seq<char>)>> {
        self.scopes@.map_values(|sc: Vec<(String, String)>| scope_view(sc@))
    }
}

impl NamespaceStack {
    /// Creates an empty stack: no scopes, depth zero.
    pub fn new() -> (r: NamespaceStack)
        ensures
            r@ == Seq::<Seq<(Seq<char>, Seq<char>)>>::empty(),
    {
        let r = NamespaceStack { scopes: Vec::new() };
        proof {
            assert(r@ =~= Seq::<Seq<(Seq<char>, Seq<char>)>>::empty());
        }
        r
    }

    /// The number of open scopes.
    pub fn depth(&self) -> (r: usize)
        ensures
            r == self@.len(),
    {
        self.scopes.len()
    }

    /// Begins a new, empty scope for the element about to open. The new top
    /// scope is guaranteed to exist, so callers need no existence checks
    /// before binding into it.
    pub fn push_scope(&mut self)
        ensures
            final(self)@ == old(self)@.push(Seq::<(Seq<char>, Seq<char>)>::empty()),
    {
        self.scopes.push(Vec::new());
        proof {
            assert(final(self)@ =~~= old(self)@.push(Seq::<(Seq<char>, Seq<char>)>::empty()));
        }
    }

    /// Removes the top scope on element close. On an empty stack this is a
    /// safe no-op, never an error: popping past empty cannot underflow.
    pub fn pop_scope(&mut self)
        ensures
            old(self)@.len() > 0 ==> final(self)@ == old(self)@.drop_last(),
            old(self)@.len() == 0 ==> final(self)@ == old(self)@,
    {
        if self.scopes.len() > 0 {
            let _discarded = self.scopes.pop();
            proof {
                assert(final(self)@ =~~= old(self)@.drop_last());
            }
        }
    }

    /// Inserts one binding into the top scope, shadowing any binding of the
    /// same prefix in outer scopes (and any earlier one in this scope) for
    /// the subtree of the element being opened.
    pub fn bind(&mut self, prefix: &str, uri: &str)
        requires
            old(self)@.len() > 0,
        ensures
            final(self)@ == old(self)@.update(
                old(self)@.len() - 1,
                old(self)@.last().push((prefix@, uri@)),
            ),
    {
        let top_opt = self.scopes.pop();
        let mut top = top_opt.unwrap();
        top.push((String::from_str(prefix), String::from_str(uri)));
        self.scopes.push(top);
        proof {
            assert(final(self)@ =~~= old(self)@.update(
                old(self)@.len() - 1,
                old(self)@.last().push((prefix@, uri@)),
            ));
        }
    }

    /// Inserts a whole batch of bindings into the top scope, in order.
    pub fn extend(&mut self, bindings: &Vec<(&str, &str)>)
        requires
            old(self)@.len() > 0,
        ensures
            final(self)@ == old(self)@.update(
                old(self)@.len() - 1,
                old(self)@.last() + bindings_view(bindings@),
            ),
    {
        let ghost orig: Seq<Seq<(Seq<char>, Seq<char>)>> = self@;
        let n: usize = bindings.len();
        let mut j: usize = 0;
        while j < n
            invariant
                n == bindings@.len(),
                j <= n,
                orig.len() > 0,
                orig == old(self)@,
                self@ == orig.update(
                    orig.len() - 1,
                    orig.last() + bindings_view(bindings@.take(j as int)),
                ),
            decreases n - j,
        {
            let b = bindings[j];
            self.bind(b.0, b.1);
            proof {
                assert(bindings_view(bindings@.take(j + 1)) =~= bindings_view(
                    bindings@.take(j as int),
                ).push((b.0@, b.1@)));
                assert(self@ =~~= orig.update(
                    orig.len() - 1,
                    orig.last() + bindings_view(bindings@.take(j + 1)),
                ));
            }
            j = j + 1;
        }
        proof {
            assert(bindings@.take(n as int) =~= bindings@);
        }
    }

    /// Looks a prefix up, innermost scope first.
    pub fn resolve(&self, prefix: &str) -> (r: Option<String>)
        ensures
            match r {
                Some(uri) => resolve_spec(self@, prefix@) == Some(uri@),
                None => resolve_spec(self@, prefix@) is None,
            },
    {
        let p = String::from_str(prefix);
        let mut si: usize = self.scopes.len();
        proof {
            assert(self@.take(si as int) =~= self@);
        }
        while si > 0
            invariant
                si <= self.scopes@.len(),
                p@ == prefix@,
                resolve_spec(self@.take(si as int), prefix@) == resolve_spec(self@, prefix@),
            decreases si,
        {
            si = si - 1;
            proof {
                assert(self@.take(si + 1).drop_last() =~= self@.take(si as int));
                assert(self@.take(si + 1).last() == self@[si as int]);
            }
            let scope = &self.scopes[si];
            let mut bi: usize = scope.len();
            proof {
                assert(scope_view(scope@) == self@[si as int]);
                assert(self@[si as int].take(bi as int) =~= self@[si as int]);
            }
            while bi > 0
                invariant
                    si < self.scopes@.len(),
                    bi <= scope@.len(),
                    p@ == prefix@,
                    scope_view(scope@) == self@[si as int],
                    resolve_in_scope(self@[si as int].take(bi as int), prefix@)
                        == resolve_in_scope(self@[si as int], prefix@),
                    resolve_spec(self@.take(si + 1), prefix@) == resolve_spec(self@, prefix@),
                decreases bi,
            {
                bi = bi - 1;
                proof {
                    assert(self@[si as int].take(bi + 1).drop_last() =~= self@[si as int].take(
                        bi as int,
                    ));
                    assert(self@[si as int].take(bi + 1).last() == self@[si as int][bi as int]);
                    assert(self@[si as int][bi as int] == binding_view(scope@[bi as int]));
                }
                let b = &scope[bi];
                if b.0 == p {
                    proof {
                        assert(resolve_in_scope(self@[si as int].take(bi + 1), prefix@) == Some(
                            b.1@,
                        ));
                        assert(self@.take(si + 1).last() == self@[si as int]);
                        assert(resolve_spec(self@.take(si + 1), prefix@) == Some(b.1@));
                    }
                    return Some(b.1.clone());
                }
            }
            proof {
                assert(self@[si as int].take(0) =~= Seq::<(Seq<char>, Seq<char>)>::empty());
                assert(resolve_in_scope(self@[si as int], prefix@) is None);
            }
        }
        proof {
            assert(self@.take(0) =~= Seq::<Seq<(Seq<char>, Seq<char>)>>::empty());
        }
        None
    }
}

/// The stack contents after a sequence of structural operations, starting
/// from `start`: `true` stands for one `push_scope`, `false` for one
/// `pop_scope`, each acting exactly as those operations' contracts state
/// (a pop on an empty stack is a no-op).
pub open spec fn run_ops(
    start: Seq<Seq<(Seq<char>, Seq<char>)>>,
    ops: Seq<bool>,
) -> Seq<Seq<(Seq<char>, Seq<char>)>>
    decreases ops.len(),
{
    if ops.len() == 0 {
        start
    } else {
        let t = run_ops(start, ops.drop_last());
        if ops.last() {
            t.push(Seq::empty())
        } else if t.len() > 0 {
            t.drop_last()
        } else {
            t
        }
    }
}

/// How many opens a sequence of operations contains.
pub open spec fn opens_in(ops: Seq<bool>) -> nat
    decreases ops.len(),
{
    if ops.len() == 0 {
        0
    } else {
        opens_in(ops.drop_last()) + if ops.last() {
            1nat
        } else {
            0nat
        }
    }
}

/// How many closes a sequence of operations contains.
pub open spec fn closes_in(ops: Seq<bool>) -> nat
    decreases ops.len(),
{
    if ops.len() == 0 {
        0
    } else {
        closes_in(ops.drop_last()) + if ops.last() {
            0nat
        } else {
            1nat
        }
    }
}

/// A sequence of operations is well-nested when no prefix of it closes more
/// elements than it has opened, as with the events of any matched
/// start-element/end-element sequence.
pub open spec fn well_nested(ops: Seq<bool>) -> bool {
    forall|i: int| 0 <= i <= ops.len() ==> closes_in(#[trigger] ops.take(i)) <= opens_in(ops.take(i))
}

/// For any well-nested sequence of operations run on an initially empty
/// stack, the depth equals opens minus closes; in particular it returns to
/// zero exactly when every open has a matching close. Pops past empty never
/// underflow: the saturating branch of `run_ops` is never taken here.
pub proof fn lemma_matched_ops_restore_depth(ops: Seq<bool>)
    requires
        well_nested(ops),
    ensures
        run_ops(Seq::empty(), ops).len() == opens_in(ops) - closes_in(ops),
        run_ops(Seq::empty(), ops).len() == 0 <==> opens_in(ops) == closes_in(ops),
    decreases ops.len(),
{
    let start = Seq::<Seq<(Seq<char>, Seq<char>)>>::empty();
    if ops.len() == 0 {
    } else {
        let pre = ops.drop_last();
        assert forall|i: int| 0 <= i <= pre.len() implies closes_in(#[trigger] pre.take(i))
            <= opens_in(pre.take(i)) by {
            assert(pre.take(i) =~= ops.take(i));
            assert(closes_in(ops.take(i)) <= opens_in(ops.take(i)));
        }
        lemma_matched_ops_restore_depth(pre);
        assert(ops.take(ops.len() as int) =~= ops);
        assert(closes_in(ops) <= opens_in(ops));
        assert(pre.take(pre.len() as int) =~= pre);
        assert(closes_in(pre) <= opens_in(pre));
    }
}

} // verus!
