//! Laws of the stack, stated over the contents that the operations'
//! contracts speak of (`List::view`, top first): a push puts its element in
//! front, a pop hands out the first element and drops it, or hands out `None`
//! and changes nothing when there is none.
use vstd::prelude::*;

verus! {

/// The contents, top first, of a stack that held `s` once each element of
/// `xs` has been pushed onto it, in the order of `xs`.
pub open spec fn after_pushes<T>(s: Seq<T>, xs: Seq<T>) -> Seq<T>
    decreases xs.len(),
{
    if xs.len() == 0 {
        s
    } else {
        after_pushes(seq![xs[0]] + s, xs.drop_first())
    }
}

/// What `n` pops in a row hand out from a stack that holds `s`, top first:
/// its elements in turn, then `None` for each pop on the emptied stack.
pub open spec fn pop_results<T>(s: Seq<T>, n: nat) -> Seq<Option<T>>
    decreases n,
{
    if n == 0 {
        Seq::empty()
    } else if s.len() == 0 {
        seq![None] + pop_results(s, (n - 1) as nat)
    } else {
        seq![Some(s[0])] + pop_results(s.drop_first(), (n - 1) as nat)
    }
}

/// The contents of a stack that held `s` after `n` pops in a row.
pub open spec fn after_pops<T>(s: Seq<T>, n: nat) -> Seq<T>
    decreases n,
{
    if n == 0 || s.len() == 0 {
        s
    } else {
        after_pops(s.drop_first(), (n - 1) as nat)
    }
}

/// Pushing `xs` in turn onto a stack puts them on top of what was there, the
/// last pushed topmost.
proof fn lemma_after_pushes<T>(s: Seq<T>, xs: Seq<T>)
    ensures
        after_pushes(s, xs) == xs.reverse() + s,
    decreases xs.len(),
{
    if xs.len() == 0 {
        assert(xs.reverse() + s =~= s);
    } else {
        let rest = xs.drop_first();
        lemma_after_pushes(seq![xs[0]] + s, rest);
        assert(xs.reverse() =~= rest.reverse() + seq![xs[0]]);
        assert(rest.reverse() + (seq![xs[0]] + s) =~= xs.reverse() + s);
    }
}

/// Popping as many times as `p` is long, from a stack whose top part is `p`,
/// hands out `p` in order and leaves the part below.
proof fn lemma_pop_prefix<T>(p: Seq<T>, s: Seq<T>)
    ensures
        pop_results(p + s, p.len()) == p.map_values(|x: T| Some(x)),
        after_pops(p + s, p.len()) == s,
    decreases p.len(),
{
    if p.len() == 0 {
        assert(p + s =~= s);
        assert(p.map_values(|x: T| Some(x)) =~= Seq::<Option<T>>::empty());
    } else {
        let rest = p.drop_first();
        assert((p + s).drop_first() =~= rest + s);
        lemma_pop_prefix(rest, s);
        assert(p.map_values(|x: T| Some(x)) =~= seq![Some(p[0])] + rest.map_values(
            |x: T| Some(x),
        ));
    }
}

/// `n + 1` pops are the first `n` followed by one more on what they left.
proof fn lemma_pop_results_split<T>(s: Seq<T>, n: nat)
    ensures
        pop_results(s, n + 1) == pop_results(s, n) + pop_results(after_pops(s, n), 1),
    decreases n,
{
    if n == 0 {
        assert(pop_results(s, 0) + pop_results(s, 1) =~= pop_results(s, 1));
    } else if s.len() == 0 {
        lemma_pop_results_split(s, (n - 1) as nat);
        assert(pop_results(s, n + 1) =~= seq![None] + pop_results(s, n));
        assert(after_pops(s, (n - 1) as nat) == s) by {
            lemma_after_pops_empty(s, (n - 1) as nat);
        }
        assert(seq![None] + (pop_results(s, (n - 1) as nat) + pop_results(s, 1))
            =~= (seq![None] + pop_results(s, (n - 1) as nat)) + pop_results(s, 1));
    } else {
        let rest = s.drop_first();
        lemma_pop_results_split(rest, (n - 1) as nat);
        assert(seq![Some(s[0])] + (pop_results(rest, (n - 1) as nat) + pop_results(
            after_pops(rest, (n - 1) as nat),
            1,
        )) =~= (seq![Some(s[0])] + pop_results(rest, (n - 1) as nat)) + pop_results(
            after_pops(rest, (n - 1) as nat),
            1,
        ));
    }
}

/// Pops on an empty stack leave it empty.
proof fn lemma_after_pops_empty<T>(s: Seq<T>, n: nat)
    requires
        s.len() == 0,
    ensures
        after_pops(s, n) == s,
{
}

/// One step of the models above is one call of `List::push` or `List::pop`,
/// as their contracts state it.
pub proof fn lemma_single_steps<T>(s: Seq<T>, x: T)
    ensures
        after_pushes(s, seq![x]) == seq![x] + s,
        s.len() == 0 ==> pop_results(s, 1) == seq![None::<T>] && after_pops(s, 1) == s,
        s.len() > 0 ==> pop_results(s, 1) == seq![Some(s[0])] && after_pops(s, 1)
            == s.drop_first(),
{
    reveal_with_fuel(after_pushes, 2);
    reveal_with_fuel(pop_results, 2);
    reveal_with_fuel(after_pops, 2);
    assert(seq![x].drop_first() =~= Seq::<T>::empty());
    if s.len() == 0 {
        assert(pop_results(s, 1) =~= seq![None::<T>]);
    } else {
        assert(pop_results(s, 1) =~= seq![Some(s[0])]);
    }
}

/// Elements pushed onto a fresh stack with no pop in between come back, when
/// popping until the stack reports itself empty, in exactly the reverse order
/// of insertion; the pop after the last of them finds nothing.
pub proof fn lemma_pops_reverse_pushes<T>(xs: Seq<T>)
    ensures
        pop_results(after_pushes(Seq::empty(), xs), xs.len() + 1) == xs.reverse().map_values(
            |x: T| Some(x),
        ) + seq![None],
{
    let s = after_pushes(Seq::<T>::empty(), xs);
    lemma_after_pushes(Seq::<T>::empty(), xs);
    assert(s =~= xs.reverse() + Seq::<T>::empty());
    lemma_pop_prefix(xs.reverse(), Seq::<T>::empty());
    lemma_pop_results_split(s, xs.len());
    reveal_with_fuel(pop_results, 2);
    assert(pop_results(Seq::<T>::empty(), 1) =~= seq![None]);
}

/// The top of a stack is the element pushed last, whatever it held before.
pub proof fn lemma_top_is_last_pushed<T>(s: Seq<T>, xs: Seq<T>)
    requires
        xs.len() > 0,
    ensures
        after_pushes(s, xs)[0] == xs.last(),
        pop_results(after_pushes(s, xs), 1) == seq![Some(xs.last())],
{
    lemma_after_pushes(s, xs);
    lemma_pop_prefix(seq![xs.last()], xs.drop_last().reverse() + s);
    assert(xs.reverse() + s =~= seq![xs.last()] + (xs.drop_last().reverse() + s));
}

/// A value written over the top of a non-empty stack is what a following
/// peek sees and a following pop hands out, and that pop leaves what a pop of
/// the old top would have left.
pub proof fn lemma_written_top_is_read<T>(s: Seq<T>, v: T)
    requires
        s.len() > 0,
    ensures
        s.update(0, v)[0] == v,
        pop_results(s.update(0, v), 1) == seq![Some(v)],
        after_pops(s.update(0, v), 1) == after_pops(s, 1),
{
    assert(s.update(0, v).drop_first() =~= s.drop_first());
    reveal_with_fuel(pop_results, 2);
    assert(pop_results(s.update(0, v), 1) =~= seq![Some(v)]);
}

/// Whatever a stack holds, after earlier pushes and pops alike, pushing
/// `xs` and then popping as many times hands out `xs` in reverse order and
/// leaves the stack as it was.
pub proof fn lemma_push_pop_cycle<T>(s: Seq<T>, xs: Seq<T>)
    ensures
        pop_results(after_pushes(s, xs), xs.len()) == xs.reverse().map_values(|x: T| Some(x)),
        after_pops(after_pushes(s, xs), xs.len()) == s,
{
    lemma_after_pushes(s, xs);
    lemma_pop_prefix(xs.reverse(), s);
}

} // verus!
