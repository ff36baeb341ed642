//! The effect algebra: a closed tree of pending asynchronous work.
use vstd::prelude::*;
use crate::task::FnTask;
use crate::task::MapTask;
use crate::task::Task;

verus! {

/// A tree of effects over leaf payloads of type `T`: either no effect, one
/// leaf, or an ordered batch of subtrees. Flattening yields the depth-first,
/// order-preserving sequence of leaves.
pub enum EffectTree<T> {
    Empty,
    Single(T),
    Batch(Vec<EffectTree<T>>),
}

/// The depth-first sequence of leaves of each tree of `s`, concatenated in
/// order.
pub open spec fn leaves_of<T>(s: Seq<EffectTree<T>>) -> Seq<T>
    decreases s,
{
    if s.len() == 0 {
        Seq::empty()
    } else {
        s[0].leaves() + leaves_of(s.drop_first())
    }
}

/// Whether `r` is, element for element, a possible image of `s` under `f`.
pub open spec fn pointwise<T, U, F: Fn(T) -> U>(f: F, s: Seq<T>, r: Seq<U>) -> bool {
    r.len() == s.len() && (forall|i: int|
        0 <= i < s.len() ==> call_ensures(f, (s[i],), #[trigger] r[i]))
}

/// Concatenating two pointwise images gives a pointwise image of the
/// concatenation.
proof fn lemma_pointwise_cat<T, U, F: Fn(T) -> U>(f: F, a: Seq<T>, b: Seq<U>, c: Seq<T>, d: Seq<U>)
    requires
        pointwise(f, a, b),
        pointwise(f, c, d),
    ensures
        pointwise(f, a + c, b + d),
{
    assert forall|i: int| 0 <= i < (a + c).len() implies call_ensures(
        f,
        ((a + c)[i],),
        #[trigger] (b + d)[i],
    ) by {
        if i < a.len() {
            assert((a + c)[i] == a[i] && (b + d)[i] == b[i]);
        } else {
            assert((a + c)[i] == c[i - a.len()] && (b + d)[i] == d[i - a.len()]);
        }
    }
}

/// If every tree of `w` is a pointwise image of the matching tree of `v`,
/// then the flattened leaves of `w` are a pointwise image of those of `v`.
proof fn lemma_pointwise_leaves_of<T, U, F: Fn(T) -> U>(
    f: F,
    v: Seq<EffectTree<T>>,
    w: Seq<EffectTree<U>>,
)
    requires
        v.len() == w.len(),
        forall|j: int|
            0 <= j < v.len() ==> pointwise(f, (#[trigger] v[j]).leaves(), w[j].leaves()),
    ensures
        pointwise(f, leaves_of(v), leaves_of(w)),
    decreases v,
{
    if v.len() == 0 {
        assert(leaves_of(v) =~= Seq::<T>::empty());
        assert(leaves_of(w) =~= Seq::<U>::empty());
    } else {
        lemma_pointwise_leaves_of(f, v.drop_first(), w.drop_first());
        lemma_pointwise_cat(
            f,
            v[0].leaves(),
            w[0].leaves(),
            leaves_of(v.drop_first()),
            leaves_of(w.drop_first()),
        );
    }
}

/// Whether two trees have exactly the same branching structure, leaf for leaf.
pub open spec fn same_shape<A, B>(x: EffectTree<A>, y: EffectTree<B>) -> bool
    decreases x,
{
    match (x, y) {
        (EffectTree::Empty, EffectTree::Empty) => true,
        (EffectTree::Single(_), EffectTree::Single(_)) => true,
        (EffectTree::Batch(v), EffectTree::Batch(w)) => v@.len() == w@.len() && (forall|i: int|
            0 <= i < v@.len() ==> same_shape(#[trigger] v@[i], w@[i])),
        _ => false,
    }
}

impl<T> EffectTree<T> {
    /// The depth-first, order-preserving sequence of this tree's leaves.
    pub open spec fn leaves(self) -> Seq<T>
        decreases self,
    {
        match self {
            EffectTree::Empty => Seq::empty(),
            EffectTree::Single(t) => seq![t],
            EffectTree::Batch(v) => leaves_of(v@),
        }
    }

    /// Consumes the tree and returns its leaves, depth first, in order: an
    /// empty node contributes nothing, a batch contributes its children's
    /// flattening, recursively.
    pub fn unpack(self) -> (r: Vec<T>)
        ensures
            r@ == self.leaves(),
    {
        let mut out: Vec<T> = Vec::new();
        self.unpack_into(&mut out);
        out
    }

    /// Appends this tree's leaves, depth first, to `out`.
    fn unpack_into(self, out: &mut Vec<T>)
        ensures
            final(out)@ == old(out)@ + self.leaves(),
        decreases self,
    {
        match self {
            EffectTree::Empty => {
                assert(out@ =~= old(out)@ + self.leaves());
            },
            EffectTree::Single(t) => {
                out.push(t);
                assert(out@ =~= old(out)@ + self.leaves());
            },
            EffectTree::Batch(v) => {
                Self::unpack_vec_into(v, out);
            },
        }
    }

    /// Produces a new tree of the same shape whose every leaf is the image
    /// under `f` of the leaf it replaces.
    pub fn map_leaves<U, F: Fn(T) -> U + Copy>(self, f: F) -> (r: EffectTree<U>)
        requires
            forall|t: T| call_requires(f, (t,)),
        ensures
            same_shape(self, r),
            pointwise(f, self.leaves(), r.leaves()),
        decreases self,
    {
        match self {
            EffectTree::Empty => EffectTree::Empty,
            EffectTree::Single(t) => EffectTree::Single(f(t)),
            EffectTree::Batch(v) => {
                let w = Self::map_leaves_vec(v, f);
                proof {
                    lemma_pointwise_leaves_of(f, v@, w@);
                }
                EffectTree::Batch(w)
            },
        }
    }

    /// Maps `f` over the leaves of every tree of `v`, keeping order and shape.
    fn map_leaves_vec<U, F: Fn(T) -> U + Copy>(v: Vec<EffectTree<T>>, f: F) -> (w: Vec<
        EffectTree<U>,
    >)
        requires
            forall|t: T| call_requires(f, (t,)),
        ensures
            w@.len() == v@.len(),
            forall|j: int|
                0 <= j < v@.len() ==> same_shape(#[trigger] v@[j], w@[j]) && pointwise(
                    f,
                    v@[j].leaves(),
                    w@[j].leaves(),
                ),
        decreases v@,
    {
        let mut rest = v;
        if rest.len() == 0 {
            Vec::new()
        } else {
            let ghost all = rest@;
            let first = rest.remove(0);
            assert(all[0] == first && rest@ == all.drop_first());
            let first_mapped = first.map_leaves(f);
            let mut w = Self::map_leaves_vec(rest, f);
            w.insert(0, first_mapped);
            assert(forall|j: int| 1 <= j < all.len() ==> all[j] == all.drop_first()[j - 1]);
            w
        }
    }

    /// Appends the leaves of every tree of `v`, in order, to `out`.
    fn unpack_vec_into(v: Vec<EffectTree<T>>, out: &mut Vec<T>)
        ensures
            final(out)@ == old(out)@ + leaves_of(v@),
        decreases v@,
    {
        let mut rest = v;
        if rest.len() == 0 {
            assert(out@ =~= old(out)@ + leaves_of(rest@));
        } else {
            let ghost all = rest@;
            let first = rest.remove(0);
            assert(all[0] == first && rest@ == all.drop_first());
            first.unpack_into(out);
            Self::unpack_vec_into(rest, out);
            assert(out@ =~= old(out)@ + leaves_of(all));
        }
    }
}

/// An effect over messages of type `M`: a tree whose leaves are boxed
/// [`Task`]s, each producing one `M` when executed.
pub type Cmd<M> = EffectTree<Box<dyn Task<M>>>;

impl<M: Send + 'static> EffectTree<Box<dyn Task<M>>> {
    /// Wraps a nullary message-producing function as a single-leaf effect.
    ///
    /// The function is not called here; it runs only when the leaf task is
    /// later executed.
    pub fn from<F: FnOnce() -> M + Send + 'static>(f: F) -> (r: Cmd<M>)
        requires
            call_requires(f, ()),
        ensures
            r matches EffectTree::Single(t) && (forall|m: M|
                (*t).post(m) <==> call_ensures(f, (), m)),
    {
        let ft = FnTask::new(f);
        let task: Box<dyn Task<M>> = Box::new(ft);
        proof {
            assert(forall|m: M| (*task).post(m) <==> call_ensures(f, (), m));
        }
        let r = EffectTree::Single(task);
        proof {
            assert(r matches EffectTree::Single(t) && (forall|m: M|
                (*t).post(m) <==> call_ensures(f, (), m)));
        }
        r
    }

    /// Composes `f` after every leaf task, keeping the tree's shape: the new
    /// tree has exactly one leaf in place of each old one, and each new leaf
    /// runs the old task, then applies `f` to its result - that per-leaf
    /// behaviour is the verified contract of the replacement task's `run`.
    pub fn map<M2, F>(self, f: F) -> (r: Cmd<M2>) where
        M2: Send + 'static,
        F: Fn(M) -> M2 + Copy + Send + 'static,

        requires
            forall|m: M| call_requires(f, (m,)),
        ensures
            same_shape(self, r),
            r.leaves().len() == self.leaves().len(),
    {
        let wrap = |t: Box<dyn Task<M>>| -> Box<dyn Task<M2>>
            {
                let mapped: Box<dyn Task<M2>> = Box::new(MapTask::new(t, f));
                mapped
            };
        self.map_leaves(wrap)
    }
}

} // verus!
