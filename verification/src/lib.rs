//! A pinned self-referential value, made safe by construction.
//!
//! [`SelfRefer`] owns a payload together with an optional back-reference to
//! the payload's own storage. The back-reference is an index into a fixed
//! backing allocation rather than a raw address, so it survives moves of the
//! container and a read through it can never touch storage the container
//! does not own. The lifecycle is a two-phase protocol: construction leaves
//! the container unreferenced, an explicit step establishes the
//! self-reference, and in-place mutation thereafter never disturbs it.

use vstd::prelude::*;

verus! {

/// A container that owns a `usize` payload and, once established, a
/// back-reference into its own backing storage.
///
/// The payload lives in the only slot of a fixed backing allocation, and the
/// self-reference is that slot's index. A freshly created container has no
/// self-reference; reads through the reference yield nothing until
/// [`SelfRefer::refer_self`] has been called.
#[derive(Debug)]
pub struct SelfRefer {
    /// The fixed backing allocation; the payload lives in its only slot.
    slot: Vec<usize>,
    /// The self-reference: the payload's index within `slot`, once
    /// established.
    ptr: Option<usize>,
}

/// Holds of a container fresh out of [`SelfRefer::new`]: it carries payload
/// `v` and no self-reference.
pub open spec fn is_fresh(c: SelfRefer, v: usize) -> bool {
    c.value() == v && !c.is_referenced()
}

/// Relates a container to its state after the self-reference was
/// established: the payload is unchanged and the reference is present.
pub open spec fn establishes(pre: SelfRefer, post: SelfRefer) -> bool {
    post.value() == pre.value() && post.is_referenced()
}

/// Relates a container to its state after an in-place overwrite of the
/// payload with `v`: the self-reference is untouched.
pub open spec fn overwrites(pre: SelfRefer, post: SelfRefer, v: usize) -> bool {
    post.value() == v && post.is_referenced() == pre.is_referenced()
}

impl SelfRefer {
    /// The backing allocation holds exactly one slot, and the
    /// self-reference, if present, addresses that slot: it is never out of
    /// bounds and never stale.
    #[verifier::type_invariant]
    spec fn inv(self) -> bool {
        self.slot@.len() == 1 && (self.ptr matches Some(i) ==> i == 0)
    }

    /// The owned payload.
    pub closed spec fn value(self) -> usize {
        self.slot@[0]
    }

    /// Whether the self-reference has been established.
    pub closed spec fn is_referenced(self) -> bool {
        self.ptr is Some
    }

    /// What a read through the self-reference yields: the current payload
    /// once the reference is established, nothing before that.
    pub open spec fn spec_referred(self) -> Option<usize> {
        if self.is_referenced() {
            Some(self.value())
        } else {
            None
        }
    }

    /// Returns a new container holding `v`, without a self-reference yet.
    pub fn new(v: usize) -> (r: Self)
        ensures
            is_fresh(r, v),
    {
        let mut slot: Vec<usize> = Vec::new();
        slot.push(v);
        Self { slot, ptr: None }
    }

    /// Establishes the self-reference: from now on it addresses the
    /// payload's slot. Idempotent: the payload cannot have moved within its
    /// backing allocation, so calling this again re-derives the same index.
    pub fn refer_self(&mut self)
        ensures
            establishes(*old(self), *final(self)),
    {
        proof {
            use_type_invariant(&*self);
        }
        self.ptr = Some(0);
    }

    /// Reads the payload through the self-reference: `None` if the
    /// reference was never established, otherwise the current payload.
    pub fn referred(&self) -> (r: Option<usize>)
        ensures
            r == self.spec_referred(),
    {
        proof {
            use_type_invariant(&*self);
        }
        match self.ptr {
            Some(i) => Some(self.slot[i]),
            None => None,
        }
    }

    /// Overwrites the payload in place. The self-reference is untouched:
    /// absent it stays absent, established it stays established.
    pub fn set(&mut self, v: usize)
        ensures
            overwrites(*old(self), *final(self), v),
    {
        proof {
            use_type_invariant(&*self);
        }
        self.slot[0] = v;
    }

    /// Overwrites the payload in place on a container whose self-reference
    /// is live. An established reference restricts relocation, not
    /// mutation: writing into a fixed slot never moves it, so the reference
    /// stays valid and a later read sees the new payload.
    pub fn pinned_set(&mut self, v: usize)
        ensures
            overwrites(*old(self), *final(self), v),
    {
        proof {
            use_type_invariant(&*self);
        }
        self.slot[0] = v;
    }
}

/// Along a chain of in-place overwrites, the presence of the self-reference
/// never changes; in particular it stays absent if it started absent.
proof fn lemma_unreferenced_along_chain(states: Seq<SelfRefer>, vals: Seq<usize>, j: int)
    requires
        states.len() == vals.len() + 1,
        0 <= j < states.len(),
        !states[0].is_referenced(),
        forall|k: int| 0 <= k < vals.len() ==> #[trigger] overwrites(states[k], states[k + 1], vals[k]),
    ensures
        !states[j].is_referenced(),
    decreases j,
{
    if j > 0 {
        lemma_unreferenced_along_chain(states, vals, j - 1);
        assert(overwrites(states[j - 1], states[(j - 1) + 1], vals[j - 1]));
    }
}

/// No premature reference: a freshly created container reads back nothing
/// through its self-reference, however many times its payload has been
/// overwritten in place.
///
/// `states` is the chain of containers observed along the way and `vals`
/// the payloads written: `states[0]` is fresh with payload `v0`, and the
/// `j`-th overwrite steps `states[j]` to `states[j + 1]`.
pub proof fn lemma_no_premature_reference(v0: usize, states: Seq<SelfRefer>, vals: Seq<usize>)
    requires
        states.len() == vals.len() + 1,
        is_fresh(states[0], v0),
        forall|k: int| 0 <= k < vals.len() ==> #[trigger] overwrites(states[k], states[k + 1], vals[k]),
    ensures
        states[states.len() - 1].spec_referred() is None,
{
    lemma_unreferenced_along_chain(states, vals, states.len() - 1);
}

/// Relocation before pinning is safe: moving a fresh container to a new
/// home hands that home the very same value, so establishing the
/// self-reference on the relocated container still reads back the payload
/// it was created with.
pub proof fn lemma_relocation_before_pin(v: usize, created: SelfRefer, moved: SelfRefer, pinned: SelfRefer)
    requires
        is_fresh(created, v),
        moved == created,
        establishes(moved, pinned),
    ensures
        pinned.spec_referred() == Some(v),
{
}

/// Post-pin correctness: once the self-reference has been established on a
/// container holding payload `v`, a read through it yields `Some(v)`.
pub proof fn lemma_post_pin_correctness(pre: SelfRefer, post: SelfRefer, v: usize)
    requires
        pre.value() == v,
        establishes(pre, post),
    ensures
        post.spec_referred() == Some(v),
{
}

/// Mutation after pinning is consistent: establishing the self-reference
/// over payload `v1` and then overwriting in place with `v2` makes a read
/// yield `Some(v2)` — never the stale `Some(v1)`.
pub proof fn lemma_mutation_after_pin(
    pre: SelfRefer,
    established: SelfRefer,
    written: SelfRefer,
    v1: usize,
    v2: usize,
)
    requires
        pre.value() == v1,
        establishes(pre, established),
        overwrites(established, written, v2),
    ensures
        written.spec_referred() == Some(v2),
        v2 != v1 ==> written.spec_referred() != Some(v1),
{
}

/// Idempotent establishment: establishing the self-reference a second time,
/// with no relocation in between, leaves reads exactly as after the first.
pub proof fn lemma_idempotent_establishment(s0: SelfRefer, once: SelfRefer, twice: SelfRefer)
    requires
        establishes(s0, once),
        establishes(once, twice),
    ensures
        twice.spec_referred() == once.spec_referred(),
{
}

} // verus!
