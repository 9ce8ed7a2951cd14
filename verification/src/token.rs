//! The token type, the counter it draws identifiers from, and the laws
//! that creation and duplication obey.

use vstd::prelude::*;

verus! {

/// An opaque identity token.
///
/// Two tokens compare equal exactly when they carry the same raw
/// identifier ([`lemma_eq_is_identity_eq`]), and the only way to obtain a
/// token equal to an existing one is to duplicate it: creation never hands
/// the same identifier out twice from one source
/// ([`lemma_creations_distinct`]).
#[derive(Clone, Copy, PartialEq, Eq, Hash, Structural)]
pub struct Unique {
    id: u64,
}

impl View for Unique {
    type V = u64;

    closed spec fn view(&self) -> u64 {
        self.id
    }
}

/// The counter a token's identifier is drawn from.
///
/// It starts at 1 and moves forward by one per creation; zero is the
/// reserved sentinel that no token ever carries, reached only when the
/// counter has wrapped past `u64::MAX` and may hand out no more
/// identifiers.
pub struct UniqueSource {
    next: u64,
}

impl View for UniqueSource {
    type V = u64;

    closed spec fn view(&self) -> u64 {
        self.next
    }
}

impl UniqueSource {
    /// Whether the counter has wrapped to the sentinel, so that no further
    /// identifier may be handed out without repeating one.
    pub open spec fn exhausted(&self) -> bool {
        self@ == 0
    }

    /// A fresh source whose first identifier is 1, keeping zero free for
    /// the sentinel.
    pub fn new() -> (s: Self)
        ensures
            s@ == 1,
    {
        UniqueSource { next: 1 }
    }

    /// A source whose next identifier is `next`. This lets a caller place
    /// the counter anywhere, e.g. near its end to exercise exhaustion;
    /// tokens from sources with overlapping ranges may of course collide.
    pub fn starting_at(next: u64) -> (s: Self)
        ensures
            s@ == next,
    {
        UniqueSource { next }
    }
}

/// The creation relation: a single creation call on a source in state
/// `pre` returned the token `t` and left the source in state `post`.
pub open spec fn mints(pre: UniqueSource, post: UniqueSource, t: Unique) -> bool {
    &&& !pre.exhausted()
    &&& t@ == pre@
    &&& post@ == (if pre@ == u64::MAX {
        0u64
    } else {
        (pre@ + 1) as u64
    })
}

/// `b` is a state the source can be in at or after `a`: the counter only
/// moves forward, and once it has wrapped to the sentinel it stays there.
pub open spec fn reaches(a: UniqueSource, b: UniqueSource) -> bool {
    if a.exhausted() {
        b.exhausted()
    } else {
        a@ <= b@ || b.exhausted()
    }
}

impl Unique {
    /// Create a new token, drawing the next identifier from `source`.
    ///
    /// All tokens created from one source, over its whole life, compare
    /// unequal ([`lemma_creations_distinct`]), and none carries the
    /// reserved sentinel identifier zero. A caller must rule out an
    /// exhausted source first; [`Unique::try_new`] does that test itself.
    pub fn new(source: &mut UniqueSource) -> (t: Unique)
        requires
            !old(source).exhausted(),
        ensures
            mints(*old(source), *final(source), t),
            t@ != 0,
    {
        let id = source.next;
        if source.next == u64::MAX {
            source.next = 0;
        } else {
            source.next = source.next + 1;
        }
        Unique { id }
    }

    /// Create a new token, or report an exhausted source as `None` rather
    /// than hand out a repeated or sentinel identifier. An exhausted
    /// source is left unchanged.
    pub fn try_new(source: &mut UniqueSource) -> (r: Option<Unique>)
        ensures
            (match r {
                Some(t) => !old(source).exhausted() && mints(*old(source), *final(source), t)
                    && t@ != 0,
                None => old(source).exhausted() && *final(source) == *old(source),
            }),
    {
        if source.next == 0 {
            None
        } else {
            Some(Unique::new(source))
        }
    }

    /// The debug rendering of this token: `0x` followed by the 16
    /// zero-padded uppercase hexadecimal digits of its identifier
    /// ([`crate::render::lemma_debug_chars_form`]).
    pub fn debug_string(&self) -> (s: String)
        ensures
            s@ == crate::render::debug_chars(self@),
    {
        crate::render::hex_string(self.id)
    }

    /// A second token equal to this one. A duplicate carries the same
    /// identifier as the original and may itself be duplicated without
    /// limit ([`lemma_duplication_chain`]).
    pub fn duplicate(&self) -> (t: Unique)
        ensures
            t == *self,
            t@ == self@,
    {
        *self
    }
}

impl From<&Unique> for u64 {
    /// The token's raw identifier, for hashing, logging, or use as a map
    /// key; it carries no meaning beyond opaque identity.
    fn from(token: &Unique) -> u64 {
        token.id
    }
}

impl vstd::std_specs::convert::FromSpecImpl<&Unique> for u64 {
    open spec fn obeys_from_spec() -> bool {
        true
    }

    open spec fn from_spec(token: &Unique) -> u64 {
        token@
    }
}

/// Equality is identity: two tokens are equal exactly when their raw
/// identifiers are equal. So equality cannot tell a duplicate from its
/// original, and never identifies tokens whose identifiers differ.
pub proof fn lemma_eq_is_identity_eq(t1: Unique, t2: Unique)
    ensures
        (t1 == t2) <==> (t1@ == t2@),
{
}

/// Equality of tokens is transitive, so duplicating a duplicate, through
/// any chain, still yields a token equal to the original, with the same
/// identifier.
pub proof fn lemma_duplication_chain(t1: Unique, t2: Unique, t3: Unique)
    requires
        t1 == t2,
        t2 == t3,
    ensures
        t1 == t3,
        t1@ == t3@,
{
}

/// A source reaches its own state.
pub proof fn lemma_reaches_refl(a: UniqueSource)
    ensures
        reaches(a, a),
{
}

/// States a source passes through are ordered: reachability is transitive.
pub proof fn lemma_reaches_trans(a: UniqueSource, b: UniqueSource, c: UniqueSource)
    requires
        reaches(a, b),
        reaches(b, c),
    ensures
        reaches(a, c),
{
}

/// A creation call moves the source forward.
pub proof fn lemma_mint_reaches(pre: UniqueSource, post: UniqueSource, t: Unique)
    requires
        mints(pre, post, t),
    ensures
        reaches(pre, post),
{
}

/// Uniqueness across creation calls: if `t1` was minted first, and the
/// source then went on — through any number of further mints, by
/// [`lemma_mint_reaches`] and [`lemma_reaches_trans`] — to the state from
/// which `t2` was minted, then the two tokens differ, as do their raw
/// identifiers; identifiers in fact strictly increase.
pub proof fn lemma_creations_distinct(
    pre1: UniqueSource,
    post1: UniqueSource,
    t1: Unique,
    pre2: UniqueSource,
    post2: UniqueSource,
    t2: Unique,
)
    requires
        mints(pre1, post1, t1),
        reaches(post1, pre2),
        mints(pre2, post2, t2),
    ensures
        t1@ < t2@,
        t1@ != t2@,
        t1 != t2,
{
}

} // verus!
