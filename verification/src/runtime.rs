//! Owners identified at run time by a value drawn from a counter. Owners
//! whose ids were made from different raw values accept none of each other's
//! cells (`lemma_unrelated_owners_refuse`); that a counter hands each raw
//! value out only once rests on the atomic it is kept in, whose contents are
//! not modelled.
//!
//! The crate holds no statics, so a counter's shared state is passed in as
//! its `Source`. A pool (`Reuse`) may hand an owner's value to a later owner;
//! the value goes back to the pool when the identifier is given up with
//! `Runtime::release`, since there is no destructor that does it.

use vstd::prelude::*;

use core::sync::atomic::{AtomicU32, AtomicU64, Ordering};

use crate::runtime::builder::{
    be_bytes, is_native_bytes, le_bytes, lemma_le_bytes_injective, pow256, Atomic, Scalar,
};
use crate::Identifier;
use vstd::std_specs::cmp::{PartialEqSpec, PartialEqSpecImpl};

pub mod builder;

verus! {

/// A source of fresh ids.
pub trait Counter: Copy + Sized {
    /// The shared state that fresh ids are drawn from.
    type Source;

    /// Whether `self` and `other` are the same id.
    fn same(&self, other: &Self) -> (r: bool)
        ensures
            r == (*self == *other),
    ;

    /// `r` is a result that drawing from `source` may give.
    spec fn draws(source: &Self::Source, r: Option<Self>) -> bool;

    /// Draw a fresh id from `source`, or `None` once the ids are used up.
    fn try_next(source: &Self::Source) -> (r: Option<Self>)
        ensures
            Self::draws(source, r),
    ;
}

/// A pool of ids that released owners give back, for later owners to take.
pub trait Reuse<T>: Sized {
    /// Giving `value` back to `pool` may leave the pool as `after`.
    spec fn puts(pool: Self, value: T, after: Self) -> bool;

    /// Taking from `pool` may give `taken` and leave the pool as `after`.
    spec fn takes(pool: Self, after: Self, taken: Option<T>) -> bool;

    fn put(&mut self, value: T)
        ensures
            Self::puts(*old(self), value, *final(self)),
    ;

    fn take(&mut self) -> (r: Option<T>)
        ensures
            Self::takes(*old(self), *final(self), r),
    ;
}

/// A pool that keeps nothing.
pub struct NoOpReuse;

impl<V> Reuse<V> for NoOpReuse {
    /// Nothing is kept.
    open spec fn puts(pool: Self, value: V, after: Self) -> bool {
        after == pool
    }

    /// Nothing is ever taken.
    open spec fn takes(pool: Self, after: Self, taken: Option<V>) -> bool {
        after == pool && taken is None
    }

    fn put(&mut self, _value: V) {
    }

    fn take(&mut self) -> Option<V> {
        None
    }
}

/// The default counter: ids of six bytes, drawn from a 64-bit atomic.
#[derive(Debug, Hash, PartialOrd, Ord)]
pub struct Global([u8; 6]);

/// A counter of four-byte ids, drawn from a 32-bit atomic.
#[derive(Debug, Hash, PartialOrd, Ord)]
pub struct SmallGlobal([u8; 4]);

pub type Owner<I = Global, R = NoOpReuse> = crate::Owner<Runtime<I, R>>;

pub type GlobalICell<T, I = SmallGlobal> = crate::ICell<RuntimeId<I>, T>;

pub type ICell<T, I = Global> = crate::ICell<RuntimeId<I>, T>;

/// The id stamped on the cells of a runtime owner.
#[derive(Debug, Hash, PartialOrd, Ord)]
pub struct RuntimeId<I>(I);

/// The identifier of a runtime owner: its counter value and the pool it gives
/// the value back to.
#[derive(Debug, PartialEq, Eq, PartialOrd, Ord, Hash)]
pub struct Runtime<I: Counter, R: Reuse<I> = NoOpReuse>(I, R);

/// The largest raw value of a `Global` counter, plus one: ids have six bytes.
pub open spec fn global_limit() -> nat {
    0x1_0000_0000_0000
}

impl Clone for Global {
    fn clone(&self) -> (r: Self)
        ensures
            r == *self,
    {
        Global(self.0)
    }
}

impl Copy for Global {

}

impl Clone for SmallGlobal {
    fn clone(&self) -> (r: Self)
        ensures
            r == *self,
    {
        SmallGlobal(self.0)
    }
}

impl Copy for SmallGlobal {

}

impl Global {
    /// The bytes of the id.
    pub closed spec fn bytes(&self) -> Seq<u8> {
        self.0@
    }

    /// How the raw value of the counter advances: values that do not fit in
    /// six bytes are never handed out.
    pub open spec fn spec_step(value: u64) -> Option<u64> {
        if value < global_limit() {
            Some((value + 1) as u64)
        } else {
            None
        }
    }

    /// The id drawn by a claim on the counter that came back as `claimed`:
    /// the bytes of the value the counter held, when the claim succeeded.
    pub fn from_claim(claimed: Result<u64, u64>) -> (r: Option<Global>)
        ensures
            match claimed {
                Ok(prev) => if prev < global_limit() {
                    r matches Some(id) && id.bytes() == le_bytes(prev as nat, 6)
                } else {
                    r is None
                },
                Err(_) => r is None,
            },
    {
        match claimed {
            Ok(prev) => match <[u8; 6] as Scalar>::try_from_atomic_inner(prev) {
                Ok(bytes) => Some(Global(bytes)),
                Err(_) => None,
            },
            Err(_) => None,
        }
    }

    /// The raw value after `value`, provided `value` makes an id.
    pub fn step(value: u64) -> (r: Option<u64>)
        ensures
            r == Self::spec_step(value),
    {
        match <[u8; 6] as Scalar>::try_from_atomic_inner(value) {
            Ok(_) => <AtomicU64 as Atomic>::next(value),
            Err(_) => None,
        }
    }
}

/// `AtomicU64::fetch_update` with `Global::step`: advances `source` by one
/// step and returns the value it held, or returns that value unchanged when no
/// step is possible from it.
#[verifier::external_body]
fn claim_global(source: &AtomicU64) -> (r: Result<u64, u64>)
    ensures
        r matches Ok(prev) ==> Global::spec_step(prev) is Some,
        r matches Err(prev) ==> Global::spec_step(prev) is None,
{
    source.fetch_update(Ordering::Relaxed, Ordering::Relaxed, Global::step)
}

impl Global {
    /// An owner with a fresh `Global` id, or `None` once the ids are used up.
    pub fn try_owner(source: &AtomicU64) -> (r: Option<Owner<Global>>)
        ensures
            match r {
                Some(owner) => owner.ident().reuse() == NoOpReuse && <Global as Counter>::draws(
                    source,
                    Some(owner.ident().counter()),
                ),
                None => <Global as Counter>::draws(source, None),
            },
    {
        Runtime::try_owner_with_counter(source)
    }
}

impl Counter for Global {
    type Source = AtomicU64;

    fn same(&self, other: &Self) -> (r: bool) {
        let r = self.0[0] == other.0[0] && self.0[1] == other.0[1] && self.0[2] == other.0[2]
            && self.0[3] == other.0[3] && self.0[4] == other.0[4] && self.0[5] == other.0[5];
        proof {
            broadcast use vstd::array::group_array_axioms;
            if r {
                assert(self.0@ =~= other.0@);
                assert(self.0 == other.0);
            }
        }
        r
    }

    /// An id drawn is the six bytes of a raw value that fits in them.
    open spec fn draws(source: &AtomicU64, r: Option<Global>) -> bool {
        r matches Some(id) ==> exists|v: nat|
            v < global_limit() && #[trigger] le_bytes(v, 6) == id.bytes()
    }

    fn try_next(source: &AtomicU64) -> (r: Option<Global>) {
        Global::from_claim(claim_global(source))
    }
}

impl SmallGlobal {
    /// The bytes of the id.
    pub closed spec fn bytes(&self) -> Seq<u8> {
        self.0@
    }

    /// How the raw value of the counter advances: every 32-bit value makes an id.
    pub open spec fn spec_step(value: u32) -> Option<u32> {
        <AtomicU32 as Atomic>::spec_next(value)
    }

    /// The id drawn by a claim on the counter that came back as `claimed`:
    /// the bytes of the value the counter held, when the claim succeeded.
    pub fn from_claim(claimed: Result<u32, u32>) -> (r: Option<SmallGlobal>)
        ensures
            match claimed {
                Ok(prev) => r matches Some(id) && is_native_bytes(id.bytes(), prev as nat, 4),
                Err(_) => r is None,
            },
    {
        match claimed {
            Ok(prev) => match <[u8; 4] as Scalar>::try_from_atomic_inner(prev) {
                Ok(bytes) => Some(SmallGlobal(bytes)),
                Err(_) => None,
            },
            Err(_) => None,
        }
    }

    /// The raw value after `value`.
    pub fn step(value: u32) -> (r: Option<u32>)
        ensures
            r == Self::spec_step(value),
    {
        <AtomicU32 as Atomic>::next(value)
    }
}

/// `AtomicU32::fetch_update` with `SmallGlobal::step`: advances `source` by one
/// step and returns the value it held, or returns that value unchanged when no
/// step is possible from it.
#[verifier::external_body]
fn claim_small_global(source: &AtomicU32) -> (r: Result<u32, u32>)
    ensures
        r matches Ok(prev) ==> SmallGlobal::spec_step(prev) is Some,
        r matches Err(prev) ==> SmallGlobal::spec_step(prev) is None,
{
    source.fetch_update(Ordering::Relaxed, Ordering::Relaxed, SmallGlobal::step)
}

impl SmallGlobal {
    /// An owner with a fresh `SmallGlobal` id, or `None` once the ids are used up.
    pub fn try_owner(source: &AtomicU32) -> (r: Option<Owner<SmallGlobal>>)
        ensures
            match r {
                Some(owner) => owner.ident().reuse() == NoOpReuse && <SmallGlobal as Counter>::draws(
                    source,
                    Some(owner.ident().counter()),
                ),
                None => <SmallGlobal as Counter>::draws(source, None),
            },
    {
        Runtime::try_owner_with_counter(source)
    }
}

impl Counter for SmallGlobal {
    type Source = AtomicU32;

    fn same(&self, other: &Self) -> (r: bool) {
        let r = self.0[0] == other.0[0] && self.0[1] == other.0[1] && self.0[2] == other.0[2]
            && self.0[3] == other.0[3];
        proof {
            broadcast use vstd::array::group_array_axioms;
            if r {
                assert(self.0@ =~= other.0@);
                assert(self.0 == other.0);
            }
        }
        r
    }

    /// An id drawn is the four bytes, in the machine's order, of a raw value
    /// below the largest.
    open spec fn draws(source: &AtomicU32, r: Option<SmallGlobal>) -> bool {
        r matches Some(id) ==> exists|v: nat|
            #![trigger le_bytes(v, 4)]
            v < u32::MAX && is_native_bytes(id.bytes(), v, 4)
    }

    fn try_next(source: &AtomicU32) -> (r: Option<SmallGlobal>) {
        SmallGlobal::from_claim(claim_small_global(source))
    }
}

impl PartialEq for Global {
    fn eq(&self, other: &Self) -> (r: bool) {
        self.same(other)
    }
}

impl PartialEqSpecImpl for Global {
    open spec fn obeys_eq_spec() -> bool {
        true
    }

    open spec fn eq_spec(&self, other: &Self) -> bool {
        *self == *other
    }
}

impl Eq for Global {

}

impl PartialEq for SmallGlobal {
    fn eq(&self, other: &Self) -> (r: bool) {
        self.same(other)
    }
}

impl PartialEqSpecImpl for SmallGlobal {
    open spec fn obeys_eq_spec() -> bool {
        true
    }

    open spec fn eq_spec(&self, other: &Self) -> bool {
        *self == *other
    }
}

impl Eq for SmallGlobal {

}

impl<I: PartialEq> PartialEq for RuntimeId<I> {
    fn eq(&self, other: &Self) -> (r: bool) {
        self.0 == other.0
    }
}

impl<I: PartialEq> PartialEqSpecImpl for RuntimeId<I> {
    open spec fn obeys_eq_spec() -> bool {
        I::obeys_eq_spec()
    }

    open spec fn eq_spec(&self, other: &Self) -> bool {
        self.counter().eq_spec(&other.counter())
    }
}

impl<I: Eq> Eq for RuntimeId<I> {

}

impl<I: Copy> Clone for RuntimeId<I> {
    fn clone(&self) -> (r: Self)
        ensures
            r == *self,
    {
        *self
    }
}

impl<I: Copy> Copy for RuntimeId<I> {

}

impl<I> RuntimeId<I> {
    /// The counter value of the owner this id belongs to.
    pub closed spec fn counter(&self) -> I {
        self.0
    }

    /// Create a cell stamped with this id.
    pub fn cell<T>(self, value: T) -> (r: ICell<T, I>)
        ensures
            r.spec_id() == self,
            r.value() == value,
    {
        crate::ICell::from_raw_parts(self, value)
    }
}

impl<I: Counter, R: Reuse<I>> Runtime<I, R> {
    /// The counter value of the owner.
    pub closed spec fn counter(&self) -> I {
        self.0
    }

    /// The pool the owner gives its value back to.
    pub closed spec fn reuse(&self) -> R {
        self.1
    }

    /// Assemble an identifier from the id it was given, or give the pool back
    /// when there is no id.
    pub fn from_id(id: Option<I>, reuse: R) -> (r: Result<Self, R>)
        ensures
            match id {
                Some(i) => r matches Ok(rt) && rt.counter() == i && rt.reuse() == reuse,
                None => r == Err::<Self, R>(reuse),
            },
    {
        match id {
            Some(i) => Ok(Runtime(i, reuse)),
            None => Err(reuse),
        }
    }

    /// What becomes of a pool left as `pool` after a take that gave
    /// `taken`: the id taken, or else one drawn from `source`; the pool is
    /// handed back when neither gives an id.
    pub open spec fn assembled(source: &I::Source, pool: R, taken: Option<I>, r: Result<Self, R>) -> bool {
        match taken {
            Some(i) => r matches Ok(rt) && rt.counter() == i && rt.reuse() == pool,
            None => match r {
                Ok(rt) => rt.reuse() == pool && I::draws(source, Some(rt.counter())),
                Err(back) => back == pool && I::draws(source, None),
            },
        }
    }

    /// The identifier inside an owner result.
    pub open spec fn of_owner(r: Result<Owner<I, R>, R>) -> Result<Self, R> {
        match r {
            Ok(owner) => Ok(owner.ident()),
            Err(back) => Err(back),
        }
    }

    /// An owner with an id taken from the pool, or else drawn from the counter.
    pub fn try_owner_with_counter_and_reuse(reuse: R, source: &I::Source) -> (r: Result<
        Owner<I, R>,
        R,
    >)
        ensures
            exists|pool: R, taken: Option<I>|
                #[trigger] R::takes(reuse, pool, taken) && Self::assembled(
                    source,
                    pool,
                    taken,
                    Self::of_owner(r),
                ),
    {
        match Self::try_with_counter_and_reuse(reuse, source) {
            Ok(runtime) => Ok(crate::Owner::new(runtime)),
            Err(reuse) => Err(reuse),
        }
    }

    /// An identifier with an id taken from the pool, or else drawn from the
    /// counter; the pool comes back when neither has an id.
    pub fn try_with_counter_and_reuse(reuse: R, source: &I::Source) -> (r: Result<Self, R>)
        ensures
            exists|pool: R, taken: Option<I>|
                #[trigger] R::takes(reuse, pool, taken) && Self::assembled(source, pool, taken, r),
    {
        let mut pool = reuse;
        let taken = pool.take();
        let id = match taken {
            Some(id) => Some(id),
            None => I::try_next(source),
        };
        let r = Self::from_id(id, pool);
        assert(R::takes(reuse, pool, taken) && Self::assembled(source, pool, taken, r));
        r
    }

    /// Give the id back to the pool, and return the pool.
    pub fn release(self) -> (r: R)
        ensures
            R::puts(self.reuse(), self.counter(), r),
    {
        let Runtime(value, mut reuse) = self;
        reuse.put(value);
        reuse
    }
}

impl<I: Counter> Runtime<I> {
    /// An owner with an id drawn from the counter, or `None` once the ids are used up.
    pub fn try_owner_with_counter(source: &I::Source) -> (r: Option<Owner<I>>)
        ensures
            match r {
                Some(owner) => owner.ident().reuse() == NoOpReuse && I::draws(
                    source,
                    Some(owner.ident().counter()),
                ),
                None => I::draws(source, None),
            },
    {
        match Self::try_with_counter(source) {
            Some(runtime) => Some(crate::Owner::new(runtime)),
            None => None,
        }
    }

    /// An identifier with an id drawn from the counter, or `None` once the ids are used up.
    pub fn try_with_counter(source: &I::Source) -> (r: Option<Self>)
        ensures
            match r {
                Some(runtime) => runtime.reuse() == NoOpReuse && I::draws(
                    source,
                    Some(runtime.counter()),
                ),
                None => I::draws(source, None),
            },
    {
        match I::try_next(source) {
            Some(id) => Some(Runtime(id, NoOpReuse)),
            None => None,
        }
    }
}

impl Runtime<Global> {
    /// An owner with a fresh `Global` id, or `None` once the ids are used up.
    pub fn try_owner(source: &AtomicU64) -> (r: Option<Owner<Global>>)
        ensures
            r matches Some(owner) ==> {
                &&& owner.ident().reuse() == NoOpReuse
                &&& exists|v: nat|
                    v < global_limit() && #[trigger] le_bytes(v, 6)
                        == owner.ident().counter().bytes()
            },
    {
        match Self::try_new(source) {
            Some(runtime) => Some(crate::Owner::new(runtime)),
            None => None,
        }
    }

    /// An identifier with a fresh `Global` id, or `None` once the ids are used up.
    pub fn try_new(source: &AtomicU64) -> (r: Option<Self>)
        ensures
            r matches Some(runtime) ==> {
                &&& runtime.reuse() == NoOpReuse
                &&& exists|v: nat|
                    v < global_limit() && #[trigger] le_bytes(v, 6)
                        == runtime.counter().bytes()
            },
    {
        match Global::try_next(source) {
            Some(id) => Some(Runtime(id, NoOpReuse)),
            None => None,
        }
    }
}

/// The id of a runtime identifier carries its counter value.
pub proof fn lemma_id_carries_counter<I: Counter, R: Reuse<I>>(runtime: Runtime<I, R>)
    ensures
        runtime.spec_id().counter() == runtime.counter(),
{
}

/// Claims on a `Global` counter that took different raw values give
/// different ids: a claim of `prev` gives the id made of `prev`'s six low
/// bytes (`Global::from_claim`), and those bytes tell the values apart.
pub proof fn lemma_global_claims_distinct(a: u64, b: u64, x: Global, y: Global)
    requires
        a < global_limit(),
        b < global_limit(),
        a != b,
        x.bytes() == le_bytes(a as nat, 6),
        y.bytes() == le_bytes(b as nat, 6),
    ensures
        x != y,
{
    reveal_with_fuel(pow256, 7);
    if x == y {
        lemma_le_bytes_injective(a as nat, b as nat, 6);
    }
}

/// Claims on a `SmallGlobal` counter that took different raw values give
/// different ids, as long as both are read in one byte order (a machine
/// has one).
pub proof fn lemma_small_global_claims_distinct(a: u32, b: u32, x: SmallGlobal, y: SmallGlobal)
    requires
        a != b,
        (x.bytes() == le_bytes(a as nat, 4) && y.bytes() == le_bytes(b as nat, 4)) || (x.bytes()
            == be_bytes(a as nat, 4) && y.bytes() == be_bytes(b as nat, 4)),
    ensures
        x != y,
{
    reveal_with_fuel(pow256, 5);
    reveal_with_fuel(le_bytes, 5);
    if x == y {
        assert(le_bytes(a as nat, 4) =~= be_bytes(a as nat, 4).reverse());
        assert(le_bytes(b as nat, 4) =~= be_bytes(b as nat, 4).reverse());
        lemma_le_bytes_injective(a as nat, b as nat, 4);
    }
}

/// Two runtime owners whose `Global` ids were made from different raw values
/// of the counter accept none of each other's cells.
pub proof fn lemma_unrelated_owners_refuse(
    x: Runtime<Global>,
    y: Runtime<Global>,
    a: nat,
    b: nat,
)
    requires
        a < global_limit(),
        b < global_limit(),
        a != b,
        x.counter().bytes() == le_bytes(a, 6),
        y.counter().bytes() == le_bytes(b, 6),
    ensures
        !x.recognizes(y.spec_id()),
        !y.recognizes(x.spec_id()),
{
    reveal_with_fuel(pow256, 7);
    if x.counter() == y.counter() {
        lemma_le_bytes_injective(a, b, 6);
    }
}

impl<I: Counter, R: Reuse<I>> crate::Identifier for Runtime<I, R> {
    type Id = RuntimeId<I>;

    closed spec fn spec_id(&self) -> RuntimeId<I> {
        RuntimeId(self.0)
    }

    /// A runtime owner accepts exactly its own id.
    open spec fn recognizes(&self, id: RuntimeId<I>) -> bool {
        id == self.spec_id()
    }

    fn id(&self) -> (r: RuntimeId<I>) {
        RuntimeId(self.0)
    }

    fn check_id(&self, id: &RuntimeId<I>) -> (r: bool) {
        self.0.same(&id.0)
    }

    proof fn lemma_recognizes_own_id(&self) {
    }
}

} // verus!
