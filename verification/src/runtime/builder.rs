//! The pieces from which counters of fresh ids are built: the atomic that
//! holds the next raw value, how that value advances, and how a raw value
//! becomes an id.

use vstd::prelude::*;

use core::convert::Infallible;
use core::sync::atomic::{
    AtomicBool, AtomicI16, AtomicI32, AtomicI64, AtomicI8, AtomicIsize, AtomicU16, AtomicU32,
    AtomicU64, AtomicU8, AtomicUsize,
};

verus! {

/// The bytes of `value` from the least significant up, `n` of them.
pub open spec fn le_bytes(value: nat, n: nat) -> Seq<u8>
    decreases n,
{
    if n == 0 {
        Seq::empty()
    } else {
        seq![(value % 256) as u8] + le_bytes(value / 256, (n - 1) as nat)
    }
}

/// The bytes of `value` from the most significant down, `n` of them.
pub open spec fn be_bytes(value: nat, n: nat) -> Seq<u8> {
    le_bytes(value, n).reverse()
}

/// The bytes of `value` in the machine's byte order: one of the two orders.
pub open spec fn is_native_bytes(bytes: Seq<u8>, value: nat, n: nat) -> bool {
    bytes == le_bytes(value, n) || bytes == be_bytes(value, n)
}

/// `256` to the power `n`: the number of values that fit in `n` bytes.
pub open spec fn pow256(n: nat) -> nat
    decreases n,
{
    if n == 0 {
        1
    } else {
        256 * pow256((n - 1) as nat)
    }
}

/// Values that fit in `n` bytes have different little-endian bytes.
pub proof fn lemma_le_bytes_injective(a: nat, b: nat, n: nat)
    requires
        a < pow256(n),
        b < pow256(n),
        le_bytes(a, n) == le_bytes(b, n),
    ensures
        a == b,
    decreases n,
{
    if n > 0 {
        let m = (n - 1) as nat;
        let (la, lb) = (le_bytes(a, n), le_bytes(b, n));
        assert(la[0] == lb[0]);
        assert(a % 256 == b % 256);
        assert(le_bytes(a / 256, m) =~= la.subrange(1, la.len() as int));
        assert(le_bytes(b / 256, m) =~= lb.subrange(1, lb.len() as int));
        assert(a / 256 < pow256(m)) by (nonlinear_arith)
            requires
                a < 256 * pow256(m),
        ;
        assert(b / 256 < pow256(m)) by (nonlinear_arith)
            requires
                b < 256 * pow256(m),
        ;
        lemma_le_bytes_injective(a / 256, b / 256, m);
    }
}

/// An atomic that a counter of fresh ids keeps its next raw value in.
pub trait Atomic: Sized {
    /// The raw value held by the atomic.
    type Value;

    /// The raw value that follows `value`, if there is one.
    spec fn spec_next(value: Self::Value) -> Option<Self::Value>;

    /// A new atomic holding the first raw value of a counter.
    fn init() -> Self;

    /// The raw value that follows `value`, or `None` when the counter is exhausted.
    fn next(value: Self::Value) -> (r: Option<Self::Value>)
        ensures
            r == Self::spec_next(value),
    ;
}

/// An id that a counter can hand out, made from the raw value of its atomic.
pub trait Scalar: Sized {
    type Atomic: Atomic;

    type Error;

    /// `r` is a result that `try_from_atomic_inner` may give for `value`.
    spec fn converts(value: <Self::Atomic as Atomic>::Value, r: Result<Self, Self::Error>) -> bool;

    fn try_from_atomic_inner(value: <Self::Atomic as Atomic>::Value) -> (r: Result<Self, Self::Error>)
        ensures
            Self::converts(value, r),
    ;
}

/// The raw value that follows `value` in a counter of ids of type `S`, as
/// decided by the conversion `converted` of `value`: none when `value`
/// makes no id.
pub open spec fn step_after<S: Scalar>(
    value: <S::Atomic as Atomic>::Value,
    converted: Result<S, S::Error>,
) -> Option<<S::Atomic as Atomic>::Value> {
    match converted {
        Ok(_) => <S::Atomic as Atomic>::spec_next(value),
        Err(_) => None,
    }
}

/// The raw value that follows `value` in a counter of ids of type `S`:
/// `value` must make an id, and the counter must not be exhausted.
pub fn step<S: Scalar>(value: <S::Atomic as Atomic>::Value) -> (r: Option<
    <S::Atomic as Atomic>::Value,
>) where <S::Atomic as Atomic>::Value: Copy
    ensures
        exists|converted: Result<S, S::Error>|
            #[trigger] S::converts(value, converted) && r == step_after(value, converted),
{
    let converted = S::try_from_atomic_inner(value);
    let r = match converted {
        Ok(_) => <S::Atomic as Atomic>::next(value),
        Err(_) => None,
    };
    assert(S::converts(value, converted) && r == step_after(value, converted));
    r
}

/// The id drawn by a claim on a counter of ids of type `S` that came back as
/// `claimed`: the id made from the value the counter held, when the claim
/// succeeded and that value makes one.
pub fn from_claim<S: Scalar>(claimed: Result<<S::Atomic as Atomic>::Value, <S::Atomic as Atomic>::Value>) -> (r: Option<S>)
    ensures
        match claimed {
            Ok(prev) => exists|converted: Result<S, S::Error>|
                #[trigger] S::converts(prev, converted) && r == match converted {
                    Ok(id) => Some(id),
                    Err(_) => None,
                },
            Err(_) => r is None,
        },
{
    match claimed {
        Ok(prev) => {
            let converted = S::try_from_atomic_inner(prev);
            let r = match converted {
                Ok(id) => Some(id),
                Err(_) => None,
            };
            assert(S::converts(prev, converted));
            r
        },
        Err(_) => None,
    }
}

impl Atomic for AtomicU8 {
    type Value = u8;

    open spec fn spec_next(value: u8) -> Option<u8> {
        if value < u8::MAX {
            Some((value + 1) as u8)
        } else {
            None
        }
    }

    fn init() -> Self {
        AtomicU8::new(u8::MIN)
    }

    fn next(value: u8) -> (r: Option<u8>)
        ensures
            r matches Some(next) ==> next == value + 1,
            r is None <==> value == u8::MAX,
    {
        value.checked_add(1)
    }
}

impl Scalar for u8 {
    type Atomic = AtomicU8;

    type Error = Infallible;

    open spec fn converts(value: u8, r: Result<u8, Infallible>) -> bool {
        r == Ok::<u8, Infallible>(value)
    }

    fn try_from_atomic_inner(value: u8) -> (r: Result<u8, Infallible>)
        ensures
            r matches Ok(id) && id == value,
    {
        Ok(value)
    }
}

impl Atomic for AtomicU16 {
    type Value = u16;

    open spec fn spec_next(value: u16) -> Option<u16> {
        if value < u16::MAX {
            Some((value + 1) as u16)
        } else {
            None
        }
    }

    fn init() -> Self {
        AtomicU16::new(u16::MIN)
    }

    fn next(value: u16) -> (r: Option<u16>)
        ensures
            r matches Some(next) ==> next == value + 1,
            r is None <==> value == u16::MAX,
    {
        value.checked_add(1)
    }
}

impl Scalar for u16 {
    type Atomic = AtomicU16;

    type Error = Infallible;

    open spec fn converts(value: u16, r: Result<u16, Infallible>) -> bool {
        r == Ok::<u16, Infallible>(value)
    }

    fn try_from_atomic_inner(value: u16) -> (r: Result<u16, Infallible>)
        ensures
            r matches Ok(id) && id == value,
    {
        Ok(value)
    }
}

impl Atomic for AtomicU32 {
    type Value = u32;

    open spec fn spec_next(value: u32) -> Option<u32> {
        if value < u32::MAX {
            Some((value + 1) as u32)
        } else {
            None
        }
    }

    fn init() -> Self {
        AtomicU32::new(u32::MIN)
    }

    fn next(value: u32) -> (r: Option<u32>)
        ensures
            r matches Some(next) ==> next == value + 1,
            r is None <==> value == u32::MAX,
    {
        value.checked_add(1)
    }
}

impl Scalar for u32 {
    type Atomic = AtomicU32;

    type Error = Infallible;

    open spec fn converts(value: u32, r: Result<u32, Infallible>) -> bool {
        r == Ok::<u32, Infallible>(value)
    }

    fn try_from_atomic_inner(value: u32) -> (r: Result<u32, Infallible>)
        ensures
            r matches Ok(id) && id == value,
    {
        Ok(value)
    }
}

impl Atomic for AtomicU64 {
    type Value = u64;

    open spec fn spec_next(value: u64) -> Option<u64> {
        if value < u64::MAX {
            Some((value + 1) as u64)
        } else {
            None
        }
    }

    fn init() -> Self {
        AtomicU64::new(u64::MIN)
    }

    fn next(value: u64) -> (r: Option<u64>)
        ensures
            r matches Some(next) ==> next == value + 1,
            r is None <==> value == u64::MAX,
    {
        value.checked_add(1)
    }
}

impl Scalar for u64 {
    type Atomic = AtomicU64;

    type Error = Infallible;

    open spec fn converts(value: u64, r: Result<u64, Infallible>) -> bool {
        r == Ok::<u64, Infallible>(value)
    }

    fn try_from_atomic_inner(value: u64) -> (r: Result<u64, Infallible>)
        ensures
            r matches Ok(id) && id == value,
    {
        Ok(value)
    }
}

impl Atomic for AtomicUsize {
    type Value = usize;

    open spec fn spec_next(value: usize) -> Option<usize> {
        if value < usize::MAX {
            Some((value + 1) as usize)
        } else {
            None
        }
    }

    fn init() -> Self {
        AtomicUsize::new(usize::MIN)
    }

    fn next(value: usize) -> (r: Option<usize>)
        ensures
            r matches Some(next) ==> next == value + 1,
            r is None <==> value == usize::MAX,
    {
        value.checked_add(1)
    }
}

impl Scalar for usize {
    type Atomic = AtomicUsize;

    type Error = Infallible;

    open spec fn converts(value: usize, r: Result<usize, Infallible>) -> bool {
        r == Ok::<usize, Infallible>(value)
    }

    fn try_from_atomic_inner(value: usize) -> (r: Result<usize, Infallible>)
        ensures
            r matches Ok(id) && id == value,
    {
        Ok(value)
    }
}

impl Atomic for AtomicI8 {
    type Value = i8;

    open spec fn spec_next(value: i8) -> Option<i8> {
        if value < i8::MAX {
            Some((value + 1) as i8)
        } else {
            None
        }
    }

    fn init() -> Self {
        AtomicI8::new(i8::MIN)
    }

    fn next(value: i8) -> (r: Option<i8>)
        ensures
            r matches Some(next) ==> next == value + 1,
            r is None <==> value == i8::MAX,
    {
        value.checked_add(1)
    }
}

impl Scalar for i8 {
    type Atomic = AtomicI8;

    type Error = Infallible;

    open spec fn converts(value: i8, r: Result<i8, Infallible>) -> bool {
        r == Ok::<i8, Infallible>(value)
    }

    fn try_from_atomic_inner(value: i8) -> (r: Result<i8, Infallible>)
        ensures
            r matches Ok(id) && id == value,
    {
        Ok(value)
    }
}

impl Atomic for AtomicI16 {
    type Value = i16;

    open spec fn spec_next(value: i16) -> Option<i16> {
        if value < i16::MAX {
            Some((value + 1) as i16)
        } else {
            None
        }
    }

    fn init() -> Self {
        AtomicI16::new(i16::MIN)
    }

    fn next(value: i16) -> (r: Option<i16>)
        ensures
            r matches Some(next) ==> next == value + 1,
            r is None <==> value == i16::MAX,
    {
        value.checked_add(1)
    }
}

impl Scalar for i16 {
    type Atomic = AtomicI16;

    type Error = Infallible;

    open spec fn converts(value: i16, r: Result<i16, Infallible>) -> bool {
        r == Ok::<i16, Infallible>(value)
    }

    fn try_from_atomic_inner(value: i16) -> (r: Result<i16, Infallible>)
        ensures
            r matches Ok(id) && id == value,
    {
        Ok(value)
    }
}

impl Atomic for AtomicI32 {
    type Value = i32;

    open spec fn spec_next(value: i32) -> Option<i32> {
        if value < i32::MAX {
            Some((value + 1) as i32)
        } else {
            None
        }
    }

    fn init() -> Self {
        AtomicI32::new(i32::MIN)
    }

    fn next(value: i32) -> (r: Option<i32>)
        ensures
            r matches Some(next) ==> next == value + 1,
            r is None <==> value == i32::MAX,
    {
        value.checked_add(1)
    }
}

impl Scalar for i32 {
    type Atomic = AtomicI32;

    type Error = Infallible;

    open spec fn converts(value: i32, r: Result<i32, Infallible>) -> bool {
        r == Ok::<i32, Infallible>(value)
    }

    fn try_from_atomic_inner(value: i32) -> (r: Result<i32, Infallible>)
        ensures
            r matches Ok(id) && id == value,
    {
        Ok(value)
    }
}

impl Atomic for AtomicI64 {
    type Value = i64;

    open spec fn spec_next(value: i64) -> Option<i64> {
        if value < i64::MAX {
            Some((value + 1) as i64)
        } else {
            None
        }
    }

    fn init() -> Self {
        AtomicI64::new(i64::MIN)
    }

    fn next(value: i64) -> (r: Option<i64>)
        ensures
            r matches Some(next) ==> next == value + 1,
            r is None <==> value == i64::MAX,
    {
        value.checked_add(1)
    }
}

impl Scalar for i64 {
    type Atomic = AtomicI64;

    type Error = Infallible;

    open spec fn converts(value: i64, r: Result<i64, Infallible>) -> bool {
        r == Ok::<i64, Infallible>(value)
    }

    fn try_from_atomic_inner(value: i64) -> (r: Result<i64, Infallible>)
        ensures
            r matches Ok(id) && id == value,
    {
        Ok(value)
    }
}

impl Atomic for AtomicIsize {
    type Value = isize;

    open spec fn spec_next(value: isize) -> Option<isize> {
        if value < isize::MAX {
            Some((value + 1) as isize)
        } else {
            None
        }
    }

    fn init() -> Self {
        AtomicIsize::new(isize::MIN)
    }

    fn next(value: isize) -> (r: Option<isize>)
        ensures
            r matches Some(next) ==> next == value + 1,
            r is None <==> value == isize::MAX,
    {
        value.checked_add(1)
    }
}

impl Scalar for isize {
    type Atomic = AtomicIsize;

    type Error = Infallible;

    open spec fn converts(value: isize, r: Result<isize, Infallible>) -> bool {
        r == Ok::<isize, Infallible>(value)
    }

    fn try_from_atomic_inner(value: isize) -> (r: Result<isize, Infallible>)
        ensures
            r matches Ok(id) && id == value,
    {
        Ok(value)
    }
}

impl Atomic for AtomicBool {
    type Value = bool;

    /// A boolean counter advances once, from `false` to `true`.
    open spec fn spec_next(value: bool) -> Option<bool> {
        if value {
            None
        } else {
            Some(true)
        }
    }

    fn init() -> Self {
        AtomicBool::new(false)
    }

    fn next(value: bool) -> (r: Option<bool>)
        ensures
            r is Some <==> !value,
            r matches Some(next) ==> next,
    {
        if value {
            None
        } else {
            Some(true)
        }
    }
}

impl Scalar for () {
    type Atomic = AtomicBool;

    type Error = ();

    /// The one id is handed out while the flag is still `false`.
    open spec fn converts(value: bool, r: Result<(), ()>) -> bool {
        r == if value {
            Err::<(), ()>(())
        } else {
            Ok::<(), ()>(())
        }
    }

    fn try_from_atomic_inner(value: bool) -> (r: Result<(), ()>) {
        if value {
            Err(())
        } else {
            Ok(())
        }
    }
}

/// `u16::to_ne_bytes`: the bytes of `value` in the machine's byte order,
/// which is little- or big-endian.
#[verifier::external_body]
fn u16_to_ne_bytes(value: u16) -> (r: [u8; 2])
    ensures
        is_native_bytes(r@, value as nat, 2),
{
    value.to_ne_bytes()
}

impl Scalar for [u8; 2] {
    type Atomic = AtomicU16;

    type Error = Infallible;

    open spec fn converts(value: u16, r: Result<[u8; 2], Infallible>) -> bool {
        r matches Ok(bytes) && is_native_bytes(bytes@, value as nat, 2)
    }

    fn try_from_atomic_inner(value: u16) -> (r: Result<[u8; 2], Infallible>) {
        Ok(u16_to_ne_bytes(value))
    }
}

/// `u32::to_ne_bytes`: the bytes of `value` in the machine's byte order,
/// which is little- or big-endian.
#[verifier::external_body]
fn u32_to_ne_bytes(value: u32) -> (r: [u8; 4])
    ensures
        is_native_bytes(r@, value as nat, 4),
{
    value.to_ne_bytes()
}

impl Scalar for [u8; 4] {
    type Atomic = AtomicU32;

    type Error = Infallible;

    open spec fn converts(value: u32, r: Result<[u8; 4], Infallible>) -> bool {
        r matches Ok(bytes) && is_native_bytes(bytes@, value as nat, 4)
    }

    fn try_from_atomic_inner(value: u32) -> (r: Result<[u8; 4], Infallible>) {
        Ok(u32_to_ne_bytes(value))
    }
}

/// `u64::to_ne_bytes`: the bytes of `value` in the machine's byte order,
/// which is little- or big-endian.
#[verifier::external_body]
fn u64_to_ne_bytes(value: u64) -> (r: [u8; 8])
    ensures
        is_native_bytes(r@, value as nat, 8),
{
    value.to_ne_bytes()
}

impl Scalar for [u8; 8] {
    type Atomic = AtomicU64;

    type Error = Infallible;

    open spec fn converts(value: u64, r: Result<[u8; 8], Infallible>) -> bool {
        r matches Ok(bytes) && is_native_bytes(bytes@, value as nat, 8)
    }

    fn try_from_atomic_inner(value: u64) -> (r: Result<[u8; 8], Infallible>) {
        Ok(u64_to_ne_bytes(value))
    }
}

impl Scalar for [u8; 3] {
    type Atomic = AtomicU32;

    type Error = ();

    /// The value must fit in 3 bytes; its bytes are taken least significant first.
    open spec fn converts(value: u32, r: Result<[u8; 3], ()>) -> bool {
        if value < 0x1000000 {
            r matches Ok(bytes) && bytes@ == le_bytes(value as nat, 3)
        } else {
            r == Err::<[u8; 3], ()>(())
        }
    }

    #[verifier::spinoff_prover]
    #[verifier::rlimit(30)]
    fn try_from_atomic_inner(value: u32) -> (r: Result<[u8; 3], ()>) {
        if value < 0x1000000 {
            let bytes = [(value % 256) as u8, (value / 0x100 % 256) as u8, (value / 0x10000 % 256) as u8];
            proof {
                reveal_with_fuel(le_bytes, 4);
                assert(bytes@ =~= le_bytes(value as nat, 3));
            }
            Ok(bytes)
        } else {
            Err(())
        }
    }
}

impl Scalar for [u8; 5] {
    type Atomic = AtomicU64;

    type Error = ();

    /// The value must fit in 5 bytes; its bytes are taken least significant first.
    open spec fn converts(value: u64, r: Result<[u8; 5], ()>) -> bool {
        if value < 0x10000000000 {
            r matches Ok(bytes) && bytes@ == le_bytes(value as nat, 5)
        } else {
            r == Err::<[u8; 5], ()>(())
        }
    }

    #[verifier::spinoff_prover]
    #[verifier::rlimit(30)]
    fn try_from_atomic_inner(value: u64) -> (r: Result<[u8; 5], ()>) {
        if value < 0x10000000000 {
            let bytes = [(value % 256) as u8, (value / 0x100 % 256) as u8, (value / 0x10000 % 256) as u8, (value / 0x1000000 % 256) as u8, (value / 0x100000000 % 256) as u8];
            proof {
                reveal_with_fuel(le_bytes, 6);
                assert(bytes@ =~= le_bytes(value as nat, 5));
            }
            Ok(bytes)
        } else {
            Err(())
        }
    }
}

impl Scalar for [u8; 6] {
    type Atomic = AtomicU64;

    type Error = ();

    /// The value must fit in 6 bytes; its bytes are taken least significant first.
    open spec fn converts(value: u64, r: Result<[u8; 6], ()>) -> bool {
        if value < 0x1000000000000 {
            r matches Ok(bytes) && bytes@ == le_bytes(value as nat, 6)
        } else {
            r == Err::<[u8; 6], ()>(())
        }
    }

    #[verifier::spinoff_prover]
    #[verifier::rlimit(30)]
    fn try_from_atomic_inner(value: u64) -> (r: Result<[u8; 6], ()>) {
        if value < 0x1000000000000 {
            let bytes = [(value % 256) as u8, (value / 0x100 % 256) as u8, (value / 0x10000 % 256) as u8, (value / 0x1000000 % 256) as u8, (value / 0x100000000 % 256) as u8, (value / 0x10000000000 % 256) as u8];
            proof {
                reveal_with_fuel(le_bytes, 7);
                assert(bytes@ =~= le_bytes(value as nat, 6));
            }
            Ok(bytes)
        } else {
            Err(())
        }
    }
}

impl Scalar for [u8; 7] {
    type Atomic = AtomicU64;

    type Error = ();

    /// The value must fit in 7 bytes; its bytes are taken least significant first.
    open spec fn converts(value: u64, r: Result<[u8; 7], ()>) -> bool {
        if value < 0x100000000000000 {
            r matches Ok(bytes) && bytes@ == le_bytes(value as nat, 7)
        } else {
            r == Err::<[u8; 7], ()>(())
        }
    }

    #[verifier::spinoff_prover]
    #[verifier::rlimit(30)]
    fn try_from_atomic_inner(value: u64) -> (r: Result<[u8; 7], ()>) {
        if value < 0x100000000000000 {
            let bytes = [(value % 256) as u8, (value / 0x100 % 256) as u8, (value / 0x10000 % 256) as u8, (value / 0x1000000 % 256) as u8, (value / 0x100000000 % 256) as u8, (value / 0x10000000000 % 256) as u8, (value / 0x1000000000000 % 256) as u8];
            proof {
                reveal_with_fuel(le_bytes, 8);
                assert(bytes@ =~= le_bytes(value as nat, 7));
            }
            Ok(bytes)
        } else {
            Err(())
        }
    }
}

/// A counter of `u8` values advances by exactly one, and stops only at the
/// largest value; each raw value is its own id, so different raw values are
/// different ids.
pub proof fn lemma_u8_counter_steps_by_one(value: u8, other: u8)
    ensures
        <AtomicU8 as Atomic>::spec_next(value) matches Some(next) ==> next == value + 1,
        <AtomicU8 as Atomic>::spec_next(value) is None <==> value == u8::MAX,
        forall|id: Result<u8, Infallible>| <u8 as Scalar>::converts(value, id) ==> id == Ok::<u8, Infallible>(value),
        forall|a: Result<u8, Infallible>, b: Result<u8, Infallible>|
            #![trigger <u8 as Scalar>::converts(value, a), <u8 as Scalar>::converts(other, b)]
            value != other && <u8 as Scalar>::converts(value, a) && <u8 as Scalar>::converts(other, b) ==> a != b,
{
}

/// A counter of `u16` values advances by exactly one, and stops only at the
/// largest value; each raw value is its own id, so different raw values are
/// different ids.
pub proof fn lemma_u16_counter_steps_by_one(value: u16, other: u16)
    ensures
        <AtomicU16 as Atomic>::spec_next(value) matches Some(next) ==> next == value + 1,
        <AtomicU16 as Atomic>::spec_next(value) is None <==> value == u16::MAX,
        forall|id: Result<u16, Infallible>| <u16 as Scalar>::converts(value, id) ==> id == Ok::<u16, Infallible>(value),
        forall|a: Result<u16, Infallible>, b: Result<u16, Infallible>|
            #![trigger <u16 as Scalar>::converts(value, a), <u16 as Scalar>::converts(other, b)]
            value != other && <u16 as Scalar>::converts(value, a) && <u16 as Scalar>::converts(other, b) ==> a != b,
{
}

/// A counter of `u32` values advances by exactly one, and stops only at the
/// largest value; each raw value is its own id, so different raw values are
/// different ids.
pub proof fn lemma_u32_counter_steps_by_one(value: u32, other: u32)
    ensures
        <AtomicU32 as Atomic>::spec_next(value) matches Some(next) ==> next == value + 1,
        <AtomicU32 as Atomic>::spec_next(value) is None <==> value == u32::MAX,
        forall|id: Result<u32, Infallible>| <u32 as Scalar>::converts(value, id) ==> id == Ok::<u32, Infallible>(value),
        forall|a: Result<u32, Infallible>, b: Result<u32, Infallible>|
            #![trigger <u32 as Scalar>::converts(value, a), <u32 as Scalar>::converts(other, b)]
            value != other && <u32 as Scalar>::converts(value, a) && <u32 as Scalar>::converts(other, b) ==> a != b,
{
}

/// A counter of `u64` values advances by exactly one, and stops only at the
/// largest value; each raw value is its own id, so different raw values are
/// different ids.
pub proof fn lemma_u64_counter_steps_by_one(value: u64, other: u64)
    ensures
        <AtomicU64 as Atomic>::spec_next(value) matches Some(next) ==> next == value + 1,
        <AtomicU64 as Atomic>::spec_next(value) is None <==> value == u64::MAX,
        forall|id: Result<u64, Infallible>| <u64 as Scalar>::converts(value, id) ==> id == Ok::<u64, Infallible>(value),
        forall|a: Result<u64, Infallible>, b: Result<u64, Infallible>|
            #![trigger <u64 as Scalar>::converts(value, a), <u64 as Scalar>::converts(other, b)]
            value != other && <u64 as Scalar>::converts(value, a) && <u64 as Scalar>::converts(other, b) ==> a != b,
{
}

/// A counter of `usize` values advances by exactly one, and stops only at the
/// largest value; each raw value is its own id, so different raw values are
/// different ids.
pub proof fn lemma_usize_counter_steps_by_one(value: usize, other: usize)
    ensures
        <AtomicUsize as Atomic>::spec_next(value) matches Some(next) ==> next == value + 1,
        <AtomicUsize as Atomic>::spec_next(value) is None <==> value == usize::MAX,
        forall|id: Result<usize, Infallible>| <usize as Scalar>::converts(value, id) ==> id == Ok::<usize, Infallible>(value),
        forall|a: Result<usize, Infallible>, b: Result<usize, Infallible>|
            #![trigger <usize as Scalar>::converts(value, a), <usize as Scalar>::converts(other, b)]
            value != other && <usize as Scalar>::converts(value, a) && <usize as Scalar>::converts(other, b) ==> a != b,
{
}

/// A counter of `i8` values advances by exactly one, and stops only at the
/// largest value; each raw value is its own id, so different raw values are
/// different ids.
pub proof fn lemma_i8_counter_steps_by_one(value: i8, other: i8)
    ensures
        <AtomicI8 as Atomic>::spec_next(value) matches Some(next) ==> next == value + 1,
        <AtomicI8 as Atomic>::spec_next(value) is None <==> value == i8::MAX,
        forall|id: Result<i8, Infallible>| <i8 as Scalar>::converts(value, id) ==> id == Ok::<i8, Infallible>(value),
        forall|a: Result<i8, Infallible>, b: Result<i8, Infallible>|
            #![trigger <i8 as Scalar>::converts(value, a), <i8 as Scalar>::converts(other, b)]
            value != other && <i8 as Scalar>::converts(value, a) && <i8 as Scalar>::converts(other, b) ==> a != b,
{
}

/// A counter of `i16` values advances by exactly one, and stops only at the
/// largest value; each raw value is its own id, so different raw values are
/// different ids.
pub proof fn lemma_i16_counter_steps_by_one(value: i16, other: i16)
    ensures
        <AtomicI16 as Atomic>::spec_next(value) matches Some(next) ==> next == value + 1,
        <AtomicI16 as Atomic>::spec_next(value) is None <==> value == i16::MAX,
        forall|id: Result<i16, Infallible>| <i16 as Scalar>::converts(value, id) ==> id == Ok::<i16, Infallible>(value),
        forall|a: Result<i16, Infallible>, b: Result<i16, Infallible>|
            #![trigger <i16 as Scalar>::converts(value, a), <i16 as Scalar>::converts(other, b)]
            value != other && <i16 as Scalar>::converts(value, a) && <i16 as Scalar>::converts(other, b) ==> a != b,
{
}

/// A counter of `i32` values advances by exactly one, and stops only at the
/// largest value; each raw value is its own id, so different raw values are
/// different ids.
pub proof fn lemma_i32_counter_steps_by_one(value: i32, other: i32)
    ensures
        <AtomicI32 as Atomic>::spec_next(value) matches Some(next) ==> next == value + 1,
        <AtomicI32 as Atomic>::spec_next(value) is None <==> value == i32::MAX,
        forall|id: Result<i32, Infallible>| <i32 as Scalar>::converts(value, id) ==> id == Ok::<i32, Infallible>(value),
        forall|a: Result<i32, Infallible>, b: Result<i32, Infallible>|
            #![trigger <i32 as Scalar>::converts(value, a), <i32 as Scalar>::converts(other, b)]
            value != other && <i32 as Scalar>::converts(value, a) && <i32 as Scalar>::converts(other, b) ==> a != b,
{
}

/// A counter of `i64` values advances by exactly one, and stops only at the
/// largest value; each raw value is its own id, so different raw values are
/// different ids.
pub proof fn lemma_i64_counter_steps_by_one(value: i64, other: i64)
    ensures
        <AtomicI64 as Atomic>::spec_next(value) matches Some(next) ==> next == value + 1,
        <AtomicI64 as Atomic>::spec_next(value) is None <==> value == i64::MAX,
        forall|id: Result<i64, Infallible>| <i64 as Scalar>::converts(value, id) ==> id == Ok::<i64, Infallible>(value),
        forall|a: Result<i64, Infallible>, b: Result<i64, Infallible>|
            #![trigger <i64 as Scalar>::converts(value, a), <i64 as Scalar>::converts(other, b)]
            value != other && <i64 as Scalar>::converts(value, a) && <i64 as Scalar>::converts(other, b) ==> a != b,
{
}

/// A counter of `isize` values advances by exactly one, and stops only at the
/// largest value; each raw value is its own id, so different raw values are
/// different ids.
pub proof fn lemma_isize_counter_steps_by_one(value: isize, other: isize)
    ensures
        <AtomicIsize as Atomic>::spec_next(value) matches Some(next) ==> next == value + 1,
        <AtomicIsize as Atomic>::spec_next(value) is None <==> value == isize::MAX,
        forall|id: Result<isize, Infallible>| <isize as Scalar>::converts(value, id) ==> id == Ok::<isize, Infallible>(value),
        forall|a: Result<isize, Infallible>, b: Result<isize, Infallible>|
            #![trigger <isize as Scalar>::converts(value, a), <isize as Scalar>::converts(other, b)]
            value != other && <isize as Scalar>::converts(value, a) && <isize as Scalar>::converts(other, b) ==> a != b,
{
}

/// A boolean counter advances once, from `false` to `true`, and only the
/// value `false` makes an id.
pub proof fn lemma_bool_counter_steps_once(value: bool)
    ensures
        <AtomicBool as Atomic>::spec_next(value) is Some <==> !value,
        <AtomicBool as Atomic>::spec_next(value) matches Some(next) ==> next,
        forall|r: Result<(), ()>| <() as Scalar>::converts(value, r) ==> (r is Ok <==> !value),
{
}

/// Different raw values that fit in 3 bytes make different `[u8; 3]` ids.
pub proof fn lemma_bytes_3_ids_distinct(a: u32, b: u32, x: [u8; 3], y: [u8; 3])
    requires
        <[u8; 3] as Scalar>::converts(a, Ok(x)),
        <[u8; 3] as Scalar>::converts(b, Ok(y)),
        a != b,
    ensures
        x != y,
        x@ == le_bytes(a as nat, 3),
{
    reveal_with_fuel(pow256, 4);
    if x == y {
        lemma_le_bytes_injective(a as nat, b as nat, 3);
    }
}

/// Different raw values that fit in 5 bytes make different `[u8; 5]` ids.
pub proof fn lemma_bytes_5_ids_distinct(a: u64, b: u64, x: [u8; 5], y: [u8; 5])
    requires
        <[u8; 5] as Scalar>::converts(a, Ok(x)),
        <[u8; 5] as Scalar>::converts(b, Ok(y)),
        a != b,
    ensures
        x != y,
        x@ == le_bytes(a as nat, 5),
{
    reveal_with_fuel(pow256, 6);
    if x == y {
        lemma_le_bytes_injective(a as nat, b as nat, 5);
    }
}

/// Different raw values that fit in 6 bytes make different `[u8; 6]` ids.
pub proof fn lemma_bytes_6_ids_distinct(a: u64, b: u64, x: [u8; 6], y: [u8; 6])
    requires
        <[u8; 6] as Scalar>::converts(a, Ok(x)),
        <[u8; 6] as Scalar>::converts(b, Ok(y)),
        a != b,
    ensures
        x != y,
        x@ == le_bytes(a as nat, 6),
{
    reveal_with_fuel(pow256, 7);
    if x == y {
        lemma_le_bytes_injective(a as nat, b as nat, 6);
    }
}

/// Different raw values that fit in 7 bytes make different `[u8; 7]` ids.
pub proof fn lemma_bytes_7_ids_distinct(a: u64, b: u64, x: [u8; 7], y: [u8; 7])
    requires
        <[u8; 7] as Scalar>::converts(a, Ok(x)),
        <[u8; 7] as Scalar>::converts(b, Ok(y)),
        a != b,
    ensures
        x != y,
        x@ == le_bytes(a as nat, 7),
{
    reveal_with_fuel(pow256, 8);
    if x == y {
        lemma_le_bytes_injective(a as nat, b as nat, 7);
    }
}

} // verus!
