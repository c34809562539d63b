use std::sync::atomic::{AtomicBool, AtomicI8, AtomicU16, AtomicU32, AtomicU64, AtomicU8, Ordering};

use icell::runtime::builder::{from_claim, step, Atomic, Scalar};
use icell::runtime::{Counter, Global, SmallGlobal};
use icell::typeid::macros::{held_by_current_thread, spin, Flag, SPIN_LIMIT};

#[test]
fn atomic_next_counts_up_to_the_maximum() {
    assert_eq!(<AtomicU8 as Atomic>::next(0), Some(1));
    assert_eq!(<AtomicU8 as Atomic>::next(254), Some(255));
    assert_eq!(<AtomicU8 as Atomic>::next(255), None);
    assert_eq!(<AtomicI8 as Atomic>::next(-128), Some(-127));
    assert_eq!(<AtomicI8 as Atomic>::next(127), None);
    assert_eq!(<AtomicU64 as Atomic>::next(u64::MAX), None);
}

#[test]
fn atomic_init_holds_the_minimum() {
    assert_eq!(<AtomicU8 as Atomic>::init().load(Ordering::Relaxed), 0);
    assert_eq!(<AtomicI8 as Atomic>::init().load(Ordering::Relaxed), i8::MIN);
    assert!(!<AtomicBool as Atomic>::init().load(Ordering::Relaxed));
}

#[test]
fn bool_counter_advances_once() {
    assert_eq!(<AtomicBool as Atomic>::next(false), Some(true));
    assert_eq!(<AtomicBool as Atomic>::next(true), None);
    assert_eq!(<() as Scalar>::try_from_atomic_inner(false), Ok(()));
    assert_eq!(<() as Scalar>::try_from_atomic_inner(true), Err(()));
}

#[test]
fn integer_scalars_are_the_raw_value() {
    assert_eq!(<u32 as Scalar>::try_from_atomic_inner(77), Ok(77));
    assert_eq!(<i16 as Scalar>::try_from_atomic_inner(-3), Ok(-3));
}

#[test]
fn short_byte_ids_are_little_endian_and_must_fit() {
    assert_eq!(<[u8; 3] as Scalar>::try_from_atomic_inner(0x00ab_cdef), Ok([0xef, 0xcd, 0xab]));
    assert_eq!(<[u8; 3] as Scalar>::try_from_atomic_inner(0x0100_0000), Err(()));
    assert_eq!(<[u8; 5] as Scalar>::try_from_atomic_inner(0x01_0203_0405), Ok([5, 4, 3, 2, 1]));
    assert_eq!(<[u8; 5] as Scalar>::try_from_atomic_inner(1 << 40), Err(()));
    assert_eq!(
        <[u8; 6] as Scalar>::try_from_atomic_inner(0x0102_0304_0506),
        Ok([6, 5, 4, 3, 2, 1])
    );
    assert_eq!(<[u8; 6] as Scalar>::try_from_atomic_inner(1 << 48), Err(()));
    assert_eq!(
        <[u8; 7] as Scalar>::try_from_atomic_inner(0x0001_0203_0405_0607),
        Ok([7, 6, 5, 4, 3, 2, 1])
    );
    assert_eq!(<[u8; 7] as Scalar>::try_from_atomic_inner(1 << 56), Err(()));
}

#[test]
fn native_byte_ids_follow_the_machine_order() {
    assert_eq!(<[u8; 2] as Scalar>::try_from_atomic_inner(0x1234), Ok(0x1234u16.to_ne_bytes()));
    assert_eq!(
        <[u8; 4] as Scalar>::try_from_atomic_inner(0x1234_5678),
        Ok(0x1234_5678u32.to_ne_bytes())
    );
    assert_eq!(
        <[u8; 8] as Scalar>::try_from_atomic_inner(0x0102_0304_0506_0708),
        Ok(0x0102_0304_0506_0708u64.to_ne_bytes())
    );
    assert_ne!(<[u8; 2] as Scalar>::try_from_atomic_inner(0x1234), Ok([0, 0]));
}

#[test]
fn global_steps_stop_at_six_bytes() {
    assert_eq!(Global::step(0), Some(1));
    assert_eq!(Global::step((1 << 48) - 1), Some(1 << 48));
    assert_eq!(Global::step(1 << 48), None);
    assert_eq!(SmallGlobal::step(u32::MAX - 1), Some(u32::MAX));
    assert_eq!(SmallGlobal::step(u32::MAX), None);
}

#[test]
fn counters_draw_distinct_ids() {
    let source = AtomicU64::new(0);
    let a = Global::try_next(&source).unwrap();
    let b = Global::try_next(&source).unwrap();
    assert!(a.same(&a));
    assert!(!a.same(&b));
    let small = AtomicU32::new(0);
    let c = SmallGlobal::try_next(&small).unwrap();
    let d = SmallGlobal::try_next(&small).unwrap();
    assert!(!c.same(&d));
    assert!(d.same(&d));
    let _ = AtomicU16::new(0);
}

#[test]
fn spin_backoff_grows_to_the_limit() {
    assert_eq!(spin(0), 1);
    assert_eq!(spin(5), 6);
    assert_eq!(spin(SPIN_LIMIT), SPIN_LIMIT + 1);
    assert_eq!(spin(SPIN_LIMIT + 1), SPIN_LIMIT + 1);
}

#[test]
fn flag_is_taken_once_until_released() {
    let flag = Flag::new();
    flag.init();
    let mut taken = false;
    for _ in 0..100 {
        if flag.try_acquire() {
            taken = true;
            break;
        }
    }
    assert!(taken);
    assert!(!flag.try_acquire());
    flag.release();
    let mut again = false;
    for _ in 0..100 {
        if flag.try_acquire() {
            again = true;
            break;
        }
    }
    assert!(again);
}

#[test]
fn generic_step_needs_an_id_and_room() {
    assert_eq!(step::<[u8; 3]>(0x00ff_fffe), Some(0x00ff_ffff));
    assert_eq!(step::<[u8; 3]>(0x00ff_ffff), Some(0x0100_0000));
    assert_eq!(step::<[u8; 3]>(0x0100_0000), None);
    assert_eq!(step::<u8>(255), None);
    assert_eq!(step::<()>(false), Some(true));
    assert_eq!(step::<()>(true), None);
}

#[test]
fn generic_from_claim_makes_the_id() {
    assert_eq!(from_claim::<[u8; 3]>(Ok(0x0001_0203)), Some([3, 2, 1]));
    assert_eq!(from_claim::<[u8; 3]>(Ok(0x0100_0000)), None);
    assert_eq!(from_claim::<[u8; 3]>(Err(7)), None);
    assert_eq!(from_claim::<u16>(Ok(9)), Some(9));
    assert_eq!(from_claim::<()>(Ok(false)), Some(()));
}

#[test]
fn same_thread_holder_gives_up() {
    assert!(held_by_current_thread(42, 42));
    assert!(!held_by_current_thread(42, 43));
}

#[test]
fn global_ids_order_by_bytes() {
    let source = AtomicU64::new(1);
    let a = Global::try_next(&source).unwrap();
    let b = Global::try_next(&source).unwrap();
    assert!(a == a);
    assert!(a != b);
    assert!(a < b);
}
