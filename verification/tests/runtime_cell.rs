use std::sync::atomic::{AtomicBool, AtomicU64, Ordering};
use std::sync::Mutex;

use icell::hlist::{Cons, Nil};
use icell::runtime::builder::{Atomic, Scalar};
use icell::runtime::{Counter, Reuse, Runtime};
use icell::Identifier;

static GLOBAL: AtomicU64 = AtomicU64::new(0);

fn fresh_owner() -> icell::runtime::Owner {
    Runtime::try_owner(&GLOBAL).expect("Tried to overflow ids!")
}

#[test]
fn runtime_cell_create() {
    let owner = fresh_owner();
    assert_eq!(std::mem::size_of_val(&owner), 6);
}

#[derive(Clone, Copy, PartialEq, Eq, Debug)]
struct Once(());

static ONCE: AtomicBool = AtomicBool::new(false);

impl Counter for Once {
    type Source = AtomicBool;

    fn draws(_source: &AtomicBool, _r: Option<Self>) -> bool {
        true
    }

    fn same(&self, other: &Self) -> bool {
        self == other
    }

    fn try_next(source: &AtomicBool) -> Option<Self> {
        source
            .fetch_update(Ordering::Relaxed, Ordering::Relaxed, |value| {
                match <() as Scalar>::try_from_atomic_inner(value) {
                    Ok(()) => <AtomicBool as Atomic>::next(value),
                    Err(()) => None,
                }
            })
            .ok()
            .map(|_| Once(()))
    }
}

#[derive(Clone, Copy, PartialEq, Eq, Debug)]
struct OnceReuse;

static ONCE_POOL: Mutex<Vec<Once>> = Mutex::new(Vec::new());

impl Reuse<Once> for OnceReuse {
    fn puts(_pool: Self, _value: Once, _after: Self) -> bool {
        true
    }

    fn takes(_pool: Self, _after: Self, _taken: Option<Once>) -> bool {
        true
    }

    fn put(&mut self, value: Once) {
        ONCE_POOL.lock().unwrap().push(value);
    }

    fn take(&mut self) -> Option<Once> {
        ONCE_POOL.lock().unwrap().pop()
    }
}

#[test]
fn create_once_with_reuse() {
    type Runtime = icell::runtime::Runtime<Once, OnceReuse>;

    let owner = match Runtime::try_with_counter_and_reuse(OnceReuse, &ONCE) {
        Ok(owner) => owner,
        Err(_) => panic!("Tried to overflow ids!"),
    };
    assert!(Runtime::try_with_counter_and_reuse(OnceReuse, &ONCE).is_err());
    assert_eq!(std::mem::size_of_val(&owner), 0);
    owner.release();
    assert!(Runtime::try_with_counter_and_reuse(OnceReuse, &ONCE).is_ok());
}

#[test]
fn runtime_cell_read() {
    let owner = fresh_owner();
    assert_eq!(std::mem::size_of_val(&owner), 6);

    let cell = owner.cell::<u32>(0xdead_beef);

    assert_eq!(*owner.read(&cell), 0xdead_beef);
}

#[test]
fn runtime_cell_write() {
    let mut owner = fresh_owner();
    assert_eq!(std::mem::size_of_val(&owner), 6);

    let mut cell = owner.cell::<u32>(0xdead_beef);

    let value = owner.write(&mut cell);
    *value = 0;

    assert_eq!(*owner.read(&cell), 0);
}

#[test]
fn runtime_cell_write_all() {
    let mut owner = fresh_owner();
    assert_eq!(std::mem::size_of_val(&owner), 6);

    let mut a = owner.cell::<u32>(0xdead_beef);
    let mut b = owner.cell::<u32>(0xbeef_dead);
    let mut c = owner.cell::<u32>(0xdead_baaf);
    let mut d = owner.cell::<u32>(0xdeed_beef);

    {
        let Cons(a, Cons(b, Cons(c, Cons(d, Nil)))) =
            owner.write_all(Cons(&mut a, Cons(&mut b, Cons(&mut c, Cons(&mut d, Nil)))));

        std::mem::swap(a, b);
        std::mem::swap(c, d);
        std::mem::swap(a, d);
    }

    let &a = owner.read(&a);
    let &b = owner.read(&b);
    let &c = owner.read(&c);
    let &d = owner.read(&d);

    assert_eq!(a, 0xdead_baaf);
    assert_eq!(b, 0xdead_beef);
    assert_eq!(c, 0xdeed_beef);
    assert_eq!(d, 0xbeef_dead);
}

#[test]
#[should_panic = "Tried to read using an unrelated owner"]
fn runtime_cell_read_unrelated() {
    let owner = fresh_owner();
    assert_eq!(std::mem::size_of_val(&owner), 6);

    let cell = owner.cell::<u32>(0xdead_beef);

    let owner = fresh_owner();

    assert_eq!(*owner.read(&cell), 0xdead_beef);
}

#[test]
fn runtime_same_raw_value_same_owner() {
    let first = AtomicU64::new(5);
    let second = AtomicU64::new(5);
    let a = Runtime::try_owner(&first).unwrap();
    let b = Runtime::try_owner(&second).unwrap();
    assert_eq!(first.load(Ordering::Relaxed), 6);
    let cell = a.cell(10u8);
    assert_eq!(*b.read(&cell), 10);
}

#[test]
fn runtime_exhausted_counter_gives_no_owner() {
    let source = AtomicU64::new(1 << 48);
    assert!(Runtime::try_owner(&source).is_none());
    assert!(Runtime::try_new(&source).is_none());
    assert_eq!(source.load(Ordering::Relaxed), 1 << 48);
    let last = AtomicU64::new((1 << 48) - 1);
    assert!(Runtime::try_new(&last).is_some());
    assert_eq!(last.load(Ordering::Relaxed), 1 << 48);
    assert!(Runtime::try_new(&last).is_none());
}

#[test]
fn runtime_with_counter_uses_the_counter_type() {
    let source = std::sync::atomic::AtomicU32::new(u32::MAX - 1);
    let owner = Runtime::<icell::runtime::SmallGlobal>::try_owner_with_counter(&source).unwrap();
    assert_eq!(std::mem::size_of_val(&owner), 4);
    assert_eq!(source.load(Ordering::Relaxed), u32::MAX);
    assert!(Runtime::<icell::runtime::SmallGlobal>::try_with_counter(&source).is_none());
    let cell = owner.cell(3u8);
    assert_eq!(*owner.read(&cell), 3);
}

#[test]
fn runtime_from_id_assembles_or_returns_pool() {
    type Runtime = icell::runtime::Runtime<Once, OnceReuse>;
    assert!(matches!(Runtime::from_id(None, OnceReuse), Err(OnceReuse)));
    let runtime = match Runtime::from_id(Some(Once(())), OnceReuse) {
        Ok(runtime) => runtime,
        Err(_) => panic!("an id was given"),
    };
    assert_eq!(std::mem::size_of_val(&runtime), 0);
}

#[test]
fn runtime_id_cell_is_read_by_its_owner() {
    let owner_ident = Runtime::try_new(&GLOBAL).unwrap();
    let id = owner_ident.id();
    assert!(owner_ident.check_id(&id));
    let owner = icell::Owner::new(owner_ident);
    let cell = id.cell(String::from("kept"));
    assert_eq!(owner.read(&cell), "kept");
    let released = owner.into_ident();
    let other = Runtime::try_new(&GLOBAL).unwrap();
    assert!(!other.check_id(&id));
    let _ = released.release();
}

#[test]
fn counter_types_make_owners() {
    let source = AtomicU64::new(3);
    let owner = icell::runtime::Global::try_owner(&source).unwrap();
    assert_eq!(source.load(Ordering::Relaxed), 4);
    let cell = owner.cell(1u8);
    assert_eq!(*owner.read(&cell), 1);
    let small = std::sync::atomic::AtomicU32::new(u32::MAX);
    assert!(icell::runtime::SmallGlobal::try_owner(&small).is_none());
}

#[test]
fn runtime_ids_compare_by_counter() {
    let source = AtomicU64::new(0);
    let a = Runtime::try_new(&source).unwrap();
    let b = Runtime::try_new(&source).unwrap();
    assert!(a.id() == a.id());
    assert!(a.id() != b.id());
    assert!(a.id() < b.id());
}
