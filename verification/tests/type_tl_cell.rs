use icell::hlist::{Cons, Nil};
use icell::typeid::macros::UnsafeCreate;
use icell::typeid::{Type, TypeId};
use icell::typeid_tl::{self, ICell};

struct TestCreate;

#[test]
fn type_tl_cell_create() {
    let mut taken = false;
    let owner = typeid_tl::try_owner(&mut taken, TestCreate)
        .expect("attempted a reentrant acquire of a `Type<TestCreate>`");
    assert_eq!(std::mem::size_of_val(&owner), 0);
}

struct TestReentrant;

#[test]
#[should_panic = "attempted a reentrant acquire of a `Type<TestReentrant>`"]
fn reentrant() {
    let mut taken = false;
    let _owner = typeid_tl::try_owner(&mut taken, TestReentrant)
        .expect("attempted a reentrant acquire of a `Type<TestReentrant>`");
    assert!(typeid_tl::try_owner(&mut taken, TestReentrant).is_none());
    let _owner = typeid_tl::try_owner(&mut taken, TestReentrant)
        .expect("attempted a reentrant acquire of a `Type<TestReentrant>`");
}

struct Test;

fn owner(taken: &mut bool) -> typeid_tl::Owner<Test> {
    typeid_tl::try_owner(taken, Test).expect("attempted a reentrant acquire of a `Type<Test>`")
}

#[test]
fn type_tl_cell_read() {
    let mut taken = false;
    let owner = owner(&mut taken);
    assert_eq!(std::mem::size_of_val(&owner), 0);

    let cell = ICell::new(0xdead_beef_u32);

    assert_eq!(*owner.read(&cell), 0xdead_beef);
}

#[test]
fn type_tl_cell_write() {
    let mut taken = false;
    let mut owner = owner(&mut taken);
    assert_eq!(std::mem::size_of_val(&owner), 0);

    let mut cell = ICell::new(0xdead_beef_u32);

    let value = owner.write(&mut cell);
    *value = 0;

    assert_eq!(*owner.read(&cell), 0);
}

#[test]
fn type_tl_cell_write_all() {
    let mut taken = false;
    let mut owner = owner(&mut taken);
    assert_eq!(std::mem::size_of_val(&owner), 0);

    let mut a = ICell::new(0xdead_beef_u32);
    let mut b = ICell::new(0xbeef_dead_u32);
    let mut c = ICell::new(0xdead_baaf_u32);
    let mut d = ICell::new(0xdeed_beef_u32);

    {
        let Cons(a, Cons(b, Cons(c, Cons(d, Nil)))) =
            owner.write_all(Cons(&mut a, Cons(&mut b, Cons(&mut c, Cons(&mut d, Nil)))));

        std::mem::swap(a, b);
        std::mem::swap(c, d);
        std::mem::swap(a, d);
    }

    let &a = owner.read(&a);
    let &b = owner.read(&b);
    let &c = owner.read(&c);
    let &d = owner.read(&d);

    assert_eq!(a, 0xdead_baaf);
    assert_eq!(b, 0xdead_beef);
    assert_eq!(c, 0xdeed_beef);
    assert_eq!(d, 0xbeef_dead);
}

#[test]
fn read_from_fresh() {
    let mut taken = false;
    let owner = owner(&mut taken);
    assert_eq!(std::mem::size_of_val(&owner), 0);

    let cell = owner.cell::<u32>(0xdead_beef);

    drop(owner);
    typeid_tl::release(&mut taken);
    let owner = self::owner(&mut taken);

    assert_eq!(*owner.read(&cell), 0xdead_beef);
}

#[test]
fn type_tl_release_allows_next_owner() {
    let mut taken = false;
    assert!(typeid_tl::try_owner(&mut taken, Test).is_some());
    assert!(taken);
    assert!(typeid_tl::try_owner(&mut taken, Test).is_none());
    assert!(taken);
    typeid_tl::release(&mut taken);
    assert!(!taken);
    assert!(typeid_tl::try_owner(&mut taken, Test).is_some());
}

#[test]
fn typeid_owner_accepts_forged_cells() {
    let mut owner = icell::Owner::new(Type::new_unchecked(UnsafeCreate::new()));
    let mut cell = icell::typeid::ICell::<UnsafeCreate, i64>::from_raw_parts(TypeId::new(), -1);
    *owner.write(&mut cell) *= -5;
    assert_eq!(*owner.read(&cell), 5);
}

#[test]
fn type_ids_are_all_equal() {
    assert!(TypeId::<Test>::new() == TypeId::<Test>::new());
    assert_eq!(TypeId::<u8>::new().cmp(&TypeId::<u8>::new()), std::cmp::Ordering::Equal);
    assert_eq!(
        typeid_tl::TypeId::<u8>::new().partial_cmp(&typeid_tl::TypeId::<u8>::new()),
        Some(std::cmp::Ordering::Equal)
    );
    assert_eq!(std::mem::size_of::<TypeId<Test>>(), 0);
}

#[test]
fn scoped_ids_are_all_equal() {
    let a = icell::scoped::ScopedId::new();
    let b = icell::scoped::ScopedId::default();
    assert!(a == b);
    assert_eq!(a.cmp(&b), std::cmp::Ordering::Equal);
}
