use icell::hlist::{Cons, Nil};
use icell::scoped::{self, ICell};

#[test]
fn generative_cell_create() {
    scoped::with(|owner| {
        assert_eq!(std::mem::size_of_val(&owner), 0);
    });
}

#[test]
fn generative_cell_read() {
    scoped::with(|owner| {
        assert_eq!(std::mem::size_of_val(&owner), 0);

        let cell = ICell::<u32>::new(0xdead_beef);

        assert_eq!(*owner.read(&cell), 0xdead_beef);
    });
}

#[test]
fn generative_cell_write() {
    scoped::with(|mut owner| {
        assert_eq!(std::mem::size_of_val(&owner), 0);

        let mut cell = ICell::<u32>::new(0xdead_beef);

        let value = owner.write(&mut cell);
        *value = 0;

        assert_eq!(*owner.read(&cell), 0);
    });
}

#[test]
fn generative_cell_write_all() {
    scoped::with(|mut owner| {
        assert_eq!(std::mem::size_of_val(&owner), 0);

        let mut a = ICell::<u32>::new(0xdead_beef);
        let mut b = ICell::<u32>::new(0xbeef_dead);
        let mut c = ICell::<u32>::new(0xdead_baaf);
        let mut d = ICell::<u32>::new(0xdeed_beef);

        {
            let Cons(a, Cons(b, Cons(c, Cons(d, Nil)))) = owner.write_all(Cons(
                &mut a,
                Cons(&mut b, Cons(&mut c, Cons(&mut d, Nil))),
            ));

            std::mem::swap(a, b);
            std::mem::swap(c, d);
            std::mem::swap(a, d);
        }

        let &a = owner.read(&a);
        let &b = owner.read(&b);
        let &c = owner.read(&c);
        let &d = owner.read(&d);

        assert_eq!(a, 0xdead_baaf);
        assert_eq!(b, 0xdead_beef);
        assert_eq!(c, 0xdeed_beef);
        assert_eq!(d, 0xbeef_dead);
    });
}

#[test]
fn scoped_write_4_matches_write_all() {
    scoped::with(|mut owner| {
        let mut a = ICell::<u32>::new(0xdead_beef);
        let mut b = ICell::<u32>::new(0xbeef_dead);
        let mut c = ICell::<u32>::new(0xdead_baaf);
        let mut d = ICell::<u32>::new(0xdeed_beef);

        {
            let (a, b, c, d) = owner.write_4(&mut a, &mut b, &mut c, &mut d);
            std::mem::swap(a, b);
            std::mem::swap(c, d);
            std::mem::swap(a, d);
        }

        assert_eq!(*owner.read(&a), 0xdead_baaf);
        assert_eq!(*owner.read(&b), 0xdead_beef);
        assert_eq!(*owner.read(&c), 0xdeed_beef);
        assert_eq!(*owner.read(&d), 0xbeef_dead);
    });
}

#[test]
fn scoped_swap_twice_restores() {
    scoped::with(|mut owner| {
        let mut a = owner.cell(1u8);
        let mut b = owner.cell(2u8);
        owner.swap(&mut a, &mut b);
        assert_eq!((*owner.read(&a), *owner.read(&b)), (2, 1));
        owner.swap(&mut a, &mut b);
        assert_eq!((*owner.read(&a), *owner.read(&b)), (1, 2));
    });
}

#[test]
fn scoped_write_2_and_3() {
    scoped::with(|mut owner| {
        let mut a = owner.cell(1u8);
        let mut b = owner.cell(String::from("x"));
        let mut c = owner.cell(3u64);
        {
            let (x, y) = owner.write_2(&mut a, &mut b);
            *x += 10;
            y.push('y');
        }
        {
            let (x, y, z) = owner.write_3(&mut a, &mut b, &mut c);
            *x += 1;
            y.push('z');
            *z *= 2;
        }
        assert_eq!(*owner.read(&a), 12);
        assert_eq!(owner.read(&b).as_str(), "xyz");
        assert_eq!(*owner.read(&c), 6);
    });
}

#[test]
fn scoped_with_returns_closure_result() {
    let r = scoped::with(|owner| {
        let cell = owner.cell(41u32);
        *owner.read(&cell) + 1
    });
    assert_eq!(r, 42);
}

#[test]
fn generative_owner_reads_its_cells() {
    let r = icell::generative::Generative::with(|mut owner| {
        let mut cell = icell::generative::ICell::<u16>::new(7);
        *owner.write(&mut cell) += 1;
        *owner.read(&cell)
    });
    assert_eq!(r, 8);
}

#[test]
fn cell_retag_and_into_inner_keep_contents() {
    let cell = icell::ICell::from_raw_parts(3u8, String::from("abc"));
    assert_eq!(*cell.id(), 3);
    let cell = cell.retag(9u16);
    assert_eq!(*cell.id(), 9);
    assert_eq!(cell.into_inner(), "abc");
}

#[test]
fn cell_get_mut_writes_contents() {
    let mut cell = icell::ICell::from_raw_parts((), 5i32);
    *cell.get_mut() -= 8;
    assert_eq!(cell.into_inner(), -3);
}
