use refcap::{Mut, Own, Readable, Ref, Writable};

#[test]
fn ref_reads_the_given_value() {
    let v: u64 = 5;
    let r = Ref::new(&v);
    assert_eq!(*r.get(), 5);
    assert_eq!(*r.into_inner(), 5);
}

#[test]
fn ref_round_trip_is_identity() {
    let v: u64 = 11;
    let out = refcap::read::view_round_trip(&v);
    assert_eq!(*out, 11);
}

#[test]
fn ref_duplicates_read_alike() {
    let v: u64 = 9;
    let r1 = Ref::new(&v);
    let r2 = r1.clone();
    assert_eq!(*r1.get(), *r2.get());
    assert_eq!(*r2.get(), 9);
}

#[test]
fn ref_over_a_slice() {
    let v: Vec<u64> = vec![1, 2, 3];
    let r: Ref<[u64]> = Ref::new(&v[..]);
    assert_eq!(r.get().len(), 3);
    assert_eq!(r.get(), &[1, 2, 3][..]);
}

#[test]
fn ref_over_a_zero_sized_value() {
    let unit = ();
    let r = Ref::new(&unit);
    assert_eq!(*r.get(), ());
}

#[test]
fn ref_over_an_unsized_str() {
    let r: Ref<str> = Ref::new("view");
    assert_eq!(r.get().len(), 4);
    assert_eq!(r.get(), "view");
}

#[test]
fn own_round_trip_returns_the_value() {
    let o = Own::new(41u64);
    assert_eq!(o.into_inner(), 41);
    assert_eq!(refcap::own::own_round_trip(String::from("held")), "held");
}

#[test]
fn own_reads_and_writes() {
    let mut o = Own::new(5u64);
    assert_eq!(*o.get(), 5);
    *o.get_mut() = 6;
    assert_eq!(*o.get(), 6);
    assert_eq!(o.into_inner(), 6);
}

#[test]
fn own_is_duplicable_when_the_value_is() {
    let o = Own::new(7u64);
    let copy = o.clone();
    assert_eq!(copy.into_inner(), 7);
    assert_eq!(o.into_inner(), 7);
}

#[test]
fn mut_write_is_visible_through_into_inner() {
    let mut x: u64 = 5;
    {
        let mut m = Mut::new(&mut x);
        assert_eq!(*m.get(), 5);
        *m.get_mut() = 7;
        let r = m.into_inner();
        assert_eq!(*r, 7);
    }
    assert_eq!(x, 7);
}

#[test]
fn mut_write_lands_in_the_storage() {
    let mut x: u64 = 1;
    {
        let r = refcap::write::write_then_take(&mut x, 3);
        assert_eq!(*r, 3);
    }
    assert_eq!(x, 3);
}

#[test]
fn read_capability_agrees_with_get() {
    let v: u64 = 12;
    let r = Ref::new(&v);
    assert_eq!(*r.as_read(), *r.get());

    let mut y: u64 = 13;
    let m = Mut::new(&mut y);
    assert_eq!(*m.as_read(), 13);

    let o = Own::new(14u64);
    assert_eq!(*o.as_read(), *o.get());
}

#[test]
fn write_capability_agrees_with_get_mut() {
    let mut y: u64 = 20;
    {
        let mut m = Mut::new(&mut y);
        *m.as_write() = 21;
        assert_eq!(*m.get(), 21);
    }
    assert_eq!(y, 21);

    let mut o = Own::new(30u64);
    *o.as_write() = 31;
    assert_eq!(*o.get(), 31);
    assert_eq!(o.into_inner(), 31);
}
