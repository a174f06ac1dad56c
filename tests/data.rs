use t10::data::{DynBase, GcInfo, Location, TypeCheckInfo, TypeIdent, ValueType, Wrapper};

#[test]
fn gc_info_byte_round_trip() {
    let all = [
        GcInfo::Owned,
        GcInfo::SharedWithHost,
        GcInfo::MutSharedWithHost,
        GcInfo::MovedToHost,
        GcInfo::Dropped,
        GcInfo::Null,
        GcInfo::OnStack,
    ];
    for (i, g) in all.iter().enumerate() {
        assert_eq!(g.to_u8() as usize, i);
        assert_eq!(GcInfo::from_u8(i as u8), *g);
    }
}

#[test]
fn value_type_byte_round_trip() {
    assert_eq!(ValueType::from_u8(1), ValueType::Int);
    assert_eq!(ValueType::from_u8(2), ValueType::Float);
    assert_eq!(ValueType::from_u8(6), ValueType::AnyType);
    assert_eq!(ValueType::Bool.to_u8(), 5);
    assert_eq!(ValueType::AnyType.ident(), TypeIdent::DynAny);
    assert_eq!(ValueType::Char.ident(), TypeIdent::Char);
}

#[test]
fn owned_container_points_at_its_own_slot() {
    let source: (i64, i64) = (4, 5);
    let w = Wrapper::owned(source, TypeIdent::Custom(1));
    assert_eq!(w.gc_info(), GcInfo::Owned);
    match w.get_ptr() {
        Location::Inline(p) => {
            assert!(std::ptr::eq(p, w.borrow_value()));
            assert!(!std::ptr::eq(p, &source));
            assert_eq!(*p, (4, 5));
        }
        Location::Host(_) => panic!("an owned container reports its inline slot"),
    }
}

#[test]
fn shared_container_points_at_host_data() {
    let host: i64 = 42;
    let w = Wrapper::shared(&host, TypeIdent::Int);
    assert_eq!(w.gc_info(), GcInfo::SharedWithHost);
    let moved = w;
    match moved.get_ptr() {
        Location::Host(p) => assert!(std::ptr::eq(p, &host)),
        Location::Inline(_) => panic!("a shared container reports the host address"),
    }
    assert!(std::ptr::eq(moved.borrow_ptr(), &host));
}

#[test]
fn mut_shared_container_points_at_host_data() {
    let mut host: u8 = 9;
    let w = Wrapper::mut_shared(&mut host, TypeIdent::Byte);
    assert_eq!(w.gc_info(), GcInfo::MutSharedWithHost);
    let boxed = Box::new(w);
    match boxed.get_ptr() {
        Location::Host(p) => {
            assert!(std::ptr::eq(p, boxed.borrow_ptr()));
            assert_eq!(*p, 9);
        }
        Location::Inline(_) => panic!("a shared container reports the host address"),
    }
    drop(boxed);
    assert_eq!(host, 9);
}

#[test]
fn move_out_hands_over_once() {
    let mut w = Wrapper::owned(vec![1u8, 2, 3], TypeIdent::Custom(7));
    let out = w.move_out_ck(TypeIdent::Custom(7));
    assert_eq!(out, vec![1, 2, 3]);
    assert_eq!(w.gc_info(), GcInfo::MovedToHost);
    assert_eq!(w.dyn_type_id(), TypeIdent::Custom(7));
}

#[test]
fn unchecked_move_out_and_take_value() {
    let mut w = Wrapper::owned(String::from("abc"), TypeIdent::Custom(2));
    assert_eq!(w.move_out(), "abc");
    assert_eq!(w.gc_info(), GcInfo::MovedToHost);
    let mut v = Wrapper::owned(5i64, TypeIdent::Int);
    assert_eq!(v.take_value(), 5);
    assert_eq!(v.gc_info(), GcInfo::Owned);
}

#[test]
fn destroy_sets_dropped() {
    let mut w = Wrapper::owned(String::from("x"), TypeIdent::Custom(3));
    w.destroy();
    assert_eq!(w.gc_info(), GcInfo::Dropped);
    let host = 1i64;
    let mut s = Wrapper::shared(&host, TypeIdent::Int);
    s.destroy();
    assert_eq!(s.gc_info(), GcInfo::Dropped);
    assert_eq!(host, 1);
}

#[test]
fn set_gc_info_writes_state() {
    let mut w = Wrapper::owned(1i64, TypeIdent::Int);
    w.set_gc_info(GcInfo::SharedWithHost);
    assert_eq!(w.gc_info(), GcInfo::SharedWithHost);
    w.set_gc_info(GcInfo::Owned);
    assert_eq!(w.gc_info(), GcInfo::Owned);
    assert_eq!(w.dyn_tyck_info(), TypeCheckInfo { ident: TypeIdent::Int });
}
