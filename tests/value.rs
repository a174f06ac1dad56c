use t10::data::{DynBase, GcInfo, TypeIdent, ValueType, Wrapper};
use t10::value::Value;

type V<'a> = Value<'a, Wrapper<'a, (i64, i64)>>;

#[test]
fn scalar_round_trip() {
    for v in [0i64, -1, i64::MAX, i64::MIN, 42] {
        let x = V::from_int(v);
        assert!(x.is_value() && !x.is_ptr() && !x.is_null());
        assert_eq!(x.type_id(), TypeIdent::Int);
        assert_eq!(x.value_type(), ValueType::Int);
        assert_eq!(x.as_int(), v);
    }
    let f = V::from_float_bits(1.5f64.to_bits());
    assert!(f.is_value() && !f.is_ptr() && !f.is_null());
    assert_eq!(f.type_id(), TypeIdent::Float);
    assert_eq!(f64::from_bits(f.as_float_bits()), 1.5);
    let c = V::from_char('λ');
    assert_eq!(c.type_id(), TypeIdent::Char);
    assert_eq!(c.as_char(), 'λ');
    let b = V::from_byte(255);
    assert_eq!(b.type_id(), TypeIdent::Byte);
    assert_eq!(b.as_byte(), 255);
    let t = V::from_bool(true);
    assert_eq!(t.type_id(), TypeIdent::Bool);
    assert!(t.as_bool());
    assert!(!V::from_bool(false).as_bool());
    assert_eq!(t.gc_info(), GcInfo::OnStack);
}

#[test]
fn null_pointer_value() {
    let n = V::null_ptr();
    assert!(n.is_null());
    assert!(n.is_ptr());
    assert!(!n.is_value());
    assert_eq!(n.gc_info(), GcInfo::Null);
}

#[test]
fn null_typed_scalar() {
    let n = V::null_value(ValueType::Float);
    assert!(n.is_value());
    assert!(n.is_null());
    assert!(!n.is_ptr());
    assert_eq!(n.type_id(), TypeIdent::Float);
    assert_eq!(n.value_type(), ValueType::Float);
    assert_eq!(n.gc_info(), GcInfo::OnStack);
    assert_eq!(V::null_value(ValueType::AnyType).type_id(), TypeIdent::DynAny);
}

fn native_sum(args: &[V]) -> i64 {
    let rec: &(i64, i64) = args[0].as_ref();
    rec.0 + rec.1
}

#[test]
fn native_call_reads_record() {
    let record = (20i64, 22i64);
    let expected = record.0 + record.1;
    let w = Wrapper::owned(record, TypeIdent::Custom(100));
    let v = Value::from_ptr(&w);
    assert!(v.is_ptr() && !v.is_null() && !v.is_value());
    assert_eq!(v.type_id(), TypeIdent::Custom(100));
    let sum = native_sum(&[v]);
    assert_eq!(sum, expected);
    assert_eq!(Value::from_ptr(&w).gc_info(), GcInfo::Owned);
    assert_eq!(w.gc_info(), GcInfo::Owned);
}

#[test]
fn pointer_value_reads_shared_host_data() {
    let host = (1i64, 2i64);
    let w = Wrapper::shared(&host, TypeIdent::Custom(5));
    let v = Value::from_ptr(&w);
    assert_eq!(v.gc_info(), GcInfo::SharedWithHost);
    assert!(std::ptr::eq(v.as_ref(), &host));
}
