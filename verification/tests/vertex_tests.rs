use adjacency_graph::vertex::Vertex;

#[test]
fn new_vertex_has_no_properties() {
    let v = Vertex::new(0);
    assert_eq!(v.id, 0);
    assert_eq!(v.string_props.len(), 0);
    assert_eq!(v.int_props.len(), 0);
    assert_eq!(v.float_props.len(), 0);
    let w = Vertex::new(usize::MAX);
    assert_eq!(w.id, usize::MAX);
}

#[test]
fn string_property_is_overwritten() {
    let mut v = Vertex::new(3);
    v.add_string_props("k".to_string(), "v1".to_string());
    assert_eq!(v.string_props.len(), 1);
    assert_eq!(v.string_props.get("k"), Some(&"v1".to_string()));
    v.add_string_props("k".to_string(), "v2".to_string());
    assert_eq!(v.string_props.len(), 1);
    assert_eq!(v.string_props.get("k"), Some(&"v2".to_string()));
    assert_eq!(v.id, 3);
}

#[test]
fn int_property_is_overwritten() {
    let mut v = Vertex::new(3);
    v.add_int_props("k".to_string(), -7);
    assert_eq!(v.int_props.get("k"), Some(&-7));
    v.add_int_props("k".to_string(), i64::MAX);
    assert_eq!(v.int_props.len(), 1);
    assert_eq!(v.int_props.get("k"), Some(&i64::MAX));
    v.add_int_props("k".to_string(), i64::MIN);
    assert_eq!(v.int_props.len(), 1);
    assert_eq!(v.int_props.get("k"), Some(&i64::MIN));
}

#[test]
fn float_property_is_overwritten() {
    let mut v = Vertex::new(3);
    v.add_float_props("k".to_string(), 1.5f64.to_bits());
    assert_eq!(v.float_props.get("k").map(|b| f64::from_bits(*b)), Some(1.5));
    v.add_float_props("k".to_string(), (-0.25f64).to_bits());
    assert_eq!(v.float_props.len(), 1);
    assert_eq!(v.float_props.get("k").map(|b| f64::from_bits(*b)), Some(-0.25));
}

#[test]
fn float_property_keeps_every_bit() {
    let mut v = Vertex::new(0);
    v.add_float_props("nan".to_string(), f64::NAN.to_bits());
    v.add_float_props("neg_zero".to_string(), (-0.0f64).to_bits());
    v.add_float_props("inf".to_string(), f64::INFINITY.to_bits());
    assert!(f64::from_bits(*v.float_props.get("nan").unwrap()).is_nan());
    assert_eq!(*v.float_props.get("nan").unwrap(), f64::NAN.to_bits());
    assert_eq!(*v.float_props.get("neg_zero").unwrap(), 0x8000_0000_0000_0000u64);
    assert_eq!(f64::from_bits(*v.float_props.get("inf").unwrap()), f64::INFINITY);
    assert_eq!(v.float_props.len(), 3);
}

#[test]
fn different_names_are_kept_apart() {
    let mut v = Vertex::new(1);
    v.add_string_props("a".to_string(), "x".to_string());
    v.add_string_props("b".to_string(), "y".to_string());
    v.add_string_props("a".to_string(), "z".to_string());
    assert_eq!(v.string_props.len(), 2);
    assert_eq!(v.string_props.get("a"), Some(&"z".to_string()));
    assert_eq!(v.string_props.get("b"), Some(&"y".to_string()));
    assert_eq!(v.string_props.get("c"), None);
}

#[test]
fn the_three_maps_are_independent() {
    let mut v = Vertex::new(9);
    v.add_string_props("weight".to_string(), "heavy".to_string());
    v.add_int_props("weight".to_string(), 12);
    v.add_float_props("weight".to_string(), 12.75f64.to_bits());
    assert_eq!(v.string_props.get("weight"), Some(&"heavy".to_string()));
    assert_eq!(v.int_props.get("weight"), Some(&12));
    assert_eq!(v.float_props.get("weight"), Some(&12.75f64.to_bits()));
    assert_eq!(v.string_props.len(), 1);
    assert_eq!(v.int_props.len(), 1);
    assert_eq!(v.float_props.len(), 1);
    assert_eq!(v.id, 9);
}

#[test]
fn empty_name_and_empty_value_are_accepted() {
    let mut v = Vertex::new(0);
    v.add_string_props(String::new(), String::new());
    assert_eq!(v.string_props.get(""), Some(&String::new()));
    assert_eq!(v.string_props.len(), 1);
}
