use guestlink::params::{serialize_params, ExternRef, InvokeParam, MemView};

fn make_view(addr: u32, len: u64) -> MemView {
    MemView { addr, len }
}

#[test]
fn test_params() {
    // undefined
    assert_eq!(InvokeParam::Undefined.serialize(), vec![0]);

    // null
    assert_eq!(InvokeParam::Null.serialize(), vec![1]);

    // bigint
    assert_eq!(
        InvokeParam::BigInt(42).serialize(),
        [vec![3], 42u64.to_le_bytes().to_vec()].concat()
    );

    // string: the wire form carries the view's address and byte length
    let text = "hello";
    let text_view = make_view(0x1000, text.len() as u64);
    let expected = [
        vec![4],
        0x1000u32.to_le_bytes().to_vec(),
        (text.len() as u64).to_le_bytes().to_vec(),
    ]
    .concat();
    assert_eq!(InvokeParam::String(text_view).serialize(), expected);

    // object handle
    assert_eq!(
        InvokeParam::ExternRef(ExternRef { value: 42 }).serialize(),
        [vec![5], 42u32.to_le_bytes().to_vec()].concat()
    );

    // float32 array
    let array_view = make_view(0x2000, 2);
    let expected = [
        vec![6],
        0x2000u32.to_le_bytes().to_vec(),
        2u64.to_le_bytes().to_vec(),
    ]
    .concat();
    assert_eq!(InvokeParam::Float32Array(array_view).serialize(), expected);

    // float64 array
    let expected = [
        vec![9],
        0x2000u32.to_le_bytes().to_vec(),
        2u64.to_le_bytes().to_vec(),
    ]
    .concat();
    assert_eq!(InvokeParam::Float64Array(array_view).serialize(), expected);

    // bool
    assert_eq!(InvokeParam::Bool(true).serialize(), vec![7]);

    // u32 array
    let expected = [
        vec![10],
        0x2000u32.to_le_bytes().to_vec(),
        2u64.to_le_bytes().to_vec(),
    ]
    .concat();
    assert_eq!(InvokeParam::Uint32Array(array_view).serialize(), expected);
}

#[test]
fn test_float64_carries_ieee_bits() {
    let expected = [vec![2], 2.5f64.to_le_bytes().to_vec()].concat();
    assert_eq!(InvokeParam::Float64(2.5f64.to_bits()).serialize(), expected);
}

#[test]
fn test_bool_false_tag() {
    assert_eq!(InvokeParam::Bool(false).serialize(), vec![8]);
}

#[test]
fn test_int32_and_uint32() {
    let expected = [vec![12], (-7i32).to_le_bytes().to_vec()].concat();
    assert_eq!(InvokeParam::Int32(-7).serialize(), expected);
    let expected = [vec![11], 7u32.to_le_bytes().to_vec()].concat();
    assert_eq!(InvokeParam::Uint32(7).serialize(), expected);
}

#[test]
fn test_serialize_params_concatenates() {
    let params = [
        InvokeParam::Bool(true),
        InvokeParam::Int32(1),
        InvokeParam::Undefined,
    ];
    let expected = [
        vec![7],
        vec![12],
        1i32.to_le_bytes().to_vec(),
        vec![0],
    ]
    .concat();
    assert_eq!(serialize_params(&params), expected);
    assert_eq!(serialize_params(&[]), Vec::<u8>::new());
}
