use guestlink::arena::Arena;
use guestlink::Fault;

#[test]
fn test_allocation() {
    let mut arena = Arena::new();

    // test string
    let text = "hello";
    let id = create_written(&mut arena, text.as_bytes());
    let memory_text = arena.read_string(id).unwrap();
    assert_eq!(memory_text, text);

    // test vec
    let vec = vec![1u8, 2u8];
    let id = create_written(&mut arena, &vec);
    let memory_vec = arena.read_bytes(id).unwrap();
    assert_eq!(memory_vec, vec);
}

fn create_written(arena: &mut Arena, bytes: &[u8]) -> u32 {
    let id = arena.create_allocation(1);
    arena.write(id, bytes.to_vec()).unwrap();
    id
}

#[test]
fn test_create_length() {
    let mut arena = Arena::new();
    let sizes: [usize; 4] = [0, 1, 5, 4096];
    for &n in sizes.iter() {
        let id = arena.create_allocation(n);
        assert_eq!(arena.len(id), Ok(n));
        assert_eq!(arena.read_bytes(id).unwrap(), vec![0u8; n]);
    }
}

#[test]
fn test_fresh_ids() {
    let mut arena = Arena::new();
    let first = arena.create_allocation(3);
    let second = arena.create_allocation(3);
    assert_ne!(first, second);
    assert_eq!(arena.slot_count(), 2);
}

#[test]
fn test_isolation() {
    let mut arena = Arena::new();
    let first = arena.create_allocation(2);
    let second = arena.create_allocation(2);
    arena.write(first, vec![9, 9]).unwrap();
    assert_eq!(arena.read_bytes(second).unwrap(), vec![0, 0]);
    arena.write(second, vec![1, 2]).unwrap();
    assert_eq!(arena.read_bytes(first).unwrap(), vec![9, 9]);
}

#[test]
fn test_roundtrip_bytes() {
    let mut arena = Arena::new();
    let id = arena.create_allocation(0);
    arena.write(id, vec![1, 2]).unwrap();
    assert_eq!(arena.read_bytes(id), Ok(vec![1, 2]));
}

#[test]
fn test_roundtrip_string() {
    let mut arena = Arena::new();
    let id = arena.create_allocation(0);
    arena.write(id, "grüße".as_bytes().to_vec()).unwrap();
    assert_eq!(arena.read_string(id), Ok("grüße".to_owned()));
}

#[test]
fn test_use_after_free() {
    let mut arena = Arena::new();
    let id = arena.create_allocation(4);
    arena.clear(id).unwrap();
    assert_eq!(arena.read_bytes(id), Err(Fault::UseAfterFree));
    assert_eq!(arena.read_string(id), Err(Fault::UseAfterFree));
    assert_eq!(arena.len(id), Err(Fault::UseAfterFree));
    assert!(arena.get_allocation(id).is_err());
    assert_eq!(arena.write(id, vec![1]), Err(Fault::UseAfterFree));
    assert_eq!(arena.clear(id), Err(Fault::UseAfterFree));
}

#[test]
fn test_out_of_range_id() {
    let arena = Arena::new();
    assert_eq!(arena.read_bytes(0), Err(Fault::UseAfterFree));
    assert_eq!(arena.read_string(3), Err(Fault::UseAfterFree));
}

#[test]
fn test_invalid_encoding() {
    let mut arena = Arena::new();
    let id = arena.create_allocation(0);
    arena.write(id, vec![0xff, 0xfe]).unwrap();
    assert_eq!(arena.read_string(id), Err(Fault::InvalidEncoding));
    // the bytes themselves stay readable
    assert_eq!(arena.read_bytes(id), Ok(vec![0xff, 0xfe]));
}

#[test]
fn test_get_allocation_borrow() {
    let mut arena = Arena::new();
    let id = arena.create_allocation(2);
    arena.write(id, vec![7, 8]).unwrap();
    let slot = arena.get_allocation(id).unwrap();
    assert_eq!(slot.as_slice(), &[7, 8]);
}
