use persistent_block::block::Block;
use persistent_block::error::{Error, NoneError};
use persistent_block::path::KeyAllocator;

// The byte image bincode's default configuration gives "hello": a
// fixed-width little-endian length prefix followed by the UTF-8 bytes.
fn hello_bytes() -> Vec<u8> {
    vec![5, 0, 0, 0, 0, 0, 0, 0, b'h', b'e', b'l', b'l', b'o']
}

#[test]
fn test_load() {
    let block = Block::<String>::load("block", "prog", None).unwrap();
    println!("{:?}", block);
}

#[test]
fn test_store() {
    let mut alloc = KeyAllocator::new();
    let block = Block::<String>::default("prog", &mut alloc);
    assert!(block.store().is_none());
}

#[test]
fn test_get() {
    let mut alloc = KeyAllocator::new();
    let got: String = Block::<String>::default("prog", &mut alloc).get().to_owned();
    assert_eq!(got, String::default());
    println!("{:?}", got);
}

#[test]
fn test_set() {
    let mut alloc = KeyAllocator::new();
    let mut block = Block::<String>::default("prog", &mut alloc);
    block.set(String::from("set"));
}

#[test]
fn test_log() {
    let mut alloc = KeyAllocator::new();
    Block::<String>::Log(String::from("log"), "prog", &mut alloc);
}

#[test]
fn test_default() {
    let mut alloc = KeyAllocator::new();
    Block::<String>::default("prog", &mut alloc);
}

#[test]
fn test_drop() {
    let mut alloc = KeyAllocator::new();
    drop(Block::<String>::default("prog", &mut alloc));
}

#[test]
fn it_works() {
    let test = String::from("test");

    let stored: Vec<u8>;
    {
        let mut block: Block<String> = Block::load("block", "prog", None).unwrap();
        block.set(test.clone());
        stored = block.store().unwrap();
    }

    {
        let block: Block<String> = Block::load("block", "prog", Some(stored)).unwrap();
        assert_eq!(test, block.get().to_owned());
    }
}

#[test]
fn fresh_load_yields_default_then_reload_returns_set_value() {
    // A first run with no prior file: the value is the default.
    let mut block = Block::<String>::load("example", "prog", None).unwrap();
    assert_eq!(block.get(), "");

    // The caller sets a value; leaving scope would persist these bytes.
    block.set(String::from("hello"));
    let written = block.store().expect("a non-default value must be written");

    // A later run finds the file and gets the value back.
    let reloaded = Block::<String>::load("example", "prog", Some(written)).unwrap();
    assert_eq!(reloaded.get(), "hello");
    assert_eq!(reloaded.path(), block.path());
}

#[test]
fn store_produces_exact_bincode_image() {
    let mut alloc = KeyAllocator::new();
    let mut block = Block::<String>::default("prog", &mut alloc);
    block.set(String::from("hello"));
    assert_eq!(block.store().unwrap(), hello_bytes());
}

#[test]
fn store_skips_value_set_back_to_default() {
    let mut block = Block::<String>::load("example", "prog", None).unwrap();
    block.set(String::from("hello"));
    block.set(String::new());
    assert!(block.store().is_none());
}

#[test]
fn store_twice_gives_identical_bytes() {
    let mut alloc = KeyAllocator::new();
    let mut block = Block::<String>::default("prog", &mut alloc);
    block.set(String::from("hello"));
    assert_eq!(block.store().unwrap(), block.store().unwrap());
}

#[test]
fn corrupt_bytes_fail_the_load() {
    // A length prefix far past the end of the bytes: no string's image.
    let corrupt = vec![0xffu8; 12];
    let r = Block::<String>::load("example", "prog", Some(corrupt));
    assert_eq!(r.unwrap_err(), Error::Decode);
}

#[test]
fn truncated_image_fails_the_load() {
    let mut bytes = hello_bytes();
    bytes.truncate(10);
    let r = Block::<String>::load("example", "prog", Some(bytes));
    assert_eq!(r.unwrap_err(), Error::Decode);
}

#[test]
fn anonymous_slots_resolve_to_distinct_paths() {
    let mut alloc = KeyAllocator::new();
    let a = Block::<String>::default("prog", &mut alloc);
    let b = Block::<String>::default("prog", &mut alloc);
    let c = Block::<String>::default("prog", &mut alloc);
    assert_ne!(a.path(), b.path());
    assert_ne!(a.path(), c.path());
    assert_ne!(b.path(), c.path());
}

#[test]
fn paths_join_program_directory_and_key() {
    let block = Block::<String>::load("example", "prog", None).unwrap();
    assert_eq!(block.path(), "prog/example");

    let mut alloc = KeyAllocator::new();
    let anon = Block::<String>::default("prog", &mut alloc);
    assert_eq!(anon.path(), "prog/String#0");
    let next = Block::<String>::default("prog", &mut alloc);
    assert_eq!(next.path(), "prog/String#1");
}

#[test]
fn anonymous_keys_render_multi_digit_indices() {
    let mut alloc = KeyAllocator::new();
    let mut last = String::new();
    for _ in 0..12 {
        last = Block::<String>::default("prog", &mut alloc).path().to_owned();
    }
    assert_eq!(last, "prog/String#11");
}

#[test]
fn log_builds_a_slot_holding_the_value() {
    let mut alloc = KeyAllocator::new();
    let block = Block::<String>::Log(String::from("log"), "prog", &mut alloc);
    assert_eq!(block.get(), "log");
    assert_eq!(block.path(), "prog/String#0");
}

#[test]
fn none_error_message() {
    assert_eq!(NoneError.message(), "NoneError");
}
