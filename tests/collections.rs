use prost_build::{BytesType, MapType};

const MAP_TYPES: [MapType; 2] = [MapType::HashMap, MapType::BTreeMap];
const BYTES_TYPES: [BytesType; 2] = [BytesType::Vec, BytesType::Bytes];

#[test]
fn every_variant_gives_nonempty_strings() {
    for m in MAP_TYPES {
        assert!(!m.annotation().is_empty());
        assert!(!m.rust_type("::prost").is_empty());
        assert!(!m.rust_type("").is_empty());
    }
    for b in BYTES_TYPES {
        assert!(!b.annotation().is_empty());
        assert!(!b.rust_type("::prost").is_empty());
        assert!(!b.rust_type("").is_empty());
    }
}

#[test]
fn defaults_are_hash_map_and_vec() {
    assert_eq!(MapType::default(), MapType::HashMap);
    assert_eq!(BytesType::default(), BytesType::Vec);
}

#[test]
fn hash_map_path_ignores_support_path() {
    assert_eq!(
        MapType::HashMap.rust_type("foo"),
        MapType::HashMap.rust_type("bar")
    );
    assert_eq!(
        MapType::HashMap.rust_type("::prost"),
        "::std::collections::HashMap"
    );
}

#[test]
fn btree_map_path_follows_support_path() {
    let foo = MapType::BTreeMap.rust_type("foo");
    let bar = MapType::BTreeMap.rust_type("bar");
    assert!(foo.starts_with("foo"));
    assert!(bar.starts_with("bar"));
    assert_ne!(foo, bar);
    assert_eq!(foo, "foo::alloc::collections::BTreeMap");
}

#[test]
fn bytes_paths_follow_support_path() {
    for b in BYTES_TYPES {
        let foo = b.rust_type("foo");
        let bar = b.rust_type("bar");
        assert!(foo.starts_with("foo"));
        assert!(bar.starts_with("bar"));
        assert_ne!(foo, bar);
    }
    assert_eq!(BytesType::Vec.rust_type("foo"), "foo::alloc::vec::Vec<u8>");
}

#[test]
fn annotations_are_fixed_tokens() {
    assert_eq!(MapType::HashMap.annotation(), "map");
    assert_eq!(MapType::BTreeMap.annotation(), "btree_map");
    assert_eq!(BytesType::Vec.annotation(), "vec");
    assert_eq!(BytesType::Bytes.annotation(), "bytes");
    for m in MAP_TYPES {
        assert_eq!(m.annotation(), m.annotation());
    }
    for b in BYTES_TYPES {
        assert_eq!(b.annotation(), b.annotation());
    }
}

#[test]
fn paths_under_prost() {
    assert_eq!(
        MapType::BTreeMap.rust_type("::prost"),
        "::prost::alloc::collections::BTreeMap"
    );
    assert_eq!(
        BytesType::Bytes.rust_type("::prost"),
        "::prost::bytes::Bytes"
    );
    assert_eq!(
        BytesType::Vec.rust_type("::prost"),
        "::prost::alloc::vec::Vec<u8>"
    );
}

#[test]
fn empty_support_path_leaves_relative_suffix() {
    assert_eq!(
        MapType::BTreeMap.rust_type(""),
        "::alloc::collections::BTreeMap"
    );
    assert_eq!(BytesType::Bytes.rust_type(""), "::bytes::Bytes");
}
