use vstd::prelude::*;
use vstd::string::StringExecFns;

verus! {

/// The map collection type to output for Protobuf `map` fields.
#[non_exhaustive]
#[derive(Clone, Copy, Debug, PartialEq, Eq, Structural)]
pub enum MapType {
    /// The `std::collections::HashMap` type.
    HashMap,
    /// The `alloc::collections::BTreeMap` type, reached through the support library.
    BTreeMap,
}

impl MapType {
    /// The annotation token for this map type.
    pub open spec fn spec_annotation(self) -> Seq<char> {
        match self {
            MapType::HashMap => "map"@,
            MapType::BTreeMap => "btree_map"@,
        }
    }

    /// The `prost-derive` annotation type corresponding to the map type.
    pub fn annotation(&self) -> (r: &'static str)
        ensures
            r@ == self.spec_annotation(),
    {
        match self {
            MapType::HashMap => "map",
            MapType::BTreeMap => "btree_map",
        }
    }

    /// The fully-qualified type path for this map type, given the path under
    /// which the support library is reachable.
    pub open spec fn spec_rust_type(self, prost_path: Seq<char>) -> Seq<char> {
        match self {
            MapType::HashMap => "::std::collections::HashMap"@,
            MapType::BTreeMap => prost_path + "::alloc::collections::BTreeMap"@,
        }
    }

    /// The fully-qualified Rust type corresponding to the map type.
    pub fn rust_type(&self, prost_path: &str) -> (r: String)
        ensures
            r@ == self.spec_rust_type(prost_path@),
    {
        match self {
            MapType::HashMap => "::std::collections::HashMap".to_string(),
            MapType::BTreeMap => {
                let mut path = prost_path.to_string();
                path.append("::alloc::collections::BTreeMap");
                path
            },
        }
    }
}

impl Default for MapType {
    /// Maps are emitted as `HashMap` unless configured otherwise.
    fn default() -> (r: MapType)
        ensures
            r == MapType::HashMap,
    {
        MapType::HashMap
    }
}

/// The bytes collection type to output for Protobuf `bytes` fields.
#[non_exhaustive]
#[derive(Clone, Copy, Debug, PartialEq, Eq, Structural)]
pub enum BytesType {
    /// The `alloc::vec::Vec<u8>` type, reached through the support library.
    Vec,
    /// The `bytes::Bytes` type, reached through the support library.
    Bytes,
}

impl BytesType {
    /// The annotation token for this bytes type.
    pub open spec fn spec_annotation(self) -> Seq<char> {
        match self {
            BytesType::Vec => "vec"@,
            BytesType::Bytes => "bytes"@,
        }
    }

    /// The `prost-derive` annotation type corresponding to the bytes type.
    pub fn annotation(&self) -> (r: &'static str)
        ensures
            r@ == self.spec_annotation(),
    {
        match self {
            BytesType::Vec => "vec",
            BytesType::Bytes => "bytes",
        }
    }

    /// The path of this bytes type relative to the support library.
    pub open spec fn spec_suffix(self) -> Seq<char> {
        match self {
            BytesType::Vec => "::alloc::vec::Vec<u8>"@,
            BytesType::Bytes => "::bytes::Bytes"@,
        }
    }

    /// The fully-qualified type path for this bytes type: both variants are
    /// reached through the support library.
    pub open spec fn spec_rust_type(self, prost_path: Seq<char>) -> Seq<char> {
        prost_path + self.spec_suffix()
    }

    /// The fully-qualified Rust type corresponding to the bytes type.
    pub fn rust_type(&self, prost_path: &str) -> (r: String)
        ensures
            r@ == self.spec_rust_type(prost_path@),
    {
        let mut path = prost_path.to_string();
        match self {
            BytesType::Vec => path.append("::alloc::vec::Vec<u8>"),
            BytesType::Bytes => path.append("::bytes::Bytes"),
        }
        path
    }
}

impl Default for BytesType {
    /// Bytes fields are emitted as `Vec<u8>` unless configured otherwise.
    fn default() -> (r: BytesType)
        ensures
            r == BytesType::Vec,
    {
        BytesType::Vec
    }
}

} // verus!
