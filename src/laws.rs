use vstd::prelude::*;
use crate::collections::{BytesType, MapType};

verus! {

/// Appending the same suffix to two different paths gives different results.
proof fn lemma_suffix_keeps_paths_apart(a: Seq<char>, b: Seq<char>, suffix: Seq<char>)
    ensures
        a + suffix == b + suffix ==> a == b,
{
    if a + suffix == b + suffix {
        assert((a + suffix).len() == a.len() + suffix.len());
        assert((b + suffix).len() == b.len() + suffix.len());
        assert(a.len() == b.len());
        assert(a =~= (a + suffix).subrange(0, a.len() as int));
        assert(b =~= (b + suffix).subrange(0, b.len() as int));
    }
}

/// Every map type has a non-empty annotation and a non-empty type path,
/// whatever the support path.
pub proof fn lemma_map_type_results_nonempty(m: MapType, prost_path: Seq<char>)
    ensures
        m.spec_annotation().len() > 0,
        m.spec_rust_type(prost_path).len() > 0,
{
    reveal_strlit("map");
    reveal_strlit("btree_map");
    reveal_strlit("::std::collections::HashMap");
    reveal_strlit("::alloc::collections::BTreeMap");
}

/// Every bytes type has a non-empty annotation and a non-empty type path,
/// whatever the support path.
pub proof fn lemma_bytes_type_results_nonempty(b: BytesType, prost_path: Seq<char>)
    ensures
        b.spec_annotation().len() > 0,
        b.spec_rust_type(prost_path).len() > 0,
{
    reveal_strlit("vec");
    reveal_strlit("bytes");
    reveal_strlit("::alloc::vec::Vec<u8>");
    reveal_strlit("::bytes::Bytes");
}

/// The `HashMap` type path does not depend on the support path.
pub proof fn lemma_hash_map_ignores_support_path(a: Seq<char>, b: Seq<char>)
    ensures
        MapType::HashMap.spec_rust_type(a) == MapType::HashMap.spec_rust_type(b),
{
}

/// The `BTreeMap` type path starts with the support path, and two different
/// support paths give two different type paths.
pub proof fn lemma_btree_map_follows_support_path(a: Seq<char>, b: Seq<char>)
    ensures
        a.is_prefix_of(MapType::BTreeMap.spec_rust_type(a)),
        a != b ==> MapType::BTreeMap.spec_rust_type(a) != MapType::BTreeMap.spec_rust_type(b),
{
    let suffix = "::alloc::collections::BTreeMap"@;
    assert(a =~= (a + suffix).subrange(0, a.len() as int));
    lemma_suffix_keeps_paths_apart(a, b, suffix);
}

/// For both bytes types the type path starts with the support path, and two
/// different support paths give two different type paths.
pub proof fn lemma_bytes_follows_support_path(v: BytesType, a: Seq<char>, b: Seq<char>)
    ensures
        a.is_prefix_of(v.spec_rust_type(a)),
        a != b ==> v.spec_rust_type(a) != v.spec_rust_type(b),
{
    let suffix = v.spec_suffix();
    assert(a =~= (a + suffix).subrange(0, a.len() as int));
    lemma_suffix_keeps_paths_apart(a, b, suffix);
}

} // verus!
