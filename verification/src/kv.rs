use vstd::prelude::*;
use crate::error::Error;

verus! {

/// sled's tree type: one ordered, durable key-value namespace.
#[verifier::external_type_specification]
#[verifier::external_body]
pub struct ExSledTree(sled::Tree);

/// What one sled tree durably holds: a map from key bytes to value bytes.
pub uninterp spec fn tree_view(t: sled::Tree) -> Map<Seq<u8>, Seq<u8>>;

/// Relies on sled's `Tree::get`: the value most recently written under the
/// key, or `None` when the key is absent.
#[verifier::external_body]
pub(crate) fn kv_get(t: &sled::Tree, key: &[u8]) -> (r: Result<Option<Vec<u8>>, Error>)
    ensures
        (match r {
            Ok(Some(v)) => tree_view(*t).contains_key(key@) && tree_view(*t)[key@] == v@,
            Ok(None) => !tree_view(*t).contains_key(key@),
            Err(e) => e is Storage,
        }),
{
    match t.get(key) {
        Ok(opt) => Ok(opt.map(|v| v.to_vec())),
        Err(e) => Err(Error::Storage(format!("{}", e))),
    }
}

/// Relies on sled's `Tree::insert`: binds the key to the value, replacing
/// any previous binding.
#[verifier::external_body]
pub(crate) fn kv_insert(t: &mut sled::Tree, key: &[u8], value: &[u8]) -> (r: Result<(), Error>)
    ensures
        r is Ok ==> tree_view(*final(t)) == tree_view(*old(t)).insert(key@, value@),
        r matches Err(e) ==> e is Storage,
{
    match t.insert(key, value) {
        Ok(_) => Ok(()),
        Err(e) => Err(Error::Storage(format!("{}", e))),
    }
}

/// Relies on sled's `Tree::remove`: unbinds the key; removing an absent key
/// is a no-op, not an error.
#[verifier::external_body]
pub(crate) fn kv_remove(t: &mut sled::Tree, key: &[u8]) -> (r: Result<(), Error>)
    ensures
        r is Ok ==> tree_view(*final(t)) == tree_view(*old(t)).remove(key@),
        r matches Err(e) ==> e is Storage,
{
    match t.remove(key) {
        Ok(_) => Ok(()),
        Err(e) => Err(Error::Storage(format!("{}", e))),
    }
}

/// Relies on sled's `Tree::scan_prefix`: every key-value pair whose key
/// starts with the prefix, each key listed once.
#[verifier::external_body]
pub(crate) fn kv_scan_prefix(t: &sled::Tree, prefix: &[u8]) -> (r: Result<
    Vec<(Vec<u8>, Vec<u8>)>,
    Error,
>)
    ensures
        (match r {
            Ok(pairs) => {
                &&& (forall|i: int|
                    0 <= i < pairs@.len() ==> {
                        &&& tree_view(*t).contains_key(#[trigger] pairs@[i].0@)
                        &&& tree_view(*t)[pairs@[i].0@] == pairs@[i].1@
                        &&& prefix@.is_prefix_of(pairs@[i].0@)
                    })
                &&& (forall|k: Seq<u8>|
                    #[trigger] tree_view(*t).contains_key(k) && prefix@.is_prefix_of(k)
                        ==> exists|i: int| 0 <= i < pairs@.len() && #[trigger] pairs@[i].0@ == k)
                &&& (forall|i: int, j: int|
                    0 <= i < pairs@.len() && 0 <= j < pairs@.len() && i != j
                        ==> #[trigger] pairs@[i].0@ != #[trigger] pairs@[j].0@)
            },
            Err(e) => e is Storage,
        }),
{
    let mut out: Vec<(Vec<u8>, Vec<u8>)> = Vec::new();
    for pair in t.scan_prefix(prefix) {
        match pair {
            Ok((k, v)) => out.push((k.to_vec(), v.to_vec())),
            Err(e) => {
                return Err(Error::Storage(format!("{}", e)));
            },
        }
    }
    Ok(out)
}

} // verus!
