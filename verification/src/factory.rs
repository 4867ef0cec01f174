use vstd::prelude::*;

verus! {

/// The module bytecode that the factory installs into each freshly created
/// token canister. The compiled module is an artifact of the embedder's own
/// build; this library bundles none, so the factory starts from an empty
/// module and the embedder supplies the real bytes.
pub fn get_token_bytecode() -> (r: Vec<u8>)
    ensures
        r@ == Seq::<u8>::empty(),
{
    Vec::new()
}

} // verus!
