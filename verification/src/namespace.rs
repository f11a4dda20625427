//! References to assets by where they lie under the root of the assets.

use vstd::prelude::*;
use crate::asset_types::AssetType;

verus! {

/// Reference to one asset: where it lies under the root of the assets, and
/// what it is.
#[derive(Debug, Clone)]
pub struct AssetReference {
    asset_location: String,
    asset_type: AssetType,
}

impl AssetReference {
    /// Where the asset lies under the root of the assets.
    pub closed spec fn location(&self) -> Seq<char> {
        self.asset_location@
    }

    /// What the asset is.
    pub closed spec fn kind(&self) -> AssetType {
        self.asset_type
    }

    /// A reference to the asset of kind `ty` that lies at `loc`.
    pub fn new(loc: &str, ty: AssetType) -> (reference: AssetReference)
        ensures
            reference.location() == loc@,
            reference.kind() == ty,
    {
        AssetReference { asset_location: loc.to_owned(), asset_type: ty }
    }

    /// Where the asset lies under the root of the assets.
    pub fn asset_location(&self) -> (loc: &str)
        ensures
            loc@ == self.location(),
    {
        self.asset_location.as_str()
    }

    /// What the asset is.
    pub fn asset_type(&self) -> (ty: AssetType)
        ensures
            ty == self.kind(),
    {
        self.asset_type
    }

    /// The path of the asset: the parts of the path of the root, followed
    /// by the location of the asset.
    pub fn into(self, asset_root: Vec<String>) -> (path: Vec<String>)
        ensures
            path@.len() == asset_root@.len() + 1,
            path@.drop_last() == asset_root@,
            path@.last()@ == self.location(),
    {
        let mut path = asset_root;
        path.push(self.asset_location);
        proof {
            assert(path@.drop_last() == asset_root@);
        }
        path
    }
}

} // verus!
