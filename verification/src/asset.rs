//! The contracts that asset kinds and formats implement.
//!
//! What a conversion returns is for each implementation to say: an `impl`
//! adds its own `ensures` to the methods below. The hooks come with bodies
//! that keep no cache, so that caching is something an asset kind opts into.

use vstd::prelude::*;
use crate::key::AssetSpec;

verus! {

/// One of the core traits of this crate.
///
/// You want to implement this for every type of asset like
///
/// * `Mesh`
/// * `Texture`
/// * `Terrain`
///
/// and so on. Now, an asset may be available in different formats.
/// That's why we have the `Data` associated type here. You can specify
/// an intermediate format here, like the vertex data for a mesh or the samples
/// for audio data.
///
/// This data is then generated by the `Format` trait.
pub trait Asset: Sized {
    /// What the conversion and the hooks are handed to work in; they cannot
    /// replace it.
    type Context;

    /// The intermediate data the asset is made from.
    type Data;

    /// The kind of error the conversion may produce.
    type Error: core::fmt::Debug + core::fmt::Display;

    /// A small keyword for which category this asset belongs to.
    ///
    /// ## Examples
    ///
    /// * `"mesh"` for `Mesh`
    /// * `"data"` for `Level`
    ///
    /// The storage may use this information, to e.g. search the
    /// identically-named subfolder.
    fn category() -> &'static str;

    /// Provides the conversion from the data format to the actual asset.
    fn from_data(data: Self::Data, context: &Self::Context) -> Result<Self, Self::Error>;

    /// Notifies about an asset load. This can be used to cache the asset.
    /// To return a cached asset, see the `retrieve` function.
    fn cache(_context: &Self::Context, _spec: AssetSpec, _asset: &Self) {
    }

    /// Returns `Some` cached value if possible, otherwise `None`.
    ///
    /// For a basic implementation of a cache, please take a look at the
    /// `Cache` type. Unless an asset kind overrides this, nothing is ever
    /// retrieved.
    fn retrieve(_context: &Self::Context, _spec: &AssetSpec) -> (cached: Option<Self>)
        default_ensures
            cached is None,
    {
        None
    }

    /// Gives a hint that several assets may have been released recently.
    ///
    /// This is useful if your assets are reference counted, because you are
    /// now able to remove unique assets from the cache, leaving the shared
    /// ones there.
    fn clear(_context: &Self::Context) {
    }

    /// Request for clearing the whole cache.
    fn clear_all(_context: &Self::Context) {
    }
}

/// A format, providing a conversion from bytes to asset data, which is then
/// in turn accepted by `Asset::from_data`. Examples for formats are
/// `Png`, `Obj` and `Wave`.
pub trait Format: Sized {
    /// The data type this format is able to load.
    type Data;

    /// The kind of error it may produce.
    type Error: core::fmt::Debug + core::fmt::Display;

    /// Returns the extension (without `.`).
    ///
    /// ## Examples
    ///
    /// * `"png"`
    /// * `"obj"`
    /// * `"wav"`
    fn extension() -> &'static str;

    /// Reads the given bytes and produces asset data.
    fn parse(&self, bytes: Vec<u8>) -> Result<Self::Data, Self::Error>;
}

} // verus!
