//! Textures: turning a decoded picture into the bytes that are uploaded, and
//! the cache that keeps one GPU texture per path.

use vstd::prelude::*;
use vstd::hash_map::StringHashMap;
use image::DynamicImage;

verus! {

/// `image::DynamicImage`: a decoded picture. Nothing inside it is visible to
/// the verifier; what the library reads of it, it reads through the three
/// wrappers below.
#[verifier::external_type_specification]
#[verifier::external_body]
pub struct ExDynamicImage(image::DynamicImage);

/// What `GenericImageView::width` returns for a picture: its width in
/// pixels.
pub uninterp spec fn image_width(picture: DynamicImage) -> u32;

/// What `GenericImageView::height` returns for a picture: its height in
/// pixels.
pub uninterp spec fn image_height(picture: DynamicImage) -> u32;

/// What `DynamicImage::to_bgra` holds for a picture: its pixels as 8-bit
/// BGRA, row by row.
pub uninterp spec fn image_bgra(picture: DynamicImage) -> Seq<u8>;

/// The number of bytes that `width` by `height` pixels of 8-bit BGRA take.
pub open spec fn bgra_len(width: u32, height: u32) -> int {
    4 * (width * height)
}

/// Whether a buffer for `width` by `height` pixels of 8-bit BGRA can be
/// counted out in `usize`: the bytes of one row, and then the bytes of all
/// rows.
pub open spec fn bgra_countable(width: u32, height: u32) -> bool {
    4 * width <= usize::MAX && bgra_len(width, height) <= usize::MAX
}

/// `GenericImageView::width` of the `image` crate, on a `DynamicImage`: the
/// width that the picture was made with.
#[verifier::external_body]
fn picture_width(picture: &DynamicImage) -> (width: u32)
    ensures
        width == image_width(*picture),
{
    image::GenericImageView::width(picture)
}

/// `GenericImageView::height` of the `image` crate, on a `DynamicImage`: the
/// height that the picture was made with.
#[verifier::external_body]
fn picture_height(picture: &DynamicImage) -> (height: u32)
    ensures
        height == image_height(*picture),
{
    image::GenericImageView::height(picture)
}

/// `DynamicImage::to_bgra` followed by `ImageBuffer::into_raw`: a fresh
/// buffer of four bytes for each pixel of the picture, filled by converting
/// pixel after pixel. The length of the buffer is counted in `usize`, first
/// four times the width, then that times the height, and the call panics
/// where either product overflows: the caller rules both out.
#[verifier::external_body]
fn picture_bgra(picture: &DynamicImage) -> (data: Vec<u8>)
    requires
        bgra_countable(image_width(*picture), image_height(*picture)),
    ensures
        data@ == image_bgra(*picture),
        data@.len() == bgra_len(image_width(*picture), image_height(*picture)),
{
    picture.to_bgra().into_raw()
}

/// What the driver uploads for one texture: its extent and its pixels as
/// 8-bit BGRA, row by row.
#[derive(Debug)]
pub struct TextureUpload {
    pub width: u32,
    pub height: u32,
    pub data: Vec<u8>,
}

/// Whether `upload` is what is uploaded for `picture`.
pub open spec fn is_upload_of(upload: TextureUpload, picture: DynamicImage) -> bool {
    &&& upload.width == image_width(picture)
    &&& upload.height == image_height(picture)
    &&& upload.data@ == image_bgra(picture)
    &&& upload.data@.len() == bgra_len(upload.width, upload.height)
}

/// Whether `width` by `height` pixels of 8-bit BGRA fit in one buffer: the
/// bytes of one row can be counted, and so can the bytes of all rows.
pub fn bgra_fits(width: u32, height: u32) -> (fits: bool)
    ensures
        fits == bgra_countable(width, height),
{
    assert(width * height <= 0xffff_ffff * 0xffff_ffff) by (nonlinear_arith)
        requires
            0 <= width <= 0xffff_ffff,
            0 <= height <= 0xffff_ffff,
    ;
    let row: u128 = 4 * (width as u128);
    let pixels: u128 = (width as u128) * (height as u128);
    row <= usize::MAX as u128 && 4 * pixels <= usize::MAX as u128
}

/// Converts a decoded picture into what is uploaded for it. Gives `None`
/// where the converted pixels would not fit in one buffer.
pub fn prepare_upload(picture: &DynamicImage) -> (upload: Option<TextureUpload>)
    ensures
        upload is Some <==> bgra_countable(image_width(*picture), image_height(*picture)),
        upload matches Some(u) ==> is_upload_of(u, *picture),
{
    let width = picture_width(picture);
    let height = picture_height(picture);
    if !bgra_fits(width, height) {
        return None;
    }
    let data = picture_bgra(picture);
    Some(TextureUpload { width, height, data })
}

/// A texture on the GPU: the identity the driver knows it by, and its extent
/// in pixels.
#[derive(Clone, Copy, Debug, PartialEq, Eq)]
pub struct TextureEntry {
    pub texture: u64,
    pub dimensions: [u32; 2],
}

/// What a loader hands back: the new texture, and the handle of the upload
/// that fills it.
#[derive(Clone, Copy, Debug, PartialEq, Eq)]
pub struct Loaded {
    pub entry: TextureEntry,
    pub pending: u64,
}

/// The textures loaded so far, by path. An entry, once made, stays as it is.
pub struct ResourceCache {
    entries: StringHashMap<TextureEntry>,
}

impl View for ResourceCache {
    type V = Map<Seq<char>, TextureEntry>;

    closed spec fn view(&self) -> Map<Seq<char>, TextureEntry> {
        self.entries@
    }
}

impl ResourceCache {
    /// An empty cache.
    pub fn new() -> (cache: ResourceCache)
        ensures
            cache@ == Map::<Seq<char>, TextureEntry>::empty(),
    {
        ResourceCache { entries: StringHashMap::new() }
    }

    /// The entry cached under `key`, if there is one.
    pub fn get(&self, key: &String) -> (entry: Option<TextureEntry>)
        ensures
            entry == if self@.contains_key(key@) {
                Some(self@[key@])
            } else {
                None
            },
    {
        match self.entries.get(key.as_str()) {
            Some(e) => Some(*e),
            None => None,
        }
    }

    /// Caches `entry` under `key` unless the key has an entry already, and
    /// returns the entry that the key has afterwards.
    pub fn store(&mut self, key: &String, entry: TextureEntry) -> (cached: TextureEntry)
        ensures
            old(self)@.contains_key(key@) ==> cached == old(self)@[key@] && final(self)@ == old(
                self,
            )@,
            !old(self)@.contains_key(key@) ==> cached == entry && final(self)@ == old(
                self,
            )@.insert(key@, entry),
    {
        match self.entries.get(key.as_str()) {
            Some(e) => *e,
            None => {
                self.entries.insert(key.clone(), entry);
                entry
            },
        }
    }

    /// The entry under `key`. If the key has none, `loader` is run, what it
    /// loaded is cached under the key, and the handle of the pending upload is
    /// returned beside the entry. If the key has an entry, the loader is not
    /// run and no handle is returned.
    pub fn get_or_load<F: FnOnce() -> Loaded>(&mut self, key: &String, loader: F) -> (result: (
        TextureEntry,
        Option<u64>,
    ))
        requires
            !old(self)@.contains_key(key@) ==> loader.requires(()),
        ensures
            old(self)@.contains_key(key@) ==> {
                &&& result.0 == old(self)@[key@]
                &&& result.1 is None
                &&& final(self)@ == old(self)@
            },
            !old(self)@.contains_key(key@) ==> {
                &&& result.1 matches Some(pending)
                &&& loader.ensures((), Loaded { entry: result.0, pending })
                &&& final(self)@ == old(self)@.insert(key@, result.0)
            },
    {
        match self.entries.get(key.as_str()) {
            Some(e) => (*e, None),
            None => {
                let loaded = loader();
                self.entries.insert(key.clone(), loaded.entry);
                (loaded.entry, Some(loaded.pending))
            },
        }
    }
}

/// Asking twice for one key gives the same entry both times, whatever the
/// second loader would have loaded: after a first request has run its loader,
/// the key is cached, and a request on a cached key returns the cached entry
/// and leaves the cache as it is.
pub proof fn lemma_second_request_is_cached(
    before: Map<Seq<char>, TextureEntry>,
    key: Seq<char>,
    first: TextureEntry,
)
    ensures
        before.insert(key, first).contains_key(key),
        before.insert(key, first)[key] == first,
        before.contains_key(key) ==> before.insert(key, before[key]) == before,
{
    if before.contains_key(key) {
        assert(before.insert(key, before[key]) =~= before);
    }
}

} // verus!
