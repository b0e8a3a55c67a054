//! The texture cache: textures by logical name, loaded on first use from the
//! paths of a manifest.

use vstd::prelude::*;
use vstd::hash_map::StringHashMap;
use crate::renderer::resource::{TextureDescriptor, TextureFormat, TextureId, TextureUsages};

verus! {

/// `std::io::Error`, the error of reading a file. Nothing is known of its
/// content here; it is only carried to the caller.
#[verifier::external_type_specification]
#[verifier::external_body]
pub struct ExIoError(std::io::Error);

/// `image::ImageError`, the error of decoding an image. Nothing is known of
/// its content here; it is only carried to the caller.
#[verifier::external_type_specification]
#[verifier::external_body]
pub struct ExImageError(image::ImageError);

/// Why a texture could not be provided.
#[derive(Debug)]
pub enum TextureManagerError {
    /// The file of the texture could not be read.
    FileReadError(std::io::Error),
    /// The file was read but does not hold an image that could be decoded.
    ImageDecodeError(image::ImageError),
    /// The manifest has no entry for the name. No later call will find one.
    NameNotInManifest,
    /// The image was decoded, but no texture can take it: a side is zero, a
    /// row is longer than a row stride can express, or the pixel data is not
    /// four bytes for each pixel.
    InvalidDimensions { width: u32, height: u32 },
}

impl From<std::io::Error> for TextureManagerError {
    fn from(value: std::io::Error) -> (error: Self) {
        Self::FileReadError(value)
    }
}

impl vstd::std_specs::convert::FromSpecImpl<std::io::Error> for TextureManagerError {
    open spec fn obeys_from_spec() -> bool {
        true
    }

    open spec fn from_spec(value: std::io::Error) -> Self {
        Self::FileReadError(value)
    }
}

impl From<image::ImageError> for TextureManagerError {
    fn from(value: image::ImageError) -> (error: Self) {
        Self::ImageDecodeError(value)
    }
}

impl vstd::std_specs::convert::FromSpecImpl<image::ImageError> for TextureManagerError {
    open spec fn obeys_from_spec() -> bool {
        true
    }

    open spec fn from_spec(value: image::ImageError) -> Self {
        Self::ImageDecodeError(value)
    }
}

/// An image as rows of pixels of four 8-bit channels: red, green, blue, alpha.
#[derive(Debug, PartialEq, Eq)]
pub struct RgbaImage {
    pub width: u32,
    pub height: u32,
    pub pixels: Vec<u8>,
}

/// What decoding the content `bytes` of the file at `path` gives: width,
/// height and pixel data of the image, or `None` where the content is no
/// image of the format that the path's extension names.
pub uninterp spec fn decoded_rgba8(path: Seq<char>, bytes: Seq<u8>) -> Option<
    (u32, u32, Seq<u8>),
>;

/// Decodes `bytes` with `image::io::Reader::decode`, in the format that
/// `image::ImageFormat::from_path` reads from the extension of `path`, and
/// converts the image with `image::DynamicImage::to_rgba8`. The contract
/// claims only that the result depends on `path` and `bytes` alone.
#[verifier::external_body]
fn decode_rgba8(path: &str, bytes: &[u8]) -> (decoded: Result<RgbaImage, image::ImageError>)
    ensures
        match decoded {
            Ok(image) => decoded_rgba8(path@, bytes@) == Some(
                (image.width, image.height, image.pixels@),
            ),
            Err(_) => decoded_rgba8(path@, bytes@) is None,
        },
{
    let mut reader = image::io::Reader::new(std::io::Cursor::new(bytes));
    if let Ok(format) = image::ImageFormat::from_path(path) {
        reader.set_format(format);
    }
    let rgba = reader.decode()?.to_rgba8();
    Ok(RgbaImage { width: rgba.width(), height: rgba.height(), pixels: rgba.into_raw() })
}

/// A texture to create and the pixel data to copy into it.
#[derive(Debug, PartialEq, Eq)]
pub struct TextureUpload {
    pub descriptor: TextureDescriptor,
    /// Bytes from one row of `pixels` to the next.
    pub bytes_per_row: u32,
    /// Rows of `pixels`.
    pub rows_per_image: u32,
    pub pixels: Vec<u8>,
}

/// The texture that holds an image of the given size: sampled by the passes
/// and filled by a copy.
pub open spec fn image_texture(width: u32, height: u32) -> TextureDescriptor {
    TextureDescriptor {
        width,
        height,
        format: TextureFormat::Rgba8UnormSrgb,
        usage: TextureUsages { copy_dst: true, texture_binding: true, render_attachment: false },
    }
}

/// A texture can hold an image of this size, a row of it fits a stride, and
/// `pixel_bytes` bytes are four for each pixel.
pub open spec fn uploadable(width: u32, height: u32, pixel_bytes: nat) -> bool {
    width > 0 && height > 0 && 4 * width <= u32::MAX && pixel_bytes == 4 * width * height
}

impl TextureUpload {
    /// The upload of the image `width` by `height` with the given pixel data.
    pub open spec fn is_upload_of(&self, width: u32, height: u32, pixels: Seq<u8>) -> bool {
        &&& self.descriptor == image_texture(width, height)
        &&& self.bytes_per_row == 4 * width
        &&& self.rows_per_image == height
        &&& self.pixels@ =~= pixels
    }

    /// The pixel data is exactly the rows that the upload announces.
    pub open spec fn well_formed(&self) -> bool {
        &&& uploadable(self.descriptor.width, self.descriptor.height, self.pixels@.len())
        &&& self.descriptor == image_texture(self.descriptor.width, self.descriptor.height)
        &&& self.bytes_per_row == 4 * self.descriptor.width
        &&& self.rows_per_image == self.descriptor.height
        &&& self.pixels@.len() == self.bytes_per_row * self.rows_per_image
    }
}

/// What becomes of a decoded image: the upload of a texture of exactly its
/// size, with a row stride of four bytes per pixel of a row; or the decoding
/// error, passed on; or `InvalidDimensions` where no texture can take the
/// image.
pub fn plan_upload(decoded: Result<RgbaImage, image::ImageError>) -> (planned: Result<
    TextureUpload,
    TextureManagerError,
>)
    ensures
        match decoded {
            Err(e) => planned == Err::<TextureUpload, _>(TextureManagerError::ImageDecodeError(e)),
            Ok(image) => if uploadable(image.width, image.height, image.pixels@.len()) {
                &&& planned matches Ok(upload)
                &&& upload.is_upload_of(image.width, image.height, image.pixels@)
                &&& upload.well_formed()
            } else {
                planned == Err::<TextureUpload, _>(
                    TextureManagerError::InvalidDimensions {
                        width: image.width,
                        height: image.height,
                    },
                )
            },
        },
{
    match decoded {
        Err(e) => Err(TextureManagerError::from(e)),
        Ok(image) => {
            let width = image.width;
            let height = image.height;
            if width == 0 || height == 0 || width > u32::MAX / 4 {
                return Err(TextureManagerError::InvalidDimensions { width, height });
            }
            let row_bytes: u64 = 4 * (width as u64);
            assert(row_bytes * height <= u64::MAX) by (nonlinear_arith)
                requires
                    row_bytes <= u32::MAX,
                    height <= u32::MAX,
            ;
            assert(row_bytes * height == 4 * width * height) by (nonlinear_arith)
                requires
                    row_bytes == 4 * width,
            ;
            let needed: u64 = row_bytes * (height as u64);
            if image.pixels.len() as u64 != needed {
                Err(TextureManagerError::InvalidDimensions { width, height })
            } else {
                Ok(
                    TextureUpload {
                        descriptor: TextureDescriptor {
                            width,
                            height,
                            format: TextureFormat::Rgba8UnormSrgb,
                            usage: TextureUsages {
                                copy_dst: true,
                                texture_binding: true,
                                render_attachment: false,
                            },
                        },
                        bytes_per_row: 4 * width,
                        rows_per_image: height,
                        pixels: image.pixels,
                    },
                )
            }
        },
    }
}

/// What becomes of the content of a texture's file, or of the failure to
/// read it: a read error is passed on as `FileReadError`; content that is
/// read is decoded as the path's extension says and planned as `plan_upload`
/// does.
pub fn load_texture(path: &str, read: Result<Vec<u8>, std::io::Error>) -> (loaded: Result<
    TextureUpload,
    TextureManagerError,
>)
    ensures
        match read {
            Err(e) => loaded == Err::<TextureUpload, _>(TextureManagerError::FileReadError(e)),
            Ok(bytes) => match decoded_rgba8(path@, bytes@) {
                None => loaded matches Err(TextureManagerError::ImageDecodeError(_)),
                Some((width, height, pixels)) => if uploadable(width, height, pixels.len()) {
                    &&& loaded matches Ok(upload)
                    &&& upload.is_upload_of(width, height, pixels)
                    &&& upload.well_formed()
                } else {
                    loaded == Err::<TextureUpload, _>(
                        TextureManagerError::InvalidDimensions { width, height },
                    )
                },
            },
        },
{
    match read {
        Err(e) => Err(TextureManagerError::from(e)),
        Ok(bytes) => plan_upload(decode_rgba8(path, bytes.as_slice())),
    }
}

/// What the cache says of a name.
#[derive(Debug, PartialEq, Eq)]
pub enum TextureLookup {
    /// The texture is loaded.
    Cached(TextureId),
    /// The texture is not loaded yet; its file is at `path`.
    Load { path: String },
}

/// A texture of the cache.
#[derive(Debug, PartialEq, Eq)]
pub struct LoadedTexture {
    pub name: String,
    pub descriptor: TextureDescriptor,
}

/// The texture cache. It owns the manifest, which never changes, and records
/// each loaded texture under its name. Nothing is ever evicted.
pub struct TextureManager {
    manifest: StringHashMap<String>,
    textures: StringHashMap<TextureId>,
    loaded: Vec<LoadedTexture>,
}

/// The manifest that a list of `(name, path)` pairs gives: for a name that
/// occurs more than once, the last path.
pub open spec fn manifest_of(texture_paths: Seq<(String, String)>) -> Map<Seq<char>, Seq<char>>
    decreases texture_paths.len(),
{
    if texture_paths.len() == 0 {
        Map::empty()
    } else {
        manifest_of(texture_paths.drop_last()).insert(
            texture_paths.last().0@,
            texture_paths.last().1@,
        )
    }
}

impl TextureManager {
    /// The manifest: the path of each name.
    pub closed spec fn manifest(&self) -> Map<Seq<char>, Seq<char>> {
        self.manifest@.map_values(|path: String| path@)
    }

    /// The cache: the texture of each loaded name.
    pub closed spec fn cache(&self) -> Map<Seq<char>, TextureId> {
        self.textures@
    }

    /// The loaded textures in the order of loading, each with its name.
    pub closed spec fn loaded(&self) -> Seq<(Seq<char>, TextureDescriptor)> {
        self.loaded@.map_values(|t: LoadedTexture| (t.name@, t.descriptor))
    }

    /// Every cached name is a name of the manifest, and the cache and the
    /// list of loaded textures tell the same: a name is cached under the
    /// place at which the list holds it, and each entry of the list is cached.
    pub open spec fn well_formed(&self) -> bool {
        &&& forall|name: Seq<char>| #[trigger]
            self.cache().contains_key(name) ==> {
                &&& self.manifest().contains_key(name)
                &&& self.cache()[name].0 < self.loaded().len()
                &&& self.loaded()[self.cache()[name].0 as int].0 == name
            }
        &&& forall|i: int|
            0 <= i < self.loaded().len() ==> {
                &&& self.cache().contains_key((#[trigger] self.loaded()[i]).0)
                &&& self.cache()[self.loaded()[i].0].0 == i
            }
    }

    /// What the cache says of `name`: loaded, to be loaded from a path, or
    /// unknown to the manifest.
    pub open spec fn lookup(&self, name: Seq<char>) -> Option<TextureLookupView> {
        if self.cache().contains_key(name) {
            Some(TextureLookupView::Cached(self.cache()[name]))
        } else if self.manifest().contains_key(name) {
            Some(TextureLookupView::Load { path: self.manifest()[name] })
        } else {
            None
        }
    }

    /// A cache over the manifest that `texture_paths` lists, with nothing
    /// loaded.
    pub fn new(texture_paths: Vec<(String, String)>) -> (manager: Self)
        ensures
            manager.manifest() == manifest_of(texture_paths@),
            manager.cache() == Map::<Seq<char>, TextureId>::empty(),
            manager.loaded().len() == 0,
            manager.well_formed(),
    {
        let mut manifest: StringHashMap<String> = StringHashMap::new();
        let mut i: usize = 0;
        while i < texture_paths.len()
            invariant
                0 <= i <= texture_paths@.len(),
                manifest@.map_values(|path: String| path@) =~= manifest_of(
                    texture_paths@.take(i as int),
                ),
            decreases texture_paths@.len() - i,
        {
            let name = texture_paths[i].0.clone();
            let path = texture_paths[i].1.clone();
            proof {
                let next = texture_paths@.take(i as int + 1);
                assert(next.drop_last() =~= texture_paths@.take(i as int));
                assert(next.last() == texture_paths@[i as int]);
            }
            manifest.insert(name, path);
            i = i + 1;
        }
        proof {
            assert(texture_paths@.take(i as int) =~= texture_paths@);
        }
        TextureManager { manifest, textures: StringHashMap::new(), loaded: Vec::new() }
    }

    /// Looks `name` up. A loaded texture is returned from the cache. A name
    /// that is not loaded is answered from the manifest: with the path to
    /// load it from, or with `NameNotInManifest`. Nothing is read or loaded.
    pub fn get_texture(&self, name: &str) -> (found: Result<TextureLookup, TextureManagerError>)
        ensures
            match found {
                Ok(lookup) => self.lookup(name@) == Some(lookup@),
                Err(e) => e is NameNotInManifest && self.lookup(name@) is None,
            },
    {
        match self.textures.get(name) {
            Some(id) => Ok(TextureLookup::Cached(*id)),
            None => match self.manifest.get(name) {
                Some(path) => Ok(TextureLookup::Load { path: path.clone() }),
                None => Err(TextureManagerError::NameNotInManifest),
            },
        }
    }

    /// Records that the texture of `name` has been loaded. The texture takes
    /// the next place in the order of loading, and that place is its
    /// identity from then on. A name that is cached already keeps its
    /// texture, and a name that the manifest does not have is refused; the
    /// cache is unchanged in both cases.
    pub fn insert(&mut self, name: &str, descriptor: TextureDescriptor) -> (inserted: Result<
        TextureId,
        TextureManagerError,
    >)
        requires
            old(self).well_formed(),
        ensures
            final(self).well_formed(),
            final(self).manifest() == old(self).manifest(),
            match old(self).lookup(name@) {
                None => {
                    &&& inserted matches Err(TextureManagerError::NameNotInManifest)
                    &&& final(self).cache() == old(self).cache()
                    &&& final(self).loaded() == old(self).loaded()
                },
                Some(TextureLookupView::Cached(id)) => {
                    &&& inserted == Ok::<_, TextureManagerError>(id)
                    &&& final(self).cache() == old(self).cache()
                    &&& final(self).loaded() == old(self).loaded()
                },
                Some(TextureLookupView::Load { path }) => {
                    &&& inserted == Ok::<_, TextureManagerError>(
                        TextureId(old(self).loaded().len() as usize),
                    )
                    &&& final(self).cache() == old(self).cache().insert(
                        name@,
                        TextureId(old(self).loaded().len() as usize),
                    )
                    &&& final(self).loaded() == old(self).loaded().push((name@, descriptor))
                },
            },
    {
        match self.textures.get(name) {
            Some(id) => {
                return Ok(*id);
            },
            None => {},
        }
        if !self.manifest.contains_key(name) {
            return Err(TextureManagerError::NameNotInManifest);
        }
        let id = TextureId(self.loaded.len());
        let ghost before = *self;
        self.loaded.push(LoadedTexture { name: name.to_owned(), descriptor });
        self.textures.insert(name.to_owned(), id);
        proof {
            assert(self.loaded() =~= before.loaded().push((name@, descriptor)));
            assert(self.manifest() == before.manifest());
            assert forall|n: Seq<char>| #[trigger] self.cache().contains_key(n) implies {
                &&& self.manifest().contains_key(n)
                &&& self.cache()[n].0 < self.loaded().len()
                &&& self.loaded()[self.cache()[n].0 as int].0 == n
            } by {
                if n != name@ {
                    assert(before.cache().contains_key(n));
                }
            }
            assert forall|i: int| 0 <= i < self.loaded().len() implies {
                &&& self.cache().contains_key((#[trigger] self.loaded()[i]).0)
                &&& self.cache()[self.loaded()[i].0].0 == i
            } by {
                if i < before.loaded().len() {
                    assert(before.cache().contains_key(before.loaded()[i].0));
                }
            }
        }
        Ok(id)
    }

    /// The number of textures loaded so far.
    pub fn len(&self) -> (count: usize)
        ensures
            count == self.loaded().len(),
    {
        self.loaded.len()
    }

    /// The description of the loaded texture `id`, if there is one.
    pub fn descriptor(&self, id: TextureId) -> (descriptor: Option<TextureDescriptor>)
        ensures
            descriptor == if id.0 < self.loaded().len() {
                Some(self.loaded()[id.0 as int].1)
            } else {
                None
            },
    {
        if id.0 < self.loaded.len() {
            Some(self.loaded[id.0].descriptor)
        } else {
            None
        }
    }
}

/// What the cache says of a name, with the path as a sequence of characters.
pub enum TextureLookupView {
    Cached(TextureId),
    Load { path: Seq<char> },
}

impl View for TextureLookup {
    type V = TextureLookupView;

    open spec fn view(&self) -> TextureLookupView {
        match self {
            TextureLookup::Cached(id) => TextureLookupView::Cached(*id),
            TextureLookup::Load { path } => TextureLookupView::Load { path: path@ },
        }
    }
}

/// A texture is loaded once. After the texture of `name` has been recorded
/// in a cache that did not hold it, the cache answers `name` with that
/// texture, and every name that was cached before is still answered with the
/// texture it had.
pub proof fn lemma_loaded_once(
    before: TextureManager,
    after: TextureManager,
    name: Seq<char>,
    id: TextureId,
    other: Seq<char>,
)
    requires
        before.well_formed(),
        !before.cache().contains_key(name),
        after.manifest() == before.manifest(),
        after.cache() == before.cache().insert(name, id),
    ensures
        after.lookup(name) == Some(TextureLookupView::Cached(id)),
        before.lookup(other) matches Some(TextureLookupView::Cached(_)) ==> after.lookup(other)
            == before.lookup(other),
{
}

/// A name that the manifest does not have is never found: whatever has been
/// loaded, the cache answers it with nothing, and `get_texture` with
/// `NameNotInManifest`.
pub proof fn lemma_missing_name_is_never_found(manager: TextureManager, name: Seq<char>)
    requires
        manager.well_formed(),
        !manager.manifest().contains_key(name),
    ensures
        manager.lookup(name) is None,
{
}

/// A failed load leaves no trace: a name that is not cached is answered from
/// the manifest, with the same path, as long as nothing is recorded for it.
pub proof fn lemma_failed_load_is_retried(manager: TextureManager, name: Seq<char>)
    requires
        manager.well_formed(),
        manager.manifest().contains_key(name),
        !manager.cache().contains_key(name),
    ensures
        manager.lookup(name) == Some(
            TextureLookupView::Load { path: manager.manifest()[name] },
        ),
{
}

} // verus!
