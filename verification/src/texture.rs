//! Decoded images and the texture resource that an object samples.

use vstd::prelude::*;

verus! {

/// Why a decoded image cannot become a texture.
#[derive(Clone, Copy, Debug, PartialEq, Eq)]
pub enum AssetError {
    /// The width or the height is zero.
    ZeroDimension,
    /// The pixel buffer does not hold four bytes for each pixel of the declared size.
    LengthMismatch,
}

/// A decoded raster image: rows from top to bottom, pixels from left to
/// right, four bytes (red, green, blue, alpha) per pixel.
#[derive(Debug, PartialEq, Eq)]
pub struct Image {
    pub pixels: Vec<u8>,
    pub width: u32,
    pub height: u32,
}

/// The mathematical value of an [`Image`].
pub struct ImageView {
    pub pixels: Seq<u8>,
    pub width: u32,
    pub height: u32,
}

impl View for Image {
    type V = ImageView;

    open spec fn view(&self) -> ImageView {
        ImageView { pixels: self.pixels@, width: self.width, height: self.height }
    }
}

impl ImageView {
    /// Bytes that a dense RGBA8 grid of this width and height occupies.
    pub open spec fn dense_len(self) -> int {
        4 * self.width * self.height
    }

    /// The image has pixels, and exactly four bytes for each.
    pub open spec fn is_dense(self) -> bool {
        &&& self.width > 0
        &&& self.height > 0
        &&& self.pixels.len() == self.dense_len()
    }

    /// The byte of channel `channel` (red, green, blue, alpha in this order)
    /// of the pixel in column `x` of row `y`.
    pub open spec fn channel(self, x: int, y: int, channel: int) -> u8 {
        self.pixels[4 * (y * self.width + x) + channel]
    }

    /// Why an image that is not dense is turned away: for an empty size, or
    /// else for the length of its pixel buffer.
    pub open spec fn rejection(self) -> AssetError {
        if self.width == 0 || self.height == 0 {
            AssetError::ZeroDimension
        } else {
            AssetError::LengthMismatch
        }
    }
}

/// Pixel encodings of a texture.
#[derive(Clone, Copy, Debug, PartialEq, Eq)]
pub enum TextureFormat {
    /// Four 8-bit channels, red first, linear.
    Rgba8Unorm,
    /// Four 8-bit channels, red first, colour channels sRGB-encoded.
    Rgba8UnormSrgb,
    /// Four 8-bit channels, blue first, linear.
    Bgra8Unorm,
    /// Four 8-bit channels, blue first, colour channels sRGB-encoded.
    Bgra8UnormSrgb,
}

/// Number of dimensions of a texture.
#[derive(Clone, Copy, Debug, PartialEq, Eq)]
pub enum TextureDimension {
    D1,
    D2,
    D3,
}

/// What a texture may be used for.
#[derive(Clone, Copy, Debug, PartialEq, Eq)]
pub struct TextureUsages {
    pub copy_src: bool,
    pub copy_dst: bool,
    pub texture_binding: bool,
    pub render_attachment: bool,
}

/// The device storage that a texture asks for.
#[derive(Clone, Copy, Debug, PartialEq, Eq)]
pub struct TextureDescriptor {
    pub width: u32,
    pub height: u32,
    pub depth_or_array_layers: u32,
    pub mip_level_count: u32,
    pub sample_count: u32,
    pub dimension: TextureDimension,
    pub format: TextureFormat,
    pub usage: TextureUsages,
}

/// How a sampler treats coordinates outside the texture.
#[derive(Clone, Copy, Debug, PartialEq, Eq)]
pub enum AddressMode {
    ClampToEdge,
    Repeat,
    MirrorRepeat,
}

/// How a sampler picks a colour between texels.
#[derive(Clone, Copy, Debug, PartialEq, Eq)]
pub enum FilterMode {
    Nearest,
    Linear,
}

/// How a texture is sampled.
#[derive(Clone, Copy, Debug, PartialEq, Eq)]
pub struct SamplerDescriptor {
    pub address_mode_u: AddressMode,
    pub address_mode_v: AddressMode,
    pub address_mode_w: AddressMode,
    pub mag_filter: FilterMode,
    pub min_filter: FilterMode,
}

/// Where the rows of an image lie in a linear buffer.
#[derive(Clone, Copy, Debug, PartialEq, Eq)]
pub struct ImageDataLayout {
    /// Byte offset of the first row.
    pub offset: u64,
    /// Byte distance between the starts of consecutive rows.
    pub bytes_per_row: u64,
    pub rows_per_image: u32,
}

/// The storage of a sampled texture of the given size: one 2D RGBA8 sRGB
/// image without mip levels, that can be copied into and bound for sampling.
pub open spec fn sampled_texture(width: u32, height: u32) -> TextureDescriptor {
    TextureDescriptor {
        width,
        height,
        depth_or_array_layers: 1,
        mip_level_count: 1,
        sample_count: 1,
        dimension: TextureDimension::D2,
        format: TextureFormat::Rgba8UnormSrgb,
        usage: TextureUsages {
            copy_src: false,
            copy_dst: true,
            texture_binding: true,
            render_attachment: false,
        },
    }
}

/// The sampler of every texture: linear filtering, coordinates clamped to the edge.
pub open spec fn linear_clamp_sampler() -> SamplerDescriptor {
    SamplerDescriptor {
        address_mode_u: AddressMode::ClampToEdge,
        address_mode_v: AddressMode::ClampToEdge,
        address_mode_w: AddressMode::ClampToEdge,
        mag_filter: FilterMode::Linear,
        min_filter: FilterMode::Linear,
    }
}

/// A texture resource: a validated RGBA8 image, together with the storage,
/// the upload and the sampler that the device needs for it. It never changes
/// after creation.
#[derive(Debug, PartialEq, Eq)]
pub struct Texture {
    image: Image,
}

impl View for Texture {
    type V = ImageView;

    closed spec fn view(&self) -> ImageView {
        self.image@
    }
}

impl Texture {
    #[verifier::type_invariant]
    spec fn well_formed(self) -> bool {
        self.image@.is_dense()
    }

    /// Makes a texture of a decoded image, or says why the image is unusable.
    pub fn from_image(image: Image) -> (made: Result<Texture, AssetError>)
        ensures
            made is Ok <==> image@.is_dense(),
            made matches Ok(texture) ==> texture@ == image@,
            made matches Err(error) ==> error == image@.rejection(),
    {
        if image.width == 0 || image.height == 0 {
            return Err(AssetError::ZeroDimension);
        }
        let width: u64 = image.width as u64;
        let height: u64 = image.height as u64;
        assert(width * height <= 0xffff_ffff * 0xffff_ffff) by (nonlinear_arith)
            requires
                width <= 0xffff_ffff,
                height <= 0xffff_ffff,
        ;
        let texels: u64 = width * height;
        let len: usize = image.pixels.len();
        if len % 4 != 0 || (len / 4) as u64 != texels {
            assert(image@.dense_len() == 4 * (width * height)) by (nonlinear_arith)
                requires
                    width == image.width,
                    height == image.height,
                    image@.dense_len() == 4 * image.width * image.height,
            ;
            return Err(AssetError::LengthMismatch);
        }
        assert(image@.dense_len() == 4 * (width * height)) by (nonlinear_arith)
            requires
                width == image.width,
                height == image.height,
                image@.dense_len() == 4 * image.width * image.height,
        ;
        Ok(Texture { image })
    }

    /// Width in pixels.
    pub fn width(&self) -> (width: u32)
        ensures
            width == self@.width,
            self@.is_dense(),
    {
        proof {
            use_type_invariant(self);
        }
        self.image.width
    }

    /// Height in pixels.
    pub fn height(&self) -> (height: u32)
        ensures
            height == self@.height,
            self@.is_dense(),
    {
        proof {
            use_type_invariant(self);
        }
        self.image.height
    }

    /// The pixel bytes that are uploaded into the texture.
    pub fn pixels(&self) -> (pixels: &Vec<u8>)
        ensures
            pixels@ == self@.pixels,
            self@.is_dense(),
    {
        proof {
            use_type_invariant(self);
        }
        &self.image.pixels
    }

    /// The device storage to allocate: sized to the image.
    pub fn descriptor(&self) -> (descriptor: TextureDescriptor)
        ensures
            descriptor == sampled_texture(self@.width, self@.height),
    {
        TextureDescriptor {
            width: self.image.width,
            height: self.image.height,
            depth_or_array_layers: 1,
            mip_level_count: 1,
            sample_count: 1,
            dimension: TextureDimension::D2,
            format: TextureFormat::Rgba8UnormSrgb,
            usage: TextureUsages {
                copy_src: false,
                copy_dst: true,
                texture_binding: true,
                render_attachment: false,
            },
        }
    }

    /// Where the rows of the pixel buffer lie for the upload: dense, from offset 0.
    pub fn upload_layout(&self) -> (layout: ImageDataLayout)
        ensures
            layout.offset == 0,
            layout.bytes_per_row == 4 * self@.width,
            layout.rows_per_image == self@.height,
            layout.bytes_per_row * layout.rows_per_image == self@.pixels.len(),
    {
        proof {
            use_type_invariant(self);
            assert(4 * self@.width * self@.height == (4 * self@.width) * self@.height)
                by (nonlinear_arith);
        }
        ImageDataLayout {
            offset: 0,
            bytes_per_row: 4 * (self.image.width as u64),
            rows_per_image: self.image.height,
        }
    }

    /// The sampler through which the fragment stage reads the texture.
    pub fn sampler(&self) -> (sampler: SamplerDescriptor)
        ensures
            sampler == linear_clamp_sampler(),
    {
        SamplerDescriptor {
            address_mode_u: AddressMode::ClampToEdge,
            address_mode_v: AddressMode::ClampToEdge,
            address_mode_w: AddressMode::ClampToEdge,
            mag_filter: FilterMode::Linear,
            min_filter: FilterMode::Linear,
        }
    }
}

} // verus!
