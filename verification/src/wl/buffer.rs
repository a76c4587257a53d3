//! Shared-memory pools and the buffers clients carve out of them.
use vstd::prelude::*;
use crate::entity::Entity;

verus! {

/// The `wl_shm` format codes the compositor supports, in the order it
/// advertises them: ARGB8888, XRGB8888, RGB565, YUV420, YUV444, NV12, YUYV,
/// XYUV8888, ABGR2101010, XBGR2101010, ABGR16161616F, XBGR16161616F,
/// ABGR16161616, XBGR16161616.
pub open spec fn spec_shm_formats() -> Seq<u32> {
    seq![
        0u32,
        1u32,
        0x36314752u32,
        0x32315559u32,
        0x34325559u32,
        0x3231564eu32,
        0x56595559u32,
        0x56555958u32,
        0x30334241u32,
        0x30334258u32,
        0x48344241u32,
        0x48344258u32,
        0x38344241u32,
        0x38344258u32,
    ]
}

/// The supported formats, to advertise when a client binds `wl_shm`.
pub fn shm_formats() -> (r: Vec<u32>)
    ensures
        r@ == spec_shm_formats(),
{
    let r = vec![
        0u32,
        1u32,
        0x36314752u32,
        0x32315559u32,
        0x34325559u32,
        0x3231564eu32,
        0x56595559u32,
        0x56555958u32,
        0x30334241u32,
        0x30334258u32,
        0x48344241u32,
        0x48344258u32,
        0x38344241u32,
        0x38344258u32,
    ];
    assert(r@ =~= spec_shm_formats());
    r
}

/// Whether the compositor supports a format.
pub fn is_supported_format(format: u32) -> (r: bool)
    ensures
        r == spec_shm_formats().contains(format),
{
    let formats = shm_formats();
    let mut i: usize = 0;
    while i < formats.len()
        invariant
            formats@ == spec_shm_formats(),
            i <= formats.len(),
            forall|j: int| 0 <= j < i ==> formats@[j] != format,
        decreases formats.len() - i,
    {
        if formats[i] == format {
            return true;
        }
        i = i + 1;
    }
    false
}

/// A format as a request carries it: a value of the protocol enum, or an
/// unknown value.
#[derive(Clone, Copy, PartialEq, Eq, Debug, Structural)]
pub enum ShmFormat {
    Value(u32),
    Unknown(u32),
}

/// Why a `wl_shm_pool.create_buffer` request is refused.
#[derive(Clone, Copy, PartialEq, Eq, Debug, Structural)]
pub enum ShmBufferError {
    /// "offset must not be negative" (`invalid_stride`).
    NegativeOffset,
    /// "invalid width or height" (`invalid_stride`).
    InvalidSize { width: i32, height: i32 },
    /// "width must not be larger than stride" (`invalid_stride`).
    StrideTooSmall { width: i32, stride: i32 },
    /// "height is too large for stride", with the largest height allowed
    /// (`invalid_stride`).
    HeightTooLarge { max: i32 },
    /// "offset is too large" (`invalid_stride`).
    OffsetTooLarge,
    /// "unknown format" (`invalid_format`).
    UnknownFormat(u32),
    /// "format not supported" (`invalid_format`).
    UnsupportedFormat(u32),
}

/// A buffer in a shared-memory pool.
#[derive(Clone, Copy, PartialEq, Eq, Debug, Structural)]
pub struct WlBuffer {
    pub offset: i32,
    pub width: i32,
    pub height: i32,
    pub stride: i32,
    pub format: u32,
    pub attach_by: Option<Entity>,
}

/// The answer to a `create_buffer` request: the protocol error to post, if
/// any, and the buffer to create, if any.
#[derive(Clone, Copy, PartialEq, Eq, Debug, Structural)]
pub struct CreateBufferCheck {
    pub error: Option<ShmBufferError>,
    pub buffer: Option<WlBuffer>,
}

/// The first thing wrong with the geometry of a requested buffer in a pool
/// of `pool_size` bytes.
pub open spec fn spec_buffer_geometry_error(
    offset: i32,
    width: i32,
    height: i32,
    stride: i32,
    pool_size: usize,
) -> Option<ShmBufferError> {
    if offset < 0 {
        Some(ShmBufferError::NegativeOffset)
    } else if width <= 0 || height <= 0 {
        Some(ShmBufferError::InvalidSize { width, height })
    } else if stride < width {
        Some(ShmBufferError::StrideTooSmall { width, stride })
    } else if i32::MAX / stride < height {
        Some(ShmBufferError::HeightTooLarge { max: (i32::MAX / stride) as i32 })
    } else if offset > pool_size - stride * height {
        Some(ShmBufferError::OffsetTooLarge)
    } else {
        None
    }
}

/// The answer to `create_buffer`: a geometry error refuses the buffer; an
/// unknown format refuses it too; a known but unsupported format is
/// reported, and the buffer is made all the same.
pub open spec fn spec_check_create_buffer(
    offset: i32,
    width: i32,
    height: i32,
    stride: i32,
    pool_size: usize,
    format: ShmFormat,
) -> CreateBufferCheck {
    match spec_buffer_geometry_error(offset, width, height, stride, pool_size) {
        Some(e) => CreateBufferCheck { error: Some(e), buffer: None },
        None => match format {
            ShmFormat::Unknown(f) => CreateBufferCheck {
                error: Some(ShmBufferError::UnknownFormat(f)),
                buffer: None,
            },
            ShmFormat::Value(f) => CreateBufferCheck {
                error: if spec_shm_formats().contains(f) {
                    None
                } else {
                    Some(ShmBufferError::UnsupportedFormat(f))
                },
                buffer: Some(WlBuffer { offset, width, height, stride, format: f, attach_by: None }),
            },
        },
    }
}

/// Checks a `wl_shm_pool.create_buffer` request against the pool's size.
pub fn check_create_buffer(
    offset: i32,
    width: i32,
    height: i32,
    stride: i32,
    pool_size: usize,
    format: ShmFormat,
) -> (r: CreateBufferCheck)
    requires
        pool_size <= i32::MAX,
    ensures
        r == spec_check_create_buffer(offset, width, height, stride, pool_size, format),
{
    let error = if offset < 0 {
        Some(ShmBufferError::NegativeOffset)
    } else if width <= 0 || height <= 0 {
        Some(ShmBufferError::InvalidSize { width, height })
    } else if stride < width {
        Some(ShmBufferError::StrideTooSmall { width, stride })
    } else if i32::MAX / stride < height {
        Some(ShmBufferError::HeightTooLarge { max: i32::MAX / stride })
    } else {
        assert(stride * height <= i32::MAX) by (nonlinear_arith)
            requires
                stride > 0,
                height > 0,
                height <= i32::MAX / stride,
        ;
        assert(stride * height > 0) by (nonlinear_arith)
            requires
                stride > 0,
                height > 0,
        ;
        if offset > pool_size as i32 - stride * height {
            Some(ShmBufferError::OffsetTooLarge)
        } else {
            None
        }
    };
    match error {
        Some(e) => CreateBufferCheck { error: Some(e), buffer: None },
        None => match format {
            ShmFormat::Unknown(f) => CreateBufferCheck {
                error: Some(ShmBufferError::UnknownFormat(f)),
                buffer: None,
            },
            ShmFormat::Value(f) => CreateBufferCheck {
                error: if is_supported_format(f) {
                    None
                } else {
                    Some(ShmBufferError::UnsupportedFormat(f))
                },
                buffer: Some(WlBuffer { offset, width, height, stride, format: f, attach_by: None }),
            },
        },
    }
}

/// Why a pool cannot be made or resized.
#[derive(Clone, Copy, PartialEq, Eq, Debug, Structural)]
pub enum ShmPoolError {
    /// "invalid wl_shm_pool size".
    InvalidSize,
    /// "cannot shrink wl_shm_pool".
    CannotShrink,
}

/// A shared-memory pool, by its size in bytes.
#[derive(Clone, Copy, PartialEq, Eq, Debug, Structural)]
pub struct WlShmPool {
    pub size: usize,
}

/// Checks the size of a pool to create: it must be positive.
pub fn check_pool_size(size: i32) -> (r: Result<usize, ShmPoolError>)
    ensures
        size <= 0 ==> r == Err::<usize, ShmPoolError>(ShmPoolError::InvalidSize),
        size > 0 ==> r == Ok::<usize, ShmPoolError>(size as usize),
{
    if size <= 0 {
        Err(ShmPoolError::InvalidSize)
    } else {
        Ok(size as usize)
    }
}

impl WlShmPool {
    /// Checks a resize of the pool: the new size must be positive and larger
    /// than the current one. Gives back the new size.
    pub fn check_resize(&self, size: i32) -> (r: Result<usize, ShmPoolError>)
        ensures
            size <= 0 ==> r == Err::<usize, ShmPoolError>(ShmPoolError::InvalidSize),
            size > 0 && self.size >= size ==> r == Err::<usize, ShmPoolError>(
                ShmPoolError::CannotShrink,
            ),
            size > 0 && self.size < size ==> r == Ok::<usize, ShmPoolError>(size as usize),
    {
        if size <= 0 {
            return Err(ShmPoolError::InvalidSize);
        }
        if self.size >= size as usize {
            return Err(ShmPoolError::CannotShrink);
        }
        Ok(size as usize)
    }
}

/// A buffer that a client has attached before the compositor knew its kind.
pub struct UninitedWlBuffer;

/// The flags of a DMA buffer.
#[derive(Clone, Copy, PartialEq, Eq, Debug, Hash, Structural)]
pub struct DmabufFlags {
    pub bits: u32,
}

/// The DMA-buffer flag: the image is stored bottom up.
pub const DMABUF_Y_INVERT: u32 = 1;
/// The DMA-buffer flag: the image is interlaced.
pub const DMABUF_INTERLACED: u32 = 2;
/// The DMA-buffer flag: the bottom field comes first.
pub const DMABUF_BOTTOM_FIRST: u32 = 4;

/// Handles `wl_buffer`, `wl_shm` and `wl_shm_pool` requests.
pub struct BufferDelegate;

/// The plugin for buffers.
pub struct WlBufferPlugin;

/// Every buffer that `create_buffer` makes lies inside its pool: it starts
/// at a non-negative offset, has a positive size, a stride of at least its
/// width, and ends before the end of the pool.
pub proof fn lemma_created_buffer_in_pool(
    offset: i32,
    width: i32,
    height: i32,
    stride: i32,
    pool_size: usize,
    format: ShmFormat,
)
    requires
        pool_size <= i32::MAX,
        spec_check_create_buffer(offset, width, height, stride, pool_size, format).buffer is Some,
    ensures
        offset >= 0,
        width > 0,
        height > 0,
        stride >= width,
        offset + stride * height <= pool_size,
{
}

} // verus!
