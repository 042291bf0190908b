//! The display: a file in shared memory that holds two frames.
//!
//! The file begins with a header of one page, then come the two frames. The
//! monitor draws into the back frame while the display application shows the
//! front frame; a flip swaps them.

use std::collections::HashMap;

use vstd::prelude::*;

use crate::words::le32;

verus! {

broadcast use vstd::std_specs::hash::group_hash_axioms;

/// The word that marks the header: its bytes, the lowest first, spell `AETH`.
pub const SHM_MAGIC: u32 = 0x4854_4541;

/// The version of the layout.
pub const SHM_VERSION: u32 = 1;

/// The size of the header.
pub const SHM_HEADER_SIZE: usize = 4096;

/// The size of a pixel.
pub const BYTES_PER_PIXEL: u32 = 4;

/// The format of a pixel: blue, green, red and an unused byte.
pub const DRM_FORMAT_XRGB8888: u32 = 0x3432_5258;

/// The byte that tells the display application of a new frame.
pub const FRAME_SIGNAL: u8 = 0x46;

/// What can go wrong with the display.
#[derive(Clone, Copy, Debug, PartialEq, Eq, Structural)]
pub enum GpuDisplayError {
    CreateSurface,
    CreateEvent,
    Unsupported,
}

/// The header of the file.
#[derive(Clone, Copy, Debug, PartialEq, Eq, Structural)]
pub struct ShmHeader {
    pub magic: u32,
    pub version: u32,
    pub width: u32,
    pub height: u32,
    /// The size of a row.
    pub stride: u32,
    pub format: u32,
    /// The number of frames so far.
    pub frame_seq: u32,
    /// The front frame, zero or one.
    pub active_buffer: u32,
}

/// The size of a frame.
pub open spec fn frame_size(width: u32, height: u32) -> int {
    width * height * BYTES_PER_PIXEL
}

/// The size of the file.
pub open spec fn file_size(width: u32, height: u32) -> int {
    SHM_HEADER_SIZE + 2 * frame_size(width, height)
}

/// Whether the sizes of a surface are numbers of the machine.
pub open spec fn surface_fits(width: u32, height: u32) -> bool {
    &&& width * BYTES_PER_PIXEL <= u32::MAX
    &&& width * height <= usize::MAX
    &&& file_size(width, height) <= usize::MAX
}

/// Where frame `index` begins.
pub open spec fn frame_offset(width: u32, height: u32, index: int) -> int {
    SHM_HEADER_SIZE + index * frame_size(width, height)
}

/// The frame that is not shown.
pub open spec fn back_frame(active_buffer: u32) -> int {
    1 - (active_buffer % 2) as int
}

/// The header of a new surface.
pub open spec fn surface_header(width: u32, height: u32) -> ShmHeader {
    ShmHeader {
        magic: SHM_MAGIC,
        version: SHM_VERSION,
        width,
        height,
        stride: (width * BYTES_PER_PIXEL) as u32,
        format: DRM_FORMAT_XRGB8888,
        frame_seq: 0,
        active_buffer: 0,
    }
}

/// A word that is written to the file, the lowest byte first.
#[derive(Clone, Copy, Debug, PartialEq, Eq, Structural)]
pub struct HeaderWrite {
    pub offset: usize,
    pub value: u32,
}

/// The order in which the header is written: the mark comes last, so a reader
/// that sees it sees all other fields.
pub open spec fn header_order(header: ShmHeader) -> Seq<HeaderWrite> {
    seq![
        HeaderWrite { offset: 4, value: header.version },
        HeaderWrite { offset: 8, value: header.width },
        HeaderWrite { offset: 12, value: header.height },
        HeaderWrite { offset: 16, value: header.stride },
        HeaderWrite { offset: 20, value: header.format },
        HeaderWrite { offset: 24, value: header.frame_seq },
        HeaderWrite { offset: 28, value: header.active_buffer },
        HeaderWrite { offset: 0, value: header.magic },
    ]
}

fn header_writes(header: &ShmHeader) -> (writes: Vec<HeaderWrite>)
    ensures
        writes@ == header_order(*header),
{
    let mut writes: Vec<HeaderWrite> = Vec::new();
    writes.push(HeaderWrite { offset: 4, value: header.version });
    writes.push(HeaderWrite { offset: 8, value: header.width });
    writes.push(HeaderWrite { offset: 12, value: header.height });
    writes.push(HeaderWrite { offset: 16, value: header.stride });
    writes.push(HeaderWrite { offset: 20, value: header.format });
    writes.push(HeaderWrite { offset: 24, value: header.frame_seq });
    writes.push(HeaderWrite { offset: 28, value: header.active_buffer });
    writes.push(HeaderWrite { offset: 0, value: header.magic });
    assert(writes@ =~= header_order(*header));
    writes
}

/// The order in which a swap of the frames is written: the number of frames comes
/// last, so a reader that sees a new number sees which frame to show.
pub open spec fn swap_order(header: ShmHeader) -> Seq<HeaderWrite> {
    seq![
        HeaderWrite { offset: 28, value: header.active_buffer },
        HeaderWrite { offset: 24, value: header.frame_seq },
    ]
}

/// The bytes of a file after one word was written to it.
pub open spec fn with_word(bytes: Seq<u8>, write: HeaderWrite) -> Seq<u8> {
    bytes.take(write.offset as int) + le32(write.value) + bytes.skip(write.offset + 4)
}

/// The bytes of a file after words were written to it, one after the other.
pub open spec fn with_words(bytes: Seq<u8>, writes: Seq<HeaderWrite>) -> Seq<u8>
    decreases writes.len(),
{
    if writes.len() == 0 {
        bytes
    } else {
        with_word(with_words(bytes, writes.drop_last()), writes.last())
    }
}

/// A surface.
#[derive(Clone, Copy, Debug, PartialEq, Eq, Structural)]
pub struct ShmSurface {
    pub width: u32,
    pub height: u32,
    /// Whether a display application is connected.
    pub connected: bool,
}

/// What makes up a surface.
#[derive(Clone, Copy, Debug, PartialEq, Eq, Structural)]
pub struct SurfaceLayout {
    /// The size of the file.
    pub file_len: usize,
    /// The header, whose mark is written last.
    pub header: ShmHeader,
}

/// A frame that can be drawn into.
#[derive(Clone, Copy, Debug, PartialEq, Eq, Structural)]
pub struct Framebuffer {
    /// Where in the file the frame begins.
    pub offset: usize,
    pub size: usize,
    /// The size of a row.
    pub stride: u32,
    pub bytes_per_pixel: u32,
}

/// A surface once its file is there or not, and what is then written to the file.
pub open spec fn new_surface(width: u32, height: u32, connected: bool, file: bool) -> Result<
    (ShmSurface, Seq<HeaderWrite>),
    GpuDisplayError,
> {
    if file {
        Ok(
            (
                ShmSurface { width, height, connected },
                header_order(surface_header(width, height)),
            ),
        )
    } else {
        Err(GpuDisplayError::CreateSurface)
    }
}

/// A header once the frames were swapped.
pub open spec fn swapped(header: ShmHeader) -> ShmHeader {
    ShmHeader {
        active_buffer: back_frame(header.active_buffer) as u32,
        frame_seq: ((header.frame_seq + 1) % 0x1_0000_0000) as u32,
        ..header
    }
}

/// A surface once a display application was told of a frame, or another connected.
pub open spec fn frame_told(surface: ShmSurface, told: bool, accepted: bool) -> ShmSurface {
    ShmSurface { connected: (surface.connected && told) || accepted, ..surface }
}

/// The frame of a surface to draw into.
pub open spec fn back_framebuffer(width: u32, height: u32, active_buffer: u32) -> Framebuffer {
    Framebuffer {
        offset: frame_offset(width, height, back_frame(active_buffer)) as usize,
        size: frame_size(width, height) as usize,
        stride: (width * BYTES_PER_PIXEL) as u32,
        bytes_per_pixel: BYTES_PER_PIXEL,
    }
}

impl ShmSurface {
    /// Whether the sizes of the surface are numbers of the machine.
    pub open spec fn wf(self) -> bool {
        surface_fits(self.width, self.height)
    }

    /// The file of a surface.
    pub fn layout(width: u32, height: u32) -> (layout: SurfaceLayout)
        requires
            surface_fits(width, height),
        ensures
            layout.file_len == file_size(width, height),
            layout.header == surface_header(width, height),
    {
        let pixels: usize = width as usize * height as usize;
        assert(pixels * BYTES_PER_PIXEL == frame_size(width, height));
        let fb_size: usize = pixels * BYTES_PER_PIXEL as usize;
        SurfaceLayout {
            file_len: SHM_HEADER_SIZE + fb_size * 2,
            header: ShmHeader {
                magic: SHM_MAGIC,
                version: SHM_VERSION,
                width,
                height,
                stride: width * BYTES_PER_PIXEL,
                format: DRM_FORMAT_XRGB8888,
                frame_seq: 0,
                active_buffer: 0,
            },
        }
    }

    /// A surface, once its file was made, sized and mapped, and what is then
    /// written to the file, in this order: the header, whose mark comes last.
    pub fn new(
        width: u32,
        height: u32,
        connected: bool,
        created: bool,
        sized: bool,
        mapped: bool,
    ) -> (r: Result<(ShmSurface, Vec<HeaderWrite>), GpuDisplayError>)
        requires
            surface_fits(width, height),
        ensures
            match new_surface(width, height, connected, created && sized && mapped) {
                Ok((surface, writes)) => r matches Ok(made) && made.0 == surface && made.1@
                    == writes,
                Err(e) => r == Err::<(ShmSurface, Vec<HeaderWrite>), GpuDisplayError>(e),
            },
    {
        if !created {
            return Err(GpuDisplayError::CreateSurface);
        }
        if !sized {
            return Err(GpuDisplayError::CreateSurface);
        }
        if !mapped {
            return Err(GpuDisplayError::CreateSurface);
        }
        let header: ShmHeader = Self::layout(width, height).header;
        Ok((ShmSurface { width, height, connected }, header_writes(&header)))
    }

    /// The size of a frame.
    pub fn single_buffer_size(&self) -> (n: usize)
        requires
            self.wf(),
        ensures
            n == frame_size(self.width, self.height),
    {
        let pixels: usize = self.width as usize * self.height as usize;
        assert(pixels * BYTES_PER_PIXEL == frame_size(self.width, self.height));
        pixels * BYTES_PER_PIXEL as usize
    }

    /// Where the back frame begins.
    pub fn back_buffer_offset(&self, header: &ShmHeader) -> (offset: usize)
        requires
            self.wf(),
        ensures
            offset == back_framebuffer(self.width, self.height, header.active_buffer).offset,
            offset == frame_offset(self.width, self.height, back_frame(header.active_buffer)),
            offset + frame_size(self.width, self.height) <= file_size(self.width, self.height),
    {
        let size: usize = self.single_buffer_size();
        proof {
            let n = frame_size(self.width, self.height);
            assert(0 * n == 0 && 1 * n == n) by (nonlinear_arith);
        }
        if header.active_buffer % 2 == 0 {
            SHM_HEADER_SIZE + size
        } else {
            SHM_HEADER_SIZE
        }
    }

    /// The frame to draw into.
    pub fn framebuffer(&self, header: &ShmHeader) -> (fb: Framebuffer)
        requires
            self.wf(),
        ensures
            fb == back_framebuffer(self.width, self.height, header.active_buffer),
            fb.offset == frame_offset(self.width, self.height, back_frame(header.active_buffer)),
            fb.size == frame_size(self.width, self.height),
            fb.stride == self.width * BYTES_PER_PIXEL,
    {
        Framebuffer {
            offset: self.back_buffer_offset(header),
            size: self.single_buffer_size(),
            stride: self.width * BYTES_PER_PIXEL,
            bytes_per_pixel: BYTES_PER_PIXEL,
        }
    }

    /// Swaps the frames: the back frame is shown from now on, and the number of
    /// frames goes up, around at its end. Returns what is written to the file, in
    /// this order.
    pub fn signal_frame(header: &mut ShmHeader) -> (writes: Vec<HeaderWrite>)
        ensures
            writes@ == swap_order(*final(header)),
            *final(header) == swapped(*old(header)),
    {
        header.active_buffer = 1 - header.active_buffer % 2;
        header.frame_seq = header.frame_seq.wrapping_add(1);
        let writes: Vec<HeaderWrite> = vec![
            HeaderWrite { offset: 28, value: header.active_buffer },
            HeaderWrite { offset: 24, value: header.frame_seq },
        ];
        assert(writes@ =~= swap_order(*header));
        writes
    }

    /// The connection to the display application after a frame was told: `told`
    /// says whether telling it succeeded, `accepted` whether another application
    /// waited to connect. The first counts only if one is connected, the second
    /// only if none is any more.
    pub fn client_told(&mut self, told: bool, accepted: bool)
        ensures
            *final(self) == frame_told(*old(self), told, accepted),
    {
        if self.connected && !told {
            self.connected = false;
        }
        if !self.connected {
            self.connected = accepted;
        }
    }
}

/// The number of rows that a frame takes from an image.
pub open spec fn copied_rows(height: u32, src_height: int) -> int {
    if height < src_height {
        height as int
    } else {
        src_height
    }
}

/// The number of bytes that a row of a frame takes from a row of an image.
pub open spec fn copied_bytes(dst_stride: int, src_stride: int) -> int {
    if dst_stride < src_stride {
        dst_stride
    } else {
        src_stride
    }
}

/// Whether a byte of a frame belongs to the image that is copied into it.
pub open spec fn is_copied(
    width: u32,
    height: u32,
    src_stride: int,
    src_height: int,
    i: int,
) -> bool {
    let dst_stride = width * BYTES_PER_PIXEL;
    from_image(
        i,
        copied_rows(height, src_height),
        dst_stride,
        copied_bytes(dst_stride, src_stride),
    )
}

/// Where in the image a byte of a frame comes from.
pub open spec fn source_index(width: u32, src_stride: int, i: int) -> int {
    let dst_stride = width * BYTES_PER_PIXEL;
    i / dst_stride * src_stride + i % dst_stride
}

/// A frame with an image copied into it.
pub open spec fn with_image(
    frame: Seq<u8>,
    width: u32,
    height: u32,
    image: Seq<u8>,
    src_stride: int,
    src_height: int,
) -> Seq<u8> {
    Seq::new(
        frame.len(),
        |i: int|
            if is_copied(width, height, src_stride, src_height, i) {
                image[source_index(width, src_stride, i)]
            } else {
                frame[i]
            },
    )
}

/// Copies an image into a frame, row by row from the top: as many rows as both
/// have, and of each as many bytes as both have. The rest of the frame stays.
pub fn copy_image(
    width: u32,
    height: u32,
    src: &[u8],
    src_stride: usize,
    src_height: usize,
    dst: &mut [u8],
)
    requires
        surface_fits(width, height),
        old(dst)@.len() == frame_size(width, height),
        src_stride * src_height <= src@.len(),
    ensures
        final(dst)@ == with_image(
            old(dst)@,
            width,
            height,
            src@,
            src_stride as int,
            src_height as int,
        ),
{
    let dst_stride: usize = (width * BYTES_PER_PIXEL) as usize;
    let ghost before = dst@;
    let rows: usize = if (height as usize) < src_height {
        height as usize
    } else {
        src_height
    };
    let row_bytes: usize = if dst_stride < src_stride {
        dst_stride
    } else {
        src_stride
    };
    let dst_len: usize = dst.len();
    let src_len: usize = src.len();
    let mut row: usize = 0;
    let mut src_row: usize = 0;
    let mut dst_row: usize = 0;
    proof {
        assert(height * dst_stride == frame_size(width, height)) by (nonlinear_arith)
            requires
                dst_stride == width * BYTES_PER_PIXEL,
        ;
        assert(0 * src_stride == 0 && 0 * dst_stride == 0);
        assert forall|i: int| 0 <= i < dst@.len() implies !from_image(
            i,
            0,
            dst_stride as int,
            row_bytes as int,
        ) by {
            lemma_row_is_natural(i, dst_stride as int);
        }
    }
    while row < rows
        invariant
            row <= rows,
            rows == copied_rows(height, src_height as int),
            row_bytes == copied_bytes(dst_stride as int, src_stride as int),
            dst_stride == width * BYTES_PER_PIXEL,
            height * dst_stride == before.len(),
            src_stride * src_height <= src@.len(),
            dst_len == dst@.len(),
            src_len == src@.len(),
            row < rows ==> src_row == row * src_stride && dst_row == row * dst_stride,
            dst@.len() == before.len(),
            forall|i: int|
                0 <= i < dst@.len() ==> #[trigger] dst@[i] == (if from_image(
                    i,
                    row as int,
                    dst_stride as int,
                    row_bytes as int,
                ) {
                    src@[source_index(width, src_stride as int, i)]
                } else {
                    before[i]
                }),
        decreases rows - row,
    {
        let ghost here = dst@;
        proof {
            lemma_row_end(row as int, src_height as int, src_stride as int);
            lemma_row_end(row as int, height as int, dst_stride as int);
            assert(src_stride * src_height == src_height * src_stride) by (nonlinear_arith);
        }
        let mut b: usize = 0;
        while b < row_bytes
            invariant
                b <= row_bytes,
                row_bytes <= dst_stride,
                row_bytes <= src_stride,
                dst_len == dst@.len(),
                src_len == src@.len(),
                src_row + src_stride <= src_len,
                dst_row + dst_stride <= dst_len,
                dst@.len() == here.len(),
                forall|i: int|
                    0 <= i < dst@.len() ==> #[trigger] dst@[i] == (if dst_row <= i < dst_row + b {
                        src@[src_row + (i - dst_row)]
                    } else {
                        here[i]
                    }),
            decreases row_bytes - b,
        {
            dst[dst_row + b] = src[src_row + b];
            b += 1;
        }
        proof {
            assert forall|i: int| 0 <= i < dst@.len() implies #[trigger] dst@[i] == (if from_image(
                i,
                row + 1,
                dst_stride as int,
                row_bytes as int,
            ) {
                src@[source_index(width, src_stride as int, i)]
            } else {
                before[i]
            }) by {
                assert(here[i] == (if from_image(
                    i,
                    row as int,
                    dst_stride as int,
                    row_bytes as int,
                ) {
                    src@[source_index(width, src_stride as int, i)]
                } else {
                    before[i]
                }));
                if dst_stride > 0 {
                    lemma_row_of(i, row as int, dst_stride as int);
                }
            }
        }
        row += 1;
        if row < rows {
            proof {
                assert(row * src_stride == (row - 1) * src_stride + src_stride) by (nonlinear_arith);
                assert(row * dst_stride == (row - 1) * dst_stride + dst_stride) by (nonlinear_arith);
            }
            src_row = src_row + src_stride;
            dst_row = dst_row + dst_stride;
        }
    }
    assert(dst@ =~= with_image(
        before,
        width,
        height,
        src@,
        src_stride as int,
        src_height as int,
    ));
}

/// Whether byte `i` of a frame lies in the first `rows` rows, within the first
/// `row_bytes` bytes of its row.
pub open spec fn from_image(i: int, rows: int, stride: int, row_bytes: int) -> bool {
    stride > 0 && i / stride < rows && i % stride < row_bytes
}

proof fn lemma_row_is_natural(i: int, stride: int)
    requires
        0 <= i,
        0 <= stride,
    ensures
        stride > 0 ==> i / stride >= 0,
{
    if stride > 0 {
        vstd::arithmetic::div_mod::lemma_div_pos_is_pos(i, stride);
    }
}

proof fn lemma_row_end(row: int, rows: int, stride: int)
    requires
        0 <= row < rows,
        0 <= stride,
    ensures
        row * stride + stride <= rows * stride,
{
    assert(row * stride + stride <= rows * stride) by (nonlinear_arith)
        requires
            0 <= row < rows,
            0 <= stride,
    ;
}

proof fn lemma_row_of(i: int, row: int, stride: int)
    requires
        0 <= i,
        0 <= row,
        0 < stride,
    ensures
        i / stride == row <==> row * stride <= i < row * stride + stride,
        row * stride <= i < row * stride + stride ==> i % stride == i - row * stride,
{
    vstd::arithmetic::div_mod::lemma_fundamental_div_mod(i, stride);
    if row * stride <= i < row * stride + stride {
        vstd::arithmetic::div_mod::lemma_fundamental_div_mod_converse(
            i,
            stride,
            row,
            i - row * stride,
        );
    }
    if i / stride == row {
        assert(stride * (i / stride) == row * stride) by (nonlinear_arith)
            requires
                i / stride == row,
        ;
        vstd::arithmetic::div_mod::lemma_mod_bound(i, stride);
    }
}

/// An image of the graphics device that is mapped into the monitor.
#[derive(Clone, Copy, Debug, PartialEq, Eq, Structural)]
pub struct ImportedResource {
    /// Where it is mapped.
    pub ptr: u64,
    /// The size of the mapping.
    pub size: usize,
    pub width: u32,
    pub height: u32,
    pub stride: u32,
}

/// An image that is to be imported.
#[derive(Clone, Copy, Debug, PartialEq, Eq, Structural)]
pub enum DisplayExternalResourceImport {
    /// One that a descriptor stands for.
    Dmabuf { descriptor: i32, stride: u32, width: u32, height: u32 },
    /// Any other kind.
    Other,
}

/// Why an image could not be imported or shown.
#[derive(Clone, Copy, Debug, PartialEq, Eq, Structural)]
pub enum ImportError {
    /// The image has no size.
    ZeroSize,
    /// The image could not be mapped.
    MapFailed,
    /// Images of this kind cannot be imported.
    Unsupported,
    /// There is no such image.
    NotFound,
}

/// The display.
pub struct DisplayShm {
    /// Whether a display application is connected that no surface uses yet.
    pub connected: bool,
    /// The imported images.
    pub imports: HashMap<u32, ImportedResource>,
}

/// A display, once its event was made and its socket set up: whether an application is
/// connected, and the images.
pub open spec fn new_display(event: bool, bound: bool, nonblocking: bool) -> Result<
    (bool, Map<u32, ImportedResource>),
    GpuDisplayError,
> {
    if event && bound && nonblocking {
        Ok((false, Map::empty()))
    } else {
        Err(GpuDisplayError::CreateEvent)
    }
}

/// Whether an application waits for a surface, once another may have connected.
pub open spec fn waits_after(connected: bool, accepted: bool) -> bool {
    connected || accepted
}

/// The size of the mapping of an image.
pub open spec fn mapping_size(
    resource: DisplayExternalResourceImport,
    file_size: Option<i64>,
) -> Result<usize, ImportError> {
    match resource {
        DisplayExternalResourceImport::Other => Err(ImportError::Unsupported),
        DisplayExternalResourceImport::Dmabuf { stride, height, .. } => {
            let size = if file_size matches Some(n) && n > 0 {
                file_size->0 as int
            } else {
                height * stride
            };
            if size == 0 {
                Err(ImportError::ZeroSize)
            } else {
                Ok(size as usize)
            }
        },
    }
}

/// The images once one was imported, or could not be, and what comes of that.
pub open spec fn imported(
    imports: Map<u32, ImportedResource>,
    import_id: u32,
    resource: DisplayExternalResourceImport,
    size: usize,
    mapped: Option<u64>,
) -> (Map<u32, ImportedResource>, Result<Option<ImportedResource>, ImportError>) {
    match resource {
        DisplayExternalResourceImport::Other => (imports, Err(ImportError::Unsupported)),
        DisplayExternalResourceImport::Dmabuf { stride, width, height, .. } => match mapped {
            None => (imports, Err(ImportError::MapFailed)),
            Some(ptr) => (
                imports.insert(
                    import_id,
                    ImportedResource { ptr, size, width, height, stride },
                ),
                Ok(released(imports, import_id).1),
            ),
        },
    }
}

/// The images once one was given up, and the image.
pub open spec fn released(imports: Map<u32, ImportedResource>, import_id: u32) -> (
    Map<u32, ImportedResource>,
    Option<ImportedResource>,
) {
    (
        imports.remove(import_id),
        if imports.contains_key(import_id) {
            Some(imports[import_id])
        } else {
            None
        },
    )
}

/// The image that is to be shown.
pub open spec fn shown(imports: Map<u32, ImportedResource>, import_id: u32) -> Result<
    ImportedResource,
    ImportError,
> {
    if imports.contains_key(import_id) {
        Ok(imports[import_id])
    } else {
        Err(ImportError::NotFound)
    }
}

/// Whether an application waits for a surface once one was asked for, and whether one
/// comes with the surface.
pub open spec fn surface_asked(
    connected: bool,
    parent_surface_id: Option<u32>,
    accepted: bool,
) -> (bool, Result<bool, GpuDisplayError>) {
    if parent_surface_id is Some {
        (connected, Err(GpuDisplayError::Unsupported))
    } else {
        (false, Ok(connected || accepted))
    }
}

impl DisplayShm {
    /// A display, once its event was made and its socket set up.
    pub fn new(event: bool, bound: bool, nonblocking: bool) -> (r: Result<
        DisplayShm,
        GpuDisplayError,
    >)
        ensures
            match new_display(event, bound, nonblocking) {
                Ok((connected, imports)) => r matches Ok(display) && display.connected == connected
                    && display.imports@ == imports,
                Err(e) => r == Err::<DisplayShm, GpuDisplayError>(e),
            },
    {
        if !event || !bound || !nonblocking {
            return Err(GpuDisplayError::CreateEvent);
        }
        Ok(DisplayShm { connected: false, imports: HashMap::new() })
    }

    /// Takes note of a display application that connected, if one did.
    pub fn try_accept(&mut self, accepted: bool)
        ensures
            final(self).connected == waits_after(old(self).connected, accepted),
            final(self).imports == old(self).imports,
    {
        if accepted {
            self.connected = true;
        }
    }

    /// The size of the mapping of an image: that of its file if that is known,
    /// else that of its rows. `file_size` is what the system tells of the file.
    pub fn import_size(resource: DisplayExternalResourceImport, file_size: Option<i64>) -> (r:
        Result<usize, ImportError>)
        requires
            file_size matches Some(n) ==> n <= usize::MAX,
            resource matches DisplayExternalResourceImport::Dmabuf { stride, height, .. }
                ==> height * stride <= usize::MAX,
        ensures
            r == mapping_size(resource, file_size),
    {
        match resource {
            DisplayExternalResourceImport::Other => Err(ImportError::Unsupported),
            DisplayExternalResourceImport::Dmabuf { stride, height, .. } => {
                let size: usize = match file_size {
                    Some(n) => if n > 0 {
                        n as usize
                    } else {
                        height as usize * stride as usize
                    },
                    None => height as usize * stride as usize,
                };
                if size == 0 {
                    return Err(ImportError::ZeroSize);
                }
                Ok(size)
            },
        }
    }

    /// Imports an image, once mapping it was tried: the image that had the same
    /// number before, which is to be unmapped.
    pub fn import_resource(
        &mut self,
        import_id: u32,
        resource: DisplayExternalResourceImport,
        size: usize,
        mapped: Option<u64>,
    ) -> (r: Result<Option<ImportedResource>, ImportError>)
        ensures
            final(self).connected == old(self).connected,
            (final(self).imports@, r) == imported(
                old(self).imports@,
                import_id,
                resource,
                size,
                mapped,
            ),
    {
        match resource {
            DisplayExternalResourceImport::Other => Err(ImportError::Unsupported),
            DisplayExternalResourceImport::Dmabuf { stride, width, height, .. } => match mapped {
                None => Err(ImportError::MapFailed),
                Some(ptr) => Ok(
                    self.imports.insert(
                        import_id,
                        ImportedResource { ptr, size, width, height, stride },
                    ),
                ),
            },
        }
    }

    /// Gives an image up: the image, which is to be unmapped, if there is one.
    pub fn release_import(&mut self, import_id: u32) -> (resource: Option<ImportedResource>)
        ensures
            final(self).connected == old(self).connected,
            (final(self).imports@, resource) == released(old(self).imports@, import_id),
    {
        let resource: Option<ImportedResource> = self.imports.remove(&import_id);
        assert(final(self).imports@ =~= old(self).imports@.remove(import_id));
        resource
    }

    /// The image that is to be shown: its frame is then copied by
    /// [`copy_image`], and the frames are swapped.
    pub fn flip_to(&self, import_id: u32) -> (r: Result<ImportedResource, ImportError>)
        ensures
            r == shown(self.imports@, import_id),
    {
        match self.imports.get(&import_id) {
            Some(resource) => Ok(*resource),
            None => Err(ImportError::NotFound),
        }
    }

    /// Whether a surface can be made, and whether a display application comes
    /// with it. A surface within another is not supported. `accepted` says
    /// whether an application waited to connect.
    pub fn create_surface(&mut self, parent_surface_id: Option<u32>, accepted: bool) -> (r: Result<
        bool,
        GpuDisplayError,
    >)
        ensures
            final(self).imports == old(self).imports,
            (final(self).connected, r) == surface_asked(
                old(self).connected,
                parent_surface_id,
                accepted,
            ),
    {
        if parent_surface_id.is_some() {
            return Err(GpuDisplayError::Unsupported);
        }
        self.try_accept(accepted);
        let connected: bool = self.connected;
        self.connected = false;
        Ok(connected)
    }
}

/// The two frames and the header share no byte, and both frames lie in the file.
pub proof fn law_frames_are_disjoint(width: u32, height: u32)
    ensures
        SHM_HEADER_SIZE <= frame_offset(width, height, 0),
        frame_offset(width, height, 0) + frame_size(width, height) <= frame_offset(
            width,
            height,
            1,
        ),
        frame_offset(width, height, 1) + frame_size(width, height) == file_size(width, height),
{
    assert(0 <= frame_size(width, height)) by (nonlinear_arith);
}

/// A flip shows the frame that was drawn into; two flips show the same frame
/// again.
pub proof fn law_flip(active_buffer: u32)
    ensures
        back_frame(back_frame(active_buffer) as u32) == active_buffer % 2,
        back_frame(active_buffer) == 0 || back_frame(active_buffer) == 1,
        back_frame(active_buffer) != active_buffer % 2,
{
}

/// An image that was imported is the one that is shown until it is given up, and
/// other images are not affected.
pub proof fn law_imports(
    imports: Map<u32, ImportedResource>,
    id: u32,
    other: u32,
    resource: ImportedResource,
)
    requires
        id != other,
    ensures
        imports.insert(id, resource)[id] == resource,
        !imports.insert(id, resource).remove(id).contains_key(id),
        imports.insert(id, resource).contains_key(other) == imports.contains_key(other),
        imports.insert(id, resource)[other] == imports[other],
{
}

/// What a display that is not visible tells.
pub trait MacosGpuDisplayExt: Sized {
    /// A display that is not visible, once its parts were made.
    fn open_stub(display: bool, wait_ctx: bool, added: bool) -> Result<Self, GpuDisplayError>;
}

/// A display that is not visible.
#[derive(Clone, Copy, Debug, PartialEq, Eq, Structural)]
pub struct GpuDisplay {
    /// The number that comes next.
    pub next_id: u32,
}

impl MacosGpuDisplayExt for GpuDisplay {
    fn open_stub(display: bool, wait_ctx: bool, added: bool) -> (r: Result<
        GpuDisplay,
        GpuDisplayError,
    >)
        ensures
            r == (if display && wait_ctx && added {
                Ok::<GpuDisplay, GpuDisplayError>(GpuDisplay { next_id: 1 })
            } else {
                Err(GpuDisplayError::CreateEvent)
            }),
    {
        if display && wait_ctx && added {
            Ok(GpuDisplay { next_id: 1 })
        } else {
            Err(GpuDisplayError::CreateEvent)
        }
    }
}

impl GpuDisplay {
    /// Takes note of an event device: the number that it gets. It is not used.
    pub fn import_event_device(&mut self) -> (id: u32)
        requires
            old(self).next_id < u32::MAX,
        ensures
            id == old(self).next_id,
            final(self).next_id == old(self).next_id + 1,
    {
        let id: u32 = self.next_id;
        self.next_id = id + 1;
        id
    }
}

proof fn lemma_words_elsewhere(bytes: Seq<u8>, writes: Seq<HeaderWrite>)
    requires
        bytes.len() >= 32,
        forall|i: int| 0 <= i < writes.len() ==> 4 <= (#[trigger] writes[i]).offset <= 28,
    ensures
        with_words(bytes, writes).len() == bytes.len(),
        with_words(bytes, writes).take(4) == bytes.take(4),
    decreases writes.len(),
{
    if writes.len() > 0 {
        let shorter = writes.drop_last();
        assert forall|i: int| 0 <= i < shorter.len() implies 4 <= (#[trigger] shorter[i]).offset
            <= 28 by {
            assert(shorter[i] == writes[i]);
        }
        lemma_words_elsewhere(bytes, shorter);
        let before = with_words(bytes, shorter);
        assert(writes[writes.len() - 1] == writes.last());
        assert(with_words(bytes, writes).take(4) =~= before.take(4));
    }
}

/// A swap of the frames tells which frame to show before it counts the frame: as
/// long as only the first word is written the number is the old one, and once it is
/// the new one the frame to show is in the file too. Nothing else changes.
pub proof fn law_number_comes_last(bytes: Seq<u8>, header: ShmHeader)
    requires
        bytes.len() >= SHM_HEADER_SIZE,
    ensures
        with_words(bytes, swap_order(header).take(1)) == bytes.take(28) + le32(
            header.active_buffer,
        ) + bytes.skip(32),
        with_words(bytes, swap_order(header)) == bytes.take(24) + le32(header.frame_seq) + le32(
            header.active_buffer,
        ) + bytes.skip(32),
{
    let order = swap_order(header);
    assert(order.drop_last() =~= order.take(1));
    assert(order.take(1).drop_last() =~= Seq::<HeaderWrite>::empty());
    reveal_with_fuel(with_words, 3);
    let first = with_words(bytes, order.take(1));
    assert(first =~= bytes.take(28) + le32(header.active_buffer) + bytes.skip(32));
    assert(with_words(bytes, order) == with_word(first, order[1]));
    assert(first.take(24) =~= bytes.take(24));
    assert(first.skip(28) =~= le32(header.active_buffer) + bytes.skip(32));
    assert(with_words(bytes, order) =~= bytes.take(24) + le32(header.frame_seq) + le32(
        header.active_buffer,
    ) + bytes.skip(32));
}

/// The mark is written last: as long as it is not, the first four bytes of the
/// file are what they were; once the header of a new surface is written, they
/// spell `AETH`.
pub proof fn law_mark_comes_last(bytes: Seq<u8>, width: u32, height: u32, n: int)
    requires
        bytes.len() >= SHM_HEADER_SIZE,
        0 <= n < 8,
    ensures
        with_words(bytes, header_order(surface_header(width, height)).take(n)).take(4)
            == bytes.take(4),
        with_words(bytes, header_order(surface_header(width, height))).take(4) == seq![
            0x41u8,
            0x45u8,
            0x54u8,
            0x48u8,
        ],
{
    let order = header_order(surface_header(width, height));
    let before = order.take(n);
    assert forall|i: int| 0 <= i < before.len() implies 4 <= (#[trigger] before[i]).offset
        <= 28 by {
        assert(before[i] == order[i]);
    }
    lemma_words_elsewhere(bytes, before);
    let seven = order.drop_last();
    assert forall|i: int| 0 <= i < seven.len() implies 4 <= (#[trigger] seven[i]).offset
        <= 28 by {
        assert(seven[i] == order[i]);
    }
    lemma_words_elsewhere(bytes, seven);
    lemma_mark_bytes();
    assert(with_words(bytes, order).take(4) =~= le32(SHM_MAGIC));
}

proof fn lemma_mark_bytes()
    ensures
        le32(SHM_MAGIC) == seq![0x41u8, 0x45u8, 0x54u8, 0x48u8],
{
    assert(le32(SHM_MAGIC) =~= seq![0x41u8, 0x45u8, 0x54u8, 0x48u8]);
}

/// The last of these writes that goes to an offset.
pub open spec fn last_write(writes: Seq<HeaderWrite>, offset: int) -> Option<u32>
    decreases writes.len(),
{
    if writes.len() == 0 {
        None
    } else if writes.last().offset == offset {
        Some(writes.last().value)
    } else {
        last_write(writes.drop_last(), offset)
    }
}

proof fn lemma_words(bytes: Seq<u8>, writes: Seq<HeaderWrite>, j: int)
    requires
        bytes.len() >= 32,
        0 <= j <= 28,
        j % 4 == 0,
        forall|i: int|
            0 <= i < writes.len() ==> (#[trigger] writes[i]).offset <= 28 && writes[i].offset % 4 == 0,
    ensures
        with_words(bytes, writes).len() == bytes.len(),
        with_words(bytes, writes).skip(32) == bytes.skip(32),
        with_words(bytes, writes).subrange(j, j + 4) == (match last_write(writes, j) {
            Some(value) => le32(value),
            None => bytes.subrange(j, j + 4),
        }),
    decreases writes.len(),
{
    if writes.len() > 0 {
        let shorter = writes.drop_last();
        assert forall|i: int| 0 <= i < shorter.len() implies (#[trigger] shorter[i]).offset <= 28
            && shorter[i].offset % 4 == 0 by {
            assert(shorter[i] == writes[i]);
        }
        lemma_words(bytes, shorter, j);
        let before = with_words(bytes, shorter);
        let write = writes.last();
        assert(writes[writes.len() - 1] == write);
        let after = with_word(before, write);
        assert(after.skip(32) =~= before.skip(32));
        if write.offset == j {
            assert(after.subrange(j, j + 4) =~= le32(write.value));
        } else {
            assert(after.subrange(j, j + 4) =~= before.subrange(j, j + 4));
        }
    }
}

/// The file of a new surface begins with what an application needs to show it: the
/// mark, the version, the width and the height, the size of a row, the format, and that
/// frame zero is shown and none was drawn yet, one word after the other; the file has
/// room for two frames of as many rows behind the first page. Nothing else is written.
pub proof fn law_header_describes_the_surface(
    bytes: Seq<u8>,
    width: u32,
    height: u32,
    connected: bool,
)
    requires
        surface_fits(width, height),
        bytes.len() == file_size(width, height),
    ensures
        new_surface(width, height, connected, false) is Err,
        ({
            let header = surface_header(width, height);
            &&& header.height == height
            &&& header.width == width
            &&& header.stride == 4 * width
            &&& file_size(width, height) == 4096 + 2 * (header.stride * header.height)
            &&& header.active_buffer == 0
            &&& header.frame_seq == 0
        }),
        match new_surface(width, height, connected, true) {
            Ok((surface, writes)) => {
                let file = with_words(bytes, writes);
                &&& surface.width == width && surface.height == height && surface.connected
                    == connected
                &&& file.len() == bytes.len()
                &&& file.subrange(0, 4) == seq![0x41u8, 0x45, 0x54, 0x48]
                &&& file.subrange(4, 8) == le32(1)
                &&& file.subrange(8, 12) == le32(width)
                &&& file.subrange(12, 16) == le32(height)
                &&& file.subrange(16, 20) == le32((4 * width) as u32)
                &&& file.subrange(20, 24) == seq![0x58u8, 0x52, 0x32, 0x34]
                &&& file.subrange(24, 28) == le32(0)
                &&& file.subrange(28, 32) == le32(0)
                &&& file.skip(32) == bytes.skip(32)
            },
            Err(_) => false,
        },
{
    let writes = header_order(surface_header(width, height));
    assert(0 <= frame_size(width, height)) by (nonlinear_arith);
    assert(frame_size(width, height) == (4 * width) * height) by (nonlinear_arith)
        requires
            frame_size(width, height) == width * height * 4,
    ;
    lemma_mark_bytes();
    assert(le32(0x3432_5258) =~= seq![0x58u8, 0x52, 0x32, 0x34]);
    reveal_with_fuel(last_write, 9);
    lemma_words(bytes, writes, 0);
    lemma_words(bytes, writes, 4);
    lemma_words(bytes, writes, 8);
    lemma_words(bytes, writes, 12);
    lemma_words(bytes, writes, 16);
    lemma_words(bytes, writes, 20);
    lemma_words(bytes, writes, 24);
    lemma_words(bytes, writes, 28);
}

/// The frame that is drawn into is the one that is shown after the next swap and not
/// the one that is shown now. It lies in the file, behind the first page, and has the
/// size of its rows; the two frames share no byte. A swap counts one frame, modulo the
/// size of the counter, and changes nothing else.
pub proof fn law_drawn_frame_is_shown(width: u32, height: u32, header: ShmHeader)
    requires
        surface_fits(width, height),
    ensures
        ({
            let drawn = back_framebuffer(width, height, header.active_buffer);
            let next = back_framebuffer(width, height, swapped(header).active_buffer);
            let again = back_framebuffer(width, height, swapped(swapped(header)).active_buffer);
            let size = (4 * width) * height;
            &&& drawn.offset == 4096 + swapped(header).active_buffer * size
            &&& swapped(header).active_buffer <= 1
            &&& swapped(header).active_buffer != header.active_buffer % 2
            &&& swapped(swapped(header)).active_buffer == header.active_buffer % 2
            &&& again == drawn
            &&& drawn.size == size && drawn.stride == 4 * width && drawn.bytes_per_pixel == 4
            &&& next.size == size && next.stride == 4 * width && next.bytes_per_pixel == 4
            &&& drawn.offset + size <= next.offset || next.offset + size <= drawn.offset
            &&& drawn.offset + size <= file_size(width, height)
            &&& (swapped(header).frame_seq - header.frame_seq - 1) % 0x1_0000_0000 == 0
            &&& swapped(header) == (ShmHeader {
                active_buffer: swapped(header).active_buffer,
                frame_seq: swapped(header).frame_seq,
                ..header
            })
        }),
{
    let n = frame_size(width, height);
    assert(n == (4 * width) * height) by (nonlinear_arith)
        requires
            n == width * height * 4,
    ;
    assert(0 <= n) by (nonlinear_arith)
        requires
            n == width * height * 4,
    ;
    assert(0 * n == 0 && 1 * n == n) by (nonlinear_arith);
}

/// An image is shown from its top left corner: byte `column` of row `row` of a frame is
/// that of the image at the same place if the image has one there, else it stays.
pub proof fn law_image_keeps_its_place(
    frame: Seq<u8>,
    width: u32,
    height: u32,
    image: Seq<u8>,
    src_stride: int,
    src_height: int,
    row: int,
    column: int,
)
    requires
        0 <= src_stride,
        0 <= src_height,
        0 <= row < height,
        0 <= column < 4 * width,
        frame.len() == (4 * width) * height,
    ensures
        ({
            let i = row * (4 * width) + column;
            let after = with_image(frame, width, height, image, src_stride, src_height);
            &&& 0 <= i < frame.len()
            &&& after.len() == frame.len()
            &&& after[i] == (if row < src_height && column < src_stride {
                image[row * src_stride + column]
            } else {
                frame[i]
            })
            &&& is_copied(width, height, src_stride, src_height, i) <==> row < src_height && column
                < src_stride
            &&& source_index(width, src_stride, i) == row * src_stride + column
        }),
{
    let stride = 4 * width;
    let i = row * stride + column;
    assert(0 <= i) by (nonlinear_arith)
        requires
            0 <= row,
            0 <= stride,
            0 <= column,
            i == row * stride + column,
    ;
    lemma_row_of(i, row, stride as int);
    lemma_row_end(row, height as int, stride as int);
    assert(height * stride == stride * height) by (nonlinear_arith);
}

/// An image that was imported is shown as it was given, until it is given up or another
/// gets its number; either way it comes back, to be unmapped, and it does so once. An
/// image that could not be imported changes nothing, and no other image is affected.
pub proof fn law_images_are_kept(
    imports: Map<u32, ImportedResource>,
    id: u32,
    other: u32,
    resource: DisplayExternalResourceImport,
    size: usize,
    mapped: Option<u64>,
)
    requires
        id != other,
    ensures
        ({
            let (after, result) = imported(imports, id, resource, size, mapped);
            let (left, given) = released(after, id);
            &&& result is Ok <==> resource is Dmabuf && mapped is Some
            &&& result matches Err(e) ==> after == imports && (e is Unsupported <==> resource
                is Other) && (e is MapFailed <==> resource is Dmabuf)
            &&& result matches Ok(replaced) ==> {
                &&& shown(after, id) is Ok
                &&& (shown(after, id)->Ok_0).ptr == mapped->0
                &&& (shown(after, id)->Ok_0).size == size
                &&& (shown(after, id)->Ok_0).width == resource->width
                &&& (shown(after, id)->Ok_0).height == resource->height
                &&& (shown(after, id)->Ok_0).stride == resource->stride
                &&& given == Some(shown(after, id)->Ok_0)
                &&& replaced is Some <==> shown(imports, id) is Ok
                &&& replaced matches Some(old) ==> shown(imports, id) == Ok::<
                    ImportedResource,
                    ImportError,
                >(old)
            }
            &&& shown(left, id) == Err::<ImportedResource, ImportError>(ImportError::NotFound)
            &&& released(left, id).1 is None
            &&& shown(after, other) == shown(imports, other)
            &&& shown(left, other) == shown(imports, other)
        }),
{
}

/// An image is mapped as far as its file goes, or as far as its rows do where the size
/// of the file is not known; one without a size, and one of another kind, is not.
pub proof fn law_mapping_size(resource: DisplayExternalResourceImport, file_size: Option<i64>)
    requires
        resource matches DisplayExternalResourceImport::Dmabuf { stride, height, .. } ==> height
            * stride <= usize::MAX,
        file_size matches Some(n) ==> n <= usize::MAX,
    ensures
        resource is Other ==> mapping_size(resource, file_size) == Err::<usize, ImportError>(
            ImportError::Unsupported,
        ),
        resource is Dmabuf ==> {
            let known = file_size is Some && file_size->0 > 0;
            let rows = resource->height * resource->stride;
            &&& known ==> mapping_size(resource, file_size) == Ok::<usize, ImportError>(
                file_size->0 as usize,
            )
            &&& !known && rows > 0 ==> mapping_size(resource, file_size) == Ok::<
                usize,
                ImportError,
            >(rows as usize)
            &&& !known && rows == 0 ==> mapping_size(resource, file_size) == Err::<
                usize,
                ImportError,
            >(ImportError::ZeroSize)
        },
{
    if let DisplayExternalResourceImport::Dmabuf { stride, height, .. } = resource {
        assert(0 <= height * stride) by (nonlinear_arith);
    }
}

/// An application that connected goes with the next surface and with no other. A
/// surface keeps the application that it told of a frame; one that could not be told is
/// dropped, and one that waits takes its place.
pub proof fn law_applications(connected: bool, parent: u32, surface: ShmSurface, accepted: bool)
    ensures
        surface_asked(connected, Some(parent), accepted) == (
            connected,
            Err::<bool, GpuDisplayError>(GpuDisplayError::Unsupported),
        ),
        ({
            let (waits, goes) = surface_asked(connected, None, accepted);
            &&& goes == Ok::<bool, GpuDisplayError>(connected || accepted)
            &&& !waits
            &&& surface_asked(waits, None, false).1 == Ok::<bool, GpuDisplayError>(false)
        }),
        frame_told(surface, true, false) == surface,
        !frame_told(surface, false, false).connected,
        frame_told(surface, false, true).connected,
        frame_told(surface, false, accepted).width == surface.width,
        frame_told(surface, false, accepted).height == surface.height,
{
}

/// A display is there exactly if its event and its socket are; at first no application
/// waits and no image can be shown. An application that connected waits until a surface
/// takes it.
pub proof fn law_new_display(
    event: bool,
    bound: bool,
    nonblocking: bool,
    import_id: u32,
    connected: bool,
)
    ensures
        match new_display(event, bound, nonblocking) {
            Ok((waits, imports)) => event && bound && nonblocking && !waits && shown(
                imports,
                import_id,
            ) is Err,
            Err(e) => e is CreateEvent && !(event && bound && nonblocking),
        },
        waits_after(connected, true),
        waits_after(connected, false) == connected,
        surface_asked(waits_after(connected, true), None, false).1 == Ok::<bool, GpuDisplayError>(
            true,
        ),
{
}

} // verus!
