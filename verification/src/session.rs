//! The request pipeline as a verified protocol.
//!
//! One [`ThumbSession`] owns the bookkeeping of a single thumbnail
//! request: which stage it is in, which platform resources (the image
//! handle and the temporary rendering context) are currently held, and
//! what the request's outcome is. The platform calls themselves are
//! performed by an unverified driver: it asks [`ThumbSession::next_action`]
//! what to do, performs that one call, and reports the result through
//! the matching event method. The contracts here guarantee that on
//! every path — success or failure at any stage — each acquired
//! resource is released exactly once before the session finishes, that
//! a failure before acquisition never reaches the pixel transfer, and
//! that a successful outcome is exactly the serialized bitmap of the
//! queried geometry and the copied payload.

use vstd::prelude::*;
use vstd::pervasive::unreached;
use vstd::bytes::spec_u16_to_le_bytes;
use vstd::bytes::spec_u32_to_le_bytes;
use crate::bitmap::abs_dim;
use crate::bitmap::abs_u32;
use crate::bitmap::as_signed;
use crate::bitmap::height_field;
use crate::bitmap::lemma_fixed_format_fields;
use crate::bitmap::lemma_height_field;
use crate::bitmap::lemma_stream_length;
use crate::bitmap::lemma_width_field;
use crate::bitmap::materialize_bytes;
use crate::bitmap::raw_len;
use crate::bitmap::serialized_bitmap_seq;
use crate::bitmap::width_field;
use crate::error::ThumbError;

verus! {

/// Status code reported when the queried geometry itself is the
/// failure: its pixel buffer would not fit the serialized layout. No
/// platform call failed, so the value is a sentinel of the library's
/// own, distinct from the platform's zero success code.
pub const OVERSIZED_GEOMETRY: i32 = -1;

/// Pixel geometry queried from the platform image handle, never
/// supplied by the caller.
#[derive(Clone, Copy, Debug, PartialEq, Eq, Structural)]
pub struct BitmapGeometry {
    /// Width in pixels.
    pub width: i32,
    /// Height in pixels; a negative value means the source already
    /// stores its rows top-down.
    pub height: i32,
    /// Bytes per row of the source bitmap's native layout.
    pub row_stride: i32,
    /// Bit depth of the source bitmap's native layout.
    pub bits_per_pixel: u16,
}

impl BitmapGeometry {
    /// Length of the 32-bit-per-pixel copy buffer for this geometry.
    /// The copy always requests 32 bits per pixel and top-down rows, so
    /// the buffer's stride is four bytes per pixel whatever the native
    /// stride and depth were.
    pub open spec fn buffer_len_spec(self) -> int {
        raw_len(self.width, self.height)
    }

    /// Number of pixel rows the copy transfers.
    pub open spec fn rows_spec(self) -> int {
        abs_dim(self.height)
    }

    /// Whether the copy buffer and the 54 header bytes fit the
    /// serialized layout's 32-bit file-size field.
    pub open spec fn representable(self) -> bool {
        54 + self.buffer_len_spec() <= u32::MAX
    }

    /// Checks [`Self::representable`].
    pub fn check_representable(&self) -> (b: bool)
        ensures
            b == self.representable(),
    {
        let wa: u64 = abs_u32(self.width) as u64;
        let ha: u64 = abs_u32(self.height) as u64;
        proof {
            assert(wa * ha <= 0x80000000u64 * 0x80000000u64) by (nonlinear_arith)
                requires
                    wa <= 0x80000000u64,
                    ha <= 0x80000000u64,
            ;
            assert((4int * (wa as int)) * (ha as int) == 4int * ((wa as int) * (ha as int)))
                by (nonlinear_arith);
        }
        let pixel_count: u64 = wa * ha;
        pixel_count <= (0xffffffffu64 - 54) / 4
    }

    /// The copy buffer's length.
    pub fn buffer_len(&self) -> (n: usize)
        requires
            self.representable(),
        ensures
            n == self.buffer_len_spec(),
    {
        let wa: u64 = abs_u32(self.width) as u64;
        let ha: u64 = abs_u32(self.height) as u64;
        proof {
            assert(wa * ha <= 0x80000000u64 * 0x80000000u64) by (nonlinear_arith)
                requires
                    wa <= 0x80000000u64,
                    ha <= 0x80000000u64,
            ;
            assert((4int * (wa as int)) * (ha as int) == 4int * ((wa as int) * (ha as int)))
                by (nonlinear_arith);
        }
        let pixel_count: u64 = wa * ha;
        let len: u64 = 4 * pixel_count;
        len as usize
    }
}

/// The stage a session is in; each stage names the platform step whose
/// result the session is waiting for.
#[derive(Clone, Copy, Debug, PartialEq, Eq, Structural)]
pub enum Phase {
    /// Waiting for the file path to resolve to a shell item.
    Resolving,
    /// Waiting for the item's image-factory capability.
    QueryingCapability,
    /// Waiting for the thumbnail image itself.
    RequestingImage,
    /// Holding the image handle; waiting for its pixel geometry.
    QueryingGeometry,
    /// Waiting for the temporary rendering context.
    CreatingContext,
    /// Holding handle and context; waiting for the pixel copy.
    CopyingPixels,
    /// Waiting for the rendering context's release.
    ReleasingContext,
    /// Waiting for the image handle's release.
    ReleasingHandle,
    /// The outcome is ready.
    Finished,
}

/// The one platform call the driver must perform next.
#[derive(Debug)]
pub enum Action {
    /// Resolve the request's file path to a shell item.
    ResolvePath,
    /// Ask the shell item for its image-extraction capability.
    QueryCapability,
    /// Request a thumbnail no larger than the given width and height,
    /// restricted to thumbnail-only generation (no full-content
    /// rendering fallback).
    RequestImage(i32, i32),
    /// Query the held image handle for its pixel geometry.
    QueryGeometry,
    /// Create the temporary compatible rendering context.
    CreateContext,
    /// Copy `rows` rows of 32-bit-per-pixel, top-down pixel data into a
    /// zeroed buffer of exactly `buffer_len` bytes.
    CopyPixels { rows: u32, buffer_len: usize },
    /// Release the rendering context.
    ReleaseContext,
    /// Release the image handle.
    ReleaseHandle,
    /// Nothing remains; take the outcome.
    Complete,
}

/// Bookkeeping of one thumbnail request.
pub struct ThumbSession {
    phase: Phase,
    width: i32,
    height: i32,
    embed_headers: bool,
    geometry: Option<BitmapGeometry>,
    pixels: Option<Vec<u8>>,
    pending: Option<ThumbError>,
    outcome: Option<Result<Vec<u8>, ThumbError>>,
    handle_acquired: bool,
    handle_released: bool,
    context_acquired: bool,
    context_released: bool,
    copy_attempted: bool,
}

impl ThumbSession {
    /// The session's stage.
    pub closed spec fn phase_spec(&self) -> Phase {
        self.phase
    }

    /// The requested upper bound on the thumbnail's dimensions.
    pub closed spec fn target_spec(&self) -> (i32, i32) {
        (self.width, self.height)
    }

    /// Whether the outcome embeds the two bitmap headers.
    pub closed spec fn embed_spec(&self) -> bool {
        self.embed_headers
    }

    /// The geometry queried from the handle, once known.
    pub closed spec fn geometry_spec(&self) -> Option<BitmapGeometry> {
        self.geometry
    }

    /// The copied pixel payload, once transferred.
    pub closed spec fn pixels_spec(&self) -> Option<Seq<u8>> {
        match self.pixels {
            Some(ref p) => Some(p@),
            None => None,
        }
    }

    /// An error waiting for the resource releases that must precede it.
    pub closed spec fn pending_spec(&self) -> Option<ThumbError> {
        self.pending
    }

    /// The finished request's result.
    pub closed spec fn outcome_spec(&self) -> Option<Result<Seq<u8>, ThumbError>> {
        match self.outcome {
            Some(Ok(ref v)) => Some(Ok(v@)),
            Some(Err(ref e)) => Some(Err(*e)),
            None => None,
        }
    }

    /// Whether the image handle was ever acquired.
    pub closed spec fn handle_acquired_spec(&self) -> bool {
        self.handle_acquired
    }

    /// Whether the image handle was released.
    pub closed spec fn handle_released_spec(&self) -> bool {
        self.handle_released
    }

    /// Whether the rendering context was ever acquired.
    pub closed spec fn context_acquired_spec(&self) -> bool {
        self.context_acquired
    }

    /// Whether the rendering context was released.
    pub closed spec fn context_released_spec(&self) -> bool {
        self.context_released
    }

    /// Whether a pixel transfer was ever attempted.
    pub closed spec fn copy_attempted_spec(&self) -> bool {
        self.copy_attempted
    }

    /// The copy buffer length the driver must allocate.
    pub open spec fn expected_buffer_len(&self) -> int {
        match self.geometry_spec() {
            Some(g) => g.buffer_len_spec(),
            None => 0,
        }
    }

    /// The row count the driver must request from the copy.
    pub open spec fn expected_rows(&self) -> int {
        match self.geometry_spec() {
            Some(g) => g.rows_spec(),
            None => 0,
        }
    }

    /// The bytes a successful outcome holds, given the stored geometry
    /// and payload.
    pub open spec fn success_bytes(embed: bool, g: BitmapGeometry, pixels: Seq<u8>) -> Seq<u8> {
        if embed {
            serialized_bitmap_seq(g.width, g.height, pixels)
        } else {
            pixels
        }
    }

    /// The header fields of an embedded-header outcome, as functions of
    /// the queried geometry: the stream's length, its magic bytes, its
    /// width and negated-height fields, one plane and 32 bits per
    /// pixel.
    pub open spec fn outcome_headers_match(bytes: Seq<u8>, g: BitmapGeometry) -> bool {
        &&& bytes.len() == 54 + g.buffer_len_spec()
        &&& bytes[0] == 0x42u8
        &&& bytes[1] == 0x4du8
        &&& bytes.subrange(18, 22) == spec_u32_to_le_bytes(width_field(g.width))
        &&& bytes.subrange(22, 26) == spec_u32_to_le_bytes(height_field(g.height))
        &&& bytes.subrange(26, 28) == spec_u16_to_le_bytes(1u16)
        &&& bytes.subrange(28, 30) == spec_u16_to_le_bytes(32u16)
    }

    /// The session invariant: resource flags, stage and stored data
    /// agree, and they agree on every path with the guarantees the
    /// public lemmas state.
    pub closed spec fn wf(&self) -> bool {
        &&& (match self.phase {
            Phase::Resolving | Phase::QueryingCapability | Phase::RequestingImage => {
                &&& !self.handle_acquired
                &&& !self.context_acquired
                &&& !self.copy_attempted
                &&& self.pending is None
                &&& self.geometry is None
                &&& self.pixels is None
            },
            Phase::QueryingGeometry => {
                &&& self.handle_acquired
                &&& !self.handle_released
                &&& !self.context_acquired
                &&& !self.copy_attempted
                &&& self.pending is None
                &&& self.geometry is None
                &&& self.pixels is None
            },
            Phase::CreatingContext => {
                &&& self.handle_acquired
                &&& !self.handle_released
                &&& !self.context_acquired
                &&& !self.copy_attempted
                &&& self.pending is None
                &&& (self.geometry matches Some(g) && g.representable())
                &&& self.pixels is None
            },
            Phase::CopyingPixels => {
                &&& self.handle_acquired
                &&& !self.handle_released
                &&& self.context_acquired
                &&& !self.context_released
                &&& !self.copy_attempted
                &&& self.pending is None
                &&& (self.geometry matches Some(g) && g.representable())
                &&& self.pixels is None
            },
            Phase::ReleasingContext => {
                &&& self.handle_acquired
                &&& !self.handle_released
                &&& self.context_acquired
                &&& !self.context_released
                &&& self.copy_result_consistent()
            },
            Phase::ReleasingHandle => {
                &&& self.handle_acquired
                &&& !self.handle_released
                &&& (self.context_acquired ==> self.context_released)
                &&& self.copy_result_consistent()
            },
            Phase::Finished => {
                &&& (self.handle_acquired ==> self.handle_released)
                &&& (self.context_acquired ==> self.context_released)
                &&& self.outcome is Some
            },
        })
        &&& (self.handle_released ==> self.handle_acquired)
        &&& (self.context_released ==> self.context_acquired)
        &&& (self.context_acquired ==> self.handle_acquired)
        &&& (self.copy_attempted ==> self.context_acquired)
        &&& (!(self.phase is Finished) ==> self.outcome is None)
        &&& (self.pending matches Some(e) ==> (e is GeometryQuery || e is PixelTransfer))
        &&& (self.outcome matches Some(Err(e)) && e.is_pre_acquisition() ==> !self.handle_acquired
            && !self.copy_attempted)
        &&& (self.geometry matches Some(g) ==> 1 <= abs_dim(g.width) <= self.width && 1 <= abs_dim(
            g.height,
        ) <= self.height)
        &&& (self.outcome matches Some(Ok(v)) ==> {
            &&& self.copy_attempted
            &&& (self.geometry matches Some(g) && g.representable() && v@.len() == (
            if self.embed_headers {
                54 + g.buffer_len_spec()
            } else {
                g.buffer_len_spec()
            }) && (self.embed_headers ==> Self::outcome_headers_match(v@, g)))
        })
    }

    /// After the copy stage: exactly one of payload and pending error
    /// exists, and a payload matches the queried geometry.
    spec fn copy_result_consistent(&self) -> bool {
        &&& (self.pixels is Some <==> self.pending is None)
        &&& (self.pixels matches Some(p) ==> {
            &&& self.copy_attempted
            &&& (self.geometry matches Some(g) && g.representable() && p@.len()
                == g.buffer_len_spec())
        })
    }

    /// Opens a session for one request. The target extent is an upper
    /// bound with positive dimensions; `embed_headers` chooses between
    /// the full serialized bitmap and the raw pixel buffer.
    pub fn new(width: i32, height: i32, embed_headers: bool) -> (s: ThumbSession)
        requires
            0 < width,
            0 < height,
        ensures
            s.wf(),
            s.phase_spec() is Resolving,
            s.target_spec() == (width, height),
            s.embed_spec() == embed_headers,
            !s.handle_acquired_spec(),
            !s.context_acquired_spec(),
            !s.copy_attempted_spec(),
    {
        ThumbSession {
            phase: Phase::Resolving,
            width,
            height,
            embed_headers,
            geometry: None,
            pixels: None,
            pending: None,
            outcome: None,
            handle_acquired: false,
            handle_released: false,
            context_acquired: false,
            context_released: false,
            copy_attempted: false,
        }
    }

    /// The one call the driver must perform next.
    pub fn next_action(&self) -> (a: Action)
        requires
            self.wf(),
        ensures
            self.phase_spec() is Resolving ==> a is ResolvePath,
            self.phase_spec() is QueryingCapability ==> a is QueryCapability,
            self.phase_spec() is RequestingImage ==> a == Action::RequestImage(
                self.target_spec().0,
                self.target_spec().1,
            ),
            self.phase_spec() is QueryingGeometry ==> a is QueryGeometry,
            self.phase_spec() is CreatingContext ==> a is CreateContext,
            self.phase_spec() is CopyingPixels ==> (a matches Action::CopyPixels {
                rows,
                buffer_len,
            } && rows == self.expected_rows() && buffer_len == self.expected_buffer_len()),
            self.phase_spec() is ReleasingContext ==> a is ReleaseContext,
            self.phase_spec() is ReleasingHandle ==> a is ReleaseHandle,
            self.phase_spec() is Finished ==> a is Complete,
    {
        match self.phase {
            Phase::Resolving => Action::ResolvePath,
            Phase::QueryingCapability => Action::QueryCapability,
            Phase::RequestingImage => Action::RequestImage(self.width, self.height),
            Phase::QueryingGeometry => Action::QueryGeometry,
            Phase::CreatingContext => Action::CreateContext,
            Phase::CopyingPixels => {
                match &self.geometry {
                    Some(g) => Action::CopyPixels {
                        rows: abs_u32(g.height),
                        buffer_len: g.buffer_len(),
                    },
                    None => unreached(),
                }
            },
            Phase::ReleasingContext => Action::ReleaseContext,
            Phase::ReleasingHandle => Action::ReleaseHandle,
            Phase::Finished => Action::Complete,
        }
    }

    /// The path resolved to a shell item.
    pub fn resolve_succeeded(&mut self)
        requires
            old(self).wf(),
            old(self).phase_spec() is Resolving,
        ensures
            final(self).wf(),
            final(self).phase_spec() is QueryingCapability,
            final(self).frame_except_phase(*old(self)),
    {
        self.phase = Phase::QueryingCapability;
    }

    /// The path could not be parsed or resolved; the request is over
    /// and nothing was acquired.
    pub fn resolve_failed(&mut self, code: i32)
        requires
            old(self).wf(),
            old(self).phase_spec() is Resolving,
        ensures
            final(self).wf(),
            final(self).phase_spec() is Finished,
            final(self).outcome_spec() == Some(Err::<Seq<u8>, ThumbError>(
                ThumbError::PathResolution(code),
            )),
            !final(self).handle_acquired_spec(),
            !final(self).copy_attempted_spec(),
    {
        self.phase = Phase::Finished;
        self.outcome = Some(Err(ThumbError::PathResolution(code)));
    }

    /// The item yielded its image-extraction capability.
    pub fn capability_granted(&mut self)
        requires
            old(self).wf(),
            old(self).phase_spec() is QueryingCapability,
        ensures
            final(self).wf(),
            final(self).phase_spec() is RequestingImage,
            final(self).frame_except_phase(*old(self)),
    {
        self.phase = Phase::RequestingImage;
    }

    /// The item does not support image extraction; the request is over
    /// and nothing was acquired.
    pub fn capability_denied(&mut self, code: i32)
        requires
            old(self).wf(),
            old(self).phase_spec() is QueryingCapability,
        ensures
            final(self).wf(),
            final(self).phase_spec() is Finished,
            final(self).outcome_spec() == Some(Err::<Seq<u8>, ThumbError>(ThumbError::Capability(
                code,
            ))),
            !final(self).handle_acquired_spec(),
            !final(self).copy_attempted_spec(),
    {
        self.phase = Phase::Finished;
        self.outcome = Some(Err(ThumbError::Capability(code)));
    }

    /// The shell produced a thumbnail; the session now owns the image
    /// handle and must see it released before finishing.
    pub fn image_acquired(&mut self)
        requires
            old(self).wf(),
            old(self).phase_spec() is RequestingImage,
        ensures
            final(self).wf(),
            final(self).phase_spec() is QueryingGeometry,
            final(self).handle_acquired_spec(),
            !final(self).handle_released_spec(),
            final(self).target_spec() == old(self).target_spec(),
            final(self).embed_spec() == old(self).embed_spec(),
            !final(self).context_acquired_spec(),
            !final(self).copy_attempted_spec(),
    {
        self.phase = Phase::QueryingGeometry;
        self.handle_acquired = true;
    }

    /// The shell could not produce a thumbnail; the request is over and
    /// nothing was acquired.
    pub fn image_denied(&mut self, code: i32)
        requires
            old(self).wf(),
            old(self).phase_spec() is RequestingImage,
        ensures
            final(self).wf(),
            final(self).phase_spec() is Finished,
            final(self).outcome_spec() == Some(Err::<Seq<u8>, ThumbError>(ThumbError::Acquisition(
                code,
            ))),
            !final(self).handle_acquired_spec(),
            !final(self).copy_attempted_spec(),
    {
        self.phase = Phase::Finished;
        self.outcome = Some(Err(ThumbError::Acquisition(code)));
    }

    /// The handle's geometry was queried. The shell guarantees a
    /// thumbnail no larger than the requested bounds in either
    /// dimension, and a thumbnail is a real image, so the driver hands
    /// over only a geometry within those bounds — anything else is a
    /// failed query. A geometry whose copy buffer fits the serialized
    /// layout advances to the pixel copy; one that does not is itself
    /// the failure, and only the handle release remains.
    pub fn geometry_found(&mut self, g: BitmapGeometry)
        requires
            old(self).wf(),
            old(self).phase_spec() is QueryingGeometry,
            1 <= abs_dim(g.width) <= old(self).target_spec().0,
            1 <= abs_dim(g.height) <= old(self).target_spec().1,
        ensures
            final(self).wf(),
            g.representable() ==> final(self).phase_spec() is CreatingContext
                && final(self).geometry_spec() == Some(g)
                && final(self).pending_spec() is None,
            !g.representable() ==> final(self).phase_spec() is ReleasingHandle
                && final(self).pending_spec() == Some(
                ThumbError::GeometryQuery(OVERSIZED_GEOMETRY),
            ),
            final(self).handle_acquired_spec(),
            !final(self).handle_released_spec(),
            !final(self).copy_attempted_spec(),
            final(self).embed_spec() == old(self).embed_spec(),
            final(self).target_spec() == old(self).target_spec(),
    {
        if g.check_representable() {
            self.geometry = Some(g);
            self.phase = Phase::CreatingContext;
        } else {
            self.pending = Some(ThumbError::GeometryQuery(OVERSIZED_GEOMETRY));
            self.phase = Phase::ReleasingHandle;
        }
    }

    /// The geometry query failed; only the handle release remains.
    pub fn geometry_failed(&mut self, code: i32)
        requires
            old(self).wf(),
            old(self).phase_spec() is QueryingGeometry,
        ensures
            final(self).wf(),
            final(self).phase_spec() is ReleasingHandle,
            final(self).pending_spec() == Some(ThumbError::GeometryQuery(code)),
            !final(self).copy_attempted_spec(),
    {
        self.pending = Some(ThumbError::GeometryQuery(code));
        self.phase = Phase::ReleasingHandle;
    }

    /// The temporary rendering context was created; the session now
    /// owns it and must see it released before the handle.
    pub fn context_created(&mut self)
        requires
            old(self).wf(),
            old(self).phase_spec() is CreatingContext,
        ensures
            final(self).wf(),
            final(self).phase_spec() is CopyingPixels,
            final(self).context_acquired_spec(),
            !final(self).context_released_spec(),
            final(self).geometry_spec() == old(self).geometry_spec(),
            final(self).embed_spec() == old(self).embed_spec(),
            final(self).target_spec() == old(self).target_spec(),
    {
        self.phase = Phase::CopyingPixels;
        self.context_acquired = true;
    }

    /// The pixel copy ran: `rows` is the row count the platform
    /// reports transferred, `code` the status code current at that
    /// moment, and `bits` the buffer the driver allocated for the copy.
    /// Zero rows transferred is the pixel-transfer failure; either way
    /// the context release comes next.
    pub fn pixels_copied(&mut self, rows: i32, code: i32, bits: Vec<u8>)
        requires
            old(self).wf(),
            old(self).phase_spec() is CopyingPixels,
            bits@.len() == old(self).expected_buffer_len(),
        ensures
            final(self).wf(),
            final(self).phase_spec() is ReleasingContext,
            final(self).copy_attempted_spec(),
            rows == 0 ==> final(self).pending_spec() == Some(ThumbError::PixelTransfer(code))
                && final(self).pixels_spec() is None,
            rows != 0 ==> final(self).pixels_spec() == Some(bits@)
                && final(self).pending_spec() is None,
            final(self).geometry_spec() == old(self).geometry_spec(),
            final(self).embed_spec() == old(self).embed_spec(),
            final(self).target_spec() == old(self).target_spec(),
    {
        self.copy_attempted = true;
        if rows == 0 {
            self.pending = Some(ThumbError::PixelTransfer(code));
        } else {
            self.pixels = Some(bits);
        }
        self.phase = Phase::ReleasingContext;
    }

    /// The rendering context was released; the handle release remains.
    pub fn context_released(&mut self)
        requires
            old(self).wf(),
            old(self).phase_spec() is ReleasingContext,
        ensures
            final(self).wf(),
            final(self).phase_spec() is ReleasingHandle,
            final(self).context_released_spec(),
            final(self).pending_spec() == old(self).pending_spec(),
            final(self).pixels_spec() == old(self).pixels_spec(),
            final(self).geometry_spec() == old(self).geometry_spec(),
            final(self).embed_spec() == old(self).embed_spec(),
            final(self).target_spec() == old(self).target_spec(),
    {
        self.context_released = true;
        self.phase = Phase::ReleasingHandle;
    }

    /// The image handle was released; the session finishes. A pending
    /// error becomes the outcome; otherwise the copied payload is
    /// materialized, with the two headers when they were requested.
    pub fn handle_released(&mut self)
        requires
            old(self).wf(),
            old(self).phase_spec() is ReleasingHandle,
        ensures
            final(self).wf(),
            final(self).phase_spec() is Finished,
            final(self).handle_released_spec(),
            old(self).pending_spec() matches Some(e) ==> final(self).outcome_spec() == Some(
                Err::<Seq<u8>, ThumbError>(e),
            ),
            (old(self).pending_spec() is None && old(self).pixels_spec() is Some
                && old(self).geometry_spec() is Some) ==> final(self).outcome_spec() == Some(
                Ok::<Seq<u8>, ThumbError>(
                    Self::success_bytes(
                        old(self).embed_spec(),
                        old(self).geometry_spec()->0,
                        old(self).pixels_spec()->0,
                    ),
                ),
            ),
            final(self).geometry_spec() == old(self).geometry_spec(),
            final(self).embed_spec() == old(self).embed_spec(),
            final(self).target_spec() == old(self).target_spec(),
    {
        self.handle_released = true;
        let pending = self.pending.take();
        match pending {
            Some(e) => {
                self.outcome = Some(Err(e));
            },
            None => {
                let pixels = self.pixels.take();
                match (pixels, &self.geometry) {
                    (Some(p), Some(g)) => {
                        proof {
                            lemma_stream_length(g.width, g.height, p@);
                            lemma_fixed_format_fields(g.width, g.height, p@);
                            lemma_width_field(g.width, g.height, p@);
                            lemma_height_field(g.width, g.height, p@);
                        }
                        let bytes = materialize_bytes(g.width, g.height, p, self.embed_headers);
                        self.outcome = Some(Ok(bytes));
                    },
                    _ => {
                        unreached()
                    },
                }
            },
        }
        self.phase = Phase::Finished;
    }

    /// Whether the outcome is ready.
    pub fn is_finished(&self) -> (b: bool)
        ensures
            b == (self.phase_spec() is Finished),
    {
        match self.phase {
            Phase::Finished => true,
            _ => false,
        }
    }

    /// Whether every acquired resource has been released.
    pub fn resources_balanced(&self) -> (b: bool)
        ensures
            b == ((self.handle_acquired_spec() ==> self.handle_released_spec()) && (self
                .context_acquired_spec() ==> self.context_released_spec())),
    {
        (!self.handle_acquired || self.handle_released) && (!self.context_acquired
            || self.context_released)
    }

    /// Hands the finished request's result to the caller.
    pub fn into_outcome(self) -> (r: Result<Vec<u8>, ThumbError>)
        requires
            self.wf(),
            self.phase_spec() is Finished,
        ensures
            self.outcome_spec() == Some(result_view(&r)),
    {
        match self.outcome {
            Some(r) => r,
            None => unreached(),
        }
    }

    /// Frame: everything except the stage is unchanged.
    pub open spec fn frame_except_phase(&self, prev: ThumbSession) -> bool {
        &&& self.target_spec() == prev.target_spec()
        &&& self.embed_spec() == prev.embed_spec()
        &&& self.geometry_spec() == prev.geometry_spec()
        &&& self.pixels_spec() == prev.pixels_spec()
        &&& self.pending_spec() == prev.pending_spec()
        &&& self.outcome_spec() == prev.outcome_spec()
        &&& self.handle_acquired_spec() == prev.handle_acquired_spec()
        &&& self.handle_released_spec() == prev.handle_released_spec()
        &&& self.context_acquired_spec() == prev.context_acquired_spec()
        &&& self.context_released_spec() == prev.context_released_spec()
        &&& self.copy_attempted_spec() == prev.copy_attempted_spec()
    }
}

/// The mathematical value of an executable result.
pub open spec fn result_view(r: &Result<Vec<u8>, ThumbError>) -> Result<Seq<u8>, ThumbError> {
    match r {
        Ok(v) => Ok(v@),
        Err(e) => Err(*e),
    }
}

/// Law: a finished session holds no platform resource — whatever was
/// acquired along the way was released, on failure paths as on the
/// success path.
pub proof fn lemma_finished_releases_resources(s: &ThumbSession)
    requires
        s.wf(),
        s.phase_spec() is Finished,
    ensures
        s.handle_acquired_spec() ==> s.handle_released_spec(),
        s.context_acquired_spec() ==> s.context_released_spec(),
{
}

/// Law: a release is only ever recorded for a resource that was
/// acquired, and the context is only ever acquired under a held handle.
pub proof fn lemma_release_only_after_acquire(s: &ThumbSession)
    requires
        s.wf(),
    ensures
        s.handle_released_spec() ==> s.handle_acquired_spec(),
        s.context_released_spec() ==> s.context_acquired_spec(),
        s.context_acquired_spec() ==> s.handle_acquired_spec(),
{
}

/// Law: a request that failed before acquisition — path resolution,
/// the capability query, or the thumbnail request itself — never
/// acquired the handle and never attempted a pixel transfer.
pub proof fn lemma_early_failure_no_transfer(s: &ThumbSession, e: ThumbError)
    requires
        s.wf(),
        s.outcome_spec() == Some(Err::<Seq<u8>, ThumbError>(e)),
        e.is_pre_acquisition(),
    ensures
        !s.handle_acquired_spec(),
        !s.copy_attempted_spec(),
{
}

/// Law: a successful outcome exists only after an actual pixel
/// transfer.
pub proof fn lemma_success_needs_transfer(s: &ThumbSession, bytes: Seq<u8>)
    requires
        s.wf(),
        s.outcome_spec() == Some(Ok::<Seq<u8>, ThumbError>(bytes)),
    ensures
        s.copy_attempted_spec(),
{
}

/// Law: the geometry a session accepts never exceeds the requested
/// bounds — the returned thumbnail is no larger than asked for in
/// either dimension, and it is a real image of at least one pixel each
/// way.
pub proof fn lemma_geometry_within_bounds(s: &ThumbSession)
    requires
        s.wf(),
        s.geometry_spec() is Some,
    ensures
        1 <= abs_dim(s.geometry_spec()->0.width) <= s.target_spec().0,
        1 <= abs_dim(s.geometry_spec()->0.height) <= s.target_spec().1,
{
}

/// Law: a successful outcome with embedded headers opens with the
/// magic bytes "BM" and carries, from the *queried* geometry, a width
/// field of at most the requested width, a height field that is the
/// negative of an absolute height at most the requested height, one
/// plane, and 32 bits per pixel.
pub proof fn lemma_outcome_header_fields(s: &ThumbSession, bytes: Seq<u8>)
    requires
        s.wf(),
        s.embed_spec(),
        s.outcome_spec() == Some(Ok::<Seq<u8>, ThumbError>(bytes)),
    ensures
        s.geometry_spec() is Some,
        bytes[0] == 0x42u8,
        bytes[1] == 0x4du8,
        bytes.subrange(18, 22) == spec_u32_to_le_bytes(width_field(s.geometry_spec()->0.width)),
        1 <= width_field(s.geometry_spec()->0.width) <= s.target_spec().0,
        bytes.subrange(22, 26) == spec_u32_to_le_bytes(height_field(s.geometry_spec()->0.height)),
        1 <= abs_dim(s.geometry_spec()->0.height) <= s.target_spec().1,
        as_signed(height_field(s.geometry_spec()->0.height)) == -abs_dim(
            s.geometry_spec()->0.height,
        ),
        bytes.subrange(26, 28) == spec_u16_to_le_bytes(1u16),
        bytes.subrange(28, 30) == spec_u16_to_le_bytes(32u16),
{
    let g = s.geometry_spec()->0;
    lemma_height_field(g.width, g.height, Seq::<u8>::empty());
}

/// Law: a successful outcome's length is the four bytes per pixel of
/// the queried geometry's `|width| * |height|` pixels, plus the 54
/// header bytes when headers were requested.
pub proof fn lemma_outcome_length(s: &ThumbSession, bytes: Seq<u8>)
    requires
        s.wf(),
        s.outcome_spec() == Some(Ok::<Seq<u8>, ThumbError>(bytes)),
    ensures
        s.geometry_spec() is Some,
        bytes.len() == (if s.embed_spec() {
            54 + s.geometry_spec()->0.buffer_len_spec()
        } else {
            s.geometry_spec()->0.buffer_len_spec()
        }),
{
}

} // verus!
