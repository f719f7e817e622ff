//! What the PipeWire backend decides from values alone: the DRM fourcc of a
//! pixel format, which SPA video format stands for which pixel format in the
//! probed library, whether that library has the producer primitives, and
//! whether a dmabuf frame PipeWire delivered describes an importable
//! surface. Probing the library and holding the frame's descriptors are the
//! host's.

use vstd::prelude::*;
use vstd::string::*;

use crate::error::{CaptureTransferError, Result as CaptureResult};
use crate::model::PixelFormat;
use crate::text::{decimal_string, spec_decimal};

verus! {

/// DRM fourcc `BA24`: 8-bit BGRA.
pub const DRM_FORMAT_BGRA8888: u32 = 0x3432_4142u32;

/// DRM fourcc `RA24`: 8-bit RGBA.
pub const DRM_FORMAT_RGBA8888: u32 = 0x3432_4152u32;

/// The linear (untiled) DRM format modifier.
pub const DRM_FORMAT_MOD_LINEAR: u64 = 0u64;

/// The DRM fourcc of a pixel format, if it has one.
pub open spec fn spec_drm_fourcc(pixel_format: PixelFormat) -> Option<u32> {
    match pixel_format {
        PixelFormat::Bgra8Unorm => Some(DRM_FORMAT_BGRA8888),
        PixelFormat::Rgba8Unorm => Some(DRM_FORMAT_RGBA8888),
        PixelFormat::Unknown => None,
    }
}

pub fn drm_fourcc_for_pixel_format(pixel_format: PixelFormat) -> (fourcc: Option<u32>)
    ensures
        fourcc == spec_drm_fourcc(pixel_format),
{
    match pixel_format {
        PixelFormat::Bgra8Unorm => Some(DRM_FORMAT_BGRA8888),
        PixelFormat::Rgba8Unorm => Some(DRM_FORMAT_RGBA8888),
        PixelFormat::Unknown => None,
    }
}

/// What a probe of the PipeWire library found: whether it can run, and the
/// values of the SPA constants the backend speaks in.
#[derive(Debug, Clone, PartialEq, Eq)]
pub struct PipeWireRuntimeProbe {
    pub can_init: bool,
    pub can_create_thread_loop: bool,
    pub spa_data_dmabuf: u32,
    pub spa_data_syncobj: u32,
    pub spa_meta_header: u32,
    pub spa_meta_video_damage: u32,
    pub spa_video_format_bgra: u32,
    pub spa_video_format_rgba: u32,
    pub spa_video_max_planes: u32,
    pub spa_format_video_modifier: u32,
    pub library_version: Option<String>,
}

/// The pixel format SPA video format `spa_format` stands for in `probe`'s
/// library, if any.
pub open spec fn spec_pixel_format_for_spa(probe: PipeWireRuntimeProbe, spa_format: u32) -> Option<PixelFormat> {
    if spa_format == probe.spa_video_format_bgra {
        Some(PixelFormat::Bgra8Unorm)
    } else if spa_format == probe.spa_video_format_rgba {
        Some(PixelFormat::Rgba8Unorm)
    } else {
        None
    }
}

impl PipeWireRuntimeProbe {
    /// The library can run a producer stream of dmabufs with syncobj
    /// timelines and modifiers, with room for four planes.
    pub fn supports_dmabuf_producer_primitives(&self) -> (supported: bool)
        ensures
            supported == (self.can_init && self.can_create_thread_loop && self.spa_data_dmabuf != 0
                && self.spa_data_syncobj != 0 && self.spa_video_max_planes >= 4 && self.spa_format_video_modifier
                != 0),
    {
        self.can_init && self.can_create_thread_loop && self.spa_data_dmabuf != 0 && self.spa_data_syncobj != 0
            && self.spa_video_max_planes >= 4 && self.spa_format_video_modifier != 0
    }

    /// The SPA video format that stands for `pixel_format`, if any.
    pub fn spa_format_for_pixel_format(&self, pixel_format: PixelFormat) -> (spa_format: Option<u32>)
        ensures
            spa_format == (match pixel_format {
                PixelFormat::Bgra8Unorm => Some(self.spa_video_format_bgra),
                PixelFormat::Rgba8Unorm => Some(self.spa_video_format_rgba),
                PixelFormat::Unknown => None::<u32>,
            }),
    {
        match pixel_format {
            PixelFormat::Bgra8Unorm => Some(self.spa_video_format_bgra),
            PixelFormat::Rgba8Unorm => Some(self.spa_video_format_rgba),
            PixelFormat::Unknown => None,
        }
    }

    pub fn pixel_format_for_spa_format(&self, spa_format: u32) -> (pixel_format: Option<PixelFormat>)
        ensures
            pixel_format == spec_pixel_format_for_spa(*self, spa_format),
    {
        if spa_format == self.spa_video_format_bgra {
            Some(PixelFormat::Bgra8Unorm)
        } else if spa_format == self.spa_video_format_rgba {
            Some(PixelFormat::Rgba8Unorm)
        } else {
            None
        }
    }
}

/// One plane of a delivered dmabuf frame: where it starts and its row
/// stride.
#[derive(Debug, Clone, Copy, PartialEq, Eq, Structural)]
pub struct PipeWireDmabufPlaneLayout {
    pub offset: u32,
    pub stride: u32,
}

/// A dmabuf frame as PipeWire delivered it, without its descriptors.
#[derive(Debug, Clone, PartialEq, Eq)]
pub struct PipeWireDmabufFrameLayout {
    pub width: u32,
    pub height: u32,
    pub spa_format: u32,
    pub modifier: u64,
    pub planes: Vec<PipeWireDmabufPlaneLayout>,
}

/// Why a delivered frame does not describe an importable surface in
/// `probe`'s library, or the pixel format it describes.
pub open spec fn spec_frame_pixel_format(
    frame: PipeWireDmabufFrameLayout,
    probe: PipeWireRuntimeProbe,
) -> Result<PixelFormat, Seq<char>> {
    if frame.width == 0 || frame.height == 0 {
        Err("invalid frame dimensions "@ + spec_decimal(frame.width as nat) + "x"@ + spec_decimal(frame.height as nat))
    } else if frame.planes@.len() == 0 || frame.planes@.len() > probe.spa_video_max_planes {
        Err(
            "dmabuf plane count "@ + spec_decimal(frame.planes@.len()) + " outside 1..="@ + spec_decimal(
                probe.spa_video_max_planes as nat,
            ),
        )
    } else if spec_pixel_format_for_spa(probe, frame.spa_format) is None {
        Err("unsupported SPA video format "@ + spec_decimal(frame.spa_format as nat))
    } else if exists|i: int| 0 <= i < frame.planes@.len() && #[trigger] frame.planes@[i].stride == 0 {
        Err("dmabuf plane stride must be non-zero"@)
    } else {
        Ok(spec_pixel_format_for_spa(probe, frame.spa_format).unwrap())
    }
}

fn frame_error(message: String) -> (error: CaptureTransferError)
    ensures
        error matches CaptureTransferError::NativeBackend { operation, message: text }
            && operation@ == "pipewire-dmabuf-frame-descriptor"@ && text@ == message@,
{
    CaptureTransferError::NativeBackend { operation: "pipewire-dmabuf-frame-descriptor", message }
}

impl PipeWireDmabufFrameLayout {
    /// The pixel format of the surface the frame describes, once its
    /// dimensions, plane count, SPA format and strides are checked in that
    /// order.
    pub fn surface_pixel_format(&self, probe: &PipeWireRuntimeProbe) -> (pixel_format: CaptureResult<PixelFormat>)
        ensures
            match spec_frame_pixel_format(*self, *probe) {
                Ok(expected) => pixel_format == Ok::<PixelFormat, CaptureTransferError>(expected),
                Err(message) => pixel_format matches Err(CaptureTransferError::NativeBackend { operation, message: text })
                    && operation@ == "pipewire-dmabuf-frame-descriptor"@ && text@ == message,
            },
    {
        if self.width == 0 || self.height == 0 {
            let mut message = String::from_str("invalid frame dimensions ");
            let width = decimal_string(self.width as u64);
            message.append(width.as_str());
            message.append("x");
            let height = decimal_string(self.height as u64);
            message.append(height.as_str());
            return Err(frame_error(message));
        }
        let count = self.planes.len();
        if count == 0 || count > probe.spa_video_max_planes as usize {
            let mut message = String::from_str("dmabuf plane count ");
            let number = decimal_string(count as u64);
            message.append(number.as_str());
            message.append(" outside 1..=");
            let most = decimal_string(probe.spa_video_max_planes as u64);
            message.append(most.as_str());
            return Err(frame_error(message));
        }
        let pixel_format = match probe.pixel_format_for_spa_format(self.spa_format) {
            Some(pixel_format) => pixel_format,
            None => {
                let mut message = String::from_str("unsupported SPA video format ");
                let format = decimal_string(self.spa_format as u64);
                message.append(format.as_str());
                return Err(frame_error(message));
            },
        };
        let mut index: usize = 0;
        while index < count
            invariant
                count == self.planes@.len(),
                0 < count <= probe.spa_video_max_planes,
                self.width != 0 && self.height != 0,
                spec_pixel_format_for_spa(*probe, self.spa_format) == Some(pixel_format),
                index <= count,
                forall|j: int| 0 <= j < index ==> self.planes@[j].stride != 0,
            decreases count - index,
        {
            if self.planes[index].stride == 0 {
                proof {
                    assert(self.planes@[index as int].stride == 0);
                }
                return Err(frame_error(String::from_str("dmabuf plane stride must be non-zero")));
            }
            index = index + 1;
        }
        Ok(pixel_format)
    }
}

} // verus!
