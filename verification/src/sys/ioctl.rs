//! Data model of the kernel video-capture control protocol, and the encoding
//! of its control-operation numbers.
//!
//! Every control structure here mirrors the fields of the kernel's structure
//! of the same name, as plain values: fixed-width integers and tagged
//! variants in place of the kernel's overlapping-memory unions. Reserved
//! padding and the exact `repr(C)` layout belong to the unverified shell that
//! exchanges the bytes with the kernel; the shell copies these values into
//! its wire structures field by field and zeroes the reserved words.
#![allow(non_camel_case_types)]

use vstd::prelude::*;

verus! {

// ---------------------------------------------------------------------------
// Control-operation numbers.
//
// A control-operation number packs a direction, a payload size, a type letter
// and a sequence number into one word: two direction bits at bit 30, a
// 14-bit payload size at bit 16, the type letter at bit 8 and the sequence
// number in the low byte. The numbers must match the running kernel's
// expectation bit for bit, so the whole table is derived here from one
// encoding rule and proved against it.
// ---------------------------------------------------------------------------

/// Direction bit: the caller writes the payload to the kernel.
pub const IOC_WRITE: u64 = 1;
/// Direction bit: the caller reads the payload back from the kernel.
pub const IOC_READ: u64 = 2;
/// Both direction bits: the payload travels both ways.
pub const IOC_READWRITE: u64 = 3;

/// The type letter of every video-capture control operation (ASCII `V`).
pub const VIDIOC_TYPE: u64 = 0x56;

/// The control-operation number for direction `dir`, type letter `typ`,
/// sequence number `nr` and payload size `size`.
pub open spec fn ioc(dir: u64, typ: u64, nr: u64, size: u64) -> u64 {
    (dir << 30) | (size << 16) | (typ << 8) | nr
}

/// Packs a control-operation number from its four fields.
pub fn request_code(dir: u64, typ: u64, nr: u64, size: u64) -> (r: u64)
    requires
        dir <= 3,
        typ < 256,
        nr < 256,
        size < 16384,
    ensures
        r == ioc(dir, typ, nr, size),
{
    (dir << 30) | (size << 16) | (typ << 8) | nr
}

// Payload sizes of the wire structures on the 64-bit target ABI, reserved
// words and padding included.

/// Wire size of `v4l2_capability`.
pub const V4L2_CAPABILITY_SIZE: u64 = 104;
/// Wire size of `v4l2_fmtdesc`.
pub const V4L2_FMTDESC_SIZE: u64 = 64;
/// Wire size of the format structure (type word plus 200-byte payload union,
/// aligned to 8 bytes).
pub const V4L2_FORMAT_SIZE: u64 = 208;
/// Wire size of `v4l2_requestbuffers`.
pub const V4L2_REQUESTBUFFERS_SIZE: u64 = 20;
/// Wire size of `v4l2_buffer`.
pub const V4L2_BUFFER_SIZE: u64 = 88;
/// Wire size of the stream-parameter structure (type word plus 200-byte
/// payload union, aligned to 4 bytes).
pub const V4L2_STREAMPARM_SIZE: u64 = 204;
/// Wire size of `v4l2_frmsizeenum`.
pub const V4L2_FRMSIZEENUM_SIZE: u64 = 44;
/// Wire size of a plain C `int` payload.
pub const C_INT_SIZE: u64 = 4;

// The control-operation number table. Each entry is proved equal to the
// encoding rule applied to its direction, sequence number and payload size by
// `lemma_control_code_table`.

pub const VIDIOC_QUERYCAP: u64 = 0x80685600;
pub const VIDIOC_ENUM_FMT: u64 = 0xC0405602;
pub const VIDIOC_G_FMT: u64 = 0xC0D05604;
pub const VIDIOC_S_FMT: u64 = 0xC0D05605;
pub const VIDIOC_REQBUFS: u64 = 0xC0145608;
pub const VIDIOC_QUERYBUF: u64 = 0xC0585609;
pub const VIDIOC_QBUF: u64 = 0xC058560F;
pub const VIDIOC_DQBUF: u64 = 0xC0585611;
pub const VIDIOC_STREAMON: u64 = 0x40045612;
pub const VIDIOC_STREAMOFF: u64 = 0x40045613;
pub const VIDIOC_G_PARM: u64 = 0xC0CC5615;
pub const VIDIOC_S_PARM: u64 = 0xC0CC5616;
pub const VIDIOC_G_INPUT: u64 = 0x80045626;
pub const VIDIOC_S_INPUT: u64 = 0xC0045627;
pub const VIDIOC_ENUM_FRAMESIZES: u64 = 0xC02C564A;

/// Every control-operation number above is the encoding rule applied to its
/// direction, sequence number and payload size.
pub proof fn lemma_control_code_table()
    ensures
        VIDIOC_QUERYCAP == ioc(IOC_READ, VIDIOC_TYPE, 0, V4L2_CAPABILITY_SIZE),
        VIDIOC_ENUM_FMT == ioc(IOC_READWRITE, VIDIOC_TYPE, 2, V4L2_FMTDESC_SIZE),
        VIDIOC_G_FMT == ioc(IOC_READWRITE, VIDIOC_TYPE, 4, V4L2_FORMAT_SIZE),
        VIDIOC_S_FMT == ioc(IOC_READWRITE, VIDIOC_TYPE, 5, V4L2_FORMAT_SIZE),
        VIDIOC_REQBUFS == ioc(IOC_READWRITE, VIDIOC_TYPE, 8, V4L2_REQUESTBUFFERS_SIZE),
        VIDIOC_QUERYBUF == ioc(IOC_READWRITE, VIDIOC_TYPE, 9, V4L2_BUFFER_SIZE),
        VIDIOC_QBUF == ioc(IOC_READWRITE, VIDIOC_TYPE, 15, V4L2_BUFFER_SIZE),
        VIDIOC_DQBUF == ioc(IOC_READWRITE, VIDIOC_TYPE, 17, V4L2_BUFFER_SIZE),
        VIDIOC_STREAMON == ioc(IOC_WRITE, VIDIOC_TYPE, 18, C_INT_SIZE),
        VIDIOC_STREAMOFF == ioc(IOC_WRITE, VIDIOC_TYPE, 19, C_INT_SIZE),
        VIDIOC_G_PARM == ioc(IOC_READWRITE, VIDIOC_TYPE, 21, V4L2_STREAMPARM_SIZE),
        VIDIOC_S_PARM == ioc(IOC_READWRITE, VIDIOC_TYPE, 22, V4L2_STREAMPARM_SIZE),
        VIDIOC_G_INPUT == ioc(IOC_READ, VIDIOC_TYPE, 38, C_INT_SIZE),
        VIDIOC_S_INPUT == ioc(IOC_READWRITE, VIDIOC_TYPE, 39, C_INT_SIZE),
        VIDIOC_ENUM_FRAMESIZES == ioc(IOC_READWRITE, VIDIOC_TYPE, 74, V4L2_FRMSIZEENUM_SIZE),
{
    assert(0x80685600u64 == (2u64 << 30) | (104u64 << 16) | (0x56u64 << 8) | 0u64) by (bit_vector);
    assert(0xC0405602u64 == (3u64 << 30) | (64u64 << 16) | (0x56u64 << 8) | 2u64) by (bit_vector);
    assert(0xC0D05604u64 == (3u64 << 30) | (208u64 << 16) | (0x56u64 << 8) | 4u64) by (bit_vector);
    assert(0xC0D05605u64 == (3u64 << 30) | (208u64 << 16) | (0x56u64 << 8) | 5u64) by (bit_vector);
    assert(0xC0145608u64 == (3u64 << 30) | (20u64 << 16) | (0x56u64 << 8) | 8u64) by (bit_vector);
    assert(0xC0585609u64 == (3u64 << 30) | (88u64 << 16) | (0x56u64 << 8) | 9u64) by (bit_vector);
    assert(0xC058560Fu64 == (3u64 << 30) | (88u64 << 16) | (0x56u64 << 8) | 15u64) by (bit_vector);
    assert(0xC0585611u64 == (3u64 << 30) | (88u64 << 16) | (0x56u64 << 8) | 17u64) by (bit_vector);
    assert(0x40045612u64 == (1u64 << 30) | (4u64 << 16) | (0x56u64 << 8) | 18u64) by (bit_vector);
    assert(0x40045613u64 == (1u64 << 30) | (4u64 << 16) | (0x56u64 << 8) | 19u64) by (bit_vector);
    assert(0xC0CC5615u64 == (3u64 << 30) | (204u64 << 16) | (0x56u64 << 8) | 21u64) by (bit_vector);
    assert(0xC0CC5616u64 == (3u64 << 30) | (204u64 << 16) | (0x56u64 << 8) | 22u64) by (bit_vector);
    assert(0x80045626u64 == (2u64 << 30) | (4u64 << 16) | (0x56u64 << 8) | 38u64) by (bit_vector);
    assert(0xC0045627u64 == (3u64 << 30) | (4u64 << 16) | (0x56u64 << 8) | 39u64) by (bit_vector);
    assert(0xC02C564Au64 == (3u64 << 30) | (44u64 << 16) | (0x56u64 << 8) | 74u64) by (bit_vector);
}

// ---------------------------------------------------------------------------
// Four-character pixel codes.
// ---------------------------------------------------------------------------

/// The four-character pixel code whose bytes are `a`, `b`, `c`, `d`, packed
/// little-endian.
pub open spec fn spec_fourcc(a: u8, b: u8, c: u8, d: u8) -> u32 {
    (a as u32) | ((b as u32) << 8) | ((c as u32) << 16) | ((d as u32) << 24)
}

/// Packs a four-character pixel code from its bytes.
pub fn fourcc(a: u8, b: u8, c: u8, d: u8) -> (r: u32)
    ensures
        r == spec_fourcc(a, b, c, d),
{
    (a as u32) | ((b as u32) << 8) | ((c as u32) << 16) | ((d as u32) << 24)
}

/// Planar YVU 4:2:0, 12 bits per pixel (`YV12`).
pub const V4L2_PIX_FMT_YVU420: u32 = 0x32315659;
/// Planar YUV 4:2:0, 12 bits per pixel (`YU12`).
pub const V4L2_PIX_FMT_YUV420: u32 = 0x32315559;
/// Packed YUV 4:2:2, 16 bits per pixel (`YUYV`).
pub const V4L2_PIX_FMT_YUYV: u32 = 0x56595559;
/// Semi-planar Y/CbCr 4:2:0, 12 bits per pixel (`NV12`).
pub const V4L2_PIX_FMT_NV12: u32 = 0x3231564E;
/// Semi-planar Y/CrCb 4:2:0, 12 bits per pixel (`NV21`).
pub const V4L2_PIX_FMT_NV21: u32 = 0x3132564E;
/// Motion-JPEG (`MJPG`).
pub const V4L2_PIX_FMT_MJPEG: u32 = 0x47504A4D;
/// JFIF JPEG (`JPEG`).
pub const V4L2_PIX_FMT_JPEG: u32 = 0x4745504A;
/// H264 with start codes (`H264`).
pub const V4L2_PIX_FMT_H264: u32 = 0x34363248;
/// H264 without start codes (`AVC1`).
pub const V4L2_PIX_FMT_H264_NO_SC: u32 = 0x31435641;
/// MPEG-2 elementary stream (`MPG2`).
pub const V4L2_PIX_FMT_MPEG2: u32 = 0x3247504D;
/// VP8 (`VP80`).
pub const V4L2_PIX_FMT_VP8: u32 = 0x30385056;

/// Every pixel-format code above is the four-character packing of its name.
pub proof fn lemma_pix_fmt_table()
    ensures
        V4L2_PIX_FMT_YVU420 == spec_fourcc(0x59, 0x56, 0x31, 0x32),
        V4L2_PIX_FMT_YUV420 == spec_fourcc(0x59, 0x55, 0x31, 0x32),
        V4L2_PIX_FMT_YUYV == spec_fourcc(0x59, 0x55, 0x59, 0x56),
        V4L2_PIX_FMT_NV12 == spec_fourcc(0x4E, 0x56, 0x31, 0x32),
        V4L2_PIX_FMT_NV21 == spec_fourcc(0x4E, 0x56, 0x32, 0x31),
        V4L2_PIX_FMT_MJPEG == spec_fourcc(0x4D, 0x4A, 0x50, 0x47),
        V4L2_PIX_FMT_JPEG == spec_fourcc(0x4A, 0x50, 0x45, 0x47),
        V4L2_PIX_FMT_H264 == spec_fourcc(0x48, 0x32, 0x36, 0x34),
        V4L2_PIX_FMT_H264_NO_SC == spec_fourcc(0x41, 0x56, 0x43, 0x31),
        V4L2_PIX_FMT_MPEG2 == spec_fourcc(0x4D, 0x50, 0x47, 0x32),
        V4L2_PIX_FMT_VP8 == spec_fourcc(0x56, 0x50, 0x38, 0x30),
{
    assert(0x32315659u32 == (0x59u32) | ((0x56u32) << 8) | ((0x31u32) << 16) | ((0x32u32) << 24))
        by (bit_vector);
    assert(0x32315559u32 == (0x59u32) | ((0x55u32) << 8) | ((0x31u32) << 16) | ((0x32u32) << 24))
        by (bit_vector);
    assert(0x56595559u32 == (0x59u32) | ((0x55u32) << 8) | ((0x59u32) << 16) | ((0x56u32) << 24))
        by (bit_vector);
    assert(0x3231564Eu32 == (0x4Eu32) | ((0x56u32) << 8) | ((0x31u32) << 16) | ((0x32u32) << 24))
        by (bit_vector);
    assert(0x3132564Eu32 == (0x4Eu32) | ((0x56u32) << 8) | ((0x32u32) << 16) | ((0x31u32) << 24))
        by (bit_vector);
    assert(0x47504A4Du32 == (0x4Du32) | ((0x4Au32) << 8) | ((0x50u32) << 16) | ((0x47u32) << 24))
        by (bit_vector);
    assert(0x4745504Au32 == (0x4Au32) | ((0x50u32) << 8) | ((0x45u32) << 16) | ((0x47u32) << 24))
        by (bit_vector);
    assert(0x34363248u32 == (0x48u32) | ((0x32u32) << 8) | ((0x36u32) << 16) | ((0x34u32) << 24))
        by (bit_vector);
    assert(0x31435641u32 == (0x41u32) | ((0x56u32) << 8) | ((0x43u32) << 16) | ((0x31u32) << 24))
        by (bit_vector);
    assert(0x3247504Du32 == (0x4Du32) | ((0x50u32) << 8) | ((0x47u32) << 16) | ((0x32u32) << 24))
        by (bit_vector);
    assert(0x30385056u32 == (0x56u32) | ((0x50u32) << 8) | ((0x38u32) << 16) | ((0x30u32) << 24))
        by (bit_vector);
}

// ---------------------------------------------------------------------------
// Protocol enumerations. The kernel transmits each as a fixed integer; the
// `code` method of each variant gives that integer.
// ---------------------------------------------------------------------------

/// Field order of a frame: progressive, or composed of interlaced fields.
#[derive(Clone, Copy, Debug, PartialEq, Eq, Structural)]
pub enum v4l2_field {
    V4L2_FIELD_ANY,
    V4L2_FIELD_NONE,
    V4L2_FIELD_TOP,
    V4L2_FIELD_BOTTOM,
    V4L2_FIELD_INTERLACED,
    V4L2_FIELD_SEQ_TB,
    V4L2_FIELD_SEQ_BT,
    V4L2_FIELD_ALTERNATE,
    V4L2_FIELD_INTERLACED_TB,
    V4L2_FIELD_INTERLACED_BT,
}

impl v4l2_field {
    /// The integer the kernel uses for this field order.
    pub open spec fn spec_code(self) -> u32 {
        match self {
            v4l2_field::V4L2_FIELD_ANY => 0,
            v4l2_field::V4L2_FIELD_NONE => 1,
            v4l2_field::V4L2_FIELD_TOP => 2,
            v4l2_field::V4L2_FIELD_BOTTOM => 3,
            v4l2_field::V4L2_FIELD_INTERLACED => 4,
            v4l2_field::V4L2_FIELD_SEQ_TB => 5,
            v4l2_field::V4L2_FIELD_SEQ_BT => 6,
            v4l2_field::V4L2_FIELD_ALTERNATE => 7,
            v4l2_field::V4L2_FIELD_INTERLACED_TB => 8,
            v4l2_field::V4L2_FIELD_INTERLACED_BT => 9,
        }
    }

    pub fn code(self) -> (r: u32)
        ensures
            r == self.spec_code(),
    {
        match self {
            v4l2_field::V4L2_FIELD_ANY => 0,
            v4l2_field::V4L2_FIELD_NONE => 1,
            v4l2_field::V4L2_FIELD_TOP => 2,
            v4l2_field::V4L2_FIELD_BOTTOM => 3,
            v4l2_field::V4L2_FIELD_INTERLACED => 4,
            v4l2_field::V4L2_FIELD_SEQ_TB => 5,
            v4l2_field::V4L2_FIELD_SEQ_BT => 6,
            v4l2_field::V4L2_FIELD_ALTERNATE => 7,
            v4l2_field::V4L2_FIELD_INTERLACED_TB => 8,
            v4l2_field::V4L2_FIELD_INTERLACED_BT => 9,
        }
    }
}

/// How a buffer's memory is provided. Only the memory-mapped model is used
/// by this crate.
#[derive(Clone, Copy, Debug, PartialEq, Eq, Structural)]
pub enum v4l2_memory {
    V4L2_MEMORY_MMAP,
    V4L2_MEMORY_USERPTR,
    V4L2_MEMORY_OVERLAY,
}

impl v4l2_memory {
    /// The integer the kernel uses for this memory model.
    pub open spec fn spec_code(self) -> u32 {
        match self {
            v4l2_memory::V4L2_MEMORY_MMAP => 1,
            v4l2_memory::V4L2_MEMORY_USERPTR => 2,
            v4l2_memory::V4L2_MEMORY_OVERLAY => 3,
        }
    }

    pub fn code(self) -> (r: u32)
        ensures
            r == self.spec_code(),
    {
        match self {
            v4l2_memory::V4L2_MEMORY_MMAP => 1,
            v4l2_memory::V4L2_MEMORY_USERPTR => 2,
            v4l2_memory::V4L2_MEMORY_OVERLAY => 3,
        }
    }
}

/// Colorspace of the transmitted image data.
#[derive(Clone, Copy, Debug, PartialEq, Eq, Structural)]
pub enum v4l2_colorspace {
    V4L2_COLORSPACE_SMPTE170M,
    V4L2_COLORSPACE_SMPTE240M,
    V4L2_COLORSPACE_REC709,
    V4L2_COLORSPACE_BT878,
    V4L2_COLORSPACE_470_SYSTEM_M,
    V4L2_COLORSPACE_470_SYSTEM_BG,
    V4L2_COLORSPACE_JPEG,
    V4L2_COLORSPACE_SRGB,
}

impl v4l2_colorspace {
    /// The integer the kernel uses for this colorspace.
    pub open spec fn spec_code(self) -> u32 {
        match self {
            v4l2_colorspace::V4L2_COLORSPACE_SMPTE170M => 1,
            v4l2_colorspace::V4L2_COLORSPACE_SMPTE240M => 2,
            v4l2_colorspace::V4L2_COLORSPACE_REC709 => 3,
            v4l2_colorspace::V4L2_COLORSPACE_BT878 => 4,
            v4l2_colorspace::V4L2_COLORSPACE_470_SYSTEM_M => 5,
            v4l2_colorspace::V4L2_COLORSPACE_470_SYSTEM_BG => 6,
            v4l2_colorspace::V4L2_COLORSPACE_JPEG => 7,
            v4l2_colorspace::V4L2_COLORSPACE_SRGB => 8,
        }
    }

    pub fn code(self) -> (r: u32)
        ensures
            r == self.spec_code(),
    {
        match self {
            v4l2_colorspace::V4L2_COLORSPACE_SMPTE170M => 1,
            v4l2_colorspace::V4L2_COLORSPACE_SMPTE240M => 2,
            v4l2_colorspace::V4L2_COLORSPACE_REC709 => 3,
            v4l2_colorspace::V4L2_COLORSPACE_BT878 => 4,
            v4l2_colorspace::V4L2_COLORSPACE_470_SYSTEM_M => 5,
            v4l2_colorspace::V4L2_COLORSPACE_470_SYSTEM_BG => 6,
            v4l2_colorspace::V4L2_COLORSPACE_JPEG => 7,
            v4l2_colorspace::V4L2_COLORSPACE_SRGB => 8,
        }
    }
}

/// Direction and kind of a buffer queue.
#[derive(Clone, Copy, Debug, PartialEq, Eq, Structural)]
pub enum v4l2_buf_type {
    V4L2_BUF_TYPE_VIDEO_CAPTURE,
    V4L2_BUF_TYPE_VIDEO_OUTPUT,
    V4L2_BUF_TYPE_VIDEO_OVERLAY,
    V4L2_BUF_TYPE_VBI_CAPTURE,
    V4L2_BUF_TYPE_VBI_OUTPUT,
    V4L2_BUF_TYPE_SLICED_VBI_CAPTURE,
    V4L2_BUF_TYPE_SLICED_VBI_OUTPUT,
    V4L2_BUF_TYPE_VIDEO_OUTPUT_OVERLAY,
    V4L2_BUF_TYPE_VIDEO_CAPTURE_MPLANE,
    V4L2_BUF_TYPE_VIDEO_OUTPUT_MPLANE,
    V4L2_BUF_TYPE_PRIVATE,
}

impl v4l2_buf_type {
    /// The integer the kernel uses for this buffer type.
    pub open spec fn spec_code(self) -> u32 {
        match self {
            v4l2_buf_type::V4L2_BUF_TYPE_VIDEO_CAPTURE => 1,
            v4l2_buf_type::V4L2_BUF_TYPE_VIDEO_OUTPUT => 2,
            v4l2_buf_type::V4L2_BUF_TYPE_VIDEO_OVERLAY => 3,
            v4l2_buf_type::V4L2_BUF_TYPE_VBI_CAPTURE => 4,
            v4l2_buf_type::V4L2_BUF_TYPE_VBI_OUTPUT => 5,
            v4l2_buf_type::V4L2_BUF_TYPE_SLICED_VBI_CAPTURE => 6,
            v4l2_buf_type::V4L2_BUF_TYPE_SLICED_VBI_OUTPUT => 7,
            v4l2_buf_type::V4L2_BUF_TYPE_VIDEO_OUTPUT_OVERLAY => 8,
            v4l2_buf_type::V4L2_BUF_TYPE_VIDEO_CAPTURE_MPLANE => 9,
            v4l2_buf_type::V4L2_BUF_TYPE_VIDEO_OUTPUT_MPLANE => 10,
            v4l2_buf_type::V4L2_BUF_TYPE_PRIVATE => 0x80,
        }
    }

    pub fn code(self) -> (r: u32)
        ensures
            r == self.spec_code(),
    {
        match self {
            v4l2_buf_type::V4L2_BUF_TYPE_VIDEO_CAPTURE => 1,
            v4l2_buf_type::V4L2_BUF_TYPE_VIDEO_OUTPUT => 2,
            v4l2_buf_type::V4L2_BUF_TYPE_VIDEO_OVERLAY => 3,
            v4l2_buf_type::V4L2_BUF_TYPE_VBI_CAPTURE => 4,
            v4l2_buf_type::V4L2_BUF_TYPE_VBI_OUTPUT => 5,
            v4l2_buf_type::V4L2_BUF_TYPE_SLICED_VBI_CAPTURE => 6,
            v4l2_buf_type::V4L2_BUF_TYPE_SLICED_VBI_OUTPUT => 7,
            v4l2_buf_type::V4L2_BUF_TYPE_VIDEO_OUTPUT_OVERLAY => 8,
            v4l2_buf_type::V4L2_BUF_TYPE_VIDEO_CAPTURE_MPLANE => 9,
            v4l2_buf_type::V4L2_BUF_TYPE_VIDEO_OUTPUT_MPLANE => 10,
            v4l2_buf_type::V4L2_BUF_TYPE_PRIVATE => 0x80,
        }
    }
}

/// How a frame-size enumeration describes the sizes a format supports.
#[derive(Clone, Copy, Debug, PartialEq, Eq, Structural)]
pub enum v4l2_frmsizetypes {
    V4L2_FRMSIZE_TYPE_DISCRETE,
    V4L2_FRMSIZE_TYPE_CONTINUOUS,
    V4L2_FRMSIZE_TYPE_STEPWISE,
}

impl v4l2_frmsizetypes {
    /// The integer the kernel uses for this enumeration kind.
    pub open spec fn spec_code(self) -> u32 {
        match self {
            v4l2_frmsizetypes::V4L2_FRMSIZE_TYPE_DISCRETE => 1,
            v4l2_frmsizetypes::V4L2_FRMSIZE_TYPE_CONTINUOUS => 2,
            v4l2_frmsizetypes::V4L2_FRMSIZE_TYPE_STEPWISE => 3,
        }
    }

    pub fn code(self) -> (r: u32)
        ensures
            r == self.spec_code(),
    {
        match self {
            v4l2_frmsizetypes::V4L2_FRMSIZE_TYPE_DISCRETE => 1,
            v4l2_frmsizetypes::V4L2_FRMSIZE_TYPE_CONTINUOUS => 2,
            v4l2_frmsizetypes::V4L2_FRMSIZE_TYPE_STEPWISE => 3,
        }
    }
}

// ---------------------------------------------------------------------------
// Control structures.
// ---------------------------------------------------------------------------

/// High-quality imaging capture mode flag.
pub const V4L2_MODE_HIGHQUALITY: u32 = 0x0001;
/// Vendor capture mode: video.
pub const V4L2_MODE_VIDEO: u32 = 0x0002;
/// Vendor capture mode: still image.
pub const V4L2_MODE_IMAGE: u32 = 0x0003;
/// Vendor capture mode: preview.
pub const V4L2_MODE_PREVIEW: u32 = 0x0004;

/// Capability bit: the device honors the frame-time field of the stream
/// parameters.
pub const V4L2_CAP_TIMEPERFRAME: u32 = 0x1000;

/// A rectangle on the image plane.
#[derive(Clone, Copy, Debug, PartialEq, Eq, Structural)]
pub struct v4l2_rect {
    pub left: i32,
    pub top: i32,
    pub width: i32,
    pub height: i32,
}

/// A ratio of two integers, used for frame times.
#[derive(Clone, Copy, Debug, PartialEq, Eq, Structural)]
pub struct v4l2_fract {
    pub numerator: u32,
    pub denominator: u32,
}

/// A second/microsecond timestamp, as the kernel stamps dequeued buffers.
#[derive(Clone, Copy, Debug, PartialEq, Eq, Structural)]
pub struct timeval {
    pub tv_sec: i64,
    pub tv_usec: i64,
}

/// What the device reports about itself.
#[derive(Clone, Copy, Debug)]
pub struct v4l2_capability {
    pub driver: [u8; 16],
    pub card: [u8; 32],
    pub bus_info: [u8; 32],
    pub version: u32,
    pub capabilities: u32,
    pub device_caps: u32,
}

/// One pixel format: dimensions, four-character encoding, field order,
/// colorspace, line stride and image size. Produced by negotiation and
/// immutable once a session is prepared.
#[derive(Clone, Copy, Debug, PartialEq, Eq, Structural)]
pub struct v4l2_pix_format {
    pub width: u32,
    pub height: u32,
    pub pixelformat: u32,
    pub field: v4l2_field,
    pub bytesperline: u32,
    pub sizeimage: u32,
    pub colorspace: v4l2_colorspace,
    pub private: u32,
    pub rot_angle: u32,
}

/// One entry of the device's enumerated format list.
#[derive(Clone, Copy, Debug)]
pub struct v4l2_fmtdesc {
    pub index: u32,
    pub typ: v4l2_buf_type,
    pub flags: u32,
    pub description: [u8; 32],
    pub pixelformat: u32,
}

impl v4l2_fmtdesc {
    /// An otherwise-zeroed entry carrying the fields the kernel reads on a
    /// format enumeration: buffer type and list index.
    pub fn query(typ: v4l2_buf_type, index: u32) -> (r: Self)
        ensures
            r.index == index,
            r.typ == typ,
            r.flags == 0,
            r.pixelformat == 0,
            forall|i: int| 0 <= i < 32 ==> r.description[i] == 0,
    {
        v4l2_fmtdesc { index, typ, flags: 0, description: [0u8; 32], pixelformat: 0 }
    }
}

/// One fixed frame size.
#[derive(Clone, Copy, Debug, PartialEq, Eq, Structural)]
pub struct v4l2_frmsize_discrete {
    pub width: u32,
    pub height: u32,
}

/// A range of frame sizes with step widths.
#[derive(Clone, Copy, Debug, PartialEq, Eq, Structural)]
pub struct v4l2_frmsize_stepwise {
    pub min_width: u32,
    pub max_width: u32,
    pub step_width: u32,
    pub min_height: u32,
    pub max_height: u32,
    pub step_height: u32,
}

/// The size payload of a frame-size enumeration entry: the kernel's
/// overlapping-memory union, kept here as a tagged variant so that the
/// discriminant and the payload stay coupled.
#[derive(Clone, Copy, Debug, PartialEq, Eq, Structural)]
pub enum v4l2_frmsize_size {
    Discrete(v4l2_frmsize_discrete),
    Continuous(v4l2_frmsize_stepwise),
    Stepwise(v4l2_frmsize_stepwise),
}

/// One entry of the device's frame-size enumeration for a pixel format.
#[derive(Clone, Copy, Debug, PartialEq, Eq, Structural)]
pub struct v4l2_frmsizeenum {
    pub index: u32,
    pub pixel_format: u32,
    pub size: v4l2_frmsize_size,
}

impl v4l2_frmsizeenum {
    /// The enumeration kind the kernel would tag this entry with.
    pub open spec fn spec_typ(self) -> v4l2_frmsizetypes {
        match self.size {
            v4l2_frmsize_size::Discrete(_) => v4l2_frmsizetypes::V4L2_FRMSIZE_TYPE_DISCRETE,
            v4l2_frmsize_size::Continuous(_) => v4l2_frmsizetypes::V4L2_FRMSIZE_TYPE_CONTINUOUS,
            v4l2_frmsize_size::Stepwise(_) => v4l2_frmsizetypes::V4L2_FRMSIZE_TYPE_STEPWISE,
        }
    }

    pub fn typ(&self) -> (r: v4l2_frmsizetypes)
        ensures
            r == self.spec_typ(),
    {
        match self.size {
            v4l2_frmsize_size::Discrete(_) => v4l2_frmsizetypes::V4L2_FRMSIZE_TYPE_DISCRETE,
            v4l2_frmsize_size::Continuous(_) => v4l2_frmsizetypes::V4L2_FRMSIZE_TYPE_CONTINUOUS,
            v4l2_frmsize_size::Stepwise(_) => v4l2_frmsizetypes::V4L2_FRMSIZE_TYPE_STEPWISE,
        }
    }
}

/// A frame timecode, as the kernel stamps dequeued buffers.
#[derive(Clone, Copy, Debug)]
pub struct v4l2_timecode {
    pub typ: u32,
    pub flags: u32,
    pub frames: u8,
    pub seconds: u8,
    pub minutes: u8,
    pub hours: u8,
    pub userbits: [u8; 4],
}

/// The request for a set of kernel buffers.
#[derive(Clone, Copy, Debug, PartialEq, Eq, Structural)]
pub struct v4l2_requestbuffers {
    pub count: u32,
    pub typ: v4l2_buf_type,
    pub memory: v4l2_memory,
}

impl v4l2_requestbuffers {
    /// The request for `count` buffers of the given type under the given
    /// memory model.
    pub fn request(typ: v4l2_buf_type, memory: v4l2_memory, count: u32) -> (r: Self)
        ensures
            r.count == count,
            r.typ == typ,
            r.memory == memory,
    {
        v4l2_requestbuffers { count, typ, memory }
    }
}

/// One buffer's descriptor: a transient value describing one pool slot's
/// current state, produced fresh by each query or dequeue exchange. The
/// kernel-side memory offset stands where the kernel's union of memory
/// locations does: only the memory-mapped model is supported here.
#[derive(Clone, Copy, Debug)]
pub struct v4l2_buffer {
    pub index: u32,
    pub typ: v4l2_buf_type,
    pub bytesused: u32,
    pub flags: u32,
    pub field: v4l2_field,
    pub timestamp: timeval,
    pub timecode: v4l2_timecode,
    pub sequence: u32,
    pub memory: v4l2_memory,
    pub offset: u32,
    pub length: u32,
    pub input: u32,
}

impl v4l2_buffer {
    /// An otherwise-zeroed descriptor carrying the fields the kernel reads
    /// on a buffer query: type, memory model and slot index.
    pub fn query_template(typ: v4l2_buf_type, memory: v4l2_memory, index: u32) -> (r: Self)
        ensures
            r.index == index,
            r.typ == typ,
            r.memory == memory,
            r.bytesused == 0,
            r.flags == 0,
            r.field == v4l2_field::V4L2_FIELD_ANY,
            r.timestamp.tv_sec == 0,
            r.timestamp.tv_usec == 0,
            r.sequence == 0,
            r.offset == 0,
            r.length == 0,
            r.input == 0,
    {
        v4l2_buffer {
            index,
            typ,
            bytesused: 0,
            flags: 0,
            field: v4l2_field::V4L2_FIELD_ANY,
            timestamp: timeval { tv_sec: 0, tv_usec: 0 },
            timecode: v4l2_timecode {
                typ: 0,
                flags: 0,
                frames: 0,
                seconds: 0,
                minutes: 0,
                hours: 0,
                userbits: [0u8; 4],
            },
            sequence: 0,
            memory,
            offset: 0,
            length: 0,
            input: 0,
        }
    }

    /// An otherwise-zeroed descriptor carrying the fields the kernel reads
    /// on a dequeue: type and memory model.
    pub fn dequeue_template(typ: v4l2_buf_type, memory: v4l2_memory) -> (r: Self)
        ensures
            r.index == 0,
            r.typ == typ,
            r.memory == memory,
            r.bytesused == 0,
            r.flags == 0,
            r.field == v4l2_field::V4L2_FIELD_ANY,
            r.sequence == 0,
            r.offset == 0,
            r.length == 0,
            r.input == 0,
    {
        Self::query_template(typ, memory, 0)
    }
}

/// Stream parameters of a capture queue: capture mode, frame time and the
/// capability bitmask saying whether the frame time is honored.
#[derive(Clone, Copy, Debug, PartialEq, Eq, Structural)]
pub struct v4l2_captureparm {
    pub capability: u32,
    pub capturemode: u32,
    pub timeperframe: v4l2_fract,
    pub extendedmode: u32,
    pub readbuffers: u32,
}

/// Stream parameters of an output queue.
#[derive(Clone, Copy, Debug, PartialEq, Eq, Structural)]
pub struct v4l2_outputparm {
    pub capability: u32,
    pub outputmode: u32,
    pub timeperframe: v4l2_fract,
    pub extendedmode: u32,
    pub writebuffers: u32,
}

/// Stream parameters for one buffer direction: the kernel's union of capture
/// and output payloads selected by an enclosing type word, kept here as a
/// tagged variant so that the discriminant and the payload stay coupled.
#[derive(Clone, Copy, Debug, PartialEq, Eq, Structural)]
pub enum v4l2_streamparm {
    Capture(v4l2_captureparm),
    Output(v4l2_outputparm),
}

impl v4l2_streamparm {
    /// The buffer type the kernel would tag these parameters with.
    pub open spec fn spec_typ(self) -> v4l2_buf_type {
        match self {
            v4l2_streamparm::Capture(_) => v4l2_buf_type::V4L2_BUF_TYPE_VIDEO_CAPTURE,
            v4l2_streamparm::Output(_) => v4l2_buf_type::V4L2_BUF_TYPE_VIDEO_OUTPUT,
        }
    }

    pub fn typ(&self) -> (r: v4l2_buf_type)
        ensures
            r == self.spec_typ(),
    {
        match self {
            v4l2_streamparm::Capture(_) => v4l2_buf_type::V4L2_BUF_TYPE_VIDEO_CAPTURE,
            v4l2_streamparm::Output(_) => v4l2_buf_type::V4L2_BUF_TYPE_VIDEO_OUTPUT,
        }
    }
}

/// A subscription to a device event queue.
#[derive(Clone, Copy, Debug, PartialEq, Eq, Structural)]
pub struct v4l2_event_subscription {
    pub typ: u32,
    pub id: u32,
    pub flags: u32,
}

} // verus!
