use v4l2cap::sys::ioctl::fourcc;
use v4l2cap::sys::ioctl::request_code;
use v4l2cap::sys::ioctl::v4l2_buf_type;
use v4l2cap::sys::ioctl::v4l2_buffer;
use v4l2cap::sys::ioctl::v4l2_captureparm;
use v4l2cap::sys::ioctl::v4l2_colorspace;
use v4l2cap::sys::ioctl::v4l2_field;
use v4l2cap::sys::ioctl::v4l2_fmtdesc;
use v4l2cap::sys::ioctl::v4l2_fract;
use v4l2cap::sys::ioctl::v4l2_frmsize_discrete;
use v4l2cap::sys::ioctl::v4l2_frmsize_size;
use v4l2cap::sys::ioctl::v4l2_frmsizeenum;
use v4l2cap::sys::ioctl::v4l2_frmsizetypes;
use v4l2cap::sys::ioctl::v4l2_memory;
use v4l2cap::sys::ioctl::v4l2_outputparm;
use v4l2cap::sys::ioctl::v4l2_requestbuffers;
use v4l2cap::sys::ioctl::v4l2_streamparm;
use v4l2cap::sys::ioctl::C_INT_SIZE;
use v4l2cap::sys::ioctl::IOC_READ;
use v4l2cap::sys::ioctl::IOC_READWRITE;
use v4l2cap::sys::ioctl::IOC_WRITE;
use v4l2cap::sys::ioctl::V4L2_BUFFER_SIZE;
use v4l2cap::sys::ioctl::V4L2_CAPABILITY_SIZE;
use v4l2cap::sys::ioctl::V4L2_FMTDESC_SIZE;
use v4l2cap::sys::ioctl::V4L2_FORMAT_SIZE;
use v4l2cap::sys::ioctl::V4L2_FRMSIZEENUM_SIZE;
use v4l2cap::sys::ioctl::V4L2_PIX_FMT_H264;
use v4l2cap::sys::ioctl::V4L2_PIX_FMT_H264_NO_SC;
use v4l2cap::sys::ioctl::V4L2_PIX_FMT_JPEG;
use v4l2cap::sys::ioctl::V4L2_PIX_FMT_MJPEG;
use v4l2cap::sys::ioctl::V4L2_PIX_FMT_MPEG2;
use v4l2cap::sys::ioctl::V4L2_PIX_FMT_NV12;
use v4l2cap::sys::ioctl::V4L2_PIX_FMT_NV21;
use v4l2cap::sys::ioctl::V4L2_PIX_FMT_VP8;
use v4l2cap::sys::ioctl::V4L2_PIX_FMT_YUV420;
use v4l2cap::sys::ioctl::V4L2_PIX_FMT_YUYV;
use v4l2cap::sys::ioctl::V4L2_PIX_FMT_YVU420;
use v4l2cap::sys::ioctl::V4L2_REQUESTBUFFERS_SIZE;
use v4l2cap::sys::ioctl::V4L2_STREAMPARM_SIZE;
use v4l2cap::sys::ioctl::VIDIOC_DQBUF;
use v4l2cap::sys::ioctl::VIDIOC_ENUM_FMT;
use v4l2cap::sys::ioctl::VIDIOC_ENUM_FRAMESIZES;
use v4l2cap::sys::ioctl::VIDIOC_G_FMT;
use v4l2cap::sys::ioctl::VIDIOC_G_INPUT;
use v4l2cap::sys::ioctl::VIDIOC_G_PARM;
use v4l2cap::sys::ioctl::VIDIOC_QBUF;
use v4l2cap::sys::ioctl::VIDIOC_QUERYBUF;
use v4l2cap::sys::ioctl::VIDIOC_QUERYCAP;
use v4l2cap::sys::ioctl::VIDIOC_REQBUFS;
use v4l2cap::sys::ioctl::VIDIOC_S_FMT;
use v4l2cap::sys::ioctl::VIDIOC_S_INPUT;
use v4l2cap::sys::ioctl::VIDIOC_S_PARM;
use v4l2cap::sys::ioctl::VIDIOC_STREAMOFF;
use v4l2cap::sys::ioctl::VIDIOC_STREAMON;
use v4l2cap::sys::ioctl::VIDIOC_TYPE;

#[test]
fn request_code_packs_the_fields() {
    // Read-write, type letter V, sequence 15, 88-byte payload: the
    // enqueue-buffer operation.
    assert_eq!(request_code(IOC_READWRITE, VIDIOC_TYPE, 15, V4L2_BUFFER_SIZE), 0xC058560F);
    // Write-only with a 4-byte payload: stream-on.
    assert_eq!(request_code(IOC_WRITE, VIDIOC_TYPE, 18, C_INT_SIZE), 0x40045612);
    // Read-only: query-capability.
    assert_eq!(request_code(IOC_READ, VIDIOC_TYPE, 0, V4L2_CAPABILITY_SIZE), 0x80685600);
}

#[test]
fn control_code_table_matches_the_encoding() {
    assert_eq!(VIDIOC_QUERYCAP, request_code(IOC_READ, VIDIOC_TYPE, 0, V4L2_CAPABILITY_SIZE));
    assert_eq!(VIDIOC_ENUM_FMT, request_code(IOC_READWRITE, VIDIOC_TYPE, 2, V4L2_FMTDESC_SIZE));
    assert_eq!(VIDIOC_G_FMT, request_code(IOC_READWRITE, VIDIOC_TYPE, 4, V4L2_FORMAT_SIZE));
    assert_eq!(VIDIOC_S_FMT, request_code(IOC_READWRITE, VIDIOC_TYPE, 5, V4L2_FORMAT_SIZE));
    assert_eq!(
        VIDIOC_REQBUFS,
        request_code(IOC_READWRITE, VIDIOC_TYPE, 8, V4L2_REQUESTBUFFERS_SIZE)
    );
    assert_eq!(VIDIOC_QUERYBUF, request_code(IOC_READWRITE, VIDIOC_TYPE, 9, V4L2_BUFFER_SIZE));
    assert_eq!(VIDIOC_QBUF, request_code(IOC_READWRITE, VIDIOC_TYPE, 15, V4L2_BUFFER_SIZE));
    assert_eq!(VIDIOC_DQBUF, request_code(IOC_READWRITE, VIDIOC_TYPE, 17, V4L2_BUFFER_SIZE));
    assert_eq!(VIDIOC_STREAMON, request_code(IOC_WRITE, VIDIOC_TYPE, 18, C_INT_SIZE));
    assert_eq!(VIDIOC_STREAMOFF, request_code(IOC_WRITE, VIDIOC_TYPE, 19, C_INT_SIZE));
    assert_eq!(VIDIOC_G_PARM, request_code(IOC_READWRITE, VIDIOC_TYPE, 21, V4L2_STREAMPARM_SIZE));
    assert_eq!(VIDIOC_S_PARM, request_code(IOC_READWRITE, VIDIOC_TYPE, 22, V4L2_STREAMPARM_SIZE));
    assert_eq!(VIDIOC_G_INPUT, request_code(IOC_READ, VIDIOC_TYPE, 38, C_INT_SIZE));
    assert_eq!(VIDIOC_S_INPUT, request_code(IOC_READWRITE, VIDIOC_TYPE, 39, C_INT_SIZE));
    assert_eq!(
        VIDIOC_ENUM_FRAMESIZES,
        request_code(IOC_READWRITE, VIDIOC_TYPE, 74, V4L2_FRMSIZEENUM_SIZE)
    );
}

#[test]
fn fourcc_packs_little_endian() {
    assert_eq!(fourcc(b'Y', b'U', b'Y', b'V'), V4L2_PIX_FMT_YUYV);
    assert_eq!(fourcc(b'Y', b'V', b'1', b'2'), V4L2_PIX_FMT_YVU420);
    assert_eq!(fourcc(b'Y', b'U', b'1', b'2'), V4L2_PIX_FMT_YUV420);
    assert_eq!(fourcc(b'N', b'V', b'1', b'2'), V4L2_PIX_FMT_NV12);
    assert_eq!(fourcc(b'N', b'V', b'2', b'1'), V4L2_PIX_FMT_NV21);
    assert_eq!(fourcc(b'M', b'J', b'P', b'G'), V4L2_PIX_FMT_MJPEG);
    assert_eq!(fourcc(b'J', b'P', b'E', b'G'), V4L2_PIX_FMT_JPEG);
    assert_eq!(fourcc(b'H', b'2', b'6', b'4'), V4L2_PIX_FMT_H264);
    assert_eq!(fourcc(b'A', b'V', b'C', b'1'), V4L2_PIX_FMT_H264_NO_SC);
    assert_eq!(fourcc(b'M', b'P', b'G', b'2'), V4L2_PIX_FMT_MPEG2);
    assert_eq!(fourcc(b'V', b'P', b'8', b'0'), V4L2_PIX_FMT_VP8);
}

#[test]
fn enum_codes_match_the_kernel_values() {
    assert_eq!(v4l2_field::V4L2_FIELD_ANY.code(), 0);
    assert_eq!(v4l2_field::V4L2_FIELD_NONE.code(), 1);
    assert_eq!(v4l2_field::V4L2_FIELD_INTERLACED_BT.code(), 9);
    assert_eq!(v4l2_memory::V4L2_MEMORY_MMAP.code(), 1);
    assert_eq!(v4l2_memory::V4L2_MEMORY_OVERLAY.code(), 3);
    assert_eq!(v4l2_colorspace::V4L2_COLORSPACE_SMPTE170M.code(), 1);
    assert_eq!(v4l2_colorspace::V4L2_COLORSPACE_JPEG.code(), 7);
    assert_eq!(v4l2_colorspace::V4L2_COLORSPACE_SRGB.code(), 8);
    assert_eq!(v4l2_buf_type::V4L2_BUF_TYPE_VIDEO_CAPTURE.code(), 1);
    assert_eq!(v4l2_buf_type::V4L2_BUF_TYPE_VIDEO_OUTPUT.code(), 2);
    assert_eq!(v4l2_buf_type::V4L2_BUF_TYPE_VIDEO_OUTPUT_MPLANE.code(), 10);
    assert_eq!(v4l2_buf_type::V4L2_BUF_TYPE_PRIVATE.code(), 0x80);
    assert_eq!(v4l2_frmsizetypes::V4L2_FRMSIZE_TYPE_DISCRETE.code(), 1);
    assert_eq!(v4l2_frmsizetypes::V4L2_FRMSIZE_TYPE_STEPWISE.code(), 3);
}

#[test]
fn buffer_query_template_is_zeroed_but_addressed() {
    let b = v4l2_buffer::query_template(
        v4l2_buf_type::V4L2_BUF_TYPE_VIDEO_CAPTURE,
        v4l2_memory::V4L2_MEMORY_MMAP,
        5,
    );
    assert_eq!(b.index, 5);
    assert_eq!(b.typ, v4l2_buf_type::V4L2_BUF_TYPE_VIDEO_CAPTURE);
    assert_eq!(b.memory, v4l2_memory::V4L2_MEMORY_MMAP);
    assert_eq!(b.bytesused, 0);
    assert_eq!(b.flags, 0);
    assert_eq!(b.length, 0);
    assert_eq!(b.offset, 0);
    assert_eq!(b.sequence, 0);
    assert_eq!(b.timestamp.tv_sec, 0);
}

#[test]
fn dequeue_template_names_no_slot() {
    let b = v4l2_buffer::dequeue_template(
        v4l2_buf_type::V4L2_BUF_TYPE_VIDEO_CAPTURE,
        v4l2_memory::V4L2_MEMORY_MMAP,
    );
    assert_eq!(b.index, 0);
    assert_eq!(b.typ, v4l2_buf_type::V4L2_BUF_TYPE_VIDEO_CAPTURE);
    assert_eq!(b.memory, v4l2_memory::V4L2_MEMORY_MMAP);
}

#[test]
fn request_buffers_carries_the_request() {
    let r = v4l2_requestbuffers::request(
        v4l2_buf_type::V4L2_BUF_TYPE_VIDEO_CAPTURE,
        v4l2_memory::V4L2_MEMORY_MMAP,
        4,
    );
    assert_eq!(r.count, 4);
    assert_eq!(r.typ, v4l2_buf_type::V4L2_BUF_TYPE_VIDEO_CAPTURE);
    assert_eq!(r.memory, v4l2_memory::V4L2_MEMORY_MMAP);
}

#[test]
fn fmtdesc_query_is_zeroed_but_addressed() {
    let f = v4l2_fmtdesc::query(v4l2_buf_type::V4L2_BUF_TYPE_VIDEO_CAPTURE, 3);
    assert_eq!(f.index, 3);
    assert_eq!(f.typ, v4l2_buf_type::V4L2_BUF_TYPE_VIDEO_CAPTURE);
    assert_eq!(f.flags, 0);
    assert_eq!(f.pixelformat, 0);
    assert!(f.description.iter().all(|&b| b == 0));
}

#[test]
fn tagged_variants_report_their_kernel_tag() {
    let parm = v4l2_streamparm::Capture(v4l2_captureparm {
        capability: 0,
        capturemode: 0,
        timeperframe: v4l2_fract { numerator: 1, denominator: 30 },
        extendedmode: 0,
        readbuffers: 0,
    });
    assert_eq!(parm.typ(), v4l2_buf_type::V4L2_BUF_TYPE_VIDEO_CAPTURE);
    let out = v4l2_streamparm::Output(v4l2_outputparm {
        capability: 0,
        outputmode: 0,
        timeperframe: v4l2_fract { numerator: 1, denominator: 30 },
        extendedmode: 0,
        writebuffers: 0,
    });
    assert_eq!(out.typ(), v4l2_buf_type::V4L2_BUF_TYPE_VIDEO_OUTPUT);

    let size = v4l2_frmsizeenum {
        index: 0,
        pixel_format: V4L2_PIX_FMT_YUYV,
        size: v4l2_frmsize_size::Discrete(v4l2_frmsize_discrete { width: 640, height: 480 }),
    };
    assert_eq!(size.typ(), v4l2_frmsizetypes::V4L2_FRMSIZE_TYPE_DISCRETE);
}
