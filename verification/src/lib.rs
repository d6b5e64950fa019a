//! Fail-fast interface to a kernel video-capture device that exchanges frame
//! data through memory-mapped, kernel-owned buffers driven by device-control
//! calls.
//!
//! The crate verifies the parts of that interface that are pure logic: the
//! binary control-protocol encoding (`sys::ioctl`), the configuration builder
//! and format negotiation, and the buffer-lifecycle state machine
//! (`capture`). The device-control calls themselves are performed by an
//! unverified shell around this library, which drives the state machine and
//! obeys the commands it hands out.

pub mod sys;
pub mod capture;

pub use self::capture::Capture;
pub use self::capture::Builder;
pub use self::capture::CaptureError;
