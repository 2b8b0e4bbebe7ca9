//! GPU-offloaded conversion of packed YUY2 video frames to planar NV12
//! frames. The library holds everything the conversion's correctness rests
//! on: the layout arithmetic that sizes both planes, the generation of the
//! two compute programs (Y extraction, UV extraction), the dispatch sizing
//! that covers each plane, the byte-exact semantics of the conversion, the
//! error taxonomy, and the naming convention of benchmark input files. The
//! GPU context and the calls that drive the driver live outside, in the
//! program built around this library.

pub mod convert;
pub mod dispatch;
pub mod error;
pub mod layout;
pub mod session;
pub mod shader;
pub mod test_file;
