//! GPU-driven BC6H texture compression: dispatch planning, descriptor
//! construction, command recording, readback, and container serialization.
pub mod bytes;
pub mod compressor;
pub mod dds;
pub mod descriptor;
pub mod gpu;
pub mod ktx2;
pub mod planner;
pub mod readback;
pub mod recording;
