//! Readback coordination: copy the destination buffer into a
//! host-mappable buffer, submit the recorded stream, then block on the
//! map request. The strict record, submit, map, wait, read order is the
//! concurrency contract: mapping before submission would never resolve.
use vstd::prelude::*;
use crate::gpu::{
    copy_buffer_to_buffer,
    create_readback_buffer,
    finish_recorder,
    map_buffer_blocking,
    mapped_bytes,
    submit_one,
    unmap_buffer,
    CommandRecorder,
    TrackedBuffer,
};

verus! {

/// Device-level failures of a readback. Both are fatal: this layer makes
/// no retry and treats a lost device as unrecoverable.
#[derive(Clone, Copy, PartialEq, Eq, Structural, Debug)]
pub enum ReadbackError {
    /// The device reported the map request as failed.
    MapFailed,
    /// The mapped range did not hold the requested byte count.
    LengthMismatch,
}

/// Copies the first `size` bytes of `source` to the host: allocates a
/// mappable buffer of exactly `size` bytes, records a copy of
/// `source[0 .. size]` into it, submits the whole recorded stream,
/// blocks until the map request resolves, and hands back an owned copy
/// of the mapped bytes, already released from the GPU buffer.
///
/// Success rests on the device: whatever comes back, a successful result
/// holds exactly `size` bytes, and every device-side failure surfaces as
/// an error, never as a short or silent result. Cancellation is
/// unsupported: once submitted, the stream runs to completion or the
/// device is considered lost.
pub fn read_back(
    device: &wgpu::Device,
    queue: &wgpu::Queue,
    recorder: CommandRecorder,
    source: &TrackedBuffer,
    size: u64,
) -> (r: Result<Vec<u8>, ReadbackError>)
    requires
        size > 0,
        size % 4 == 0,
        size <= source.size(),
    ensures
        r matches Ok(bytes) ==> bytes@.len() == size,
{
    let mut recorder = recorder;
    let readback = create_readback_buffer(device, size);
    copy_buffer_to_buffer(&mut recorder, source, 0, &readback, 0, size);
    let commands = finish_recorder(recorder);
    submit_one(queue, commands);
    if !map_buffer_blocking(device, &readback) {
        return Err(ReadbackError::MapFailed);
    }
    let bytes = match mapped_bytes(&readback) {
        Some(bytes) => bytes,
        None => {
            return Err(ReadbackError::MapFailed);
        },
    };
    unmap_buffer(&readback);
    if bytes.len() as u64 != size {
        return Err(ReadbackError::LengthMismatch);
    }
    Ok(bytes)
}

} // verus!
