//! The two dynamic uniform resources and the transforms they hold.
//!
//! A uniform buffer is modelled by the 64 bytes the GPU reads: one
//! column-major 4 by 4 matrix of 32-bit floats. The library does not compute
//! the float entries — the caller does, at the upload edge — but it fixes
//! exactly which transform each buffer holds at every tick: the camera
//! buffer holds the startup view-projection and is never rewritten, the
//! model buffer holds the rotation for the current tick.

use vstd::prelude::*;

verus! {

/// Size in bytes of one uniform buffer: a 4 by 4 matrix of 32-bit floats.
pub const MATRIX_BYTES: usize = 64;

/// A CPU-side image of one GPU uniform buffer: exactly [`MATRIX_BYTES`]
/// bytes, overwritten in place and never reallocated.
pub struct UniformBuffer {
    bytes: Vec<u8>,
}

impl View for UniformBuffer {
    type V = Seq<u8>;

    closed spec fn view(&self) -> Seq<u8> {
        self.bytes@
    }
}

impl UniformBuffer {
    /// A uniform buffer always holds exactly one matrix.
    pub open spec fn wf(self) -> bool {
        self@.len() == MATRIX_BYTES
    }

    /// Creates a uniform buffer holding the given initial matrix bytes.
    pub fn new(initial: Vec<u8>) -> (r: UniformBuffer)
        requires
            initial@.len() == MATRIX_BYTES,
        ensures
            r.wf(),
            r@ == initial@,
    {
        UniformBuffer { bytes: initial }
    }

    /// Overwrites the buffer's contents with a new matrix.
    pub fn write(&mut self, data: &Vec<u8>)
        requires
            old(self).wf(),
            data@.len() == MATRIX_BYTES,
        ensures
            final(self).wf(),
            final(self)@ == data@,
    {
        self.bytes.clear();
        let mut i: usize = 0;
        while i < data.len()
            invariant
                0 <= i <= data@.len(),
                self.bytes@ == data@.subrange(0, i as int),
            decreases data@.len() - i,
        {
            self.bytes.push(data[i]);
            i = i + 1;
        }
        proof {
            assert(self.bytes@ =~= data@);
        }
    }

    /// The bytes the GPU is to read, for upload by the caller.
    pub fn contents(&self) -> (r: &Vec<u8>)
        ensures
            r@ == self@,
    {
        &self.bytes
    }
}

/// The model transform at a given tick. A value with tick count `n` denotes
/// the matrix `rotation_y(0.01 * n) * rotation_x(0.005 * n)` (angles in
/// radians): the y rotation grows by one hundredth of a radian per tick and
/// the x rotation by half of that. The denoted matrix is a pure function of
/// the tick count alone.
#[derive(Clone, Copy, Debug, PartialEq, Eq, Structural)]
pub struct ModelTransform {
    /// How many ticks have elapsed since startup.
    pub ticks: u64,
}

impl ModelTransform {
    /// The rotation about the y axis, in hundredths of a radian: one per tick.
    pub open spec fn y_angle_centiradians(self) -> int {
        self.ticks as int
    }

    /// The rotation about the x axis, in thousandths of a radian: five per
    /// tick, half the y angle.
    pub open spec fn x_angle_milliradians(self) -> int {
        5 * self.ticks as int
    }
}

/// The camera transform fixed at startup. A value denotes the matrix
/// `perspective(fov 45 degrees, aspect width/height, near 0.1, far 100)
/// * look_at(eye (3,3,3), target origin, up +y)`, a pure function of the
/// startup surface size alone.
#[derive(Clone, Copy, Debug, PartialEq, Eq, Structural)]
pub struct CameraTransform {
    /// Surface width at startup, in pixels.
    pub width: u32,
    /// Surface height at startup, in pixels.
    pub height: u32,
}

} // verus!
