//! The resource binding set: the fixed association between the two uniform
//! buffers and the shader-visible binding slots the pipeline declares.
//!
//! Construction checks the supplied bindings structurally against the slots
//! the pipeline layout declares — same slots, same sizes, in the same order
//! — and fails otherwise. The cube pipeline declares slot 0 for the camera
//! buffer and slot 1 for the model buffer, each one matrix wide.

use vstd::prelude::*;
use crate::uniforms::MATRIX_BYTES;

verus! {

/// Binding slot of the camera uniform buffer.
pub const CAMERA_SLOT: u32 = 0;

/// Binding slot of the model uniform buffer.
pub const MODEL_SLOT: u32 = 1;

/// One shader-visible binding slot: its slot number and the byte size of
/// the uniform buffer bound there.
#[derive(Clone, Copy, Debug, PartialEq, Eq, Structural)]
pub struct BindingSlot {
    /// The slot number the shader reads from.
    pub slot: u32,
    /// The byte size of the buffer bound at this slot.
    pub byte_size: u32,
}

/// Why a binding set could not be built.
#[derive(Clone, Copy, Debug, PartialEq, Eq, Structural)]
pub enum BindingError {
    /// The supplied bindings do not structurally match the slots the
    /// pipeline layout declares.
    Mismatch,
}

/// A binding set: bindings accepted against a pipeline layout, fixed for
/// the life of the program.
pub struct BindingSet {
    entries: Vec<BindingSlot>,
}

impl View for BindingSet {
    type V = Seq<BindingSlot>;

    closed spec fn view(&self) -> Seq<BindingSlot> {
        self.entries@
    }
}

impl BindingSet {
    /// The accepted slots, in layout order.
    pub fn entries(&self) -> (r: &Vec<BindingSlot>)
        ensures
            r@ == self@,
    {
        &self.entries
    }
}

/// The slots the cube pipeline declares: the camera matrix at slot 0 and
/// the model matrix at slot 1.
pub open spec fn uniform_layout_seq() -> Seq<BindingSlot> {
    seq![
        BindingSlot { slot: CAMERA_SLOT, byte_size: MATRIX_BYTES as u32 },
        BindingSlot { slot: MODEL_SLOT, byte_size: MATRIX_BYTES as u32 },
    ]
}

/// Builds the binding slot list the cube pipeline declares.
pub fn uniform_binding_layout() -> (r: Vec<BindingSlot>)
    ensures
        r@ == uniform_layout_seq(),
{
    let v: Vec<BindingSlot> = vec![
        BindingSlot { slot: CAMERA_SLOT, byte_size: 64 },
        BindingSlot { slot: MODEL_SLOT, byte_size: 64 },
    ];
    proof {
        assert(v@ =~= uniform_layout_seq());
    }
    v
}

/// Builds a binding set from the slots a pipeline layout declares and the
/// bindings supplied for them. Succeeds exactly when the bindings match the
/// layout slot for slot — same slot numbers and sizes in the same order —
/// and the set then holds the declared slots.
pub fn create_binding_set(layout: &Vec<BindingSlot>, bindings: &Vec<BindingSlot>) -> (r: Result<
    BindingSet,
    BindingError,
>)
    ensures
        r is Ok <==> bindings@ =~= layout@,
        r matches Ok(bs) ==> bs@ == layout@,
        r is Err ==> r == Err::<BindingSet, BindingError>(BindingError::Mismatch),
{
    if layout.len() != bindings.len() {
        return Err(BindingError::Mismatch);
    }
    let mut i: usize = 0;
    while i < layout.len()
        invariant
            0 <= i <= layout@.len(),
            layout@.len() == bindings@.len(),
            forall|j: int| 0 <= j < i ==> bindings@[j] == layout@[j],
        decreases layout@.len() - i,
    {
        if layout[i].slot != bindings[i].slot || layout[i].byte_size != bindings[i].byte_size {
            return Err(BindingError::Mismatch);
        }
        i = i + 1;
    }
    let mut entries: Vec<BindingSlot> = Vec::new();
    let mut k: usize = 0;
    while k < layout.len()
        invariant
            0 <= k <= layout@.len(),
            entries@ == layout@.subrange(0, k as int),
        decreases layout@.len() - k,
    {
        entries.push(layout[k]);
        k = k + 1;
    }
    proof {
        assert(entries@ =~= layout@);
    }
    Ok(BindingSet { entries })
}

} // verus!
