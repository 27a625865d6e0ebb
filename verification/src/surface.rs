//! The presentation surface configuration: pixel format choice, size, and
//! the resize rule.
//!
//! The backend reports its supported pixel formats as a list; the library
//! keeps of each format only what its logic reads: an opaque tag chosen by
//! the caller and whether the format is gamma-correct (sRGB). The chosen
//! format is the first sRGB format if the backend offers one, else the first
//! reported format. The presentation mode is always FIFO (vsync).

use vstd::prelude::*;

verus! {

/// One pixel format as the presentation backend reports it: an opaque tag
/// (the caller's index or identifier for the backend's format value) and
/// whether the format is gamma-correct.
#[derive(Clone, Copy, Debug, PartialEq, Eq, Structural)]
pub struct FormatInfo {
    /// The caller's tag for the backend format value.
    pub id: u32,
    /// Whether the format is an sRGB (gamma-correct) format.
    pub srgb: bool,
}

/// The presentation mode of the surface. Only FIFO (vsync) is ever used.
#[derive(Clone, Copy, Debug, PartialEq, Eq, Structural)]
pub enum PresentMode {
    /// Present in first-in-first-out order, synchronized with the display.
    Fifo,
}

/// Holds when `r` is the format the library must choose from the backend's
/// report `s`: the first sRGB format when one is offered, else the first
/// reported format. The choice is unique (`lemma_format_choice_unique`).
pub open spec fn format_choice_ok(s: Seq<FormatInfo>, r: FormatInfo) -> bool {
    if exists|i: int| 0 <= i < s.len() && s[i].srgb {
        exists|i: int|
            0 <= i < s.len() && s[i].srgb && r == s[i] && (forall|j: int|
                0 <= j < i ==> !s[j].srgb)
    } else {
        s.len() > 0 && r == s[0]
    }
}

/// Law: the format choice is a function of the reported list — two formats
/// both satisfying the choice rule are the same format.
pub proof fn lemma_format_choice_unique(s: Seq<FormatInfo>, a: FormatInfo, b: FormatInfo)
    requires
        format_choice_ok(s, a),
        format_choice_ok(s, b),
    ensures
        a == b,
{
    if exists|i: int| 0 <= i < s.len() && s[i].srgb {
        let ia = choose|i: int|
            0 <= i < s.len() && s[i].srgb && a == s[i] && (forall|j: int|
                0 <= j < i ==> !s[j].srgb);
        let ib = choose|i: int|
            0 <= i < s.len() && s[i].srgb && b == s[i] && (forall|j: int|
                0 <= j < i ==> !s[j].srgb);
        if ia < ib {
            assert(!s[ia].srgb);
        } else if ib < ia {
            assert(!s[ib].srgb);
        }
    }
}

/// Chooses the surface pixel format from the backend's report: the first
/// sRGB format if one is offered, else the first reported format.
pub fn choose_format(formats: &Vec<FormatInfo>) -> (r: FormatInfo)
    requires
        formats@.len() > 0,
    ensures
        format_choice_ok(formats@, r),
{
    let mut i: usize = 0;
    while i < formats.len()
        invariant
            0 <= i <= formats@.len(),
            forall|j: int| 0 <= j < i ==> !formats@[j].srgb,
        decreases formats@.len() - i,
    {
        if formats[i].srgb {
            return formats[i];
        }
        i = i + 1;
    }
    formats[0]
}

/// The surface configuration: what the presentation surface is configured
/// with, kept equal to the current window size.
#[derive(Clone, Copy, Debug, PartialEq, Eq, Structural)]
pub struct SurfaceConfig {
    /// Surface width in pixels.
    pub width: u32,
    /// Surface height in pixels.
    pub height: u32,
    /// The configured pixel format; fixed for the run after startup.
    pub format: FormatInfo,
    /// The configured presentation mode; always FIFO.
    pub present_mode: PresentMode,
}

impl SurfaceConfig {
    /// A configuration is well formed when it describes a surface with a
    /// drawable area.
    pub open spec fn wf(self) -> bool {
        self.width > 0 && self.height > 0
    }

    /// Builds the startup configuration from the window size and the
    /// backend's reported formats.
    pub fn new(width: u32, height: u32, formats: &Vec<FormatInfo>) -> (r: SurfaceConfig)
        requires
            width > 0,
            height > 0,
            formats@.len() > 0,
        ensures
            r.wf(),
            r.width == width,
            r.height == height,
            format_choice_ok(formats@, r.format),
            r.present_mode == PresentMode::Fifo,
    {
        SurfaceConfig { width, height, format: choose_format(formats), present_mode: PresentMode::Fifo }
    }

    /// Applies a window resize: the size is updated in place, the format and
    /// presentation mode chosen at startup are kept.
    pub fn resize(&mut self, width: u32, height: u32)
        requires
            old(self).wf(),
            width > 0,
            height > 0,
        ensures
            final(self).wf(),
            final(self).width == width,
            final(self).height == height,
            final(self).format == old(self).format,
            final(self).present_mode == old(self).present_mode,
    {
        self.width = width;
        self.height = height;
    }
}

} // verus!
