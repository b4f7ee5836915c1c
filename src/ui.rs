use vstd::prelude::*;

verus! {

/// Which image the main pass shows: the lit scene, the depth buffer, the
/// shadow map, or the scene lit without shadows.
#[derive(Clone, Copy, Debug, PartialEq, Eq, Structural)]
pub enum RenderTarget {
    Default,
    DepthTexture,
    ShadowTexture,
    NoShadows,
}

/// The selector value of each target, as the shader reads it.
pub open spec fn target_index(t: RenderTarget) -> u32 {
    match t {
        RenderTarget::Default => 0,
        RenderTarget::DepthTexture => 1,
        RenderTarget::ShadowTexture => 2,
        RenderTarget::NoShadows => 3,
    }
}

/// The number of render targets.
pub const TARGET_COUNT: u32 = 4;

impl RenderTarget {
    /// The selector value written to the render-target buffer.
    pub fn index(&self) -> (r: u32)
        ensures
            r == target_index(*self),
            r < TARGET_COUNT,
    {
        match self {
            RenderTarget::Default => 0,
            RenderTarget::DepthTexture => 1,
            RenderTarget::ShadowTexture => 2,
            RenderTarget::NoShadows => 3,
        }
    }

    /// The target with selector value `index`; `None` past the last one.
    pub fn from_index(index: u32) -> (r: Option<RenderTarget>)
        ensures
            r is Some <==> index < TARGET_COUNT,
            r is Some ==> target_index(r->Some_0) == index,
    {
        match index {
            0 => Some(RenderTarget::Default),
            1 => Some(RenderTarget::DepthTexture),
            2 => Some(RenderTarget::ShadowTexture),
            3 => Some(RenderTarget::NoShadows),
            _ => None,
        }
    }

    /// The target after the overlay's radio buttons ran: when one was
    /// `clicked`, the target with the chosen selector value `index`; an
    /// unknown value, or no click, keeps the current target.
    pub fn select(self, clicked: bool, index: u32) -> (r: RenderTarget)
        ensures
            clicked && index < TARGET_COUNT ==> target_index(r) == index,
            !(clicked && index < TARGET_COUNT) ==> r == self,
    {
        if clicked {
            match RenderTarget::from_index(index) {
                Some(t) => t,
                None => self,
            }
        } else {
            self
        }
    }
}

/// Selector values and targets correspond one to one.
pub proof fn lemma_target_index_injective(a: RenderTarget, b: RenderTarget)
    ensures
        target_index(a) == target_index(b) <==> a == b,
{
}

} // verus!
