//! Plain-value models of the fixed-function output state a pass can request:
//! which color channels a draw writes, how a fragment is blended into the
//! target, and how the depth test behaves. The pass never computes with these
//! values; it stores them and forwards them to the backend, so each is a small
//! enum or struct of booleans.

use vstd::prelude::*;

verus! {

/// Which of the four color channels a draw is allowed to write.
#[derive(Clone, Copy, Debug, PartialEq, Eq, Structural)]
pub struct ColorMask {
    pub red: bool,
    pub green: bool,
    pub blue: bool,
    pub alpha: bool,
}

impl ColorMask {
    /// The mask that writes every channel.
    pub fn all() -> (m: ColorMask)
        ensures
            m == (ColorMask { red: true, green: true, blue: true, alpha: true }),
    {
        ColorMask { red: true, green: true, blue: true, alpha: true }
    }
}

/// An input to a blend factor: one of the four values the blender can scale by.
#[derive(Clone, Copy, Debug, PartialEq, Eq, Structural)]
pub enum BlendValue {
    SourceColor,
    SourceAlpha,
    DestColor,
    DestAlpha,
}

/// A multiplier applied to the source or destination color during blending.
#[derive(Clone, Copy, Debug, PartialEq, Eq, Structural)]
pub enum Factor {
    Zero,
    One,
    SourceAlphaSaturated,
    ZeroPlus(BlendValue),
    OnePlus(BlendValue),
}

/// How the scaled source and destination values are combined.
#[derive(Clone, Copy, Debug, PartialEq, Eq, Structural)]
pub enum Equation {
    Add,
    Sub,
    RevSub,
    Min,
    Max,
}

/// The blend function for one channel group: `equation(source * src, dest * dst)`.
#[derive(Clone, Copy, Debug, PartialEq, Eq, Structural)]
pub struct BlendChannel {
    pub equation: Equation,
    pub source: Factor,
    pub destination: Factor,
}

/// A complete blend state: one function for the color channels and one for alpha.
#[derive(Clone, Copy, Debug, PartialEq, Eq, Structural)]
pub struct Blend {
    pub color: BlendChannel,
    pub alpha: BlendChannel,
}

impl Blend {
    /// A blend state that applies the same function to color and alpha.
    pub fn new(equation: Equation, source: Factor, destination: Factor) -> (b: Blend)
        ensures
            b.color == (BlendChannel { equation, source, destination }),
            b.alpha == (BlendChannel { equation, source, destination }),
    {
        let channel = BlendChannel { equation, source, destination };
        Blend { color: channel, alpha: channel }
    }

    /// Conventional alpha blending: `source * src_alpha + dest * (1 - src_alpha)`.
    pub fn alpha_blending() -> (b: Blend)
        ensures
            b == (Blend {
                color: BlendChannel {
                    equation: Equation::Add,
                    source: Factor::ZeroPlus(BlendValue::SourceAlpha),
                    destination: Factor::OnePlus(BlendValue::SourceAlpha),
                },
                alpha: BlendChannel {
                    equation: Equation::Add,
                    source: Factor::ZeroPlus(BlendValue::SourceAlpha),
                    destination: Factor::OnePlus(BlendValue::SourceAlpha),
                },
            }),
    {
        Blend::new(
            Equation::Add,
            Factor::ZeroPlus(BlendValue::SourceAlpha),
            Factor::OnePlus(BlendValue::SourceAlpha),
        )
    }
}

/// How a pass's output interacts with the depth buffer: test only, or test
/// and write.
#[derive(Clone, Copy, Debug, PartialEq, Eq, Structural)]
pub enum DepthMode {
    LessEqualTest,
    LessEqualWrite,
}

} // verus!
