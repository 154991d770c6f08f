//! What the renderer reads: silhouette, colours, caption arrangement,
//! strip policy and the optional downscale.

use vstd::prelude::*;
use crate::spec::{CaptionLayout, FrameStyle, FrameTheme, MetaPolicy, PipelineSpec};

verus! {

/// Configuration for rendering one framed photo.
#[derive(Clone, Debug)]
pub struct FrameOptions {
    /// Outer canvas silhouette.
    pub frame_style: FrameStyle,
    /// Frame colour and caption ink.
    pub theme: FrameTheme,
    /// Caption arrangement in the standard frame (Polaroid always centres).
    pub layout: CaptionLayout,
    /// Whether the metadata strip is drawn.
    pub meta_policy: MetaPolicy,
    /// Downscale so the longer edge is at most this many pixels.
    pub max_long_edge: Option<u32>,
}

impl Default for FrameOptions {
    /// Standard frame, paper theme, edge layout, automatic strip, full
    /// resolution.
    fn default() -> (o: Self)
        ensures
            o.frame_style == FrameStyle::Standard,
            o.theme == FrameTheme::Paper,
            o.layout == CaptionLayout::Edges,
            o.meta_policy == MetaPolicy::Auto,
            o.max_long_edge is None,
    {
        FrameOptions {
            frame_style: FrameStyle::Standard,
            theme: FrameTheme::Paper,
            layout: CaptionLayout::Edges,
            meta_policy: MetaPolicy::Auto,
            max_long_edge: None,
        }
    }
}

/// Options from the plain fields a browser caller sends: the standard
/// frame, with the strip drawn exactly when `show_meta` is set.
pub fn frame_options_from(
    theme: FrameTheme,
    layout: CaptionLayout,
    show_meta: bool,
    max_long_edge: Option<u32>,
) -> (o: FrameOptions)
    ensures
        o.frame_style == FrameStyle::Standard,
        o.theme == theme,
        o.layout == layout,
        o.meta_policy == (if show_meta { MetaPolicy::Auto } else { MetaPolicy::Never }),
        o.max_long_edge == max_long_edge,
{
    FrameOptions {
        frame_style: FrameStyle::Standard,
        theme,
        layout,
        meta_policy: if show_meta {
            MetaPolicy::Auto
        } else {
            MetaPolicy::Never
        },
        max_long_edge,
    }
}

/// The render options a pipeline spec names: the standard frame, its
/// theme, layout and strip policy, and its long-edge cap.
pub fn frame_options_for(spec: PipelineSpec) -> (o: FrameOptions)
    ensures
        o.frame_style == FrameStyle::Standard,
        o.theme == spec.theme,
        o.layout == spec.layout,
        o.meta_policy == spec.meta_policy,
        o.max_long_edge == match spec.max_long_edge {
            Some(e) => Some(e.value()),
            None => None,
        },
{
    FrameOptions {
        frame_style: FrameStyle::Standard,
        theme: spec.theme,
        layout: spec.layout,
        meta_policy: spec.meta_policy,
        max_long_edge: match spec.max_long_edge {
            Some(e) => Some(e.get()),
            None => None,
        },
    }
}

} // verus!
