//! What a pipeline run is: the per-image knobs, the named presets, and the
//! progress events a run emits. Every knob has a stable lowercase label
//! that round-trips through [`FromStr`].

use std::str::FromStr;
use vstd::prelude::*;
use crate::primitives::{JpegQuality, LongEdge, Rgba8};
use crate::text::{push_char, push_str, str_eq};

verus! {

/// `"unknown "`.
pub open spec fn unknown_word() -> Seq<char> {
    seq!['u', 'n', 'k', 'n', 'o', 'w', 'n', ' ']
}

/// `"expected one of "`.
pub open spec fn expected_words() -> Seq<char> {
    seq!['e', 'x', 'p', 'e', 'c', 't', 'e', 'd', ' ', 'o', 'n', 'e', ' ', 'o', 'f', ' ']
}

/// The labels, each in backticks, separated by `", "`.
pub open spec fn backticked(labels: Seq<Seq<char>>) -> Seq<char>
    decreases labels.len(),
{
    if labels.len() == 0 {
        Seq::empty()
    } else if labels.len() == 1 {
        seq!['`'] + labels[0] + seq!['`']
    } else {
        backticked(labels.drop_last()) + seq![',', ' ', '`'] + labels.last() + seq!['`']
    }
}

/// ``unknown <kind> `<got>`: expected one of `a`, `b` ``.
pub open spec fn spec_unknown_label_error(
    kind: Seq<char>,
    got: Seq<char>,
    labels: Seq<Seq<char>>,
) -> Seq<char> {
    unknown_word() + kind + seq![' ', '`'] + got + seq!['`', ':', ' '] + expected_words()
        + backticked(labels)
}

/// The message a label parser returns for a label it does not know,
/// listing every accepted label.
pub fn unknown_label_error(kind: &str, got: &str, allowed: &[&str]) -> (s: String)
    ensures
        s@ == spec_unknown_label_error(kind@, got@, allowed@.map_values(|l: &str| l@)),
{
    let mut s = String::new();
    proof {
        reveal_strlit("unknown ");
        reveal_strlit("`: expected one of ");
    }
    push_str(&mut s, "unknown ");
    push_str(&mut s, kind);
    push_char(&mut s, ' ');
    push_char(&mut s, '`');
    push_str(&mut s, got);
    push_str(&mut s, "`: expected one of ");
    let ghost prefix = s@;
    assert(prefix =~= unknown_word() + kind@ + seq![' ', '`'] + got@ + seq!['`', ':', ' ']
        + expected_words());
    let ghost labels = allowed@.map_values(|l: &str| l@);
    let mut i: usize = 0;
    while i < allowed.len()
        invariant
            i <= allowed@.len(),
            labels == allowed@.map_values(|l: &str| l@),
            s@ == prefix + backticked(labels.take(i as int)),
        decreases allowed.len() - i,
    {
        assert(labels.take(i as int + 1).drop_last() =~= labels.take(i as int));
        if i > 0 {
            push_char(&mut s, ',');
            push_char(&mut s, ' ');
        }
        push_char(&mut s, '`');
        push_str(&mut s, allowed[i]);
        push_char(&mut s, '`');
        proof {
            if i == 0 {
                assert(labels.take(1) =~= seq![allowed@[0]@]);
            }
        }
        i = i + 1;
        assert(s@ =~= prefix + backticked(labels.take(i as int)));
    }
    assert(labels.take(allowed@.len() as int) =~= labels);
    s
}

/// Outer canvas silhouette.
#[derive(Copy, Clone, Debug, PartialEq, Eq, Structural, Hash)]
pub enum FrameStyle {
    /// Centred photo with a uniform mat and a caption strip.
    Standard,
    /// Top-anchored photo over a deep bottom band.
    Polaroid,
}

/// The label of each frame style.
pub open spec fn frame_style_label(v: FrameStyle) -> Seq<char> {
    match v {
        FrameStyle::Standard => "standard"@,
        FrameStyle::Polaroid => "polaroid"@,
    }
}

/// The frame style a label names.
pub open spec fn frame_style_from_label(s: Seq<char>) -> Option<FrameStyle> {
    if s == frame_style_label(FrameStyle::Standard) {
        Some(FrameStyle::Standard)
    } else if s == frame_style_label(FrameStyle::Polaroid) {
        Some(FrameStyle::Polaroid)
    } else {
        None
    }
}

impl Default for FrameStyle {
    fn default() -> (v: Self)
        ensures
            v == FrameStyle::Standard,
    {
        FrameStyle::Standard
    }
}

impl FrameStyle {
    /// The canonical lowercase label.
    pub fn label(self) -> (s: &'static str)
        ensures
            s@ == frame_style_label(self),
    {
        match self {
            FrameStyle::Standard => "standard",
            FrameStyle::Polaroid => "polaroid",
        }
    }

    /// Every variant, in declaration order.
    pub fn all() -> (v: Vec<Self>)
        ensures
            v@ == seq![FrameStyle::Standard, FrameStyle::Polaroid],
    {
        let mut v = Vec::new();
        v.push(FrameStyle::Standard);
        v.push(FrameStyle::Polaroid);
        v
    }

    /// Parse a label; the error names the label and every accepted one.
    pub fn from_label(s: &str) -> (r: Result<Self, String>)
        ensures
            match r {
                Ok(v) => frame_style_from_label(s@) == Some(v),
                Err(e) => frame_style_from_label(s@) is None && e@ == spec_unknown_label_error(
                    "frame style"@,
                    s@,
                    seq![frame_style_label(FrameStyle::Standard), frame_style_label(FrameStyle::Polaroid)],
                ),
            },
    {
        if str_eq(FrameStyle::Standard.label(), s) {
            return Ok(FrameStyle::Standard);
        }
        if str_eq(FrameStyle::Polaroid.label(), s) {
            return Ok(FrameStyle::Polaroid);
        }
        let allowed = [FrameStyle::Standard.label(), FrameStyle::Polaroid.label()];
        let e = unknown_label_error("frame style", s, &allowed);
        assert(allowed@.map_values(|l: &str| l@) =~= seq![
            frame_style_label(FrameStyle::Standard),
            frame_style_label(FrameStyle::Polaroid),
        ]);
        Err(e)
    }
}

impl FromStr for FrameStyle {
    type Err = String;

    fn from_str(s: &str) -> (r: Result<Self, String>)
        ensures
            match r {
                Ok(v) => frame_style_from_label(s@) == Some(v),
                Err(e) => frame_style_from_label(s@) is None && e@ == spec_unknown_label_error(
                    "frame style"@,
                    s@,
                    seq![frame_style_label(FrameStyle::Standard), frame_style_label(FrameStyle::Polaroid)],
                ),
            },
    {
        FrameStyle::from_label(s)
    }
}

/// Every frame style's label parses back to that style.
pub proof fn lemma_frame_style_label_round_trip(v: FrameStyle)
    ensures
        frame_style_from_label(frame_style_label(v)) == Some(v),
{
    reveal_strlit("standard");
    reveal_strlit("polaroid");
    assert("standard"@[0] != "polaroid"@[0]);
}

/// How the caption is arranged inside the standard frame.
#[derive(Copy, Clone, Debug, PartialEq, Eq, Structural, Hash)]
pub enum CaptionLayout {
    /// Facets pinned to the four corners of the strip.
    Edges,
    /// Each row joined and centred.
    Centered,
}

/// The label of each caption layout.
pub open spec fn caption_layout_label(v: CaptionLayout) -> Seq<char> {
    match v {
        CaptionLayout::Edges => "edges"@,
        CaptionLayout::Centered => "centered"@,
    }
}

/// The caption layout a label names.
pub open spec fn caption_layout_from_label(s: Seq<char>) -> Option<CaptionLayout> {
    if s == caption_layout_label(CaptionLayout::Edges) {
        Some(CaptionLayout::Edges)
    } else if s == caption_layout_label(CaptionLayout::Centered) {
        Some(CaptionLayout::Centered)
    } else {
        None
    }
}

impl Default for CaptionLayout {
    fn default() -> (v: Self)
        ensures
            v == CaptionLayout::Edges,
    {
        CaptionLayout::Edges
    }
}

impl CaptionLayout {
    /// The canonical lowercase label.
    pub fn label(self) -> (s: &'static str)
        ensures
            s@ == caption_layout_label(self),
    {
        match self {
            CaptionLayout::Edges => "edges",
            CaptionLayout::Centered => "centered",
        }
    }

    /// Every variant, in declaration order.
    pub fn all() -> (v: Vec<Self>)
        ensures
            v@ == seq![CaptionLayout::Edges, CaptionLayout::Centered],
    {
        let mut v = Vec::new();
        v.push(CaptionLayout::Edges);
        v.push(CaptionLayout::Centered);
        v
    }

    /// Parse a label; the error names the label and every accepted one.
    pub fn from_label(s: &str) -> (r: Result<Self, String>)
        ensures
            match r {
                Ok(v) => caption_layout_from_label(s@) == Some(v),
                Err(e) => caption_layout_from_label(s@) is None && e@ == spec_unknown_label_error(
                    "caption layout"@,
                    s@,
                    seq![
                        caption_layout_label(CaptionLayout::Edges),
                        caption_layout_label(CaptionLayout::Centered),
                    ],
                ),
            },
    {
        if str_eq(CaptionLayout::Edges.label(), s) {
            return Ok(CaptionLayout::Edges);
        }
        if str_eq(CaptionLayout::Centered.label(), s) {
            return Ok(CaptionLayout::Centered);
        }
        let allowed = [CaptionLayout::Edges.label(), CaptionLayout::Centered.label()];
        let e = unknown_label_error("caption layout", s, &allowed);
        assert(allowed@.map_values(|l: &str| l@) =~= seq![
            caption_layout_label(CaptionLayout::Edges),
            caption_layout_label(CaptionLayout::Centered),
        ]);
        Err(e)
    }
}

impl FromStr for CaptionLayout {
    type Err = String;

    fn from_str(s: &str) -> (r: Result<Self, String>)
        ensures
            match r {
                Ok(v) => caption_layout_from_label(s@) == Some(v),
                Err(e) => caption_layout_from_label(s@) is None && e@ == spec_unknown_label_error(
                    "caption layout"@,
                    s@,
                    seq![
                        caption_layout_label(CaptionLayout::Edges),
                        caption_layout_label(CaptionLayout::Centered),
                    ],
                ),
            },
    {
        CaptionLayout::from_label(s)
    }
}

/// Every caption layout's label parses back to that layout.
pub proof fn lemma_caption_layout_label_round_trip(v: CaptionLayout)
    ensures
        caption_layout_from_label(caption_layout_label(v)) == Some(v),
{
    reveal_strlit("edges");
    reveal_strlit("centered");
    assert("edges"@.len() != "centered"@.len());
}

/// Frame colour paired with caption ink.
#[derive(Copy, Clone, Debug, PartialEq, Eq, Structural, Hash)]
pub enum FrameTheme {
    /// White frame, black ink.
    Paper,
    /// Black frame, white ink.
    Ink,
}

/// The label of each theme.
pub open spec fn frame_theme_label(v: FrameTheme) -> Seq<char> {
    match v {
        FrameTheme::Paper => "paper"@,
        FrameTheme::Ink => "ink"@,
    }
}

/// The theme a label names.
pub open spec fn frame_theme_from_label(s: Seq<char>) -> Option<FrameTheme> {
    if s == frame_theme_label(FrameTheme::Paper) {
        Some(FrameTheme::Paper)
    } else if s == frame_theme_label(FrameTheme::Ink) {
        Some(FrameTheme::Ink)
    } else {
        None
    }
}

/// Opaque white.
pub open spec fn white() -> Rgba8 {
    Rgba8 { r: 255, g: 255, b: 255, a: 255 }
}

/// Opaque black.
pub open spec fn black() -> Rgba8 {
    Rgba8 { r: 0, g: 0, b: 0, a: 255 }
}

impl Default for FrameTheme {
    fn default() -> (v: Self)
        ensures
            v == FrameTheme::Paper,
    {
        FrameTheme::Paper
    }
}

impl FrameTheme {
    /// The frame colour.
    pub fn background(self) -> (c: Rgba8)
        ensures
            c == match self {
                FrameTheme::Paper => white(),
                FrameTheme::Ink => black(),
            },
    {
        match self {
            FrameTheme::Paper => Rgba8::white(),
            FrameTheme::Ink => Rgba8::black(),
        }
    }

    /// The caption colour: always the other one of black and white.
    pub fn ink(self) -> (c: Rgba8)
        ensures
            c == match self {
                FrameTheme::Paper => black(),
                FrameTheme::Ink => white(),
            },
    {
        match self {
            FrameTheme::Paper => Rgba8::black(),
            FrameTheme::Ink => Rgba8::white(),
        }
    }

    /// The canonical lowercase label.
    pub fn label(self) -> (s: &'static str)
        ensures
            s@ == frame_theme_label(self),
    {
        match self {
            FrameTheme::Paper => "paper",
            FrameTheme::Ink => "ink",
        }
    }

    /// Every variant, in declaration order.
    pub fn all() -> (v: Vec<Self>)
        ensures
            v@ == seq![FrameTheme::Paper, FrameTheme::Ink],
    {
        let mut v = Vec::new();
        v.push(FrameTheme::Paper);
        v.push(FrameTheme::Ink);
        v
    }

    /// Parse a label; the error names the label and every accepted one.
    pub fn from_label(s: &str) -> (r: Result<Self, String>)
        ensures
            match r {
                Ok(v) => frame_theme_from_label(s@) == Some(v),
                Err(e) => frame_theme_from_label(s@) is None && e@ == spec_unknown_label_error(
                    "frame theme"@,
                    s@,
                    seq![frame_theme_label(FrameTheme::Paper), frame_theme_label(FrameTheme::Ink)],
                ),
            },
    {
        if str_eq(FrameTheme::Paper.label(), s) {
            return Ok(FrameTheme::Paper);
        }
        if str_eq(FrameTheme::Ink.label(), s) {
            return Ok(FrameTheme::Ink);
        }
        let allowed = [FrameTheme::Paper.label(), FrameTheme::Ink.label()];
        let e = unknown_label_error("frame theme", s, &allowed);
        assert(allowed@.map_values(|l: &str| l@) =~= seq![
            frame_theme_label(FrameTheme::Paper),
            frame_theme_label(FrameTheme::Ink),
        ]);
        Err(e)
    }
}

impl FromStr for FrameTheme {
    type Err = String;

    fn from_str(s: &str) -> (r: Result<Self, String>)
        ensures
            match r {
                Ok(v) => frame_theme_from_label(s@) == Some(v),
                Err(e) => frame_theme_from_label(s@) is None && e@ == spec_unknown_label_error(
                    "frame theme"@,
                    s@,
                    seq![frame_theme_label(FrameTheme::Paper), frame_theme_label(FrameTheme::Ink)],
                ),
            },
    {
        FrameTheme::from_label(s)
    }
}

/// Every theme's label parses back to that theme.
pub proof fn lemma_frame_theme_label_round_trip(v: FrameTheme)
    ensures
        frame_theme_from_label(frame_theme_label(v)) == Some(v),
{
    reveal_strlit("paper");
    reveal_strlit("ink");
    assert("paper"@.len() != "ink"@.len());
}

/// Whether the metadata strip is drawn.
#[derive(Copy, Clone, Debug, PartialEq, Eq, Structural, Hash)]
pub enum MetaPolicy {
    /// Draw it when there is something to show.
    Auto,
    /// Never draw it.
    Never,
}

/// The label of each meta policy.
pub open spec fn meta_policy_label(v: MetaPolicy) -> Seq<char> {
    match v {
        MetaPolicy::Auto => "auto"@,
        MetaPolicy::Never => "never"@,
    }
}

/// The meta policy a label names.
pub open spec fn meta_policy_from_label(s: Seq<char>) -> Option<MetaPolicy> {
    if s == meta_policy_label(MetaPolicy::Auto) {
        Some(MetaPolicy::Auto)
    } else if s == meta_policy_label(MetaPolicy::Never) {
        Some(MetaPolicy::Never)
    } else {
        None
    }
}

impl Default for MetaPolicy {
    fn default() -> (v: Self)
        ensures
            v == MetaPolicy::Auto,
    {
        MetaPolicy::Auto
    }
}

impl MetaPolicy {
    /// The canonical lowercase label.
    pub fn label(self) -> (s: &'static str)
        ensures
            s@ == meta_policy_label(self),
    {
        match self {
            MetaPolicy::Auto => "auto",
            MetaPolicy::Never => "never",
        }
    }

    /// Every variant, in declaration order.
    pub fn all() -> (v: Vec<Self>)
        ensures
            v@ == seq![MetaPolicy::Auto, MetaPolicy::Never],
    {
        let mut v = Vec::new();
        v.push(MetaPolicy::Auto);
        v.push(MetaPolicy::Never);
        v
    }

    /// Parse a label; the error names the label and every accepted one.
    pub fn from_label(s: &str) -> (r: Result<Self, String>)
        ensures
            match r {
                Ok(v) => meta_policy_from_label(s@) == Some(v),
                Err(e) => meta_policy_from_label(s@) is None && e@ == spec_unknown_label_error(
                    "meta policy"@,
                    s@,
                    seq![meta_policy_label(MetaPolicy::Auto), meta_policy_label(MetaPolicy::Never)],
                ),
            },
    {
        if str_eq(MetaPolicy::Auto.label(), s) {
            return Ok(MetaPolicy::Auto);
        }
        if str_eq(MetaPolicy::Never.label(), s) {
            return Ok(MetaPolicy::Never);
        }
        let allowed = [MetaPolicy::Auto.label(), MetaPolicy::Never.label()];
        let e = unknown_label_error("meta policy", s, &allowed);
        assert(allowed@.map_values(|l: &str| l@) =~= seq![
            meta_policy_label(MetaPolicy::Auto),
            meta_policy_label(MetaPolicy::Never),
        ]);
        Err(e)
    }
}

impl FromStr for MetaPolicy {
    type Err = String;

    fn from_str(s: &str) -> (r: Result<Self, String>)
        ensures
            match r {
                Ok(v) => meta_policy_from_label(s@) == Some(v),
                Err(e) => meta_policy_from_label(s@) is None && e@ == spec_unknown_label_error(
                    "meta policy"@,
                    s@,
                    seq![meta_policy_label(MetaPolicy::Auto), meta_policy_label(MetaPolicy::Never)],
                ),
            },
    {
        MetaPolicy::from_label(s)
    }
}

/// Every meta policy's label parses back to that policy.
pub proof fn lemma_meta_policy_label_round_trip(v: MetaPolicy)
    ensures
        meta_policy_from_label(meta_policy_label(v)) == Some(v),
{
    reveal_strlit("auto");
    reveal_strlit("never");
    assert("auto"@.len() != "never"@.len());
}

/// Everything one pipeline run needs to know about its output.
#[derive(Copy, Clone, Debug, PartialEq, Eq, Structural)]
pub struct PipelineSpec {
    pub theme: FrameTheme,
    pub layout: CaptionLayout,
    pub meta_policy: MetaPolicy,
    pub jpeg_quality: JpegQuality,
    pub max_long_edge: Option<LongEdge>,
}

/// The numbers a named preset fixes: JPEG quality and long-edge cap.
pub open spec fn preset_numbers(p: PipelineSpec) -> (u8, Option<u32>) {
    (
        p.jpeg_quality.value(),
        match p.max_long_edge {
            Some(e) => Some(e.value()),
            None => None,
        },
    )
}

/// A preset: paper theme, edge layout, automatic strip, and the given
/// numbers.
pub open spec fn is_preset(p: PipelineSpec, quality: u8, long_edge: Option<u32>) -> bool {
    &&& p.theme == FrameTheme::Paper
    &&& p.layout == CaptionLayout::Edges
    &&& p.meta_policy == MetaPolicy::Auto
    &&& preset_numbers(p) == (quality, long_edge)
}

/// The label of each named preset, in table order.
pub open spec fn preset_labels() -> Seq<Seq<char>> {
    seq!["sns"@, "standard"@, "maximum"@]
}

/// The preset a label names, as its numbers.
pub open spec fn preset_from_label(s: Seq<char>) -> Option<(u8, Option<u32>)> {
    if s == "sns"@ {
        Some((78u8, Some(2048u32)))
    } else if s == "standard"@ {
        Some((92u8, None))
    } else if s == "maximum"@ {
        Some((98u8, None))
    } else {
        None
    }
}

impl PipelineSpec {
    fn preset(quality: u8, long_edge: Option<u32>) -> (p: Self)
        requires
            1 <= quality <= 100,
            long_edge matches Some(e) ==> e > 0,
        ensures
            is_preset(p, quality, long_edge),
    {
        let q = JpegQuality::new(quality);
        let q = q.unwrap();
        let edge = match long_edge {
            Some(e) => {
                let l = LongEdge::new(e);
                Some(l.unwrap())
            },
            None => None,
        };
        PipelineSpec {
            theme: FrameTheme::Paper,
            layout: CaptionLayout::Edges,
            meta_policy: MetaPolicy::Auto,
            jpeg_quality: q,
            max_long_edge: edge,
        }
    }

    /// Social media: quality 78, long edge capped at 2048 px.
    pub fn sns() -> (p: Self)
        ensures
            is_preset(p, 78, Some(2048)),
    {
        Self::preset(78, Some(2048))
    }

    /// Balanced default: quality 92, full resolution.
    pub fn standard() -> (p: Self)
        ensures
            is_preset(p, 92, None),
    {
        Self::preset(92, None)
    }

    /// Print / archive: quality 98, full resolution.
    pub fn maximum() -> (p: Self)
        ensures
            is_preset(p, 98, None),
    {
        Self::preset(98, None)
    }

    /// Replace the theme, keep the rest.
    pub fn with_theme(self, theme: FrameTheme) -> (p: Self)
        ensures
            p == (PipelineSpec { theme, ..self }),
    {
        let mut p = self;
        p.theme = theme;
        p
    }

    /// Replace the caption layout, keep the rest.
    pub fn with_layout(self, layout: CaptionLayout) -> (p: Self)
        ensures
            p == (PipelineSpec { layout, ..self }),
    {
        let mut p = self;
        p.layout = layout;
        p
    }

    /// Replace the meta policy, keep the rest.
    pub fn with_meta_policy(self, policy: MetaPolicy) -> (p: Self)
        ensures
            p == (PipelineSpec { meta_policy: policy, ..self }),
    {
        let mut p = self;
        p.meta_policy = policy;
        p
    }

    /// Replace the JPEG quality, keep the rest.
    pub fn with_jpeg_quality(self, quality: JpegQuality) -> (p: Self)
        ensures
            p == (PipelineSpec { jpeg_quality: quality, ..self }),
    {
        let mut p = self;
        p.jpeg_quality = quality;
        p
    }

    /// Replace the long-edge cap (`None` clears it), keep the rest.
    pub fn with_max_long_edge(self, edge: Option<LongEdge>) -> (p: Self)
        ensures
            p == (PipelineSpec { max_long_edge: edge, ..self }),
    {
        let mut p = self;
        p.max_long_edge = edge;
        p
    }

    /// The named presets, in table order: the one source of truth for
    /// label parsing.
    pub fn presets() -> (v: Vec<(&'static str, PipelineSpec)>)
        ensures
            v@.len() == 3,
            forall|i: int| 0 <= i < 3 ==> #[trigger] v@[i].0@ == preset_labels()[i],
            is_preset(v@[0].1, 78, Some(2048)),
            is_preset(v@[1].1, 92, None),
            is_preset(v@[2].1, 98, None),
    {
        let mut v = Vec::new();
        v.push(("sns", Self::sns()));
        v.push(("standard", Self::standard()));
        v.push(("maximum", Self::maximum()));
        v
    }

    /// Parse a preset label; the error names the label and every preset.
    pub fn from_label(s: &str) -> (r: Result<Self, String>)
        ensures
            match r {
                Ok(p) => preset_from_label(s@) matches Some((q, e)) && is_preset(p, q, e),
                Err(m) => preset_from_label(s@) is None && m@ == spec_unknown_label_error(
                    "preset"@,
                    s@,
                    preset_labels(),
                ),
            },
    {
        let table = Self::presets();
        let mut labels: Vec<&str> = Vec::new();
        let mut i: usize = 0;
        while i < table.len()
            invariant
                table@.len() == 3,
                forall|k: int| 0 <= k < 3 ==> #[trigger] table@[k].0@ == preset_labels()[k],
                is_preset(table@[0].1, 78, Some(2048)),
                is_preset(table@[1].1, 92, None),
                is_preset(table@[2].1, 98, None),
                i <= 3,
                labels@.len() == i,
                forall|k: int| 0 <= k < i ==> #[trigger] labels@[k]@ == preset_labels()[k],
                forall|k: int| 0 <= k < i ==> s@ != #[trigger] preset_labels()[k],
            decreases table.len() - i,
        {
            let (label, spec) = table[i];
            if str_eq(label, s) {
                return Ok(spec);
            }
            labels.push(label);
            i = i + 1;
        }
        assert(labels@.map_values(|l: &str| l@) =~= preset_labels());
        Err(unknown_label_error("preset", s, labels.as_slice()))
    }
}

impl Default for PipelineSpec {
    fn default() -> (p: Self)
        ensures
            is_preset(p, 92, None),
    {
        Self::standard()
    }
}

impl FromStr for PipelineSpec {
    type Err = String;

    fn from_str(s: &str) -> (r: Result<Self, String>)
        ensures
            match r {
                Ok(p) => preset_from_label(s@) matches Some((q, e)) && is_preset(p, q, e),
                Err(m) => preset_from_label(s@) is None && m@ == spec_unknown_label_error(
                    "preset"@,
                    s@,
                    preset_labels(),
                ),
            },
    {
        PipelineSpec::from_label(s)
    }
}

/// The spec a command line names: the preset `base` with its theme and
/// layout replaced, the strip turned off by `no_meta`, and the quality and
/// long-edge overrides applied where given.
pub fn spec_from_flags(
    base: PipelineSpec,
    theme: FrameTheme,
    layout: CaptionLayout,
    no_meta: bool,
    quality: Option<JpegQuality>,
    max_long_edge: Option<LongEdge>,
) -> (p: PipelineSpec)
    ensures
        p.theme == theme,
        p.layout == layout,
        p.meta_policy == (if no_meta { MetaPolicy::Never } else { base.meta_policy }),
        p.jpeg_quality == match quality {
            Some(q) => q,
            None => base.jpeg_quality,
        },
        p.max_long_edge == match max_long_edge {
            Some(e) => Some(e),
            None => base.max_long_edge,
        },
{
    let mut spec = base.with_theme(theme).with_layout(layout);
    if no_meta {
        spec = spec.with_meta_policy(MetaPolicy::Never);
    }
    if let Some(q) = quality {
        spec = spec.with_jpeg_quality(q);
    }
    if let Some(edge) = max_long_edge {
        spec = spec.with_max_long_edge(Some(edge));
    }
    spec
}

/// Every preset label in the table parses to the preset listed beside it.
pub proof fn lemma_preset_labels_resolve()
    ensures
        preset_from_label(preset_labels()[0]) == Some((78u8, Some(2048u32))),
        preset_from_label(preset_labels()[1]) == Some((92u8, None::<u32>)),
        preset_from_label(preset_labels()[2]) == Some((98u8, None::<u32>)),
{
    reveal_strlit("sns");
    reveal_strlit("standard");
    reveal_strlit("maximum");
    assert("sns"@.len() != "standard"@.len());
    assert("sns"@.len() != "maximum"@.len());
    assert("standard"@.len() != "maximum"@.len());
}

/// A pipeline stage, as progress reporting names it.
#[derive(Copy, Clone, Debug, PartialEq, Eq, Structural, Hash)]
pub enum Stage {
    Decode,
    Frame,
    Encode,
}

/// How far along the run is once a stage completes.
pub open spec fn stage_percent(s: Stage) -> u8 {
    match s {
        Stage::Decode => 33,
        Stage::Frame => 69,
        Stage::Encode => 100,
    }
}

impl Stage {
    /// Percent complete once this stage is done.
    pub fn percent_complete(self) -> (p: u8)
        ensures
            p == stage_percent(self),
            p <= 100,
    {
        match self {
            Stage::Decode => 33,
            Stage::Frame => 69,
            Stage::Encode => 100,
        }
    }
}

/// Progress strictly increases from stage to stage and ends at 100.
pub proof fn lemma_stage_percent_monotone()
    ensures
        stage_percent(Stage::Decode) < stage_percent(Stage::Frame),
        stage_percent(Stage::Frame) < stage_percent(Stage::Encode),
        stage_percent(Stage::Encode) == 100,
{
}

/// One progress event of a batch run.
#[derive(Clone, Debug, PartialEq, Eq)]
pub struct StageEvent {
    pub stage: Stage,
    pub percent: u8,
    pub index: usize,
    pub total: u32,
    pub key: String,
}

impl StageEvent {
    /// An event whose percent is the stage's own.
    pub fn new(stage: Stage, index: usize, total: u32, key: String) -> (e: Self)
        ensures
            e.stage == stage,
            e.percent == stage_percent(stage),
            e.index == index,
            e.total == total,
            e.key@ == key@,
    {
        StageEvent { stage, percent: stage.percent_complete(), index, total, key }
    }
}

} // verus!
