//! Stable categorisation for every error of the pipeline.

use vstd::prelude::*;

verus! {

/// Coarse-grained error classification ("what part of the pipeline blew up").
#[derive(Copy, Clone, Debug, PartialEq, Eq, Structural, Hash)]
pub enum Category {
    /// Bad input on the caller's side.
    Input,
    /// Decoding failed midway.
    Decode,
    /// Rendering / framing failed.
    Render,
    /// Encoding failed.
    Encode,
    /// An internal invariant breach.
    Internal,
}

/// The exit code contract of each category.
pub open spec fn category_exit_code(c: Category) -> u8 {
    match c {
        Category::Input => 2,
        Category::Decode => 3,
        Category::Render => 4,
        Category::Encode => 5,
        Category::Internal => 1,
    }
}

impl Category {
    /// Stable CLI exit code per category.
    pub fn exit_code(self) -> (code: u8)
        ensures
            code == category_exit_code(self),
    {
        match self {
            Category::Input => 2,
            Category::Decode => 3,
            Category::Render => 4,
            Category::Encode => 5,
            Category::Internal => 1,
        }
    }

    /// Short snake-case label used in events and logs.
    pub fn label(self) -> (s: &'static str)
        ensures
            s@ == category_label(self),
    {
        match self {
            Category::Input => "input",
            Category::Decode => "decode",
            Category::Render => "render",
            Category::Encode => "encode",
            Category::Internal => "internal",
        }
    }
}

pub open spec fn category_label(c: Category) -> Seq<char> {
    match c {
        Category::Input => "input"@,
        Category::Decode => "decode"@,
        Category::Render => "render"@,
        Category::Encode => "encode"@,
        Category::Internal => "internal"@,
    }
}

/// Anything that classifies into a [`Category`].
pub trait Categorize {
    fn category(&self) -> Category;
}

} // verus!
