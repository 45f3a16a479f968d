use vstd::prelude::*;

verus! {

/// Failures of the trailing-data truncator.
#[derive(Clone, Copy, Debug, PartialEq, Eq, Structural)]
pub enum TruncError {
    /// The buffer could not be parsed as a PE image.
    MalformedImage,
    /// The image has no section headers at all, so no end offset can be
    /// computed from the section table.
    EmptySectionTable,
    /// The real file size equals the computed end of the image: there is no
    /// trailing data to strip.
    NoJunkFound,
    /// The real file size is smaller than the end declared by the section
    /// table: the image is internally inconsistent.
    InconsistentSectionTable,
}

impl TruncError {
    /// The description that [`TruncError::describe`] returns.
    pub open spec fn spec_describe(self) -> Seq<char> {
        match self {
            TruncError::MalformedImage => "input is not a recognizable PE image"@,
            TruncError::EmptySectionTable => "image declares no sections"@,
            TruncError::NoJunkFound => "no trailing junk data found"@,
            TruncError::InconsistentSectionTable => {
                "calculated end of file is greater than the real file size"@
            },
        }
    }

    /// A one-line human-readable description of the failure.
    pub fn describe(&self) -> (r: &'static str)
        ensures
            r@ == self.spec_describe(),
    {
        match self {
            TruncError::MalformedImage => "input is not a recognizable PE image",
            TruncError::EmptySectionTable => "image declares no sections",
            TruncError::NoJunkFound => "no trailing junk data found",
            TruncError::InconsistentSectionTable => {
                "calculated end of file is greater than the real file size"
            },
        }
    }
}

/// Failures of the resource accountant's tree traversal.
#[derive(Clone, Copy, Debug, PartialEq, Eq, Structural)]
pub enum RsrcError {
    /// The tree nests deeper than the traversal limit; resource trees come
    /// from untrusted files and may be crafted to nest without bound.
    DepthLimitExceeded,
    /// The declared sizes sum to more than a 64-bit counter can hold.
    SizeOverflow,
}

impl RsrcError {
    /// The description that [`RsrcError::describe`] returns.
    pub open spec fn spec_describe(self) -> Seq<char> {
        match self {
            RsrcError::DepthLimitExceeded => "resource tree nests deeper than the traversal limit"@,
            RsrcError::SizeOverflow => "declared resource sizes overflow a 64-bit total"@,
        }
    }

    /// A one-line human-readable description of the failure.
    pub fn describe(&self) -> (r: &'static str)
        ensures
            r@ == self.spec_describe(),
    {
        match self {
            RsrcError::DepthLimitExceeded => "resource tree nests deeper than the traversal limit",
            RsrcError::SizeOverflow => "declared resource sizes overflow a 64-bit total",
        }
    }
}

} // verus!
