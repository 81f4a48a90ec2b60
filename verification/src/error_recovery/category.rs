use vstd::prelude::*;

verus! {

/// The kinds of failure that the recovery policy tells apart.
#[derive(Debug, Clone, Copy, PartialEq, Eq, Hash, Structural)]
pub enum ErrorCategory {
    Network,
    IO,
    Parsing,
    OCR,
    ImageProcessing,
    ResourceExhaustion,
    Configuration,
    Temporary,
    Permanent,
    Unknown,
}

/// How many categories there are.
pub const CATEGORY_COUNT: usize = 10;

impl ErrorCategory {
    /// A dense index for the category, in declaration order.
    pub open spec fn spec_index(self) -> usize {
        match self {
            ErrorCategory::Network => 0,
            ErrorCategory::IO => 1,
            ErrorCategory::Parsing => 2,
            ErrorCategory::OCR => 3,
            ErrorCategory::ImageProcessing => 4,
            ErrorCategory::ResourceExhaustion => 5,
            ErrorCategory::Configuration => 6,
            ErrorCategory::Temporary => 7,
            ErrorCategory::Permanent => 8,
            ErrorCategory::Unknown => 9,
        }
    }

    /// A dense index for the category, in declaration order.
    #[verifier::when_used_as_spec(spec_index)]
    pub fn index(self) -> (i: usize)
        ensures
            i == self.spec_index(),
            i < CATEGORY_COUNT,
    {
        match self {
            ErrorCategory::Network => 0,
            ErrorCategory::IO => 1,
            ErrorCategory::Parsing => 2,
            ErrorCategory::OCR => 3,
            ErrorCategory::ImageProcessing => 4,
            ErrorCategory::ResourceExhaustion => 5,
            ErrorCategory::Configuration => 6,
            ErrorCategory::Temporary => 7,
            ErrorCategory::Permanent => 8,
            ErrorCategory::Unknown => 9,
        }
    }

    /// Whether a failure of this category is worth retrying.
    pub open spec fn spec_is_retryable(self) -> bool {
        self != ErrorCategory::Parsing && self != ErrorCategory::Configuration && self
            != ErrorCategory::Permanent
    }

    /// Whether a failure of this category is worth retrying: everything but
    /// parsing, configuration and permanent failures.
    #[verifier::when_used_as_spec(spec_is_retryable)]
    pub fn is_retryable(self) -> (retry: bool)
        ensures
            retry == self.spec_is_retryable(),
    {
        match self {
            ErrorCategory::Parsing | ErrorCategory::Configuration | ErrorCategory::Permanent => false,
            _ => true,
        }
    }
}

} // verus!
