//! Error categories shared across the encoding back ends, and the common
//! error type with its messages.

use vstd::prelude::*;

verus! {

/// Error category reported at the foreign-function boundary.
#[derive(Clone, Copy, Debug, PartialEq, Eq, Structural)]
pub enum ErrorCategory {
    /// General/unspecified error
    General,
    /// Failed to initialize a component
    Initialization,
    /// Configuration error
    Configuration,
    /// Resource allocation failure (memory, buffers, etc.)
    ResourceAllocation,
    /// Encoding error
    Encoding,
    /// Muxing error
    Muxing,
    /// Communication/channel error
    Communication,
    /// Timeout error
    Timeout,
    /// Invalid input
    InvalidInput,
    /// Platform-specific error
    Platform,
}

/// The numeric code of each category at the foreign-function boundary.
pub open spec fn category_code(c: ErrorCategory) -> u32 {
    match c {
        ErrorCategory::General => 1,
        ErrorCategory::Initialization => 2,
        ErrorCategory::Configuration => 3,
        ErrorCategory::ResourceAllocation => 4,
        ErrorCategory::Encoding => 5,
        ErrorCategory::Muxing => 6,
        ErrorCategory::Communication => 7,
        ErrorCategory::Timeout => 8,
        ErrorCategory::InvalidInput => 9,
        ErrorCategory::Platform => 10,
    }
}

impl ErrorCategory {
    /// The numeric code under which this category crosses the boundary.
    pub fn code(&self) -> (res: u32)
        ensures
            res == category_code(*self),
    {
        match self {
            ErrorCategory::General => 1,
            ErrorCategory::Initialization => 2,
            ErrorCategory::Configuration => 3,
            ErrorCategory::ResourceAllocation => 4,
            ErrorCategory::Encoding => 5,
            ErrorCategory::Muxing => 6,
            ErrorCategory::Communication => 7,
            ErrorCategory::Timeout => 8,
            ErrorCategory::InvalidInput => 9,
            ErrorCategory::Platform => 10,
        }
    }
}

/// Distinct categories cross the boundary under distinct codes, all in 1..=10.
pub proof fn lemma_category_code_injective(a: ErrorCategory, b: ErrorCategory)
    ensures
        1 <= category_code(a) <= 10,
        category_code(a) == category_code(b) ==> a == b,
{
}

/// Errors that can tell which category they belong to.
pub trait CategorizedError {
    /// Returns the error category for this error
    fn category(&self) -> ErrorCategory;
}

/// Common error type of the encoding back ends.
#[derive(Debug)]
pub enum CommonError {
    BufferPoolExceeded,
    BlitNotSupported,
    /// Error with explicit category from platform code
    Categorized { category: ErrorCategory, message: String },
    Other(String),
}

/// The category of a common error.
pub open spec fn common_category(e: CommonError) -> ErrorCategory {
    match e {
        CommonError::BufferPoolExceeded => ErrorCategory::ResourceAllocation,
        CommonError::BlitNotSupported => ErrorCategory::Configuration,
        CommonError::Categorized { category, .. } => category,
        CommonError::Other(_) => ErrorCategory::General,
    }
}

/// The text a common error displays.
pub open spec fn common_message(e: CommonError) -> Seq<char> {
    match e {
        CommonError::BufferPoolExceeded => "Buffer pool limit exceeded"@,
        CommonError::BlitNotSupported => "Blit not supported in this encoding system"@,
        CommonError::Categorized { message, .. } => message@,
        CommonError::Other(s) => s@,
    }
}

/// How the common errors cross the C boundary (by code): an exhausted
/// buffer pool is a resource allocation error (4), a blit the system cannot
/// do a configuration error (3), an error with context a general error (1),
/// and an explicitly categorized error keeps its own category.
pub proof fn lemma_common_category_codes(c: ErrorCategory, m: String)
    ensures
        category_code(common_category(CommonError::BufferPoolExceeded)) == 4,
        category_code(common_category(CommonError::BlitNotSupported)) == 3,
        category_code(common_category(CommonError::Other(m))) == 1,
        common_category(CommonError::Categorized { category: c, message: m }) == c,
{
}

/// The text of an error that was wrapped with a context message.
pub open spec fn with_context_text(context: Seq<char>, error: Seq<char>) -> Seq<char> {
    context + ": "@ + error
}

/// `context` followed by `": "` and `error`, as a new string.
pub fn join_context(context: &str, error: &str) -> (res: String)
    ensures
        res@ == with_context_text(context@, error@),
{
    let mut s = String::from_str(context);
    s.append(": ");
    s.append(error);
    s
}

impl Clone for CommonError {
    fn clone(&self) -> (res: Self)
        ensures
            res == *self,
    {
        match self {
            CommonError::BufferPoolExceeded => CommonError::BufferPoolExceeded,
            CommonError::BlitNotSupported => CommonError::BlitNotSupported,
            CommonError::Categorized { category, message } => CommonError::Categorized {
                category: *category,
                message: message.clone(),
            },
            CommonError::Other(s) => CommonError::Other(s.clone()),
        }
    }
}

impl CategorizedError for CommonError {
    fn category(&self) -> (res: ErrorCategory)
        ensures
            res == common_category(*self),
    {
        match self {
            CommonError::BufferPoolExceeded => ErrorCategory::ResourceAllocation,
            CommonError::BlitNotSupported => ErrorCategory::Configuration,
            CommonError::Categorized { category, .. } => *category,
            CommonError::Other(_) => ErrorCategory::General,
        }
    }
}

impl CommonError {
    /// The text this error displays.
    pub fn message(&self) -> (res: String)
        ensures
            res@ == common_message(*self),
    {
        match self {
            CommonError::BufferPoolExceeded => String::from_str("Buffer pool limit exceeded"),
            CommonError::BlitNotSupported => String::from_str(
                "Blit not supported in this encoding system",
            ),
            CommonError::Categorized { message, .. } => message.clone(),
            CommonError::Other(s) => s.clone(),
        }
    }
}

/// What `context` turns a result into: errors become `Other` with the
/// context text in front of the error's own text.
pub open spec fn context_applied<T>(
    r: Result<T, CommonError>,
    res: Result<T, CommonError>,
    context: Seq<char>,
) -> bool {
    match r {
        Ok(v) => res == Ok::<T, CommonError>(v),
        Err(e) => res matches Err(CommonError::Other(s)) && s@ == with_context_text(
            context,
            common_message(e),
        ),
    }
}

/// Adds context to the error of a result.
pub trait ResultExt<T>: Sized {
    /// Wrap the error with additional context
    fn context(self, context: &str) -> Result<T, CommonError>;

    /// Wrap the error with lazily-evaluated context
    fn with_context<F: FnOnce() -> String>(self, f: F) -> Result<T, CommonError>
        requires
            f.requires(()),
    ;
}

impl<T> ResultExt<T> for Result<T, CommonError> {
    fn context(self, context: &str) -> (res: Result<T, CommonError>)
        ensures
            context_applied(self, res, context@),
    {
        match self {
            Ok(v) => Ok(v),
            Err(e) => {
                let m = e.message();
                Err(CommonError::Other(join_context(context, m.as_str())))
            },
        }
    }

    fn with_context<F: FnOnce() -> String>(self, f: F) -> (res: Result<T, CommonError>)
        ensures
            self is Ok ==> res == self,
            self is Err ==> exists|c: String|
                f.ensures((), c) && context_applied(self, res, #[trigger] c@),
    {
        match self {
            Ok(v) => Ok(v),
            Err(e) => {
                let c = f();
                let m = e.message();
                Err(CommonError::Other(join_context(c.as_str(), m.as_str())))
            },
        }
    }
}

impl<T> ResultExt<T> for Result<T, String> {
    fn context(self, context: &str) -> (res: Result<T, CommonError>)
        ensures
            match self {
                Ok(v) => res == Ok::<T, CommonError>(v),
                Err(e) => res matches Err(CommonError::Other(s)) && s@ == with_context_text(
                    context@,
                    e@,
                ),
            },
    {
        match self {
            Ok(v) => Ok(v),
            Err(e) => Err(CommonError::Other(join_context(context, e.as_str()))),
        }
    }

    fn with_context<F: FnOnce() -> String>(self, f: F) -> (res: Result<T, CommonError>)
        ensures
            match self {
                Ok(v) => res == Ok::<T, CommonError>(v),
                Err(e) => exists|c: String|
                    #[trigger] f.ensures((), c) && (res matches Err(CommonError::Other(s))
                        && s@ == with_context_text(c@, e@)),
            },
    {
        match self {
            Ok(v) => Ok(v),
            Err(e) => {
                let c = f();
                Err(CommonError::Other(join_context(c.as_str(), e.as_str())))
            },
        }
    }
}

/// Turns an absent value into an error.
pub trait OptionExt<T>: Sized {
    /// Convert Option to Result with context message
    fn context(self, context: &str) -> Result<T, CommonError>;

    /// Convert Option to Result with lazily-evaluated context
    fn with_context<F: FnOnce() -> String>(self, f: F) -> Result<T, CommonError>
        requires
            f.requires(()),
    ;
}

impl<T> OptionExt<T> for Option<T> {
    fn context(self, context: &str) -> (res: Result<T, CommonError>)
        ensures
            match self {
                Some(v) => res == Ok::<T, CommonError>(v),
                None => res matches Err(CommonError::Other(s)) && s@ == context@,
            },
    {
        match self {
            Some(v) => Ok(v),
            None => Err(CommonError::Other(String::from_str(context))),
        }
    }

    fn with_context<F: FnOnce() -> String>(self, f: F) -> (res: Result<T, CommonError>)
        ensures
            match self {
                Some(v) => res == Ok::<T, CommonError>(v),
                None => exists|c: String|
                    #[trigger] f.ensures((), c) && res == Err::<T, CommonError>(
                        CommonError::Other(c),
                    ),
            },
    {
        match self {
            Some(v) => Ok(v),
            None => Err(CommonError::Other(f())),
        }
    }
}

} // verus!
