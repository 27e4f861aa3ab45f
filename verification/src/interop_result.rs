use vstd::prelude::*;

verus! {

/// Stable error-kind discriminant the host can branch on. Backend failures
/// keep their own code beside the kind (see `InteropError::backend_code`), so
/// classification loses nothing.
#[derive(Clone, Copy, PartialEq, Eq, Structural, Debug)]
pub enum InteropErrorKind {
    /// Caller-supplied parameters violate a cross-parameter invariant.
    Validation,
    OutOfHostMemory,
    OutOfDeviceMemory,
    InitializationFailed,
    DeviceLost,
    MemoryMapFailed,
    LayerNotPresent,
    ExtensionNotPresent,
    FeatureNotPresent,
    IncompatibleDriver,
    TooManyObjects,
    FormatNotSupported,
    /// A backend code this boundary does not distinguish further.
    Unknown,
}

/// How a raw backend result code is classified into the stable discriminants.
pub open spec fn classify_spec(code: i32) -> InteropErrorKind {
    if code == -1 {
        InteropErrorKind::OutOfHostMemory
    } else if code == -2 {
        InteropErrorKind::OutOfDeviceMemory
    } else if code == -3 {
        InteropErrorKind::InitializationFailed
    } else if code == -4 {
        InteropErrorKind::DeviceLost
    } else if code == -5 {
        InteropErrorKind::MemoryMapFailed
    } else if code == -6 {
        InteropErrorKind::LayerNotPresent
    } else if code == -7 {
        InteropErrorKind::ExtensionNotPresent
    } else if code == -8 {
        InteropErrorKind::FeatureNotPresent
    } else if code == -9 {
        InteropErrorKind::IncompatibleDriver
    } else if code == -10 {
        InteropErrorKind::TooManyObjects
    } else if code == -11 {
        InteropErrorKind::FormatNotSupported
    } else {
        InteropErrorKind::Unknown
    }
}

/// Classify a raw backend result code into a stable error kind.
pub fn classify_backend_code(code: i32) -> (r: InteropErrorKind)
    ensures
        r == classify_spec(code),
{
    match code {
        -1 => InteropErrorKind::OutOfHostMemory,
        -2 => InteropErrorKind::OutOfDeviceMemory,
        -3 => InteropErrorKind::InitializationFailed,
        -4 => InteropErrorKind::DeviceLost,
        -5 => InteropErrorKind::MemoryMapFailed,
        -6 => InteropErrorKind::LayerNotPresent,
        -7 => InteropErrorKind::ExtensionNotPresent,
        -8 => InteropErrorKind::FeatureNotPresent,
        -9 => InteropErrorKind::IncompatibleDriver,
        -10 => InteropErrorKind::TooManyObjects,
        -11 => InteropErrorKind::FormatNotSupported,
        _ => InteropErrorKind::Unknown,
    }
}

/// Structured error record carried across the boundary: a stable kind, the
/// underlying backend code where one exists (0 otherwise), and a
/// human-readable message.
pub struct InteropError {
    pub kind: InteropErrorKind,
    pub backend_code: i32,
    pub message: String,
}

impl InteropError {
    /// Build the error for a failure the backend reported with `code`.
    pub fn from_backend(code: i32) -> (r: InteropError)
        ensures
            r.kind == classify_spec(code),
            r.backend_code == code,
    {
        InteropError {
            kind: classify_backend_code(code),
            backend_code: code,
            message: "backend operation failed".to_owned(),
        }
    }

    /// Build a validation error: the parameters themselves were rejected, no
    /// backend code exists.
    pub fn validation(message: &str) -> (r: InteropError)
        ensures
            r.kind == InteropErrorKind::Validation,
            r.backend_code == 0,
            r.message@ == message@,
    {
        InteropError { kind: InteropErrorKind::Validation, backend_code: 0, message: message.to_owned() }
    }
}

/// Tagged envelope carrying either a success payload or a structured error.
/// It is the only sanctioned way a fallible entry point communicates failure
/// across the boundary: no unwind may cross it.
pub enum InteropResult<T> {
    Success(T),
    Failure(InteropError),
}

impl<T> InteropResult<T> {
    pub open spec fn is_success(&self) -> bool {
        self matches InteropResult::Success(_)
    }

    pub open spec fn is_failure(&self) -> bool {
        self matches InteropResult::Failure(_)
    }

    /// Wrap a success payload.
    pub fn with_ok(value: T) -> (r: Self)
        ensures
            r == InteropResult::Success(value),
    {
        InteropResult::Success(value)
    }

    /// Wrap a structured error.
    pub fn with_err(error: InteropError) -> (r: Self)
        ensures
            r == InteropResult::<T>::Failure(error),
    {
        InteropResult::Failure(error)
    }

    pub fn is_ok(&self) -> (r: bool)
        ensures
            r == self.is_success(),
    {
        match self {
            InteropResult::Success(_) => true,
            InteropResult::Failure(_) => false,
        }
    }

    /// Take the success payload out of the envelope.
    pub fn into_ok(self) -> (r: T)
        requires
            self.is_success(),
        ensures
            self == InteropResult::Success(r),
    {
        match self {
            InteropResult::Success(value) => value,
            InteropResult::Failure(_) => vstd::pervasive::unreached(),
        }
    }

    /// Take the error out of the envelope.
    pub fn into_err(self) -> (r: InteropError)
        requires
            self.is_failure(),
        ensures
            self == InteropResult::<T>::Failure(r),
    {
        match self {
            InteropResult::Success(_) => vstd::pervasive::unreached(),
            InteropResult::Failure(error) => error,
        }
    }
}

/// Law: every envelope is exactly one of success and failure; the two are
/// mutually exclusive for every constructed instance.
pub proof fn lemma_result_exclusive<T>(r: InteropResult<T>)
    ensures
        r.is_success() <==> !r.is_failure(),
{
}

} // verus!
