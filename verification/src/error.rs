//! Typed errors of the binding and the translation of native failures.
//!
//! A native call that fails reports a pass/fail status; the failing wand then
//! carries an exception, queried as a severity code and a description
//! buffer. [`exception_from_native`] is the one place where that native
//! state becomes a typed [`Error`]: the severity code picks the
//! [`ExceptionType`] category, the description bytes become an owned string,
//! and the two policies the binding fixes — a missing description synthesizes
//! an unknown-exception value, and a description that is not valid UTF-8 is
//! rejected as its own error, never substituted silently — are stated in its
//! contract.

use vstd::prelude::*;
use vstd::string::StringExecFns;
use vstd::utf8::{decode_utf8, valid_utf8};

verus! {

/// The native status code a passing call returns.
pub const MAGICK_PASS: u32 = 1;

/// The native status code a failing call returns.
pub const MAGICK_FAIL: u32 = 0;

/// The category of a native exception: which subsystem reported it and at which severity (event, warning, error or fatal error).
///
/// <http://www.graphicsmagick.org/api/types.html#exceptiontype>
#[derive(Debug, Clone, Copy, PartialEq, Eq, Structural)]
pub enum ExceptionType {
    UndefinedException,
    EventException,
    ExceptionEvent,
    /// The native header also names this value ResourceLimitEvent.
    ResourceEvent,
    /// The native header also names this value AnnotateEvent.
    TypeEvent,
    OptionEvent,
    DelegateEvent,
    MissingDelegateEvent,
    CorruptImageEvent,
    FileOpenEvent,
    BlobEvent,
    StreamEvent,
    CacheEvent,
    CoderEvent,
    ModuleEvent,
    /// The native header also names this value RenderEvent.
    DrawEvent,
    ImageEvent,
    WandEvent,
    TemporaryFileEvent,
    TransformEvent,
    XServerEvent,
    X11Event,
    UserEvent,
    MonitorEvent,
    LocaleEvent,
    DeprecateEvent,
    RegistryEvent,
    ConfigureEvent,
    WarningException,
    ExceptionWarning,
    /// The native header also names this value ResourceLimitWarning.
    ResourceWarning,
    /// The native header also names this value AnnotateWarning.
    TypeWarning,
    OptionWarning,
    DelegateWarning,
    MissingDelegateWarning,
    CorruptImageWarning,
    FileOpenWarning,
    BlobWarning,
    StreamWarning,
    CacheWarning,
    CoderWarning,
    ModuleWarning,
    /// The native header also names this value RenderWarning.
    DrawWarning,
    ImageWarning,
    WandWarning,
    TemporaryFileWarning,
    TransformWarning,
    XServerWarning,
    X11Warning,
    UserWarning,
    MonitorWarning,
    LocaleWarning,
    DeprecateWarning,
    RegistryWarning,
    ConfigureWarning,
    ErrorException,
    ExceptionError,
    /// The native header also names this value ResourceLimitError.
    ResourceError,
    /// The native header also names this value AnnotateError.
    TypeError,
    OptionError,
    DelegateError,
    MissingDelegateError,
    CorruptImageError,
    FileOpenError,
    BlobError,
    StreamError,
    CacheError,
    CoderError,
    ModuleError,
    /// The native header also names this value RenderError.
    DrawError,
    ImageError,
    WandError,
    TemporaryFileError,
    TransformError,
    XServerError,
    X11Error,
    UserError,
    MonitorError,
    LocaleError,
    DeprecateError,
    RegistryError,
    ConfigureError,
    FatalErrorException,
    ExceptionFatalError,
    /// The native header also names this value ResourceLimitFatalError.
    ResourceFatalError,
    /// The native header also names this value AnnotateFatalError.
    TypeFatalError,
    OptionFatalError,
    DelegateFatalError,
    MissingDelegateFatalError,
    CorruptImageFatalError,
    FileOpenFatalError,
    BlobFatalError,
    StreamFatalError,
    CacheFatalError,
    CoderFatalError,
    ModuleFatalError,
    /// The native header also names this value RenderFatalError.
    DrawFatalError,
    ImageFatalError,
    WandFatalError,
    TemporaryFileFatalError,
    TransformFatalError,
    XServerFatalError,
    X11FatalError,
    UserFatalError,
    MonitorFatalError,
    LocaleFatalError,
    DeprecateFatalError,
    RegistryFatalError,
    ConfigureFatalError,
    /// Stands for any native value outside the known constants.
    Unknown,
}

impl ExceptionType {
    /// The native integer constant this variant stands for.
    pub open spec fn spec_to_native(self) -> u32 {
        match self {
            ExceptionType::UndefinedException => 0,
            ExceptionType::EventException => 100,
            ExceptionType::ExceptionEvent => 101,
            ExceptionType::ResourceEvent => 102,
            ExceptionType::TypeEvent => 105,
            ExceptionType::OptionEvent => 106,
            ExceptionType::DelegateEvent => 107,
            ExceptionType::MissingDelegateEvent => 108,
            ExceptionType::CorruptImageEvent => 109,
            ExceptionType::FileOpenEvent => 110,
            ExceptionType::BlobEvent => 111,
            ExceptionType::StreamEvent => 112,
            ExceptionType::CacheEvent => 113,
            ExceptionType::CoderEvent => 114,
            ExceptionType::ModuleEvent => 115,
            ExceptionType::DrawEvent => 116,
            ExceptionType::ImageEvent => 117,
            ExceptionType::WandEvent => 118,
            ExceptionType::TemporaryFileEvent => 119,
            ExceptionType::TransformEvent => 120,
            ExceptionType::XServerEvent => 121,
            ExceptionType::X11Event => 122,
            ExceptionType::UserEvent => 123,
            ExceptionType::MonitorEvent => 124,
            ExceptionType::LocaleEvent => 125,
            ExceptionType::DeprecateEvent => 126,
            ExceptionType::RegistryEvent => 127,
            ExceptionType::ConfigureEvent => 128,
            ExceptionType::WarningException => 300,
            ExceptionType::ExceptionWarning => 301,
            ExceptionType::ResourceWarning => 302,
            ExceptionType::TypeWarning => 305,
            ExceptionType::OptionWarning => 306,
            ExceptionType::DelegateWarning => 307,
            ExceptionType::MissingDelegateWarning => 308,
            ExceptionType::CorruptImageWarning => 309,
            ExceptionType::FileOpenWarning => 310,
            ExceptionType::BlobWarning => 311,
            ExceptionType::StreamWarning => 312,
            ExceptionType::CacheWarning => 313,
            ExceptionType::CoderWarning => 314,
            ExceptionType::ModuleWarning => 315,
            ExceptionType::DrawWarning => 316,
            ExceptionType::ImageWarning => 317,
            ExceptionType::WandWarning => 318,
            ExceptionType::TemporaryFileWarning => 319,
            ExceptionType::TransformWarning => 320,
            ExceptionType::XServerWarning => 321,
            ExceptionType::X11Warning => 322,
            ExceptionType::UserWarning => 323,
            ExceptionType::MonitorWarning => 324,
            ExceptionType::LocaleWarning => 325,
            ExceptionType::DeprecateWarning => 326,
            ExceptionType::RegistryWarning => 327,
            ExceptionType::ConfigureWarning => 328,
            ExceptionType::ErrorException => 400,
            ExceptionType::ExceptionError => 401,
            ExceptionType::ResourceError => 402,
            ExceptionType::TypeError => 405,
            ExceptionType::OptionError => 406,
            ExceptionType::DelegateError => 407,
            ExceptionType::MissingDelegateError => 408,
            ExceptionType::CorruptImageError => 409,
            ExceptionType::FileOpenError => 410,
            ExceptionType::BlobError => 411,
            ExceptionType::StreamError => 412,
            ExceptionType::CacheError => 413,
            ExceptionType::CoderError => 414,
            ExceptionType::ModuleError => 415,
            ExceptionType::DrawError => 416,
            ExceptionType::ImageError => 417,
            ExceptionType::WandError => 418,
            ExceptionType::TemporaryFileError => 419,
            ExceptionType::TransformError => 420,
            ExceptionType::XServerError => 421,
            ExceptionType::X11Error => 422,
            ExceptionType::UserError => 423,
            ExceptionType::MonitorError => 424,
            ExceptionType::LocaleError => 425,
            ExceptionType::DeprecateError => 426,
            ExceptionType::RegistryError => 427,
            ExceptionType::ConfigureError => 428,
            ExceptionType::FatalErrorException => 700,
            ExceptionType::ExceptionFatalError => 701,
            ExceptionType::ResourceFatalError => 702,
            ExceptionType::TypeFatalError => 705,
            ExceptionType::OptionFatalError => 706,
            ExceptionType::DelegateFatalError => 707,
            ExceptionType::MissingDelegateFatalError => 708,
            ExceptionType::CorruptImageFatalError => 709,
            ExceptionType::FileOpenFatalError => 710,
            ExceptionType::BlobFatalError => 711,
            ExceptionType::StreamFatalError => 712,
            ExceptionType::CacheFatalError => 713,
            ExceptionType::CoderFatalError => 714,
            ExceptionType::ModuleFatalError => 715,
            ExceptionType::DrawFatalError => 716,
            ExceptionType::ImageFatalError => 717,
            ExceptionType::WandFatalError => 718,
            ExceptionType::TemporaryFileFatalError => 719,
            ExceptionType::TransformFatalError => 720,
            ExceptionType::XServerFatalError => 721,
            ExceptionType::X11FatalError => 722,
            ExceptionType::UserFatalError => 723,
            ExceptionType::MonitorFatalError => 724,
            ExceptionType::LocaleFatalError => 725,
            ExceptionType::DeprecateFatalError => 726,
            ExceptionType::RegistryFatalError => 727,
            ExceptionType::ConfigureFatalError => 728,
            ExceptionType::Unknown => u32::MAX,
        }
    }

    /// The variant standing for the native integer `u`; integers outside
    /// the known constants map to the `Unknown` sentinel.
    pub open spec fn spec_from_native(u: u32) -> ExceptionType {
        if u == 0 {
            ExceptionType::UndefinedException
        } else if u == 100 {
            ExceptionType::EventException
        } else if u == 101 {
            ExceptionType::ExceptionEvent
        } else if u == 102 {
            ExceptionType::ResourceEvent
        } else if u == 105 {
            ExceptionType::TypeEvent
        } else if u == 106 {
            ExceptionType::OptionEvent
        } else if u == 107 {
            ExceptionType::DelegateEvent
        } else if u == 108 {
            ExceptionType::MissingDelegateEvent
        } else if u == 109 {
            ExceptionType::CorruptImageEvent
        } else if u == 110 {
            ExceptionType::FileOpenEvent
        } else if u == 111 {
            ExceptionType::BlobEvent
        } else if u == 112 {
            ExceptionType::StreamEvent
        } else if u == 113 {
            ExceptionType::CacheEvent
        } else if u == 114 {
            ExceptionType::CoderEvent
        } else if u == 115 {
            ExceptionType::ModuleEvent
        } else if u == 116 {
            ExceptionType::DrawEvent
        } else if u == 117 {
            ExceptionType::ImageEvent
        } else if u == 118 {
            ExceptionType::WandEvent
        } else if u == 119 {
            ExceptionType::TemporaryFileEvent
        } else if u == 120 {
            ExceptionType::TransformEvent
        } else if u == 121 {
            ExceptionType::XServerEvent
        } else if u == 122 {
            ExceptionType::X11Event
        } else if u == 123 {
            ExceptionType::UserEvent
        } else if u == 124 {
            ExceptionType::MonitorEvent
        } else if u == 125 {
            ExceptionType::LocaleEvent
        } else if u == 126 {
            ExceptionType::DeprecateEvent
        } else if u == 127 {
            ExceptionType::RegistryEvent
        } else if u == 128 {
            ExceptionType::ConfigureEvent
        } else if u == 300 {
            ExceptionType::WarningException
        } else if u == 301 {
            ExceptionType::ExceptionWarning
        } else if u == 302 {
            ExceptionType::ResourceWarning
        } else if u == 305 {
            ExceptionType::TypeWarning
        } else if u == 306 {
            ExceptionType::OptionWarning
        } else if u == 307 {
            ExceptionType::DelegateWarning
        } else if u == 308 {
            ExceptionType::MissingDelegateWarning
        } else if u == 309 {
            ExceptionType::CorruptImageWarning
        } else if u == 310 {
            ExceptionType::FileOpenWarning
        } else if u == 311 {
            ExceptionType::BlobWarning
        } else if u == 312 {
            ExceptionType::StreamWarning
        } else if u == 313 {
            ExceptionType::CacheWarning
        } else if u == 314 {
            ExceptionType::CoderWarning
        } else if u == 315 {
            ExceptionType::ModuleWarning
        } else if u == 316 {
            ExceptionType::DrawWarning
        } else if u == 317 {
            ExceptionType::ImageWarning
        } else if u == 318 {
            ExceptionType::WandWarning
        } else if u == 319 {
            ExceptionType::TemporaryFileWarning
        } else if u == 320 {
            ExceptionType::TransformWarning
        } else if u == 321 {
            ExceptionType::XServerWarning
        } else if u == 322 {
            ExceptionType::X11Warning
        } else if u == 323 {
            ExceptionType::UserWarning
        } else if u == 324 {
            ExceptionType::MonitorWarning
        } else if u == 325 {
            ExceptionType::LocaleWarning
        } else if u == 326 {
            ExceptionType::DeprecateWarning
        } else if u == 327 {
            ExceptionType::RegistryWarning
        } else if u == 328 {
            ExceptionType::ConfigureWarning
        } else if u == 400 {
            ExceptionType::ErrorException
        } else if u == 401 {
            ExceptionType::ExceptionError
        } else if u == 402 {
            ExceptionType::ResourceError
        } else if u == 405 {
            ExceptionType::TypeError
        } else if u == 406 {
            ExceptionType::OptionError
        } else if u == 407 {
            ExceptionType::DelegateError
        } else if u == 408 {
            ExceptionType::MissingDelegateError
        } else if u == 409 {
            ExceptionType::CorruptImageError
        } else if u == 410 {
            ExceptionType::FileOpenError
        } else if u == 411 {
            ExceptionType::BlobError
        } else if u == 412 {
            ExceptionType::StreamError
        } else if u == 413 {
            ExceptionType::CacheError
        } else if u == 414 {
            ExceptionType::CoderError
        } else if u == 415 {
            ExceptionType::ModuleError
        } else if u == 416 {
            ExceptionType::DrawError
        } else if u == 417 {
            ExceptionType::ImageError
        } else if u == 418 {
            ExceptionType::WandError
        } else if u == 419 {
            ExceptionType::TemporaryFileError
        } else if u == 420 {
            ExceptionType::TransformError
        } else if u == 421 {
            ExceptionType::XServerError
        } else if u == 422 {
            ExceptionType::X11Error
        } else if u == 423 {
            ExceptionType::UserError
        } else if u == 424 {
            ExceptionType::MonitorError
        } else if u == 425 {
            ExceptionType::LocaleError
        } else if u == 426 {
            ExceptionType::DeprecateError
        } else if u == 427 {
            ExceptionType::RegistryError
        } else if u == 428 {
            ExceptionType::ConfigureError
        } else if u == 700 {
            ExceptionType::FatalErrorException
        } else if u == 701 {
            ExceptionType::ExceptionFatalError
        } else if u == 702 {
            ExceptionType::ResourceFatalError
        } else if u == 705 {
            ExceptionType::TypeFatalError
        } else if u == 706 {
            ExceptionType::OptionFatalError
        } else if u == 707 {
            ExceptionType::DelegateFatalError
        } else if u == 708 {
            ExceptionType::MissingDelegateFatalError
        } else if u == 709 {
            ExceptionType::CorruptImageFatalError
        } else if u == 710 {
            ExceptionType::FileOpenFatalError
        } else if u == 711 {
            ExceptionType::BlobFatalError
        } else if u == 712 {
            ExceptionType::StreamFatalError
        } else if u == 713 {
            ExceptionType::CacheFatalError
        } else if u == 714 {
            ExceptionType::CoderFatalError
        } else if u == 715 {
            ExceptionType::ModuleFatalError
        } else if u == 716 {
            ExceptionType::DrawFatalError
        } else if u == 717 {
            ExceptionType::ImageFatalError
        } else if u == 718 {
            ExceptionType::WandFatalError
        } else if u == 719 {
            ExceptionType::TemporaryFileFatalError
        } else if u == 720 {
            ExceptionType::TransformFatalError
        } else if u == 721 {
            ExceptionType::XServerFatalError
        } else if u == 722 {
            ExceptionType::X11FatalError
        } else if u == 723 {
            ExceptionType::UserFatalError
        } else if u == 724 {
            ExceptionType::MonitorFatalError
        } else if u == 725 {
            ExceptionType::LocaleFatalError
        } else if u == 726 {
            ExceptionType::DeprecateFatalError
        } else if u == 727 {
            ExceptionType::RegistryFatalError
        } else if u == 728 {
            ExceptionType::ConfigureFatalError
        } else {
            ExceptionType::Unknown
        }
    }

    /// Translate this variant to the native integer constant.
    pub fn to_native(self) -> (r: u32)
        ensures
            r == self.spec_to_native(),
    {
        match self {
            ExceptionType::UndefinedException => 0,
            ExceptionType::EventException => 100,
            ExceptionType::ExceptionEvent => 101,
            ExceptionType::ResourceEvent => 102,
            ExceptionType::TypeEvent => 105,
            ExceptionType::OptionEvent => 106,
            ExceptionType::DelegateEvent => 107,
            ExceptionType::MissingDelegateEvent => 108,
            ExceptionType::CorruptImageEvent => 109,
            ExceptionType::FileOpenEvent => 110,
            ExceptionType::BlobEvent => 111,
            ExceptionType::StreamEvent => 112,
            ExceptionType::CacheEvent => 113,
            ExceptionType::CoderEvent => 114,
            ExceptionType::ModuleEvent => 115,
            ExceptionType::DrawEvent => 116,
            ExceptionType::ImageEvent => 117,
            ExceptionType::WandEvent => 118,
            ExceptionType::TemporaryFileEvent => 119,
            ExceptionType::TransformEvent => 120,
            ExceptionType::XServerEvent => 121,
            ExceptionType::X11Event => 122,
            ExceptionType::UserEvent => 123,
            ExceptionType::MonitorEvent => 124,
            ExceptionType::LocaleEvent => 125,
            ExceptionType::DeprecateEvent => 126,
            ExceptionType::RegistryEvent => 127,
            ExceptionType::ConfigureEvent => 128,
            ExceptionType::WarningException => 300,
            ExceptionType::ExceptionWarning => 301,
            ExceptionType::ResourceWarning => 302,
            ExceptionType::TypeWarning => 305,
            ExceptionType::OptionWarning => 306,
            ExceptionType::DelegateWarning => 307,
            ExceptionType::MissingDelegateWarning => 308,
            ExceptionType::CorruptImageWarning => 309,
            ExceptionType::FileOpenWarning => 310,
            ExceptionType::BlobWarning => 311,
            ExceptionType::StreamWarning => 312,
            ExceptionType::CacheWarning => 313,
            ExceptionType::CoderWarning => 314,
            ExceptionType::ModuleWarning => 315,
            ExceptionType::DrawWarning => 316,
            ExceptionType::ImageWarning => 317,
            ExceptionType::WandWarning => 318,
            ExceptionType::TemporaryFileWarning => 319,
            ExceptionType::TransformWarning => 320,
            ExceptionType::XServerWarning => 321,
            ExceptionType::X11Warning => 322,
            ExceptionType::UserWarning => 323,
            ExceptionType::MonitorWarning => 324,
            ExceptionType::LocaleWarning => 325,
            ExceptionType::DeprecateWarning => 326,
            ExceptionType::RegistryWarning => 327,
            ExceptionType::ConfigureWarning => 328,
            ExceptionType::ErrorException => 400,
            ExceptionType::ExceptionError => 401,
            ExceptionType::ResourceError => 402,
            ExceptionType::TypeError => 405,
            ExceptionType::OptionError => 406,
            ExceptionType::DelegateError => 407,
            ExceptionType::MissingDelegateError => 408,
            ExceptionType::CorruptImageError => 409,
            ExceptionType::FileOpenError => 410,
            ExceptionType::BlobError => 411,
            ExceptionType::StreamError => 412,
            ExceptionType::CacheError => 413,
            ExceptionType::CoderError => 414,
            ExceptionType::ModuleError => 415,
            ExceptionType::DrawError => 416,
            ExceptionType::ImageError => 417,
            ExceptionType::WandError => 418,
            ExceptionType::TemporaryFileError => 419,
            ExceptionType::TransformError => 420,
            ExceptionType::XServerError => 421,
            ExceptionType::X11Error => 422,
            ExceptionType::UserError => 423,
            ExceptionType::MonitorError => 424,
            ExceptionType::LocaleError => 425,
            ExceptionType::DeprecateError => 426,
            ExceptionType::RegistryError => 427,
            ExceptionType::ConfigureError => 428,
            ExceptionType::FatalErrorException => 700,
            ExceptionType::ExceptionFatalError => 701,
            ExceptionType::ResourceFatalError => 702,
            ExceptionType::TypeFatalError => 705,
            ExceptionType::OptionFatalError => 706,
            ExceptionType::DelegateFatalError => 707,
            ExceptionType::MissingDelegateFatalError => 708,
            ExceptionType::CorruptImageFatalError => 709,
            ExceptionType::FileOpenFatalError => 710,
            ExceptionType::BlobFatalError => 711,
            ExceptionType::StreamFatalError => 712,
            ExceptionType::CacheFatalError => 713,
            ExceptionType::CoderFatalError => 714,
            ExceptionType::ModuleFatalError => 715,
            ExceptionType::DrawFatalError => 716,
            ExceptionType::ImageFatalError => 717,
            ExceptionType::WandFatalError => 718,
            ExceptionType::TemporaryFileFatalError => 719,
            ExceptionType::TransformFatalError => 720,
            ExceptionType::XServerFatalError => 721,
            ExceptionType::X11FatalError => 722,
            ExceptionType::UserFatalError => 723,
            ExceptionType::MonitorFatalError => 724,
            ExceptionType::LocaleFatalError => 725,
            ExceptionType::DeprecateFatalError => 726,
            ExceptionType::RegistryFatalError => 727,
            ExceptionType::ConfigureFatalError => 728,
            ExceptionType::Unknown => u32::MAX,
        }
    }

    /// Translate a native integer constant to the variant standing for
    /// it, with unrecognized values mapping to `Unknown`.
    pub fn from_native(u: u32) -> (r: ExceptionType)
        ensures
            r == ExceptionType::spec_from_native(u),
    {
        if u == 0 {
            ExceptionType::UndefinedException
        } else if u == 100 {
            ExceptionType::EventException
        } else if u == 101 {
            ExceptionType::ExceptionEvent
        } else if u == 102 {
            ExceptionType::ResourceEvent
        } else if u == 105 {
            ExceptionType::TypeEvent
        } else if u == 106 {
            ExceptionType::OptionEvent
        } else if u == 107 {
            ExceptionType::DelegateEvent
        } else if u == 108 {
            ExceptionType::MissingDelegateEvent
        } else if u == 109 {
            ExceptionType::CorruptImageEvent
        } else if u == 110 {
            ExceptionType::FileOpenEvent
        } else if u == 111 {
            ExceptionType::BlobEvent
        } else if u == 112 {
            ExceptionType::StreamEvent
        } else if u == 113 {
            ExceptionType::CacheEvent
        } else if u == 114 {
            ExceptionType::CoderEvent
        } else if u == 115 {
            ExceptionType::ModuleEvent
        } else if u == 116 {
            ExceptionType::DrawEvent
        } else if u == 117 {
            ExceptionType::ImageEvent
        } else if u == 118 {
            ExceptionType::WandEvent
        } else if u == 119 {
            ExceptionType::TemporaryFileEvent
        } else if u == 120 {
            ExceptionType::TransformEvent
        } else if u == 121 {
            ExceptionType::XServerEvent
        } else if u == 122 {
            ExceptionType::X11Event
        } else if u == 123 {
            ExceptionType::UserEvent
        } else if u == 124 {
            ExceptionType::MonitorEvent
        } else if u == 125 {
            ExceptionType::LocaleEvent
        } else if u == 126 {
            ExceptionType::DeprecateEvent
        } else if u == 127 {
            ExceptionType::RegistryEvent
        } else if u == 128 {
            ExceptionType::ConfigureEvent
        } else if u == 300 {
            ExceptionType::WarningException
        } else if u == 301 {
            ExceptionType::ExceptionWarning
        } else if u == 302 {
            ExceptionType::ResourceWarning
        } else if u == 305 {
            ExceptionType::TypeWarning
        } else if u == 306 {
            ExceptionType::OptionWarning
        } else if u == 307 {
            ExceptionType::DelegateWarning
        } else if u == 308 {
            ExceptionType::MissingDelegateWarning
        } else if u == 309 {
            ExceptionType::CorruptImageWarning
        } else if u == 310 {
            ExceptionType::FileOpenWarning
        } else if u == 311 {
            ExceptionType::BlobWarning
        } else if u == 312 {
            ExceptionType::StreamWarning
        } else if u == 313 {
            ExceptionType::CacheWarning
        } else if u == 314 {
            ExceptionType::CoderWarning
        } else if u == 315 {
            ExceptionType::ModuleWarning
        } else if u == 316 {
            ExceptionType::DrawWarning
        } else if u == 317 {
            ExceptionType::ImageWarning
        } else if u == 318 {
            ExceptionType::WandWarning
        } else if u == 319 {
            ExceptionType::TemporaryFileWarning
        } else if u == 320 {
            ExceptionType::TransformWarning
        } else if u == 321 {
            ExceptionType::XServerWarning
        } else if u == 322 {
            ExceptionType::X11Warning
        } else if u == 323 {
            ExceptionType::UserWarning
        } else if u == 324 {
            ExceptionType::MonitorWarning
        } else if u == 325 {
            ExceptionType::LocaleWarning
        } else if u == 326 {
            ExceptionType::DeprecateWarning
        } else if u == 327 {
            ExceptionType::RegistryWarning
        } else if u == 328 {
            ExceptionType::ConfigureWarning
        } else if u == 400 {
            ExceptionType::ErrorException
        } else if u == 401 {
            ExceptionType::ExceptionError
        } else if u == 402 {
            ExceptionType::ResourceError
        } else if u == 405 {
            ExceptionType::TypeError
        } else if u == 406 {
            ExceptionType::OptionError
        } else if u == 407 {
            ExceptionType::DelegateError
        } else if u == 408 {
            ExceptionType::MissingDelegateError
        } else if u == 409 {
            ExceptionType::CorruptImageError
        } else if u == 410 {
            ExceptionType::FileOpenError
        } else if u == 411 {
            ExceptionType::BlobError
        } else if u == 412 {
            ExceptionType::StreamError
        } else if u == 413 {
            ExceptionType::CacheError
        } else if u == 414 {
            ExceptionType::CoderError
        } else if u == 415 {
            ExceptionType::ModuleError
        } else if u == 416 {
            ExceptionType::DrawError
        } else if u == 417 {
            ExceptionType::ImageError
        } else if u == 418 {
            ExceptionType::WandError
        } else if u == 419 {
            ExceptionType::TemporaryFileError
        } else if u == 420 {
            ExceptionType::TransformError
        } else if u == 421 {
            ExceptionType::XServerError
        } else if u == 422 {
            ExceptionType::X11Error
        } else if u == 423 {
            ExceptionType::UserError
        } else if u == 424 {
            ExceptionType::MonitorError
        } else if u == 425 {
            ExceptionType::LocaleError
        } else if u == 426 {
            ExceptionType::DeprecateError
        } else if u == 427 {
            ExceptionType::RegistryError
        } else if u == 428 {
            ExceptionType::ConfigureError
        } else if u == 700 {
            ExceptionType::FatalErrorException
        } else if u == 701 {
            ExceptionType::ExceptionFatalError
        } else if u == 702 {
            ExceptionType::ResourceFatalError
        } else if u == 705 {
            ExceptionType::TypeFatalError
        } else if u == 706 {
            ExceptionType::OptionFatalError
        } else if u == 707 {
            ExceptionType::DelegateFatalError
        } else if u == 708 {
            ExceptionType::MissingDelegateFatalError
        } else if u == 709 {
            ExceptionType::CorruptImageFatalError
        } else if u == 710 {
            ExceptionType::FileOpenFatalError
        } else if u == 711 {
            ExceptionType::BlobFatalError
        } else if u == 712 {
            ExceptionType::StreamFatalError
        } else if u == 713 {
            ExceptionType::CacheFatalError
        } else if u == 714 {
            ExceptionType::CoderFatalError
        } else if u == 715 {
            ExceptionType::ModuleFatalError
        } else if u == 716 {
            ExceptionType::DrawFatalError
        } else if u == 717 {
            ExceptionType::ImageFatalError
        } else if u == 718 {
            ExceptionType::WandFatalError
        } else if u == 719 {
            ExceptionType::TemporaryFileFatalError
        } else if u == 720 {
            ExceptionType::TransformFatalError
        } else if u == 721 {
            ExceptionType::XServerFatalError
        } else if u == 722 {
            ExceptionType::X11FatalError
        } else if u == 723 {
            ExceptionType::UserFatalError
        } else if u == 724 {
            ExceptionType::MonitorFatalError
        } else if u == 725 {
            ExceptionType::LocaleFatalError
        } else if u == 726 {
            ExceptionType::DeprecateFatalError
        } else if u == 727 {
            ExceptionType::RegistryFatalError
        } else if u == 728 {
            ExceptionType::ConfigureFatalError
        } else {
            ExceptionType::Unknown
        }
    }
}

/// Law: translating any variant to its native constant and back yields the
/// same variant, and translating any known native constant to its variant
/// and back yields the same constant.
#[verifier::rlimit(50)]
pub proof fn lemma_exception_type_round_trip(v: ExceptionType, u: u32)
    ensures
        ExceptionType::spec_from_native(v.spec_to_native()) == v,
        ExceptionType::spec_from_native(u) != ExceptionType::Unknown ==> ExceptionType::spec_from_native(u).spec_to_native() == u,
{
}

/// A native exception translated into an owned (category, description) pair.
#[derive(Debug)]
pub struct Exception {
    kind: ExceptionType,
    description: String,
}

/// The mathematical content of an [`Exception`]: its category and the
/// characters of its description.
pub struct ExceptionView {
    pub kind: ExceptionType,
    pub description: Seq<char>,
}

impl View for Exception {
    type V = ExceptionView;

    closed spec fn view(&self) -> ExceptionView {
        ExceptionView { kind: self.kind, description: self.description@ }
    }
}

impl Exception {
    /// Build an exception value from a category and an owned description.
    pub fn new(kind: ExceptionType, description: String) -> (e: Exception)
        ensures
            e@.kind == kind,
            e@.description == description@,
    {
        Exception { kind, description }
    }

    /// The category of this exception.
    pub fn get_exception_type(&self) -> (k: ExceptionType)
        ensures
            k == self@.kind,
    {
        self.kind
    }

    /// The description the native library reported for this exception.
    pub fn description(&self) -> (d: &String)
        ensures
            d@ == self@.description,
    {
        &self.description
    }
}

impl PartialEq for Exception {
    /// Two exceptions are equal when category and description agree.
    fn eq(&self, other: &Exception) -> (r: bool) {
        self.kind == other.kind && self.description == other.description
    }
}

impl vstd::std_specs::cmp::PartialEqSpecImpl for Exception {
    open spec fn obeys_eq_spec() -> bool {
        true
    }

    open spec fn eq_spec(&self, other: &Exception) -> bool {
        self@.kind == other@.kind && self@.description == other@.description
    }
}

/// An error surfaced by an operation of the binding.
#[derive(Debug)]
pub enum Error {
    /// The native library reported an exception.
    Exception(Exception),
    /// The native library reported an exception whose description bytes were
    /// not valid UTF-8; the category was still translated.
    InvalidDescriptionEncoding { kind: ExceptionType },
}

impl Error {
    /// The exception category carried by this error, whatever its variant.
    pub open spec fn spec_kind(&self) -> ExceptionType {
        match self {
            Error::Exception(e) => e@.kind,
            Error::InvalidDescriptionEncoding { kind } => *kind,
        }
    }

    /// The exception category carried by this error.
    pub fn kind(&self) -> (k: ExceptionType)
        ensures
            k == self.spec_kind(),
    {
        match self {
            Error::Exception(e) => e.get_exception_type(),
            Error::InvalidDescriptionEncoding { kind } => *kind,
        }
    }
}

impl From<Exception> for Error {
    /// Wrap an exception as the error an operation surfaces.
    fn from(e: Exception) -> (r: Error) {
        Error::Exception(e)
    }
}

impl vstd::std_specs::convert::FromSpecImpl<Exception> for Error {
    open spec fn obeys_from_spec() -> bool {
        true
    }

    open spec fn from_spec(e: Exception) -> Error {
        Error::Exception(e)
    }
}

/// Status test applied to every native call that returns a pass/fail code:
/// only the native pass constant counts as success.
pub fn status_is_pass(status: u32) -> (r: bool)
    ensures
        r == (status == MAGICK_PASS),
{
    status == MAGICK_PASS
}

/// Status test of the resource-limit setter, whose native call reports
/// success as any status other than the fail constant.
pub fn status_not_fail(status: u32) -> (r: bool)
    ensures
        r == (status != MAGICK_FAIL),
{
    status != MAGICK_FAIL
}

/// Relies on `String::from_utf8`: it succeeds exactly on UTF-8 input, and
/// the returned string holds the decoded characters of that input.
#[verifier::external_body]
fn string_from_utf8(bytes: Vec<u8>) -> (r: Option<String>)
    ensures
        r is Some <==> valid_utf8(bytes@),
        r is Some ==> r->0@ == decode_utf8(bytes@),
{
    String::from_utf8(bytes).ok()
}

/// Translate the exception state of a failed native call into a typed error.
///
/// `severity` is the native severity code the exception query reported, and
/// `description` the bytes of the description buffer, absent when the query
/// returned no buffer. A missing description yields the undefined category
/// with a fixed placeholder text; a description that is not valid UTF-8 is
/// rejected as [`Error::InvalidDescriptionEncoding`]; otherwise category and
/// description are translated exactly.
pub fn exception_from_native(severity: u32, description: Option<Vec<u8>>) -> (r: Error)
    ensures
        description is None ==> (r matches Error::Exception(e)
            && e@.kind == ExceptionType::UndefinedException
            && e@.description == "Unknown exception"@),
        description matches Some(b) ==> (valid_utf8(b@) ==> (r matches Error::Exception(e)
            && e@.kind == ExceptionType::spec_from_native(severity)
            && e@.description == decode_utf8(b@))),
        description matches Some(b) ==> (!valid_utf8(b@) ==> r == (Error::InvalidDescriptionEncoding {
            kind: ExceptionType::spec_from_native(severity),
        })),
{
    match description {
        Option::None => {
            let text = String::from_str("Unknown exception");
            Error::Exception(Exception::new(ExceptionType::from_native(0), text))
        },
        Option::Some(bytes) => {
            match string_from_utf8(bytes) {
                Option::Some(text) => {
                    Error::Exception(Exception::new(ExceptionType::from_native(severity), text))
                },
                Option::None => {
                    Error::InvalidDescriptionEncoding { kind: ExceptionType::from_native(severity) }
                },
            }
        },
    }
}

} // verus!
