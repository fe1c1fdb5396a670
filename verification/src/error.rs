//! Errors reported by the scheduling toolbox.
use vstd::prelude::*;
use vstd::std_specs::convert::FromSpecImpl;
use vstd::string::*;

verus! {

#[verifier::external_type_specification]
#[verifier::external_body]
pub struct ExConfigError(config::ConfigError);

#[verifier::external_type_specification]
#[verifier::external_body]
#[verifier::reject_recursive_types(T)]
pub struct ExSendError<T>(tokio::sync::mpsc::error::SendError<T>);

/// Represents errors that can occur within the toolbox.
#[derive(Debug)]
pub enum ToolboxError {
    /// This variant is used when there's an error loading the configuration, encapsulating the error details.
    Config {
        /// wrapper for the underlying error source
        source: config::ConfigError,
    },
    /// Used to indicate a failure when converting types
    Conversion(
        /// Information about the failure
        String,
    ),
    /// Actor closed error
    ActorClosed(String),
}

/// Encapsulates the outcome of an operation that might produce a result of type `T` or an error of type `ToolboxError`.
pub type ToolboxResult<T = ()> = Result<T, ToolboxError>;

/// The text of the `Display` form of a `config::ConfigError`.
pub uninterp spec fn config_error_display(source: config::ConfigError) -> Seq<char>;

/// Text of the `Display` form of a `config::ConfigError`, which depends on nothing but the
/// error. What the text says is left open.
#[verifier::external_body]
fn config_error_text(source: &config::ConfigError) -> (text: String)
    ensures
        text@ == config_error_display(*source),
{
    format!("{}", source)
}

/// Text of the `Display` form of a `tokio::sync::mpsc::error::SendError`, which is the same
/// for every such error: that the channel is closed.
#[verifier::external_body]
fn send_error_text<T>(error: &tokio::sync::mpsc::error::SendError<T>) -> (text: String)
    ensures
        text@ == "channel closed"@,
{
    format!("{}", error)
}

impl<T> From<tokio::sync::mpsc::error::SendError<T>> for ToolboxError {
    /// A message that could not be sent means that the actor is gone.
    fn from(value: tokio::sync::mpsc::error::SendError<T>) -> (e: Self)
        ensures
            e matches ToolboxError::ActorClosed(detail) && detail@
                == "Unable to communicate with actor "@ + "channel closed"@,
    {
        let text = send_error_text(&value);
        ToolboxError::ActorClosed(
            String::from_str("Unable to communicate with actor ").concat(text.as_str()),
        )
    }
}

impl<T> FromSpecImpl<tokio::sync::mpsc::error::SendError<T>> for ToolboxError {
    open spec fn obeys_from_spec() -> bool {
        false
    }

    open spec fn from_spec(value: tokio::sync::mpsc::error::SendError<T>) -> Self {
        ToolboxError::ActorClosed(arbitrary())
    }
}

impl From<config::ConfigError> for ToolboxError {
    fn from(source: config::ConfigError) -> (e: Self) {
        ToolboxError::Config { source }
    }
}

impl FromSpecImpl<config::ConfigError> for ToolboxError {
    open spec fn obeys_from_spec() -> bool {
        true
    }

    open spec fn from_spec(source: config::ConfigError) -> Self {
        ToolboxError::Config { source }
    }
}

impl ToolboxError {
    /// What the error reads as, without its detail.
    pub open spec fn spec_prefix(&self) -> Seq<char> {
        match self {
            ToolboxError::Config { .. } => "Error loading config "@,
            ToolboxError::Conversion(_) => "Conversion error "@,
            ToolboxError::ActorClosed(_) => "Unable to communicate with actor "@,
        }
    }

    /// The text that describes the error: a prefix that names the kind, then the detail.
    /// For `Conversion` and `ActorClosed` the detail is the carried string; for `Config` it is
    /// the source error's own text, as its `Display` form gives it.
    pub fn message(&self) -> (text: String)
        ensures
            text@.len() >= self.spec_prefix().len(),
            text@.subrange(0, self.spec_prefix().len() as int) == self.spec_prefix(),
            self matches ToolboxError::Config { source } ==> text@ == self.spec_prefix()
                + config_error_display(*source),
            self matches ToolboxError::Conversion(detail) ==> text@ == self.spec_prefix() + detail@,
            self matches ToolboxError::ActorClosed(detail) ==> text@ == self.spec_prefix() + detail@,
    {
        match self {
            ToolboxError::Config { source } => {
                let detail = config_error_text(source);
                let text = String::from_str("Error loading config ").concat(detail.as_str());
                assert(text@.subrange(0, self.spec_prefix().len() as int) =~= self.spec_prefix());
                text
            },
            ToolboxError::Conversion(detail) => {
                let text = String::from_str("Conversion error ").concat(detail.as_str());
                assert(text@.subrange(0, self.spec_prefix().len() as int) =~= self.spec_prefix());
                text
            },
            ToolboxError::ActorClosed(detail) => {
                let text = String::from_str("Unable to communicate with actor ").concat(
                    detail.as_str(),
                );
                assert(text@.subrange(0, self.spec_prefix().len() as int) =~= self.spec_prefix());
                text
            },
        }
    }
}

} // verus!
