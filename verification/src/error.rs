//! Application errors and the messages shown to the user.
use vstd::prelude::*;

verus! {

/// What went wrong, and where.
#[derive(Debug)]
pub enum AppError {
    Provider { operation: String, provider: String, message: String },
    Persistence { operation: String, message: String },
    Config(String),
    Generation(String),
    /// Any other error, by its message.
    Other(String),
}

/// The message shown to the user: for provider and persistence errors
/// "<operation> failed: <message>", otherwise the message itself.
pub open spec fn safe_message_spec(e: AppError) -> Seq<char> {
    match e {
        AppError::Provider { operation, message, .. } => operation@ + " failed: "@ + message@,
        AppError::Persistence { operation, message } => operation@ + " failed: "@ + message@,
        AppError::Config(m) => m@,
        AppError::Generation(m) => m@,
        AppError::Other(m) => m@,
    }
}

/// The full description of an error.
pub open spec fn describe_spec(e: AppError) -> Seq<char> {
    match e {
        AppError::Provider { operation, message, .. } => "provider error in "@ + operation@ + ": "@
            + message@,
        AppError::Persistence { operation, message } => "persistence error in "@ + operation@
            + ": "@ + message@,
        AppError::Config(m) => "configuration error: "@ + m@,
        AppError::Generation(m) => "generation error: "@ + m@,
        AppError::Other(m) => m@,
    }
}

impl AppError {
    /// A provider error.
    pub fn provider(operation: &str, provider: &str, message: &str) -> (r: Self)
        ensures
            r matches AppError::Provider { operation: o, provider: p, message: m } && o@
                == operation@ && p@ == provider@ && m@ == message@,
    {
        AppError::Provider {
            operation: crate::text::owned(operation),
            provider: crate::text::owned(provider),
            message: crate::text::owned(message),
        }
    }

    /// A persistence error.
    pub fn persistence(operation: &str, message: &str) -> (r: Self)
        ensures
            r matches AppError::Persistence { operation: o, message: m } && o@ == operation@ && m@
                == message@,
    {
        AppError::Persistence {
            operation: crate::text::owned(operation),
            message: crate::text::owned(message),
        }
    }

    /// The message shown to the user (see `safe_message_spec`).
    pub fn safe_message(&self) -> (r: String)
        ensures
            r@ == safe_message_spec(*self),
    {
        match self {
            AppError::Provider { operation, message, .. } => crate::text::join3(
                operation.as_str(),
                " failed: ",
                message.as_str(),
            ),
            AppError::Persistence { operation, message } => crate::text::join3(
                operation.as_str(),
                " failed: ",
                message.as_str(),
            ),
            AppError::Config(m) => m.clone(),
            AppError::Generation(m) => m.clone(),
            AppError::Other(m) => m.clone(),
        }
    }

    /// The full description of the error (see `describe_spec`).
    pub fn describe(&self) -> (r: String)
        ensures
            r@ == describe_spec(*self),
    {
        match self {
            AppError::Provider { operation, message, .. } => {
                let mut s = crate::text::join3("provider error in ", operation.as_str(), ": ");
                s.append(message.as_str());
                s
            },
            AppError::Persistence { operation, message } => {
                let mut s = crate::text::join3("persistence error in ", operation.as_str(), ": ");
                s.append(message.as_str());
                s
            },
            AppError::Config(m) => crate::text::join2("configuration error: ", m.as_str()),
            AppError::Generation(m) => crate::text::join2("generation error: ", m.as_str()),
            AppError::Other(m) => m.clone(),
        }
    }
}

} // verus!
