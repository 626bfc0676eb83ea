//! The error taxonomy of the domain layer and of the application layer.

use vstd::prelude::*;
use vstd::std_specs::convert::FromSpecImpl;
use vstd::string::StringExecFns;

verus! {

/// What went wrong inside the domain.
#[derive(Debug, PartialEq, Eq)]
pub enum DomainError {
    /// Malformed input: an identifier out of range, an empty content.
    Validation(String),
    /// The referenced user or diary does not exist.
    NotFound { entity_type: &'static str, user_id: String },
    /// A collaborator (storage, transport) failed; the text names the cause.
    InfrastructureError(String),
    /// Anything that fits none of the other classes.
    Unexpected(String),
}

/// What went wrong while serving a request.
#[derive(Debug, PartialEq, Eq)]
pub enum ApplicationError {
    /// Malformed input: an identifier out of range, an empty content.
    Validation(String),
    /// The referenced user or diary does not exist.
    NotFound { entity_type: &'static str, user_id: String },
    /// A collaborator (storage, transport) failed; the text names the cause.
    InfrastructureError(String),
    /// A branch of the fan-out did not complete, or anything unclassified.
    Unexpected(String),
}

/// The sentence that reports a missing entity.
pub open spec fn not_found_text(entity_type: Seq<char>, user_id: Seq<char>) -> Seq<char> {
    entity_type + " was not found for user_id \""@ + user_id + "\"."@
}

/// Builds the sentence that reports a missing entity.
pub fn not_found_message(entity_type: &str, user_id: &str) -> (r: String)
    ensures
        r@ == not_found_text(entity_type@, user_id@),
{
    let mut r = String::from_str(entity_type);
    r.append(" was not found for user_id \"");
    r.append(user_id);
    r.append("\".");
    r
}

impl DomainError {
    /// Whether this is a validation error with exactly the text `text`.
    pub open spec fn is_validation(self, text: Seq<char>) -> bool {
        self matches DomainError::Validation(m) && m@ == text
    }

    /// The text that describes this error.
    pub open spec fn message_text(self) -> Seq<char> {
        match self {
            DomainError::Validation(m) => m@,
            DomainError::NotFound { entity_type, user_id } => not_found_text(
                entity_type@,
                user_id@,
            ),
            DomainError::InfrastructureError(m) => m@,
            DomainError::Unexpected(m) => m@,
        }
    }

    /// The error that reports the failure of a collaborator: `description`
    /// is the sentence in which the collaborator says what went wrong, and it
    /// becomes the text of the error as it is.
    pub fn infrastructure(description: String) -> (r: DomainError)
        ensures
            r == DomainError::InfrastructureError(description),
            r.message_text() == description@,
    {
        DomainError::InfrastructureError(description)
    }

    /// The text that describes this error.
    pub fn message(&self) -> (r: String)
        ensures
            r@ == self.message_text(),
    {
        match self {
            DomainError::Validation(m) => m.clone(),
            DomainError::NotFound { entity_type, user_id } => not_found_message(
                entity_type,
                user_id.as_str(),
            ),
            DomainError::InfrastructureError(m) => m.clone(),
            DomainError::Unexpected(m) => m.clone(),
        }
    }
}

impl ApplicationError {
    /// Whether this is a validation error with exactly the text `text`.
    pub open spec fn is_validation(self, text: Seq<char>) -> bool {
        self matches ApplicationError::Validation(m) && m@ == text
    }

    /// The text that describes this error.
    pub open spec fn message_text(self) -> Seq<char> {
        match self {
            ApplicationError::Validation(m) => m@,
            ApplicationError::NotFound { entity_type, user_id } => not_found_text(
                entity_type@,
                user_id@,
            ),
            ApplicationError::InfrastructureError(m) => m@,
            ApplicationError::Unexpected(m) => m@,
        }
    }

    /// The text that describes this error.
    pub fn message(&self) -> (r: String)
        ensures
            r@ == self.message_text(),
    {
        match self {
            ApplicationError::Validation(m) => m.clone(),
            ApplicationError::NotFound { entity_type, user_id } => not_found_message(
                entity_type,
                user_id.as_str(),
            ),
            ApplicationError::InfrastructureError(m) => m.clone(),
            ApplicationError::Unexpected(m) => m.clone(),
        }
    }
}

impl Clone for DomainError {
    fn clone(&self) -> (r: Self)
        ensures
            r == *self,
    {
        match self {
            DomainError::Validation(m) => DomainError::Validation(m.clone()),
            DomainError::NotFound { entity_type, user_id } => DomainError::NotFound {
                entity_type: *entity_type,
                user_id: user_id.clone(),
            },
            DomainError::InfrastructureError(m) => DomainError::InfrastructureError(m.clone()),
            DomainError::Unexpected(m) => DomainError::Unexpected(m.clone()),
        }
    }
}

impl Clone for ApplicationError {
    fn clone(&self) -> (r: Self)
        ensures
            r == *self,
    {
        match self {
            ApplicationError::Validation(m) => ApplicationError::Validation(m.clone()),
            ApplicationError::NotFound { entity_type, user_id } => ApplicationError::NotFound {
                entity_type: *entity_type,
                user_id: user_id.clone(),
            },
            ApplicationError::InfrastructureError(m) => ApplicationError::InfrastructureError(
                m.clone(),
            ),
            ApplicationError::Unexpected(m) => ApplicationError::Unexpected(m.clone()),
        }
    }
}

impl From<DomainError> for ApplicationError {
    /// Carries a domain error over, class by class.
    fn from(err: DomainError) -> (r: ApplicationError) {
        match err {
            DomainError::Validation(message) => ApplicationError::Validation(message),
            DomainError::NotFound { entity_type, user_id } => ApplicationError::NotFound {
                entity_type,
                user_id,
            },
            DomainError::InfrastructureError(message) => ApplicationError::InfrastructureError(
                message,
            ),
            DomainError::Unexpected(message) => ApplicationError::Unexpected(message),
        }
    }
}

/// The application error that stands for a domain error: the same class, the
/// same fields.
pub open spec fn lifted(err: DomainError) -> ApplicationError {
    match err {
        DomainError::Validation(message) => ApplicationError::Validation(message),
        DomainError::NotFound { entity_type, user_id } => ApplicationError::NotFound {
            entity_type,
            user_id,
        },
        DomainError::InfrastructureError(message) => ApplicationError::InfrastructureError(
            message,
        ),
        DomainError::Unexpected(message) => ApplicationError::Unexpected(message),
    }
}

impl FromSpecImpl<DomainError> for ApplicationError {
    open spec fn obeys_from_spec() -> bool {
        true
    }

    open spec fn from_spec(err: DomainError) -> ApplicationError {
        lifted(err)
    }
}

/// Carrying a domain error over keeps its class and its text.
pub proof fn lemma_from_keeps_message(err: DomainError)
    ensures
        lifted(err).message_text() == err.message_text(),
        lifted(err) is Validation <==> err is Validation,
        lifted(err) is NotFound <==> err is NotFound,
        lifted(err) is InfrastructureError <==> err is InfrastructureError,
        lifted(err) is Unexpected <==> err is Unexpected,
{
}

} // verus!
