//! Errors of the application, and the classification of cloud SDK failures
//! into a small fixed taxonomy.
use vstd::prelude::*;

verus! {

/// Errors raised by the EKS service, grouped by who is at fault.
#[derive(Debug, Clone, PartialEq, Eq)]
pub enum AwsEksErrors {
    RequestError(String),
    ServerError(String),
    ClientError(String),
}

/// Errors of a call into the cloud.
#[derive(Debug, Clone, PartialEq, Eq)]
pub enum AwsErrors {
    ConstructionFailure(String),
    TimeoutError(String),
    DispatchError(String),
    ResponseError(String),
    AwsEksErrors(AwsEksErrors),
    UnknownErrors(String),
}

/// Errors of the application.
#[derive(Debug, Clone, PartialEq, Eq)]
pub enum ApplicationErrors {
    ConfigNotFound(String),
    AwsErrors(AwsErrors),
}

/// The taxonomy that every failed probe call falls into.
#[derive(Debug, Clone, Copy, PartialEq, Eq, Structural)]
pub enum ErrorKind {
    /// The client or the request could not be built.
    ConstructionFailure,
    /// No response came within the transport's own timeout.
    TimeoutError,
    /// The request could not be sent.
    DispatchError,
    /// A response came but could not be parsed or validated.
    ResponseError,
    /// The service rejected the request (bad input, access denied, not found).
    ServiceRequestError,
    /// The service reported a server-side or propagation-delay condition.
    ServiceTransientError,
    /// A service error outside the recognised subset, or a configuration error.
    UnknownError,
}

/// The service errors that the EKS API declares.
#[derive(Debug, Clone, Copy, PartialEq, Eq, Structural)]
pub enum EksServiceError {
    AccessDeniedException,
    BadRequestException,
    ClientException,
    InvalidParameterException,
    InvalidRequestException,
    NotFoundException,
    ResourceInUseException,
    ResourceLimitExceededException,
    ResourcePropagationDelayException,
    ServerException,
    ServiceUnavailableException,
    ResourceNotFoundException,
    UnsupportedAvailabilityZoneException,
    /// Any other service error, including those of services other than EKS.
    Unhandled,
}

/// The shape of a failed SDK call: which stage failed, with the rendered
/// error context as message.
#[derive(Debug, Clone, PartialEq, Eq)]
pub enum SdkFailure {
    ConstructionFailure(String),
    TimeoutError(String),
    DispatchFailure(String),
    ResponseError(String),
    ServiceError(EksServiceError, String),
    /// A failure of a kind that the SDK adds later.
    Other,
}

pub open spec fn is_request_error(e: EksServiceError) -> bool {
    e is AccessDeniedException || e is BadRequestException || e is ClientException
        || e is InvalidParameterException || e is InvalidRequestException || e is NotFoundException
}

pub open spec fn is_server_error(e: EksServiceError) -> bool {
    e is ResourceInUseException || e is ResourceLimitExceededException
        || e is ResourcePropagationDelayException || e is ServerException
        || e is ServiceUnavailableException
}

pub open spec fn is_client_error(e: EksServiceError) -> bool {
    e is ResourceNotFoundException || e is UnsupportedAvailabilityZoneException
}

pub open spec fn unknown_service_message() -> Seq<char> {
    "Encountered an unknown error from AWS EKS in service level"@
}

pub open spec fn unknown_constructor_message() -> Seq<char> {
    "Encountered an unknown error from AWS EKS in constructor level"@
}

/// What `uplifted_errors` makes of a failure.
pub open spec fn uplift_spec(f: SdkFailure, r: ApplicationErrors) -> bool {
    match f {
        SdkFailure::ConstructionFailure(m) => r == ApplicationErrors::AwsErrors(
            AwsErrors::ConstructionFailure(m),
        ),
        SdkFailure::TimeoutError(m) => r == ApplicationErrors::AwsErrors(
            AwsErrors::TimeoutError(m),
        ),
        SdkFailure::DispatchFailure(m) => r == ApplicationErrors::AwsErrors(
            AwsErrors::DispatchError(m),
        ),
        SdkFailure::ResponseError(m) => r == ApplicationErrors::AwsErrors(
            AwsErrors::ResponseError(m),
        ),
        SdkFailure::ServiceError(e, m) => if is_request_error(e) {
            r == ApplicationErrors::AwsErrors(AwsErrors::AwsEksErrors(AwsEksErrors::RequestError(m)))
        } else if is_server_error(e) {
            r == ApplicationErrors::AwsErrors(AwsErrors::AwsEksErrors(AwsEksErrors::ServerError(m)))
        } else if is_client_error(e) {
            r == ApplicationErrors::AwsErrors(AwsErrors::AwsEksErrors(AwsEksErrors::ClientError(m)))
        } else {
            r matches ApplicationErrors::AwsErrors(AwsErrors::UnknownErrors(u))
                && u@ == unknown_service_message()
        },
        SdkFailure::Other => r matches ApplicationErrors::AwsErrors(AwsErrors::UnknownErrors(u))
            && u@ == unknown_constructor_message(),
    }
}

/// Classifies a failed SDK call: the transport stages keep their own kind,
/// the EKS service errors are grouped into request, server and client errors,
/// and anything else becomes an unknown error.
pub fn uplifted_errors(aws_err: SdkFailure) -> (r: ApplicationErrors)
    ensures
        uplift_spec(aws_err, r),
{
    match aws_err {
        SdkFailure::ConstructionFailure(m) => ApplicationErrors::AwsErrors(
            AwsErrors::ConstructionFailure(m),
        ),
        SdkFailure::TimeoutError(m) => ApplicationErrors::AwsErrors(AwsErrors::TimeoutError(m)),
        SdkFailure::DispatchFailure(m) => ApplicationErrors::AwsErrors(AwsErrors::DispatchError(m)),
        SdkFailure::ResponseError(m) => ApplicationErrors::AwsErrors(AwsErrors::ResponseError(m)),
        SdkFailure::ServiceError(e, m) => match e {
            EksServiceError::AccessDeniedException
            | EksServiceError::BadRequestException
            | EksServiceError::ClientException
            | EksServiceError::InvalidParameterException
            | EksServiceError::InvalidRequestException
            | EksServiceError::NotFoundException => ApplicationErrors::AwsErrors(
                AwsErrors::AwsEksErrors(AwsEksErrors::RequestError(m)),
            ),
            EksServiceError::ResourceInUseException
            | EksServiceError::ResourceLimitExceededException
            | EksServiceError::ResourcePropagationDelayException
            | EksServiceError::ServerException
            | EksServiceError::ServiceUnavailableException => ApplicationErrors::AwsErrors(
                AwsErrors::AwsEksErrors(AwsEksErrors::ServerError(m)),
            ),
            EksServiceError::ResourceNotFoundException
            | EksServiceError::UnsupportedAvailabilityZoneException => ApplicationErrors::AwsErrors(
                AwsErrors::AwsEksErrors(AwsEksErrors::ClientError(m)),
            ),
            EksServiceError::Unhandled => ApplicationErrors::AwsErrors(
                AwsErrors::UnknownErrors(
                    String::from_str("Encountered an unknown error from AWS EKS in service level"),
                ),
            ),
        },
        SdkFailure::Other => ApplicationErrors::AwsErrors(
            AwsErrors::UnknownErrors(
                String::from_str("Encountered an unknown error from AWS EKS in constructor level"),
            ),
        ),
    }
}

/// The kind of an error in the taxonomy.
pub open spec fn kind_of(e: ApplicationErrors) -> ErrorKind {
    match e {
        ApplicationErrors::ConfigNotFound(_) => ErrorKind::UnknownError,
        ApplicationErrors::AwsErrors(a) => match a {
            AwsErrors::ConstructionFailure(_) => ErrorKind::ConstructionFailure,
            AwsErrors::TimeoutError(_) => ErrorKind::TimeoutError,
            AwsErrors::DispatchError(_) => ErrorKind::DispatchError,
            AwsErrors::ResponseError(_) => ErrorKind::ResponseError,
            AwsErrors::AwsEksErrors(AwsEksErrors::ServerError(_)) => ErrorKind::ServiceTransientError,
            AwsErrors::AwsEksErrors(_) => ErrorKind::ServiceRequestError,
            AwsErrors::UnknownErrors(_) => ErrorKind::UnknownError,
        },
    }
}

/// The text an error is shown with.
pub open spec fn message_of(e: ApplicationErrors) -> Seq<char> {
    match e {
        ApplicationErrors::ConfigNotFound(m) => m@,
        ApplicationErrors::AwsErrors(a) => "Error: "@ + match a {
            AwsErrors::ConstructionFailure(m) => m@,
            AwsErrors::TimeoutError(m) => m@,
            AwsErrors::DispatchError(m) => m@,
            AwsErrors::ResponseError(m) => m@,
            AwsErrors::AwsEksErrors(AwsEksErrors::RequestError(m)) => m@,
            AwsErrors::AwsEksErrors(AwsEksErrors::ServerError(m)) => m@,
            AwsErrors::AwsEksErrors(AwsEksErrors::ClientError(m)) => m@,
            AwsErrors::UnknownErrors(m) => m@,
        },
    }
}

impl ApplicationErrors {
    /// The kind of this error in the taxonomy.
    pub fn kind(&self) -> (r: ErrorKind)
        ensures
            r == kind_of(*self),
    {
        match self {
            ApplicationErrors::ConfigNotFound(_) => ErrorKind::UnknownError,
            ApplicationErrors::AwsErrors(a) => match a {
                AwsErrors::ConstructionFailure(_) => ErrorKind::ConstructionFailure,
                AwsErrors::TimeoutError(_) => ErrorKind::TimeoutError,
                AwsErrors::DispatchError(_) => ErrorKind::DispatchError,
                AwsErrors::ResponseError(_) => ErrorKind::ResponseError,
                AwsErrors::AwsEksErrors(AwsEksErrors::ServerError(_)) => ErrorKind::ServiceTransientError,
                AwsErrors::AwsEksErrors(_) => ErrorKind::ServiceRequestError,
                AwsErrors::UnknownErrors(_) => ErrorKind::UnknownError,
            },
        }
    }

    /// The text this error is shown with.
    pub fn to_string(&self) -> (r: String)
        ensures
            r@ == message_of(*self),
    {
        match self {
            ApplicationErrors::ConfigNotFound(m) => m.clone(),
            ApplicationErrors::AwsErrors(a) => {
                let inner = match a {
                    AwsErrors::ConstructionFailure(m) => m,
                    AwsErrors::TimeoutError(m) => m,
                    AwsErrors::DispatchError(m) => m,
                    AwsErrors::ResponseError(m) => m,
                    AwsErrors::AwsEksErrors(AwsEksErrors::RequestError(m)) => m,
                    AwsErrors::AwsEksErrors(AwsEksErrors::ServerError(m)) => m,
                    AwsErrors::AwsEksErrors(AwsEksErrors::ClientError(m)) => m,
                    AwsErrors::UnknownErrors(m) => m,
                };
                let mut s = String::from_str("Error: ");
                s.append(inner.as_str());
                s
            },
        }
    }

    /// An error of a response that came but does not hold what was asked.
    pub fn malformed_response(message: &str) -> (r: ApplicationErrors)
        ensures
            r == ApplicationErrors::AwsErrors(AwsErrors::ResponseError(r->AwsErrors_0->ResponseError_0)),
            r->AwsErrors_0->ResponseError_0@ == message@,
    {
        ApplicationErrors::AwsErrors(AwsErrors::ResponseError(String::from_str(message)))
    }
}

} // verus!
