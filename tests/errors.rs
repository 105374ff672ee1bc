use amanami::errors::{
    uplifted_errors, ApplicationErrors, AwsEksErrors, AwsErrors, EksServiceError, ErrorKind, SdkFailure,
};

#[test]
fn transport_stages_keep_their_kind() {
    let m = || "context".to_string();
    assert_eq!(
        uplifted_errors(SdkFailure::ConstructionFailure(m())),
        ApplicationErrors::AwsErrors(AwsErrors::ConstructionFailure(m()))
    );
    assert_eq!(
        uplifted_errors(SdkFailure::TimeoutError(m())),
        ApplicationErrors::AwsErrors(AwsErrors::TimeoutError(m()))
    );
    assert_eq!(
        uplifted_errors(SdkFailure::DispatchFailure(m())),
        ApplicationErrors::AwsErrors(AwsErrors::DispatchError(m()))
    );
    assert_eq!(
        uplifted_errors(SdkFailure::ResponseError(m())),
        ApplicationErrors::AwsErrors(AwsErrors::ResponseError(m()))
    );
}

#[test]
fn service_errors_are_grouped() {
    let m = || "denied".to_string();
    let e = uplifted_errors(SdkFailure::ServiceError(EksServiceError::AccessDeniedException, m()));
    assert_eq!(e, ApplicationErrors::AwsErrors(AwsErrors::AwsEksErrors(AwsEksErrors::RequestError(m()))));
    assert_eq!(e.kind(), ErrorKind::ServiceRequestError);
    let e = uplifted_errors(SdkFailure::ServiceError(EksServiceError::ServiceUnavailableException, m()));
    assert_eq!(e, ApplicationErrors::AwsErrors(AwsErrors::AwsEksErrors(AwsEksErrors::ServerError(m()))));
    assert_eq!(e.kind(), ErrorKind::ServiceTransientError);
    let e = uplifted_errors(SdkFailure::ServiceError(EksServiceError::ResourceNotFoundException, m()));
    assert_eq!(e, ApplicationErrors::AwsErrors(AwsErrors::AwsEksErrors(AwsEksErrors::ClientError(m()))));
    assert_eq!(e.kind(), ErrorKind::ServiceRequestError);
}

#[test]
fn unknown_errors_carry_fixed_messages() {
    let e = uplifted_errors(SdkFailure::ServiceError(EksServiceError::Unhandled, "x".to_string()));
    assert_eq!(e.kind(), ErrorKind::UnknownError);
    assert_eq!(e.to_string(), "Error: Encountered an unknown error from AWS EKS in service level");
    let e = uplifted_errors(SdkFailure::Other);
    assert_eq!(e.to_string(), "Error: Encountered an unknown error from AWS EKS in constructor level");
}

#[test]
fn error_texts_and_kinds() {
    let e = ApplicationErrors::ConfigNotFound("no config".to_string());
    assert_eq!(e.to_string(), "no config");
    assert_eq!(e.kind(), ErrorKind::UnknownError);
    let e = ApplicationErrors::AwsErrors(AwsErrors::TimeoutError("slow".to_string()));
    assert_eq!(e.to_string(), "Error: slow");
    assert_eq!(e.kind(), ErrorKind::TimeoutError);
    let e = ApplicationErrors::malformed_response("bad");
    assert_eq!(e.kind(), ErrorKind::ResponseError);
}
