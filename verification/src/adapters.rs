//! What the gRPC service answers: the status code chosen for an error, and
//! the answer to a registration request.

use vstd::prelude::*;
use crate::domain::{StartRegistrationRequest, Usecases, lemma_refusal_message, registration_error_codes, registration_valid};
use crate::messages::{SERVER_ERROR, str_equal, walk_message};
use crate::validation::is_field_walk;

verus! {

/// The gRPC status codes that the service answers errors with.
#[derive(Clone, Copy, Debug, PartialEq, Eq, Structural)]
pub enum StatusCode {
    InvalidArgument,
    Internal,
}

/// A gRPC error status: its code and message.
pub struct GrpcStatus {
    pub code: StatusCode,
    pub message: String,
}

/// The status code for an error with this message: `Internal` for the
/// server-error message, `InvalidArgument` for any other.
pub fn getGrpcStatusCode(error_message: &str) -> (code: StatusCode)
    ensures
        code == (if error_message@ == SERVER_ERROR@ {
            StatusCode::Internal
        } else {
            StatusCode::InvalidArgument
        }),
{
    if str_equal(error_message, SERVER_ERROR) {
        StatusCode::Internal
    } else {
        StatusCode::InvalidArgument
    }
}

/// The answer to a request to verify an email, from the use case's result:
/// its value on success; on any error, an `Internal` status with the
/// server-error message, whatever the error says.
pub fn verify_email_answer<T>(result: Result<T, String>) -> (answer: Result<T, GrpcStatus>)
    ensures
        match result {
            Ok(v) => answer matches Ok(a) && a == v,
            Err(_) => answer matches Err(status) && status.code == StatusCode::Internal
                && status.message@ == SERVER_ERROR@,
        },
{
    match result {
        Ok(v) => Ok(v),
        Err(_) => Err(GrpcStatus { code: StatusCode::Internal, message: String::from_str(SERVER_ERROR) }),
    }
}

/// The gRPC authentication service.
pub struct AuthenticationServiceImpl {
    usecases: &'static Usecases,
}

impl AuthenticationServiceImpl {
    /// The use cases that the service answers with.
    pub closed spec fn usecases_view(&self) -> Usecases {
        *self.usecases
    }

    pub fn new(usecases: &'static Usecases) -> (service: Self)
        ensures
            service.usecases_view() == *usecases,
    {
        AuthenticationServiceImpl { usecases }
    }

    /// Answers a request to start a registration with these email, username
    /// and password: success for a valid request; otherwise a status whose
    /// code is that of its message, which is `InvalidArgument`, and whose
    /// message is that of the failed validation.
    pub fn start_registration(&self, email: &str, username: &str, password: &str) -> (result: Result<(), GrpcStatus>)
        ensures
            result is Ok <==> registration_valid(email@, username@, password@),
            result matches Err(status) ==> {
                &&& status.code == StatusCode::InvalidArgument
                &&& exists|walk: Seq<(Seq<char>, Seq<Option<Seq<char>>>)>|
                    #[trigger] is_field_walk(registration_error_codes(email@, username@, password@), walk)
                        && status.message@ == walk_message(walk)
            },
    {
        let args = StartRegistrationRequest::new(email, username, password);
        match self.usecases.startRegistration(args) {
            Ok(()) => Ok(()),
            Err(message) => {
                let code = getGrpcStatusCode(message.as_str());
                proof {
                    let walk = choose|walk: Seq<(Seq<char>, Seq<Option<Seq<char>>>)>|
                        #[trigger] is_field_walk(registration_error_codes(email@, username@, password@), walk)
                            && message@ == walk_message(walk);
                    lemma_refusal_message(email@, username@, password@, walk);
                }
                Err(GrpcStatus { code, message })
            },
        }
    }
}

} // verus!
