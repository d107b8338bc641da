//! What the wait for a response brings, and what each operation makes of it.

use vstd::prelude::*;
use crate::error::{AgentError, IoError};
use crate::proto::{Extension, Identity, Response};

verus! {

/// How the wait for the response to a request ended, as the channel reports
/// it.
#[derive(Debug, PartialEq, Eq)]
pub enum Received {
    /// One whole response was decoded.
    Response(Response),
    /// The agent closed the channel before a response was decoded.
    Closed,
    /// The bytes received do not make up a well-formed response.
    Malformed,
    /// Reading from the channel failed.
    Failed(IoError),
}

/// The result of an operation: a type that knows which responses answer the
/// operation, and what they hold for the caller.
pub trait Reply: Sized {
    /// The result that `response` stands for, or
    /// [`AgentError::UnexpectedResponse`] if it does not answer the operation.
    spec fn accept(response: Response) -> Result<Self, AgentError>;

    /// Checks `response` against the operation and takes the result out of it.
    fn from_response(response: Response) -> (reply: Result<Self, AgentError>)
        ensures
            reply == Self::accept(response),
    ;
}

/// Any response as it came: nothing is checked.
impl Reply for Response {
    open spec fn accept(response: Response) -> Result<Self, AgentError> {
        Ok(response)
    }

    fn from_response(response: Response) -> (reply: Result<Self, AgentError>) {
        Ok(response)
    }
}

/// The identities of an identities answer, in the order of the answer.
impl Reply for Vec<Identity> {
    open spec fn accept(response: Response) -> Result<Self, AgentError> {
        match response {
            Response::IdentitiesAnswer(identities) => Ok(identities),
            _ => Err(AgentError::UnexpectedResponse),
        }
    }

    fn from_response(response: Response) -> (reply: Result<Self, AgentError>) {
        match response {
            Response::IdentitiesAnswer(identities) => Ok(identities),
            _ => Err(AgentError::UnexpectedResponse),
        }
    }
}

/// The signature of a sign response.
impl Reply for ssh_key::Signature {
    open spec fn accept(response: Response) -> Result<Self, AgentError> {
        match response {
            Response::SignResponse(signature) => Ok(signature),
            _ => Err(AgentError::UnexpectedResponse),
        }
    }

    fn from_response(response: Response) -> (reply: Result<Self, AgentError>) {
        match response {
            Response::SignResponse(signature) => Ok(signature),
            _ => Err(AgentError::UnexpectedResponse),
        }
    }
}

/// The plain success that answers every operation which changes the agent.
impl Reply for () {
    open spec fn accept(response: Response) -> Result<Self, AgentError> {
        match response {
            Response::Success => Ok(()),
            _ => Err(AgentError::UnexpectedResponse),
        }
    }

    fn from_response(response: Response) -> (reply: Result<Self, AgentError>) {
        match response {
            Response::Success => Ok(()),
            _ => Err(AgentError::UnexpectedResponse),
        }
    }
}

/// The answer to a vendor-defined request: a plain success carries no
/// payload, an extension response carries one.
impl Reply for Option<Extension> {
    open spec fn accept(response: Response) -> Result<Self, AgentError> {
        match response {
            Response::Success => Ok(None),
            Response::ExtensionResponse(extension) => Ok(Some(extension)),
            _ => Err(AgentError::UnexpectedResponse),
        }
    }

    fn from_response(response: Response) -> (reply: Result<Self, AgentError>) {
        match response {
            Response::Success => Ok(None),
            Response::ExtensionResponse(extension) => Ok(Some(extension)),
            _ => Err(AgentError::UnexpectedResponse),
        }
    }
}

/// The result of a call whose request was written and whose wait for the
/// response ended as `received` says.
pub open spec fn resolve<T: Reply>(received: Received) -> Result<T, AgentError> {
    match received {
        Received::Response(response) => T::accept(response),
        Received::Closed => Err(AgentError::Disconnected),
        Received::Malformed => Err(AgentError::Protocol),
        Received::Failed(error) => Err(AgentError::Io(error)),
    }
}

/// The response that an operation expects gives the operation's result, and
/// no error: the identities of an identities answer in the order of the
/// answer, the signature of a sign response, and nothing more than success
/// for the operations that change the agent.
pub proof fn lemma_expected_response_succeeds(
    identities: Vec<Identity>,
    signature: ssh_key::Signature,
)
    ensures
        resolve::<Vec<Identity>>(Received::Response(Response::IdentitiesAnswer(identities)))
            == Ok::<Vec<Identity>, AgentError>(identities),
        resolve::<ssh_key::Signature>(Received::Response(Response::SignResponse(signature)))
            == Ok::<ssh_key::Signature, AgentError>(signature),
        resolve::<()>(Received::Response(Response::Success)) == Ok::<(), AgentError>(()),
{
}

/// Any other response than the one an operation expects is an unexpected
/// response, whatever it holds.
pub proof fn lemma_other_response_is_unexpected(response: Response)
    ensures
        !(response is IdentitiesAnswer) ==> resolve::<Vec<Identity>>(Received::Response(response))
            == Err::<Vec<Identity>, AgentError>(AgentError::UnexpectedResponse),
        !(response is SignResponse) ==> resolve::<ssh_key::Signature>(Received::Response(response))
            == Err::<ssh_key::Signature, AgentError>(AgentError::UnexpectedResponse),
        !(response is Success) ==> resolve::<()>(Received::Response(response)) == Err::<
            (),
            AgentError,
        >(AgentError::UnexpectedResponse),
{
}

/// A vendor-defined request is answered by a plain success, which gives no
/// payload, or by an extension response, which gives its payload. Every other
/// response is an unexpected response.
pub proof fn lemma_extension_responses(response: Response)
    ensures
        response is Success ==> resolve::<Option<Extension>>(Received::Response(response)) == Ok::<
            Option<Extension>,
            AgentError,
        >(None),
        response is ExtensionResponse ==> resolve::<Option<Extension>>(
            Received::Response(response),
        ) == Ok::<Option<Extension>, AgentError>(Some(response->ExtensionResponse_0)),
        !(response is Success) && !(response is ExtensionResponse) ==> resolve::<
            Option<Extension>,
        >(Received::Response(response)) == Err::<Option<Extension>, AgentError>(
            AgentError::UnexpectedResponse,
        ),
{
}

/// When the agent closes the channel after the request was written and
/// before a response was decoded, the call fails as disconnected, whatever
/// the operation.
pub proof fn lemma_closed_channel_is_disconnected<T: Reply>()
    ensures
        resolve::<T>(Received::Closed) == Err::<T, AgentError>(AgentError::Disconnected),
{
}

} // verus!
