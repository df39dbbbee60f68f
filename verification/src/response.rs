use vstd::prelude::*;
use lemmy_api_common::LemmyErrorType;
use crate::error::LemmyClientError;

verus! {

/// What every call returns: the typed response, or the error.
pub type LemmyResult<R> = Result<R, LemmyClientError>;

/// What a response body turned out to be: the expected payload, or an error
/// that the server declared. No field of the body says which one it is; the
/// body's shape decides.
#[derive(Debug, Clone, PartialEq, Eq)]
pub enum Envelope<R> {
    Payload(R),
    Declared(LemmyErrorType),
}

/// The error kind that `serde_json` reads from a body: `Some` kind where the
/// bytes are JSON text in the shape of a server-declared error, `None`
/// where they are not.
pub uninterp spec fn declared_error(body: Seq<u8>) -> Option<LemmyErrorType>;

/// Reads `body` as a server-declared error with `serde_json::from_slice`,
/// at the type `LemmyErrorType`. The result depends on the bytes alone;
/// a body that does not have that shape gives `None`.
#[verifier::external_body]
fn read_declared_error(body: &[u8]) -> (kind: Option<LemmyErrorType>)
    ensures
        kind == declared_error(body@),
{
    serde_json::from_slice::<LemmyErrorType>(body).ok()
}

/// The envelope that two attempts at a body amount to. The payload shape has
/// priority: where the body was read as the expected payload, the envelope
/// holds it, whatever the other attempt gave. Otherwise a declared error
/// makes the envelope. Where neither shape matched there is no envelope, and
/// the reason why the payload could not be read is handed back.
pub open spec fn envelope_spec<R>(
    payload: Result<R, String>,
    declared: Option<LemmyErrorType>,
) -> Result<Envelope<R>, String> {
    match payload {
        Ok(response) => Ok(Envelope::Payload(response)),
        Err(cause) => match declared {
            Some(kind) => Ok(Envelope::Declared(kind)),
            None => Err(cause),
        },
    }
}

/// The result that a decoded body stands for.
pub open spec fn result_spec<R>(decoded: Result<Envelope<R>, String>) -> LemmyResult<R> {
    match decoded {
        Ok(Envelope::Payload(response)) => Ok(response),
        Ok(Envelope::Declared(kind)) => Err(LemmyClientError::Lemmy(kind)),
        Err(cause) => Err(LemmyClientError::Other(cause)),
    }
}

/// A body that reads as the expected payload decodes to exactly that
/// payload, and never to a server-declared error, whatever else the body
/// could be read as.
pub proof fn lemma_payload_has_priority<R>(
    response: R,
    declared: Option<LemmyErrorType>,
)
    ensures
        result_spec(envelope_spec(Ok::<R, String>(response), declared)) == Ok::<
            R,
            LemmyClientError,
        >(response),
{
}

/// A body that reads only as a server-declared error decodes to exactly
/// that error, and never to a payload.
pub proof fn lemma_declared_error_is_reported<R>(cause: String, kind: LemmyErrorType)
    ensures
        result_spec(envelope_spec(Err::<R, String>(cause), Some(kind))) == Err::<
            R,
            LemmyClientError,
        >(LemmyClientError::Lemmy(kind)),
{
}

/// A body of neither shape decodes to `Other`, with the reason why the
/// payload could not be read.
pub proof fn lemma_unreadable_body_is_other<R>(cause: String)
    ensures
        result_spec(envelope_spec(Err::<R, String>(cause), None)) == Err::<R, LemmyClientError>(
            LemmyClientError::Other(cause),
        ),
{
}

impl<R> Envelope<R> {
    /// Decides between the two shapes from the outcome of both attempts, the
    /// payload first.
    pub fn from_attempts(payload: Result<R, String>, declared: Option<LemmyErrorType>) -> (decoded:
        Result<Self, String>)
        ensures
            decoded == envelope_spec(payload, declared),
    {
        match payload {
            Ok(response) => Ok(Envelope::Payload(response)),
            Err(cause) => match declared {
                Some(kind) => Ok(Envelope::Declared(kind)),
                None => Err(cause),
            },
        }
    }

    /// The payload as success, the declared error as failure.
    pub fn into_result(self) -> (result: LemmyResult<R>)
        ensures
            result == result_spec(Ok::<Envelope<R>, String>(self)),
    {
        match self {
            Envelope::Payload(response) => Ok(response),
            Envelope::Declared(kind) => Err(LemmyClientError::from(kind)),
        }
    }
}

/// Decodes a response body. `payload` is the outcome of reading the body as
/// the expected response: the response, or the reason why it could not be
/// read. A body that was read as the response is the result. Only where it
/// was not, the body is read as a server-declared error, which then is the
/// error of the result; a body of neither shape gives `Other` with the
/// reason.
pub fn decode_response<R>(payload: Result<R, String>, body: &[u8]) -> (result: LemmyResult<R>)
    ensures
        result == result_spec(envelope_spec(payload, declared_error(body@))),
        payload is Ok ==> result == Ok::<R, LemmyClientError>(payload->Ok_0),
        payload is Err && declared_error(body@) is Some ==> result == Err::<R, LemmyClientError>(
            LemmyClientError::Lemmy(declared_error(body@)->Some_0),
        ),
        payload is Err && declared_error(body@) is None ==> result == Err::<R, LemmyClientError>(
            LemmyClientError::Other(payload->Err_0),
        ),
{
    match payload {
        Ok(response) => Ok(response),
        Err(cause) => {
            let declared = read_declared_error(body);
            match Envelope::from_attempts(Err(cause), declared) {
                Ok(envelope) => envelope.into_result(),
                Err(cause) => Err(LemmyClientError::Other(cause)),
            }
        },
    }
}

} // verus!
