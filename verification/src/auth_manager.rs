//! The signup exchange: its request, and what each answer leads to.
//!
//! A signup is one POST. [`AuthManager::signup`] builds it. The caller sends
//! it and reports the status to [`AuthManager::on_status`], which says whether
//! a body is to be read and as which record. The caller reads and parses the
//! body and hands the outcome to [`AuthManager::on_token`] or
//! [`AuthManager::on_rejection`], which give the signup's result.

use vstd::prelude::*;
use crate::error::SignupError;
use crate::error::SignupErrorView;
use crate::error::unexpected_status_message;
use crate::json::encode_string;
use crate::json::json_string;

verus! {

/// The record that a signup submits.
#[derive(Debug, PartialEq, Eq)]
pub struct SignupBody {
    pub two_factor_key: String,
    pub hostname: String,
    pub hardware_uuid: String,
}

/// A [`SignupBody`] with its strings as sequences of characters.
pub ghost struct SignupBodyView {
    pub two_factor_key: Seq<char>,
    pub hostname: Seq<char>,
    pub hardware_uuid: Seq<char>,
}

impl View for SignupBody {
    type V = SignupBodyView;

    open spec fn view(&self) -> SignupBodyView {
        SignupBodyView {
            two_factor_key: self.two_factor_key@,
            hostname: self.hostname@,
            hardware_uuid: self.hardware_uuid@,
        }
    }
}

/// The record that the backend answers a successful signup with.
#[derive(Debug, PartialEq, Eq)]
pub struct SignupResponse {
    pub access_token: String,
}

/// A [`SignupResponse`] with its token as a sequence of characters.
pub ghost struct SignupResponseView {
    pub access_token: Seq<char>,
}

impl View for SignupResponse {
    type V = SignupResponseView;

    open spec fn view(&self) -> SignupResponseView {
        SignupResponseView { access_token: self.access_token@ }
    }
}

/// The record that the backend answers a rejected signup with.
#[derive(Debug, PartialEq, Eq)]
pub struct SignupResponseError {
    pub error: String,
}

/// A [`SignupResponseError`] with its message as a sequence of characters.
pub ghost struct SignupResponseErrorView {
    pub error: Seq<char>,
}

impl View for SignupResponseError {
    type V = SignupResponseErrorView;

    open spec fn view(&self) -> SignupResponseErrorView {
        SignupResponseErrorView { error: self.error@ }
    }
}

/// The POST that performs a signup.
#[derive(Debug, PartialEq, Eq)]
pub struct SignupRequest {
    /// Where to send it.
    pub url: String,
    /// The value of its `Content-Type` header.
    pub content_type: String,
    /// Its body.
    pub body: String,
}

/// A [`SignupRequest`] with its strings as sequences of characters.
pub ghost struct SignupRequestView {
    pub url: Seq<char>,
    pub content_type: Seq<char>,
    pub body: Seq<char>,
}

impl View for SignupRequest {
    type V = SignupRequestView;

    open spec fn view(&self) -> SignupRequestView {
        SignupRequestView { url: self.url@, content_type: self.content_type@, body: self.body@ }
    }
}

/// What the transport reports once the request is sent.
#[derive(Debug, PartialEq, Eq)]
pub enum Reply {
    /// No response came. Holds the transport's description of the failure.
    Failed(String),
    /// A response came, with this status code.
    Status(u16),
}

/// A [`Reply`] with its string as a sequence of characters.
pub ghost enum ReplyView {
    Failed(Seq<char>),
    Status(u16),
}

impl View for Reply {
    type V = ReplyView;

    open spec fn view(&self) -> ReplyView {
        match self {
            Reply::Failed(description) => ReplyView::Failed(description@),
            Reply::Status(status) => ReplyView::Status(*status),
        }
    }
}

/// The record that a response body is to be parsed as.
#[derive(Debug, Clone, Copy, PartialEq, Eq, Structural)]
pub enum BodyShape {
    /// A [`SignupResponse`].
    Token,
    /// A [`SignupResponseError`].
    Rejection,
}

impl View for BodyShape {
    type V = BodyShape;

    open spec fn view(&self) -> BodyShape {
        *self
    }
}

/// What became of a response body that was to be parsed as a `T`.
#[derive(Debug, PartialEq, Eq)]
pub enum Body<T> {
    /// It could not be read. Holds the transport's description of the failure.
    Failed(String),
    /// It was read and is no `T`. Holds the parser's description of the failure.
    Malformed(String),
    /// It was read and is this `T`.
    Parsed(T),
}

/// A [`Body`] with its strings as sequences of characters and its record as
/// that record's view.
pub ghost enum BodyView<V> {
    Failed(Seq<char>),
    Malformed(Seq<char>),
    Parsed(V),
}

impl<T: View> View for Body<T> {
    type V = BodyView<T::V>;

    open spec fn view(&self) -> BodyView<T::V> {
        match self {
            Body::Failed(description) => BodyView::Failed(description@),
            Body::Malformed(description) => BodyView::Malformed(description@),
            Body::Parsed(record) => BodyView::Parsed(record@),
        }
    }
}

/// A `Result` with both of its sides as their views.
pub open spec fn result_view<T: View, E: View>(result: Result<T, E>) -> Result<T::V, E::V> {
    match result {
        Ok(value) => Ok(value@),
        Err(error) => Err(error@),
    }
}

/// The address of the signup endpoint on the host `backend_hostname`, which
/// is taken as it is.
pub open spec fn signup_url(backend_hostname: Seq<char>) -> Seq<char> {
    "https://"@ + backend_hostname + "/machines/@signup"@
}

/// The content type of a signup's body.
pub open spec fn json_content_type() -> Seq<char> {
    "application/json"@
}

/// The JSON object of a signup, around the JSON texts of its three members.
pub open spec fn framed_body(
    two_factor_key: Seq<char>,
    hostname: Seq<char>,
    hardware_uuid: Seq<char>,
) -> Seq<char> {
    "{\"two_factor_key\":"@ + two_factor_key + ",\"hostname\":"@ + hostname
        + ",\"hardware_uuid\":"@ + hardware_uuid + "}"@
}

impl SignupBodyView {
    /// The record as JSON text: an object of three string members, in the
    /// order of the fields, without white space.
    pub open spec fn json(self) -> Seq<char> {
        framed_body(
            json_string(self.two_factor_key),
            json_string(self.hostname),
            json_string(self.hardware_uuid),
        )
    }
}

/// The record that a response with this status holds, if the signup knows
/// the status: a token on 200, a rejection on 400, 404 and 500.
pub open spec fn expected_body(status: u16) -> Option<BodyShape> {
    if status == 200 {
        Some(BodyShape::Token)
    } else if status == 400 || status == 404 || status == 500 {
        Some(BodyShape::Rejection)
    } else {
        None
    }
}

impl ReplyView {
    /// What follows the reply: the body to read, or the failure that ends
    /// the signup.
    pub open spec fn next(self) -> Result<BodyShape, SignupErrorView> {
        match self {
            ReplyView::Failed(description) => Err(SignupErrorView::Transport(description)),
            ReplyView::Status(status) => match expected_body(status) {
                Some(shape) => Ok(shape),
                None => Err(SignupErrorView::UnexpectedStatus),
            },
        }
    }
}

/// The result of a signup whose response has status 200.
pub open spec fn token_result(body: BodyView<SignupResponseView>) -> Result<
    SignupResponseView,
    SignupErrorView,
> {
    match body {
        BodyView::Failed(description) => Err(SignupErrorView::Transport(description)),
        BodyView::Malformed(description) => Err(SignupErrorView::Deserialization(description)),
        BodyView::Parsed(response) => Ok(response),
    }
}

/// The failure of a signup whose response has status 400, 404 or 500.
pub open spec fn rejection_result(body: BodyView<SignupResponseErrorView>) -> SignupErrorView {
    match body {
        BodyView::Failed(description) => SignupErrorView::Transport(description),
        BodyView::Malformed(description) => SignupErrorView::Deserialization(description),
        BodyView::Parsed(rejection) => SignupErrorView::ServerRejected(rejection.error),
    }
}

impl SignupBody {
    /// Puts the JSON texts of the three members into the object of a signup.
    pub fn frame(two_factor_key: &str, hostname: &str, hardware_uuid: &str) -> (text: String)
        ensures
            text@ == framed_body(two_factor_key@, hostname@, hardware_uuid@),
    {
        let mut text = String::from_str("{\"two_factor_key\":");
        text.append(two_factor_key);
        text.append(",\"hostname\":");
        text.append(hostname);
        text.append(",\"hardware_uuid\":");
        text.append(hardware_uuid);
        text.append("}");
        text
    }

    /// The record as JSON text.
    pub fn to_json(&self) -> (text: String)
        ensures
            text@ == self@.json(),
    {
        let two_factor_key = encode_string(self.two_factor_key.as_str());
        let hostname = encode_string(self.hostname.as_str());
        let hardware_uuid = encode_string(self.hardware_uuid.as_str());
        SignupBody::frame(two_factor_key.as_str(), hostname.as_str(), hardware_uuid.as_str())
    }
}

#[derive(Debug)]
pub struct AuthManager {}

impl AuthManager {
    /// The request that signs the machine up at the backend.
    ///
    /// Nothing is checked of the four strings: the backend is the judge of
    /// them. `backend_hostname` goes into the address as it is, and the other
    /// three into the body.
    pub fn signup(
        two_factor_key: &str,
        hostname: &str,
        backend_hostname: &str,
        hardware_uuid: &str,
    ) -> (request: SignupRequest)
        ensures
            request@.url == signup_url(backend_hostname@),
            request@.content_type == json_content_type(),
            request@.body == (SignupBodyView {
                two_factor_key: two_factor_key@,
                hostname: hostname@,
                hardware_uuid: hardware_uuid@,
            }).json(),
    {
        let mut url = String::from_str("https://");
        url.append(backend_hostname);
        url.append("/machines/@signup");
        let body = SignupBody {
            two_factor_key: String::from_str(two_factor_key),
            hostname: String::from_str(hostname),
            hardware_uuid: String::from_str(hardware_uuid),
        };
        SignupRequest {
            url,
            content_type: String::from_str("application/json"),
            body: body.to_json(),
        }
    }

    /// Decides what follows the transport's reply to the request: `Ok` with
    /// the record to read from the body, or `Err` with the failure that the
    /// signup ends in, in which case the body is left unread.
    pub fn on_status(reply: Reply) -> (next: Result<BodyShape, SignupError>)
        ensures
            result_view(next) == reply@.next(),
    {
        match reply {
            Reply::Failed(description) => Err(SignupError::Transport(description)),
            Reply::Status(status) => {
                if status == 200 {
                    Ok(BodyShape::Token)
                } else if status == 400 || status == 404 || status == 500 {
                    Ok(BodyShape::Rejection)
                } else {
                    Err(SignupError::UnexpectedStatus)
                }
            },
        }
    }

    /// The result of a signup that the backend answered with 200, from what
    /// became of the body: the token where the body held one.
    pub fn on_token(body: Body<SignupResponse>) -> (result: Result<SignupResponse, SignupError>)
        ensures
            result_view(result) == token_result(body@),
    {
        match body {
            Body::Failed(description) => Err(SignupError::Transport(description)),
            Body::Malformed(description) => Err(SignupError::Deserialization(description)),
            Body::Parsed(response) => Ok(response),
        }
    }

    /// The failure of a signup that the backend answered with 400, 404 or
    /// 500, from what became of the body: the backend's message where the
    /// body held one.
    pub fn on_rejection(body: Body<SignupResponseError>) -> (failure: SignupError)
        ensures
            failure@ == rejection_result(body@),
    {
        match body {
            Body::Failed(description) => SignupError::Transport(description),
            Body::Malformed(description) => SignupError::Deserialization(description),
            Body::Parsed(rejection) => SignupError::ServerRejected(rejection.error),
        }
    }
}

/// A response with status 200 whose body holds a token ends the signup in
/// success, and the token returned is the one that the body held.
pub proof fn token_comes_back(response: SignupResponseView)
    ensures
        ReplyView::Status(200).next() == Ok::<BodyShape, SignupErrorView>(BodyShape::Token),
        token_result(BodyView::Parsed(response)) == Ok::<SignupResponseView, SignupErrorView>(
            response,
        ),
{
}

/// A response with status 400, 404 or 500 whose body holds a rejection ends
/// the signup in a failure whose message is the one that the body held.
pub proof fn rejection_message_comes_back(status: u16, rejection: SignupResponseErrorView)
    requires
        status == 400 || status == 404 || status == 500,
    ensures
        ReplyView::Status(status).next() == Ok::<BodyShape, SignupErrorView>(
            BodyShape::Rejection,
        ),
        rejection_result(BodyView::Parsed(rejection)) == SignupErrorView::ServerRejected(
            rejection.error,
        ),
        rejection_result(BodyView::Parsed(rejection)).message() == rejection.error,
{
}

/// A response with any other status than 200, 400, 404 and 500 ends the
/// signup before a body is read, in a failure whose message is the same for
/// every such status.
pub proof fn unknown_status_fails(status: u16)
    requires
        status != 200,
        status != 400,
        status != 404,
        status != 500,
    ensures
        ReplyView::Status(status).next() == Err::<BodyShape, SignupErrorView>(
            SignupErrorView::UnexpectedStatus,
        ),
        SignupErrorView::UnexpectedStatus.message() == unexpected_status_message(),
{
}

/// A response with status 200 whose body holds no token ends the signup in
/// a deserialization failure, never in success.
pub proof fn malformed_token_fails(description: Seq<char>)
    ensures
        token_result(BodyView::Malformed(description)) == Err::<
            SignupResponseView,
            SignupErrorView,
        >(SignupErrorView::Deserialization(description)),
{
}

/// A signup whose request or response the transport lost ends in a
/// transport failure that carries the transport's description, wherever in
/// the exchange it was lost.
pub proof fn transport_failure_is_passed_on(description: Seq<char>)
    ensures
        ReplyView::Failed(description).next() == Err::<BodyShape, SignupErrorView>(
            SignupErrorView::Transport(description),
        ),
        token_result(BodyView::Failed(description)) == Err::<
            SignupResponseView,
            SignupErrorView,
        >(SignupErrorView::Transport(description)),
        rejection_result(BodyView::Failed(description)) == SignupErrorView::Transport(
            description,
        ),
        SignupErrorView::Transport(description).message() == description,
{
}

} // verus!
