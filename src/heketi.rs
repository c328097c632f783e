//! The client side of the remote manager's REST interface.
//!
//! [`Client`] frames and signs each request; sending it, and driving a
//! mutating call through [`crate::poller::Poller`], is left to the caller.
use crate::json::{decimal, decimal_of, json_string, json_string_of};
use crate::poller::PollError;
use crate::signer::{latest_issue_time, request_token, sign_token, sign_token_at, SignError};
use vstd::prelude::*;

verus! {

/// An identifier that the remote manager assigned to a volume.
#[derive(Clone, Debug, PartialEq, Eq, Hash, PartialOrd, Ord)]
pub struct VolumeId(String);

impl View for VolumeId {
    type V = Seq<char>;

    closed spec fn view(&self) -> Seq<char> {
        self.0@
    }
}

impl VolumeId {
    /// The identifier with text `id`.
    pub fn new(id: String) -> (r: VolumeId)
        ensures
            r@ == id@,
    {
        VolumeId(id)
    }

    /// The text of the identifier.
    pub fn as_str(&self) -> (r: &str)
        ensures
            r@ == self@,
    {
        self.0.as_str()
    }

    /// The text of the identifier, owned.
    pub fn to_string(&self) -> (r: String)
        ensures
            r@ == self@,
    {
        self.0.clone()
    }

    /// A copy of the identifier.
    pub fn duplicate(&self) -> (r: VolumeId)
        ensures
            r@ == self@,
    {
        VolumeId(self.0.clone())
    }
}

/// A volume as the remote manager reports it.
#[derive(Clone, Debug)]
pub struct Volume {
    pub id: VolumeId,
    pub name: String,
}

/// How a new volume is replicated.
#[derive(Clone, Debug)]
pub enum Durability {
    /// No replication.
    NoReplication,
    /// Replication; without a count the manager's default applies.
    Replicate { replica: Option<usize> },
}

/// A request for a new volume.
#[derive(Clone, Debug)]
pub struct CreateVolumeRequest {
    pub size: usize,
    pub name: String,
    pub durability: Option<Durability>,
}

/// The JSON object of a durability policy.
pub open spec fn durability_json(d: Durability) -> Seq<char> {
    match d {
        Durability::NoReplication => "{\"type\":\"none\"}"@,
        Durability::Replicate { replica: None } => "{\"type\":\"replicate\"}"@,
        Durability::Replicate { replica: Some(n) } => "{\"type\":\"replicate\",\"replica\":"@
            + decimal_of(n as nat) + "}"@,
    }
}

/// The JSON body of a request for a new volume; an absent policy is left out.
pub open spec fn create_body_of(req: CreateVolumeRequest) -> Seq<char> {
    "{\"size\":"@ + decimal_of(req.size as nat) + ",\"name\":"@ + json_string_of(req.name@)
        + match req.durability {
        None => Seq::<char>::empty(),
        Some(d) => ",\"durability\":"@ + durability_json(d),
    } + "}"@
}

impl Durability {
    /// The JSON object of the policy.
    pub fn to_json(&self) -> (r: String)
        ensures
            r@ == durability_json(*self),
    {
        match self {
            Durability::NoReplication => "{\"type\":\"none\"}".to_owned(),
            Durability::Replicate { replica: None } => "{\"type\":\"replicate\"}".to_owned(),
            Durability::Replicate { replica: Some(n) } => {
                let mut r = "{\"type\":\"replicate\",\"replica\":".to_owned();
                r.append(decimal(*n).as_str());
                r.append("}");
                r
            },
        }
    }
}

impl CreateVolumeRequest {
    /// The JSON body sent to create the volume.
    pub fn to_json(&self) -> (r: String)
        ensures
            r@ == create_body_of(*self),
    {
        let mut r = "{\"size\":".to_owned();
        r.append(decimal(self.size).as_str());
        r.append(",\"name\":");
        match json_string(self.name.as_str()) {
            Ok(name) => r.append(name.as_str()),
            Err(_) => {},
        }
        match &self.durability {
            None => {},
            Some(d) => {
                r.append(",\"durability\":");
                r.append(d.to_json().as_str());
            },
        }
        r.append("}");
        r
    }
}

/// A request to the remote manager, signed and ready to send.
#[derive(Clone, Debug)]
pub struct SignedRequest {
    /// The HTTP method.
    pub method: String,
    /// The host followed by the endpoint.
    pub uri: String,
    /// The value of the `Authorization` header: `Bearer <token>`.
    pub authorization: String,
    /// The body; empty where the request has none.
    pub body: String,
}

/// A failure of a call to the remote manager.
#[derive(Clone, Debug, PartialEq, Eq)]
pub enum ClientError {
    /// The manager could not be reached, or the connection broke.
    Transport(String),
    /// The request could not be signed.
    Auth(SignError),
    /// The manager broke the protocol: an unexpected status, a missing or
    /// unreadable `Location` header, or an operation that never finished;
    /// with the body of the offending answer.
    ProtocolViolation(PollError, String),
    /// The polled operation reported a failure, with its status and body.
    RemoteOperationFailed(u16, String),
    /// A response body was not what the protocol describes.
    Malformed(String),
}

/// The client error for an operation that failed with `e`, whose last
/// answer had `body`.
pub fn operation_error(e: PollError, body: String) -> (r: ClientError)
    ensures
        match e {
            PollError::OperationFailed(s) => r matches ClientError::RemoteOperationFailed(t, b)
                && t == s && b@ == body@,
            _ => r matches ClientError::ProtocolViolation(f, b) && f == e && b@ == body@,
        },
{
    match e {
        PollError::OperationFailed(s) => ClientError::RemoteOperationFailed(s, body),
        _ => ClientError::ProtocolViolation(e, body),
    }
}

/// The endpoint of the volume collection.
pub open spec fn volumes_endpoint() -> Seq<char> {
    "/volumes"@
}

/// The endpoint of one volume.
pub open spec fn volume_endpoint_of(id: Seq<char>) -> Seq<char> {
    "/volumes/"@ + id
}

/// The endpoint of the volume `id`.
pub fn volume_endpoint(id: &VolumeId) -> (r: String)
    ensures
        r@ == volume_endpoint_of(id@),
{
    let mut r = "/volumes/".to_owned();
    r.append(id.as_str());
    r
}

/// The client of one remote manager.
pub struct Client {
    secret: String,
    host: String,
}

/// `q` is `method` to `host` + `endpoint` with `body`, signed at `now`.
pub open spec fn signed_as(
    q: SignedRequest,
    host: Seq<char>,
    secret: Seq<char>,
    method: Seq<char>,
    endpoint: Seq<char>,
    body: Seq<char>,
    now: int,
) -> bool {
    &&& q.method@ == method
    &&& q.uri@ == host + endpoint
    &&& q.authorization@ == "Bearer "@ + request_token(method, endpoint, secret, now)
    &&& q.body@ == body
}

/// `q` is `method` to `host` + `endpoint` with `body`, signed at some
/// moment whose token expiry fits in an `i64`.
pub open spec fn signed_recently(
    q: SignedRequest,
    host: Seq<char>,
    secret: Seq<char>,
    method: Seq<char>,
    endpoint: Seq<char>,
    body: Seq<char>,
) -> bool {
    exists|now: i64|
        now <= latest_issue_time() && #[trigger] signed_as(
            q,
            host,
            secret,
            method,
            endpoint,
            body,
            now as int,
        )
}

impl Client {
    /// The base URI of the manager, such as `http://localhost:8080`.
    pub closed spec fn host(&self) -> Seq<char> {
        self.host@
    }

    /// The secret that tokens are signed with.
    pub closed spec fn secret(&self) -> Seq<char> {
        self.secret@
    }

    /// A client of the manager at `host` that signs with `secret`.
    pub fn new(host: String, secret: String) -> (r: Result<Client, ClientError>)
        ensures
            r matches Ok(c) && c.host() == host@ && c.secret() == secret@,
    {
        Ok(Client { secret, host })
    }

    /// `method` to `endpoint` with `body`, signed with a token issued at
    /// `now`.
    pub fn request_at(&self, method: &str, endpoint: &str, body: String, now: i64) -> (r: Result<
        SignedRequest,
        ClientError,
    >)
        ensures
            now > latest_issue_time() ==> r == Err::<SignedRequest, ClientError>(
                ClientError::Auth(SignError::ClockOutOfRange),
            ),
            now <= latest_issue_time() ==> r is Ok,
            r matches Ok(q) ==> signed_as(
                q,
                self.host(),
                self.secret(),
                method@,
                endpoint@,
                body@,
                now as int,
            ),
    {
        match sign_token_at(method, endpoint, self.secret.as_str(), now) {
            Ok(token) => Ok(self.frame(method, endpoint, body, token)),
            Err(e) => Err(ClientError::Auth(e)),
        }
    }

    /// `method` to `endpoint` with `body`, signed with a token issued now.
    pub fn request(&self, method: &str, endpoint: &str, body: String) -> (r: Result<
        SignedRequest,
        ClientError,
    >)
        ensures
            r matches Ok(q) ==> signed_recently(
                q,
                self.host(),
                self.secret(),
                method@,
                endpoint@,
                body@,
            ),
            r matches Err(e) ==> e matches ClientError::Auth(_),
    {
        match sign_token(method, endpoint, self.secret.as_str()) {
            Ok(token) => {
                let ghost body_view = body@;
                let q = self.frame(method, endpoint, body, token);
                proof {
                    let now = choose|now: i64|
                        now <= latest_issue_time() && token@ == request_token(
                            method@,
                            endpoint@,
                            self.secret(),
                            now as int,
                        );
                    assert(signed_as(
                        q,
                        self.host(),
                        self.secret(),
                        method@,
                        endpoint@,
                        body_view,
                        now as int,
                    ));
                }
                Ok(q)
            },
            Err(e) => Err(ClientError::Auth(e)),
        }
    }

    fn frame(&self, method: &str, endpoint: &str, body: String, token: String) -> (r:
        SignedRequest)
        ensures
            r.method@ == method@,
            r.uri@ == self.host() + endpoint@,
            r.authorization@ == "Bearer "@ + token@,
            r.body@ == body@,
    {
        let mut uri = self.host.clone();
        uri.append(endpoint);
        let mut authorization = "Bearer ".to_owned();
        authorization.append(token.as_str());
        SignedRequest { method: method.to_owned(), uri, authorization, body }
    }

    /// A GET of `endpoint`, for a read, a poll of an operation handle, or the
    /// fetch of a created resource.
    pub fn get_request(&self, endpoint: &str) -> (r: Result<SignedRequest, ClientError>)
        ensures
            r matches Ok(q) ==> signed_recently(
                q,
                self.host(),
                self.secret(),
                "GET"@,
                endpoint@,
                Seq::empty(),
            ),
            r matches Err(e) ==> e matches ClientError::Auth(_),
    {
        self.request("GET", endpoint, String::new())
    }

    /// The submission of a new volume: a POST of its JSON body to the volume
    /// collection.
    pub fn create_volume_request(&self, req: &CreateVolumeRequest) -> (r: Result<
        SignedRequest,
        ClientError,
    >)
        requires
            req.size > 0,
            req.name@.len() > 0,
        ensures
            r matches Ok(q) ==> signed_recently(
                q,
                self.host(),
                self.secret(),
                "POST"@,
                volumes_endpoint(),
                create_body_of(*req),
            ),
            r matches Err(e) ==> e matches ClientError::Auth(_),
    {
        self.request("POST", "/volumes", req.to_json())
    }

    /// The read of the list of volume identifiers.
    pub fn list_volumes_request(&self) -> (r: Result<SignedRequest, ClientError>)
        ensures
            r matches Ok(q) ==> signed_recently(
                q,
                self.host(),
                self.secret(),
                "GET"@,
                volumes_endpoint(),
                Seq::empty(),
            ),
            r matches Err(e) ==> e matches ClientError::Auth(_),
    {
        self.get_request("/volumes")
    }

    /// The read of the volume `id`.
    pub fn get_volume_request(&self, id: &VolumeId) -> (r: Result<SignedRequest, ClientError>)
        ensures
            r matches Ok(q) ==> signed_recently(
                q,
                self.host(),
                self.secret(),
                "GET"@,
                volume_endpoint_of(id@),
                Seq::empty(),
            ),
            r matches Err(e) ==> e matches ClientError::Auth(_),
    {
        let endpoint = volume_endpoint(id);
        self.get_request(endpoint.as_str())
    }

    /// The submission of the deletion of the volume `id`.
    pub fn delete_volume_request(&self, id: &VolumeId) -> (r: Result<SignedRequest, ClientError>)
        ensures
            r matches Ok(q) ==> signed_recently(
                q,
                self.host(),
                self.secret(),
                "DELETE"@,
                volume_endpoint_of(id@),
                Seq::empty(),
            ),
            r matches Err(e) ==> e matches ClientError::Auth(_),
    {
        let endpoint = volume_endpoint(id);
        self.request("DELETE", endpoint.as_str(), String::new())
    }
}

} // verus!
