//! The HTTP interface: which request is answered how.

use crate::command;
use crate::error::{BrokerError, ErrorView};
use crate::json;
use crate::text;
use vstd::prelude::*;
use vstd::string::*;
use vstd::utf8::*;

verus! {

/// The most bytes that the body of a request may have.
pub const MAX_REQUEST_BYTES: usize = 8192;

/// The status codes that the broker answers with.
#[derive(Clone, Copy, Debug, PartialEq, Eq, Structural)]
pub enum Status {
    Success,
    BadRequest,
    NotFound,
    PayloadTooLarge,
    InternalServerError,
    BadGateway,
    ServiceUnavailable,
}

impl Status {
    /// The number of the status.
    pub open spec fn number(self) -> u16 {
        match self {
            Status::Success => 200,
            Status::BadRequest => 400,
            Status::NotFound => 404,
            Status::PayloadTooLarge => 413,
            Status::InternalServerError => 500,
            Status::BadGateway => 502,
            Status::ServiceUnavailable => 503,
        }
    }

    /// The number, for the status line.
    pub fn code(&self) -> (code: u16)
        ensures
            code == self.number(),
    {
        match self {
            Status::Success => 200,
            Status::BadRequest => 400,
            Status::NotFound => 404,
            Status::PayloadTooLarge => 413,
            Status::InternalServerError => 500,
            Status::BadGateway => 502,
            Status::ServiceUnavailable => 503,
        }
    }
}

/// A whole answer.
#[derive(Debug, PartialEq, Eq)]
pub struct HttpResponse {
    pub status: Status,
    pub headers: Vec<(String, String)>,
    pub body: Vec<u8>,
}

/// The value of an `HttpResponse`.
#[verifier::ext_equal]
pub struct ResponseView {
    pub status: Status,
    pub headers: Seq<(Seq<char>, Seq<char>)>,
    pub body: Seq<u8>,
}

impl View for HttpResponse {
    type V = ResponseView;

    open spec fn view(&self) -> ResponseView {
        ResponseView {
            status: self.status,
            headers: self.headers.deep_view(),
            body: self.body@,
        }
    }
}

/// What a client asks for: a secret, with the reason for it.
#[derive(Debug, PartialEq, Eq)]
pub struct ResolveRequest {
    pub reference: String,
    pub reason: String,
}

/// What to do about the head of a request.
#[derive(Debug, PartialEq, Eq)]
pub enum HeadStep {
    Respond(HttpResponse),
    ReadBody,
}

/// What to do about the body of a request.
#[derive(Debug, PartialEq, Eq)]
pub enum BodyStep {
    Respond(HttpResponse),
    Parse(Vec<u8>),
}

/// What to do about the payload of a request.
#[derive(Debug, PartialEq, Eq)]
pub enum PayloadStep {
    Respond(HttpResponse),
    Resolve(ResolveRequest),
}

/// The headers of every answer: it is JSON, and nobody may keep it.
pub open spec fn json_headers() -> Seq<(Seq<char>, Seq<char>)> {
    seq![("content-type"@, "application/json"@), ("cache-control"@, "no-store"@)]
}

/// An answer that is the JSON object with one member.
pub open spec fn json_answer(status: Status, key: Seq<char>, value: Seq<char>) -> ResponseView {
    ResponseView {
        status,
        headers: json_headers(),
        body: encode_utf8(json::json_object(key, value)),
    }
}

/// The answer to a question for the health of the broker.
pub open spec fn health_answer(healthy: bool) -> ResponseView {
    if healthy {
        json_answer(Status::Success, "status"@, "ok"@)
    } else {
        json_answer(Status::ServiceUnavailable, "status"@, "unhealthy"@)
    }
}

/// The answer to a request that cannot be understood.
pub open spec fn invalid_answer(status: Status) -> ResponseView {
    json_answer(status, "error"@, "invalid request"@)
}

/// The answer to a request for what does not exist.
pub open spec fn not_found_answer() -> ResponseView {
    json_answer(Status::NotFound, "error"@, "not found"@)
}

/// The answer to a request for a secret. It says nothing of what went wrong.
pub open spec fn secret_answer(result: Result<Seq<char>, ErrorView>) -> ResponseView {
    match result {
        Ok(secret) => json_answer(Status::Success, "value"@, secret),
        Err(_) => json_answer(Status::BadGateway, "error"@, "secret resolution failed"@),
    }
}

/// The request is for the health of the broker.
pub open spec fn asks_health(method: Seq<char>, path: Seq<char>) -> bool {
    method == "GET"@ && path == "/healthz"@
}

/// The request is for a secret.
pub open spec fn asks_secret(method: Seq<char>, path: Seq<char>) -> bool {
    method == "POST"@ && path == "/v1/resolve"@
}

/// The answer to a request that its head decides, `None` when its body is to be read.
pub open spec fn head_answer(method: Seq<char>, path: Seq<char>, healthy: bool) -> Option<
    ResponseView,
> {
    if asks_health(method, path) {
        Some(health_answer(healthy))
    } else if asks_secret(method, path) {
        None
    } else {
        Some(not_found_answer())
    }
}

/// The body that stands in for one that could not be written.
pub open spec fn fallback_body() -> Seq<u8> {
    encode_utf8("{\"error\":\"internal error\"}"@)
}

/// The headers of every answer.
fn headers() -> (headers: Vec<(String, String)>)
    ensures
        headers.deep_view() == json_headers(),
{
    let mut headers: Vec<(String, String)> = Vec::new();
    headers.push(("content-type".to_owned(), "application/json".to_owned()));
    headers.push(("cache-control".to_owned(), "no-store".to_owned()));
    assert(headers.deep_view() =~= json_headers());
    headers
}

/// The body that was written, or the one that stands in for it.
pub fn body_or_fallback(written: Result<Vec<u8>, serde_json::Error>) -> (body: Vec<u8>)
    ensures
        body@ == match written {
            Ok(bytes) => bytes@,
            Err(_) => fallback_body(),
        },
{
    match written {
        Ok(bytes) => bytes,
        Err(_) => "{\"error\":\"internal error\"}".as_bytes_vec(),
    }
}

/// An answer that is the JSON object with one member.
pub fn json_response(status: Status, key: &str, value: &str) -> (response: HttpResponse)
    ensures
        response@ == json_answer(status, key@, value@),
{
    let body = body_or_fallback(json::object_to_vec(key, value));
    HttpResponse { status, headers: headers(), body }
}

/// The answer when no other can be given.
pub fn internal_error() -> (response: HttpResponse)
    ensures
        response@ == (ResponseView {
            status: Status::InternalServerError,
            headers: json_headers(),
            body: fallback_body(),
        }),
{
    HttpResponse {
        status: Status::InternalServerError,
        headers: headers(),
        body: "{\"error\":\"internal error\"}".as_bytes_vec(),
    }
}

/// Decide by the head of a request: answer it, or read its body.
pub fn handle_request(method: &str, path: &str, healthy: bool) -> (step: HeadStep)
    ensures
        match step {
            HeadStep::ReadBody => asks_secret(method@, path@),
            HeadStep::Respond(response) => !asks_secret(method@, path@) && response@ == (
            if asks_health(method@, path@) {
                health_answer(healthy)
            } else {
                not_found_answer()
            }),
        },
        match step {
            HeadStep::ReadBody => head_answer(method@, path@, healthy) is None,
            HeadStep::Respond(response) => head_answer(method@, path@, healthy) == Some(response@),
        },
{
    if text::same(method, "GET") && text::same(path, "/healthz") {
        proof {
            reveal_strlit("GET");
            reveal_strlit("POST");
            assert("GET"@.len() != "POST"@.len());
        }
        if healthy {
            HeadStep::Respond(json_response(Status::Success, "status", "ok"))
        } else {
            HeadStep::Respond(json_response(Status::ServiceUnavailable, "status", "unhealthy"))
        }
    } else if text::same(method, "POST") && text::same(path, "/v1/resolve") {
        HeadStep::ReadBody
    } else {
        HeadStep::Respond(json_response(Status::NotFound, "error", "not found"))
    }
}

/// Decide by the body of a request for a secret: answer it, or parse it.
pub fn handle_body(body: Result<Vec<u8>, Status>) -> (step: BodyStep)
    ensures
        match (body, step) {
            (Ok(bytes), BodyStep::Parse(same)) => same == bytes,
            (Err(status), BodyStep::Respond(response)) => response@ == invalid_answer(status),
            _ => false,
        },
{
    match body {
        Ok(bytes) => BodyStep::Parse(bytes),
        Err(status) => BodyStep::Respond(json_response(status, "error", "invalid request")),
    }
}

/// Decide by the payload of a request for a secret, `None` when it is not one: answer it, or
/// look the secret up.
pub fn handle_payload(payload: Option<ResolveRequest>) -> (step: PayloadStep)
    ensures
        match (payload, step) {
            (Some(request), PayloadStep::Resolve(same)) => same == request,
            (None, PayloadStep::Respond(response)) => response@ == invalid_answer(
                Status::BadRequest,
            ),
            _ => false,
        },
{
    match payload {
        Some(request) => PayloadStep::Resolve(request),
        None => PayloadStep::Respond(
            json_response(Status::BadRequest, "error", "invalid request"),
        ),
    }
}

/// Answer a request for a secret by the result of the lookup.
pub fn handle_resolved(result: &Result<String, BrokerError>) -> (response: HttpResponse)
    ensures
        response@ == secret_answer(command::result_view(*result)),
{
    match result {
        Ok(value) => json_response(Status::Success, "value", value.as_str()),
        Err(_) => json_response(Status::BadGateway, "error", "secret resolution failed"),
    }
}

/// What the next part of a body is.
#[derive(Debug)]
pub enum BodyPart {
    Data(Vec<u8>),
    /// A part that carries no data.
    Other,
    /// The body broke off.
    Broken,
}

/// The value of a `BodyPart`.
pub enum BodyPartView {
    Data(Seq<u8>),
    Other,
    Broken,
}

impl View for BodyPart {
    type V = BodyPartView;

    open spec fn view(&self) -> BodyPartView {
        match *self {
            BodyPart::Data(data) => BodyPartView::Data(data@),
            BodyPart::Other => BodyPartView::Other,
            BodyPart::Broken => BodyPartView::Broken,
        }
    }
}

/// What one more part makes of the bytes collected so far.
pub open spec fn with_part(collected: Seq<u8>, part: BodyPartView) -> Result<Seq<u8>, Status> {
    match part {
        BodyPartView::Data(data) => if collected.len() + data.len() > MAX_REQUEST_BYTES {
            Err(Status::PayloadTooLarge)
        } else {
            Ok(collected + data)
        },
        BodyPartView::Other => Ok(collected),
        BodyPartView::Broken => Err(Status::BadRequest),
    }
}

/// A body that is being read. It never holds more than a body may have.
#[derive(Debug)]
pub struct LimitedBody {
    collected: Vec<u8>,
}

impl View for LimitedBody {
    type V = Seq<u8>;

    closed spec fn view(&self) -> Seq<u8> {
        self.collected@
    }
}

impl LimitedBody {
    #[verifier::type_invariant]
    spec fn within_limit(self) -> bool {
        self.collected@.len() <= MAX_REQUEST_BYTES
    }

    /// A body of which nothing has been read.
    pub fn new() -> (body: LimitedBody)
        ensures
            body@ == Seq::<u8>::empty(),
    {
        LimitedBody { collected: Vec::new() }
    }

    /// Take in one more part. On an error the body is as it was.
    pub fn take(&mut self, part: BodyPart) -> (r: Result<(), Status>)
        ensures
            match with_part(old(self)@, part@) {
                Ok(bytes) => r is Ok && final(self)@ == bytes,
                Err(status) => r == Err::<(), Status>(status) && final(self)@ == old(self)@,
            },
    {
        proof {
            use_type_invariant(&*self);
        }
        match part {
            BodyPart::Broken => Err(Status::BadRequest),
            BodyPart::Other => Ok(()),
            BodyPart::Data(data) => {
                if data.len() > MAX_REQUEST_BYTES - self.collected.len() {
                    Err(Status::PayloadTooLarge)
                } else {
                    let mut data = data;
                    let mut collected: Vec<u8> = Vec::new();
                    std::mem::swap(&mut collected, &mut self.collected);
                    collected.append(&mut data);
                    self.collected = collected;
                    Ok(())
                }
            },
        }
    }

    /// The bytes that were read.
    pub fn into_bytes(self) -> (bytes: Vec<u8>)
        ensures
            bytes@ == self@,
            bytes@.len() <= MAX_REQUEST_BYTES,
    {
        proof {
            use_type_invariant(&self);
        }
        self.collected
    }
}

/// What a whole body comes to, part by part.
pub open spec fn body_of(parts: Seq<BodyPartView>) -> Result<Seq<u8>, Status>
    decreases parts.len(),
{
    if parts.len() == 0 {
        Ok(Seq::empty())
    } else {
        match body_of(parts.drop_last()) {
            Ok(collected) => with_part(collected, parts.last()),
            Err(status) => Err(status),
        }
    }
}

/// The data of the parts, one after the other.
pub open spec fn data_of(parts: Seq<BodyPartView>) -> Seq<u8>
    decreases parts.len(),
{
    if parts.len() == 0 {
        Seq::empty()
    } else {
        match parts.last() {
            BodyPartView::Data(data) => data_of(parts.drop_last()) + data,
            _ => data_of(parts.drop_last()),
        }
    }
}

/// However a body is cut into parts, it is read as its data when that is within the limit, and
/// refused as too large when it is not.
pub proof fn law_body_is_its_data(parts: Seq<BodyPartView>)
    requires
        forall|i: int| 0 <= i < parts.len() ==> !(#[trigger] parts[i] is Broken),
    ensures
        body_of(parts) == if data_of(parts).len() <= 8192 {
            Ok::<Seq<u8>, Status>(data_of(parts))
        } else {
            Err(Status::PayloadTooLarge)
        },
    decreases parts.len(),
{
    if parts.len() > 0 {
        let earlier = parts.drop_last();
        assert forall|i: int| 0 <= i < earlier.len() implies !(#[trigger] earlier[i] is Broken) by {
            assert(earlier[i] == parts[i]);
        }
        assert(parts.last() == parts[parts.len() - 1]);
        law_body_is_its_data(earlier);
    }
}

/// A body that breaks off within the limit is refused as a bad request, whatever follows.
pub proof fn law_broken_body_is_refused(parts: Seq<BodyPartView>, rest: Seq<BodyPartView>)
    requires
        body_of(parts) is Ok,
    ensures
        body_of(parts.push(BodyPartView::Broken) + rest) == Err::<Seq<u8>, Status>(
            Status::BadRequest,
        ),
    decreases rest.len(),
{
    let all = parts.push(BodyPartView::Broken) + rest;
    if rest.len() == 0 {
        assert(all.drop_last() =~= parts);
    } else {
        assert(all.drop_last() =~= parts.push(BodyPartView::Broken) + rest.drop_last());
        law_broken_body_is_refused(parts, rest.drop_last());
    }
}

/// A failed lookup is answered alike whatever went wrong, so the answer gives nothing away.
pub proof fn law_failures_are_answered_alike(a: ErrorView, b: ErrorView)
    ensures
        secret_answer(Err(a)) == secret_answer(Err(b)),
{
}

/// A client learns exactly the secret: different secrets have different answers.
pub proof fn law_answer_determines_secret(a: Seq<char>, b: Seq<char>)
    requires
        secret_answer(Ok(a)) == secret_answer(Ok(b)),
    ensures
        a == b,
{
    json::law_object_determines_value("value"@, a, b);
}

/// A request for a secret succeeds for the client exactly when the lookup gave one.
pub proof fn law_success_means_a_secret(result: Result<Seq<char>, ErrorView>)
    ensures
        secret_answer(result).status == Status::Success <==> result is Ok,
{
}

/// Every answer is JSON that nobody may keep.
pub proof fn law_answers_are_never_kept(
    healthy: bool,
    status: Status,
    result: Result<Seq<char>, ErrorView>,
)
    ensures
        health_answer(healthy).headers == json_headers(),
        invalid_answer(status).headers == json_headers(),
        not_found_answer().headers == json_headers(),
        secret_answer(result).headers == json_headers(),
{
}

/// The numbers of the statuses.
pub proof fn law_status_numbers()
    ensures
        Status::Success.number() == 200,
        Status::BadRequest.number() == 400,
        Status::NotFound.number() == 404,
        Status::PayloadTooLarge.number() == 413,
        Status::InternalServerError.number() == 500,
        Status::BadGateway.number() == 502,
        Status::ServiceUnavailable.number() == 503,
{
}

/// Two requests are understood, each by its exact method and path, and no request is both.
pub proof fn law_two_requests_are_understood(method: Seq<char>, path: Seq<char>)
    ensures
        asks_health(method, path) <==> method == "GET"@ && path == "/healthz"@,
        asks_secret(method, path) <==> method == "POST"@ && path == "/v1/resolve"@,
        !(asks_health(method, path) && asks_secret(method, path)),
{
    reveal_strlit("GET");
    reveal_strlit("POST");
    assert("GET"@.len() != "POST"@.len());
}

/// The characters need no escape.
spec fn plain_text(s: Seq<char>) -> bool {
    forall|i: int| 0 <= i < s.len() ==> (#[trigger] s[i]) as int >= 32 && s[i] != '"' && s[i] != '\\'
}

/// The body of an answer with a plain value.
proof fn lemma_plain_body(status: Status, key: Seq<char>, value: Seq<char>)
    requires
        plain_text(key),
        plain_text(value),
    ensures
        json_answer(status, key, value).body == encode_utf8(
            "{\""@ + key + "\":\""@ + value + "\"}"@,
        ),
        json_answer(status, key, value).status == status,
{
    json::law_object_notation(key, value);
    json::law_plain_text_stands_for_itself(key);
    json::law_plain_text_stands_for_itself(value);
}

/// The answer to a question for the health: `{"status":"ok"}` with the status of a success when the
/// session is known to work, and `{"status":"unhealthy"}` as unavailable when it is not.
pub proof fn law_health_is_answered(healthy: bool)
    ensures
        health_answer(healthy).status.number() == if healthy {
            200
        } else {
            503int
        },
        health_answer(true).body == encode_utf8("{\"status\":\"ok\"}"@),
        health_answer(false).body == encode_utf8("{\"status\":\"unhealthy\"}"@),
{
    reveal_strlit("status");
    reveal_strlit("ok");
    reveal_strlit("unhealthy");
    reveal_strlit("{\"");
    reveal_strlit("\":\"");
    reveal_strlit("\"}");
    reveal_strlit("{\"status\":\"ok\"}");
    reveal_strlit("{\"status\":\"unhealthy\"}");
    lemma_plain_body(Status::Success, "status"@, "ok"@);
    lemma_plain_body(Status::ServiceUnavailable, "status"@, "unhealthy"@);
    assert("{\""@ + "status"@ + "\":\""@ + "ok"@ + "\"}"@ =~= "{\"status\":\"ok\"}"@);
    assert("{\""@ + "status"@ + "\":\""@ + "unhealthy"@ + "\"}"@
        =~= "{\"status\":\"unhealthy\"}"@);
}

/// The answers to requests that are refused: each is an object with an `error` that says which kind
/// of refusal it is and nothing more.
pub proof fn law_refusals_are_answered(status: Status, e: ErrorView)
    ensures
        invalid_answer(status).status == status,
        invalid_answer(status).body == encode_utf8("{\"error\":\"invalid request\"}"@),
        not_found_answer().status.number() == 404,
        not_found_answer().body == encode_utf8("{\"error\":\"not found\"}"@),
        secret_answer(Err(e)).status.number() == 502,
        secret_answer(Err(e)).body == encode_utf8("{\"error\":\"secret resolution failed\"}"@),
        fallback_body() == encode_utf8("{\"error\":\"internal error\"}"@),
{
    reveal_strlit("error");
    reveal_strlit("invalid request");
    reveal_strlit("not found");
    reveal_strlit("secret resolution failed");
    reveal_strlit("{\"");
    reveal_strlit("\":\"");
    reveal_strlit("\"}");
    reveal_strlit("{\"error\":\"invalid request\"}");
    reveal_strlit("{\"error\":\"not found\"}");
    reveal_strlit("{\"error\":\"secret resolution failed\"}");
    lemma_plain_body(status, "error"@, "invalid request"@);
    lemma_plain_body(Status::NotFound, "error"@, "not found"@);
    lemma_plain_body(Status::BadGateway, "error"@, "secret resolution failed"@);
    assert("{\""@ + "error"@ + "\":\""@ + "invalid request"@ + "\"}"@
        =~= "{\"error\":\"invalid request\"}"@);
    assert("{\""@ + "error"@ + "\":\""@ + "not found"@ + "\"}"@ =~= "{\"error\":\"not found\"}"@);
    assert("{\""@ + "error"@ + "\":\""@ + "secret resolution failed"@ + "\"}"@
        =~= "{\"error\":\"secret resolution failed\"}"@);
}

/// A secret is answered whole, whatever it is and however long: as the member `value` of an object,
/// each character as it stands in JSON, which is as it is for all but quotes, backslashes and
/// control characters.
pub proof fn law_secret_is_answered_whole(secret: Seq<char>)
    ensures
        secret_answer(Ok(secret)).status.number() == 200,
        secret_answer(Ok(secret)).body == encode_utf8(
            "{\"value\":\""@ + json::escaped(secret) + "\"}"@,
        ),
        (forall|i: int|
            0 <= i < secret.len() ==> (#[trigger] secret[i]) as int >= 32 && secret[i] != '"'
                && secret[i] != '\\') ==> secret_answer(Ok(secret)).body == encode_utf8(
            "{\"value\":\""@ + secret + "\"}"@,
        ),
{
    reveal_strlit("value");
    reveal_strlit("{\"");
    reveal_strlit("\":\"");
    reveal_strlit("{\"value\":\"");
    assert(plain_text("value"@));
    json::law_plain_text_stands_for_itself("value"@);
    json::law_object_notation("value"@, secret);
    assert("{\""@ + "value"@ + "\":\""@ =~= "{\"value\":\""@);
    if plain_text(secret) {
        json::law_plain_text_stands_for_itself(secret);
    }
}

/// Every answer says that it is JSON and that nobody may keep it.
pub proof fn law_headers_of_every_answer(status: Status, key: Seq<char>, value: Seq<char>)
    ensures
        json_answer(status, key, value).status == status,
        json_answer(status, key, value).headers == seq![
            ("content-type"@, "application/json"@),
            ("cache-control"@, "no-store"@),
        ],
{
}

/// A part that fits is taken in whole, after what is there; one that does not fit is refused, and
/// so is a body that breaks off. What carries no data changes nothing.
pub proof fn law_parts_are_taken_whole(collected: Seq<u8>, data: Seq<u8>)
    ensures
        collected.len() + data.len() <= 8192 ==> with_part(collected, BodyPartView::Data(data))
            == Ok::<Seq<u8>, Status>(collected + data),
        collected.len() + data.len() > 8192 ==> with_part(collected, BodyPartView::Data(data))
            == Err::<Seq<u8>, Status>(Status::PayloadTooLarge),
        with_part(collected, BodyPartView::Other) == Ok::<Seq<u8>, Status>(collected),
        with_part(collected, BodyPartView::Broken) == Err::<Seq<u8>, Status>(Status::BadRequest),
{
}

/// The value of an answer is its status, its headers in their order, and its whole body; that of a
/// part of a body is its data.
pub proof fn law_views_leave_nothing_out(response: HttpResponse, data: Vec<u8>)
    ensures
        response@.status == response.status,
        response@.body == response.body@,
        response@.headers.len() == response.headers@.len(),
        forall|i: int|
            0 <= i < response.headers@.len() ==> #[trigger] response@.headers[i] == (
                response.headers@[i].0@,
                response.headers@[i].1@,
            ),
        BodyPart::Data(data)@ == BodyPartView::Data(data@),
        BodyPart::Other@ == BodyPartView::Other,
        BodyPart::Broken@ == BodyPartView::Broken,
{
}

/// `GET /healthz` is answered with the health, the body of `POST /v1/resolve` is read, and every
/// other request is answered as not found, whatever the health is.
pub proof fn law_heads_are_answered(method: Seq<char>, path: Seq<char>, healthy: bool)
    ensures
        ({
            let answer = head_answer(method, path, healthy);
            let health = method == "GET"@ && path == "/healthz"@;
            let secret = method == "POST"@ && path == "/v1/resolve"@;
            &&& secret <==> answer is None
            &&& health ==> (answer matches Some(response) && {
                &&& healthy ==> response.status.number() == 200 && response.body == encode_utf8(
                    "{\"status\":\"ok\"}"@,
                )
                &&& !healthy ==> response.status.number() == 503 && response.body == encode_utf8(
                    "{\"status\":\"unhealthy\"}"@,
                )
            })
            &&& !health && !secret ==> (answer matches Some(response) && response.status.number()
                == 404 && response.body == encode_utf8("{\"error\":\"not found\"}"@))
        }),
{
    law_two_requests_are_understood(method, path);
    law_health_is_answered(healthy);
    law_refusals_are_answered(Status::NotFound, arbitrary());
}

} // verus!
