//! Response statuses, rejections, answers and audit decisions.

use vstd::prelude::*;
use vstd::string::*;

use crate::config::{
    manifest_views, ConfigDocument, ConfigDocumentView, PluginManifest, PluginManifestView,
};
use crate::kanban::{Column, ColumnView};
use crate::outside::{json_string, quote_json};

verus! {

/// The HTTP statuses that the API answers with.
#[derive(Debug, Clone, Copy, PartialEq, Eq, Structural)]
pub enum Status {
    Success,
    Created,
    BadRequest,
    Unauthorized,
    Forbidden,
    NotFound,
    MethodNotAllowed,
    Conflict,
    PayloadTooLarge,
    TooManyRequests,
    InternalServerError,
    ServiceUnavailable,
}

impl Status {
    /// The status code.
    pub open spec fn spec_code(self) -> u16 {
        match self {
            Status::Success => 200,
            Status::Created => 201,
            Status::BadRequest => 400,
            Status::Unauthorized => 401,
            Status::Forbidden => 403,
            Status::NotFound => 404,
            Status::MethodNotAllowed => 405,
            Status::Conflict => 409,
            Status::PayloadTooLarge => 413,
            Status::TooManyRequests => 429,
            Status::InternalServerError => 500,
            Status::ServiceUnavailable => 503,
        }
    }

    /// The status code.
    pub fn code(self) -> (code: u16)
        ensures
            code == self.spec_code(),
    {
        match self {
            Status::Success => 200,
            Status::Created => 201,
            Status::BadRequest => 400,
            Status::Unauthorized => 401,
            Status::Forbidden => 403,
            Status::NotFound => 404,
            Status::MethodNotAllowed => 405,
            Status::Conflict => 409,
            Status::PayloadTooLarge => 413,
            Status::TooManyRequests => 429,
            Status::InternalServerError => 500,
            Status::ServiceUnavailable => 503,
        }
    }
}

/// A refusal: its status and the generic message of its error body.
#[derive(Debug, Clone, Copy)]
pub struct Rejection {
    pub status: Status,
    pub message: &'static str,
}

/// A refusal as contracts see it.
pub struct RejectionView {
    pub status: Status,
    pub message: Seq<char>,
}

impl View for Rejection {
    type V = RejectionView;

    open spec fn view(&self) -> RejectionView {
        RejectionView { status: self.status, message: self.message@ }
    }
}

/// The refusal with this status and message.
pub open spec fn refusal(status: Status, message: Seq<char>) -> RejectionView {
    RejectionView { status, message }
}

/// An access decision to append to the audit chain.
#[derive(Debug)]
pub struct Decision {
    pub allowed: bool,
    pub detail: String,
}

/// A decision as contracts see it.
pub struct DecisionView {
    pub allowed: bool,
    pub detail: Seq<char>,
}

impl View for Decision {
    type V = DecisionView;

    open spec fn view(&self) -> DecisionView {
        DecisionView { allowed: self.allowed, detail: self.detail@ }
    }
}

/// What an answer's body holds. Where it is what an outside component
/// returned, the variant says only which.
#[derive(Debug)]
pub enum Body {
    /// `{ "error": message }`.
    Error { message: String },
    /// `{ "ok": true }`.
    Acknowledged,
    /// The credential that the client-auth scheme issued.
    Credential,
    /// `{ "token": token, "exp_unix": exp_unix }`.
    Session { token: String, exp_unix: i64 },
    /// `{ "columns": columns }`, each column under its state's name.
    Columns { columns: Vec<Column> },
    /// The task that the board returned.
    Task,
    /// `{ "id": id }`.
    TaskId { id: u128 },
    /// `{ "toml": toml, "security": security }`.
    Config { config: ConfigDocument },
    /// `{ "plugins": plugins }`.
    Plugins { plugins: Vec<PluginManifest> },
    /// `{ "logs": entries }`.
    Logs,
    /// `{ "logs": [] }`.
    NoLogs,
    /// `{ "chain_verified": chain_verified, "entries": snapshot }`.
    Audit { chain_verified: bool },
}

/// A body as contracts see it.
pub enum BodyView {
    Error { message: Seq<char> },
    Acknowledged,
    Credential,
    Session { token: Seq<char>, exp_unix: i64 },
    Columns { columns: Seq<ColumnView> },
    Task,
    TaskId { id: u128 },
    Config { config: ConfigDocumentView },
    Plugins { plugins: Seq<PluginManifestView> },
    Logs,
    NoLogs,
    Audit { chain_verified: bool },
}

impl View for Body {
    type V = BodyView;

    open spec fn view(&self) -> BodyView {
        match *self {
            Body::Error { message } => BodyView::Error { message: message@ },
            Body::Acknowledged => BodyView::Acknowledged,
            Body::Credential => BodyView::Credential,
            Body::Session { token, exp_unix } => BodyView::Session { token: token@, exp_unix },
            Body::Columns { columns } => BodyView::Columns {
                columns: columns@.map_values(|column: Column| column@),
            },
            Body::Task => BodyView::Task,
            Body::TaskId { id } => BodyView::TaskId { id },
            Body::Config { config } => BodyView::Config { config: config@ },
            Body::Plugins { plugins } => BodyView::Plugins { plugins: manifest_views(plugins@) },
            Body::Logs => BodyView::Logs,
            Body::NoLogs => BodyView::NoLogs,
            Body::Audit { chain_verified } => BodyView::Audit { chain_verified },
        }
    }
}

/// An answer to a request.
#[derive(Debug)]
pub struct Answer {
    pub status: Status,
    pub body: Body,
}

/// An answer as contracts see it.
pub struct AnswerView {
    pub status: Status,
    pub body: BodyView,
}

impl View for Answer {
    type V = AnswerView;

    open spec fn view(&self) -> AnswerView {
        AnswerView { status: self.status, body: self.body@ }
    }
}

/// The error answer with this status and message.
pub open spec fn error_answer(status: Status, message: Seq<char>) -> AnswerView {
    AnswerView { status, body: BodyView::Error { message } }
}

/// The successful answer with this body.
pub open spec fn success_answer(body: BodyView) -> AnswerView {
    AnswerView { status: Status::Success, body }
}

/// Makes an error answer.
pub fn err(status: Status, message: &str) -> (answer: Answer)
    ensures
        answer@ == error_answer(status, message@),
{
    Answer { status, body: Body::Error { message: message.to_owned() } }
}

/// The JSON text of an error body, given its message as a JSON string.
pub open spec fn error_json(quoted: Seq<char>) -> Seq<char> {
    "{\"error\":"@ + quoted + "}"@
}

/// Frames an error body around its message, which is a JSON string already.
pub fn frame_error(quoted: &str) -> (body: String)
    ensures
        body@ == error_json(quoted@),
{
    let mut body = "{\"error\":".to_owned();
    body.append(quoted);
    body.append("}");
    body
}

/// Writes the JSON body that every error is sent with.
pub fn error_body(message: &str) -> (body: String)
    ensures
        body@ == error_json(json_string(message@)),
{
    frame_error(quote_json(message).as_str())
}

impl Rejection {
    /// The answer that a refusal is sent as.
    pub fn answer(self) -> (answer: Answer)
        ensures
            answer@ == error_answer(self@.status, self@.message),
    {
        err(self.status, self.message)
    }
}

} // verus!
