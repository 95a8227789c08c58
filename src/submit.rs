//! What is sent to the webhook, and how the answer is judged.
use vstd::prelude::*;
use crate::config::{Params, ParamsView};

verus! {

/// Where the content of a submission comes from.
#[derive(Debug, Clone, PartialEq, Eq)]
pub enum Source {
    /// Literal text, sent as a message.
    Text(String),
    /// A file at this path, uploaded.
    File(String),
    /// Standard input, uploaded as a file.
    Stdin,
}

pub enum SourceView {
    Text(Seq<char>),
    File(Seq<char>),
    Stdin,
}

impl View for Source {
    type V = SourceView;

    open spec fn view(&self) -> SourceView {
        match self {
            Source::Text(t) => SourceView::Text(t@),
            Source::File(f) => SourceView::File(f@),
            Source::Stdin => SourceView::Stdin,
        }
    }
}

/// Why nothing is sent.
#[derive(Debug, Clone, Copy, PartialEq, Eq, Structural)]
pub enum Rejection {
    /// No webhook was given, on the command line or in the configuration.
    MissingWebhook,
    /// Both a text and a file were given.
    TextAndFile,
}

/// The webhook and the source of one submission, or why there is none.
pub open spec fn plan_of(p: ParamsView) -> Result<(Seq<char>, SourceView), Rejection> {
    match p.webhook {
        None => Err(Rejection::MissingWebhook),
        Some(w) => match (p.text, p.file) {
            (Some(_), Some(_)) => Err(Rejection::TextAndFile),
            (Some(t), None) => Ok((w, SourceView::Text(t))),
            (None, Some(f)) => Ok((w, SourceView::File(f))),
            (None, None) => Ok((w, SourceView::Stdin)),
        },
    }
}

/// Decides what one invocation sends, and where. A missing webhook is
/// reported first; a text together with a file is refused.
pub fn plan(params: Params) -> (r: Result<(String, Source), Rejection>)
    ensures
        match r {
            Ok((w, s)) => plan_of(params@) == Ok::<(Seq<char>, SourceView), Rejection>((w@, s@)),
            Err(e) => plan_of(params@) == Err::<(Seq<char>, SourceView), Rejection>(e),
        },
{
    match params.webhook {
        None => Err(Rejection::MissingWebhook),
        Some(w) => match (params.text, params.file) {
            (Some(_), Some(_)) => Err(Rejection::TextAndFile),
            (Some(t), None) => Ok((w, Source::Text(t))),
            (None, Some(f)) => Ok((w, Source::File(f))),
            (None, None) => Ok((w, Source::Stdin)),
        },
    }
}

/// A text and a file together never lead to a submission.
pub proof fn text_with_file_is_refused(p: ParamsView)
    requires
        p.text is Some,
        p.file is Some,
    ensures
        plan_of(p) is Err,
{
}

/// The body of a request.
#[derive(Debug, Clone, PartialEq, Eq)]
pub enum Body {
    /// A JSON object with the single field `content`.
    Json { content: String },
    /// A multipart form with one file part.
    Multipart { part: String, file_name: String, bytes: Vec<u8> },
}

pub enum BodyView {
    Json { content: Seq<char> },
    Multipart { part: Seq<char>, file_name: Seq<char>, bytes: Seq<u8> },
}

impl View for Body {
    type V = BodyView;

    open spec fn view(&self) -> BodyView {
        match self {
            Body::Json { content } => BodyView::Json { content: content@ },
            Body::Multipart { part, file_name, bytes } => BodyView::Multipart {
                part: part@,
                file_name: file_name@,
                bytes: bytes@,
            },
        }
    }
}

/// One POST request to a webhook.
#[derive(Debug, Clone, PartialEq, Eq)]
pub struct WebhookRequest {
    pub url: String,
    pub body: Body,
}

pub struct WebhookRequestView {
    pub url: Seq<char>,
    pub body: BodyView,
}

impl View for WebhookRequest {
    type V = WebhookRequestView;

    open spec fn view(&self) -> WebhookRequestView {
        WebhookRequestView { url: self.url@, body: self.body@ }
    }
}

/// The request that uploads `bytes` under `file_name`, in the form part
/// named `file`.
pub open spec fn upload_view(url: Seq<char>, file_name: Seq<char>, bytes: Seq<u8>) -> WebhookRequestView {
    WebhookRequestView {
        url,
        body: BodyView::Multipart { part: "file"@, file_name, bytes },
    }
}

/// The name under which standard input is uploaded.
pub open spec fn stdin_file_name() -> Seq<char> {
    "stdin.txt"@
}

/// The final component of a path, as `std::path::Path::file_name` gives it.
pub uninterp spec fn path_file_name(path: Seq<char>) -> Option<Seq<char>>;

/// Relies on `std::path::Path::file_name`: the final component of the path,
/// `None` where there is none (the path ends in `..`, or is a root). A
/// component of a `&str` is valid UTF-8, so the lossy conversion is exact.
#[verifier::external_body]
fn file_name_of(path: &str) -> (r: Option<String>)
    ensures
        r.deep_view() == path_file_name(path@),
{
    std::path::Path::new(path).file_name().map(|n| n.to_string_lossy().into_owned())
}

/// Posts `text` as the content of a message.
pub fn text_request(webhook: String, text: String) -> (r: WebhookRequest)
    ensures
        r@ == (WebhookRequestView { url: webhook@, body: BodyView::Json { content: text@ } }),
{
    WebhookRequest { url: webhook, body: Body::Json { content: text } }
}

/// Uploads `bytes` as a file named `file_name`.
pub fn upload_request(webhook: String, file_name: String, bytes: Vec<u8>) -> (r: WebhookRequest)
    ensures
        r@ == upload_view(webhook@, file_name@, bytes@),
{
    WebhookRequest {
        url: webhook,
        body: Body::Multipart { part: String::from_str("file"), file_name, bytes },
    }
}

/// Uploads the contents of the file at `path` under the path's final
/// component; `None` where the path has none.
pub fn file_request(webhook: String, path: &str, bytes: Vec<u8>) -> (r: Option<WebhookRequest>)
    ensures
        match path_file_name(path@) {
            None => r is None,
            Some(n) => r matches Some(q) && q@ == upload_view(webhook@, n, bytes@),
        },
{
    match file_name_of(path) {
        Some(name) => Some(upload_request(webhook, name, bytes)),
        None => None,
    }
}

/// Uploads what was read from standard input, under a fixed file name.
pub fn stdin_request(webhook: String, bytes: Vec<u8>) -> (r: WebhookRequest)
    ensures
        r@ == upload_view(webhook@, stdin_file_name(), bytes@),
{
    upload_request(webhook, String::from_str("stdin.txt"), bytes)
}

/// Whether an HTTP status code reports success (the 2xx class).
pub open spec fn is_success_spec(status: u16) -> bool {
    200 <= status <= 299
}

/// Whether an HTTP status code reports success (the 2xx class).
pub fn is_success(status: u16) -> (r: bool)
    ensures
        r == is_success_spec(status),
{
    200 <= status && status <= 299
}

/// How a submission ended.
#[derive(Debug, Clone, PartialEq, Eq)]
pub enum Outcome {
    Success,
    /// With the response body, or the transport error, where there is one.
    Failed { detail: Option<String> },
}

/// Judges the response to a submission: a 2xx status is a success; any other
/// is a failure that carries the response body.
pub fn classify_response(status: u16, body: Option<String>) -> (r: Outcome)
    ensures
        is_success_spec(status) ==> r is Success,
        !is_success_spec(status) ==> (r matches Outcome::Failed { detail } && detail.deep_view()
            == body.deep_view()),
{
    if is_success(status) {
        Outcome::Success
    } else {
        Outcome::Failed { detail: body }
    }
}

impl Outcome {
    /// The status line printed for this outcome.
    pub fn headline(&self) -> (r: &'static str)
        ensures
            self is Success ==> r@ == "Success!"@,
            self is Failed ==> r@ == "Failed!"@,
    {
        match self {
            Outcome::Success => "Success!",
            Outcome::Failed { .. } => "Failed!",
        }
    }
}

} // verus!
