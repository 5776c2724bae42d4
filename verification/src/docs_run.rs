//! Finding the documentation of an item, one request to the host at a time.

use crate::rustdoc_command::{DocsRequest, DocsRequestView, RustdocSource};
#[allow(unused_imports)]
use crate::text;
use crate::text::{decimal_text, join_text};
use vstd::prelude::*;

verus! {

/// Why no documentation was found.
#[derive(Debug)]
pub enum DocsError<E> {
    /// The host could not do what it was asked for.
    Host(E),
    /// The body of the answer from docs.rs could not be read.
    ReadingBody(E),
    /// docs.rs answered that the request was wrong; this is the message.
    Status(String),
}

/// What is to be done next, or how it ended.
#[derive(Debug)]
pub enum DocsStep<E> {
    /// Load the documentation of an item from the store.
    LoadItem {
        crate_name: String,
        item_path: String,
    },
    /// Read the file at the path that these components make, one after the
    /// other, from the root of the Cargo workspace.
    ReadFile {
        components: Vec<String>,
    },
    /// Request a URL, following redirects.
    Get {
        url: String,
    },
    /// Read the body of the answer, which has this status.
    ReadBody {
        status: u16,
    },
    /// Convert a page of documentation to Markdown.
    Convert {
        source: RustdocSource,
        html: Vec<u8>,
    },
    /// The documentation was found.
    Finished {
        source: RustdocSource,
        text: String,
    },
    /// No documentation was found.
    Failed(DocsError<E>),
}

/// What the host replies to a step.
#[derive(Debug)]
pub enum DocsReply<E> {
    /// The documentation from the store, if it has the item.
    Item(Option<String>),
    /// What the file holds, if it could be read.
    File(Option<String>),
    /// The status of the answer.
    Response(Result<u16, E>),
    /// The body of the answer.
    Body(Result<Vec<u8>, E>),
    /// The page as Markdown.
    Markdown(Result<String, E>),
}

/// `DocsError` with its text as a sequence of characters.
pub enum DocsErrorView<E> {
    Host(E),
    ReadingBody(E),
    Status(Seq<char>),
}

/// `DocsStep` with its texts as sequences.
pub enum DocsStepView<E> {
    LoadItem { crate_name: Seq<char>, item_path: Seq<char> },
    ReadFile { components: Seq<Seq<char>> },
    Get { url: Seq<char> },
    ReadBody { status: u16 },
    Convert { source: RustdocSource, html: Seq<u8> },
    Finished { source: RustdocSource, text: Seq<char> },
    Failed(DocsErrorView<E>),
}

/// `DocsReply` with its texts as sequences.
pub enum DocsReplyView<E> {
    Item(Option<Seq<char>>),
    File(Option<Seq<char>>),
    Response(Result<u16, E>),
    Body(Result<Seq<u8>, E>),
    Markdown(Result<Seq<char>, E>),
}

impl<E> View for DocsError<E> {
    type V = DocsErrorView<E>;

    open spec fn view(&self) -> DocsErrorView<E> {
        match *self {
            DocsError::Host(e) => DocsErrorView::Host(e),
            DocsError::ReadingBody(e) => DocsErrorView::ReadingBody(e),
            DocsError::Status(message) => DocsErrorView::Status(message@),
        }
    }
}

impl<E> View for DocsStep<E> {
    type V = DocsStepView<E>;

    open spec fn view(&self) -> DocsStepView<E> {
        match *self {
            DocsStep::LoadItem { crate_name, item_path } => DocsStepView::LoadItem {
                crate_name: crate_name@,
                item_path: item_path@,
            },
            DocsStep::ReadFile { components } => DocsStepView::ReadFile {
                components: text::texts(components@),
            },
            DocsStep::Get { url } => DocsStepView::Get { url: url@ },
            DocsStep::ReadBody { status } => DocsStepView::ReadBody { status },
            DocsStep::Convert { source, html } => DocsStepView::Convert { source, html: html@ },
            DocsStep::Finished { source, text } => DocsStepView::Finished { source, text: text@ },
            DocsStep::Failed(error) => DocsStepView::Failed(error@),
        }
    }
}

impl<E> View for DocsReply<E> {
    type V = DocsReplyView<E>;

    open spec fn view(&self) -> DocsReplyView<E> {
        match *self {
            DocsReply::Item(Some(docs)) => DocsReplyView::Item(Some(docs@)),
            DocsReply::Item(None) => DocsReplyView::Item(None),
            DocsReply::File(Some(contents)) => DocsReplyView::File(Some(contents@)),
            DocsReply::File(None) => DocsReplyView::File(None),
            DocsReply::Response(status) => DocsReplyView::Response(status),
            DocsReply::Body(Ok(body)) => DocsReplyView::Body(Ok(body@)),
            DocsReply::Body(Err(e)) => DocsReplyView::Body(Err(e)),
            DocsReply::Markdown(Ok(markdown)) => DocsReplyView::Markdown(Ok(markdown@)),
            DocsReply::Markdown(Err(e)) => DocsReplyView::Markdown(Err(e)),
        }
    }
}

/// The components of the path to the page that `cargo doc` writes, from the
/// root of the Cargo workspace.
pub open spec fn local_page(request: DocsRequestView) -> Seq<Seq<char>> {
    if request.item_path.len() == 0 {
        seq!["target/doc"@, request.crate_name, "index.html"@]
    } else {
        seq![
            "target/doc"@,
            request.crate_name,
            text::join(request.item_path, "/"@),
            "index.html"@,
        ]
    }
}

/// The URL of the page on docs.rs, for the latest version of the crate.
pub open spec fn docs_rs_url(request: DocsRequestView) -> Seq<char> {
    "https://docs.rs/"@ + request.crate_name + "/latest/"@ + request.crate_name + "/"@ + text::join(
        request.item_path,
        "/"@,
    )
}

/// Whether a status says that the request was wrong.
pub open spec fn is_client_error(status: u16) -> bool {
    400 <= status < 500
}

/// The message for a status that says that the request was wrong, where
/// `quoted` is the body of the answer in quotes.
pub open spec fn status_error(status: u16, quoted: Seq<char>) -> Seq<char> {
    "status error "@ + text::decimal(status as nat) + ", response: "@ + quoted
}

/// The first step: load the item from the store.
pub open spec fn first_step<E>(request: DocsRequestView) -> DocsStepView<E> {
    DocsStepView::LoadItem {
        crate_name: request.crate_name,
        item_path: text::join(request.item_path, "::"@),
    }
}

/// The first step for an item that the store does not have: read the local
/// page if there is a Cargo workspace, and ask docs.rs otherwise.
pub open spec fn step_without_store<E>(request: DocsRequestView) -> DocsStepView<E> {
    if request.has_cargo_root {
        DocsStepView::ReadFile { components: local_page(request) }
    } else {
        DocsStepView::Get { url: docs_rs_url(request) }
    }
}

/// Whether a reply is one to the step.
pub open spec fn answers<E>(step: DocsStepView<E>, reply: DocsReplyView<E>) -> bool {
    match step {
        DocsStepView::LoadItem { .. } => reply is Item,
        DocsStepView::ReadFile { .. } => reply is File,
        DocsStepView::Get { .. } => reply is Response,
        DocsStepView::ReadBody { .. } => reply is Body,
        DocsStepView::Convert { .. } => reply is Markdown,
        DocsStepView::Finished { .. } => false,
        DocsStepView::Failed(..) => false,
    }
}

/// The step that follows a step and the host's reply to it.
pub open spec fn next_step<E>(
    request: DocsRequestView,
    step: DocsStepView<E>,
    reply: DocsReplyView<E>,
) -> DocsStepView<E>
    recommends
        answers(step, reply),
{
    match (step, reply) {
        (DocsStepView::LoadItem { .. }, DocsReplyView::Item(Some(docs))) => {
            DocsStepView::Finished { source: RustdocSource::Local, text: docs }
        },
        (DocsStepView::LoadItem { .. }, DocsReplyView::Item(None)) => step_without_store(request),
        (DocsStepView::ReadFile { .. }, DocsReplyView::File(Some(contents))) => {
            DocsStepView::Convert {
                source: RustdocSource::Local,
                html: vstd::utf8::encode_utf8(contents),
            }
        },
        (DocsStepView::ReadFile { .. }, DocsReplyView::File(None)) => {
            DocsStepView::Get { url: docs_rs_url(request) }
        },
        (DocsStepView::Get { .. }, DocsReplyView::Response(Ok(status))) => {
            DocsStepView::ReadBody { status }
        },
        (DocsStepView::Get { .. }, DocsReplyView::Response(Err(e))) => {
            DocsStepView::Failed(DocsErrorView::Host(e))
        },
        (DocsStepView::ReadBody { status }, DocsReplyView::Body(Ok(body))) => {
            if is_client_error(status) {
                DocsStepView::Failed(
                    DocsErrorView::Status(status_error(status, quoted(lossy_utf8(body)))),
                )
            } else {
                DocsStepView::Convert { source: RustdocSource::DocsDotRs, html: body }
            }
        },
        (DocsStepView::ReadBody { .. }, DocsReplyView::Body(Err(e))) => {
            DocsStepView::Failed(DocsErrorView::ReadingBody(e))
        },
        (DocsStepView::Convert { source, .. }, DocsReplyView::Markdown(Ok(markdown))) => {
            DocsStepView::Finished { source, text: markdown }
        },
        (DocsStepView::Convert { .. }, DocsReplyView::Markdown(Err(e))) => {
            DocsStepView::Failed(DocsErrorView::Host(e))
        },
        _ => step,
    }
}

/// The text that `String::from_utf8_lossy` makes of bytes.
pub uninterp spec fn lossy_utf8(bytes: Seq<u8>) -> Seq<char>;

/// The text in quotes, as the `Debug` format of `str` gives it.
pub uninterp spec fn quoted(text: Seq<char>) -> Seq<char>;

/// `String::from_utf8_lossy`: the text depends on the bytes alone. It is the one
/// that they encode where they are UTF-8, and holds a replacement character
/// where they are not. How many of these stand for which bytes is left unsaid.
#[verifier::external_body]
fn lossy_text(bytes: &Vec<u8>) -> (text: String)
    ensures
        text@ == lossy_utf8(bytes@),
        vstd::utf8::valid_utf8(bytes@) ==> vstd::utf8::encode_utf8(text@) == bytes@,
        !vstd::utf8::valid_utf8(bytes@) ==> text@.contains('\u{FFFD}'),
{
    String::from_utf8_lossy(bytes).into_owned()
}

/// `Debug` for `str`, through `format`: the text in quotes depends on the text
/// alone. How characters are escaped is left unsaid.
#[verifier::external_body]
fn quoted_text(text: &str) -> (shown: String)
    ensures
        shown@ == quoted(text@),
{
    format!("{:?}", text)
}

/// The message for a status that says that the request was wrong, where
/// `quoted` is the body of the answer in quotes.
pub fn status_error_message(status: u16, quoted: &str) -> (message: String)
    ensures
        message@ == status_error(status, quoted@),
{
    let code = decimal_text(status);
    "status error ".to_owned().concat(code.as_str()).concat(", response: ").concat(quoted)
}

impl<E> DocsError<E> {
    /// What is said in front of the host's own error, if anything.
    pub fn context(&self) -> (context: Option<String>)
        ensures
            match *self {
                DocsError::ReadingBody(_) => {
                    &&& context matches Some(text)
                    &&& text@ == "error reading docs.rs response body"@
                },
                _ => context is None,
            },
    {
        match self {
            DocsError::ReadingBody(_) => Some("error reading docs.rs response body".to_owned()),
            _ => None,
        }
    }
}

impl DocsRequest {
    /// The first step towards the documentation.
    pub fn start<E>(&self) -> (step: DocsStep<E>)
        ensures
            step@ == first_step::<E>(self@),
    {
        DocsStep::LoadItem {
            crate_name: self.crate_name.clone(),
            item_path: join_text(&self.item_path, "::"),
        }
    }

    /// The components of the path to the page that `cargo doc` writes, from the
    /// root of the Cargo workspace.
    pub fn local_page_components(&self) -> (components: Vec<String>)
        ensures
            text::texts(components@) == local_page(self@),
    {
        let mut components: Vec<String> = Vec::new();
        components.push("target/doc".to_owned());
        components.push(self.crate_name.clone());
        if self.item_path.len() > 0 {
            components.push(join_text(&self.item_path, "/"));
        }
        components.push("index.html".to_owned());
        assert(text::texts(components@) =~= local_page(self@));
        components
    }

    /// The URL of the page on docs.rs, for the latest version of the crate.
    pub fn url(&self) -> (url: String)
        ensures
            url@ == docs_rs_url(self@),
    {
        let path_in_crate = join_text(&self.item_path, "/");
        let crate_name = self.crate_name.as_str();
        "https://docs.rs/".to_owned().concat(crate_name).concat("/latest/").concat(
            crate_name,
        ).concat("/").concat(path_in_crate.as_str())
    }

    /// The first step for an item that the store does not have.
    pub fn build_message<E>(&self) -> (step: DocsStep<E>)
        ensures
            step@ == step_without_store::<E>(self@),
    {
        if self.has_cargo_root {
            DocsStep::ReadFile { components: self.local_page_components() }
        } else {
            DocsStep::Get { url: self.url() }
        }
    }

    /// The step that follows `step` after the host's reply to it.
    ///
    /// The message for a wrong request quotes the body of the answer: as it is,
    /// where it is UTF-8, and with replacement characters otherwise.
    pub fn advance<E>(&self, step: DocsStep<E>, reply: DocsReply<E>) -> (next: DocsStep<E>)
        requires
            answers(step@, reply@),
        ensures
            next@ == next_step(self@, step@, reply@),
            match (step@, reply@) {
                (DocsStepView::ReadBody { status }, DocsReplyView::Body(Ok(body))) => {
                    is_client_error(status) ==> if vstd::utf8::valid_utf8(body) {
                        vstd::utf8::encode_utf8(lossy_utf8(body)) == body
                    } else {
                        lossy_utf8(body).contains('\u{FFFD}')
                    }
                },
                _ => true,
            },
    {
        match (step, reply) {
            (DocsStep::LoadItem { .. }, DocsReply::Item(Some(docs))) => {
                DocsStep::Finished { source: RustdocSource::Local, text: docs }
            },
            (DocsStep::LoadItem { .. }, DocsReply::Item(None)) => self.build_message(),
            (DocsStep::ReadFile { .. }, DocsReply::File(Some(contents))) => DocsStep::Convert {
                source: RustdocSource::Local,
                html: contents.as_str().as_bytes_vec(),
            },
            (DocsStep::ReadFile { .. }, DocsReply::File(None)) => DocsStep::Get { url: self.url() },
            (DocsStep::Get { .. }, DocsReply::Response(Ok(status))) => {
                DocsStep::ReadBody { status }
            },
            (DocsStep::Get { .. }, DocsReply::Response(Err(e))) => {
                DocsStep::Failed(DocsError::Host(e))
            },
            (DocsStep::ReadBody { status }, DocsReply::Body(Ok(body))) => {
                if 400 <= status && status < 500 {
                    let text = lossy_text(&body);
                    let shown = quoted_text(text.as_str());
                    DocsStep::Failed(
                        DocsError::Status(status_error_message(status, shown.as_str())),
                    )
                } else {
                    DocsStep::Convert { source: RustdocSource::DocsDotRs, html: body }
                }
            },
            (DocsStep::ReadBody { .. }, DocsReply::Body(Err(e))) => {
                DocsStep::Failed(DocsError::ReadingBody(e))
            },
            (DocsStep::Convert { source, .. }, DocsReply::Markdown(Ok(markdown))) => {
                DocsStep::Finished { source, text: markdown }
            },
            (DocsStep::Convert { .. }, DocsReply::Markdown(Err(e))) => {
                DocsStep::Failed(DocsError::Host(e))
            },
            (other, _) => other,
        }
    }
}

} // verus!
