//! What holds of a run of the documentation command as a whole.

#[allow(unused_imports)]
use crate::docs_run;
use crate::docs_run::{DocsErrorView, DocsReply, DocsReplyView, DocsStep, DocsStepView};
#[allow(unused_imports)]
use crate::rustdoc_command;
use crate::rustdoc_command::{
    DocsRequest, DocsRequestView, IndexError, RunError, RustdocSource, WorkspaceHandle,
};
#[allow(unused_imports)]
use crate::text;
use vstd::prelude::*;

verus! {

/// How a host replies in a run, to whatever it is asked.
pub struct HostReplies<E> {
    /// the documentation in the store, by the crate and the path in it
    pub item: spec_fn(Seq<char>, Seq<char>) -> Option<Seq<char>>,
    /// what a file of the Cargo workspace holds, by the components of its path
    pub file: spec_fn(Seq<Seq<char>>) -> Option<Seq<char>>,
    /// the status of the answer, by the URL
    pub response: spec_fn(Seq<char>) -> Result<u16, E>,
    /// the body of the answer, by its status
    pub body: spec_fn(u16) -> Result<Seq<u8>, E>,
    /// the Markdown for a page, by its source and what it holds
    pub convert: spec_fn(RustdocSource, Seq<u8>) -> Result<Seq<char>, E>,
}

/// The host's reply to a step.
pub open spec fn reply_to<E>(host: HostReplies<E>, step: DocsStepView<E>) -> DocsReplyView<E> {
    match step {
        DocsStepView::LoadItem { crate_name, item_path } => DocsReplyView::Item(
            (host.item)(crate_name, item_path),
        ),
        DocsStepView::ReadFile { components } => DocsReplyView::File((host.file)(components)),
        DocsStepView::Get { url } => DocsReplyView::Response((host.response)(url)),
        DocsStepView::ReadBody { status } => DocsReplyView::Body((host.body)(status)),
        DocsStepView::Convert { source, html } => DocsReplyView::Markdown(
            (host.convert)(source, html),
        ),
        _ => DocsReplyView::Item(None),
    }
}

/// Whether a run is over.
pub open spec fn is_over<E>(step: DocsStepView<E>) -> bool {
    step is Finished || step is Failed
}

/// The step that a run has come to after up to `replies` replies.
pub open spec fn run_from<E>(
    request: DocsRequestView,
    host: HostReplies<E>,
    step: DocsStepView<E>,
    replies: nat,
) -> DocsStepView<E>
    decreases replies,
{
    if replies == 0 || is_over(step) {
        step
    } else {
        run_from(
            request,
            host,
            docs_run::next_step(request, step, reply_to(host, step)),
            (replies - 1) as nat,
        )
    }
}

/// The end of a run on a page from a source.
pub open spec fn converted<E>(source: RustdocSource, markdown: Result<Seq<char>, E>) -> DocsStepView<
    E,
> {
    match markdown {
        Ok(text) => DocsStepView::Finished { source, text },
        Err(e) => DocsStepView::Failed(DocsErrorView::Host(e)),
    }
}

/// What the store says of the item.
pub open spec fn stored<E>(request: DocsRequestView, host: HostReplies<E>) -> Option<Seq<char>> {
    (host.item)(request.crate_name, text::join(request.item_path, "::"@))
}

/// What the local page of the item holds, where there is a Cargo workspace.
pub open spec fn local<E>(request: DocsRequestView, host: HostReplies<E>) -> Option<Seq<char>> {
    if request.has_cargo_root {
        (host.file)(docs_run::local_page(request))
    } else {
        None
    }
}

/// The end of a run: what the store has comes first, then the local page of a
/// Cargo workspace, and then docs.rs.
pub open spec fn outcome<E>(request: DocsRequestView, host: HostReplies<E>) -> DocsStepView<E> {
    match (stored(request, host), local(request, host)) {
        (Some(docs), _) => DocsStepView::Finished { source: RustdocSource::Local, text: docs },
        (None, Some(page)) => converted(
            RustdocSource::Local,
            (host.convert)(RustdocSource::Local, vstd::utf8::encode_utf8(page)),
        ),
        (None, None) => match (host.response)(docs_run::docs_rs_url(request)) {
            Err(e) => DocsStepView::Failed(DocsErrorView::Host(e)),
            Ok(status) => match (host.body)(status) {
                Err(e) => DocsStepView::Failed(DocsErrorView::ReadingBody(e)),
                Ok(body) => if status / 100 == 4 {
                    let shown = docs_run::quoted(docs_run::lossy_utf8(body));
                    DocsStepView::Failed(
                        DocsErrorView::Status(docs_run::status_error(status, shown)),
                    )
                } else {
                    converted(
                        RustdocSource::DocsDotRs,
                        (host.convert)(RustdocSource::DocsDotRs, body),
                    )
                },
            },
        },
    }
}

/// Every reply of a host is one to the step that it was asked for, so that a
/// run can go on until it is over.
pub proof fn law_host_answers_every_step<E>(host: HostReplies<E>, step: DocsStepView<E>)
    requires
        !is_over(step),
    ensures
        docs_run::answers(step, reply_to(host, step)),
{
}

/// Five replies end a run, and it ends with its outcome. A page is taken from
/// docs.rs only where neither the store nor the Cargo workspace has it.
pub proof fn law_run_ends_with_its_outcome<E>(request: DocsRequestView, host: HostReplies<E>)
    ensures
        is_over(run_from(request, host, docs_run::first_step(request), 5)),
        run_from(request, host, docs_run::first_step(request), 5) == outcome(request, host),
        outcome(request, host) matches DocsStepView::Finished { source, .. } ==> (source
            == RustdocSource::DocsDotRs <==> stored(request, host) is None && local(request, host)
            is None),
{
    reveal_with_fuel(run_from, 6);
}

/// The label of the documentation that an argument asks for shows the argument.
pub proof fn law_label_shows_the_argument(argument: Seq<char>, has_cargo_root: bool)
    ensures
        ({
            let request = rustdoc_command::request_for(argument, has_cargo_root);
            let path = rustdoc_command::path_in_crate(request);
            &&& rustdoc_command::crate_path(request.crate_name, path) == argument
            &&& rustdoc_command::placeholder_label(RustdocSource::Local, request.crate_name, path)
                == "rustdoc (local): "@ + argument
            &&& rustdoc_command::placeholder_label(
                RustdocSource::DocsDotRs,
                request.crate_name,
                path,
            ) == "rustdoc (docs.rs): "@ + argument
        }),
{
    reveal_strlit("::");
    reveal_strlit("rustdoc (");
    reveal_strlit("local");
    reveal_strlit("docs.rs");
    reveal_strlit("): ");
    reveal_strlit("rustdoc (local): ");
    reveal_strlit("rustdoc (docs.rs): ");
    assert("rustdoc (local): "@ =~= "rustdoc ("@ + "local"@ + "): "@);
    assert("rustdoc (docs.rs): "@ =~= "rustdoc ("@ + "docs.rs"@ + "): "@);
    text::law_join_undoes_split(argument, "::"@);
}

/// Neither the crate's name nor a part of the path within the crate holds two
/// colons in a row.
pub proof fn law_parts_of_a_request_hold_no_separator(
    argument: Seq<char>,
    has_cargo_root: bool,
    i: int,
)
    ensures
        ({
            let request = rustdoc_command::request_for(argument, has_cargo_root);
            &&& !text::occurs_at(request.crate_name, "::"@, i)
            &&& forall|k: int|
                0 <= k < request.item_path.len() ==> !text::occurs_at(
                    #[trigger] request.item_path[k],
                    "::"@,
                    i,
                )
        }),
{
    reveal_strlit("::");
    text::law_join_undoes_split(argument, "::"@);
    text::law_pieces_hold_no_separator(argument, "::"@, 0, i);
    let request = rustdoc_command::request_for(argument, has_cargo_root);
    assert forall|k: int| 0 <= k < request.item_path.len() implies !text::occurs_at(
        #[trigger] request.item_path[k],
        "::"@,
        i,
    ) by {
        text::law_pieces_hold_no_separator(argument, "::"@, k + 1, i);
    }
}

/// What a step leads to depends on the reply and on what the step found so far,
/// and not on what it asked for.
pub proof fn law_question_does_not_matter_afterwards<E>(
    request: DocsRequestView,
    a: DocsStepView<E>,
    b: DocsStepView<E>,
    reply: DocsReplyView<E>,
)
    requires
        docs_run::answers(a, reply),
        docs_run::answers(b, reply),
        a is ReadBody ==> a->status == b->status,
        a is Convert ==> a->Convert_source == b->Convert_source,
    ensures
        docs_run::next_step(request, a, reply) == docs_run::next_step(request, b, reply),
{
}

/// The crate's name ends at the first two colons of an argument, and the path
/// goes on with what an argument of the rest would name. An argument without
/// two colons is a crate's name.
pub proof fn law_argument_is_a_path(
    head: Seq<char>,
    rest: Seq<char>,
    name: Seq<char>,
    has_cargo_root: bool,
)
    requires
        forall|i: int|
            0 <= i < head.len() ==> #[trigger] (head + "::"@ + rest).subrange(i, i + 2) != "::"@,
        forall|i: int| 0 <= i <= name.len() - 2 ==> #[trigger] name.subrange(i, i + 2) != "::"@,
    ensures
        ({
            let request = rustdoc_command::request_for(head + "::"@ + rest, has_cargo_root);
            let after = rustdoc_command::request_for(rest, has_cargo_root);
            let alone = rustdoc_command::request_for(name, has_cargo_root);
            &&& request.crate_name == head
            &&& request.item_path == seq![after.crate_name] + after.item_path
            &&& request.has_cargo_root == has_cargo_root
            &&& alone.crate_name == name
            &&& alone.item_path.len() == 0
            &&& alone.has_cargo_root == has_cargo_root
        }),
{
    reveal_strlit("::");
    let sep = "::"@;
    assert(sep.len() == 2);
    assert forall|i: int| 0 <= i < head.len() implies #[trigger] (head + sep + rest).subrange(
        i,
        i + sep.len(),
    ) != sep by {
        assert((head + "::"@ + rest).subrange(i, i + 2) != "::"@);
    }
    assert forall|i: int| 0 <= i <= name.len() - sep.len() implies #[trigger] name.subrange(
        i,
        i + sep.len(),
    ) != sep by {
        assert(name.subrange(i, i + 2) != "::"@);
    }
    text::law_first_piece_ends_at_first_separator(head, sep, rest);
    text::law_text_without_separator_is_one_piece(name, sep);
    text::law_join_undoes_split(rest, sep);
    let parts = text::split(rest, sep);
    let request = rustdoc_command::request_for(head + sep + rest, has_cargo_root);
    assert(request.item_path =~= parts);
    assert(parts =~= seq![parts[0]] + parts.skip(1));
}

/// The store is asked for the item that the argument names: the crate and the
/// path in it make up the argument. The path is empty where the argument is a
/// crate's name.
pub proof fn law_store_is_asked_for_the_argument<E>(argument: Seq<char>, has_cargo_root: bool)
    ensures
        ({
            let request = rustdoc_command::request_for(argument, has_cargo_root);
            let step = docs_run::first_step::<E>(request);
            &&& step is LoadItem
            &&& step->crate_name == request.crate_name
            &&& request.item_path.len() == 0 ==> step->item_path.len() == 0 && request.crate_name
                == argument
            &&& request.item_path.len() > 0 ==> request.crate_name + seq![':', ':']
                + step->item_path == argument
        }),
{
    reveal_strlit("::");
    assert("::"@ =~= seq![':', ':']);
    text::law_join_undoes_split(argument, "::"@);
}

/// A path within the crate is shown exactly where the argument has one, and is
/// what follows the crate's name and two colons. What is shown is the crate's
/// name, and then these.
pub proof fn law_shown_path(
    argument: Seq<char>,
    has_cargo_root: bool,
    crate_name: Seq<char>,
    path: Seq<char>,
)
    ensures
        ({
            let request = rustdoc_command::request_for(argument, has_cargo_root);
            let shown = rustdoc_command::path_in_crate(request);
            &&& shown is None <==> request.item_path.len() == 0
            &&& shown is None ==> request.crate_name == argument
            &&& shown is Some ==> request.crate_name + seq![':', ':'] + shown->0 == argument
        }),
        rustdoc_command::crate_path(crate_name, None) == crate_name,
        rustdoc_command::crate_path(crate_name, Some(path)) == crate_name + seq![':', ':'] + path,
{
    reveal_strlit("::");
    assert("::"@ =~= seq![':', ':']);
    text::law_join_undoes_split(argument, "::"@);
}

/// The two sources have different names.
pub proof fn law_names_tell_sources_apart(a: RustdocSource, b: RustdocSource)
    ensures
        rustdoc_command::source_name(a) == rustdoc_command::source_name(b) <==> a == b,
{
    reveal_strlit("local");
    reveal_strlit("docs.rs");
    assert("local"@.len() == 5 && "docs.rs"@.len() == 7);
}

/// The URL of the page of a whole crate on docs.rs.
pub open spec fn crate_url(crate_name: Seq<char>) -> Seq<char> {
    "https://docs.rs/"@ + crate_name + "/latest/"@ + crate_name + "/"@
}

/// No part of a path holds a slash.
pub open spec fn has_no_slash(path: Seq<Seq<char>>) -> bool {
    forall|i: int| 0 <= i < path.len() ==> !(#[trigger] path[i]).contains('/')
}

/// The URL of an item is that of its crate and then the path of the item.
/// Without a path nothing follows. One more part of the path adds that part,
/// and a slash before it if it is not the first.
pub proof fn law_url_grows_with_the_path(request: DocsRequestView, part: Seq<char>)
    ensures
        ({
            let url = docs_run::docs_rs_url(request);
            let longer = DocsRequestView { item_path: request.item_path.push(part), ..request };
            &&& request.item_path.len() == 0 ==> url == crate_url(request.crate_name)
            &&& docs_run::docs_rs_url(longer) == url + (if request.item_path.len() == 0 {
                part
            } else {
                seq!['/'] + part
            })
        }),
{
    reveal_strlit("/");
    assert("/"@ =~= seq!['/']);
    let path = request.item_path;
    let longer = DocsRequestView { item_path: path.push(part), ..request };
    assert(path.push(part) =~= path + seq![part]);
    text::law_join_puts_separators_between(part, path, seq![part], "/"@);
    if path.len() == 0 {
        assert(docs_run::docs_rs_url(request) =~= crate_url(request.crate_name));
        assert(path + seq![part] =~= seq![part]);
        assert(docs_run::docs_rs_url(longer) =~= docs_run::docs_rs_url(request) + part);
    } else {
        assert(docs_run::docs_rs_url(longer) =~= docs_run::docs_rs_url(request) + (seq!['/']
            + part));
    }
}

/// The URL of an item begins with that of its crate. What follows, split at the
/// slashes, is the path of the item, where no part of it holds a slash.
pub proof fn law_url_names_the_path(request: DocsRequestView)
    ensures
        ({
            let url = docs_run::docs_rs_url(request);
            let front = crate_url(request.crate_name);
            &&& front.len() <= url.len()
            &&& url.take(front.len() as int) == front
            &&& request.item_path.len() == 0 ==> url.skip(front.len() as int).len() == 0
            &&& request.item_path.len() > 0 && has_no_slash(request.item_path) ==> text::split(
                url.skip(front.len() as int),
                seq!['/'],
            ) == request.item_path
        }),
{
    reveal_strlit("/");
    assert("/"@ =~= seq!['/']);
    let url = docs_run::docs_rs_url(request);
    let front = crate_url(request.crate_name);
    let tail = text::join(request.item_path, seq!['/']);
    assert(url =~= front + tail);
    assert(url.take(front.len() as int) =~= front);
    assert(url.skip(front.len() as int) =~= tail);
    if request.item_path.len() > 0 && has_no_slash(request.item_path) {
        text::law_split_undoes_join(request.item_path, '/');
    }
}

/// Different items have different URLs, where neither the crate's name nor a
/// part of the path holds a slash, and the path is not a single empty part.
pub proof fn law_urls_tell_items_apart(a: DocsRequestView, b: DocsRequestView)
    requires
        !a.crate_name.contains('/'),
        !b.crate_name.contains('/'),
        has_no_slash(a.item_path),
        has_no_slash(b.item_path),
        a.item_path != seq![Seq::<char>::empty()],
        b.item_path != seq![Seq::<char>::empty()],
        docs_run::docs_rs_url(a) == docs_run::docs_rs_url(b),
    ensures
        a.crate_name == b.crate_name,
        a.item_path == b.item_path,
{
    let url = docs_run::docs_rs_url(a);
    lemma_crate_is_in_url(a);
    lemma_crate_is_in_url(b);
    law_url_names_the_path(a);
    law_url_names_the_path(b);
    let tail = url.skip(crate_url(a.crate_name).len() as int);
    if a.item_path.len() == 0 || b.item_path.len() == 0 {
        assert(tail =~= Seq::<char>::empty());
        text::lemma_split_whole(tail, '/');
        assert(a.item_path =~= b.item_path);
    }
}

/// The first piece of a URL after the host is the crate's name.
proof fn lemma_crate_is_in_url(request: DocsRequestView)
    requires
        !request.crate_name.contains('/'),
    ensures
        text::split(
            docs_run::docs_rs_url(request).skip("https://docs.rs/"@.len() as int),
            seq!['/'],
        )[0] == request.crate_name,
{
    reveal_strlit("/latest/");
    reveal_strlit("/");
    let c = request.crate_name;
    let tail = text::join(request.item_path, "/"@);
    let after = "/latest/"@ + c + "/"@ + tail;
    let url = docs_run::docs_rs_url(request);
    let rest = url.skip("https://docs.rs/"@.len() as int);
    assert(rest =~= c + after);
    assert(after[0] == '/');
    assert(rest =~= c + seq!['/'] + after.skip(1));
    text::lemma_split_first(c, '/', after.skip(1));
}

/// The local page lies below `target/doc` and the crate's name, and is called
/// `index.html`. Between these is the path of the item, as the URL has it, if
/// there is one.
pub proof fn law_local_page_lies_where_the_url_says(request: DocsRequestView)
    ensures
        ({
            let page = docs_run::local_page(request);
            &&& page.len() == if request.item_path.len() == 0 {
                3int
            } else {
                4int
            }
            &&& page[0] == "target/doc"@
            &&& page[1] == request.crate_name
            &&& page.last() == "index.html"@
            &&& request.item_path.len() > 0 ==> docs_run::docs_rs_url(request) == crate_url(
                request.crate_name,
            ) + page[2]
        }),
{
    let page = docs_run::local_page(request);
    if request.item_path.len() > 0 {
        assert(docs_run::docs_rs_url(request) =~= crate_url(request.crate_name) + page[2]);
    }
}

/// The statuses that say that the request was wrong are those of three digits
/// that begin with a four.
pub proof fn law_client_errors_begin_with_four(status: u16)
    ensures
        docs_run::is_client_error(status) <==> status / 100 == 4,
{
}

/// The message for a wrong request begins and ends with fixed words and the
/// quoted body. Between them is the status in base ten.
pub proof fn law_message_tells_the_status(status: u16, quoted: Seq<char>)
    ensures
        ({
            let message = docs_run::status_error(status, quoted);
            let front = "status error "@;
            let back = ", response: "@ + quoted;
            let middle = message.subrange(front.len() as int, message.len() - back.len());
            &&& front.len() + back.len() < message.len()
            &&& front.is_prefix_of(message)
            &&& back.is_suffix_of(message)
            &&& forall|i: int| 0 <= i < middle.len() ==> '0' <= #[trigger] middle[i] <= '9'
            &&& text::value_of(middle) == status
            &&& middle[0] == '0' ==> status == 0
        }),
{
    text::law_decimal_stands_for_its_number(status as nat);
    let message = docs_run::status_error(status, quoted);
    let front = "status error "@;
    let back = ", response: "@ + quoted;
    let middle = message.subrange(front.len() as int, message.len() - back.len());
    assert(middle =~= text::decimal(status as nat));
    assert(message.subrange(0, front.len() as int) =~= front);
    assert(message.subrange(message.len() - back.len(), message.len() as int) =~= back);
}

/// A crate's name and a colon ask for the crate to be indexed, and nothing else
/// does.
pub proof fn law_name_and_colon_ask_for_an_index(name: Seq<char>, query: Seq<char>)
    ensures
        !name.contains(':') ==> rustdoc_command::crate_to_index(name + seq![':']) == Some(name),
        rustdoc_command::crate_to_index(query) matches Some(found) ==> query == found + seq![':']
            && !found.contains(':'),
{
    assert((name + seq![':']).drop_last() =~= name);
    if query.len() > 0 && query.last() == ':' {
        assert(query =~= query.drop_last() + seq![':']);
    }
}

/// A crate can be indexed exactly in an open workspace with a Cargo workspace.
/// Otherwise what is missing first is the reason.
pub proof fn law_reason_is_what_is_missing(workspace: WorkspaceHandle, has_cargo_root: bool)
    ensures
        ({
            let obstacle = rustdoc_command::index_obstacle(workspace, has_cargo_root);
            &&& obstacle is None <==> workspace == WorkspaceHandle::Open && has_cargo_root
            &&& obstacle == Some(IndexError::NoWorkspace) <==> workspace == WorkspaceHandle::Absent
            &&& obstacle == Some(IndexError::WorkspaceDropped) <==> workspace
                == WorkspaceHandle::Dropped
        }),
{
}

/// Completing a crate's name and a colon indexes the crate in an open workspace
/// with a Cargo workspace, and logs what is missing otherwise: never both, and
/// neither for a query that is something else.
pub proof fn law_completion_indexes_or_logs(
    name: Seq<char>,
    query: Seq<char>,
    workspace: WorkspaceHandle,
    has_cargo_root: bool,
)
    requires
        !name.contains(':'),
        forall|other: Seq<char>| !other.contains(':') ==> query != #[trigger] other.push(':'),
    ensures
        ({
            let able = workspace == WorkspaceHandle::Open && has_cargo_root;
            let asked = name.push(':');
            let logged = rustdoc_command::logged_error(asked, workspace, has_cargo_root);
            &&& rustdoc_command::indexed_crate(asked, workspace, has_cargo_root) == (if able {
                Some(name)
            } else {
                None
            })
            &&& logged is Some <==> !able
            &&& workspace == WorkspaceHandle::Absent ==> logged == Some(IndexError::NoWorkspace)
            &&& workspace == WorkspaceHandle::Dropped ==> logged == Some(
                IndexError::WorkspaceDropped,
            )
            &&& workspace == WorkspaceHandle::Open && !has_cargo_root ==> logged == Some(
                IndexError::NoCargoRoot,
            )
            &&& rustdoc_command::indexed_crate(query, workspace, has_cargo_root) is None
            &&& rustdoc_command::logged_error(query, workspace, has_cargo_root) is None
        }),
{
    law_name_and_colon_ask_for_an_index(name, query);
    assert(name.push(':') =~= name + seq![':']);
    if rustdoc_command::crate_to_index(query) is Some {
        let other = rustdoc_command::crate_to_index(query)->0;
        assert(other.push(':') =~= other + seq![':']);
    }
}

/// The command starts exactly with an argument and an open workspace. A missing
/// argument is the error even where the workspace is gone. What it starts
/// names the whole argument.
pub proof fn law_command_starts_with_argument_and_workspace(
    argument: Option<Seq<char>>,
    workspace_open: bool,
    has_cargo_root: bool,
)
    ensures
        ({
            let result = rustdoc_command::run_result(argument, workspace_open, has_cargo_root);
            &&& result is Ok <==> argument is Some && workspace_open
            &&& argument is None ==> result == Err::<DocsRequestView, RunError>(
                RunError::MissingCrateName,
            )
            &&& argument is Some && !workspace_open ==> result == Err::<DocsRequestView, RunError>(
                RunError::WorkspaceDropped,
            )
            &&& result is Ok ==> result->Ok_0.has_cargo_root == has_cargo_root && text::join(
                seq![result->Ok_0.crate_name] + result->Ok_0.item_path,
                "::"@,
            ) == argument->0
        }),
{
    if argument is Some {
        reveal_strlit("::");
        let parts = text::split(argument->0, "::"@);
        text::law_join_undoes_split(argument->0, "::"@);
        assert(seq![parts[0]] + parts.skip(1) =~= parts);
    }
}

/// The view of a request holds all that the request holds.
pub proof fn law_view_holds_the_request(request: DocsRequest)
    ensures
        request@.crate_name == request.crate_name@,
        request@.has_cargo_root == request.has_cargo_root,
        request@.item_path.len() == request.item_path@.len(),
        forall|i: int|
            0 <= i < request.item_path@.len() ==> #[trigger] request@.item_path[i]
                == request.item_path@[i]@,
{
}

/// The view of a step holds all that the step holds.
pub proof fn law_view_holds_the_step<E>(step: DocsStep<E>)
    ensures
        step is LoadItem ==> step@ is LoadItem && step@->crate_name == step->crate_name@
            && step@->item_path == step->item_path@,
        step is ReadFile ==> step@ is ReadFile && step@->components.len() == step->components@.len()
            && forall|i: int|
            0 <= i < step->components@.len() ==> #[trigger] step@->components[i]
                == step->components@[i]@,
        step is Get ==> step@ is Get && step@->url == step->url@,
        step is ReadBody ==> step@ is ReadBody && step@->status == step->status,
        step is Convert ==> step@ is Convert && step@->Convert_source == step->Convert_source
            && step@->html == step->html@,
        step is Finished ==> step@ is Finished && step@->Finished_source == step->Finished_source
            && step@->text == step->text@,
        step is Failed ==> step@ is Failed,
        step is Failed && step->Failed_0 is Host ==> step@->Failed_0 == DocsErrorView::Host(
            step->Failed_0->Host_0,
        ),
        step is Failed && step->Failed_0 is ReadingBody ==> step@->Failed_0
            == DocsErrorView::ReadingBody(step->Failed_0->ReadingBody_0),
        step is Failed && step->Failed_0 is Status ==> step@->Failed_0 == DocsErrorView::<
            E,
        >::Status(step->Failed_0->Status_0@),
{
}

/// The view of a reply holds all that the reply holds.
pub proof fn law_view_holds_the_reply<E>(reply: DocsReply<E>)
    ensures
        reply is Item ==> reply@ is Item && (reply@->Item_0 is Some <==> reply->Item_0 is Some) && (
        reply->Item_0 is Some ==> reply@->Item_0->0 == reply->Item_0->0@),
        reply is File ==> reply@ is File && (reply@->File_0 is Some <==> reply->File_0 is Some) && (
        reply->File_0 is Some ==> reply@->File_0->0 == reply->File_0->0@),
        reply is Response ==> reply@ == DocsReplyView::Response(reply->Response_0),
        reply is Body ==> reply@ is Body && (match reply->Body_0 {
            Ok(body) => reply@->Body_0 == Ok::<Seq<u8>, E>(body@),
            Err(e) => reply@->Body_0 == Err::<Seq<u8>, E>(e),
        }),
        reply is Markdown ==> reply@ is Markdown && (match reply->Markdown_0 {
            Ok(markdown) => reply@->Markdown_0 == Ok::<Seq<char>, E>(markdown@),
            Err(e) => reply@->Markdown_0 == Err::<Seq<char>, E>(e),
        }),
{
}

} // verus!
