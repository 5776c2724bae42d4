use editor_kit::docs_run::{status_error_message, DocsError, DocsReply, DocsStep};
use editor_kit::manifest::{path_to_cargo_toml, ManifestReply, ManifestStep};
use editor_kit::rustdoc_command::{
    DocsRequest, IndexError, RunError, RustdocPlaceholder, RustdocSlashCommand, RustdocSource,
    WorkspaceHandle,
};

fn request(argument: &str, has_cargo_root: bool) -> DocsRequest {
    RustdocSlashCommand.run(Some(argument), true, has_cargo_root).unwrap()
}

fn load_item() -> DocsStep<&'static str> {
    DocsStep::LoadItem { crate_name: "c".to_string(), item_path: "".to_string() }
}

#[test]
fn command_describes_itself() {
    assert_eq!(RustdocSlashCommand.name(), "rustdoc");
    assert_eq!(RustdocSlashCommand.description(), "insert Rust docs");
    assert_eq!(RustdocSlashCommand.menu_text(), "Insert Rust Documentation");
    assert!(RustdocSlashCommand.requires_argument());
}

#[test]
fn run_needs_an_argument_and_a_workspace() {
    let run = |argument, open| RustdocSlashCommand.run(argument, open, true);
    assert_eq!(run(None, true).unwrap_err(), RunError::MissingCrateName);
    assert_eq!(run(None, false).unwrap_err(), RunError::MissingCrateName);
    assert_eq!(run(Some("tokio"), false).unwrap_err(), RunError::WorkspaceDropped);
    assert_eq!(RunError::MissingCrateName.message(), "missing crate name");
    assert_eq!(RunError::WorkspaceDropped.message(), "workspace was dropped");
}

#[test]
fn run_splits_the_argument() {
    let parts = |argument| {
        let made = request(argument, false);
        assert!(!made.has_cargo_root);
        (made.crate_name, made.item_path)
    };
    assert_eq!(parts("tokio"), ("tokio".to_string(), vec![]));
    assert_eq!(
        parts("tokio::sync::Mutex"),
        ("tokio".to_string(), vec!["sync".to_string(), "Mutex".to_string()])
    );
    assert_eq!(parts(""), ("".to_string(), vec![]));
    assert_eq!(parts("a:::b"), ("a".to_string(), vec![":b".to_string()]));
    assert_eq!(parts("a::"), ("a".to_string(), vec!["".to_string()]));
    assert!(request("tokio", true).has_cargo_root);
}

#[test]
fn parts_of_a_request_hold_no_separator() {
    let made = request("a:::b::::c::d", false);
    assert!(!made.crate_name.contains("::"));
    assert!(made.item_path.iter().all(|part| !part.contains("::")));
    assert_eq!(made.item_path, vec![":b", "", "c", "d"]);
}

#[test]
fn store_is_asked_first() {
    let made = request("tokio::sync::Mutex", true);
    match made.start::<()>() {
        DocsStep::LoadItem { crate_name, item_path } => {
            assert_eq!(crate_name, "tokio");
            assert_eq!(item_path, "sync::Mutex");
        }
        other => panic!("{:?}", other),
    }
    match made.advance(load_item(), DocsReply::Item(Some("docs".to_string()))) {
        DocsStep::Finished { source, text } => {
            assert_eq!(source, RustdocSource::Local);
            assert_eq!(text, "docs");
        }
        other => panic!("{:?}", other),
    }
}

#[test]
fn local_page_is_read_next() {
    let components = |argument| request(argument, true).local_page_components();
    assert_eq!(components("tokio"), vec!["target/doc", "tokio", "index.html"]);
    assert_eq!(components("tokio::sync::a"), vec!["target/doc", "tokio", "sync/a", "index.html"]);
    let made = request("tokio", true);
    match made.advance(load_item(), DocsReply::Item(None)) {
        DocsStep::ReadFile { components } => {
            assert_eq!(components, vec!["target/doc", "tokio", "index.html"]);
            let step: DocsStep<&str> = DocsStep::ReadFile { components };
            match made.advance(step, DocsReply::File(Some("é".to_string()))) {
                DocsStep::Convert { source, html } => {
                    assert_eq!(source, RustdocSource::Local);
                    assert_eq!(html, "é".as_bytes());
                }
                other => panic!("{:?}", other),
            }
        }
        other => panic!("{:?}", other),
    }
}

#[test]
fn docs_rs_is_asked_last() {
    assert_eq!(request("tokio", false).url(), "https://docs.rs/tokio/latest/tokio/");
    assert_eq!(
        request("tokio::sync::mpsc", false).url(),
        "https://docs.rs/tokio/latest/tokio/sync/mpsc"
    );
    let made = request("tokio", false);
    match made.advance(load_item(), DocsReply::Item(None)) {
        DocsStep::Get { url } => assert_eq!(url, "https://docs.rs/tokio/latest/tokio/"),
        other => panic!("{:?}", other),
    }
    let step: DocsStep<&str> = DocsStep::ReadFile { components: vec![] };
    match made.advance(step, DocsReply::File(None)) {
        DocsStep::Get { url } => assert_eq!(url, "https://docs.rs/tokio/latest/tokio/"),
        other => panic!("{:?}", other),
    }
}

#[test]
fn answer_of_docs_rs_is_read_and_converted() {
    let made = request("tokio", false);
    let get = || DocsStep::Get { url: "u".to_string() };
    assert!(matches!(made.advance(get(), DocsReply::Response(Err("down"))), DocsStep::Failed(DocsError::Host("down"))));
    assert!(matches!(made.advance::<&str>(get(), DocsReply::Response(Ok(200))), DocsStep::ReadBody { status: 200 }));
    let body = |status| DocsStep::ReadBody { status };
    assert!(matches!(made.advance(body(404), DocsReply::Body(Err("cut"))), DocsStep::Failed(DocsError::ReadingBody("cut"))));
    for status in [200u16, 301, 399, 500, 503] {
        match made.advance::<&str>(body(status), DocsReply::Body(Ok(vec![1, 2]))) {
            DocsStep::Convert { source, html } => {
                assert_eq!(source, RustdocSource::DocsDotRs);
                assert_eq!(html, vec![1, 2]);
            }
            other => panic!("{:?}", other),
        }
    }
}

#[test]
fn client_errors_are_reported() {
    let made = request("tokio", false);
    let failed = |status: u16, body: &[u8]| {
        match made.advance::<&str>(DocsStep::ReadBody { status }, DocsReply::Body(Ok(body.to_vec()))) {
            DocsStep::Failed(DocsError::Status(message)) => message,
            other => panic!("{:?}", other),
        }
    };
    assert_eq!(failed(404, b"not \"found\"\n"), "status error 404, response: \"not \\\"found\\\"\\n\"");
    assert_eq!(failed(400, b""), "status error 400, response: \"\"");
    assert_eq!(failed(499, b"a\xffb"), "status error 499, response: \"a\u{fffd}b\"");
    assert_eq!(status_error_message(418, "<tea>"), "status error 418, response: <tea>");
}

#[test]
fn errors_while_reading_the_body_have_context() {
    assert_eq!(
        DocsError::ReadingBody("cut").context(),
        Some("error reading docs.rs response body".to_string())
    );
    assert_eq!(DocsError::Host("down").context(), None);
    assert_eq!(DocsError::<&str>::Status("s".to_string()).context(), None);
}

#[test]
fn conversion_ends_the_run() {
    let made = request("tokio", false);
    let convert = |source| DocsStep::Convert { source, html: vec![] };
    for source in [RustdocSource::Local, RustdocSource::DocsDotRs] {
        match made.advance::<&str>(convert(source), DocsReply::Markdown(Ok("# m".to_string()))) {
            DocsStep::Finished { source: from, text } => {
                assert_eq!(from, source);
                assert_eq!(text, "# m");
            }
            other => panic!("{:?}", other),
        }
        assert!(matches!(
            made.advance(convert(source), DocsReply::Markdown(Err("bad"))),
            DocsStep::Failed(DocsError::Host("bad"))
        ));
    }
}

#[test]
fn run_ends_with_its_outcome() {
    let made = request("tokio::sync", true);
    let mut step: DocsStep<&str> = made.start();
    let mut asked = Vec::new();
    loop {
        let reply = match &step {
            DocsStep::LoadItem { .. } => DocsReply::Item(None),
            DocsStep::ReadFile { .. } => DocsReply::File(None),
            DocsStep::Get { .. } => DocsReply::Response(Ok(200)),
            DocsStep::ReadBody { .. } => DocsReply::Body(Ok(b"<p>".to_vec())),
            DocsStep::Convert { html, .. } => {
                assert_eq!(html.as_slice(), b"<p>");
                DocsReply::Markdown(Ok("p".to_string()))
            }
            _ => break,
        };
        asked.push(());
        step = made.advance(step, reply);
    }
    assert_eq!(asked.len(), 5);
    assert!(matches!(step, DocsStep::Finished { source: RustdocSource::DocsDotRs, .. }));
}

#[test]
fn output_is_one_section() {
    let output = request("tokio::sync::a", true).output(RustdocSource::DocsDotRs, "é!".to_string());
    assert_eq!(output.text, "é!");
    assert!(!output.run_commands_in_text);
    assert_eq!(output.sections.len(), 1);
    assert_eq!((output.sections[0].start, output.sections[0].end), (0, 3));
    let placeholder = &output.sections[0].placeholder;
    assert_eq!(placeholder.source, RustdocSource::DocsDotRs);
    assert_eq!(placeholder.crate_name, "tokio");
    assert_eq!(placeholder.path_in_crate, Some("sync::a".to_string()));
    let output = request("tokio", true).output(RustdocSource::Local, "".to_string());
    assert_eq!((output.sections[0].start, output.sections[0].end), (0, 0));
    assert_eq!(output.sections[0].placeholder.path_in_crate, None);
}

#[test]
fn label_shows_the_argument() {
    for argument in ["tokio", "tokio::sync::a", "a:::b", "a::", ""] {
        let output = request(argument, true).output(RustdocSource::Local, "t".to_string());
        assert_eq!(
            output.sections[0].placeholder.label(),
            format!("rustdoc (local): {}", argument)
        );
    }
    let placeholder = RustdocPlaceholder {
        source: RustdocSource::DocsDotRs,
        crate_name: "a".to_string(),
        path_in_crate: Some("b".to_string()),
    };
    assert_eq!(placeholder.label(), "rustdoc (docs.rs): a::b");
}

#[test]
fn completion_indexes_a_crate() {
    let plan = RustdocSlashCommand.complete_argument("tokio:".to_string(), WorkspaceHandle::Open, true);
    assert_eq!(plan.index, Some("tokio".to_string()));
    assert_eq!(plan.logged, None);
    assert_eq!(plan.search, "tokio:");
    let plan = RustdocSlashCommand.complete_argument(":".to_string(), WorkspaceHandle::Open, true);
    assert_eq!(plan.index, Some("".to_string()));
}

#[test]
fn completion_only_searches_otherwise() {
    for query in ["", "tokio", "tokio::", "tokio:s", "::", ":a:"] {
        for workspace in [WorkspaceHandle::Absent, WorkspaceHandle::Dropped, WorkspaceHandle::Open] {
            let plan = RustdocSlashCommand.complete_argument(query.to_string(), workspace, false);
            assert_eq!(plan.index, None);
            assert_eq!(plan.logged, None);
            assert_eq!(plan.search, query);
        }
    }
}

#[test]
fn completion_logs_why_it_cannot_index() {
    let logged = |workspace, root| {
        let plan = RustdocSlashCommand.complete_argument("tokio:".to_string(), workspace, root);
        assert_eq!(plan.index, None);
        assert_eq!(plan.search, "tokio:");
        plan.logged.unwrap().message()
    };
    assert_eq!(logged(WorkspaceHandle::Absent, true), "no workspace");
    assert_eq!(logged(WorkspaceHandle::Dropped, true), "workspace was dropped");
    assert_eq!(logged(WorkspaceHandle::Open, false), "no Cargo workspace root found");
    assert_eq!(IndexError::NoWorkspace.message(), "no workspace");
}

#[test]
fn manifest_is_found_in_the_first_worktree() {
    let step = path_to_cargo_toml(ManifestStep::<&str>::FirstWorktree, ManifestReply::Worktree(Some(3)));
    match &step {
        ManifestStep::Entry { worktree, name } => {
            assert_eq!(*worktree, 3);
            assert_eq!(name, "Cargo.toml");
        }
        other => panic!("{:?}", other),
    }
    let step = path_to_cargo_toml(step, ManifestReply::Entry(Some("Cargo.toml")));
    assert!(matches!(step, ManifestStep::AbsolutePath { worktree: 3, path: "Cargo.toml" }));
    let step = path_to_cargo_toml(step, ManifestReply::AbsolutePath(Some("/p/Cargo.toml")));
    assert!(matches!(step, ManifestStep::Done(Some("/p/Cargo.toml"))));
}

#[test]
fn manifest_search_ends_without_an_answer() {
    let first = || ManifestStep::<&str>::FirstWorktree;
    assert!(matches!(path_to_cargo_toml(first(), ManifestReply::Worktree(None)), ManifestStep::Done(None)));
    let entry = ManifestStep::Entry { worktree: 0, name: "Cargo.toml".to_string() };
    assert!(matches!(path_to_cargo_toml::<&str>(entry, ManifestReply::Entry(None)), ManifestStep::Done(None)));
    let absolute = ManifestStep::AbsolutePath { worktree: 0, path: "Cargo.toml" };
    assert!(matches!(path_to_cargo_toml(absolute, ManifestReply::AbsolutePath(None)), ManifestStep::Done(None)));
}
