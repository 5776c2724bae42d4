//! The slash command that inserts the documentation of a Rust item.

#[allow(unused_imports)]
use crate::text;
use crate::text::{find, join_text, split_text};
use vstd::prelude::*;

verus! {

/// Where documentation was found.
#[derive(Copy, Clone, Debug, PartialEq, Eq, Structural)]
pub enum RustdocSource {
    /// The docs were sourced from local `cargo doc` output.
    Local,
    /// The docs were sourced from `docs.rs`.
    DocsDotRs,
}

/// The slash command.
pub struct RustdocSlashCommand;

/// The workspace that a command is given.
#[derive(Copy, Clone, Debug, PartialEq, Eq, Structural)]
pub enum WorkspaceHandle {
    /// There is none.
    Absent,
    /// It is gone.
    Dropped,
    /// It is open.
    Open,
}

/// Why the command did not start.
#[derive(Copy, Clone, Debug, PartialEq, Eq, Structural)]
pub enum RunError {
    /// There was no argument.
    MissingCrateName,
    /// The workspace is gone.
    WorkspaceDropped,
}

/// Why a crate cannot be indexed.
#[derive(Copy, Clone, Debug, PartialEq, Eq, Structural)]
pub enum IndexError {
    /// There is no workspace.
    NoWorkspace,
    /// The workspace is gone.
    WorkspaceDropped,
    /// The workspace has no Cargo workspace.
    NoCargoRoot,
}

/// The item whose documentation is wanted.
#[derive(Debug)]
pub struct DocsRequest {
    /// the crate of the item
    pub crate_name: String,
    /// the path of the item within the crate
    pub item_path: Vec<String>,
    /// whether there is a Cargo workspace to look in
    pub has_cargo_root: bool,
}

/// `DocsRequest` with its texts as sequences of characters.
#[verifier::ext_equal]
pub struct DocsRequestView {
    pub crate_name: Seq<char>,
    pub item_path: Seq<Seq<char>>,
    pub has_cargo_root: bool,
}

impl View for DocsRequest {
    type V = DocsRequestView;

    open spec fn view(&self) -> DocsRequestView {
        DocsRequestView {
            crate_name: self.crate_name@,
            item_path: text::texts(self.item_path@),
            has_cargo_root: self.has_cargo_root,
        }
    }
}

/// What stands for the inserted documentation while it is folded.
#[derive(Debug)]
pub struct RustdocPlaceholder {
    pub source: RustdocSource,
    pub crate_name: String,
    pub path_in_crate: Option<String>,
}

/// A part of the command's output that can be folded: the bytes of the text
/// from `start` up to `end`.
#[derive(Debug)]
pub struct OutputSection {
    pub start: usize,
    pub end: usize,
    pub placeholder: RustdocPlaceholder,
}

/// What the command inserts.
#[derive(Debug)]
pub struct SlashCommandOutput {
    pub text: String,
    pub sections: Vec<OutputSection>,
    pub run_commands_in_text: bool,
}

/// What is done to complete an argument.
#[derive(Debug)]
pub struct CompletionPlan {
    /// the crate to index first
    pub index: Option<String>,
    /// why a crate that was to be indexed cannot be
    pub logged: Option<IndexError>,
    /// what to search for
    pub search: String,
}

/// The message of an error.
pub open spec fn run_error_message(error: RunError) -> Seq<char> {
    match error {
        RunError::MissingCrateName => "missing crate name"@,
        RunError::WorkspaceDropped => "workspace was dropped"@,
    }
}

/// The message of an error.
pub open spec fn index_error_message(error: IndexError) -> Seq<char> {
    match error {
        IndexError::NoWorkspace => "no workspace"@,
        IndexError::WorkspaceDropped => "workspace was dropped"@,
        IndexError::NoCargoRoot => "no Cargo workspace root found"@,
    }
}

/// The request for the item that an argument names: the crate and the path
/// within it are separated by two colons.
pub open spec fn request_for(argument: Seq<char>, has_cargo_root: bool) -> DocsRequestView {
    let parts = text::split(argument, "::"@);
    DocsRequestView { crate_name: parts[0], item_path: parts.skip(1), has_cargo_root }
}

/// What running the command with an argument, if there is one, starts.
pub open spec fn run_result(
    argument: Option<Seq<char>>,
    workspace_open: bool,
    has_cargo_root: bool,
) -> Result<DocsRequestView, RunError> {
    match argument {
        None => Err(RunError::MissingCrateName),
        Some(argument) => if workspace_open {
            Ok(request_for(argument, has_cargo_root))
        } else {
            Err(RunError::WorkspaceDropped)
        },
    }
}

/// The path of the documented item, from its crate on.
pub open spec fn crate_path(crate_name: Seq<char>, path_in_crate: Option<Seq<char>>) -> Seq<char> {
    match path_in_crate {
        Some(path_in_crate) => crate_name + "::"@ + path_in_crate,
        None => crate_name,
    }
}

/// The path within the crate as it is shown, if there is one.
pub open spec fn path_in_crate(request: DocsRequestView) -> Option<Seq<char>> {
    if request.item_path.len() == 0 {
        None
    } else {
        Some(text::join(request.item_path, "::"@))
    }
}

/// The name of a source.
pub open spec fn source_name(source: RustdocSource) -> Seq<char> {
    match source {
        RustdocSource::Local => "local"@,
        RustdocSource::DocsDotRs => "docs.rs"@,
    }
}

/// The label of the documentation of an item.
pub open spec fn placeholder_label(
    source: RustdocSource,
    crate_name: Seq<char>,
    path_in_crate: Option<Seq<char>>,
) -> Seq<char> {
    "rustdoc ("@ + source_name(source) + "): "@ + crate_path(crate_name, path_in_crate)
}

/// The crate that a query asks to index: all of it but the colon at its end,
/// which has to be its only one.
pub open spec fn crate_to_index(query: Seq<char>) -> Option<Seq<char>> {
    if query.len() > 0 && query.last() == ':' && !query.drop_last().contains(':') {
        Some(query.drop_last())
    } else {
        None
    }
}

/// Why nothing can be indexed, if so.
pub open spec fn index_obstacle(workspace: WorkspaceHandle, has_cargo_root: bool) -> Option<
    IndexError,
> {
    match workspace {
        WorkspaceHandle::Absent => Some(IndexError::NoWorkspace),
        WorkspaceHandle::Dropped => Some(IndexError::WorkspaceDropped),
        WorkspaceHandle::Open => if has_cargo_root {
            None
        } else {
            Some(IndexError::NoCargoRoot)
        },
    }
}

/// The crate that completing a query indexes, if any.
pub open spec fn indexed_crate(
    query: Seq<char>,
    workspace: WorkspaceHandle,
    has_cargo_root: bool,
) -> Option<Seq<char>> {
    if index_obstacle(workspace, has_cargo_root) is None {
        crate_to_index(query)
    } else {
        None
    }
}

/// What completing a query logs, if anything.
pub open spec fn logged_error(
    query: Seq<char>,
    workspace: WorkspaceHandle,
    has_cargo_root: bool,
) -> Option<IndexError> {
    if crate_to_index(query) is Some {
        index_obstacle(workspace, has_cargo_root)
    } else {
        None
    }
}

impl RunError {
    /// What is wrong, for a person to read.
    pub fn message(&self) -> (message: String)
        ensures
            message@ == run_error_message(*self),
    {
        match *self {
            RunError::MissingCrateName => "missing crate name".to_owned(),
            RunError::WorkspaceDropped => "workspace was dropped".to_owned(),
        }
    }
}

impl IndexError {
    /// What is wrong, for a person to read.
    pub fn message(&self) -> (message: String)
        ensures
            message@ == index_error_message(*self),
    {
        match *self {
            IndexError::NoWorkspace => "no workspace".to_owned(),
            IndexError::WorkspaceDropped => "workspace was dropped".to_owned(),
            IndexError::NoCargoRoot => "no Cargo workspace root found".to_owned(),
        }
    }
}

impl RustdocSlashCommand {
    /// The name of the command.
    pub fn name(&self) -> (name: String)
        ensures
            name@ == "rustdoc"@,
    {
        "rustdoc".to_owned()
    }

    /// What the command does.
    pub fn description(&self) -> (description: String)
        ensures
            description@ == "insert Rust docs"@,
    {
        "insert Rust docs".to_owned()
    }

    /// The command as it stands in a menu.
    pub fn menu_text(&self) -> (text: String)
        ensures
            text@ == "Insert Rust Documentation"@,
    {
        "Insert Rust Documentation".to_owned()
    }

    /// Whether the command needs an argument.
    pub fn requires_argument(&self) -> (required: bool)
        ensures
            required,
    {
        true
    }

    /// How an argument is completed: a query that is a crate's name and a colon
    /// has the crate indexed first, if that can be done.
    pub fn complete_argument(
        &self,
        query: String,
        workspace: WorkspaceHandle,
        has_cargo_root: bool,
    ) -> (plan: CompletionPlan)
        ensures
            plan.search@ == query@,
            match (crate_to_index(query@), index_obstacle(workspace, has_cargo_root)) {
                (Some(name), None) => {
                    &&& plan.index matches Some(crate_name)
                    &&& crate_name@ == name
                    &&& plan.logged is None
                },
                (Some(_), Some(error)) => plan.index is None && plan.logged == Some(error),
                (None, _) => plan.index is None && plan.logged is None,
            },
            crate::keystroke::optional_text(plan.index) == indexed_crate(
                query@,
                workspace,
                has_cargo_root,
            ),
            plan.logged == logged_error(query@, workspace, has_cargo_root),
    {
        let obstacle: Option<IndexError> = match workspace {
            WorkspaceHandle::Absent => Some(IndexError::NoWorkspace),
            WorkspaceHandle::Dropped => Some(IndexError::WorkspaceDropped),
            WorkspaceHandle::Open => if has_cargo_root {
                None
            } else {
                Some(IndexError::NoCargoRoot)
            },
        };
        proof {
            reveal_strlit(":");
            assert(":"@ =~= seq![':']);
            lemma_only_colon_at_the_end(query@);
        }
        let length: usize = query.as_str().unicode_len();
        match find(query.as_str(), ":") {
            Some(at) if length > 0 && at == length - 1 => {
                let crate_name = query.as_str().substring_char(0, at).to_owned();
                assert(crate_name@ =~= query@.drop_last());
                match obstacle {
                    None => CompletionPlan {
                        index: Some(crate_name),
                        logged: None,
                        search: query,
                    },
                    Some(error) => CompletionPlan {
                        index: None,
                        logged: Some(error),
                        search: query,
                    },
                }
            },
            _ => CompletionPlan { index: None, logged: None, search: query },
        }
    }

    /// The request that running the command with an argument starts.
    pub fn run(
        &self,
        argument: Option<&str>,
        workspace_open: bool,
        has_cargo_root: bool,
    ) -> (request: Result<DocsRequest, RunError>)
        ensures
            match argument {
                None => request == Err::<DocsRequest, RunError>(RunError::MissingCrateName),
                Some(argument) => if !workspace_open {
                    request == Err::<DocsRequest, RunError>(RunError::WorkspaceDropped)
                } else {
                    request matches Ok(request) && request@ == request_for(
                        argument@,
                        has_cargo_root,
                    )
                },
            },
            run_result(
                match argument {
                    Some(argument) => Some(argument@),
                    None => None,
                },
                workspace_open,
                has_cargo_root,
            ) == (match request {
                Ok(request) => Ok::<DocsRequestView, RunError>(request@),
                Err(error) => Err::<DocsRequestView, RunError>(error),
            }),
    {
        let argument = match argument {
            Some(argument) => argument,
            None => {
                return Err(RunError::MissingCrateName);
            },
        };
        if !workspace_open {
            return Err(RunError::WorkspaceDropped);
        }
        proof {
            reveal_strlit("::");
            text::law_join_undoes_split(argument@, "::"@);
        }
        let mut item_path = split_text(argument, "::");
        let ghost parts = item_path@;
        assert(parts.len() == text::texts(parts).len());
        let crate_name = item_path.remove(0);
        assert(text::texts(item_path@) =~= text::texts(parts).skip(1));
        Ok(DocsRequest { crate_name, item_path, has_cargo_root })
    }
}

/// A query has its first colon at its end exactly where it ends in a colon and
/// has no other.
proof fn lemma_only_colon_at_the_end(query: Seq<char>)
    ensures
        crate_to_index(query) is Some <==> text::find_from(query, seq![':'], 0) == Some(
            query.len() - 1,
        ),
{
    let colon = seq![':'];
    let last = query.len() - 1;
    text::lemma_find_from(query, colon, 0);
    if crate_to_index(query) is Some {
        assert(query.subrange(last, last + 1) =~= colon);
        assert(text::occurs_at(query, colon, last));
        let at = text::find_from(query, colon, 0)->0;
        assert(query.subrange(at, at + 1)[0] == ':');
        if at < last {
            assert(query.drop_last()[at] == ':');
        }
    }
    if text::find_from(query, colon, 0) == Some(last) {
        assert(query.subrange(last, last + 1)[0] == ':');
        if query.drop_last().contains(':') {
            let i = choose|i: int| 0 <= i < last && query.drop_last()[i] == ':';
            assert(query.subrange(i, i + 1) =~= colon);
            assert(text::occurs_at(query, colon, i));
        }
    }
}

impl DocsRequest {
    /// What the command inserts once the documentation was found: the text as
    /// one section that can be folded.
    pub fn output(&self, source: RustdocSource, text: String) -> (output: SlashCommandOutput)
        ensures
            output.text@ == text@,
            output.sections@.len() == 1,
            output.sections@[0].start == 0,
            output.sections@[0].end == vstd::utf8::encode_utf8(text@).len(),
            output.sections@[0].placeholder.source == source,
            output.sections@[0].placeholder.crate_name@ == self.crate_name@,
            crate::keystroke::optional_text(output.sections@[0].placeholder.path_in_crate)
                == path_in_crate(self@),
            !output.run_commands_in_text,
    {
        let path_in_crate = if self.item_path.len() == 0 {
            None
        } else {
            Some(join_text(&self.item_path, "::"))
        };
        let end: usize = text.as_str().as_bytes().len();
        let placeholder = RustdocPlaceholder {
            source,
            crate_name: self.crate_name.clone(),
            path_in_crate,
        };
        let mut sections: Vec<OutputSection> = Vec::new();
        sections.push(OutputSection { start: 0, end, placeholder });
        SlashCommandOutput { text, sections, run_commands_in_text: false }
    }
}

impl RustdocPlaceholder {
    /// The label of the button that stands for the documentation.
    pub fn label(&self) -> (label: String)
        ensures
            label@ == "rustdoc ("@ + source_name(self.source) + "): "@ + crate_path(
                self.crate_name@,
                crate::keystroke::optional_text(self.path_in_crate),
            ),
            label@ == placeholder_label(
                self.source,
                self.crate_name@,
                crate::keystroke::optional_text(self.path_in_crate),
            ),
    {
        let source = match self.source {
            RustdocSource::Local => "local",
            RustdocSource::DocsDotRs => "docs.rs",
        };
        let path = match &self.path_in_crate {
            Some(path_in_crate) => self.crate_name.clone().concat("::").concat(path_in_crate.as_str()),
            None => self.crate_name.clone(),
        };
        "rustdoc (".to_owned().concat(source).concat("): ").concat(path.as_str())
    }
}

} // verus!
