//! The tools that inspect the file system. A tool says what has to be read;
//! what was read comes back as a reply, and the tool's answer is computed
//! from it.

use crate::message::{text_argument_of, ArgumentView, ToolCall, ToolCallView};
use crate::text::{
    followed_by, contains_text, decimal, join_lines, joined, lex_order, lines_text, occurs_in,
    push_lines, same_text, sort_texts, texts, to_decimal,
};
use vstd::prelude::*;

verus! {

/// The answer to a reply that does not fit the tool it was read for.
pub const UNEXPECTED_REPLY: &'static str = "unexpected reply from the file system";

/// The names under which the model asks for the tools, and of their arguments.
pub const LIST_DIRECTORY: &'static str = "list_directory";

pub const READ_FILE: &'static str = "read_file";

pub const PWD: &'static str = "pwd";

pub const GREP: &'static str = "grep";

pub const PATH: &'static str = "path";

pub const SEARCH_PATTERN: &'static str = "search_pattern";

/// The path that a tool works on where the model gave none.
pub const DEFAULT_PATH: &'static str = ".";

/// One tool with its arguments.
#[derive(Debug, PartialEq, Eq)]
pub enum Tool {
    ReadDirectory(String),
    ReadFile(String),
    CurrentDir,
    Grep { search_string: String, path: String },
}

pub enum ToolView {
    ReadDirectory(Seq<char>),
    ReadFile(Seq<char>),
    CurrentDir,
    Grep { search_string: Seq<char>, path: Seq<char> },
}

impl View for Tool {
    type V = ToolView;

    open spec fn view(&self) -> ToolView {
        match self {
            Tool::ReadDirectory(p) => ToolView::ReadDirectory(p@),
            Tool::ReadFile(p) => ToolView::ReadFile(p@),
            Tool::CurrentDir => ToolView::CurrentDir,
            Tool::Grep { search_string, path } => ToolView::Grep {
                search_string: search_string@,
                path: path@,
            },
        }
    }
}

impl Clone for Tool {
    fn clone(&self) -> (r: Self)
        ensures
            r@ == self@,
    {
        match self {
            Tool::ReadDirectory(p) => Tool::ReadDirectory(p.clone()),
            Tool::ReadFile(p) => Tool::ReadFile(p.clone()),
            Tool::CurrentDir => Tool::CurrentDir,
            Tool::Grep { search_string, path } => Tool::Grep {
                search_string: search_string.clone(),
                path: path.clone(),
            },
        }
    }
}

/// Why a call names no tool that can be run.
#[derive(Debug, PartialEq, Eq)]
pub enum ToolError {
    /// No tool has this name.
    NotFound(String),
    /// The tool needs this argument, as a text, and the call has none.
    MissingParameter(String),
}

pub enum ToolErrorView {
    NotFound(Seq<char>),
    MissingParameter(Seq<char>),
}

impl View for ToolError {
    type V = ToolErrorView;

    open spec fn view(&self) -> ToolErrorView {
        match self {
            ToolError::NotFound(n) => ToolErrorView::NotFound(n@),
            ToolError::MissingParameter(p) => ToolErrorView::MissingParameter(p@),
        }
    }
}

/// The path that a call names: its argument `path` where that is a text,
/// else the current directory.
pub open spec fn path_of(arguments: Seq<ArgumentView>) -> Seq<char> {
    match text_argument_of(arguments, PATH@) {
        Some(p) => p,
        None => DEFAULT_PATH@,
    }
}

/// The tool that a call names, with its arguments. Listing and reading fall
/// back on the current directory; a search needs both of its arguments.
pub open spec fn resolved(call: ToolCallView) -> Result<ToolView, ToolErrorView> {
    if call.name == LIST_DIRECTORY@ {
        Ok(ToolView::ReadDirectory(path_of(call.arguments)))
    } else if call.name == READ_FILE@ {
        Ok(ToolView::ReadFile(path_of(call.arguments)))
    } else if call.name == PWD@ {
        Ok(ToolView::CurrentDir)
    } else if call.name == GREP@ {
        match text_argument_of(call.arguments, PATH@) {
            None => Err(ToolErrorView::MissingParameter(PATH@)),
            Some(path) => match text_argument_of(call.arguments, SEARCH_PATTERN@) {
                None => Err(ToolErrorView::MissingParameter(SEARCH_PATTERN@)),
                Some(search_string) => Ok(ToolView::Grep { search_string, path }),
            },
        }
    } else {
        Err(ToolErrorView::NotFound(call.name))
    }
}

/// The view of what resolving a call gave.
pub open spec fn resolution_view(r: Result<Tool, ToolError>) -> Result<ToolView, ToolErrorView> {
    match r {
        Ok(t) => Ok(t@),
        Err(e) => Err(e@),
    }
}

impl Tool {
    /// The tool that `call` names.
    pub fn resolve(call: &ToolCall) -> (r: Result<Tool, ToolError>)
        ensures
            resolution_view(r) == resolved(call@),
    {
        let name = call.name.as_str();
        if same_text(name, LIST_DIRECTORY) {
            Ok(Tool::ReadDirectory(Self::path_argument(call)))
        } else if same_text(name, READ_FILE) {
            Ok(Tool::ReadFile(Self::path_argument(call)))
        } else if same_text(name, PWD) {
            Ok(Tool::CurrentDir)
        } else if same_text(name, GREP) {
            match call.text_argument(PATH) {
                None => Err(ToolError::MissingParameter(String::from_str(PATH))),
                Some(path) => match call.text_argument(SEARCH_PATTERN) {
                    None => Err(ToolError::MissingParameter(String::from_str(SEARCH_PATTERN))),
                    Some(search_string) => Ok(
                        Tool::Grep {
                            search_string: String::from_str(search_string),
                            path: String::from_str(path),
                        },
                    ),
                },
            }
        } else {
            Err(ToolError::NotFound(call.name.clone()))
        }
    }

    fn path_argument(call: &ToolCall) -> (r: String)
        ensures
            r@ == path_of(call@.arguments),
    {
        match call.text_argument(PATH) {
            Some(p) => String::from_str(p),
            None => String::from_str(DEFAULT_PATH),
        }
    }
}

/// What has to be read from the file system before a tool can answer.
#[derive(Debug, PartialEq, Eq)]
pub enum FsRequest {
    /// The entries of the directory at this path.
    Directory(String),
    /// The whole file at this path, as one text.
    File(String),
    /// The lines of the file at this path.
    Lines(String),
    /// The path of the current directory.
    CurrentDir,
}

pub enum FsRequestView {
    Directory(Seq<char>),
    File(Seq<char>),
    Lines(Seq<char>),
    CurrentDir,
}

impl View for FsRequest {
    type V = FsRequestView;

    open spec fn view(&self) -> FsRequestView {
        match self {
            FsRequest::Directory(p) => FsRequestView::Directory(p@),
            FsRequest::File(p) => FsRequestView::File(p@),
            FsRequest::Lines(p) => FsRequestView::Lines(p@),
            FsRequest::CurrentDir => FsRequestView::CurrentDir,
        }
    }
}

/// One entry of a directory: its name, whether it is a directory itself, and
/// the extension of its name, without the dot, where it has one.
#[derive(Debug, PartialEq, Eq)]
pub struct DirEntry {
    pub name: String,
    pub is_dir: bool,
    pub extension: Option<String>,
}

pub struct DirEntryView {
    pub name: Seq<char>,
    pub is_dir: bool,
    pub extension: Option<Seq<char>>,
}

impl View for DirEntry {
    type V = DirEntryView;

    open spec fn view(&self) -> DirEntryView {
        DirEntryView {
            name: self.name@,
            is_dir: self.is_dir,
            extension: match self.extension {
                Some(e) => Some(e@),
                None => None,
            },
        }
    }
}

/// The views of the entries, in the same order.
pub open spec fn entry_views(entries: Seq<DirEntry>) -> Seq<DirEntryView> {
    entries.map_values(|e: DirEntry| e@)
}

/// What was read from the file system.
#[derive(Debug, PartialEq, Eq)]
pub enum FsReply {
    /// Nothing was read.
    Nothing,
    /// A directory: its full path and its entries.
    Directory { path: String, entries: Vec<DirEntry> },
    /// A text: a file's content, or the path of the current directory.
    Text(String),
    /// The lines of a file.
    Lines(Vec<String>),
    /// Reading failed, for this reason.
    Failed(String),
}

pub enum FsReplyView {
    Nothing,
    Directory { path: Seq<char>, entries: Seq<DirEntryView> },
    Text(Seq<char>),
    Lines(Seq<Seq<char>>),
    Failed(Seq<char>),
}

impl View for FsReply {
    type V = FsReplyView;

    open spec fn view(&self) -> FsReplyView {
        match self {
            FsReply::Nothing => FsReplyView::Nothing,
            FsReply::Directory { path, entries } => FsReplyView::Directory {
                path: path@,
                entries: entry_views(entries@),
            },
            FsReply::Text(t) => FsReplyView::Text(t@),
            FsReply::Lines(lines) => FsReplyView::Lines(texts(lines@)),
            FsReply::Failed(e) => FsReplyView::Failed(e@),
        }
    }
}

/// The views of the replies, in the same order.
pub open spec fn reply_views(replies: Seq<FsReply>) -> Seq<FsReplyView> {
    replies.map_values(|r: FsReply| r@)
}

/// The reply that belongs to the call at `index`, where the replies stand
/// in the order of the calls; nothing where none was given.
pub open spec fn reply_at(replies: Seq<FsReplyView>, index: int) -> FsReplyView {
    if 0 <= index < replies.len() {
        replies[index]
    } else {
        FsReplyView::Nothing
    }
}

/// What `tool` needs to have read.
pub open spec fn request_of(tool: ToolView) -> FsRequestView {
    match tool {
        ToolView::ReadDirectory(p) => FsRequestView::Directory(p),
        ToolView::ReadFile(p) => FsRequestView::File(p),
        ToolView::CurrentDir => FsRequestView::CurrentDir,
        ToolView::Grep { search_string, path } => FsRequestView::Lines(path),
    }
}

/// What has to be read for `call`, if it names a tool that can be run.
pub open spec fn planned(call: ToolCallView) -> Option<FsRequestView> {
    match resolved(call) {
        Ok(tool) => Some(request_of(tool)),
        Err(_) => None,
    }
}

/// How a directory is listed: its name and a slash.
pub open spec fn dir_label(entry: DirEntryView) -> Seq<char> {
    entry.name + "/"@
}

/// How a file is listed: its name and, where it has an extension, the
/// extension after a dot, in brackets.
pub open spec fn file_label(entry: DirEntryView) -> Seq<char> {
    match entry.extension {
        Some(e) => entry.name + " (."@ + e + ")"@,
        None => entry.name,
    }
}

/// The labels of the directories among `entries`, in the order of the entries.
pub open spec fn dir_labels(entries: Seq<DirEntryView>) -> Seq<Seq<char>>
    decreases entries.len(),
{
    if entries.len() == 0 {
        Seq::empty()
    } else if entries.last().is_dir {
        dir_labels(entries.drop_last()).push(dir_label(entries.last()))
    } else {
        dir_labels(entries.drop_last())
    }
}

/// The labels of the files among `entries`, in the order of the entries.
pub open spec fn file_labels(entries: Seq<DirEntryView>) -> Seq<Seq<char>>
    decreases entries.len(),
{
    if entries.len() == 0 {
        Seq::empty()
    } else if entries.last().is_dir {
        file_labels(entries.drop_last())
    } else {
        file_labels(entries.drop_last()).push(file_label(entries.last()))
    }
}

/// A titled block of sorted labels, followed by an empty line; nothing where
/// there is no label.
pub open spec fn section(title: Seq<char>, labels: Seq<Seq<char>>) -> Seq<char> {
    if labels.len() == 0 {
        Seq::empty()
    } else {
        title + lines_text(labels.sort_by(lex_order())) + "\n"@
    }
}

/// The listing of a directory: its path, its directories and its files, each
/// group sorted, and a hint at what to do next.
pub open spec fn listing(path: Seq<char>, entries: Seq<DirEntryView>) -> Seq<char> {
    "Directory: "@ + path + "\n\n"@ + section("DIRECTORIES:\n"@, dir_labels(entries)) + section(
        "FILES:\n"@,
        file_labels(entries),
    ) + "NEXT: Read relevant files to understand the project structure and purpose."@
}

/// The labels of the directories, or of the files, among `entries`.
spec fn labels(entries: Seq<DirEntryView>, dirs: bool) -> Seq<Seq<char>> {
    if dirs {
        dir_labels(entries)
    } else {
        file_labels(entries)
    }
}

/// The label of an entry, as a directory or as a file.
spec fn label_of(entry: DirEntryView) -> Seq<char> {
    if entry.is_dir {
        dir_label(entry)
    } else {
        file_label(entry)
    }
}

proof fn lemma_labels_insert(entries: Seq<DirEntryView>, i: int, entry: DirEntryView, dirs: bool)
    requires
        0 <= i <= entries.len(),
    ensures
        labels(entries.insert(i, entry), dirs).to_multiset() == if entry.is_dir == dirs {
            labels(entries, dirs).to_multiset().insert(label_of(entry))
        } else {
            labels(entries, dirs).to_multiset()
        },
    decreases entries.len(),
{
    broadcast use vstd::seq_lib::group_to_multiset_ensures;

    let grown = entries.insert(i, entry);
    if i == entries.len() {
        assert(grown.drop_last() =~= entries);
    } else {
        let earlier = entries.drop_last();
        assert(grown.drop_last() =~= earlier.insert(i, entry));
        lemma_labels_insert(earlier, i, entry, dirs);
        if entries.last().is_dir == dirs && entry.is_dir == dirs {
            assert(labels(earlier, dirs).to_multiset().insert(label_of(entry)).insert(
                label_of(entries.last()),
            ) =~= labels(earlier, dirs).to_multiset().insert(label_of(entries.last())).insert(
                label_of(entry),
            ));
        }
    }
}

proof fn lemma_labels_ignore_order(a: Seq<DirEntryView>, b: Seq<DirEntryView>, dirs: bool)
    requires
        a.to_multiset() == b.to_multiset(),
    ensures
        labels(a, dirs).to_multiset() == labels(b, dirs).to_multiset(),
    decreases a.len(),
{
    broadcast use vstd::seq_lib::group_to_multiset_ensures;

    if a.len() == 0 {
        vstd::seq_lib::to_multiset_len(a);
    } else {
        let entry = a.last();
        assert(b.to_multiset().count(entry) > 0);
        let i = choose|i: int| 0 <= i < b.len() && b[i] == entry;
        let rest = b.remove(i);
        assert(b =~= rest.insert(i, entry));
        assert(a.remove(a.len() - 1) =~= a.drop_last());
        lemma_labels_ignore_order(a.drop_last(), rest, dirs);
        lemma_labels_insert(rest, i, entry, dirs);
    }
}

/// The listing of a directory does not depend on the order in which its
/// entries were read.
pub proof fn lemma_listing_ignores_order(
    path: Seq<char>,
    a: Seq<DirEntryView>,
    b: Seq<DirEntryView>,
)
    requires
        a.to_multiset() == b.to_multiset(),
    ensures
        listing(path, a) == listing(path, b),
{
    broadcast use vstd::seq_lib::group_to_multiset_ensures;

    crate::text::lemma_lex_order_total();
    lemma_labels_ignore_order(a, b, true);
    lemma_labels_ignore_order(a, b, false);
    let order = lex_order();
    dir_labels(a).lemma_sort_by_ensures(order);
    dir_labels(b).lemma_sort_by_ensures(order);
    file_labels(a).lemma_sort_by_ensures(order);
    file_labels(b).lemma_sort_by_ensures(order);
    vstd::seq_lib::lemma_sorted_unique(dir_labels(a).sort_by(order), dir_labels(b).sort_by(order), order);
    vstd::seq_lib::lemma_sorted_unique(
        file_labels(a).sort_by(order),
        file_labels(b).sort_by(order),
        order,
    );
    vstd::seq_lib::to_multiset_len(dir_labels(a));
    vstd::seq_lib::to_multiset_len(file_labels(a));
}

/// The lines that hold `needle`, each behind its number, counted from one, and a colon.
pub open spec fn matching_lines(lines: Seq<Seq<char>>, needle: Seq<char>) -> Seq<Seq<char>>
    decreases lines.len(),
{
    if lines.len() == 0 {
        Seq::empty()
    } else if occurs_in(lines.last(), needle) {
        matching_lines(lines.drop_last(), needle).push(
            decimal(lines.len()) + ":"@ + lines.last(),
        )
    } else {
        matching_lines(lines.drop_last(), needle)
    }
}

/// What a search for `needle` in `lines` reports: the matching lines under
/// their count, or that there is none among so many lines.
pub open spec fn grep_report(needle: Seq<char>, lines: Seq<Seq<char>>) -> Seq<char> {
    let found = matching_lines(lines, needle);
    if found.len() == 0 {
        "No matches found for '"@ + needle + "' in "@ + decimal(lines.len()) + " lines"@
    } else {
        "Found "@ + decimal(found.len()) + " matches:\n"@ + joined(found)
    }
}

/// What `tool` answers to `reply`: the failure as it is, the answer computed
/// from a reply of the kind that the tool asks for, and a complaint about a
/// reply of another kind.
pub open spec fn call_result(tool: ToolView, reply: FsReplyView) -> Result<Seq<char>, Seq<char>> {
    match (tool, reply) {
        (_, FsReplyView::Failed(e)) => Err(e),
        (ToolView::ReadDirectory(_), FsReplyView::Directory { path, entries }) => Ok(
            listing(path, entries),
        ),
        (ToolView::ReadFile(_), FsReplyView::Text(t)) => Ok(t),
        (ToolView::CurrentDir, FsReplyView::Text(t)) => Ok(t),
        (ToolView::Grep { search_string, path }, FsReplyView::Lines(lines)) => Ok(
            grep_report(search_string, lines),
        ),
        _ => Err(UNEXPECTED_REPLY@),
    }
}

/// The view of a result that holds a text either way.
pub open spec fn result_view(r: Result<String, String>) -> Result<Seq<char>, Seq<char>> {
    match r {
        Ok(t) => Ok(t@),
        Err(e) => Err(e@),
    }
}

/// What has to be read before the tool of `call` can answer; nothing where
/// the call names no tool that can be run.
pub fn plan(call: &ToolCall) -> (r: Option<FsRequest>)
    ensures
        match r {
            Some(request) => planned(call@) == Some(request@),
            None => planned(call@) is None,
        },
{
    match Tool::resolve(call) {
        Ok(tool) => Some(Toolchain::default().request(&tool)),
        Err(_) => None,
    }
}

/// Runs the tools.
#[derive(Debug)]
pub struct Toolchain;

impl Default for Toolchain {
    fn default() -> (r: Self) {
        Toolchain
    }
}

impl Toolchain {
    /// What has to be read before `tool` can answer.
    pub fn request(&self, tool: &Tool) -> (r: FsRequest)
        ensures
            r@ == request_of(tool@),
    {
        match tool {
            Tool::ReadDirectory(p) => FsRequest::Directory(p.clone()),
            Tool::ReadFile(p) => FsRequest::File(p.clone()),
            Tool::CurrentDir => FsRequest::CurrentDir,
            Tool::Grep { search_string, path } => FsRequest::Lines(path.clone()),
        }
    }

    /// The answer of `tool` to what was read for it.
    pub fn call(&self, tool: Tool, reply: &FsReply) -> (r: Result<String, String>)
        ensures
            result_view(r) == call_result(tool@, reply@),
    {
        match (tool, reply) {
            (_, FsReply::Failed(e)) => Err(e.clone()),
            (Tool::ReadDirectory(_), FsReply::Directory { path, entries }) => Ok(
                self.list_directory(path.as_str(), entries),
            ),
            (Tool::ReadFile(_), FsReply::Text(t)) => Ok(t.clone()),
            (Tool::CurrentDir, FsReply::Text(t)) => Ok(t.clone()),
            (Tool::Grep { search_string, path }, FsReply::Lines(lines)) => Ok(
                self.grep_streaming(search_string.as_str(), lines),
            ),
            _ => Err(String::from_str(UNEXPECTED_REPLY)),
        }
    }

    /// Reports the lines that hold `search_string`.
    pub fn grep_streaming(&self, search_string: &str, lines: &Vec<String>) -> (r: String)
        ensures
            r@ == grep_report(search_string@, texts(lines@)),
    {
        let mut matches: Vec<String> = Vec::new();
        let mut i: usize = 0;
        while i < lines.len()
            invariant
                i <= lines.len(),
                texts(matches@) == matching_lines(texts(lines@).take(i as int), search_string@),
                matches.len() <= i,
            decreases lines.len() - i,
        {
            let line = lines[i].as_str();
            proof {
                let all = texts(lines@);
                assert(all.take(i + 1).drop_last() =~= all.take(i as int));
            }
            if contains_text(line, search_string) {
                let mut found = to_decimal(i + 1);
                found.append(":");
                found.append(line);
                matches.push(found);
            }
            i += 1;
        }
        assert(texts(lines@).take(lines.len() as int) =~= texts(lines@));
        if matches.len() == 0 {
            let mut r = followed_by("No matches found for '", search_string);
            r.append("' in ");
            r.append(to_decimal(lines.len()).as_str());
            r.append(" lines");
            r
        } else {
            let mut r = followed_by("Found ", to_decimal(matches.len()).as_str());
            r.append(" matches:\n");
            r.append(join_lines(&matches).as_str());
            r
        }
    }

    /// Lists a directory from its path and its entries.
    pub fn list_directory(&self, base_path: &str, entries: &Vec<DirEntry>) -> (r: String)
        ensures
            r@ == listing(base_path@, entry_views(entries@)),
    {
        let mut dirs: Vec<String> = Vec::new();
        let mut files: Vec<String> = Vec::new();
        let mut i: usize = 0;
        while i < entries.len()
            invariant
                i <= entries.len(),
                texts(dirs@) == dir_labels(entry_views(entries@).take(i as int)),
                texts(files@) == file_labels(entry_views(entries@).take(i as int)),
            decreases entries.len() - i,
        {
            let entry = &entries[i];
            proof {
                let all = entry_views(entries@);
                assert(all.take(i + 1).drop_last() =~= all.take(i as int));
            }
            if entry.is_dir {
                let label = followed_by(entry.name.as_str(), "/");
                dirs.push(label);
            } else {
                let label = match &entry.extension {
                    Some(e) => {
                        let mut label = followed_by(entry.name.as_str(), " (.");
                        label.append(e.as_str());
                        label.append(")");
                        label
                    },
                    None => entry.name.clone(),
                };
                files.push(label);
            }
            i += 1;
        }
        assert(entry_views(entries@).take(entries.len() as int) =~= entry_views(entries@));

        let mut result = followed_by("Directory: ", base_path);
        result.append("\n\n");
        if dirs.len() > 0 {
            result.append("DIRECTORIES:\n");
            let sorted = sort_texts(dirs);
            push_lines(&mut result, &sorted);
            result.append("\n");
        }
        if files.len() > 0 {
            result.append("FILES:\n");
            let sorted = sort_texts(files);
            push_lines(&mut result, &sorted);
            result.append("\n");
        }
        result.append("NEXT: Read relevant files to understand the project structure and purpose.");
        result
    }
}

} // verus!
