//! Carrying out a patch: whether it may be, and how its changes are told.
//!
//! The caller assesses the patch and runs the structural differ. What follows from the assessment,
//! and what is made of the differ's output, is decided here.

use vstd::prelude::*;
use vstd::utf8::{decode_utf8, valid_utf8};

use crate::encoding::{decode_lossy, optional_chars, utf8_lossy};
use crate::protocol::{copy_optional, optional_text};
use crate::text::{
    contains_text, first_occurrence, is_whitespace_spec, law_trim_takes_whitespace_from_the_ends,
    occurs_at, replace_all, replace_all_spec, trim, trim_spec,
};

verus! {

/// What stands between a unified diff and its structural rendering.
pub const DIFFTASTIC_SPLIT_MARKER: &'static str = "\n\x1eCODEX_DIFFTASTIC\x1e\n";

/// What a patch does to one file.
#[derive(Debug, PartialEq, Eq)]
pub enum ApplyPatchFileChange {
    Add { content: String },
    Delete { content: String },
    Update { unified_diff: String, move_path: Option<String>, new_content: String },
}

/// What a patch does to one file, with its texts.
pub enum PatchChangeView {
    Add { content: Seq<char> },
    Delete { content: Seq<char> },
    Update { unified_diff: Seq<char>, move_path: Option<Seq<char>>, new_content: Seq<char> },
}

impl View for ApplyPatchFileChange {
    type V = PatchChangeView;

    open spec fn view(&self) -> PatchChangeView {
        match self {
            ApplyPatchFileChange::Add { content } => PatchChangeView::Add { content: content@ },
            ApplyPatchFileChange::Delete { content } => PatchChangeView::Delete {
                content: content@,
            },
            ApplyPatchFileChange::Update { unified_diff, move_path, new_content } => {
                PatchChangeView::Update {
                    unified_diff: unified_diff@,
                    move_path: optional_text(*move_path),
                    new_content: new_content@,
                }
            },
        }
    }
}

/// A patch: what it does to each file, and the directory it is for.
#[derive(Debug, PartialEq, Eq)]
pub struct ApplyPatchAction {
    pub changes: Vec<(String, ApplyPatchFileChange)>,
    pub cwd: String,
}

/// What a patch does to each file, with its texts.
pub open spec fn patch_changes(
    changes: Seq<(String, ApplyPatchFileChange)>,
) -> Seq<(Seq<char>, PatchChangeView)> {
    changes.map_values(|change: (String, ApplyPatchFileChange)| (change.0@, change.1@))
}

/// Whether no file is named twice.
pub open spec fn names_each_file_once<T>(changes: Seq<(Seq<char>, T)>) -> bool {
    forall|i: int, j: int|
        0 <= i < j < changes.len() ==> (#[trigger] changes[i]).0 != (#[trigger] changes[j]).0
}

impl ApplyPatchAction {
    /// A patch names each file once.
    pub open spec fn is_valid(self) -> bool {
        names_each_file_once(patch_changes(self.changes@))
    }
}

/// How a change to one file is told.
#[derive(Debug, PartialEq, Eq)]
pub enum FileChange {
    Add { content: String },
    Delete { content: String },
    Update { unified_diff: String, move_path: Option<String> },
}

/// How a change to one file is told, with its texts.
pub enum FileChangeView {
    Add { content: Seq<char> },
    Delete { content: Seq<char> },
    Update { unified_diff: Seq<char>, move_path: Option<Seq<char>> },
}

impl View for FileChange {
    type V = FileChangeView;

    open spec fn view(&self) -> FileChangeView {
        match self {
            FileChange::Add { content } => FileChangeView::Add { content: content@ },
            FileChange::Delete { content } => FileChangeView::Delete { content: content@ },
            FileChange::Update { unified_diff, move_path } => FileChangeView::Update {
                unified_diff: unified_diff@,
                move_path: optional_text(*move_path),
            },
        }
    }
}

/// How the changes to the files are told, with their texts.
pub open spec fn told_changes(
    changes: Seq<(String, FileChange)>,
) -> Seq<(Seq<char>, FileChangeView)> {
    changes.map_values(|change: (String, FileChange)| (change.0@, change.1@))
}

/// What the assessment of a patch says.
#[derive(Debug, PartialEq, Eq)]
pub enum SafetyCheck {
    /// It may be carried out. The user may have approved it explicitly.
    AutoApprove { user_explicitly_approved: bool },
    /// The user has to be asked.
    AskUser,
    /// It must not be carried out.
    Reject { reason: String },
}

/// What the runtime has to have approved before it carries out a patch.
#[derive(Debug, PartialEq, Eq)]
pub enum ExecApprovalRequirement {
    /// Nothing. A proposed amendment is a command prefix to be allowed from now on.
    Skip { bypass_sandbox: bool, proposed_execpolicy_amendment: Option<Vec<String>> },
    /// The patch itself.
    NeedsApproval {
        reason: Option<String>,
        proposed_execpolicy_amendment: Option<Vec<String>>,
    },
}

/// Why a function call has no output.
#[derive(Debug, PartialEq, Eq)]
pub enum FunctionCallError {
    /// The model is told this.
    RespondToModel(String),
}

/// A patch handed to the runtime.
#[derive(Debug, PartialEq, Eq)]
pub struct ApplyPatchRuntimeInvocation {
    pub action: ApplyPatchAction,
    pub auto_approved: bool,
    pub exec_approval_requirement: ExecApprovalRequirement,
}

/// What becomes of a patch.
#[derive(Debug, PartialEq, Eq)]
pub enum InternalApplyPatchInvocation {
    /// The call was handled here, with this result.
    Output(Result<String, FunctionCallError>),
    /// The patch was approved, or the runtime is to have it approved. The runtime carries it out.
    DelegateToRuntime(ApplyPatchRuntimeInvocation),
}

/// Decides what becomes of a patch, given its assessment.
pub fn apply_patch(action: ApplyPatchAction, assessment: SafetyCheck) -> (r:
    InternalApplyPatchInvocation)
    ensures
        match (assessment, r) {
            (
                SafetyCheck::AutoApprove { user_explicitly_approved },
                InternalApplyPatchInvocation::DelegateToRuntime(invocation),
            ) => {
                &&& invocation.action == action
                &&& invocation.auto_approved == !user_explicitly_approved
                &&& invocation.exec_approval_requirement == ExecApprovalRequirement::Skip {
                    bypass_sandbox: false,
                    proposed_execpolicy_amendment: None,
                }
            },
            (
                SafetyCheck::AskUser,
                InternalApplyPatchInvocation::DelegateToRuntime(invocation),
            ) => {
                &&& invocation.action == action
                &&& !invocation.auto_approved
                &&& invocation.exec_approval_requirement == ExecApprovalRequirement::NeedsApproval {
                    reason: None,
                    proposed_execpolicy_amendment: None,
                }
            },
            (
                SafetyCheck::Reject { reason },
                InternalApplyPatchInvocation::Output(
                    Err(FunctionCallError::RespondToModel(told)),
                ),
            ) => told@ == "patch rejected: "@ + reason@,
            _ => false,
        },
{
    match assessment {
        SafetyCheck::AutoApprove { user_explicitly_approved } => {
            InternalApplyPatchInvocation::DelegateToRuntime(
                ApplyPatchRuntimeInvocation {
                    action,
                    auto_approved: !user_explicitly_approved,
                    exec_approval_requirement: ExecApprovalRequirement::Skip {
                        bypass_sandbox: false,
                        proposed_execpolicy_amendment: None,
                    },
                },
            )
        },
        SafetyCheck::AskUser => {
            // The runtime asks, as it does for other commands, and knows what was approved before.
            InternalApplyPatchInvocation::DelegateToRuntime(
                ApplyPatchRuntimeInvocation {
                    action,
                    auto_approved: false,
                    exec_approval_requirement: ExecApprovalRequirement::NeedsApproval {
                        reason: None,
                        proposed_execpolicy_amendment: None,
                    },
                },
            )
        },
        SafetyCheck::Reject { reason } => {
            let mut told = "patch rejected: ".to_owned();
            told.append(reason.as_str());
            InternalApplyPatchInvocation::Output(Err(FunctionCallError::RespondToModel(told)))
        },
    }
}

/// A unified diff, with its structural rendering where there is one.
pub open spec fn embedded(unified_diff: Seq<char>, rendered: Option<Seq<char>>) -> Seq<char> {
    match rendered {
        Some(rendered) => unified_diff + DIFFTASTIC_SPLIT_MARKER@ + rendered,
        None => unified_diff,
    }
}

/// Puts a structural rendering, where there is one, behind a unified diff.
pub fn maybe_embed_difftastic_render(rendered: Option<&str>, unified_diff: &str) -> (r: String)
    ensures
        r@ == embedded(unified_diff@, optional_chars(rendered)),
{
    let mut out = unified_diff.to_owned();
    if let Some(rendered) = rendered {
        out.append(DIFFTASTIC_SPLIT_MARKER);
        out.append(rendered);
    }
    out
}

/// How a change is told, given its structural rendering, if there is one.
pub open spec fn told_change(
    change: PatchChangeView,
    rendered: Option<Seq<char>>,
) -> FileChangeView {
    match change {
        PatchChangeView::Add { content } => FileChangeView::Add { content },
        PatchChangeView::Delete { content } => FileChangeView::Delete { content },
        PatchChangeView::Update { unified_diff, move_path, .. } => FileChangeView::Update {
            unified_diff: embedded(unified_diff, rendered),
            move_path,
        },
    }
}

/// How the changes of a patch are told, given the structural rendering of each, if there is one.
pub open spec fn told_patch(
    changes: Seq<(Seq<char>, PatchChangeView)>,
    renderings: Seq<Option<String>>,
) -> Seq<(Seq<char>, FileChangeView)> {
    Seq::new(
        changes.len(),
        |i: int| (changes[i].0, told_change(changes[i].1, optional_text(renderings[i]))),
    )
}

fn tell_change(change: &ApplyPatchFileChange, rendered: &Option<String>) -> (r: FileChange)
    ensures
        r@ == told_change(change@, optional_text(*rendered)),
{
    match change {
        ApplyPatchFileChange::Add { content } => FileChange::Add { content: content.clone() },
        ApplyPatchFileChange::Delete { content } => FileChange::Delete {
            content: content.clone(),
        },
        ApplyPatchFileChange::Update { unified_diff, move_path, .. } => {
            let rendered = match rendered {
                Some(text) => Some(text.as_str()),
                None => None,
            };
            FileChange::Update {
                unified_diff: maybe_embed_difftastic_render(rendered, unified_diff.as_str()),
                move_path: copy_optional(move_path),
            }
        },
    }
}

/// Tells the changes of a patch. `renderings` holds the structural rendering of each change, if
/// there is one.
pub fn convert_apply_patch_to_protocol(
    action: &ApplyPatchAction,
    renderings: &[Option<String>],
) -> (r: Vec<(String, FileChange)>)
    requires
        renderings.len() == action.changes.len(),
    ensures
        told_changes(r@) == told_patch(patch_changes(action.changes@), renderings@),
        action.is_valid() ==> names_each_file_once(told_changes(r@)),
{
    let ghost told = told_patch(patch_changes(action.changes@), renderings@);
    let mut out: Vec<(String, FileChange)> = Vec::new();
    let mut i: usize = 0;
    while i < action.changes.len()
        invariant
            i <= action.changes.len(),
            renderings.len() == action.changes.len(),
            out.len() == i,
            told == told_patch(patch_changes(action.changes@), renderings@),
            forall|k: int|
                0 <= k < i ==> (#[trigger] out@[k]).0@ == told[k].0 && out@[k].1@ == told[k].1,
        decreases action.changes.len() - i,
    {
        let path = action.changes[i].0.clone();
        let change = tell_change(&action.changes[i].1, &renderings[i]);
        out.push((path, change));
        i = i + 1;
    }
    assert(told_changes(out@) =~= told);
    proof {
        law_told_patch_names_the_same_files(patch_changes(action.changes@), renderings@);
    }
    out
}

/// The suffix of the files that the differ is given, so that it knows the language: that of the
/// path the file moves to, if it has one, else that of its own path. An extension that is not
/// UTF-8 stands as `Some(None)` and gives none.
pub open spec fn difftastic_suffix_spec(
    move_extension: Option<Option<Seq<char>>>,
    extension: Option<Option<Seq<char>>>,
) -> Seq<char> {
    let chosen = if move_extension is Some {
        move_extension
    } else {
        extension
    };
    match chosen {
        Some(Some(text)) => "."@ + text,
        _ => ""@,
    }
}

/// The text of an extension that may be missing, or not UTF-8.
pub open spec fn extension_text(extension: Option<Option<&str>>) -> Option<Option<Seq<char>>> {
    match extension {
        Some(text) => Some(optional_chars(text)),
        None => None,
    }
}

/// The suffix of the files that the differ is given.
pub fn difftastic_suffix(
    move_extension: Option<Option<&str>>,
    extension: Option<Option<&str>>,
) -> (r: String)
    ensures
        r@ == difftastic_suffix_spec(extension_text(move_extension), extension_text(extension)),
{
    let chosen = match move_extension {
        Some(text) => Some(text),
        None => extension,
    };
    match chosen {
        Some(Some(text)) => {
            let mut out = ".".to_owned();
            out.append(text);
            out
        },
        _ => "".to_owned(),
    }
}

/// Whether `path` is made of names with single slashes between them, and perhaps one before the
/// first. No name is empty or a single dot, or holds a backslash or a colon.
pub open spec fn is_simple_path(path: Seq<char>) -> bool {
    &&& path.len() > 0
    &&& path.last() != '/'
    &&& forall|i: int| 0 <= i < path.len() ==> #[trigger] path[i] != '\\' && path[i] != ':'
    &&& forall|i: int|
        0 <= i < path.len() && (i == 0 || path[i - 1] == '/') ==> {
            &&& i > 0 ==> #[trigger] path[i] != '/'
            &&& path[i] == '.' ==> i + 1 < path.len() && path[i + 1] != '/'
        }
}

/// Whether `dir` is a simple path, perhaps with a slash behind it, or the root.
pub open spec fn is_simple_dir(dir: Seq<char>) -> bool {
    ||| is_simple_path(dir)
    ||| dir == "/"@
    ||| dir.len() > 0 && dir.last() == '/' && is_simple_path(dir.drop_last())
}

/// What is left of a simple path under a simple directory, if it lies there.
pub open spec fn path_under(path: Seq<char>, dir: Seq<char>) -> Option<Seq<char>> {
    let lead = if dir.last() == '/' {
        dir
    } else {
        dir + "/"@
    };
    if path == lead.drop_last() {
        Some(Seq::empty())
    } else if occurs_at(path, lead, 0) {
        Some(path.skip(lead.len() as int))
    } else {
        None
    }
}

/// Whether every platform takes `path` apart at its slashes alone: it holds neither a backslash
/// nor a colon, and does not start with two slashes.
pub open spec fn is_plain_path(path: Seq<char>) -> bool {
    &&& forall|i: int| 0 <= i < path.len() ==> #[trigger] path[i] != '\\' && path[i] != ':'
    &&& !(path.len() >= 2 && path[0] == '/' && path[1] == '/')
}

/// The pieces of `path` between its slashes.
pub open spec fn path_pieces(path: Seq<char>) -> Seq<Seq<char>>
    decreases path.len(),
{
    if path.len() == 0 {
        seq![seq![]]
    } else {
        let before = path_pieces(path.drop_last());
        if path.last() == '/' {
            before.push(seq![])
        } else {
            before.drop_last().push(before.last().push(path.last()))
        }
    }
}

/// The pieces that are neither empty nor a single dot.
pub open spec fn path_names(pieces: Seq<Seq<char>>) -> Seq<Seq<char>>
    decreases pieces.len(),
{
    if pieces.len() == 0 {
        seq![]
    } else if pieces.last().len() == 0 || pieces.last() == "."@ {
        path_names(pieces.drop_last())
    } else {
        path_names(pieces.drop_last()).push(pieces.last())
    }
}

/// The components of a plain path: a slash for the root, if it starts there, then its names. Empty
/// names do not count, and neither do single dots but for one that the path starts with.
pub open spec fn path_components(path: Seq<char>) -> Seq<Seq<char>> {
    let names = path_names(path_pieces(path));
    if path.len() > 0 && path[0] == '/' {
        seq!["/"@] + names
    } else if path_pieces(path)[0] == "."@ {
        seq!["."@] + names
    } else {
        names
    }
}

/// Whether `rest` may be what is left of a path under a directory, `None` where the path does not
/// lie there. It is a part of the path. Of plain paths it has the components that follow those of
/// the directory, and of simple paths it is fixed to the letter.
pub open spec fn may_be_left(path: Seq<char>, dir: Seq<char>, rest: Option<Seq<char>>) -> bool {
    let first = path_components(dir);
    let all = path_components(path);
    &&& rest matches Some(text) ==> contains_text(path, text)
    &&& is_plain_path(path) && is_plain_path(dir) ==> match rest {
        Some(text) => first.is_prefix_of(all) && path_components(text) == all.skip(
            first.len() as int,
        ),
        None => !first.is_prefix_of(all),
    }
    &&& is_simple_path(path) && is_simple_dir(dir) ==> rest == path_under(path, dir)
}

/// What is left of a path under a directory, if it lies there.
///
/// Calls `std::path::Path::strip_prefix`. Trusted: a path lies under a directory where the
/// directory's components are its first ones, and what is left is the part of the path that holds
/// the others. How many of its slashes that part keeps is stated of simple paths only. Where a
/// backslash, a colon or two leading slashes stand, components depend on the platform, and
/// nothing is stated but that what is left is a part of the path.
#[verifier::external_body]
fn strip_dir(path: &str, dir: &str) -> (r: Option<String>)
    ensures
        may_be_left(path@, dir@, optional_text(r)),
{
    std::path::Path::new(path).strip_prefix(dir).ok().map(|rest| rest.display().to_string())
}

/// Whether the platform may leave `rest` of a path under a directory.
pub closed spec fn leaves(path: Seq<char>, dir: Seq<char>, rest: Option<Seq<char>>) -> bool {
    exists|p: &str, d: &str, r: Option<String>|
        p@ == path && d@ == dir && optional_text(r) == rest && #[trigger] call_ensures(
            strip_dir,
            (p, d),
            r,
        )
}

/// What the platform leaves of a path under a directory, if it lies there.
fn left_under(path: &str, dir: &str) -> (r: Option<String>)
    ensures
        leaves(path@, dir@, optional_text(r)),
        may_be_left(path@, dir@, optional_text(r)),
{
    let strip = strip_dir;
    strip(path, dir)
}

/// The final component of a plain path, if it is a name.
pub open spec fn file_name(path: Seq<char>) -> Option<Seq<char>> {
    let all = path_components(path);
    if all.len() == 0 || all.last() == "/"@ || all.last() == "."@ || all.last() == ".."@ {
        None
    } else {
        Some(all.last())
    }
}

/// What stands behind the last dot of a name, if there is a dot behind its first character.
pub open spec fn name_extension(name: Seq<char>) -> Option<Seq<char>>
    decreases name.len(),
{
    if name.len() <= 1 {
        None
    } else if name.last() == '.' {
        Some(seq![])
    } else {
        match name_extension(name.drop_last()) {
            Some(text) => Some(text.push(name.last())),
            None => None,
        }
    }
}

/// Whether `extension` may be a path's extension. It is a part of the path, and of a plain path it
/// is that of its file name.
pub open spec fn may_be_extension(path: Seq<char>, extension: Option<Seq<char>>) -> bool {
    &&& extension matches Some(text) ==> contains_text(path, text)
    &&& is_plain_path(path) ==> extension == (match file_name(path) {
        Some(name) => name_extension(name),
        None => None,
    })
}

/// The extension of a path.
///
/// Calls `std::path::Path::extension`. Trusted: it is what stands behind the last dot of the file
/// name, unless that is the name's first character. Where a backslash, a colon or two leading
/// slashes stand, the file name depends on the platform, and nothing is stated but that the
/// extension is a part of the path.
#[verifier::external_body]
fn extension_of(path: &str) -> (r: Option<String>)
    ensures
        may_be_extension(path@, optional_text(r)),
{
    std::path::Path::new(path).extension().and_then(|text| text.to_str()).map(str::to_string)
}

/// Whether the platform may give a path this extension.
pub closed spec fn has_extension(path: Seq<char>, extension: Option<Seq<char>>) -> bool {
    exists|p: &str, r: Option<String>|
        p@ == path && optional_text(r) == extension && #[trigger] call_ensures(
            extension_of,
            (p,),
            r,
        )
}

/// The extension that the platform gives a path.
fn path_extension(path: &str) -> (r: Option<String>)
    ensures
        has_extension(path@, optional_text(r)),
        may_be_extension(path@, optional_text(r)),
{
    let extension = extension_of;
    extension(path)
}

/// The extension of a path that may be missing.
pub open spec fn may_be_optional_extension(
    path: Option<Seq<char>>,
    extension: Option<Seq<char>>,
) -> bool {
    match path {
        Some(path) => has_extension(path, extension) && may_be_extension(path, extension),
        None => extension is None,
    }
}

/// An extension that is text, if there is one.
pub open spec fn text_extension(extension: Option<Seq<char>>) -> Option<Option<Seq<char>>> {
    match extension {
        Some(text) => Some(Some(text)),
        None => None,
    }
}

/// The suffix of the files that the differ is given for a changed file: that of the path it moves
/// to, if that has one, else that of its own path.
pub fn difftastic_suffix_of(path: &str, move_path: Option<&str>) -> (r: String)
    ensures
        exists|move_extension: Option<Seq<char>>, extension: Option<Seq<char>>|
            #[trigger] may_be_optional_extension(optional_chars(move_path), move_extension)
                && #[trigger] may_be_extension(path@, extension) && has_extension(
                path@,
                extension,
            ) && r@ == difftastic_suffix_spec(
                text_extension(move_extension),
                text_extension(extension),
            ),
{
    let move_extension = match move_path {
        Some(moved) => path_extension(moved),
        None => None,
    };
    let extension = path_extension(path);
    assert(may_be_optional_extension(optional_chars(move_path), optional_text(move_extension)));
    difftastic_suffix(
        match &move_extension {
            Some(text) => Some(Some(text.as_str())),
            None => None,
        },
        match &extension {
            Some(text) => Some(Some(text.as_str())),
            None => None,
        },
    )
}

/// Whether a path may be shown as `display`: as what is left of it under the directory, if it lies
/// there, else whole.
pub open spec fn may_be_shown_as(cwd: Seq<char>, path: Seq<char>, display: Seq<char>) -> bool {
    exists|rest: Option<Seq<char>>|
        #[trigger] may_be_left(path, cwd, rest) && leaves(path, cwd, rest) && display
            == shown_path(rest, path)
}

/// The path to show in place of a temporary file's: what is left of the file's path under the
/// patch's directory, if it lies there, else the whole path.
pub fn display_path_for_difftastic(cwd: &str, path: &str) -> (r: String)
    ensures
        may_be_shown_as(cwd@, path@, r@),
{
    show_path(left_under(path, cwd), path)
}

/// The path to show, given what is left of it under the patch's directory, if it lies there.
pub open spec fn shown_path(path_under_cwd: Option<Seq<char>>, path: Seq<char>) -> Seq<char> {
    match path_under_cwd {
        Some(rest) => rest,
        None => path,
    }
}

/// The path to show, given what is left of it under the patch's directory, if it lies there.
pub fn show_path(path_under_cwd: Option<String>, path: &str) -> (r: String)
    ensures
        r@ == shown_path(optional_text(path_under_cwd), path@),
{
    match path_under_cwd {
        Some(rest) => rest,
        None => path.to_owned(),
    }
}

/// What is shown of the differ's output: nothing where it is blank, else the output with the
/// names of the temporary files replaced.
pub open spec fn shown_rendering(
    output: Seq<char>,
    old_tmp: Seq<char>,
    new_tmp: Seq<char>,
    old_display: Seq<char>,
    new_display: Seq<char>,
) -> Option<Seq<char>> {
    if trim_spec(output).len() == 0 {
        None
    } else {
        Some(
            replace_all_spec(replace_all_spec(output, old_tmp, old_display), new_tmp, new_display),
        )
    }
}

/// Shows the differ's output, given its text.
pub fn show_difftastic_text(
    output: &str,
    old_tmp: &str,
    new_tmp: &str,
    old_display: &str,
    new_display: &str,
) -> (r: Option<String>)
    ensures
        optional_text(r) == shown_rendering(
            output@,
            old_tmp@,
            new_tmp@,
            old_display@,
            new_display@,
        ),
{
    if trim(output).is_empty() {
        return None;
    }
    let with_old = replace_all(output, old_tmp, old_display);
    Some(replace_all(with_old.as_str(), new_tmp, new_display))
}

/// Shows what the differ wrote.
pub fn show_difftastic_output(
    stdout: &[u8],
    old_tmp: &str,
    new_tmp: &str,
    old_display: &str,
    new_display: &str,
) -> (r: Option<String>)
    ensures
        optional_text(r) == shown_rendering(
            utf8_lossy(stdout@),
            old_tmp@,
            new_tmp@,
            old_display@,
            new_display@,
        ),
        valid_utf8(stdout@) ==> optional_text(r) == shown_rendering(
            decode_utf8(stdout@),
            old_tmp@,
            new_tmp@,
            old_display@,
            new_display@,
        ),
{
    let output = decode_lossy(stdout);
    show_difftastic_text(output.as_str(), old_tmp, new_tmp, old_display, new_display)
}

/// The path of a file after a change: the one it moves to, if it moves.
pub open spec fn path_after(path: Seq<char>, move_path: Option<Seq<char>>) -> Seq<char> {
    match move_path {
        Some(moved) => moved,
        None => path,
    }
}

/// Makes the rendering of a change of what the differ wrote about the temporary files that it was
/// given, with the paths of the changed file in place of theirs.
pub fn try_render_difftastic(
    stdout: &[u8],
    old_tmp: &str,
    new_tmp: &str,
    cwd: &str,
    path: &str,
    move_path: Option<&str>,
) -> (r: Option<String>)
    ensures
        exists|old_display: Seq<char>, new_display: Seq<char>|
            #![trigger shown_rendering(utf8_lossy(stdout@), old_tmp@, new_tmp@, old_display, new_display)]
            may_be_shown_as(cwd@, path@, old_display) && may_be_shown_as(
                cwd@,
                path_after(path@, optional_chars(move_path)),
                new_display,
            ) && (move_path is None ==> new_display == old_display) && optional_text(r)
                == shown_rendering(
                utf8_lossy(stdout@),
                old_tmp@,
                new_tmp@,
                old_display,
                new_display,
            ),
{
    let old_display = display_path_for_difftastic(cwd, path);
    let new_display = match move_path {
        Some(moved) => display_path_for_difftastic(cwd, moved),
        None => old_display.clone(),
    };
    show_difftastic_output(stdout, old_tmp, new_tmp, old_display.as_str(), new_display.as_str())
}

/// A diff in which the marker's separator does not stand can be told apart from its rendering:
/// it is what stands before the first marker, and the rendering is what stands behind it.
pub proof fn law_embedded_rendering_can_be_split_off(
    unified_diff: Seq<char>,
    rendered: Seq<char>,
)
    requires
        !unified_diff.contains('\x1e'),
    ensures
        ({
            let text = embedded(unified_diff, Some(rendered));
            let at = unified_diff.len() as int;
            &&& first_occurrence(text, DIFFTASTIC_SPLIT_MARKER@, at)
            &&& text.take(at) == unified_diff
            &&& text.skip(at + DIFFTASTIC_SPLIT_MARKER@.len()) == rendered
        }),
{
    let marker = DIFFTASTIC_SPLIT_MARKER@;
    let text = embedded(unified_diff, Some(rendered));
    let at = unified_diff.len() as int;
    reveal_strlit("\n\x1eCODEX_DIFFTASTIC\x1e\n");
    assert(text.subrange(at, at + marker.len()) =~= marker);
    assert(text.take(at) =~= unified_diff);
    assert(text.skip(at + marker.len()) =~= rendered);
    assert forall|k: int| 0 <= k < at implies !occurs_at(text, marker, k) by {
        if occurs_at(text, marker, k) {
            assert(text.subrange(k, k + marker.len())[1] == marker[1]);
            assert(text[k + 1] == '\x1e');
            if k + 1 < at {
                assert(unified_diff[k + 1] == '\x1e');
            } else {
                assert(text[at] == marker[0]);
            }
        }
    }
}

/// A patch is told file by file, in order, and where it names each file once, so does what is
/// told.
pub proof fn law_told_patch_names_the_same_files(
    changes: Seq<(Seq<char>, PatchChangeView)>,
    renderings: Seq<Option<String>>,
)
    ensures
        told_patch(changes, renderings).len() == changes.len(),
        forall|i: int|
            0 <= i < changes.len() ==> (#[trigger] told_patch(changes, renderings)[i]).0
                == changes[i].0,
        names_each_file_once(changes) ==> names_each_file_once(told_patch(changes, renderings)),
{
}

/// An update is told as an update, whether the file moves or not: with the path it moves to, and
/// with its own diff, followed by the marker and the rendering where there is one. The file's new
/// content is not told.
pub proof fn law_an_update_is_told_by_its_diff(
    unified_diff: Seq<char>,
    move_path: Option<Seq<char>>,
    new_content: Seq<char>,
    rendered: Seq<char>,
)
    ensures
        ({
            let change = PatchChangeView::Update { unified_diff, move_path, new_content };
            &&& told_change(change, None) == (FileChangeView::Update { unified_diff, move_path })
            &&& told_change(change, Some(rendered)) == (FileChangeView::Update {
                unified_diff: unified_diff + "\n\x1eCODEX_DIFFTASTIC\x1e\n"@ + rendered,
                move_path,
            })
        }),
{
}

/// A file that is added or deleted is told so, with its content and without any rendering.
pub proof fn law_added_and_deleted_files_are_told_by_their_content(
    content: Seq<char>,
    rendered: Option<Seq<char>>,
)
    ensures
        told_change(PatchChangeView::Add { content }, rendered) == (FileChangeView::Add {
            content,
        }),
        told_change(PatchChangeView::Delete { content }, rendered) == (FileChangeView::Delete {
            content,
        }),
{
}

/// Each change of a patch is told under its own path, with its own rendering.
pub proof fn law_each_change_is_told_with_its_rendering(
    changes: Seq<(Seq<char>, PatchChangeView)>,
    renderings: Seq<Option<String>>,
    i: int,
)
    requires
        0 <= i < changes.len(),
        changes.len() == renderings.len(),
    ensures
        told_patch(changes, renderings).len() == changes.len(),
        told_patch(changes, renderings)[i].0 == changes[i].0,
        renderings[i] matches Some(text) ==> told_patch(changes, renderings)[i].1 == told_change(
            changes[i].1,
            Some(text@),
        ),
        renderings[i] is None ==> told_patch(changes, renderings)[i].1 == told_change(
            changes[i].1,
            None,
        ),
{
}

/// The changes of a patch, and those that are told, are shown in order, with each field's text
/// under its own name.
pub proof fn law_changes_are_shown_as_they_are(
    changes: Seq<(String, ApplyPatchFileChange)>,
    told: Seq<(String, FileChange)>,
    i: int,
)
    requires
        0 <= i < changes.len(),
        0 <= i < told.len(),
    ensures
        patch_changes(changes).len() == changes.len(),
        patch_changes(changes)[i].0 == changes[i].0@,
        match changes[i].1 {
            ApplyPatchFileChange::Add { content } => patch_changes(changes)[i].1 == (
            PatchChangeView::Add { content: content@ }),
            ApplyPatchFileChange::Delete { content } => patch_changes(changes)[i].1 == (
            PatchChangeView::Delete { content: content@ }),
            ApplyPatchFileChange::Update { unified_diff, move_path: Some(moved), new_content } => {
                patch_changes(changes)[i].1 == (PatchChangeView::Update {
                    unified_diff: unified_diff@,
                    move_path: Some(moved@),
                    new_content: new_content@,
                })
            },
            ApplyPatchFileChange::Update { unified_diff, move_path: None, new_content } => {
                patch_changes(changes)[i].1 == (PatchChangeView::Update {
                    unified_diff: unified_diff@,
                    move_path: None,
                    new_content: new_content@,
                })
            },
        },
        told_changes(told).len() == told.len(),
        told_changes(told)[i].0 == told[i].0@,
        match told[i].1 {
            FileChange::Add { content } => told_changes(told)[i].1 == (FileChangeView::Add {
                content: content@,
            }),
            FileChange::Delete { content } => told_changes(told)[i].1 == (FileChangeView::Delete {
                content: content@,
            }),
            FileChange::Update { unified_diff, move_path: Some(moved) } => told_changes(told)[i].1
                == (FileChangeView::Update {
                unified_diff: unified_diff@,
                move_path: Some(moved@),
            }),
            FileChange::Update { unified_diff, move_path: None } => told_changes(told)[i].1 == (
            FileChangeView::Update { unified_diff: unified_diff@, move_path: None }),
        },
{
}

/// The differ is given files with the extension of the path moved to behind a dot, with that of the
/// file's own path where the former has none, and without one where the chosen one is no text.
pub proof fn law_the_suffix_is_the_chosen_extension(
    extension: Option<Option<Seq<char>>>,
    text: Seq<char>,
)
    ensures
        difftastic_suffix_spec(Some(Some(text)), extension) == "."@ + text,
        difftastic_suffix_spec(Some(None), extension).len() == 0,
        difftastic_suffix_spec(None, Some(Some(text))) == "."@ + text,
        difftastic_suffix_spec(None, Some(None)).len() == 0,
        difftastic_suffix_spec(None, None).len() == 0,
        text_extension(Some(text)) == Some(Some(text)),
        text_extension(None) is None,
{
    reveal_strlit("");
}

/// A file is shown by its path under the directory, where both are simple and it lies there, and
/// by its whole path where it does not start with the directory.
pub proof fn law_a_file_is_shown_under_the_directory(
    cwd: Seq<char>,
    path: Seq<char>,
    rest: Seq<char>,
    display: Seq<char>,
)
    requires
        is_simple_path(cwd),
        is_simple_path(path),
        may_be_shown_as(cwd, path, display),
    ensures
        path == cwd + "/"@ + rest ==> display == rest,
        path == cwd ==> display.len() == 0,
        !(path.len() >= cwd.len() && path.take(cwd.len() as int) == cwd) ==> display == path,
{
    reveal_strlit("/");
    let lead = cwd + "/"@;
    assert(lead.drop_last() =~= cwd);
    if path == cwd + "/"@ + rest {
        assert(path.subrange(0, lead.len() as int) =~= lead);
        assert(path.skip(lead.len() as int) =~= rest);
        assert(path.len() > cwd.len());
    }
    if occurs_at(path, lead, 0) {
        assert(path.take(cwd.len() as int) =~= path.subrange(0, lead.len() as int).take(
            cwd.len() as int,
        ));
        assert(lead.take(cwd.len() as int) =~= cwd);
    }
    if path == cwd {
        assert(path.take(cwd.len() as int) =~= cwd);
    }
}

/// A path is shown by what is left of it where something is, and whole elsewhere. A changed file's
/// later path is the one it moves to, if it moves, else its own.
pub proof fn law_paths_are_chosen(path: Seq<char>, other: Seq<char>)
    ensures
        shown_path(Some(other), path) == other,
        shown_path(None, path) == path,
        path_after(path, Some(other)) == other,
        path_after(path, None) == path,
{
}

/// A blank output of the differ gives no rendering. Any other gives the output with the new file's
/// name put for its temporary name, once the old file's was put for its own.
pub proof fn law_a_rendering_names_the_files(
    output: Seq<char>,
    old_tmp: Seq<char>,
    new_tmp: Seq<char>,
    old_display: Seq<char>,
    new_display: Seq<char>,
)
    ensures
        shown_rendering(output, old_tmp, new_tmp, old_display, new_display) is None
            <==> forall|i: int| 0 <= i < output.len() ==> is_whitespace_spec(#[trigger] output[i]),
        shown_rendering(output, old_tmp, new_tmp, old_display, new_display) matches Some(shown)
            ==> shown == replace_all_spec(
            replace_all_spec(output, old_tmp, old_display),
            new_tmp,
            new_display,
        ),
{
    law_trim_takes_whitespace_from_the_ends(output);
    let (from, to) = choose|from: int, to: int|
        {
            &&& 0 <= from <= to <= output.len()
            &&& trim_spec(output) == #[trigger] output.subrange(from, to)
            &&& forall|i: int|
                0 <= i < from || to <= i < output.len() ==> is_whitespace_spec(#[trigger] output[i])
            &&& from < to ==> !is_whitespace_spec(output[from]) && !is_whitespace_spec(
                output[to - 1],
            )
        };
    assert(trim_spec(output).len() == to - from);
}

/// What stands behind the last dot of a name is its extension, unless the name starts with that
/// dot.
pub proof fn law_an_extension_follows_the_last_dot(stem: Seq<char>, extension: Seq<char>)
    requires
        !extension.contains('.'),
    ensures
        stem.len() > 0 ==> name_extension(stem + seq!['.'] + extension) == Some(extension),
        name_extension(seq!['.'] + extension) is None,
        name_extension(extension) is None,
    decreases extension.len(),
{
    let name = stem + seq!['.'] + extension;
    if extension.len() == 0 {
        assert(name.last() == '.');
    } else {
        let shorter = extension.drop_last();
        assert(!shorter.contains('.')) by {
            if shorter.contains('.') {
                let k = choose|k: int| 0 <= k < shorter.len() && shorter[k] == '.';
                assert(extension[k] == '.');
            }
        }
        law_an_extension_follows_the_last_dot(stem, shorter);
        assert(extension.last() != '.');
        assert(name.drop_last() =~= stem + seq!['.'] + shorter);
        assert((seq!['.'] + extension).drop_last() =~= seq!['.'] + shorter);
        assert(shorter.push(extension.last()) =~= extension);
    }
}

/// A path has the extension that the platform gives it, and a path that is missing has none.
pub proof fn law_a_paths_extension_is_the_platforms(
    path: Seq<char>,
    extension: Option<Seq<char>>,
)
    ensures
        may_be_optional_extension(Some(path), extension) ==> has_extension(path, extension)
            && may_be_extension(path, extension),
        may_be_optional_extension(None, extension) <==> extension is None,
{
}

/// A path is shown as what the platform leaves of it under the directory, and whole where it leaves
/// nothing.
pub proof fn law_a_path_is_shown_as_the_platform_leaves_it(
    cwd: Seq<char>,
    path: Seq<char>,
    display: Seq<char>,
)
    requires
        may_be_shown_as(cwd, path, display),
    ensures
        leaves(path, cwd, Some(display)) || leaves(path, cwd, None) && display == path,
{
}

/// What the platform leaves of a path, and the extension it gives one, are what it answers when it
/// is asked about a text with the path's characters.
proof fn law_the_platform_answers_about_the_path(
    path: Seq<char>,
    dir: Seq<char>,
    rest: Option<Seq<char>>,
    extension: Option<Seq<char>>,
)
    ensures
        leaves(path, dir, rest) ==> exists|p: &str, d: &str, r: Option<String>|
            p@ == path && d@ == dir && optional_text(r) == rest && #[trigger] call_ensures(
                strip_dir,
                (p, d),
                r,
            ),
        has_extension(path, extension) ==> exists|p: &str, r: Option<String>|
            p@ == path && optional_text(r) == extension && #[trigger] call_ensures(
                extension_of,
                (p,),
                r,
            ),
{
}

} // verus!
