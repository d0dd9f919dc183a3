//! The build coordinator's decisions: the image tag of a template, the
//! request handed to the engine's build call with its packaged build
//! context, and what each event of the build stream does to the build.
use vstd::prelude::*;

use crate::error::OrchestratorError;
use crate::model::{copy_strings, strings_view, ContainerTemplate};
use crate::text::trim_white_space;

verus! {

/// The bytes of an archive, written to memory, whose one entry is a file
/// named `name` with permission bits `mode`, holding `recipe`.
pub uninterp spec fn recipe_archive(name: Seq<char>, mode: u32, recipe: Seq<char>) -> Seq<u8>;

/// A file name that an archive header holds as it is: one to a hundred
/// ASCII letters and digits, so no separator, no `..`, nothing absolute.
pub open spec fn plain_file_name(name: Seq<char>) -> bool {
    &&& 1 <= name.len() <= 100
    &&& forall|i: int|
        0 <= i < name.len() ==> {
            let c = #[trigger] name[i];
            ('a' <= c && c <= 'z') || ('A' <= c && c <= 'Z') || ('0' <= c && c <= '9')
        }
}

/// Relies on tar's `Header::new_gnu`, `Builder::append_data` and
/// `Builder::into_inner`: they write one entry named `name` holding `recipe`
/// into an archive in memory. The header's fields other than path, size and
/// mode keep `new_gnu`'s fixed values (a zero mtime among them), so the bytes
/// depend on the arguments alone. Writing into a `Vec` cannot fail, and a
/// plain name fits the header's name field, so an archive always comes back.
#[verifier::external_body]
fn archive_recipe(name: &str, mode: u32, recipe: &str) -> (r: Option<Vec<u8>>)
    requires
        plain_file_name(name@),
    ensures
        r is Some,
        r matches Some(bytes) ==> bytes@ == recipe_archive(name@, mode, recipe@),
{
    let mut header = tar::Header::new_gnu();
    header.set_size(recipe.len() as u64);
    header.set_mode(mode);
    let mut builder = tar::Builder::new(Vec::new());
    builder.append_data(&mut header, name, recipe.as_bytes()).ok()?;
    builder.into_inner().ok()
}

/// Relies on `str::trim`, documented to remove the leading and trailing
/// characters that have the Unicode White_Space property.
#[verifier::external_body]
fn trim_line(line: &str) -> (r: String)
    ensures
        r@ == trim_white_space(line@),
{
    line.trim().to_string()
}

/// Permission bits of the recipe file inside the build context.
pub const RECIPE_FILE_MODE: u32 = 0o644;

/// The tag of the image built for a template: `agent-` and the template id.
pub open spec fn image_tag_of(template_id: Seq<char>) -> Seq<char> {
    seq!['a', 'g', 'e', 'n', 't', '-'] + template_id
}

/// The name of the recipe file inside the build context.
pub open spec fn recipe_file_name() -> Seq<char> {
    seq!['D', 'o', 'c', 'k', 'e', 'r', 'f', 'i', 'l', 'e']
}

/// The image tag of a template.
pub fn image_tag(template_id: &str) -> (r: String)
    ensures
        r@ == image_tag_of(template_id@),
{
    proof {
        reveal_strlit("agent-");
    }
    let mut tag = String::from_str("agent-");
    tag.append(template_id);
    tag
}

/// What the engine's build call is given: the packaged build context, the
/// recipe's name in it, the tag, and the flags for a pulled build whose
/// intermediate containers are always removed.
pub struct BuildRequest {
    pub dockerfile: String,
    pub tag: String,
    pub rm: bool,
    pub forcerm: bool,
    pub pull: bool,
    pub context: Vec<u8>,
}

/// The build request for a packaged context: a context that could not be
/// packaged fails the build before the engine is called, with no logs.
pub fn build_request_from_archive(archive: Option<Vec<u8>>, tag: &str) -> (r: Result<
    BuildRequest,
    OrchestratorError,
>)
    ensures
        match archive {
            Some(bytes) => {
                &&& r is Ok
                &&& r->Ok_0.context@ == bytes@
                &&& r->Ok_0.tag@ == tag@
                &&& r->Ok_0.dockerfile@ == recipe_file_name()
                &&& r->Ok_0.rm && r->Ok_0.forcerm && r->Ok_0.pull
            },
            None => r matches Err(OrchestratorError::BuildFailure { logs, .. }) && logs@.len()
                == 0,
        },
{
    proof {
        reveal_strlit("Dockerfile");
        assert("Dockerfile"@ =~= recipe_file_name());
    }
    match archive {
        Some(context) => Ok(
            BuildRequest {
                dockerfile: String::from_str("Dockerfile"),
                tag: String::from_str(tag),
                rm: true,
                forcerm: true,
                pull: true,
                context,
            },
        ),
        None => Err(
            OrchestratorError::BuildFailure {
                message: String::from_str("the build context could not be packaged"),
                logs: Vec::new(),
            },
        ),
    }
}

/// The build request for `template`: its recipe packaged as the build
/// context under the recipe file's name, tagged `tag`.
pub fn build_request(template: &ContainerTemplate, tag: &str) -> (r: Result<
    BuildRequest,
    OrchestratorError,
>)
    ensures
        r matches Ok(req) && {
            &&& req.context@ == recipe_archive(
                recipe_file_name(),
                RECIPE_FILE_MODE,
                template.dockerfile@,
            )
            &&& req.tag@ == tag@
            &&& req.dockerfile@ == recipe_file_name()
            &&& req.rm && req.forcerm && req.pull
        },
{
    proof {
        reveal_strlit("Dockerfile");
        assert("Dockerfile"@ =~= recipe_file_name());
    }
    let archive = archive_recipe("Dockerfile", RECIPE_FILE_MODE, template.dockerfile.as_str());
    build_request_from_archive(archive, tag)
}

/// One item of the engine's build stream: an event that may carry a log
/// line and may carry an error, or a failure of the stream itself.
pub enum BuildStreamItem {
    Event { stream: Option<String>, error: Option<String> },
    StreamError(String),
}

/// The log lines an item adds: the trimmed stream text of an event.
pub open spec fn logs_after(logs: Seq<Seq<char>>, item: BuildStreamItem) -> Seq<Seq<char>> {
    match item {
        BuildStreamItem::Event { stream: Some(line), .. } => logs.push(trim_white_space(line@)),
        _ => logs,
    }
}

/// The message of the build failure an item ends the build with, if any.
pub open spec fn failure_of(item: BuildStreamItem) -> Option<Seq<char>> {
    match item {
        BuildStreamItem::Event { error: Some(e), .. } => Some(
            seq!['B', 'u', 'i', 'l', 'd', ' ', 'e', 'r', 'r', 'o', 'r', ':', ' '] + e@,
        ),
        BuildStreamItem::Event { error: None, .. } => None,
        BuildStreamItem::StreamError(e) => Some(
            seq!['B', 'u', 'i', 'l', 'd', ' ', 's', 't', 'r', 'e', 'a', 'm', ' ', 'e', 'r', 'r', 'o', 'r', ':', ' ']
                + e@,
        ),
    }
}

/// The log trail of a build in progress.
pub struct BuildProgress {
    logs: Vec<String>,
}

impl View for BuildProgress {
    type V = Seq<Seq<char>>;

    /// The log lines gathered so far.
    closed spec fn view(&self) -> Seq<Seq<char>> {
        strings_view(self.logs@)
    }
}

impl BuildProgress {
    /// A build with no log lines yet.
    pub fn new() -> (r: BuildProgress)
        ensures
            r@ == Seq::<Seq<char>>::empty(),
    {
        let r = BuildProgress { logs: Vec::new() };
        assert(r@ =~= Seq::<Seq<char>>::empty());
        r
    }

    /// Takes one item of the build stream. A log line is kept, trimmed; an
    /// error ends the build with a failure that carries every line kept so
    /// far, this item's included.
    pub fn on_item(&mut self, item: BuildStreamItem) -> (r: Result<(), OrchestratorError>)
        ensures
            final(self)@ == logs_after(old(self)@, item),
            match failure_of(item) {
                None => r is Ok,
                Some(m) => r matches Err(OrchestratorError::BuildFailure { message, logs }) && message@
                    == m && strings_view(logs@) == final(self)@,
            },
    {
        proof {
            reveal_strlit("Build error: ");
            reveal_strlit("Build stream error: ");
        }
        match item {
            BuildStreamItem::Event { stream, error } => {
                match stream {
                    Some(line) => {
                        let ghost before = self@;
                        self.logs.push(trim_line(line.as_str()));
                        assert(self@ =~= before.push(trim_white_space(line@)));
                    },
                    None => {},
                }
                match error {
                    Some(e) => {
                        let mut message = String::from_str("Build error: ");
                        message.append(e.as_str());
                        assert(message@ =~= failure_of(item)->Some_0);
                        Err(OrchestratorError::BuildFailure { message, logs: copy_strings(&self.logs) })
                    },
                    None => Ok(()),
                }
            },
            BuildStreamItem::StreamError(e) => {
                let mut message = String::from_str("Build stream error: ");
                message.append(e.as_str());
                assert(message@ =~= failure_of(item)->Some_0);
                Err(OrchestratorError::BuildFailure { message, logs: copy_strings(&self.logs) })
            },
        }
    }

    /// A copy of the log lines gathered so far.
    pub fn logs_copy(&self) -> (r: Vec<String>)
        ensures
            strings_view(r@) == self@,
    {
        copy_strings(&self.logs)
    }

    /// The log lines of a build whose stream ended without an error.
    pub fn into_logs(self) -> (r: Vec<String>)
        ensures
            strings_view(r@) == self@,
    {
        self.logs
    }
}

} // verus!
