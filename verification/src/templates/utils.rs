//! What the publisher hands to the engines, and the composer that writes a
//! parent tree and a template tree into one archive.
use vstd::prelude::*;
use vstd::string::StringExecFns;
use crate::config::Config;
use crate::global::TMP_DIR;
use crate::templates::archive::{
    archive_add_directory, archive_encoding, archive_error_text, archive_finish, archive_members,
    archive_open, archive_start_file, archive_write_all, directory_member, file_member,
    new_archive, Archive, LARGEST_FILE,
};
use crate::templates::template::{texts, Template};

verus! {

/// The decimal digit `d` as a character.
pub open spec fn digit(d: nat) -> char {
    if d == 0 {
        '0'
    } else if d == 1 {
        '1'
    } else if d == 2 {
        '2'
    } else if d == 3 {
        '3'
    } else if d == 4 {
        '4'
    } else if d == 5 {
        '5'
    } else if d == 6 {
        '6'
    } else if d == 7 {
        '7'
    } else if d == 8 {
        '8'
    } else {
        '9'
    }
}

/// The decimal notation of `n`, without leading zeros.
pub open spec fn decimal_text(n: nat) -> Seq<char>
    decreases n,
{
    if n < 10 {
        seq![digit(n)]
    } else {
        decimal_text(n / 10).push(digit(n % 10))
    }
}

fn digit_text(d: u32) -> (text: &'static str)
    requires
        d < 10,
    ensures
        text@ == seq![digit(d as nat)],
{
    proof {
        reveal_strlit("0");
        reveal_strlit("1");
        reveal_strlit("2");
        reveal_strlit("3");
        reveal_strlit("4");
        reveal_strlit("5");
        reveal_strlit("6");
        reveal_strlit("7");
        reveal_strlit("8");
        reveal_strlit("9");
    }
    let text = if d == 0 {
        "0"
    } else if d == 1 {
        "1"
    } else if d == 2 {
        "2"
    } else if d == 3 {
        "3"
    } else if d == 4 {
        "4"
    } else if d == 5 {
        "5"
    } else if d == 6 {
        "6"
    } else if d == 7 {
        "7"
    } else if d == 8 {
        "8"
    } else {
        "9"
    };
    assert(text@ =~= seq![digit(d as nat)]);
    text
}

/// The decimal notation of `n`.
pub fn decimal(n: u32) -> (text: String)
    ensures
        text@ == decimal_text(n as nat),
    decreases n,
{
    if n < 10 {
        String::from_str(digit_text(n))
    } else {
        let text = decimal(n / 10).concat(digit_text(n % 10));
        assert(text@ =~= decimal_text(n as nat));
        text
    }
}

/// The name under which the image of a template is built and pushed.
pub open spec fn image_tag(registry_host: Seq<char>, template_name: Seq<char>) -> Seq<char> {
    registry_host + "/"@ + template_name + ":latest"@
}

/// The name under which the image of a template is built and pushed: the
/// registry host, a slash, the template's name, and the tag `latest`.
pub fn image_name(registry_host: &str, template_name: &str) -> (tag: String)
    ensures
        tag@ == image_tag(registry_host@, template_name@),
{
    String::from_str(registry_host).concat("/").concat(template_name).concat(":latest")
}

/// The scratch directory of a template.
pub open spec fn scratch_path(template_name: Seq<char>) -> Seq<char> {
    TMP_DIR@ + "/"@ + template_name
}

/// The scratch directory of a template: the build context and the composed
/// archive are written below it.
pub fn scratch_dir(template_name: &str) -> (path: String)
    ensures
        path@ == scratch_path(template_name@),
{
    String::from_str(TMP_DIR).concat("/").concat(template_name)
}

/// Where the build context of a template is written.
pub fn context_archive_path(template_name: &str) -> (path: String)
    ensures
        path@ == scratch_path(template_name@) + "/"@ + template_name@ + ".tar"@,
{
    scratch_dir(template_name).concat("/").concat(template_name).concat(".tar")
}

/// Where the composed archive of a template is written.
pub fn composed_archive_path(template_name: &str) -> (path: String)
    ensures
        path@ == scratch_path(template_name@) + "/"@ + template_name@ + ".zip"@,
{
    scratch_dir(template_name).concat("/").concat(template_name).concat(".zip")
}

/// One named build argument.
#[derive(Debug)]
pub struct BuildArgument {
    pub name: String,
    pub value: String,
}

/// What is submitted to the build engine, besides the build context.
#[derive(Debug)]
pub struct BuildRequest {
    pub dockerfile: String,
    pub tag: String,
    pub build_args: Vec<BuildArgument>,
    pub remove_intermediate: bool,
    pub force_remove: bool,
    pub always_pull: bool,
}

/// What is submitted to the push engine.
#[derive(Debug)]
pub struct PushRequest {
    pub tag: String,
    pub username: String,
    pub password: String,
}

/// What is submitted to the remove engine.
#[derive(Debug)]
pub struct RemoveRequest {
    pub tag: String,
    pub force: bool,
}

/// The build arguments of a template, each as its name and its value: the
/// template's name, its default map, the host of this service, and the least
/// and the most memory in decimal notation.
pub open spec fn build_arguments_of(template: &Template, config: &Config) -> Seq<
    (Seq<char>, Seq<char>),
> {
    seq![
        ("TEMPLATE_NAME"@, template.name@),
        ("DEFAULT_MAP_NAME"@, template.default_map@),
        ("API_HOST"@, config.api_host@),
        ("MINIMUM_RAM"@, decimal_text(template.resources.minimum.ram as nat)),
        ("MAXIMUM_RAM"@, decimal_text(template.resources.maximum.ram as nat)),
    ]
}

/// The build arguments of a template.
pub fn build_arguments(template: &Template, config: &Config) -> (arguments: Vec<BuildArgument>)
    ensures
        arguments@.map_values(|a: BuildArgument| (a.name@, a.value@)) == build_arguments_of(
            template,
            config,
        ),
{
    let mut arguments: Vec<BuildArgument> = Vec::new();
    arguments.push(
        BuildArgument { name: String::from_str("TEMPLATE_NAME"), value: template.name.clone() },
    );
    arguments.push(
        BuildArgument {
            name: String::from_str("DEFAULT_MAP_NAME"),
            value: template.default_map.clone(),
        },
    );
    arguments.push(
        BuildArgument { name: String::from_str("API_HOST"), value: config.api_host.clone() },
    );
    arguments.push(
        BuildArgument {
            name: String::from_str("MINIMUM_RAM"),
            value: decimal(template.resources.minimum.ram),
        },
    );
    arguments.push(
        BuildArgument {
            name: String::from_str("MAXIMUM_RAM"),
            value: decimal(template.resources.maximum.ram),
        },
    );
    assert(arguments@.map_values(|a: BuildArgument| (a.name@, a.value@)) =~= build_arguments_of(
        template,
        config,
    ));
    arguments
}

/// The submission to the build engine for a template: the recipe
/// `Dockerfile`, the image name, the build arguments, and the three options
/// that remove intermediate containers, force their removal and always pull.
pub fn build_request(template: &Template, config: &Config) -> (request: BuildRequest)
    ensures
        request.dockerfile@ == "Dockerfile"@,
        request.tag@ == image_tag(config.registry_host@, template.name@),
        request.build_args@.map_values(|a: BuildArgument| (a.name@, a.value@))
            == build_arguments_of(template, config),
        request.remove_intermediate,
        request.force_remove,
        request.always_pull,
{
    BuildRequest {
        dockerfile: String::from_str("Dockerfile"),
        tag: image_name(config.registry_host.as_str(), template.name.as_str()),
        build_args: build_arguments(template, config),
        remove_intermediate: true,
        force_remove: true,
        always_pull: true,
    }
}

/// The submission to the push engine for a template: the image name and the
/// registry account.
pub fn push_request(template: &Template, config: &Config) -> (request: PushRequest)
    ensures
        request.tag@ == image_tag(config.registry_host@, template.name@),
        request.username@ == config.registry_username@,
        request.password@ == config.registry_password@,
{
    PushRequest {
        tag: image_name(config.registry_host.as_str(), template.name.as_str()),
        username: config.registry_username.clone(),
        password: config.registry_password.clone(),
    }
}

/// The submission to the remove engine for a template: the image name, and
/// removal by force.
pub fn remove_request(template: &Template, config: &Config) -> (request: RemoveRequest)
    ensures
        request.tag@ == image_tag(config.registry_host@, template.name@),
        request.force,
{
    RemoveRequest {
        tag: image_name(config.registry_host.as_str(), template.name.as_str()),
        force: true,
    }
}

/// What is found at one path below a tree.
#[derive(Debug)]
pub enum EntryKind {
    /// A directory.
    Directory,
    /// A file, with its content.
    File(Vec<u8>),
    /// A path that could not be read, with the reason.
    Unreadable(String),
    /// Neither a directory nor a file.
    Other,
}

/// One path below a tree, as the walk over the tree found it: the segments of
/// the path, outermost first, and what is there.
#[derive(Debug)]
pub struct Entry {
    pub segments: Vec<String>,
    pub kind: EntryKind,
}

/// Why a composition failed.
#[derive(Debug)]
pub enum ArchiveError {
    /// A source path could not be read; the reason.
    Source(String),
    /// A file or a directory does not lie below the root of its tree.
    Outside,
    /// The archive did not take a member; the writer's words.
    Write(String),
    /// The archive could not be closed.
    Finish,
}

/// What is reported when the archive could not be closed.
pub const FINISH_FAILED: &'static str = "An error occurred on finish writing zip file.";

/// What is reported when an entry does not lie below the root of its tree.
pub const OUTSIDE_TREE: &'static str = "A path lies outside its tree.";

impl ArchiveError {
    /// The message of this failure.
    pub open spec fn spec_message(&self) -> Seq<char> {
        match self {
            ArchiveError::Source(reason) => reason@,
            ArchiveError::Outside => OUTSIDE_TREE@,
            ArchiveError::Write(reason) => reason@,
            ArchiveError::Finish => FINISH_FAILED@,
        }
    }

    /// The message of this failure: the reason it carries, or the fixed
    /// message of its kind.
    pub fn message(&self) -> (text: String)
        ensures
            text@ == self.spec_message(),
    {
        match self {
            ArchiveError::Source(reason) => reason.clone(),
            ArchiveError::Outside => String::from_str(OUTSIDE_TREE),
            ArchiveError::Write(reason) => reason.clone(),
            ArchiveError::Finish => String::from_str(FINISH_FAILED),
        }
    }
}

/// Whether a path lies below a root: the root's segments are its first
/// segments, and at least one more follows them.
pub open spec fn is_below(segments: Seq<Seq<char>>, root: Seq<Seq<char>>) -> bool {
    root.len() < segments.len() && segments.take(root.len() as int) == root
}

/// What is left of a path below a root when the root is taken away: the
/// segments that follow the root's own.
pub open spec fn rebase(segments: Seq<Seq<char>>, root: Seq<Seq<char>>) -> Seq<Seq<char>>
    recommends
        is_below(segments, root),
{
    segments.skip(root.len() as int)
}

/// The segments of a path with a slash between each two.
pub open spec fn joined(segments: Seq<Seq<char>>) -> Seq<char>
    decreases segments.len(),
{
    if segments.len() == 0 {
        Seq::empty()
    } else if segments.len() == 1 {
        segments[0]
    } else {
        joined(segments.drop_last()).push('/') + segments.last()
    }
}

/// The path of the member that an entry below `root` becomes: the path
/// relative to the root, which holds neither the root's name nor anything
/// before it.
pub open spec fn member_name(segments: Seq<String>, root: Seq<String>) -> Seq<char>
    recommends
        is_below(texts(segments), texts(root)),
{
    joined(rebase(texts(segments), texts(root)))
}

/// Taking the root away from a path that was made by putting segments after
/// the root gives back those segments, whatever the segments of the root are
/// called.
pub proof fn lemma_rebase_undoes_root(root: Seq<Seq<char>>, below: Seq<Seq<char>>)
    requires
        below.len() > 0,
    ensures
        is_below(root + below, root),
        rebase(root + below, root) == below,
{
    assert((root + below).take(root.len() as int) =~= root);
    assert((root + below).skip(root.len() as int) =~= below);
}

/// Whether the path with these segments lies below the root with those.
pub fn lies_below(segments: &Vec<String>, root: &Vec<String>) -> (below: bool)
    ensures
        below == is_below(texts(segments@), texts(root@)),
{
    if root.len() >= segments.len() {
        return false;
    }
    let mut i: usize = 0;
    while i < root.len()
        invariant
            i <= root.len() < segments.len(),
            forall|j: int| 0 <= j < i ==> texts(segments@)[j] == texts(root@)[j],
        decreases root.len() - i,
    {
        if !(segments[i] == root[i]) {
            assert(texts(segments@).take(root.len() as int)[i as int] != texts(root@)[i as int]);
            return false;
        }
        i = i + 1;
    }
    assert(texts(segments@).take(root.len() as int) =~= texts(root@));
    true
}

/// The path under which an entry is written into the archive: its segments
/// after those of the root, with slashes between them. There is none for a
/// path that does not lie below the root.
pub fn member_path(segments: &Vec<String>, root: &Vec<String>) -> (path: Option<String>)
    ensures
        path is Some == is_below(texts(segments@), texts(root@)),
        path matches Some(text) ==> text@ == member_name(segments@, root@),
{
    if !lies_below(segments, root) {
        return None;
    }
    let start: usize = root.len();
    let ghost kept = texts(segments@).skip(start as int);
    let mut text = String::new();
    let mut next: usize = start;
    while next < segments.len()
        invariant
            start <= next <= segments.len(),
            kept == texts(segments@).skip(start as int),
            text@ == joined(kept.take(next - start)),
        decreases segments.len() - next,
    {
        let ghost before = kept.take(next - start);
        let ghost after = kept.take(next - start + 1);
        proof {
            assert(after.drop_last() =~= before);
            assert(after.last() == texts(segments@)[next as int]);
        }
        if next > start {
            text.append("/");
            proof {
                reveal_strlit("/");
                assert(text@ =~= joined(before).push('/'));
            }
        }
        text.append(segments[next].as_str());
        assert(text@ =~= joined(after));
        next = next + 1;
    }
    assert(kept.take(segments.len() - start) =~= kept);
    Some(text)
}

/// The members that the entries of one tree become, in the order of the
/// entries: a directory becomes a directory member, a file becomes a file
/// member with the file's content, each under its path relative to the root,
/// and any other entry becomes nothing.
pub open spec fn members_of(entries: Seq<Entry>, root: Seq<String>) -> Seq<
    (Seq<char>, bool, Seq<u8>),
>
    decreases entries.len(),
{
    if entries.len() == 0 {
        Seq::empty()
    } else {
        let before = members_of(entries.drop_last(), root);
        let name = member_name(entries.last().segments@, root);
        match entries.last().kind {
            EntryKind::Directory => before.push(directory_member(name)),
            EntryKind::File(data) => before.push(file_member(name, data@)),
            _ => before,
        }
    }
}

/// Whether an entry has a place in the archive: it was read, and if it is a
/// file or a directory, it lies below the root.
pub open spec fn placed(entry: Entry, root: Seq<String>) -> bool {
    match entry.kind {
        EntryKind::Directory => is_below(texts(entry.segments@), texts(root)),
        EntryKind::File(_) => is_below(texts(entry.segments@), texts(root)),
        EntryKind::Unreadable(_) => false,
        EntryKind::Other => true,
    }
}

/// Whether every entry has a place in the archive.
pub open spec fn all_placed(entries: Seq<Entry>, root: Seq<String>) -> bool {
    forall|i: int| 0 <= i < entries.len() ==> placed(#[trigger] entries[i], root)
}

/// Whether an entry can go into the archive: it has a place there, and a
/// file is no larger than one file of the archive can be.
pub open spec fn writable(entry: Entry, root: Seq<String>) -> bool {
    match entry.kind {
        EntryKind::Directory => is_below(texts(entry.segments@), texts(root)),
        EntryKind::File(data) => is_below(texts(entry.segments@), texts(root)) && data@.len()
            <= LARGEST_FILE,
        EntryKind::Unreadable(_) => false,
        EntryKind::Other => true,
    }
}

/// Whether every entry can go into the archive.
pub open spec fn all_writable(entries: Seq<Entry>, root: Seq<String>) -> bool {
    forall|i: int| 0 <= i < entries.len() ==> writable(#[trigger] entries[i], root)
}

/// Whether no entry is a file, a directory or unreadable, so that the
/// entries leave the archive alone.
pub open spec fn nothing_to_write(entries: Seq<Entry>) -> bool {
    forall|i: int| 0 <= i < entries.len() ==> (#[trigger] entries[i]).kind is Other
}

/// Whether `error` is the failure that `entry` causes: an unreadable entry
/// fails with its reason, a file or a directory that does not lie below the
/// root fails as `Outside`, and a file that is too large is refused by the
/// writer.
pub open spec fn failure_of(entry: Entry, root: Seq<String>, error: ArchiveError) -> bool {
    match entry.kind {
        EntryKind::Unreadable(reason) => error matches ArchiveError::Source(text) && text@
            == reason@,
        EntryKind::Directory => !is_below(texts(entry.segments@), texts(root)) && error
            is Outside,
        EntryKind::File(data) => if is_below(texts(entry.segments@), texts(root)) {
            data@.len() > LARGEST_FILE && error is Write
        } else {
            error is Outside
        },
        EntryKind::Other => false,
    }
}

/// Whether `error` is the failure of the first entry that cannot go into the
/// archive.
pub open spec fn first_failure(entries: Seq<Entry>, root: Seq<String>, error: ArchiveError) -> bool {
    exists|at: int|
        0 <= at < entries.len() && all_writable(entries.take(at), root) && failure_of(
            #[trigger] entries[at],
            root,
            error,
        )
}

/// Writes the entries of one tree into the archive, in their order, each
/// under its path relative to the root of the tree, whose segments are
/// `prefix_path`.
///
/// On an open archive it succeeds exactly where every entry can go into the
/// archive, and leaves the archive open; otherwise it fails with the failure
/// of the first entry that cannot. Whenever it succeeds, every entry had a
/// place and it has added the members of the entries after those that the
/// archive held. Entries that are neither files nor directories leave the
/// archive as it was.
pub fn write_paths_in_zip(zip: &mut Archive, paths: &Vec<Entry>, prefix_path: &Vec<String>) -> (done:
    Result<(), ArchiveError>)
    ensures
        done is Ok ==> all_placed(paths@, prefix_path@) && archive_members(*final(zip))
            == archive_members(*old(zip)) + members_of(paths@, prefix_path@),
        archive_open(*old(zip)) && all_writable(paths@, prefix_path@) ==> done is Ok
            && archive_open(*final(zip)),
        archive_open(*old(zip)) && !all_writable(paths@, prefix_path@) ==> (done matches Err(
            error,
        ) && first_failure(paths@, prefix_path@, error)),
        nothing_to_write(paths@) ==> done is Ok && *final(zip) == *old(zip),
{
    let mut i: usize = 0;
    assert(paths@.take(0) =~= Seq::<Entry>::empty());
    assert(archive_members(*zip) + members_of(paths@.take(0), prefix_path@) =~= archive_members(
        *zip,
    ));
    while i < paths.len()
        invariant
            i <= paths.len(),
            forall|j: int| 0 <= j < i ==> placed(#[trigger] paths@[j], prefix_path@),
            archive_members(*zip) == archive_members(*old(zip)) + members_of(
                paths@.take(i as int),
                prefix_path@,
            ),
            archive_open(*old(zip)) ==> archive_open(*zip) && forall|j: int|
                0 <= j < i ==> writable(#[trigger] paths@[j], prefix_path@),
            (forall|j: int| 0 <= j < i ==> (#[trigger] paths@[j]).kind is Other) ==> *zip == *old(
                zip,
            ),
        decreases paths.len() - i,
    {
        let entry = &paths[i];
        let ghost held = archive_members(*zip);
        let ghost first = archive_members(*old(zip));
        let ghost before = members_of(paths@.take(i as int), prefix_path@);
        proof {
            assert(paths@.take(i + 1).drop_last() =~= paths@.take(i as int));
            assert(paths@.take(i + 1).last() == paths@[i as int]);
            assert(archive_open(*old(zip)) ==> all_writable(paths@.take(i as int), prefix_path@));
        }
        match &entry.kind {
            EntryKind::Directory => {
                let name = match member_path(&entry.segments, prefix_path) {
                    Some(name) => name,
                    None => {
                        assert(failure_of(paths@[i as int], prefix_path@, ArchiveError::Outside));
                        return Err(ArchiveError::Outside);
                    },
                };
                match archive_add_directory(zip, name.as_str()) {
                    Ok(()) => {
                        assert(held.push(directory_member(name@)) =~= first + before.push(
                            directory_member(name@),
                        ));
                    },
                    Err(error) => {
                        return Err(ArchiveError::Write(archive_error_text(&error)));
                    },
                }
            },
            EntryKind::File(data) => {
                let name = match member_path(&entry.segments, prefix_path) {
                    Some(name) => name,
                    None => {
                        assert(failure_of(paths@[i as int], prefix_path@, ArchiveError::Outside));
                        return Err(ArchiveError::Outside);
                    },
                };
                match archive_start_file(zip, name.as_str()) {
                    Ok(()) => {},
                    Err(error) => {
                        return Err(ArchiveError::Write(archive_error_text(&error)));
                    },
                }
                let ghost begun = held.push(file_member(name@, Seq::<u8>::empty()));
                proof {
                    assert(begun.last() == file_member(name@, Seq::<u8>::empty()));
                    assert(Seq::<u8>::empty() + data@ =~= data@);
                }
                match archive_write_all(zip, data) {
                    Ok(()) => {
                        assert(begun.drop_last() =~= held);
                        assert(held.push(file_member(name@, data@)) =~= first + before.push(
                            file_member(name@, data@),
                        ));
                    },
                    Err(error) => {
                        let failure = ArchiveError::Write(archive_error_text(&error));
                        assert(archive_open(*old(zip)) ==> failure_of(
                            paths@[i as int],
                            prefix_path@,
                            failure,
                        ));
                        return Err(failure);
                    },
                }
            },
            EntryKind::Unreadable(reason) => {
                let failure = ArchiveError::Source(reason.clone());
                assert(failure_of(paths@[i as int], prefix_path@, failure));
                return Err(failure);
            },
            EntryKind::Other => {},
        }
        i = i + 1;
    }
    assert(paths@.take(paths.len() as int) =~= paths@);
    Ok(())
}

impl Archive {
    /// An archive without members, which is open.
    pub fn new() -> (archive: Archive)
        ensures
            archive_members(archive) == Seq::<(Seq<char>, bool, Seq<u8>)>::empty(),
            archive_open(archive),
    {
        new_archive()
    }

    /// Closes the archive and hands out its bytes: the encoding of the
    /// members that were written. An open archive can be closed. Where the
    /// writer cannot close it, the failure is `Finish`.
    pub fn finish(self) -> (done: Result<Vec<u8>, ArchiveError>)
        ensures
            archive_open(self) ==> done is Ok,
            done matches Ok(bytes) ==> bytes@ == archive_encoding(archive_members(self)),
            done matches Err(failure) ==> failure is Finish,
    {
        let mut archive = self;
        match archive_finish(&mut archive) {
            Ok(bytes) => Ok(bytes),
            Err(_) => Err(ArchiveError::Finish),
        }
    }
}

/// What `compose` gives for the given trees.
///
/// Where every entry of both trees can go into the archive, it succeeds
/// with the encoding of the parent's members followed by the template's.
/// Otherwise it fails with the failure of the first entry that cannot, the
/// parent's entries coming before the template's.
pub open spec fn composed(
    parent_entries: Seq<Entry>,
    parent_root: Seq<String>,
    template_entries: Seq<Entry>,
    template_root: Seq<String>,
    done: Result<Vec<u8>, ArchiveError>,
) -> bool {
    if !all_writable(parent_entries, parent_root) {
        done matches Err(error) && first_failure(parent_entries, parent_root, error)
    } else if !all_writable(template_entries, template_root) {
        done matches Err(error) && first_failure(template_entries, template_root, error)
    } else {
        done matches Ok(bytes) && bytes@ == archive_encoding(
            members_of(parent_entries, parent_root) + members_of(template_entries, template_root),
        )
    }
}

/// Composes the tree of a parent and the tree of a template into one
/// archive: the parent's entries first, the template's after them, each
/// under its path relative to the root of its own tree. Two trees without
/// entries give an archive without members.
pub fn compose(
    parent_entries: &Vec<Entry>,
    parent_root: &Vec<String>,
    template_entries: &Vec<Entry>,
    template_root: &Vec<String>,
) -> (done: Result<Vec<u8>, ArchiveError>)
    ensures
        composed(parent_entries@, parent_root@, template_entries@, template_root@, done),
{
    let mut zip = Archive::new();
    match write_paths_in_zip(&mut zip, parent_entries, parent_root) {
        Ok(()) => {},
        Err(error) => {
            return Err(error);
        },
    }
    match write_paths_in_zip(&mut zip, template_entries, template_root) {
        Ok(()) => {},
        Err(error) => {
            return Err(error);
        },
    }
    assert(archive_members(zip) =~= members_of(parent_entries@, parent_root@) + members_of(
        template_entries@,
        template_root@,
    ));
    zip.finish()
}

/// Composing the same trees twice gives the same archive, byte for byte:
/// two successful results for the same entries and roots are equal.
pub proof fn lemma_compose_repeatable(
    parent_entries: Seq<Entry>,
    parent_root: Seq<String>,
    template_entries: Seq<Entry>,
    template_root: Seq<String>,
    first: Result<Vec<u8>, ArchiveError>,
    second: Result<Vec<u8>, ArchiveError>,
)
    requires
        composed(parent_entries, parent_root, template_entries, template_root, first),
        composed(parent_entries, parent_root, template_entries, template_root, second),
        first is Ok,
        second is Ok,
    ensures
        first->Ok_0@ == second->Ok_0@,
{
}

/// Two trees without entries compose into the archive without members.
pub proof fn lemma_compose_empty(
    parent_root: Seq<String>,
    template_root: Seq<String>,
    done: Result<Vec<u8>, ArchiveError>,
)
    requires
        composed(Seq::empty(), parent_root, Seq::empty(), template_root, done),
    ensures
        done matches Ok(bytes) && bytes@ == archive_encoding(Seq::empty()),
{
    assert(members_of(Seq::<Entry>::empty(), parent_root) + members_of(
        Seq::<Entry>::empty(),
        template_root,
    ) =~= Seq::empty());
}

} // verus!
