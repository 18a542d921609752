use crate::text::{
    begins_with, chars_of, is_blank, chars_are_blank, starts_with, string_of, trim, trimmed,
};
use crate::types::optional_text;
use vstd::prelude::*;
use vstd::string::StringExecFns;

verus! {

/// What is known of a path that is offered as a project.
#[derive(Debug, PartialEq, Eq)]
pub struct ProjectPathValidation {
    pub path: String,
    pub exists: bool,
    pub is_directory: bool,
    pub is_git_repository: bool,
    pub message: Option<String>,
}

/// A validation with its texts as character sequences.
pub struct ValidationView {
    pub path: Seq<char>,
    pub exists: bool,
    pub is_directory: bool,
    pub is_git_repository: bool,
    pub message: Option<Seq<char>>,
}

impl View for ProjectPathValidation {
    type V = ValidationView;

    open spec fn view(&self) -> ValidationView {
        ValidationView {
            path: self.path@,
            exists: self.exists,
            is_directory: self.is_directory,
            is_git_repository: self.is_git_repository,
            message: optional_text(self.message),
        }
    }
}

/// What asking git about a directory came to.
#[derive(Debug, PartialEq, Eq)]
pub enum GitProbe {
    /// Git ran and succeeded, and printed this.
    Answered(String),
    /// Git ran and failed.
    Refused,
    /// Git could not be run, for this reason.
    Failed(String),
}

/// A git probe with its texts as character sequences.
pub enum GitProbeView {
    Answered(Seq<char>),
    Refused,
    Failed(Seq<char>),
}

impl View for GitProbe {
    type V = GitProbeView;

    open spec fn view(&self) -> GitProbeView {
        match *self {
            GitProbe::Answered(output) => GitProbeView::Answered(output@),
            GitProbe::Refused => GitProbeView::Refused,
            GitProbe::Failed(detail) => GitProbeView::Failed(detail@),
        }
    }
}

/// What looking at a path came to.
#[derive(Debug, PartialEq, Eq)]
pub enum PathProbe {
    /// Nothing is there.
    Missing,
    /// Something is there that is no directory.
    NotDirectory,
    /// A directory is there, and git was asked about it.
    Directory(GitProbe),
}

/// A path probe with its texts as character sequences.
pub enum PathProbeView {
    Missing,
    NotDirectory,
    Directory(GitProbeView),
}

impl View for PathProbe {
    type V = PathProbeView;

    open spec fn view(&self) -> PathProbeView {
        match *self {
            PathProbe::Missing => PathProbeView::Missing,
            PathProbe::NotDirectory => PathProbeView::NotDirectory,
            PathProbe::Directory(git) => PathProbeView::Directory(git@),
        }
    }
}

/// The code of a character, that of the small letter for a capital letter
/// of the Latin alphabet.
pub open spec fn ascii_lower(c: char) -> u32 {
    if 'A' <= c <= 'Z' {
        (c as u32 + 32) as u32
    } else {
        c as u32
    }
}

/// Whether two texts are the same but for capital and small letters of the
/// Latin alphabet.
pub open spec fn same_ignoring_case(a: Seq<char>, b: Seq<char>) -> bool {
    a.len() == b.len() && forall|i: int| 0 <= i < a.len() ==> ascii_lower(#[trigger] a[i])
        == ascii_lower(b[i])
}

fn lower_code(c: char) -> (code: u32)
    ensures
        code == ascii_lower(c),
{
    if c >= 'A' && c <= 'Z' {
        c as u32 + 32
    } else {
        c as u32
    }
}

/// Whether two texts are the same but for capital and small letters of the
/// Latin alphabet.
pub fn equal_ignoring_case(a: &Vec<char>, b: &Vec<char>) -> (same: bool)
    ensures
        same == same_ignoring_case(a@, b@),
{
    if a.len() != b.len() {
        return false;
    }
    let mut i: usize = 0;
    while i < a.len()
        invariant
            i <= a.len(),
            a.len() == b.len(),
            forall|j: int| 0 <= j < i ==> ascii_lower(#[trigger] a@[j]) == ascii_lower(b@[j]),
        decreases a.len() - i,
    {
        if lower_code(a[i]) != lower_code(b[i]) {
            return false;
        }
        i += 1;
    }
    true
}

/// Whether git, asked whether a directory lies in a work tree, said yes.
pub open spec fn says_work_tree(git: GitProbeView) -> bool {
    git matches GitProbeView::Answered(output) && same_ignoring_case(trim(output), "true"@)
}

/// What is to be said of a path that is offered as a project, white space
/// around it aside, given what looking at it came to. A path of white space
/// alone is not looked at.
pub open spec fn validation_of(path: Seq<char>, probe: PathProbeView) -> ValidationView {
    if is_blank(path) {
        ValidationView {
            path,
            exists: false,
            is_directory: false,
            is_git_repository: false,
            message: Some("Path is empty"@),
        }
    } else {
        match probe {
            PathProbeView::Missing => ValidationView {
                path: trim(path),
                exists: false,
                is_directory: false,
                is_git_repository: false,
                message: Some("Path does not exist: "@ + trim(path)),
            },
            PathProbeView::NotDirectory => ValidationView {
                path: trim(path),
                exists: true,
                is_directory: false,
                is_git_repository: false,
                message: Some("Path is not a directory: "@ + trim(path)),
            },
            PathProbeView::Directory(git) => ValidationView {
                path: trim(path),
                exists: true,
                is_directory: true,
                is_git_repository: says_work_tree(git),
                message: if says_work_tree(git) {
                    None
                } else {
                    match git {
                        GitProbeView::Failed(detail) => Some(
                            "Failed to run git for validation: "@ + detail,
                        ),
                        _ => Some("Directory is not a git repository"@),
                    }
                },
            },
        }
    }
}

/// The path that is to be looked at for a path that was offered: the same
/// without white space around it, and nothing for white space alone.
pub fn path_to_probe(path: &str) -> (target: Option<String>)
    ensures
        optional_text(target) == if is_blank(path@) {
            None
        } else {
            Some(trim(path@))
        },
{
    let chars = chars_of(path);
    if chars_are_blank(&chars) {
        None
    } else {
        Some(string_of(&trimmed(&chars)))
    }
}

fn text_with(prefix: &str, rest: &Vec<char>) -> (text: String)
    ensures
        text@ == prefix@ + rest@,
{
    let mut text = String::from_str(prefix);
    let rest_text = string_of(rest);
    text.append(rest_text.as_str());
    text
}

/// Says what is known of a path that is offered as a project.
pub fn validate_project_path(path: String, probe: PathProbe) -> (validation: ProjectPathValidation)
    ensures
        validation@ == validation_of(path@, probe@),
{
    let chars = chars_of(path.as_str());
    if chars_are_blank(&chars) {
        return ProjectPathValidation {
            path,
            exists: false,
            is_directory: false,
            is_git_repository: false,
            message: Some(String::from_str("Path is empty")),
        };
    }
    let target = trimmed(&chars);
    match probe {
        PathProbe::Missing => ProjectPathValidation {
            path: string_of(&target),
            exists: false,
            is_directory: false,
            is_git_repository: false,
            message: Some(text_with("Path does not exist: ", &target)),
        },
        PathProbe::NotDirectory => ProjectPathValidation {
            path: string_of(&target),
            exists: true,
            is_directory: false,
            is_git_repository: false,
            message: Some(text_with("Path is not a directory: ", &target)),
        },
        PathProbe::Directory(git) => {
            let (is_git_repository, message) = match git {
                GitProbe::Answered(output) => {
                    let said = trimmed(&chars_of(output.as_str()));
                    let yes = chars_of("true");
                    if equal_ignoring_case(&said, &yes) {
                        (true, None)
                    } else {
                        (false, Some(String::from_str("Directory is not a git repository")))
                    }
                },
                GitProbe::Refused => (
                    false,
                    Some(String::from_str("Directory is not a git repository")),
                ),
                GitProbe::Failed(detail) => {
                    let mut text = String::from_str("Failed to run git for validation: ");
                    text.append(detail.as_str());
                    (false, Some(text))
                },
            };
            ProjectPathValidation {
                path: string_of(&target),
                exists: true,
                is_directory: true,
                is_git_repository,
                message,
            }
        },
    }
}

/// One entry of a directory.
#[derive(Debug, PartialEq, Eq)]
pub struct DirectoryEntry {
    pub name: String,
    pub path: String,
    pub is_directory: bool,
    pub is_protected: bool,
    pub is_git_repository: bool,
}

/// A directory entry with its texts as character sequences.
pub struct DirectoryEntryView {
    pub name: Seq<char>,
    pub path: Seq<char>,
    pub is_directory: bool,
    pub is_protected: bool,
    pub is_git_repository: bool,
}

impl View for DirectoryEntry {
    type V = DirectoryEntryView;

    open spec fn view(&self) -> DirectoryEntryView {
        DirectoryEntryView {
            name: self.name@,
            path: self.path@,
            is_directory: self.is_directory,
            is_protected: self.is_protected,
            is_git_repository: self.is_git_repository,
        }
    }
}

impl Clone for DirectoryEntry {
    fn clone(&self) -> (copy: DirectoryEntry)
        ensures
            copy == *self,
    {
        DirectoryEntry {
            name: self.name.clone(),
            path: self.path.clone(),
            is_directory: self.is_directory,
            is_protected: self.is_protected,
            is_git_repository: self.is_git_repository,
        }
    }
}

/// The views of a list of entries.
pub open spec fn entry_views(entries: Seq<DirectoryEntry>) -> Seq<DirectoryEntryView> {
    Seq::new(entries.len(), |i: int| entries[i]@)
}

/// The entries of a directory, as they are shown.
#[derive(Debug, PartialEq, Eq)]
pub struct DirectoryListing {
    pub current_path: String,
    pub entries: Vec<DirectoryEntry>,
}

/// The entry that is shown for something found in a directory, if it is
/// shown: what has a name that begins with a dot is hidden. A directory that
/// cannot be read is protected, and a directory that can be read and holds a
/// `.git` directory is a git repository.
pub open spec fn shown_entry(
    name: Seq<char>,
    path: Seq<char>,
    is_directory: bool,
    readable: bool,
    has_git_directory: bool,
) -> Option<DirectoryEntryView> {
    if starts_with(name, "."@) {
        None
    } else {
        Some(
            DirectoryEntryView {
                name,
                path,
                is_directory,
                is_protected: is_directory && !readable,
                is_git_repository: is_directory && readable && has_git_directory,
            },
        )
    }
}

/// Whether something found in a directory is hidden from the listing.
pub fn is_hidden(name: &str) -> (hidden: bool)
    ensures
        hidden == starts_with(name@, "."@),
{
    let chars = chars_of(name);
    let dot = chars_of(".");
    begins_with(&chars, &dot)
}

/// The entry that is shown for something found in a directory, if it is
/// shown.
pub fn directory_entry(
    name: String,
    path: String,
    is_directory: bool,
    readable: bool,
    has_git_directory: bool,
) -> (entry: Option<DirectoryEntry>)
    ensures
        match entry {
            Some(entry) => shown_entry(name@, path@, is_directory, readable, has_git_directory)
                == Some(entry@),
            None => shown_entry(name@, path@, is_directory, readable, has_git_directory) is None,
        },
{
    if is_hidden(name.as_str()) {
        None
    } else {
        Some(
            DirectoryEntry {
                name,
                path,
                is_directory,
                is_protected: is_directory && !readable,
                is_git_repository: is_directory && readable && has_git_directory,
            },
        )
    }
}

/// Whether text `a` comes before text `b` in the order of a dictionary that
/// goes by the codes of the characters.
pub open spec fn text_before(a: Seq<char>, b: Seq<char>) -> bool
    decreases a.len(),
{
    if b.len() == 0 {
        false
    } else if a.len() == 0 {
        true
    } else if a[0] as u32 != b[0] as u32 {
        (a[0] as u32) < (b[0] as u32)
    } else {
        text_before(a.drop_first(), b.drop_first())
    }
}

/// Whether entry `a` is shown before entry `b`: directories before
/// everything else, and names in order among the directories and among the
/// rest.
pub open spec fn shown_before(a: DirectoryEntryView, b: DirectoryEntryView) -> bool {
    if a.is_directory != b.is_directory {
        a.is_directory
    } else {
        text_before(a.name, b.name)
    }
}

/// Whether place `i` is where `entry` goes into entries that are in order:
/// behind every entry that it is not shown before, so that entries that
/// neither is shown before the other keep the order in which they came.
pub open spec fn is_place_for(
    sorted: Seq<DirectoryEntryView>,
    entry: DirectoryEntryView,
    i: int,
) -> bool {
    &&& 0 <= i <= sorted.len()
    &&& forall|j: int| i <= j < sorted.len() ==> shown_before(entry, #[trigger] sorted[j])
    &&& i > 0 ==> !shown_before(entry, sorted[i - 1])
}

/// The entries in the order in which they are shown, entries that neither
/// is shown before the other in the order in which they came.
pub open spec fn in_shown_order(entries: Seq<DirectoryEntryView>) -> Seq<DirectoryEntryView>
    decreases entries.len(),
{
    if entries.len() == 0 {
        entries
    } else {
        let sorted = in_shown_order(entries.drop_last());
        sorted.insert(choose|i: int| is_place_for(sorted, entries.last(), i), entries.last())
    }
}

/// The order of texts does not turn back on itself: no text comes before
/// itself, of two texts at most one comes before the other, and what comes
/// before a text comes before all that the text comes before.
pub proof fn text_order_is_strict(a: Seq<char>, b: Seq<char>, c: Seq<char>)
    ensures
        !text_before(a, a),
        text_before(a, b) ==> !text_before(b, a),
        text_before(a, b) && text_before(b, c) ==> text_before(a, c),
        !text_before(a, b) && !text_before(b, c) ==> !text_before(a, c),
    decreases a.len(),
{
    if a.len() > 0 {
        text_order_is_strict(a.drop_first(), a.drop_first(), a.drop_first());
        if b.len() > 0 {
            if c.len() > 0 {
                text_order_is_strict(a.drop_first(), b.drop_first(), c.drop_first());
            } else {
                text_order_is_strict(a.drop_first(), b.drop_first(), b.drop_first());
            }
        }
    }
}

/// The order in which entries are shown does not turn back on itself.
pub proof fn shown_order_is_strict(
    a: DirectoryEntryView,
    b: DirectoryEntryView,
    c: DirectoryEntryView,
)
    ensures
        !shown_before(a, a),
        shown_before(a, b) ==> !shown_before(b, a),
        shown_before(a, b) && shown_before(b, c) ==> shown_before(a, c),
        !shown_before(a, b) && !shown_before(b, c) ==> !shown_before(a, c),
{
    text_order_is_strict(a.name, b.name, c.name);
}

/// Whether entries are in the order in which they are shown.
pub open spec fn is_in_order(entries: Seq<DirectoryEntryView>) -> bool {
    forall|i: int, j: int|
        0 <= i < j < entries.len() ==> !shown_before(#[trigger] entries[j], #[trigger] entries[i])
}

/// Whether text `a` comes before text `b`.
pub fn comes_before(a: &Vec<char>, b: &Vec<char>) -> (before: bool)
    ensures
        before == text_before(a@, b@),
{
    let mut i: usize = 0;
    assert(a@.subrange(0, a@.len() as int) =~= a@);
    assert(b@.subrange(0, b@.len() as int) =~= b@);
    while i < a.len() && i < b.len()
        invariant
            i <= a.len(),
            i <= b.len(),
            text_before(a@, b@) == text_before(
                a@.subrange(i as int, a@.len() as int),
                b@.subrange(i as int, b@.len() as int),
            ),
        decreases a.len() - i,
    {
        let ghost rest_a = a@.subrange(i as int, a@.len() as int);
        let ghost rest_b = b@.subrange(i as int, b@.len() as int);
        assert(rest_a.drop_first() =~= a@.subrange(i + 1, a@.len() as int));
        assert(rest_b.drop_first() =~= b@.subrange(i + 1, b@.len() as int));
        let x: u32 = a[i] as u32;
        let y: u32 = b[i] as u32;
        if x != y {
            return x < y;
        }
        i += 1;
    }
    i < b.len()
}

/// Whether entry `a` is shown before entry `b`.
pub fn entry_comes_before(a: &DirectoryEntry, b: &DirectoryEntry) -> (before: bool)
    ensures
        before == shown_before(a@, b@),
{
    if a.is_directory != b.is_directory {
        a.is_directory
    } else {
        comes_before(&chars_of(a.name.as_str()), &chars_of(b.name.as_str()))
    }
}

/// In entries that are in order an entry has one place only.
proof fn place_is_unique(
    sorted: Seq<DirectoryEntryView>,
    entry: DirectoryEntryView,
    i: int,
    j: int,
)
    requires
        is_place_for(sorted, entry, i),
        is_place_for(sorted, entry, j),
    ensures
        i == j,
{
    if i < j {
        assert(shown_before(entry, sorted[j - 1]));
    } else if j < i {
        assert(shown_before(entry, sorted[i - 1]));
    }
}

/// Putting an entry at its place keeps entries in order.
proof fn insert_keeps_order(sorted: Seq<DirectoryEntryView>, entry: DirectoryEntryView, i: int)
    requires
        is_in_order(sorted),
        is_place_for(sorted, entry, i),
    ensures
        is_in_order(sorted.insert(i, entry)),
{
    let after = sorted.insert(i, entry);
    assert forall|a: int, b: int| 0 <= a < b < after.len() implies !shown_before(
        #[trigger] after[b],
        #[trigger] after[a],
    ) by {
        if b == i {
            // an earlier entry `after[a]` stands before the new one
            if i > 0 {
                shown_order_is_strict(entry, sorted[i - 1], sorted[a]);
                if a < i - 1 {
                    assert(!shown_before(sorted[i - 1], sorted[a]));
                }
            }
        } else if a == i {
            let later = sorted[b - 1];
            assert(shown_before(entry, later));
            shown_order_is_strict(entry, later, entry);
        } else {
            let a0 = if a < i { a } else { a - 1 };
            let b0 = if b < i { b } else { b - 1 };
            assert(after[a] == sorted[a0]);
            assert(after[b] == sorted[b0]);
        }
    }
}

/// Puts the entries into the order in which they are shown.
pub fn sort_entries(entries: Vec<DirectoryEntry>) -> (sorted: Vec<DirectoryEntry>)
    ensures
        entry_views(sorted@) == in_shown_order(entry_views(entries@)),
        is_in_order(entry_views(sorted@)),
        entry_views(sorted@).to_multiset() == entry_views(entries@).to_multiset(),
{
    let ghost all = entry_views(entries@);
    let mut sorted: Vec<DirectoryEntry> = Vec::new();
    let mut done: usize = 0;
    proof {
        assert(entry_views(sorted@) =~= in_shown_order(all.take(0)));
        assert(all.take(0).to_multiset() =~= entry_views(sorted@).to_multiset());
    }
    while done < entries.len()
        invariant
            done <= entries.len(),
            all == entry_views(entries@),
            entry_views(sorted@) == in_shown_order(all.take(done as int)),
            is_in_order(entry_views(sorted@)),
            entry_views(sorted@).to_multiset() == all.take(done as int).to_multiset(),
        decreases entries.len() - done,
    {
        let entry = entries[done].clone();
        let ghost views = entry_views(sorted@);
        proof {
            assert(entry@ == all[done as int]);
            assert(all.take(done + 1).drop_last() =~= all.take(done as int));
            assert(all.take(done + 1).last() == entry@);
        }
        let mut place: usize = sorted.len();
        while place > 0 && entry_comes_before(&entry, &sorted[place - 1])
            invariant
                place <= sorted.len(),
                views == entry_views(sorted@),
                forall|j: int| place <= j < views.len() ==> shown_before(entry@, #[trigger] views[j]),
            decreases place,
        {
            assert(views[place - 1] == sorted@[place - 1]@);
            place -= 1;
        }
        proof {
            if place > 0 {
                assert(views[place - 1] == sorted@[place - 1]@);
            }
            assert(is_place_for(views, entry@, place as int));
            let chosen = choose|i: int| is_place_for(views, entry@, i);
            place_is_unique(views, entry@, place as int, chosen);
            insert_keeps_order(views, entry@, place as int);
            vstd::seq_lib::to_multiset_insert(views, place as int, entry@);
            vstd::seq_lib::to_multiset_build(all.take(done as int), entry@);
            assert(all.take(done + 1) =~= all.take(done as int).push(entry@));
        }
        sorted.insert(place, entry);
        proof {
            assert(entry_views(sorted@) =~= views.insert(place as int, entry@));
        }
        done += 1;
    }
    proof {
        assert(all.take(all.len() as int) =~= all);
    }
    sorted
}

/// The errors of a listing that cannot be made.
pub open spec fn listing_error(path: Seq<char>, probe: ListingProbeView) -> Option<Seq<char>> {
    match probe {
        ListingProbeView::NoHome => Some("Could not determine home directory"@),
        ListingProbeView::Missing => Some("Path does not exist: "@ + path),
        ListingProbeView::NotDirectory => Some("Path is not a directory: "@ + path),
        ListingProbeView::PermissionDenied => Some(
            "Permission denied: You don't have access to read this directory ("@ + path + ")"@,
        ),
        ListingProbeView::Unreadable(detail) => Some("Error reading directory: "@ + detail),
        ListingProbeView::Readable => None,
    }
}

/// What trying to read a directory came to.
#[derive(Debug, PartialEq, Eq)]
pub enum ListingProbe {
    /// No path was given and the home directory is not known.
    NoHome,
    /// Nothing is at the path.
    Missing,
    /// What is at the path is no directory.
    NotDirectory,
    /// The directory may not be read.
    PermissionDenied,
    /// The directory cannot be read, for this reason.
    Unreadable(String),
    /// The directory was read.
    Readable,
}

/// A listing probe with its text as a character sequence.
pub enum ListingProbeView {
    NoHome,
    Missing,
    NotDirectory,
    PermissionDenied,
    Unreadable(Seq<char>),
    Readable,
}

impl View for ListingProbe {
    type V = ListingProbeView;

    open spec fn view(&self) -> ListingProbeView {
        match *self {
            ListingProbe::NoHome => ListingProbeView::NoHome,
            ListingProbe::Missing => ListingProbeView::Missing,
            ListingProbe::NotDirectory => ListingProbeView::NotDirectory,
            ListingProbe::PermissionDenied => ListingProbeView::PermissionDenied,
            ListingProbe::Unreadable(detail) => ListingProbeView::Unreadable(detail@),
            ListingProbe::Readable => ListingProbeView::Readable,
        }
    }
}

/// Makes the listing of a directory from what was found in it, or says why
/// there is none.
pub fn list_directory(path: String, probe: ListingProbe, found: Vec<DirectoryEntry>) -> (listing:
    Result<DirectoryListing, String>)
    ensures
        match listing {
            Ok(listing) => {
                &&& listing_error(path@, probe@) is None
                &&& listing.current_path@ == path@
                &&& entry_views(listing.entries@) == in_shown_order(entry_views(found@))
            },
            Err(error) => listing_error(path@, probe@) == Some(error@),
        },
{
    match probe {
        ListingProbe::NoHome => Err(String::from_str("Could not determine home directory")),
        ListingProbe::Missing => {
            let mut text = String::from_str("Path does not exist: ");
            text.append(path.as_str());
            Err(text)
        },
        ListingProbe::NotDirectory => {
            let mut text = String::from_str("Path is not a directory: ");
            text.append(path.as_str());
            Err(text)
        },
        ListingProbe::PermissionDenied => {
            let mut text = String::from_str(
                "Permission denied: You don't have access to read this directory (",
            );
            text.append(path.as_str());
            text.append(")");
            Err(text)
        },
        ListingProbe::Unreadable(detail) => {
            let mut text = String::from_str("Error reading directory: ");
            text.append(detail.as_str());
            Err(text)
        },
        ListingProbe::Readable => Ok(
            DirectoryListing { current_path: path, entries: sort_entries(found) },
        ),
    }
}

/// A directory that is offered as a place to begin at.
#[derive(Debug, PartialEq, Eq)]
pub struct CommonDirectory {
    pub name: String,
    pub path: String,
    pub icon: String,
}

/// A common directory with its texts as character sequences.
pub struct CommonDirectoryView {
    pub name: Seq<char>,
    pub path: Seq<char>,
    pub icon: Seq<char>,
}

impl View for CommonDirectory {
    type V = CommonDirectoryView;

    open spec fn view(&self) -> CommonDirectoryView {
        CommonDirectoryView { name: self.name@, path: self.path@, icon: self.icon@ }
    }
}

/// The views of a list of common directories.
pub open spec fn common_views(directories: Seq<CommonDirectory>) -> Seq<CommonDirectoryView> {
    Seq::new(directories.len(), |i: int| directories[i]@)
}

/// The folders below the home directory that are tried as the place of the
/// projects, each with the name it is shown under, in the order in which
/// they are tried.
pub open spec fn project_folders() -> Seq<(Seq<char>, Seq<char>)> {
    seq![
        ("Projects"@, "projects"@),
        ("Projects"@, "Projects"@),
        ("Code"@, "code"@),
        ("Code"@, "Code"@),
        ("Workspace"@, "workspace"@),
        ("Workspace"@, "Workspace"@),
        ("Dev"@, "dev"@),
        ("Dev"@, "Dev"@),
    ]
}

/// One of the directories with a symbol of their own, if it is known.
pub open spec fn known_directory(name: Seq<char>, path: Option<Seq<char>>, icon: Seq<char>)
    -> Seq<CommonDirectoryView> {
    match path {
        Some(path) => seq![CommonDirectoryView { name, path, icon }],
        None => Seq::empty(),
    }
}

/// The directories that are offered as places to begin at: none where the
/// home directory is not known, else the home directory, then the
/// directories for documents, desktop and downloads as far as they are
/// known, then the first folder for projects that was found.
pub open spec fn offered_directories(
    home: Option<Seq<char>>,
    documents: Option<Seq<char>>,
    desktop: Option<Seq<char>>,
    downloads: Option<Seq<char>>,
    projects: Option<(Seq<char>, Seq<char>)>,
) -> Seq<CommonDirectoryView> {
    match home {
        None => Seq::empty(),
        Some(home) => seq![CommonDirectoryView { name: "Home"@, path: home, icon: "üè†"@ }]
            + known_directory("Documents"@, documents, "üìÑ"@) + known_directory(
            "Desktop"@,
            desktop,
            "üñ•Ô∏è"@,
        ) + known_directory("Downloads"@, downloads, "‚¨áÔ∏è"@) + match projects {
            Some((name, path)) => seq![CommonDirectoryView { name, path, icon: "üíª"@ }],
            None => Seq::empty(),
        },
    }
}

/// The folders below the home directory that are tried as the place of the
/// projects, each with the name it is shown under.
pub fn project_folder_candidates() -> (folders: Vec<(String, String)>)
    ensures
        folders@.len() == project_folders().len(),
        forall|i: int|
            0 <= i < folders@.len() ==> (#[trigger] folders@[i]).0@ == project_folders()[i].0
                && folders@[i].1@ == project_folders()[i].1,
{
    let mut folders: Vec<(String, String)> = Vec::new();
    folders.push((String::from_str("Projects"), String::from_str("projects")));
    folders.push((String::from_str("Projects"), String::from_str("Projects")));
    folders.push((String::from_str("Code"), String::from_str("code")));
    folders.push((String::from_str("Code"), String::from_str("Code")));
    folders.push((String::from_str("Workspace"), String::from_str("workspace")));
    folders.push((String::from_str("Workspace"), String::from_str("Workspace")));
    folders.push((String::from_str("Dev"), String::from_str("dev")));
    folders.push((String::from_str("Dev"), String::from_str("Dev")));
    folders
}

fn offer(directories: &mut Vec<CommonDirectory>, name: &str, path: Option<String>, icon: &str)
    ensures
        common_views(final(directories)@) == common_views(old(directories)@) + known_directory(
            name@,
            optional_text(path),
            icon@,
        ),
{
    let ghost before = common_views(directories@);
    match path {
        Some(path) => {
            let directory = CommonDirectory {
                name: String::from_str(name),
                path,
                icon: String::from_str(icon),
            };
            directories.push(directory);
            assert(common_views(directories@) =~= before + seq![directory@]);
        },
        None => {
            assert(common_views(directories@) =~= before + Seq::<CommonDirectoryView>::empty());
        },
    }
}

/// The directories that are offered as places to begin at. `projects` is the
/// first folder for projects that was found below the home directory, with
/// the name it is shown under and its path.
pub fn get_common_directories(
    home: Option<String>,
    documents: Option<String>,
    desktop: Option<String>,
    downloads: Option<String>,
    projects: Option<(String, String)>,
) -> (directories: Vec<CommonDirectory>)
    ensures
        common_views(directories@) == offered_directories(
            optional_text(home),
            optional_text(documents),
            optional_text(desktop),
            optional_text(downloads),
            match projects {
                Some((name, path)) => Some((name@, path@)),
                None => None,
            },
        ),
{
    let mut directories: Vec<CommonDirectory> = Vec::new();
    match home {
        None => {
            assert(common_views(directories@) =~= Seq::<CommonDirectoryView>::empty());
        },
        Some(home) => {
            assert(common_views(directories@) =~= Seq::<CommonDirectoryView>::empty());
            offer(&mut directories, "Home", Some(home), "üè†");
            offer(&mut directories, "Documents", documents, "üìÑ");
            offer(&mut directories, "Desktop", desktop, "üñ•Ô∏è");
            offer(&mut directories, "Downloads", downloads, "‚¨áÔ∏è");
            let ghost before = common_views(directories@);
            match projects {
                Some((name, path)) => {
                    let directory = CommonDirectory {
                        name,
                        path,
                        icon: String::from_str("üíª"),
                    };
                    directories.push(directory);
                    assert(common_views(directories@) =~= before + seq![directory@]);
                },
                None => {
                    assert(common_views(directories@) =~= before
                        + Seq::<CommonDirectoryView>::empty());
                },
            }
        },
    }
    directories
}

/// The error for a requirements document in markdown that cannot be read.
pub fn convert_failure(detail: &str) -> (text: String)
    ensures
        text@ == "Failed to parse PRD: "@ + detail@,
{
    let mut text = String::from_str("Failed to parse PRD: ");
    text.append(detail);
    text
}

} // verus!
