//! Bookkeeping of the context-file manager: the file list kept in
//! `context.json` against the files stored with the Files API.

use vstd::prelude::*;
use vstd::string::*;

use crate::claude::types::{copy_file_ref, files_view, ContextConfig, FileRef, FileRefView};
use crate::claude::api::{http_reason_phrase, status_text};
use crate::text::{decimal, decimal_text, flag_value, parse_flag, text_eq, views};

verus! {

/// The address of the Files API.
pub open spec fn files_api_base() -> Seq<char> {
    "https://api.anthropic.com/v1/files"@
}

/// The address of one page of the file listing: at most 1000 files, after the
/// file `after_id` when there is one.
pub open spec fn files_page_url_text(after_id: Option<Seq<char>>) -> Seq<char> {
    files_api_base() + "?limit=1000"@ + match after_id {
        Some(c) => "&after_id="@ + c,
        None => Seq::empty(),
    }
}

/// The URL of a page of the file listing.
pub fn files_page_url(after_id: Option<&str>) -> (r: String)
    ensures
        r@ == files_page_url_text(crate::claude::api::opt_str(after_id)),
{
    let mut url = "https://api.anthropic.com/v1/files".to_owned();
    url.append("?limit=1000");
    match after_id {
        Some(c) => {
            url.append("&after_id=");
            url.append(c);
        },
        None => {
            assert(url@ =~= url@ + Seq::<char>::empty());
        },
    }
    url
}

/// The URL of the files endpoint itself, where uploads go.
pub fn files_api_url() -> (r: String)
    ensures
        r@ == files_api_base(),
{
    "https://api.anthropic.com/v1/files".to_owned()
}

/// The URL of one stored file.
pub fn file_url(file_id: &str) -> (r: String)
    ensures
        r@ == files_api_base() + "/"@ + file_id@,
{
    let mut url = "https://api.anthropic.com/v1/files".to_owned();
    url.append("/");
    url.append(file_id);
    url
}

/// The progress of walking through the pages of the file listing: the ids
/// seen so far, the cursor of the next page, and whether the walk is over.
pub struct FileListing {
    ids: Vec<String>,
    cursor: Option<String>,
    finished: bool,
}

/// Whether no element occurs twice in `s`.
pub open spec fn no_duplicates(s: Seq<Seq<char>>) -> bool {
    forall|i: int, j: int| 0 <= i < j < s.len() ==> s[i] != s[j]
}

impl FileListing {
    /// The ids of the stored files seen so far.
    pub closed spec fn known(&self) -> Set<Seq<char>> {
        views(self.ids@).to_set()
    }

    /// The cursor to ask the next page with.
    pub closed spec fn next_cursor(&self) -> Option<Seq<char>> {
        crate::discord::types::opt_text(self.cursor)
    }

    /// Whether the last page has been read.
    pub closed spec fn is_finished(&self) -> bool {
        self.finished
    }

    /// Each id is recorded once.
    #[verifier::type_invariant]
    spec fn wf(self) -> bool {
        no_duplicates(views(self.ids@))
    }

    /// The start of a walk: nothing seen, the first page next.
    pub fn new() -> (r: FileListing)
        ensures
            r.known() == Set::<Seq<char>>::empty(),
            r.next_cursor() is None,
            !r.is_finished(),
    {
        let r = FileListing { ids: Vec::new(), cursor: None, finished: false };
        assert(views(r.ids@).to_set() =~= Set::<Seq<char>>::empty());
        r
    }

    /// The URL of the next page to fetch, or `None` when the walk is over.
    pub fn next_request(&self) -> (r: Option<String>)
        ensures
            match r {
                Some(u) => !self.is_finished() && u@ == files_page_url_text(self.next_cursor()),
                None => self.is_finished(),
            },
    {
        if self.finished {
            None
        } else {
            match &self.cursor {
                Some(c) => Some(files_page_url(Some(c.as_str()))),
                None => Some(files_page_url(None)),
            }
        }
    }

    /// Whether the file `id` has been seen.
    pub fn contains(&self, id: &str) -> (r: bool)
        ensures
            r == self.known().contains(id@),
    {
        ids_contain(&self.ids, id)
    }

    /// Takes in one page of the listing: its ids are recorded, and the walk
    /// goes on, from the page's last id, exactly when the page says there are
    /// more.
    pub fn absorb_page(&mut self, page_ids: &[String], has_more: Option<bool>, last_id: Option<String>)
        ensures
            final(self).known() == old(self).known().union(views(page_ids@).to_set()),
            final(self).is_finished() == (has_more != Some(true)),
            has_more == Some(true) ==> final(self).next_cursor() == crate::discord::types::opt_text(last_id),
    {
        proof { use_type_invariant(&*self); }
        let ghost start = self.known();
        let mut ids: Vec<String> = Vec::new();
        std::mem::swap(&mut ids, &mut self.ids);
        assert(views(ids@).to_set() == start);
        let mut i: usize = 0;
        assert(views(page_ids@.take(0)).to_set() =~= Set::<Seq<char>>::empty());
        while i < page_ids.len()
            invariant
                0 <= i <= page_ids@.len(),
                no_duplicates(views(ids@)),
                views(ids@).to_set() == start.union(views(page_ids@.take(i as int)).to_set()),
            decreases page_ids@.len() - i,
        {
            let ghost before = views(ids@).to_set();
            let id = &page_ids[i];
            if !ids_contain(&ids, id.as_str()) {
                let ghost old_ids = views(ids@);
                ids.push(id.clone());
                assert(views(ids@) =~= old_ids.push(id@));
                proof { old_ids.lemma_push_to_set_commute(id@); }
                assert(views(ids@).to_set() =~= before.insert(id@));
            }
            assert(views(page_ids@.take(i + 1)) =~= views(page_ids@.take(i as int)).push(id@));
            proof { views(page_ids@.take(i as int)).lemma_push_to_set_commute(id@); }
            assert(views(ids@).to_set() =~= start.union(views(page_ids@.take(i + 1)).to_set()));
            i = i + 1;
        }
        assert(page_ids@.take(page_ids@.len() as int) =~= page_ids@);
        self.ids = ids;
        if has_more == Some(true) {
            self.cursor = last_id;
            self.finished = false;
        } else {
            self.finished = true;
        }
    }
}

/// Whether `id` is one of `ids`.
fn ids_contain(ids: &Vec<String>, id: &str) -> (r: bool)
    ensures
        r == views(ids@).to_set().contains(id@),
{
    let mut i: usize = 0;
    while i < ids.len()
        invariant
            0 <= i <= ids@.len(),
            forall|j: int| 0 <= j < i ==> ids@[j]@ != id@,
        decreases ids@.len() - i,
    {
        if text_eq(ids[i].as_str(), id) {
            assert(views(ids@)[i as int] == id@);
            return true;
        }
        i = i + 1;
    }
    assert(!views(ids@).contains(id@));
    false
}

/// The files of `files`, in order, whose id is (`keep`) or is not (`!keep`)
/// among `remote`.
pub open spec fn select_files(files: Seq<FileRefView>, remote: Set<Seq<char>>, keep: bool) -> Seq<FileRefView>
    decreases files.len(),
{
    if files.len() == 0 {
        Seq::empty()
    } else {
        let rest = select_files(files.drop_last(), remote, keep);
        if remote.contains(files.last().id) == keep {
            rest.push(files.last())
        } else {
            rest
        }
    }
}

/// Splits the file list into the files that are still stored and the stale
/// ones, each in the order of the list.
pub fn partition_files(files: &[FileRef], remote: &FileListing) -> (r: (Vec<FileRef>, Vec<FileRef>))
    ensures
        files_view(r.0@) == select_files(files_view(files@), remote.known(), true),
        files_view(r.1@) == select_files(files_view(files@), remote.known(), false),
{
    let ghost all = files_view(files@);
    let mut kept: Vec<FileRef> = Vec::new();
    let mut removed: Vec<FileRef> = Vec::new();
    let mut i: usize = 0;
    while i < files.len()
        invariant
            0 <= i <= files@.len(),
            all == files_view(files@),
            files_view(kept@) == select_files(all.take(i as int), remote.known(), true),
            files_view(removed@) == select_files(all.take(i as int), remote.known(), false),
        decreases files@.len() - i,
    {
        assert(all.take(i + 1).drop_last() =~= all.take(i as int));
        assert(all.take(i + 1).last() == files@[i as int]@);
        let f = &files[i];
        if remote.contains(f.id.as_str()) {
            let ghost before = kept@;
            kept.push(copy_file_ref(f));
            assert(files_view(kept@) =~= files_view(before).push(f@));
        } else {
            let ghost before = removed@;
            removed.push(copy_file_ref(f));
            assert(files_view(removed@) =~= files_view(before).push(f@));
        }
        i = i + 1;
    }
    assert(all.take(files@.len() as int) =~= all);
    (kept, removed)
}

/// Whether `verify` has anything to check: a file list without entries is
/// reported as such and the Files API is not asked.
pub fn has_files(config: &ContextConfig) -> (r: bool)
    ensures
        r == (config.files@.len() > 0),
{
    config.files.len() > 0
}

/// The file list to write back after `verify`: the kept entries, in order,
/// when some entry is stale; `None`, leaving the file as it is, when none is.
pub fn pruned_config(kept: &[FileRef], removed: &[FileRef]) -> (r: Option<ContextConfig>)
    ensures
        match r {
            Some(c) => removed@.len() > 0 && files_view(c.files@) == files_view(kept@),
            None => removed@.len() == 0,
        },
{
    if removed.len() == 0 {
        return None;
    }
    let mut files: Vec<FileRef> = Vec::new();
    let mut i: usize = 0;
    while i < kept.len()
        invariant
            0 <= i <= kept@.len(),
            files_view(files@) == files_view(kept@.take(i as int)),
        decreases kept@.len() - i,
    {
        let ghost before = files@;
        files.push(copy_file_ref(&kept[i]));
        assert(files_view(files@) =~= files_view(before).push(kept@[i as int]@));
        assert(files_view(kept@.take(i + 1)) =~= files_view(kept@.take(i as int)).push(kept@[i as int]@));
        i = i + 1;
    }
    assert(kept@.take(kept@.len() as int) =~= kept@);
    Some(ContextConfig { files })
}

/// Every file of the list is either kept or removed, none both.
pub proof fn partition_is_complete(files: Seq<FileRefView>, remote: Set<Seq<char>>)
    ensures
        select_files(files, remote, true).len() + select_files(files, remote, false).len() == files.len(),
        forall|i: int|
            0 <= i < select_files(files, remote, true).len() ==> remote.contains(
                #[trigger] select_files(files, remote, true)[i].id,
            ),
        forall|i: int|
            0 <= i < select_files(files, remote, false).len() ==> !remote.contains(
                #[trigger] select_files(files, remote, false)[i].id,
            ),
    decreases files.len(),
{
    if files.len() > 0 {
        partition_is_complete(files.drop_last(), remote);
    }
}

/// The files of `files`, in order, whose id is not `id`.
pub open spec fn without_id(files: Seq<FileRefView>, id: Seq<char>) -> Seq<FileRefView>
    decreases files.len(),
{
    if files.len() == 0 {
        Seq::empty()
    } else if files.last().id == id {
        without_id(files.drop_last(), id)
    } else {
        without_id(files.drop_last(), id).push(files.last())
    }
}

/// Drops every entry of the file `file_id` from the file list; the number of
/// entries dropped.
pub fn remove_file_ref(config: &mut ContextConfig, file_id: &str) -> (r: usize)
    ensures
        files_view(final(config).files@) == without_id(files_view(old(config).files@), file_id@),
        r == old(config).files@.len() - final(config).files@.len(),
{
    let ghost all = files_view(config.files@);
    let mut kept: Vec<FileRef> = Vec::new();
    let mut i: usize = 0;
    while i < config.files.len()
        invariant
            0 <= i <= config.files@.len(),
            all == files_view(config.files@),
            files_view(kept@) == without_id(all.take(i as int), file_id@),
            kept@.len() <= i,
        decreases config.files@.len() - i,
    {
        assert(all.take(i + 1).drop_last() =~= all.take(i as int));
        assert(all.take(i + 1).last() == config.files@[i as int]@);
        let f = &config.files[i];
        if !text_eq(f.id.as_str(), file_id) {
            let ghost before = kept@;
            kept.push(copy_file_ref(f));
            assert(files_view(kept@) =~= files_view(before).push(f@));
        }
        i = i + 1;
    }
    assert(all.take(config.files@.len() as int) =~= all);
    let before_len = config.files.len();
    config.files = kept;
    before_len - config.files.len()
}

/// Removal keeps every entry of another file unchanged (id and title) and
/// in order, and drops exactly the entries of the removed file.
pub proof fn removal_keeps_other_entries(files: Seq<FileRefView>, entry: FileRefView, id: Seq<char>)
    ensures
        without_id(Seq::empty(), id) == Seq::<FileRefView>::empty(),
        entry.id != id ==> without_id(files.push(entry), id) == without_id(files, id).push(entry),
        entry.id == id ==> without_id(files.push(entry), id) == without_id(files, id),
{
    assert(files.push(entry).drop_last() =~= files);
}

/// Partitioning keeps every entry unchanged and in order: a stored file goes
/// to the kept entries, a missing one to the removed entries.
pub proof fn partition_keeps_entries(files: Seq<FileRefView>, entry: FileRefView, remote: Set<Seq<char>>)
    ensures
        select_files(Seq::empty(), remote, true) == Seq::<FileRefView>::empty(),
        select_files(Seq::empty(), remote, false) == Seq::<FileRefView>::empty(),
        remote.contains(entry.id) ==> select_files(files.push(entry), remote, true) == select_files(
            files,
            remote,
            true,
        ).push(entry),
        remote.contains(entry.id) ==> select_files(files.push(entry), remote, false) == select_files(
            files,
            remote,
            false,
        ),
        !remote.contains(entry.id) ==> select_files(files.push(entry), remote, false) == select_files(
            files,
            remote,
            false,
        ).push(entry),
        !remote.contains(entry.id) ==> select_files(files.push(entry), remote, true) == select_files(
            files,
            remote,
            true,
        ),
{
    assert(files.push(entry).drop_last() =~= files);
}

/// After removal no entry of the file is left, entries of other files all
/// stay, and nothing changes when the file is not in the list.
pub proof fn removal_is_exact(files: Seq<FileRefView>, id: Seq<char>)
    ensures
        forall|i: int| 0 <= i < without_id(files, id).len() ==> #[trigger] without_id(files, id)[i].id != id,
        without_id(files, id).len() <= files.len(),
        (forall|i: int| 0 <= i < files.len() ==> #[trigger] files[i].id != id) ==> without_id(files, id) == files,
    decreases files.len(),
{
    if files.len() > 0 {
        removal_is_exact(files.drop_last(), id);
        if forall|i: int| 0 <= i < files.len() ==> #[trigger] files[i].id != id {
            assert(forall|i: int| 0 <= i < files.drop_last().len() ==> #[trigger] files.drop_last()[i].id != id
            ) by {
                assert forall|i: int| 0 <= i < files.drop_last().len() implies #[trigger] files.drop_last()[i].id != id by {
                    assert(files.drop_last()[i] == files[i]);
                }
            }
            assert(files.last().id != id) by {
                assert(files[files.len() - 1].id != id);
            }
            assert(files.drop_last().push(files.last()) =~= files);
        }
    }
}

/// Adds an uploaded file to the file list, under the given title or else its
/// file name; the title used.
pub fn add_uploaded_file(config: &mut ContextConfig, file_id: &str, title: Option<&str>, file_name: &str) -> (r: String)
    ensures
        r@ == match title {
            Some(t) => t@,
            None => file_name@,
        },
        files_view(final(config).files@) == files_view(old(config).files@).push(
            FileRefView { id: file_id@, title: Some(r@) },
        ),
{
    let display = match title {
        Some(t) => t.to_owned(),
        None => file_name.to_owned(),
    };
    let ghost before = config.files@;
    config.files.push(FileRef { id: file_id.to_owned(), title: Some(display.clone()) });
    assert(files_view(config.files@) =~= files_view(before).push(
        FileRefView { id: file_id@, title: Some(display@) },
    ));
    display
}


/// A command of the context-file manager.
#[derive(Debug, PartialEq, Eq)]
pub enum ManagerCommand {
    /// Upload a file and add it to the file list, under a title when given.
    Upload { file_path: String, title: Option<String> },
    /// Drop the entries of files no longer stored.
    Verify,
    /// Delete a stored file and its entries.
    Delete { file_id: String },
}

/// Why a command line was not understood.
#[derive(Debug, PartialEq, Eq)]
pub enum UsageError {
    /// No command was given.
    NoCommand,
    /// `upload` without a file path.
    UploadWithoutPath,
    /// `delete` without a file id.
    DeleteWithoutId,
    /// A command other than the three; its name.
    UnknownCommand(String),
}

/// Reads the command line of the context-file manager (program name first):
/// `upload <file_path> [--title <title>]`, `verify` or `delete <file_id>`.
pub fn parse_manager_args(args: &[String]) -> (r: Result<ManagerCommand, UsageError>)
    ensures
        args@.len() < 2 ==> r == Err::<ManagerCommand, UsageError>(UsageError::NoCommand),
        args@.len() >= 2 ==> match r {
            Ok(ManagerCommand::Upload { file_path, title }) => {
                &&& args@[1]@ == "upload"@
                &&& args@.len() >= 3
                &&& file_path@ == args@[2]@
                &&& crate::discord::types::opt_text(title) == flag_value(views(args@).skip(3), "--title"@)
            },
            Ok(ManagerCommand::Verify) => args@[1]@ == "verify"@,
            Ok(ManagerCommand::Delete { file_id }) => {
                &&& args@[1]@ == "delete"@
                &&& args@.len() >= 3
                &&& file_id@ == args@[2]@
            },
            Err(UsageError::NoCommand) => false,
            Err(UsageError::UploadWithoutPath) => args@[1]@ == "upload"@ && args@.len() < 3,
            Err(UsageError::DeleteWithoutId) => args@[1]@ == "delete"@ && args@.len() < 3,
            Err(UsageError::UnknownCommand(name)) => {
                &&& name@ == args@[1]@
                &&& args@[1]@ != "upload"@
                &&& args@[1]@ != "verify"@
                &&& args@[1]@ != "delete"@
            },
        },
{
    if args.len() < 2 {
        return Err(UsageError::NoCommand);
    }
    let command = args[1].as_str();
    if text_eq(command, "upload") {
        if args.len() < 3 {
            return Err(UsageError::UploadWithoutPath);
        }
        let rest = vstd::slice::slice_subrange(args, 3, args.len());
        assert(views(rest@) =~= views(args@).skip(3));
        let title = parse_flag(rest, "--title");
        Ok(ManagerCommand::Upload { file_path: args[2].clone(), title })
    } else if text_eq(command, "verify") {
        Ok(ManagerCommand::Verify)
    } else if text_eq(command, "delete") {
        if args.len() < 3 {
            return Err(UsageError::DeleteWithoutId);
        }
        Ok(ManagerCommand::Delete { file_id: args[2].clone() })
    } else {
        Err(UsageError::UnknownCommand(args[1].clone()))
    }
}

/// How a file entry is listed: indented, its id, a dash, its title or
/// `(untitled)`.
pub open spec fn entry_line_text(f: FileRefView) -> Seq<char> {
    "  "@ + f.id + " — "@ + match f.title {
        Some(t) => t,
        None => "(untitled)"@,
    }
}

/// The listing line of a file entry.
pub fn file_entry_line(f: &FileRef) -> (r: String)
    ensures
        r@ == entry_line_text(f@),
{
    let mut line = "  ".to_owned();
    line.append(f.id.as_str());
    line.append(" — ");
    match &f.title {
        Some(t) => line.append(t.as_str()),
        None => line.append("(untitled)"),
    }
    line
}

/// The listing lines of some file entries.
pub open spec fn entry_lines(files: Seq<FileRefView>) -> Seq<Seq<char>> {
    files.map_values(|f: FileRefView| entry_line_text(f))
}

fn push_entry_lines(out: &mut Vec<String>, files: &[FileRef])
    ensures
        views(final(out)@) == views(old(out)@) + entry_lines(files_view(files@)),
{
    let ghost start = views(out@);
    let mut i: usize = 0;
    while i < files.len()
        invariant
            0 <= i <= files@.len(),
            views(out@) == start + entry_lines(files_view(files@.take(i as int))),
        decreases files@.len() - i,
    {
        let ghost before = views(out@);
        out.push(file_entry_line(&files[i]));
        assert(views(out@) =~= before.push(entry_line_text(files@[i as int]@)));
        assert(entry_lines(files_view(files@.take(i + 1))) =~= entry_lines(files_view(files@.take(i as int))).push(
            entry_line_text(files@[i as int]@),
        ));
        assert(views(out@) =~= start + entry_lines(files_view(files@.take(i + 1))));
        i = i + 1;
    }
    assert(files@.take(files@.len() as int) =~= files@);
}

/// What `verify` reports: a single line when nothing is stale, else the kept
/// entries and the removed ones under a count each.
pub open spec fn verify_report_lines(kept: Seq<FileRefView>, removed: Seq<FileRefView>) -> Seq<Seq<char>> {
    if removed.len() == 0 {
        seq!["All "@ + decimal(kept.len()) + " file(s) verified — all exist remotely."@]
    } else {
        seq!["Kept "@ + decimal(kept.len()) + " file(s):"@] + entry_lines(kept) + seq![
            "Removed "@ + decimal(removed.len()) + " stale entry/entries:"@,
        ] + entry_lines(removed)
    }
}

/// The report of a `verify` run.
pub fn verify_report(kept: &[FileRef], removed: &[FileRef]) -> (r: Vec<String>)
    ensures
        views(r@) == verify_report_lines(files_view(kept@), files_view(removed@)),
{
    let mut out: Vec<String> = Vec::new();
    if removed.len() == 0 {
        let mut line = "All ".to_owned();
        line.append(decimal_text(kept.len() as u64).as_str());
        line.append(" file(s) verified — all exist remotely.");
        out.push(line);
        assert(views(out@) =~= verify_report_lines(files_view(kept@), files_view(removed@)));
    } else {
        let mut head = "Kept ".to_owned();
        head.append(decimal_text(kept.len() as u64).as_str());
        head.append(" file(s):");
        out.push(head);
        assert(views(out@) =~= seq!["Kept "@ + decimal(kept@.len()) + " file(s):"@]);
        push_entry_lines(&mut out, kept);
        let mut mid = "Removed ".to_owned();
        mid.append(decimal_text(removed.len() as u64).as_str());
        mid.append(" stale entry/entries:");
        let ghost before = views(out@);
        out.push(mid);
        assert(views(out@) =~= before.push("Removed "@ + decimal(removed@.len()) + " stale entry/entries:"@));
        push_entry_lines(&mut out, removed);
        assert(views(out@) =~= verify_report_lines(files_view(kept@), files_view(removed@)));
    }
    out
}

/// What `upload` reports.
pub open spec fn upload_report_lines(file_name: Seq<char>, size_bytes: u64, file_id: Seq<char>, title: Seq<char>) -> Seq<Seq<char>> {
    seq![
        "Uploaded: "@ + file_name + " ("@ + decimal(size_bytes as nat) + " bytes)"@,
        "File ID: "@ + file_id,
        "Added to context.json as \""@ + title + "\""@,
    ]
}

/// The report of an upload.
pub fn upload_report(file_name: &str, size_bytes: u64, file_id: &str, title: &str) -> (r: Vec<String>)
    ensures
        views(r@) == upload_report_lines(file_name@, size_bytes, file_id@, title@),
{
    let mut first = "Uploaded: ".to_owned();
    first.append(file_name);
    first.append(" (");
    first.append(decimal_text(size_bytes).as_str());
    first.append(" bytes)");
    let mut second = "File ID: ".to_owned();
    second.append(file_id);
    let mut third = "Added to context.json as \"".to_owned();
    third.append(title);
    third.append("\"");
    let mut out: Vec<String> = Vec::new();
    out.push(first);
    out.push(second);
    out.push(third);
    assert(views(out@) =~= upload_report_lines(file_name@, size_bytes, file_id@, title@));
    out
}

/// What `delete` reports: the deleted file, and whether the file list held it.
pub open spec fn delete_report_lines(file_id: Seq<char>, removed_entries: usize) -> Seq<Seq<char>> {
    seq![
        "Deleted file: "@ + file_id,
        if removed_entries > 0 {
            "Removed from context.json."@
        } else {
            "(was not in context.json)"@
        },
    ]
}

/// The report of a deletion.
pub fn delete_report(file_id: &str, removed_entries: usize) -> (r: Vec<String>)
    ensures
        views(r@) == delete_report_lines(file_id@, removed_entries),
{
    let mut first = "Deleted file: ".to_owned();
    first.append(file_id);
    let second = if removed_entries > 0 {
        "Removed from context.json.".to_owned()
    } else {
        "(was not in context.json)".to_owned()
    };
    let mut out: Vec<String> = Vec::new();
    out.push(first);
    out.push(second);
    assert(views(out@) =~= delete_report_lines(file_id@, removed_entries));
    out
}


/// What `verify` says of a file list without entries.
pub fn no_files_report() -> (r: String)
    ensures
        r@ == "context.json has no files."@,
{
    "context.json has no files.".to_owned()
}

/// The error for an upload of a file that does not exist.
pub fn file_not_found_message(file_path: &str) -> (r: String)
    ensures
        r@ == "File not found: "@ + file_path@,
{
    let mut m = "File not found: ".to_owned();
    m.append(file_path);
    m
}

/// A request of the context-file manager to the Files API.
#[derive(Debug, Clone, Copy, PartialEq, Eq, Structural)]
pub enum FilesRequest {
    Upload,
    List,
    Delete,
}

/// What each request is called when it fails.
pub open spec fn request_failure_name(request: FilesRequest) -> Seq<char> {
    match request {
        FilesRequest::Upload => "Upload failed"@,
        FilesRequest::List => "List files failed"@,
        FilesRequest::Delete => "Delete failed"@,
    }
}

/// The text of a failed request: `<name> (<status>): <body>`, the body empty
/// when it could not be read.
pub open spec fn request_failed_text(request: FilesRequest, status: u16, body: Option<Seq<char>>) -> Seq<char> {
    request_failure_name(request) + " ("@ + decimal(status as nat) + seq![' '] + http_reason_phrase(status)
        + "): "@ + match body {
        Some(b) => b,
        None => Seq::empty(),
    }
}

/// The error for a request that the Files API answered with an error status.
pub fn request_failed_message(request: FilesRequest, status: u16, body: Option<&str>) -> (r: String)
    requires
        100 <= status <= 999,
    ensures
        r@ == request_failed_text(request, status, crate::claude::api::opt_str(body)),
{
    let mut m = match request {
        FilesRequest::Upload => "Upload failed".to_owned(),
        FilesRequest::List => "List files failed".to_owned(),
        FilesRequest::Delete => "Delete failed".to_owned(),
    };
    m.append(" (");
    m.append(status_text(status).as_str());
    m.append("): ");
    match body {
        Some(b) => m.append(b),
        None => {
            assert(m@ =~= m@ + Seq::<char>::empty());
        },
    }
    m
}

} // verus!
