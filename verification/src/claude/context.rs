//! The context documents and the system-prompt extension kept in the context
//! directory.

use vstd::prelude::*;
use vstd::string::*;

use crate::claude::types::{blocks_view, files_view, BlockView, ContentBlock, ContextConfig, FileRef, FileRefView};

verus! {

/// The document block that refers to an uploaded file.
pub open spec fn document_block(f: FileRefView) -> BlockView {
    BlockView::Document { file_id: f.id, title: f.title }
}

/// A file reference becomes a document block with its id and its title.
pub proof fn document_block_keeps_file(f: FileRefView)
    ensures
        document_block(f) == (BlockView::Document { file_id: f.id, title: f.title }),
{
}

/// One document block per file reference, in order.
pub fn context_blocks(files: &[FileRef]) -> (r: Vec<ContentBlock>)
    ensures
        blocks_view(r@) == files_view(files@).map_values(|f: FileRefView| document_block(f)),
{
    let mut out: Vec<ContentBlock> = Vec::new();
    let mut i: usize = 0;
    while i < files.len()
        invariant
            0 <= i <= files@.len(),
            blocks_view(out@) == files_view(files@.take(i as int)).map_values(
                |f: FileRefView| document_block(f),
            ),
        decreases files@.len() - i,
    {
        let f = &files[i];
        let title = match &f.title {
            Some(t) => Some(t.clone()),
            None => None,
        };
        let ghost before = out@;
        let block = ContentBlock::Document { file_id: f.id.clone(), title };
        assert(block@ == document_block(f@));
        out.push(block);
        assert(blocks_view(out@) =~= blocks_view(before).push(document_block(f@)));
        assert(files@.take(i + 1) =~= files@.take(i as int).push(files@[i as int]));
        assert(files_view(files@.take(i + 1)) =~= files_view(files@.take(i as int)).push(f@));
        assert(blocks_view(out@) =~= files_view(files@.take(i + 1)).map_values(
            |f: FileRefView| document_block(f),
        ));
        i = i + 1;
    }
    assert(files@.take(files@.len() as int) =~= files@);
    out
}

/// The path of the file list in the context directory.
pub fn context_json_path(dir: &str) -> (r: String)
    ensures
        r@ == dir@ + "/context.json"@,
{
    let mut p = dir.to_owned();
    p.append("/context.json");
    p
}

/// The path of the system-prompt extension in the context directory.
pub fn system_md_path(dir: &str) -> (r: String)
    ensures
        r@ == dir@ + "/system.md"@,
{
    let mut p = dir.to_owned();
    p.append("/system.md");
    p
}

/// What reading and parsing the file list gave.
#[derive(Debug)]
pub enum ConfigLoad {
    /// There is no file list: the file list is optional.
    NotFound,
    /// The file could not be read; the error.
    ReadFailed(String),
    /// The file is not a valid file list; the error.
    ParseFailed(String),
    /// The file list.
    Loaded(ContextConfig),
}

/// The debug notice for a file list that could not be read.
pub open spec fn config_read_notice(dir: Seq<char>, error: Seq<char>) -> Seq<char> {
    "[DEBUG] Context file error: Failed to read config at '"@ + dir + "': "@ + error
}

/// The debug notice for a file list that could not be parsed.
pub open spec fn config_parse_notice(error: Seq<char>) -> Seq<char> {
    "[DEBUG] Context file error: Failed to parse config: "@ + error
}

/// The document blocks of the file list, and the notices to show in debug
/// output. A missing file list gives no blocks and no notice; one that cannot
/// be read or parsed gives no blocks and one notice.
pub fn load_context_file_blocks(dir: &str, load: &ConfigLoad) -> (r: (Vec<ContentBlock>, Vec<String>))
    ensures
        match load {
            ConfigLoad::NotFound => r.0@.len() == 0 && r.1@.len() == 0,
            ConfigLoad::ReadFailed(e) => r.0@.len() == 0 && r.1@.len() == 1 && r.1@[0]@ == config_read_notice(dir@, e@),
            ConfigLoad::ParseFailed(e) => r.0@.len() == 0 && r.1@.len() == 1 && r.1@[0]@ == config_parse_notice(e@),
            ConfigLoad::Loaded(c) => blocks_view(r.0@) == files_view(c.files@).map_values(
                |f: FileRefView| document_block(f),
            ) && r.1@.len() == 0,
        },
{
    let mut notices: Vec<String> = Vec::new();
    match load {
        ConfigLoad::NotFound => (Vec::new(), notices),
        ConfigLoad::ReadFailed(e) => {
            let mut n = "[DEBUG] Context file error: Failed to read config at '".to_owned();
            n.append(dir);
            n.append("': ");
            n.append(e.as_str());
            notices.push(n);
            (Vec::new(), notices)
        },
        ConfigLoad::ParseFailed(e) => {
            let mut n = "[DEBUG] Context file error: Failed to parse config: ".to_owned();
            n.append(e.as_str());
            notices.push(n);
            (Vec::new(), notices)
        },
        ConfigLoad::Loaded(c) => (context_blocks(c.files.as_slice()), notices),
    }
}

/// What reading the system-prompt extension gave.
#[derive(Debug)]
pub enum SystemFileRead {
    /// The contents of the file.
    Found(String),
    /// There is no such file.
    NotFound,
    /// The file could not be read; the error.
    Failed(String),
}

/// The debug notice for an extension that could not be read.
pub open spec fn system_read_notice(dir: Seq<char>, error: Seq<char>) -> Seq<char> {
    "[DEBUG] System file error: Failed to read '"@ + dir + "/system.md"@ + "': "@ + error
}

/// The system-prompt extension and the notices to show in debug output: a
/// missing file is no extension and no notice; an unreadable one is no
/// extension and one notice.
pub fn load_system_extension(dir: &str, read: &SystemFileRead) -> (r: (String, Vec<String>))
    ensures
        match read {
            SystemFileRead::Found(s) => r.0@ == s@ && r.1@.len() == 0,
            SystemFileRead::NotFound => r.0@.len() == 0 && r.1@.len() == 0,
            SystemFileRead::Failed(e) => r.0@.len() == 0 && r.1@.len() == 1 && r.1@[0]@ == system_read_notice(dir@, e@),
        },
{
    let mut notices: Vec<String> = Vec::new();
    match read {
        SystemFileRead::Found(s) => (s.clone(), notices),
        SystemFileRead::NotFound => (String::new(), notices),
        SystemFileRead::Failed(e) => {
            let mut n = "[DEBUG] System file error: Failed to read '".to_owned();
            let path = system_md_path(dir);
            n.append(path.as_str());
            n.append("': ");
            n.append(e.as_str());
            notices.push(n);
            (String::new(), notices)
        },
    }
}

} // verus!
