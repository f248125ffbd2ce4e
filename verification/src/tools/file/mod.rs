pub mod delete;
pub mod find;
pub mod mkdir;
pub mod permissions;
pub mod read;
pub mod search;
pub mod write;

use vstd::prelude::*;

use crate::tools::set::{EmbeddedTool, EmbeddedToolSet};

verus! {

/// The file tools, in the order in which they are listed.
pub open spec fn file_tools() -> Seq<EmbeddedTool> {
    seq![
        EmbeddedTool::FileDelete,
        EmbeddedTool::FileFind,
        EmbeddedTool::FileMkdir,
        EmbeddedTool::FileRead,
        EmbeddedTool::FileSearch,
        EmbeddedTool::FileWrite,
    ]
}

/// The built-in tools that work on files.
pub struct File;

impl File {
    /// The file tool set: delete, find, mkdir, read, search and write.
    pub fn new() -> (s: EmbeddedToolSet)
        ensures
            s.name_view() == "file"@,
            s.description_view() == "A tool for reading/writing files and listing directories."@,
            s.tools() == file_tools(),
    {
        let tools = vec![
            EmbeddedTool::FileDelete,
            EmbeddedTool::FileFind,
            EmbeddedTool::FileMkdir,
            EmbeddedTool::FileRead,
            EmbeddedTool::FileSearch,
            EmbeddedTool::FileWrite,
        ];
        EmbeddedToolSet::new("file", "A tool for reading/writing files and listing directories.", tools)
    }
}

} // verus!
