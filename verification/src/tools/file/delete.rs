use vstd::prelude::*;

use crate::schema::{plain_field, property_named, Schema, SchemaField, SchemaFieldType};
use crate::text::concat3;

verus! {

/// The tool that deletes files and directories (directories recursively).
pub struct Delete;

/// The arguments of the delete tool.
pub struct DeleteArguments {
    pub path: String,
}

/// The parameters of the delete tool.
pub open spec fn delete_schema(s: Schema) -> bool {
    &&& s.name@ == "file_delete"@
    &&& s.description@ == ""@
    &&& s.properties@.len() == 1
    &&& property_named(s.properties@[0], "path"@, true)
    &&& plain_field(s.properties@[0].field, SchemaFieldType::String, "Absolute path within the current chroot to file or directory."@)
}

impl Delete {
    pub fn name(&self) -> (r: String)
        ensures
            r@ == "file_delete"@,
    {
        "file_delete".to_owned()
    }

    pub fn description(&self) -> (r: String)
        ensures
            r@ == "Deletes files and directories on the filesystem (directories are deleted recursively)"@,
    {
        "Deletes files and directories on the filesystem (directories are deleted recursively)".to_owned()
    }

    pub fn schema(&self) -> (s: Schema)
        ensures
            delete_schema(s),
    {
        let mut schema = Schema::new("file_delete", "");
        schema.add_property(
            "path",
            true,
            SchemaField::new(SchemaFieldType::String, "Absolute path within the current chroot to file or directory.", None),
        );
        schema
    }
}

/// What the delete tool answers once `path` is gone.
pub fn deleted_message(path: &str, is_dir: bool) -> (r: String)
    ensures
        is_dir ==> r@ == "Deleted directory '"@ + path@ + "'"@,
        !is_dir ==> r@ == "Deleted file '"@ + path@ + "'"@,
{
    if is_dir {
        concat3("Deleted directory '", path, "'")
    } else {
        concat3("Deleted file '", path, "'")
    }
}

} // verus!
