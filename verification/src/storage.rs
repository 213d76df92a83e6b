//! File mappings and what the answers of the mapping database mean.
//!
//! The mappings live in an SQLite table whose `virtual_path` column is
//! unique. This module decides, from what the database answered, what each
//! mapping operation returns.
use vstd::prelude::*;
use crate::error::SuperfuseError;
use crate::text::{contains_text, occurs_in};

verus! {

/// A file mapping from a virtual path to a template file.
#[derive(Debug, Clone)]
pub struct FileMapping {
    pub id: i64,
    pub virtual_path: String,
    pub template_path: String,
    pub created_at: String,
    pub updated_at: String,
}

/// What kind of failure the database reported.
#[derive(Debug, Clone)]
pub enum DbFailureKind {
    /// The database refused the statement, with this message.
    Database(String),
    /// The statement returned no row where one was expected.
    RowNotFound,
    /// Anything else: connection, protocol, decoding.
    Other,
}

/// A failure of the mapping database: its kind and the full description.
#[derive(Debug, Clone)]
pub struct DbFailure {
    pub kind: DbFailureKind,
    pub detail: String,
}

/// Did the database refuse a second mapping for one virtual path?
pub open spec fn is_unique_violation(f: DbFailure) -> bool {
    f.kind matches DbFailureKind::Database(message) && occurs_in(message@, "UNIQUE constraint"@)
}

/// Did the database refuse a second mapping for one virtual path?
pub fn unique_violation(f: &DbFailure) -> (r: bool)
    ensures
        r == is_unique_violation(*f),
{
    match &f.kind {
        DbFailureKind::Database(message) => contains_text(message.as_str(), "UNIQUE constraint"),
        _ => false,
    }
}

/// A template that does not exist is refused; one that does is kept.
pub open spec fn template_check(template_path: String, exists: bool) -> Result<
    String,
    SuperfuseError,
> {
    if exists {
        Ok(template_path)
    } else {
        Err(SuperfuseError::TemplateNotFound(template_path))
    }
}

/// Checks the answer to "does this template file exist?".
pub fn validate_template_exists(template_path: String, exists: bool) -> (r: Result<
    String,
    SuperfuseError,
>)
    ensures
        r == template_check(template_path, exists),
{
    if !exists {
        return Err(SuperfuseError::TemplateNotFound(template_path));
    }
    Ok(template_path)
}

/// What adding a mapping returns: the inserted row, `MappingAlreadyExists`
/// where the path is taken, else the database error.
pub open spec fn add_outcome(virtual_path: String, answer: Result<FileMapping, DbFailure>) -> Result<
    FileMapping,
    SuperfuseError,
> {
    match answer {
        Ok(m) => Ok(m),
        Err(f) => if is_unique_violation(f) {
            Err(SuperfuseError::MappingAlreadyExists(virtual_path))
        } else {
            Err(SuperfuseError::Database(f.detail))
        },
    }
}

/// What removing a mapping returns: done where a row was deleted,
/// `MappingNotFound` where none was, else the database error.
pub open spec fn remove_outcome(virtual_path: String, answer: Result<u64, DbFailure>) -> Result<
    (),
    SuperfuseError,
> {
    match answer {
        Ok(rows) => if rows == 0 {
            Err(SuperfuseError::MappingNotFound(virtual_path))
        } else {
            Ok(())
        },
        Err(f) => Err(SuperfuseError::Database(f.detail)),
    }
}

/// What updating a mapping returns: the updated row, `MappingNotFound`
/// where no row matched, else the database error.
pub open spec fn update_outcome(
    virtual_path: String,
    answer: Result<FileMapping, DbFailure>,
) -> Result<FileMapping, SuperfuseError> {
    match answer {
        Ok(m) => Ok(m),
        Err(f) => if f.kind is RowNotFound {
            Err(SuperfuseError::MappingNotFound(virtual_path))
        } else {
            Err(SuperfuseError::Database(f.detail))
        },
    }
}

/// What listing the mappings returns: the rows, else the database error.
pub open spec fn list_outcome(answer: Result<Vec<FileMapping>, DbFailure>) -> Result<
    Vec<FileMapping>,
    SuperfuseError,
> {
    match answer {
        Ok(rows) => Ok(rows),
        Err(f) => Err(SuperfuseError::Database(f.detail)),
    }
}

/// What opening the database returns: done, else the database error.
pub open spec fn open_outcome(answer: Result<(), DbFailure>) -> Result<(), SuperfuseError> {
    match answer {
        Ok(()) => Ok(()),
        Err(f) => Err(SuperfuseError::Database(f.detail)),
    }
}

/// Interprets the database's answer to inserting a mapping.
pub fn finish_add_mapping(virtual_path: String, answer: Result<FileMapping, DbFailure>) -> (r: Result<
    FileMapping,
    SuperfuseError,
>)
    ensures
        r == add_outcome(virtual_path, answer),
{
    match answer {
        Ok(m) => Ok(m),
        Err(f) => {
            if unique_violation(&f) {
                Err(SuperfuseError::MappingAlreadyExists(virtual_path))
            } else {
                Err(SuperfuseError::Database(f.detail))
            }
        },
    }
}

/// Interprets the number of rows that deleting a mapping removed.
pub fn finish_remove_mapping(virtual_path: String, answer: Result<u64, DbFailure>) -> (r: Result<
    (),
    SuperfuseError,
>)
    ensures
        r == remove_outcome(virtual_path, answer),
{
    match answer {
        Ok(rows) => {
            if rows == 0 {
                return Err(SuperfuseError::MappingNotFound(virtual_path));
            }
            Ok(())
        },
        Err(f) => Err(SuperfuseError::Database(f.detail)),
    }
}

/// Interprets the database's answer to updating a mapping.
pub fn finish_update_mapping(
    virtual_path: String,
    answer: Result<FileMapping, DbFailure>,
) -> (r: Result<FileMapping, SuperfuseError>)
    ensures
        r == update_outcome(virtual_path, answer),
{
    match answer {
        Ok(m) => Ok(m),
        Err(f) => match f.kind {
            DbFailureKind::RowNotFound => Err(SuperfuseError::MappingNotFound(virtual_path)),
            _ => Err(SuperfuseError::Database(f.detail)),
        },
    }
}

/// Interprets the database's answer to listing the mappings.
pub fn finish_list_mappings(answer: Result<Vec<FileMapping>, DbFailure>) -> (r: Result<
    Vec<FileMapping>,
    SuperfuseError,
>)
    ensures
        r == list_outcome(answer),
{
    match answer {
        Ok(rows) => Ok(rows),
        Err(f) => Err(SuperfuseError::Database(f.detail)),
    }
}

/// Interprets the database's answer to opening it and creating the table.
pub fn finish_init_db(answer: Result<(), DbFailure>) -> (r: Result<(), SuperfuseError>)
    ensures
        r == open_outcome(answer),
{
    match answer {
        Ok(()) => Ok(()),
        Err(f) => Err(SuperfuseError::Database(f.detail)),
    }
}

/// The row the database hands back is what adding and updating return,
/// unchanged: its virtual path and template path are those of the row.
pub proof fn lemma_written_row_is_returned(virtual_path: String, row: FileMapping)
    ensures
        add_outcome(virtual_path, Ok::<FileMapping, DbFailure>(row)) == Ok::<
            FileMapping,
            SuperfuseError,
        >(row),
        update_outcome(virtual_path, Ok::<FileMapping, DbFailure>(row)) == Ok::<
            FileMapping,
            SuperfuseError,
        >(row),
{
}

/// A failed update reports a missing mapping exactly when the database
/// found no row, and then for the path that was asked for; a failed insert
/// reports a taken path only for the path that was asked for.
pub proof fn lemma_not_found_only_without_row(virtual_path: String, failure: DbFailure)
    ensures
        (update_outcome(virtual_path, Err::<FileMapping, DbFailure>(failure)) matches Err(
            SuperfuseError::MappingNotFound(p),
        )) <==> failure.kind is RowNotFound,
        update_outcome(virtual_path, Err::<FileMapping, DbFailure>(failure)) matches Err(
            SuperfuseError::MappingNotFound(p),
        ) ==> p == virtual_path,
        add_outcome(virtual_path, Err::<FileMapping, DbFailure>(failure)) matches Err(
            SuperfuseError::MappingAlreadyExists(p),
        ) ==> p == virtual_path,
        update_outcome(virtual_path, Err::<FileMapping, DbFailure>(failure)) is Err,
        add_outcome(virtual_path, Err::<FileMapping, DbFailure>(failure)) is Err,
{
}

} // verus!
