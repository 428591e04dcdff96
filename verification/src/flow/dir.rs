use vstd::prelude::*;

use crate::dir::{new_dir_failures, DirDto, NewDir, MAX_DIRS};
use crate::error::Error;
use crate::service::{
    check_dir_capacity, check_dir_empty, check_dir_name_free, check_new_dir, refused_with,
    validation_message,
};

verus! {

/// What creating a directory in a bucket learned last.
pub enum CreateDirEvent {
    /// Nothing yet.
    Start,
    /// How many directories the bucket holds.
    Counted(i64),
    /// The directory of the bucket that has the new name, if any.
    Found(Option<DirDto>),
}

/// What creating a directory does next.
#[derive(Debug)]
pub enum CreateDirAction {
    /// Count the directories of the bucket.
    CountDirs,
    /// Look up a directory of the bucket by the new name.
    FindByName,
    /// Store the new directory.
    Create,
    /// Stop with this error.
    Fail(Error),
}

/// One step of creating a directory: the data must pass its rules, the bucket
/// must hold fewer than the limit of directories, and the name must be unused
/// in the bucket; then the directory is stored.
pub fn create_dir_step(data: &NewDir, event: CreateDirEvent) -> (r: CreateDirAction)
    ensures
        match event {
            CreateDirEvent::Start => if new_dir_failures(*data).len() == 0 {
                r is CountDirs
            } else {
                r matches CreateDirAction::Fail(e) && refused_with(
                    Err::<(), Error>(e),
                    validation_message(new_dir_failures(*data)),
                )
            },
            CreateDirEvent::Counted(n) => if n < MAX_DIRS {
                r is FindByName
            } else {
                r matches CreateDirAction::Fail(e) && e is MaxDirsReached
            },
            CreateDirEvent::Found(existing) => if existing is None {
                r is Create
            } else {
                r matches CreateDirAction::Fail(e) && refused_with(
                    Err::<(), Error>(e),
                    "Directory name already exists"@,
                )
            },
        },
{
    match event {
        CreateDirEvent::Start => match check_new_dir(data) {
            Ok(()) => CreateDirAction::CountDirs,
            Err(e) => CreateDirAction::Fail(e),
        },
        CreateDirEvent::Counted(n) => match check_dir_capacity(n) {
            Ok(()) => CreateDirAction::FindByName,
            Err(e) => CreateDirAction::Fail(e),
        },
        CreateDirEvent::Found(existing) => match check_dir_name_free(&existing) {
            Ok(()) => CreateDirAction::Create,
            Err(e) => CreateDirAction::Fail(e),
        },
    }
}

/// What deleting a directory learned last.
pub enum DeleteDirEvent {
    /// Nothing yet.
    Start,
    /// How many files the directory holds.
    Counted(i64),
}

/// What deleting a directory does next.
#[derive(Debug)]
pub enum DeleteDirAction {
    /// Count the files of the directory.
    CountFiles,
    /// Remove the directory.
    Delete,
    /// Stop with this error.
    Fail(Error),
}

/// One step of deleting a directory: only an empty directory is removed.
pub fn delete_dir_step(event: DeleteDirEvent) -> (r: DeleteDirAction)
    ensures
        match event {
            DeleteDirEvent::Start => r is CountFiles,
            DeleteDirEvent::Counted(n) => if n == 0 {
                r is Delete
            } else {
                r matches DeleteDirAction::Fail(e) && refused_with(
                    Err::<(), Error>(e),
                    "Cannot delete directory with files inside"@,
                )
            },
        },
{
    match event {
        DeleteDirEvent::Start => DeleteDirAction::CountFiles,
        DeleteDirEvent::Counted(n) => match check_dir_empty(n) {
            Ok(()) => DeleteDirAction::Delete,
            Err(e) => DeleteDirAction::Fail(e),
        },
    }
}

} // verus!
