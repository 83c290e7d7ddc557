//! Archives of report files. This crate writes none: the two functions
//! here stand where the writing and the reading of an archive belong.

use crate::{Error, Fallible};
use vstd::prelude::*;

verus! {

/// Stands for the making of an archive of the files under `source_dir`.
/// Nothing is read or written.
pub fn create_archive(source_dir: &str, output_path: &str) -> (r: Fallible<()>)
    ensures
        r == Ok::<(), Error>(()),
{
    Ok(())
}

/// Stands for the unpacking of an archive into `dest_dir`. Nothing is read
/// or written.
pub fn extract_archive(archive_path: &str, dest_dir: &str) -> (r: Fallible<()>)
    ensures
        r == Ok::<(), Error>(()),
{
    Ok(())
}

} // verus!
