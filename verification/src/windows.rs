//! The Windows resolver: from a volume serial number and a 128-bit file id to
//! the file's final path.
//!
//! The resolver makes no call to the operating system. This module holds what
//! is decided on the raw outcome of each call, and the two entry points; the
//! order of the calls is the [`resolver::Resolver`]'s.

use crate::id::FileId;
use crate::kind::ErrorKind;
use crate::limits::{
    file_not_found, invalid_handle, max_path, no_more_files, path_not_found,
    spec_file_not_found, spec_invalid_handle, spec_max_path, spec_no_more_files,
    spec_path_not_found,
};
use crate::windows::resolver::{Resolver, ResolverView};
use crate::text::{index_of, lemma_index_of, text_from_utf16, text_view, utf16_text};
use vstd::prelude::*;

pub mod guarantees;
pub mod model;
pub mod resolver;

verus! {

/// What went wrong in a call to the operating system.
#[derive(Clone, Copy, Debug, PartialEq, Eq, Structural)]
pub enum Cause {
    /// The call failed; the error code that the system reported for it.
    Os(u32),
    /// Nothing matched what was looked for.
    NotFound,
    /// The system needs `required` code units where the buffer has `available`.
    OutOfMemory { required: u32, available: usize },
    /// What the system wrote is not valid text.
    InvalidData,
}

/// Why a resolution failed: the call that failed, and the cause.
#[derive(Clone, Copy, Debug, PartialEq, Eq, Structural)]
pub enum Error {
    /// The identifier is not a Windows identifier.
    InvalidFileId,
    /// The identifier is in the legacy form, which is not resolved.
    Unsupported,
    /// A volume could not be opened at its mount path.
    VolumeHandle(Cause),
    /// The identity of an open volume could not be read.
    FileInformationByHandle(Cause),
    /// The volumes could not be enumerated, or none has the serial number.
    FindVolume(Cause),
    /// The mount paths of a volume could not be listed.
    VolumePathNames(Cause),
    /// The file could not be opened by its id.
    OpenFile(Cause),
    /// The final path of the open file could not be had.
    FinalPathName(Cause),
}

/// Whether the error code `code` says that a file or a path is not there.
pub open spec fn is_missing(code: u32) -> bool {
    code == spec_file_not_found() || code == spec_path_not_found()
}

impl Cause {
    /// The class of a failure with this cause. A call that failed because
    /// the system did not find the file or the path is of the not-found
    /// class; any other failed call may succeed another time.
    pub open spec fn spec_kind(self) -> ErrorKind {
        match self {
            Cause::Os(code) => if is_missing(code) {
                ErrorKind::NotFound
            } else {
                ErrorKind::TransientOsFailure
            },
            Cause::NotFound => ErrorKind::NotFound,
            Cause::OutOfMemory { .. } => ErrorKind::CapacityExceeded,
            Cause::InvalidData => ErrorKind::DecodeFailure,
        }
    }

    /// The class of a failure with this cause.
    #[verifier::when_used_as_spec(spec_kind)]
    pub fn kind(self) -> (kind: ErrorKind)
        ensures
            kind == self.spec_kind(),
    {
        match self {
            Cause::Os(code) => if code == file_not_found() || code == path_not_found() {
                ErrorKind::NotFound
            } else {
                ErrorKind::TransientOsFailure
            },
            Cause::NotFound => ErrorKind::NotFound,
            Cause::OutOfMemory { .. } => ErrorKind::CapacityExceeded,
            Cause::InvalidData => ErrorKind::DecodeFailure,
        }
    }
}

impl Error {
    /// The cause of a failed call; `None` for a rejected identifier.
    pub open spec fn spec_cause(self) -> Option<Cause> {
        match self {
            Error::InvalidFileId | Error::Unsupported => None,
            Error::VolumeHandle(c)
            | Error::FileInformationByHandle(c)
            | Error::FindVolume(c)
            | Error::VolumePathNames(c)
            | Error::OpenFile(c)
            | Error::FinalPathName(c) => Some(c),
        }
    }

    /// The cause of a failed call; `None` for a rejected identifier.
    #[verifier::when_used_as_spec(spec_cause)]
    pub fn cause(self) -> (cause: Option<Cause>)
        ensures
            cause == self.spec_cause(),
    {
        match self {
            Error::InvalidFileId | Error::Unsupported => None,
            Error::VolumeHandle(c)
            | Error::FileInformationByHandle(c)
            | Error::FindVolume(c)
            | Error::VolumePathNames(c)
            | Error::OpenFile(c)
            | Error::FinalPathName(c) => Some(c),
        }
    }

    /// The class of this failure. A rejected identifier is the caller's
    /// error. A file that the system does not open by its id is no longer to
    /// be found under that id, whatever error code the system gives: that
    /// failure is of the not-found class. Every other failure is of the class
    /// of its cause.
    pub open spec fn spec_kind(self) -> ErrorKind {
        match self {
            Error::InvalidFileId | Error::Unsupported => ErrorKind::UnsupportedIdentifier,
            Error::OpenFile(Cause::Os(_)) => ErrorKind::NotFound,
            Error::VolumeHandle(c)
            | Error::FileInformationByHandle(c)
            | Error::FindVolume(c)
            | Error::VolumePathNames(c)
            | Error::OpenFile(c)
            | Error::FinalPathName(c) => c.spec_kind(),
        }
    }

    /// The class of this failure.
    #[verifier::when_used_as_spec(spec_kind)]
    pub fn kind(self) -> (kind: ErrorKind)
        ensures
            kind == self.spec_kind(),
    {
        match self {
            Error::InvalidFileId | Error::Unsupported => ErrorKind::UnsupportedIdentifier,
            Error::OpenFile(Cause::Os(_)) => ErrorKind::NotFound,
            Error::VolumeHandle(c)
            | Error::FileInformationByHandle(c)
            | Error::FindVolume(c)
            | Error::VolumePathNames(c)
            | Error::OpenFile(c)
            | Error::FinalPathName(c) => c.kind(),
        }
    }
}

/// The file that a resolution looks for.
#[derive(Clone, Copy, Debug, PartialEq, Eq, Structural)]
pub struct Target {
    pub volume_serial_number: u64,
    pub file_id: u128,
}

/// The file that `id` identifies, or the rejection of an identifier that
/// this resolver does not take.
pub open spec fn target_of(id: FileId) -> Result<Target, Error> {
    match id {
        FileId::HighRes { volume_serial_number, file_id } => Ok(
            Target { volume_serial_number, file_id },
        ),
        FileId::LowRes { .. } => Err(Error::Unsupported),
        FileId::Inode { .. } => Err(Error::InvalidFileId),
    }
}

/// The file that `id` identifies, or the rejection of an identifier that
/// this resolver does not take.
pub fn file_target(id: &FileId) -> (target: Result<Target, Error>)
    ensures
        target == target_of(*id),
{
    match id {
        FileId::HighRes { volume_serial_number, file_id } => Ok(
            Target { volume_serial_number: *volume_serial_number, file_id: *file_id },
        ),
        FileId::LowRes { .. } => Err(Error::Unsupported),
        FileId::Inode { .. } => Err(Error::InvalidFileId),
    }
}

/// What an attempt to open something yields: the handle, or `failure` where
/// the handle is the invalid one.
pub open spec fn opened(handle: usize, failure: Error) -> Result<usize, Error> {
    if handle == spec_invalid_handle() {
        Err(failure)
    } else {
        Ok(handle)
    }
}

/// The handle of a volume opened at its mount path, from what `CreateFileW`
/// returned and the error code that followed it.
pub fn get_volume_handle_from_path(handle: usize, last_error: u32) -> (volume: Result<
    usize,
    Error,
>)
    ensures
        volume == opened(handle, Error::VolumeHandle(Cause::Os(last_error))),
{
    if handle == invalid_handle() {
        Err(Error::VolumeHandle(Cause::Os(last_error)))
    } else {
        Ok(handle)
    }
}

/// The handle of a file opened by its id, from what `OpenFileById` returned
/// and the error code that followed it.
pub fn file_handle_from_id(handle: usize, last_error: u32) -> (file: Result<usize, Error>)
    ensures
        file == opened(handle, Error::OpenFile(Cause::Os(last_error))),
{
    if handle == invalid_handle() {
        Err(Error::OpenFile(Cause::Os(last_error)))
    } else {
        Ok(handle)
    }
}

/// The handle of a volume enumeration, from what `FindFirstVolumeW` returned
/// and the error code that followed it.
pub fn find_first_volume(handle: usize, last_error: u32) -> (search: Result<usize, Error>)
    ensures
        search == opened(handle, Error::FindVolume(Cause::Os(last_error))),
{
    if handle == invalid_handle() {
        Err(Error::FindVolume(Cause::Os(last_error)))
    } else {
        Ok(handle)
    }
}

/// Whether a volume enumeration went on to another volume; its end is the
/// failure to find the volume, and any other error is the system's.
pub open spec fn next_volume(ret: i32, last_error: u32) -> Result<(), Error> {
    if ret != 0 {
        Ok(())
    } else if last_error == spec_no_more_files() {
        Err(Error::FindVolume(Cause::NotFound))
    } else {
        Err(Error::FindVolume(Cause::Os(last_error)))
    }
}

/// Whether a volume enumeration went on to another volume, from what
/// `FindNextVolumeW` returned and the error code that followed it.
pub fn find_next_volume(ret: i32, last_error: u32) -> (more: Result<(), Error>)
    ensures
        more == next_volume(ret, last_error),
{
    if ret != 0 {
        Ok(())
    } else if last_error == no_more_files() {
        Err(Error::FindVolume(Cause::NotFound))
    } else {
        Err(Error::FindVolume(Cause::Os(last_error)))
    }
}

/// The serial number that an open volume reports, or the failure to read it.
pub open spec fn serial_number(ret: i32, volume_serial_number: u64, last_error: u32) -> Result<
    u64,
    Error,
> {
    if ret == 0 {
        Err(Error::FileInformationByHandle(Cause::Os(last_error)))
    } else {
        Ok(volume_serial_number)
    }
}

/// The serial number of the volume at a mount path, from what
/// `GetFileInformationByHandleEx` returned for the open volume, the serial
/// number that it wrote and the error code that followed it.
pub fn get_volume_serial_number_from_path(
    ret: i32,
    volume_serial_number: u64,
    last_error: u32,
) -> (serial: Result<u64, Error>)
    ensures
        serial == serial_number(ret, volume_serial_number, last_error),
{
    if ret == 0 {
        Err(Error::FileInformationByHandle(Cause::Os(last_error)))
    } else {
        Ok(volume_serial_number)
    }
}

/// The mount paths in a list of NUL-terminated strings: each non-empty run
/// of units that a NUL ends, with that NUL. Units after the last NUL belong
/// to no path.
pub open spec fn mount_paths(units: Seq<u16>) -> Seq<Seq<u16>>
    decreases units.len(),
{
    let end = index_of(units, 0u16);
    if end >= units.len() {
        Seq::empty()
    } else if end == 0 {
        mount_paths(units.skip(1))
    } else {
        seq![units.take(end as int + 1)] + mount_paths(units.skip(end as int + 1))
    }
}

/// The paths that a list of vectors holds.
pub open spec fn names_view(names: Seq<Vec<u16>>) -> Seq<Seq<u16>> {
    Seq::new(names.len(), |i: int| names[i]@)
}

/// Mount paths or the failure to list them, as plain values.
pub open spec fn names_result_view(names: Result<Vec<Vec<u16>>, Error>) -> Result<
    Seq<Seq<u16>>,
    Error,
> {
    match names {
        Ok(n) => Ok(names_view(n@)),
        Err(e) => Err(e),
    }
}

/// The mount paths of a volume: those in the first `length` units of
/// `buffer`. A length beyond the buffer is a failure, never a shorter list.
pub open spec fn volume_path_names(ret: i32, buffer: Seq<u16>, length: u32, last_error: u32)
    -> Result<Seq<Seq<u16>>, Error> {
    if ret == 0 {
        Err(Error::VolumePathNames(Cause::Os(last_error)))
    } else if length > buffer.len() {
        Err(
            Error::VolumePathNames(
                Cause::OutOfMemory { required: length, available: buffer.len() as usize },
            ),
        )
    } else {
        Ok(mount_paths(buffer.take(length as int)))
    }
}

/// The mount paths of a volume, from what `GetVolumePathNamesForVolumeNameW`
/// returned, the buffer that it filled, the length that it reported and the
/// error code that followed it.
pub fn get_volume_path_names(ret: i32, buffer: &Vec<u16>, length: u32, last_error: u32) -> (names:
    Result<Vec<Vec<u16>>, Error>)
    ensures
        names_result_view(names) == volume_path_names(ret, buffer@, length, last_error),
{
    if ret == 0 {
        return Err(Error::VolumePathNames(Cause::Os(last_error)));
    }
    if length as usize > buffer.len() {
        return Err(
            Error::VolumePathNames(
                Cause::OutOfMemory { required: length, available: buffer.len() },
            ),
        );
    }
    let n = length as usize;
    let ghost units = buffer@.take(n as int);
    let mut names: Vec<Vec<u16>> = Vec::new();
    let mut name: Vec<u16> = Vec::new();
    let mut start: usize = 0;
    let mut idx: usize = 0;
    assert(units.skip(0) == units);
    while idx < n
        invariant
            start <= idx <= n <= buffer.len(),
            units == buffer@.take(n as int),
            name@ == units.subrange(start as int, idx as int),
            forall|j: int| start <= j < idx ==> units[j] != 0,
            names_view(names@) + mount_paths(units.skip(start as int)) == mount_paths(units),
        decreases n - idx,
    {
        let c = buffer[idx];
        let ghost rest = units.skip(start as int);
        if c == 0 {
            proof {
                lemma_index_of(rest, 0u16, idx - start);
            }
            if name.len() > 0 {
                name.push(0);
                assert(name@ == rest.take(idx - start + 1));
                names.push(name);
                name = Vec::new();
            }
            assert(rest.skip(idx - start + 1) == units.skip(idx + 1));
            start = idx + 1;
        } else {
            name.push(c);
        }
        idx += 1;
    }
    proof {
        lemma_index_of(units.skip(start as int), 0u16, n - start);
    }
    Ok(names)
}

/// The path that decoded text stands for; text that could not be decoded is
/// a failure of its own.
pub open spec fn decoded(text: Option<Seq<char>>) -> Result<Seq<char>, Error> {
    match text {
        Some(t) => Ok(t),
        None => Err(Error::FinalPathName(Cause::InvalidData)),
    }
}

/// The final path of an open file: the text of the first `size` units of
/// `buffer`. A size beyond the buffer is a failure that carries both sizes,
/// never a shorter path.
pub open spec fn final_path(size: u32, buffer: Seq<u16>, last_error: u32) -> Result<
    Seq<char>,
    Error,
> {
    if size == 0 {
        Err(Error::FinalPathName(Cause::Os(last_error)))
    } else if size > buffer.len() {
        Err(
            Error::FinalPathName(
                Cause::OutOfMemory { required: size, available: buffer.len() as usize },
            ),
        )
    } else {
        decoded(utf16_text(buffer.take(size as int)))
    }
}

/// A path or the failure to find one, as plain values.
pub open spec fn path_view(path: Result<String, Error>) -> Result<Seq<char>, Error> {
    match path {
        Ok(p) => Ok(p@),
        Err(e) => Err(e),
    }
}

/// The path that decoded text stands for.
pub fn decoded_path(text: Option<String>) -> (path: Result<String, Error>)
    ensures
        path_view(path) == decoded(text_view(text)),
{
    match text {
        Some(t) => Ok(t),
        None => Err(Error::FinalPathName(Cause::InvalidData)),
    }
}

/// The final path of an open file, from what `GetFinalPathNameByHandleW`
/// returned, the buffer that it filled and the error code that followed it.
pub fn path_from_handle(size: u32, buffer: &Vec<u16>, last_error: u32) -> (path: Result<
    String,
    Error,
>)
    ensures
        path_view(path) == final_path(size, buffer@, last_error),
{
    if size == 0 {
        Err(Error::FinalPathName(Cause::Os(last_error)))
    } else if size as usize > buffer.len() {
        Err(
            Error::FinalPathName(Cause::OutOfMemory { required: size, available: buffer.len() }),
        )
    } else {
        let units = vstd::slice::slice_subrange(buffer.as_slice(), 0, size as usize);
        decoded_path(text_from_utf16(units))
    }
}

/// Begins the resolution of `id`. An identifier in the primary form starts
/// the search for its volume; one in the legacy form is unsupported, any
/// other invalid, and for both the resolution has ended before any call.
pub fn path_from_id(id: &FileId) -> (resolver: Resolver)
    ensures
        resolver@ == ResolverView::starting(*id, spec_max_path()),
        resolver@.wf(),
{
    Resolver::start(id, max_path())
}

/// Begins the resolution of the file that the caller holds open as the
/// handle `file`: its final path is asked for, and nothing else.
pub fn path_from_file(file: usize) -> (resolver: Resolver)
    ensures
        resolver@ == ResolverView::querying(file, spec_max_path()),
        resolver@.wf(),
{
    Resolver::query(file, max_path())
}

} // verus!
