//! The Win32 constants that the Windows resolver decides by and asks with.

use vstd::prelude::*;

verus! {

/// The path-length maximum of the Win32 API, in 16-bit code units.
pub open spec fn spec_max_path() -> u32 {
    260
}

/// The error code with which a volume enumeration reports its end.
pub open spec fn spec_no_more_files() -> u32 {
    18
}

/// The error code for a file that the system cannot find.
pub open spec fn spec_file_not_found() -> u32 {
    2
}

/// The error code for a path that the system cannot find.
pub open spec fn spec_path_not_found() -> u32 {
    3
}

/// The access right that asks for reading only.
pub open spec fn spec_file_generic_read() -> u32 {
    1179785
}

/// The share mode that lets others read.
pub open spec fn spec_file_share_read() -> u32 {
    1
}

/// The disposition that opens what exists and creates nothing.
pub open spec fn spec_open_existing() -> u32 {
    3
}

/// The flag that opens directories and protected objects: backup semantics.
pub open spec fn spec_file_flag_backup_semantics() -> u32 {
    33554432
}

/// The kind of id that is the extended, 128-bit file id.
pub open spec fn spec_extended_file_id_type() -> i32 {
    2
}

/// The class of information that holds a file's volume serial number and id.
pub open spec fn spec_file_id_info() -> i32 {
    18
}

/// The flag that asks for a final path in its normalized form.
pub open spec fn spec_file_name_normalized() -> u32 {
    0
}

/// The value that stands for no handle: all bits set.
pub open spec fn spec_invalid_handle() -> usize {
    usize::MAX
}

/// `windows_sys::Win32::Foundation::MAX_PATH`: the constant is 260.
#[verifier::external_body]
pub(crate) fn max_path() -> (units: u32)
    ensures
        units == spec_max_path(),
{
    windows_sys::Win32::Foundation::MAX_PATH
}

/// `windows_sys::Win32::Foundation::ERROR_NO_MORE_FILES`: the constant is 18.
#[verifier::external_body]
pub(crate) fn no_more_files() -> (code: u32)
    ensures
        code == spec_no_more_files(),
{
    windows_sys::Win32::Foundation::ERROR_NO_MORE_FILES
}

/// `windows_sys::Win32::Foundation::ERROR_FILE_NOT_FOUND`: the constant is 2.
#[verifier::external_body]
pub(crate) fn file_not_found() -> (code: u32)
    ensures
        code == spec_file_not_found(),
{
    windows_sys::Win32::Foundation::ERROR_FILE_NOT_FOUND
}

/// `windows_sys::Win32::Foundation::ERROR_PATH_NOT_FOUND`: the constant is 3.
#[verifier::external_body]
pub(crate) fn path_not_found() -> (code: u32)
    ensures
        code == spec_path_not_found(),
{
    windows_sys::Win32::Foundation::ERROR_PATH_NOT_FOUND
}

/// `windows_sys::Win32::Foundation::INVALID_HANDLE_VALUE`: the constant is
/// the pointer made from -1, which as an address has all bits set.
#[verifier::external_body]
pub(crate) fn invalid_handle() -> (raw: usize)
    ensures
        raw == spec_invalid_handle(),
{
    windows_sys::Win32::Foundation::INVALID_HANDLE_VALUE as usize
}

/// `windows_sys::Win32::Storage::FileSystem::FILE_GENERIC_READ`: the constant is
/// 1179785.
#[verifier::external_body]
pub(crate) fn file_generic_read() -> (access: u32)
    ensures
        access == spec_file_generic_read(),
{
    windows_sys::Win32::Storage::FileSystem::FILE_GENERIC_READ
}

/// `windows_sys::Win32::Storage::FileSystem::FILE_SHARE_READ`: the constant is
/// 1.
#[verifier::external_body]
pub(crate) fn file_share_read() -> (mode: u32)
    ensures
        mode == spec_file_share_read(),
{
    windows_sys::Win32::Storage::FileSystem::FILE_SHARE_READ
}

/// `windows_sys::Win32::Storage::FileSystem::OPEN_EXISTING`: the constant is
/// 3.
#[verifier::external_body]
pub(crate) fn open_existing() -> (disposition: u32)
    ensures
        disposition == spec_open_existing(),
{
    windows_sys::Win32::Storage::FileSystem::OPEN_EXISTING
}

/// `windows_sys::Win32::Storage::FileSystem::FILE_FLAG_BACKUP_SEMANTICS`: the constant is
/// 33554432.
#[verifier::external_body]
pub(crate) fn file_flag_backup_semantics() -> (flag: u32)
    ensures
        flag == spec_file_flag_backup_semantics(),
{
    windows_sys::Win32::Storage::FileSystem::FILE_FLAG_BACKUP_SEMANTICS
}

/// `windows_sys::Win32::Storage::FileSystem::ExtendedFileIdType`: the constant is
/// 2.
#[verifier::external_body]
pub(crate) fn extended_file_id_type() -> (kind: i32)
    ensures
        kind == spec_extended_file_id_type(),
{
    windows_sys::Win32::Storage::FileSystem::ExtendedFileIdType
}

/// `windows_sys::Win32::Storage::FileSystem::FileIdInfo`: the constant is
/// 18.
#[verifier::external_body]
pub(crate) fn file_id_info() -> (class: i32)
    ensures
        class == spec_file_id_info(),
{
    windows_sys::Win32::Storage::FileSystem::FileIdInfo
}

/// `windows_sys::Win32::Storage::FileSystem::FILE_NAME_NORMALIZED`: the constant is
/// 0.
#[verifier::external_body]
pub(crate) fn file_name_normalized() -> (flag: u32)
    ensures
        flag == spec_file_name_normalized(),
{
    windows_sys::Win32::Storage::FileSystem::FILE_NAME_NORMALIZED
}

} // verus!
