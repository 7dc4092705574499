//! The identifier of a file, stable across renames and distinct from its path.

use vstd::prelude::*;

verus! {

/// A platform-durable file identifier. The variant decides which resolver
/// accepts it.
#[derive(Clone, Copy, Debug, PartialEq, Eq, Structural)]
pub enum FileId {
    /// Unix family: device id and inode number.
    Inode { device_id: u64, inode_number: u64 },
    /// Windows legacy form: volume serial number and 64-bit file index.
    LowRes { volume_serial_number: u64, file_index: u64 },
    /// Windows primary form: volume serial number and 128-bit file id.
    HighRes { volume_serial_number: u64, file_id: u128 },
}

impl FileId {
    /// An identifier of the Unix family.
    pub fn new_inode(device_id: u64, inode_number: u64) -> (id: FileId)
        ensures
            id == (FileId::Inode { device_id, inode_number }),
    {
        FileId::Inode { device_id, inode_number }
    }

    /// An identifier in the Windows legacy form.
    pub fn new_low_res(volume_serial_number: u64, file_index: u64) -> (id: FileId)
        ensures
            id == (FileId::LowRes { volume_serial_number, file_index }),
    {
        FileId::LowRes { volume_serial_number, file_index }
    }

    /// An identifier in the Windows primary form.
    pub fn new_high_res(volume_serial_number: u64, file_id: u128) -> (id: FileId)
        ensures
            id == (FileId::HighRes { volume_serial_number, file_id }),
    {
        FileId::HighRes { volume_serial_number, file_id }
    }
}

} // verus!
