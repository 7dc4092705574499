//! Recovers the absolute path of a file from its platform-durable identifier.
//!
//! The library holds the decisions of the two resolution procedures and none
//! of their operating-system calls: a driver performs each requested call and
//! hands the raw outcome back.
//!
//! - [`unix`] names the lookup to run for a device id and an inode number,
//!   and reads the path off the lookup's output.
//! - [`windows`] decides on the raw outcome of each Win32 call, and
//!   [`windows::resolver`] orders the calls: it finds the volume by its
//!   serial number, opens the file by its id, queries its final path, and
//!   has every handle closed before it returns.

pub mod id;
pub mod kind;
pub mod limits;
pub mod text;
pub mod unix;
pub mod windows;
