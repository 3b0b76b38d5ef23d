//! Verified core of the PXE first stage: real-mode segmented pointers,
//! the PXE API parameter structures, the console byte stream and the
//! bookkeeping of a TFTP download.

pub mod segmented_ptr;
pub mod wire;
pub mod pxe;
pub mod download;
pub mod print;
