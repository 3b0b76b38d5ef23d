//! The `!PXE` structure and the parameter structures of the PXE API calls
//! that the first stage makes.
use crate::segmented_ptr::{linear_address, SegmentedPointer};
use crate::wire::{be_u16_at, le_u16_at, read_u16_le, write_u16_be, write_u16_le};
use vstd::prelude::*;
use vstd::string::StringSliceAdditionalSpecFns;

verus! {

/// Status word of a PXE call that succeeded.
pub const PXENV_STATUS_SUCCESS: u16 = 0;

/// Status word of a PXE call that failed.
pub const PXENV_STATUS_FAILURE: u16 = 1;

/// Opcode of `PXENV_GET_CACHED_INFO`.
pub const PXENV_GET_CACHED_INFO: u16 = 0x71;

/// Opcode of `PXENV_TFTP_OPEN`.
pub const PXENV_TFTP_OPEN: u16 = 0x20;

/// Opcode of `PXENV_TFTP_CLOSE`.
pub const PXENV_TFTP_CLOSE: u16 = 0x21;

/// Opcode of `PXENV_TFTP_READ`.
pub const PXENV_TFTP_READ: u16 = 0x22;

/// The well-known TFTP port.
pub const TFTP_PORT: u16 = 69;

/// Length of the parameter structure of `PXENV_GET_CACHED_INFO`.
pub const CACHED_INFO_PARAMETERS_LEN: usize = 12;

/// Length of the parameter structure of `PXENV_TFTP_OPEN`.
pub const TFTP_OPEN_PARAMETERS_LEN: usize = 142;

/// Length of the parameter structure of `PXENV_TFTP_READ`.
pub const TFTP_READ_PARAMETERS_LEN: usize = 10;

/// Length of the parameter structure of `PXENV_TFTP_CLOSE`.
pub const TFTP_CLOSE_PARAMETERS_LEN: usize = 2;

/// Room for the file name in the `PXENV_TFTP_OPEN` parameter structure.
pub const TFTP_FILENAME_CAPACITY: usize = 128;

/// Smallest packet size that `PXENV_TFTP_OPEN` may ask for.
pub const TFTP_MIN_PACKET_SIZE: u16 = 512;

/// The UNDI ROM ID structure (not read by the first stage).
pub struct UndiRomId;

/// The base-code ROM ID structure (not read by the first stage).
pub struct BaseRomId;

/// The 16-bit entry point of the PXE API.
pub struct EntryPoint(());

/// The target of the 32-bit entry point of the PXE API.
pub struct EntryPointEsp;

/// The `!PXE` structure that the boot ROM hands to the first stage.
pub struct PxeStructure {
    pub signature: [u8; 4],
    pub struct_length: u8,
    pub struct_chksum: u8,
    pub _reserved: u8,
    pub undi_rom_id: SegmentedPointer<'static, UndiRomId>,
    pub base_rom_id: SegmentedPointer<'static, BaseRomId>,
    pub entry_point_sp: SegmentedPointer<'static, EntryPoint>,
    pub entry_point_esp: SegmentedPointer<'static, EntryPointEsp>,
}

/// The signature `!PXE` that opens a valid `!PXE` structure.
pub open spec fn pxe_signature() -> Seq<u8> {
    seq![0x21u8, 0x50u8, 0x58u8, 0x45u8]
}

impl PxeStructure {
    /// Whether the structure opens with the signature `!PXE`.
    pub fn has_valid_signature(&self) -> (valid: bool)
        ensures
            valid == (self.signature@ == pxe_signature()),
            valid == (self.signature[0] == 0x21u8 && self.signature[1] == 0x50u8
                && self.signature[2] == 0x58u8 && self.signature[3] == 0x45u8),
    {
        let valid = self.signature[0] == 0x21u8 && self.signature[1] == 0x50u8
            && self.signature[2] == 0x58u8 && self.signature[3] == 0x45u8;
        proof {
            if valid {
                assert(self.signature@ =~= pxe_signature());
            }
        }
        valid
    }

    /// Checks that the structure opens with the signature `!PXE`; a
    /// structure without it is refused (callers test `has_valid_signature`
    /// first and stop with "Invalid signature").
    pub fn check_signature(&self)
        requires
            self.signature@ == pxe_signature(),
    {
        let valid = self.has_valid_signature();
        assert(valid);
    }
}

/// What a PXE call reports: success when the exit code in `AX` is zero,
/// otherwise the status word that the call left at the start of its
/// parameter structure.
pub fn execute_result(exit_code: u16, parameter_structure: &[u8]) -> (r: Result<(), u16>)
    requires
        parameter_structure@.len() >= 2,
    ensures
        exit_code == 0 ==> r == Ok::<(), u16>(()),
        exit_code != 0 ==> r == Err::<(), u16>(le_u16_at(parameter_structure@, 0) as u16),
{
    if exit_code == 0 {
        Ok(())
    } else {
        Err(read_u16_le(parameter_structure, 0))
    }
}

/// The parameter structure of `PXENV_GET_CACHED_INFO`, asking for the cached
/// reply packet of the boot server (packet type 3).
pub open spec fn cached_info_parameters() -> Seq<u8> {
    Seq::new(12, |i: int| if i == 2 { 3u8 } else { 0u8 })
}

/// Builds the parameter structure of `PXENV_GET_CACHED_INFO`.
pub fn cached_info_request() -> (r: [u8; 12])
    ensures
        r@ == cached_info_parameters(),
        le_u16_at(r@, 2) == 3,
        forall|i: int| 0 <= i < 12 && i != 2 && i != 3 ==> r@[i] == 0,
{
    let mut parameters = [0u8; 12];
    write_u16_le(&mut parameters, 2, 3);
    assert(parameters@ =~= cached_info_parameters());
    parameters
}

/// A buffer in real-mode memory, by linear address and length.
pub struct RealModeBuffer {
    pub address: u32,
    pub len: usize,
}

/// Where `PXENV_GET_CACHED_INFO` left the cached packet: the buffer size at
/// bytes 4..6, and the buffer's offset and segment at bytes 6..8 and 8..10.
pub fn cached_info_buffer(parameters: &[u8; 12]) -> (r: RealModeBuffer)
    ensures
        r.len == le_u16_at(parameters@, 4),
        r.address == le_u16_at(parameters@, 8) * 16 + le_u16_at(parameters@, 6),
{
    let buffer_size = read_u16_le(parameters, 4);
    let offset = read_u16_le(parameters, 6);
    let segment = read_u16_le(parameters, 8);
    let pointer: SegmentedPointer<u8> = SegmentedPointer::new(offset, segment);
    RealModeBuffer { address: pointer.as_ptr(), len: buffer_size as usize }
}

/// The parameter structure of `PXENV_TFTP_OPEN`: the server's IP address at
/// bytes 2..6, the file name from byte 10 on (zero-terminated by the zeroes
/// that follow it), the TFTP port big-endian at bytes 138..140 and the
/// packet size little-endian at bytes 140..142; every other byte is zero.
pub open spec fn tftp_open_parameters(
    server_ip_address: Seq<u8>,
    filename: Seq<u8>,
    packet_size: u16,
) -> Seq<u8> {
    Seq::new(
        142,
        |i: int|
            if 2 <= i < 6 {
                server_ip_address[i - 2]
            } else if 10 <= i < 10 + filename.len() {
                filename[i - 10]
            } else if i == 139 {
                69u8
            } else if i == 140 {
                (packet_size % 256) as u8
            } else if i == 141 {
                (packet_size / 256) as u8
            } else {
                0u8
            },
    )
}

/// Builds the parameter structure of `PXENV_TFTP_OPEN`. The file name must
/// leave room for its terminating zero, and the packet size be at least 512.
pub fn tftp_open_request(server_ip_address: [u8; 4], filename: &str, packet_size: u16) -> (r: [u8;
    142])
    requires
        filename.spec_bytes().len() < 128,
        packet_size >= 512,
    ensures
        r@ == tftp_open_parameters(server_ip_address@, filename.spec_bytes(), packet_size),
        r@.len() == 142,
        r@.subrange(2, 6) == server_ip_address@,
        r@.subrange(10, 10 + filename.spec_bytes().len() as int) == filename.spec_bytes(),
        forall|i: int| 10 + filename.spec_bytes().len() <= i < 138 ==> r@[i] == 0,
        r@[0] == 0 && r@[1] == 0,
        forall|i: int| 6 <= i < 10 ==> r@[i] == 0,
        be_u16_at(r@, 138) == TFTP_PORT,
        le_u16_at(r@, 140) == packet_size,
{
    let mut parameters = [0u8; 142];
    parameters[2] = server_ip_address[0];
    parameters[3] = server_ip_address[1];
    parameters[4] = server_ip_address[2];
    parameters[5] = server_ip_address[3];
    let name = filename.as_bytes();
    let name_len = filename.len();
    let mut i: usize = 0;
    while i < name_len
        invariant
            name@ == filename.spec_bytes(),
            name_len == name@.len(),
            name_len < 128,
            i <= name_len,
            parameters@.len() == 142,
            forall|j: int| 2 <= j < 6 ==> parameters@[j] == server_ip_address@[j - 2],
            forall|j: int| 10 <= j < 10 + i ==> parameters@[j] == name@[j - 10],
            forall|j: int| 0 <= j < 142 && !(2 <= j < 6) && !(10 <= j < 10 + i) ==> parameters@[j]
                == 0,
        decreases name_len - i,
    {
        parameters[10 + i] = name[i];
        i = i + 1;
    }
    write_u16_be(&mut parameters, 138, TFTP_PORT);
    write_u16_le(&mut parameters, 140, packet_size);
    assert(parameters@ =~= tftp_open_parameters(
        server_ip_address@,
        filename.spec_bytes(),
        packet_size,
    ));
    proof {
        lemma_tftp_open_fields(server_ip_address@, filename.spec_bytes(), packet_size);
    }
    parameters
}

/// The packet size that the server agreed to, left by `PXENV_TFTP_OPEN` at
/// bytes 140..142 of its parameter structure.
pub fn tftp_open_reply(parameters: &[u8; 142]) -> (packet_size: u16)
    ensures
        packet_size == le_u16_at(parameters@, 140),
{
    read_u16_le(parameters, 140)
}

/// The parameter structure of `PXENV_TFTP_CLOSE`: the status word alone,
/// zero on the way in.
pub open spec fn tftp_close_parameters() -> Seq<u8> {
    Seq::new(2, |i: int| 0u8)
}

/// Builds the parameter structure of `PXENV_TFTP_CLOSE`.
pub fn tftp_close_request() -> (r: [u8; 2])
    ensures
        r@ == tftp_close_parameters(),
        r@[0] == 0 && r@[1] == 0,
{
    let parameters = [0u8; 2];
    assert(parameters@ =~= tftp_close_parameters());
    parameters
}

/// The parameter structure of `PXENV_TFTP_READ`: the offset and segment of
/// the receive buffer, little-endian, at bytes 6..8 and 8..10; every other
/// byte is zero.
pub open spec fn tftp_read_parameters(offset: u16, segment: u16) -> Seq<u8> {
    Seq::new(
        10,
        |i: int|
            if i == 6 {
                (offset % 256) as u8
            } else if i == 7 {
                (offset / 256) as u8
            } else if i == 8 {
                (segment % 256) as u8
            } else if i == 9 {
                (segment / 256) as u8
            } else {
                0u8
            },
    )
}

/// Builds the parameter structure of `PXENV_TFTP_READ` for a receive buffer.
pub fn tftp_read_request(buffer: &SegmentedPointer<u8>) -> (r: [u8; 10])
    ensures
        r@ == tftp_read_parameters(buffer.spec_offset(), buffer.spec_segment()),
        le_u16_at(r@, 6) == buffer.spec_offset(),
        le_u16_at(r@, 8) == buffer.spec_segment(),
        forall|i: int| 0 <= i < 6 ==> r@[i] == 0,
{
    let mut parameters = [0u8; 10];
    write_u16_le(&mut parameters, 6, buffer.offset());
    write_u16_le(&mut parameters, 8, buffer.segment());
    assert(parameters@ =~= tftp_read_parameters(buffer.spec_offset(), buffer.spec_segment()));
    parameters
}

/// The number of bytes that `PXENV_TFTP_READ` received, left at bytes 4..6
/// of its parameter structure. It cannot exceed the receive buffer.
pub fn tftp_read_reply(parameters: &[u8; 10], buffer_len: usize) -> (len: usize)
    requires
        le_u16_at(parameters@, 4) <= buffer_len,
    ensures
        len == le_u16_at(parameters@, 4),
{
    read_u16_le(parameters, 4) as usize
}

/// When the PXE stack leaves the packet size of a `PXENV_TFTP_OPEN` request
/// untouched, the reply reports the packet size that was asked for.
pub proof fn lemma_tftp_open_packet_size_round_trip(
    server_ip_address: Seq<u8>,
    filename: Seq<u8>,
    packet_size: u16,
)
    requires
        server_ip_address.len() == 4,
        filename.len() < 128,
    ensures
        le_u16_at(tftp_open_parameters(server_ip_address, filename, packet_size), 140)
            == packet_size,
{
}

/// The `PXENV_TFTP_OPEN` request names the well-known TFTP port.
pub proof fn lemma_tftp_open_port(server_ip_address: Seq<u8>, filename: Seq<u8>, packet_size: u16)
    requires
        server_ip_address.len() == 4,
        filename.len() < 128,
    ensures
        be_u16_at(tftp_open_parameters(server_ip_address, filename, packet_size), 138)
            == TFTP_PORT,
{
}

/// A `PXENV_TFTP_READ` request names the receive buffer: its offset and
/// segment fields read back as the buffer pointer's parts, so the PXE stack
/// writes to the linear address the pointer designates.
pub proof fn lemma_tftp_read_names_buffer(buffer: SegmentedPointer<u8>)
    ensures
        le_u16_at(tftp_read_parameters(buffer.spec_offset(), buffer.spec_segment()), 6)
            == buffer.spec_offset(),
        le_u16_at(tftp_read_parameters(buffer.spec_offset(), buffer.spec_segment()), 8)
            == buffer.spec_segment(),
        linear_address(
            le_u16_at(tftp_read_parameters(buffer.spec_offset(), buffer.spec_segment()), 8) as u16,
            le_u16_at(tftp_read_parameters(buffer.spec_offset(), buffer.spec_segment()), 6) as u16,
        ) == buffer.spec_linear(),
{
}

/// The `PXENV_TFTP_OPEN` request carries its inputs verbatim: the server's
/// four address bytes at 2..6, the file name's bytes from byte 10 on followed
/// by zeroes up to the port (so the name is zero-terminated), the TFTP port
/// big-endian at 138..140 and the packet size little-endian at 140..142;
/// the status word and the gateway address are zero.
pub proof fn lemma_tftp_open_fields(server_ip_address: Seq<u8>, filename: Seq<u8>, packet_size: u16)
    requires
        server_ip_address.len() == 4,
        filename.len() < 128,
    ensures
        ({
            let r = tftp_open_parameters(server_ip_address, filename, packet_size);
            &&& r.len() == 142
            &&& r.subrange(2, 6) == server_ip_address
            &&& r.subrange(10, 10 + filename.len() as int) == filename
            &&& forall|i: int| 10 + filename.len() <= i < 138 ==> r[i] == 0
            &&& r[0] == 0 && r[1] == 0
            &&& forall|i: int| 6 <= i < 10 ==> r[i] == 0
            &&& be_u16_at(r, 138) == TFTP_PORT
            &&& le_u16_at(r, 140) == packet_size
        }),
{
    let r = tftp_open_parameters(server_ip_address, filename, packet_size);
    assert(r.subrange(2, 6) =~= server_ip_address);
    assert(r.subrange(10, 10 + filename.len() as int) =~= filename);
}

} // verus!
