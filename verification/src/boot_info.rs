//! The hand-off record that the loader leaves for the kernel.

use vstd::prelude::*;

verus! {

/// The value that the loader writes into the first field of a hand-off record.
pub const BOOTINFO_MAGIC_NUMBER: u32 = 0xC0DE_CAFEu32;

/// Byte offset of `current_stack_address` within the fixed record layout.
pub const CURRENT_STACK_ADDRESS_OFFSET: isize = 56;

/// The raw hand-off record, field for field as the loader wrote it.
///
/// Nothing but `magic_number` may be trusted in a value of this type: turn it
/// into a [`BootRecord`] first.
#[derive(Clone, Copy, Debug)]
pub struct BootInfo {
    pub magic_number: u32,
    pub version: u32,
    pub base: u64,
    pub limit: u64,
    pub image_size: u64,
    pub tls_start: u64,
    pub tls_filesz: u64,
    pub tls_memsz: u64,
    pub current_stack_address: u64,
    pub current_percore_address: u64,
    pub host_logical_addr: u64,
    pub boot_gtod: u64,
    pub mb_info: u64,
    pub cmdline: u64,
    pub cmdsize: u64,
    pub cpu_freq: u32,
    pub boot_processor: u32,
    pub cpu_online: u32,
    pub possible_cpus: u32,
    pub current_boot_id: u32,
    pub uartport: u16,
    pub single_kernel: u8,
    pub uhyve: u8,
    pub hcip: [u8; 4],
    pub hcgateway: [u8; 4],
    pub hcmask: [u8; 4],
}

impl BootInfo {
    /// Whether the record carries the loader's magic number.
    pub open spec fn has_valid_magic(&self) -> bool {
        self.magic_number == BOOTINFO_MAGIC_NUMBER
    }

    /// Offset of the initial stack address inside the record, as the entry
    /// stub needs it to load the stack pointer.
    pub fn current_stack_address_offset() -> (offset: isize)
        ensures
            offset == CURRENT_STACK_ADDRESS_OFFSET,
    {
        CURRENT_STACK_ADDRESS_OFFSET
    }
}

/// A hand-off record whose magic number has been checked.
///
/// The only way to obtain one is [`BootRecord::new`], so every field read
/// through it comes from a record that the loader really wrote.
pub struct BootRecord {
    info: BootInfo,
}

impl View for BootRecord {
    type V = BootInfo;

    closed spec fn view(&self) -> BootInfo {
        self.info
    }
}

impl BootRecord {
    #[verifier::type_invariant]
    spec fn magic_checked(&self) -> bool {
        self.info.magic_number == BOOTINFO_MAGIC_NUMBER
    }

    /// Checks the magic number and, if it matches, wraps the record.
    pub fn new(info: BootInfo) -> (record: Option<BootRecord>)
        ensures
            record.is_some() <==> info.has_valid_magic(),
            record matches Some(r) ==> r@ == info,
    {
        if info.magic_number == BOOTINFO_MAGIC_NUMBER {
            Some(BootRecord { info })
        } else {
            None
        }
    }

    /// The record as it currently stands.
    pub fn info(&self) -> (info: BootInfo)
        ensures
            info == self@,
            info.has_valid_magic(),
    {
        proof {
            use_type_invariant(self);
        }
        self.info
    }
}

impl BootInfo {
    /// Whether the host has given the guest an IP device: the address is
    /// anything but 255.255.255.255.
    pub open spec fn spec_has_ipdevice(&self) -> bool {
        !(self.hcip[0] == 255 && self.hcip[1] == 255 && self.hcip[2] == 255 && self.hcip[3]
            == 255)
    }

    /// Whether the kernel runs under the lightweight hypervisor.
    pub open spec fn spec_is_uhyve(&self) -> bool {
        self.uhyve & 0x1 == 0x1
    }

    /// Whether it runs under the hypervisor with a PCI bus.
    pub open spec fn spec_is_uhyve_with_pci(&self) -> bool {
        self.uhyve & 0x3 == 0x3
    }

    /// Whether the kernel runs alone rather than side by side with a host system.
    pub open spec fn spec_is_single_kernel(&self) -> bool {
        self.single_kernel != 0
    }
}

impl BootRecord {
    /// Adds one to the count of processors that have finished their
    /// initialization and returns the count before, which is the identifier
    /// of the processor that has just finished.
    pub fn add_online_cpu(&mut self) -> (before: u32)
        requires
            old(self)@.cpu_online < u32::MAX,
        ensures
            before == old(self)@.cpu_online,
            final(self)@ == (BootInfo { cpu_online: (before + 1) as u32, ..old(self)@ }),
    {
        proof {
            use_type_invariant(&*self);
        }
        let before = self.info.cpu_online;
        self.info.cpu_online = before + 1;
        before
    }
}

/// Whether the host has given the guest an IP device.
pub fn has_ipdevice(record: &BootRecord) -> (present: bool)
    ensures
        present == record@.spec_has_ipdevice(),
{
    let ip = record.info().hcip;
    !(ip[0] == 255 && ip[1] == 255 && ip[2] == 255 && ip[3] == 255)
}

/// The guest's IP address as the host configured it.
pub fn sys_uhyve_get_ip(record: &BootRecord) -> (ip: [u8; 4])
    ensures
        ip == record@.hcip,
{
    record.info().hcip
}

/// The gateway as the host configured it.
pub fn sys_uhyve_get_gateway(record: &BootRecord) -> (gateway: [u8; 4])
    ensures
        gateway == record@.hcgateway,
{
    record.info().hcgateway
}

/// The network mask as the host configured it.
pub fn sys_uhyve_get_mask(record: &BootRecord) -> (mask: [u8; 4])
    ensures
        mask == record@.hcmask,
{
    record.info().hcmask
}

/// The address at which the kernel image starts.
pub fn get_base_address(record: &BootRecord) -> (base: u64)
    ensures
        base == record@.base,
{
    record.info().base
}

/// The size of the kernel image in bytes.
pub fn get_image_size(record: &BootRecord) -> (size: usize)
    ensures
        size == record@.image_size as usize,
{
    record.info().image_size as usize
}

/// The upper limit of the memory that the kernel may use.
pub fn get_limit(record: &BootRecord) -> (limit: usize)
    ensures
        limit == record@.limit as usize,
{
    record.info().limit as usize
}

/// The address of the template for thread-local storage.
pub fn get_tls_start(record: &BootRecord) -> (start: u64)
    ensures
        start == record@.tls_start,
{
    record.info().tls_start
}

/// The size of the initialized part of the template.
pub fn get_tls_filesz(record: &BootRecord) -> (size: usize)
    ensures
        size == record@.tls_filesz as usize,
{
    record.info().tls_filesz as usize
}

/// The size of thread-local storage in memory.
pub fn get_tls_memsz(record: &BootRecord) -> (size: usize)
    ensures
        size == record@.tls_memsz as usize,
{
    record.info().tls_memsz as usize
}

/// The address of the multiboot information, or zero.
pub fn get_mbinfo(record: &BootRecord) -> (address: u64)
    ensures
        address == record@.mb_info,
{
    record.info().mb_info
}

/// The number of processors that are up: the online count where the kernel
/// supports several processors, and one where it does not.
pub fn get_processor_count(record: &BootRecord, smp: bool) -> (count: u32)
    ensures
        count == if smp {
            record@.cpu_online
        } else {
            1u32
        },
{
    if smp {
        record.info().cpu_online
    } else {
        1
    }
}

/// Whether the kernel runs under the lightweight hypervisor.
pub fn is_uhyve(record: &BootRecord) -> (uhyve: bool)
    ensures
        uhyve == record@.spec_is_uhyve(),
{
    record.info().uhyve & 0x1 == 0x1
}

/// Whether the kernel runs under the hypervisor with a PCI bus.
pub fn is_uhyve_with_pci(record: &BootRecord) -> (uhyve_with_pci: bool)
    ensures
        uhyve_with_pci == record@.spec_is_uhyve_with_pci(),
{
    record.info().uhyve & 0x3 == 0x3
}

/// Whether the kernel runs alone (true) or side by side with a host system (false).
pub fn is_single_kernel(record: &BootRecord) -> (single: bool)
    ensures
        single == record@.spec_is_single_kernel(),
{
    record.info().single_kernel != 0
}

/// The length of the command line in bytes.
pub fn get_cmdsize(record: &BootRecord) -> (size: usize)
    ensures
        size == record@.cmdsize as usize,
{
    record.info().cmdsize as usize
}

/// The address of the command line.
pub fn get_cmdline(record: &BootRecord) -> (address: u64)
    ensures
        address == record@.cmdline,
{
    record.info().cmdline
}

/// The size in bytes of a hand-off record in memory.
pub const BOOT_INFO_SIZE: usize = 152;

/// The number that `width` bytes from `offset` on denote, least
/// significant byte first.
pub open spec fn le_value(bytes: Seq<u8>, offset: int, width: nat) -> nat
    decreases width,
{
    if width == 0 {
        0
    } else {
        bytes[offset] as nat + 256 * le_value(bytes, offset + 1, (width - 1) as nat)
    }
}

fn read_le_u16(bytes: &[u8], offset: usize) -> (value: u16)
    requires
        offset + 2 <= bytes@.len(),
    ensures
        value == le_value(bytes@, offset as int, 2),
{
    proof {
        reveal_with_fuel(le_value, 3);
    }
    bytes[offset] as u16 + bytes[offset + 1] as u16 * 256
}

fn read_le_u32(bytes: &[u8], offset: usize) -> (value: u32)
    requires
        offset + 4 <= bytes@.len(),
    ensures
        value == le_value(bytes@, offset as int, 4),
{
    proof {
        reveal_with_fuel(le_value, 5);
    }
    bytes[offset] as u32 + bytes[offset + 1] as u32 * 0x100 + bytes[offset + 2] as u32 * 0x1_0000
        + bytes[offset + 3] as u32 * 0x100_0000
}

fn read_le_u64(bytes: &[u8], offset: usize) -> (value: u64)
    requires
        offset + 8 <= bytes@.len(),
    ensures
        value == le_value(bytes@, offset as int, 8),
{
    proof {
        reveal_with_fuel(le_value, 9);
    }
    bytes[offset] as u64 + bytes[offset + 1] as u64 * 0x100 + bytes[offset + 2] as u64 * 0x1_0000
        + bytes[offset + 3] as u64 * 0x100_0000 + bytes[offset + 4] as u64 * 0x1_0000_0000
        + bytes[offset + 5] as u64 * 0x100_0000_0000 + bytes[offset + 6] as u64
        * 0x1_0000_0000_0000 + bytes[offset + 7] as u64 * 0x100_0000_0000_0000
}

fn read_quad(bytes: &[u8], offset: usize) -> (quad: [u8; 4])
    requires
        offset + 4 <= bytes@.len(),
    ensures
        quad@ == bytes@.subrange(offset as int, offset + 4),
{
    let quad = [bytes[offset], bytes[offset + 1], bytes[offset + 2], bytes[offset + 3]];
    assert(quad@ =~= bytes@.subrange(offset as int, offset + 4));
    quad
}

impl BootInfo {
    /// Whether `self` is what the bytes of a record in memory say: every
    /// field stands at its offset in the fixed layout, numbers with their
    /// least significant byte first.
    pub open spec fn decodes(&self, bytes: Seq<u8>) -> bool {
        &&& self.magic_number == le_value(bytes, 0, 4)
        &&& self.version == le_value(bytes, 4, 4)
        &&& self.base == le_value(bytes, 8, 8)
        &&& self.limit == le_value(bytes, 16, 8)
        &&& self.image_size == le_value(bytes, 24, 8)
        &&& self.tls_start == le_value(bytes, 32, 8)
        &&& self.tls_filesz == le_value(bytes, 40, 8)
        &&& self.tls_memsz == le_value(bytes, 48, 8)
        &&& self.current_stack_address == le_value(bytes, CURRENT_STACK_ADDRESS_OFFSET as int, 8)
        &&& self.current_percore_address == le_value(bytes, 64, 8)
        &&& self.host_logical_addr == le_value(bytes, 72, 8)
        &&& self.boot_gtod == le_value(bytes, 80, 8)
        &&& self.mb_info == le_value(bytes, 88, 8)
        &&& self.cmdline == le_value(bytes, 96, 8)
        &&& self.cmdsize == le_value(bytes, 104, 8)
        &&& self.cpu_freq == le_value(bytes, 112, 4)
        &&& self.boot_processor == le_value(bytes, 116, 4)
        &&& self.cpu_online == le_value(bytes, 120, 4)
        &&& self.possible_cpus == le_value(bytes, 124, 4)
        &&& self.current_boot_id == le_value(bytes, 128, 4)
        &&& self.uartport == le_value(bytes, 132, 2)
        &&& self.single_kernel == bytes[134]
        &&& self.uhyve == bytes[135]
        &&& self.hcip@ == bytes.subrange(136, 140)
        &&& self.hcgateway@ == bytes.subrange(140, 144)
        &&& self.hcmask@ == bytes.subrange(144, 148)
    }

    /// Reads a record from the bytes that the loader left in memory. `None`
    /// if there are fewer bytes than a record has.
    pub fn from_bytes(bytes: &[u8]) -> (info: Option<BootInfo>)
        ensures
            info.is_some() <==> bytes@.len() >= BOOT_INFO_SIZE,
            info matches Some(i) ==> i.decodes(bytes@),
    {
        if bytes.len() < BOOT_INFO_SIZE {
            return None;
        }
        Some(
            BootInfo {
                magic_number: read_le_u32(bytes, 0),
                version: read_le_u32(bytes, 4),
                base: read_le_u64(bytes, 8),
                limit: read_le_u64(bytes, 16),
                image_size: read_le_u64(bytes, 24),
                tls_start: read_le_u64(bytes, 32),
                tls_filesz: read_le_u64(bytes, 40),
                tls_memsz: read_le_u64(bytes, 48),
                current_stack_address: read_le_u64(bytes, 56),
                current_percore_address: read_le_u64(bytes, 64),
                host_logical_addr: read_le_u64(bytes, 72),
                boot_gtod: read_le_u64(bytes, 80),
                mb_info: read_le_u64(bytes, 88),
                cmdline: read_le_u64(bytes, 96),
                cmdsize: read_le_u64(bytes, 104),
                cpu_freq: read_le_u32(bytes, 112),
                boot_processor: read_le_u32(bytes, 116),
                cpu_online: read_le_u32(bytes, 120),
                possible_cpus: read_le_u32(bytes, 124),
                current_boot_id: read_le_u32(bytes, 128),
                uartport: read_le_u16(bytes, 132),
                single_kernel: bytes[134],
                uhyve: bytes[135],
                hcip: read_quad(bytes, 136),
                hcgateway: read_quad(bytes, 140),
                hcmask: read_quad(bytes, 144),
            },
        )
    }
}

} // verus!
