//! Where the kernel's messages go.
//!
//! A kernel that runs alone writes to the serial port, and to the screen
//! once it is set up; one that runs beside a host system writes to the
//! message buffer that the host reads. The console collects the bytes per
//! destination; the caller moves them to the devices.

use vstd::prelude::*;
use crate::boot_info::{is_single_kernel, BootRecord};

verus! {

/// The speed of the serial port.
pub const SERIAL_PORT_BAUDRATE: u32 = 115_200;

/// The mathematical state of a console.
pub struct ConsoleView {
    /// Whether the kernel runs alone on the machine.
    pub single_kernel: bool,
    /// The I/O port of the serial device.
    pub port_address: u16,
    /// The speed that the serial device was set to, if it was set up.
    pub baudrate: Option<u32>,
    /// Whether the screen is set up.
    pub vga: bool,
    /// The bytes for the serial port.
    pub serial: Seq<u8>,
    /// The bytes for the screen.
    pub screen: Seq<u8>,
    /// The bytes for the host's message buffer.
    pub message_buffer: Seq<u8>,
}

impl ConsoleView {
    /// The console after `bytes` have been written.
    pub open spec fn write(self, bytes: Seq<u8>) -> ConsoleView {
        if self.single_kernel {
            ConsoleView {
                serial: self.serial + bytes,
                screen: if self.vga {
                    self.screen + bytes
                } else {
                    self.screen
                },
                ..self
            }
        } else {
            ConsoleView { message_buffer: self.message_buffer + bytes, ..self }
        }
    }
}

/// The destinations of the kernel's messages.
pub struct Console {
    single_kernel: bool,
    port_address: u16,
    baudrate: Option<u32>,
    vga: bool,
    serial: Vec<u8>,
    screen: Vec<u8>,
    message_buffer: Vec<u8>,
}

impl View for Console {
    type V = ConsoleView;

    closed spec fn view(&self) -> ConsoleView {
        ConsoleView {
            single_kernel: self.single_kernel,
            port_address: self.port_address,
            baudrate: self.baudrate,
            vga: self.vga,
            serial: self.serial@,
            screen: self.screen@,
            message_buffer: self.message_buffer@,
        }
    }
}

impl Console {
    /// The I/O port of the serial device.
    pub fn port_address(&self) -> (port: u16)
        ensures
            port == self@.port_address,
    {
        self.port_address
    }

    /// The speed that the serial device was set to, if it was set up.
    pub fn baudrate(&self) -> (baudrate: Option<u32>)
        ensures
            baudrate == self@.baudrate,
    {
        self.baudrate
    }

    /// Marks the screen as set up: from now on it gets what the serial port gets.
    pub fn enable_vga(&mut self)
        ensures
            final(self)@ == (ConsoleView { vga: true, ..old(self)@ }),
    {
        self.vga = true;
    }

    /// The bytes written for the serial port.
    pub fn serial(&self) -> (bytes: &Vec<u8>)
        ensures
            bytes@ == self@.serial,
    {
        &self.serial
    }

    /// The bytes written for the screen.
    pub fn screen(&self) -> (bytes: &Vec<u8>)
        ensures
            bytes@ == self@.screen,
    {
        &self.screen
    }

    /// The bytes written for the host's message buffer.
    pub fn message_buffer(&self) -> (bytes: &Vec<u8>)
        ensures
            bytes@ == self@.message_buffer,
    {
        &self.message_buffer
    }
}

/// Sets the console up from the hand-off record, as the first thing the
/// boot processor does: the serial port is the one the record names, and it
/// is initialized only if the kernel runs alone.
pub fn message_output_init(record: &BootRecord) -> (console: Console)
    ensures
        console@ == (ConsoleView {
            single_kernel: record@.spec_is_single_kernel(),
            port_address: record@.uartport,
            baudrate: if record@.spec_is_single_kernel() {
                Some(SERIAL_PORT_BAUDRATE)
            } else {
                None
            },
            vga: false,
            serial: Seq::empty(),
            screen: Seq::empty(),
            message_buffer: Seq::empty(),
        }),
{
    let single_kernel = is_single_kernel(record);
    Console {
        single_kernel,
        port_address: record.info().uartport,
        baudrate: if single_kernel {
            Some(SERIAL_PORT_BAUDRATE)
        } else {
            None
        },
        vga: false,
        serial: Vec::new(),
        screen: Vec::new(),
        message_buffer: Vec::new(),
    }
}

/// Writes one byte of a message.
pub fn output_message_byte(console: &mut Console, byte: u8)
    ensures
        final(console)@ == old(console)@.write(seq![byte]),
{
    if console.single_kernel {
        console.serial.push(byte);
        if console.vga {
            console.screen.push(byte);
        }
    } else {
        console.message_buffer.push(byte);
    }
    proof {
        let before = old(console)@;
        assert(before.serial.push(byte) =~= before.serial + seq![byte]);
        assert(before.screen.push(byte) =~= before.screen + seq![byte]);
        assert(before.message_buffer.push(byte) =~= before.message_buffer + seq![byte]);
    }
}

/// Writes the bytes of a message, in order.
pub fn output_message_buf(console: &mut Console, buf: &[u8])
    ensures
        final(console)@ == old(console)@.write(buf@),
{
    let mut i: usize = 0;
    proof {
        let before = old(console)@;
        assert(buf@.take(0) =~= Seq::<u8>::empty());
        assert(before.serial + Seq::<u8>::empty() =~= before.serial);
        assert(before.screen + Seq::<u8>::empty() =~= before.screen);
        assert(before.message_buffer + Seq::<u8>::empty() =~= before.message_buffer);
    }
    while i < buf.len()
        invariant
            i <= buf.len(),
            console@ == old(console)@.write(buf@.take(i as int)),
        decreases buf.len() - i,
    {
        let ghost before = old(console)@;
        let ghost done = buf@.take(i as int);
        output_message_byte(console, buf[i]);
        proof {
            let byte = buf@[i as int];
            assert(buf@.take(i + 1) =~= done + seq![byte]);
            assert((before.serial + done) + seq![byte] =~= before.serial + (done + seq![byte]));
            assert((before.screen + done) + seq![byte] =~= before.screen + (done + seq![byte]));
            assert((before.message_buffer + done) + seq![byte] =~= before.message_buffer + (done
                + seq![byte]));
        }
        i += 1;
    }
    assert(buf@.take(i as int) =~= buf@);
}

} // verus!
