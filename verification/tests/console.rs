use unikernel_core::boot_info::{BootInfo, BootRecord};
use unikernel_core::console::{
    message_output_init, output_message_buf, output_message_byte, SERIAL_PORT_BAUDRATE,
};

fn record(single_kernel: u8) -> BootRecord {
    BootRecord::new(BootInfo {
        magic_number: 0xC0DE_CAFE,
        version: 0,
        base: 0,
        limit: 0,
        image_size: 0,
        tls_start: 0,
        tls_filesz: 0,
        tls_memsz: 0,
        current_stack_address: 0,
        current_percore_address: 0,
        host_logical_addr: 0,
        boot_gtod: 0,
        mb_info: 0,
        cmdline: 0,
        cmdsize: 0,
        cpu_freq: 0,
        boot_processor: 0,
        cpu_online: 0,
        possible_cpus: 1,
        current_boot_id: 0,
        uartport: 0x2f8,
        single_kernel,
        uhyve: 0,
        hcip: [0; 4],
        hcgateway: [0; 4],
        hcmask: [0; 4],
    })
    .unwrap()
}

#[test]
fn test_output() {
    let mut console = message_output_init(&record(1));
    output_message_byte(&mut console, 't' as u8);
    output_message_byte(&mut console, 'e' as u8);
    output_message_byte(&mut console, 's' as u8);
    output_message_byte(&mut console, 't' as u8);
    output_message_byte(&mut console, '\n' as u8);
    assert_eq!(console.serial(), &b"test\n".to_vec());
}

#[test]
fn console_of_a_single_kernel_sets_the_serial_port_up() {
    let console = message_output_init(&record(1));
    assert_eq!(SERIAL_PORT_BAUDRATE, 115200);
    assert_eq!(console.port_address(), 0x2f8);
    assert_eq!(console.baudrate(), Some(115200));
    assert!(console.serial().is_empty());
}

#[test]
fn console_beside_a_host_leaves_the_serial_port_alone() {
    let mut console = message_output_init(&record(0));
    assert_eq!(console.port_address(), 0x2f8);
    assert_eq!(console.baudrate(), None);
    output_message_buf(&mut console, b"hello");
    output_message_byte(&mut console, b'!');
    assert_eq!(console.message_buffer(), &b"hello!".to_vec());
    assert!(console.serial().is_empty());
    assert!(console.screen().is_empty());
}

#[test]
fn screen_gets_what_is_written_after_it_is_set_up() {
    let mut console = message_output_init(&record(1));
    output_message_buf(&mut console, b"early ");
    console.enable_vga();
    output_message_buf(&mut console, b"late");
    output_message_buf(&mut console, b"");
    assert_eq!(console.serial(), &b"early late".to_vec());
    assert_eq!(console.screen(), &b"late".to_vec());
    assert!(console.message_buffer().is_empty());
}
