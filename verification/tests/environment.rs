use unikernel_core::boot_info::{BootInfo, BootRecord};
use unikernel_core::environment::{
    get_command_line_argv, get_command_line_cpu_frequency, get_command_line_path, init, is_proxy,
    parse_command_line, parse_u16, tokenize, CommandLineError,
};

fn record(cmdsize: u64, single_kernel: u8, uhyve: u8) -> BootRecord {
    BootRecord::new(BootInfo {
        magic_number: 0xC0DE_CAFE,
        version: 0,
        base: 0,
        limit: 0,
        image_size: 0,
        tls_start: 0,
        tls_filesz: 0,
        tls_memsz: 0,
        current_stack_address: 0,
        current_percore_address: 0,
        host_logical_addr: 0,
        boot_gtod: 0,
        mb_info: 0,
        cmdline: 0,
        cmdsize,
        cpu_freq: 0,
        boot_processor: 0,
        cpu_online: 0,
        possible_cpus: 1,
        current_boot_id: 0,
        uartport: 0,
        single_kernel,
        uhyve,
        hcip: [0; 4],
        hcgateway: [0; 4],
        hcmask: [0; 4],
    })
    .unwrap()
}

fn tokens(words: &[&str]) -> Vec<Vec<u8>> {
    words.iter().map(|word| word.as_bytes().to_vec()).collect()
}

#[test]
fn numbers_of_sixteen_bits_are_read() {
    assert_eq!(parse_u16(&b"0".to_vec()), Some(0));
    assert_eq!(parse_u16(&b"2400".to_vec()), Some(2400));
    assert_eq!(parse_u16(&b"65535".to_vec()), Some(65535));
    assert_eq!(parse_u16(&b"+17".to_vec()), Some(17));
    assert_eq!(parse_u16(&b"00000000000000000000012".to_vec()), Some(12));
}

#[test]
fn what_is_no_number_of_sixteen_bits_is_refused() {
    assert_eq!(parse_u16(&b"".to_vec()), None);
    assert_eq!(parse_u16(&b"+".to_vec()), None);
    assert_eq!(parse_u16(&b"-1".to_vec()), None);
    assert_eq!(parse_u16(&b"65536".to_vec()), None);
    assert_eq!(parse_u16(&b"99999999999999999999".to_vec()), None);
    assert_eq!(parse_u16(&b"12a".to_vec()), None);
    assert_eq!(parse_u16(&b"70000x".to_vec()), None);
    assert_eq!(parse_u16(&b" 12".to_vec()), None);
    assert_eq!(parse_u16(&b"++1".to_vec()), None);
}

#[test]
fn command_line_is_split_at_spaces() {
    assert_eq!(tokenize(b"kernel -freq 2400", b' '), tokens(&["kernel", "-freq", "2400"]));
    assert_eq!(tokenize(b"  a   b ", b' '), tokens(&["a", "b"]));
    assert_eq!(tokenize(b"", b' '), tokens(&[]));
    assert_eq!(tokenize(b"   ", b' '), tokens(&[]));
}

#[test]
fn quotes_keep_spaces_in_a_token() {
    assert_eq!(tokenize(b"-- \"hello world\" x", b' '), tokens(&["--", "hello world", "x"]));
    assert_eq!(tokenize(b"a' b 'c d", b' '), tokens(&["a b c", "d"]));
    assert_eq!(tokenize(b"'it is \"so\"' \"it's\"", b' '), tokens(&["it is \"so\"", "it's"]));
    assert_eq!(tokenize(b"open 'to the end", b' '), tokens(&["open", "to the end"]));
    assert_eq!(tokenize(b"'' a", b' '), tokens(&["a"]));
}

#[test]
fn flags_path_and_arguments_are_told_apart() {
    let line = parse_command_line(&tokens(&[
        "/boot/kernel",
        "-freq",
        "2400",
        "-proxy",
        "stray",
        "--",
        "app",
        "-freq",
        "--",
    ]))
    .unwrap();
    assert_eq!(line.cpu_frequency, 2400);
    assert!(line.proxy);
    assert_eq!(line.path, Some(b"/boot/kernel".to_vec()));
    assert_eq!(line.ignored, tokens(&["stray"]));
    assert_eq!(line.application, Some(tokens(&["app", "-freq", "--"])));
}

#[test]
fn empty_command_line_says_nothing() {
    let line = parse_command_line(&tokens(&[])).unwrap();
    assert_eq!(line.cpu_frequency, 0);
    assert!(!line.proxy);
    assert_eq!(line.path, None);
    assert_eq!(line.application, None);
    assert!(line.ignored.is_empty());
}

#[test]
fn separator_at_the_end_gives_no_arguments() {
    let line = parse_command_line(&tokens(&["--"])).unwrap();
    assert_eq!(line.application, Some(vec![]));
    assert_eq!(line.path, None);
}

#[test]
fn later_frequency_replaces_the_earlier() {
    let line = parse_command_line(&tokens(&["-freq", "1000", "-freq", "3000"])).unwrap();
    assert_eq!(line.cpu_frequency, 3000);
}

#[test]
fn frequency_without_a_number_is_an_error() {
    assert_eq!(
        parse_command_line(&tokens(&["kernel", "-freq"])).unwrap_err(),
        CommandLineError::MissingFrequency
    );
    assert_eq!(
        parse_command_line(&tokens(&["-freq", "fast"])).unwrap_err(),
        CommandLineError::InvalidFrequency
    );
    assert_eq!(
        parse_command_line(&tokens(&["-freq", "65536", "--"])).unwrap_err(),
        CommandLineError::InvalidFrequency
    );
}

#[test]
fn proxy_follows_from_the_record_not_the_flag() {
    let alone = init(&record(20, 1, 0), b"kernel -proxy -freq 800").unwrap();
    assert!(!is_proxy(&alone));
    assert!(alone.command_line.proxy);
    assert_eq!(get_command_line_cpu_frequency(&alone), 800);
    assert_eq!(get_command_line_path(&alone), Some(&b"kernel".to_vec()));
    assert_eq!(get_command_line_argv(&alone), None);
    let hosted = init(&record(20, 0, 1), b"kernel").unwrap();
    assert!(!is_proxy(&hosted));
    let beside = init(&record(20, 0, 0), b"kernel -- app 'one arg'").unwrap();
    assert!(is_proxy(&beside));
    assert_eq!(get_command_line_argv(&beside), Some(&tokens(&["app", "one arg"])));
}

#[test]
fn record_without_command_line_ignores_the_bytes() {
    let environment = init(&record(0, 0, 0), b"-freq").unwrap();
    assert_eq!(get_command_line_cpu_frequency(&environment), 0);
    assert_eq!(get_command_line_path(&environment), None);
    assert!(is_proxy(&environment));
}

#[test]
fn bad_command_line_fails_the_init() {
    assert_eq!(init(&record(5, 1, 0), b"-freq").unwrap_err(), CommandLineError::MissingFrequency);
    assert_eq!(
        init(&record(9, 1, 0), b"-freq 1e3").unwrap_err(),
        CommandLineError::InvalidFrequency
    );
}
