//! The kernel's environment as the command line and the hand-off record give it.

use vstd::prelude::*;
use vstd::string::StringSliceAdditionalSpecFns;
use crate::boot_info::{is_single_kernel, is_uhyve, BootRecord};

verus! {

/// The digits of a number, most significant first, as a value.
pub open spec fn decimal_value(digits: Seq<u8>) -> nat
    decreases digits.len(),
{
    if digits.len() == 0 {
        0
    } else {
        decimal_value(digits.drop_last()) * 10 + (digits.last() - 48) as nat
    }
}

/// Whether every byte is an ASCII digit.
pub open spec fn all_digits(bytes: Seq<u8>) -> bool {
    forall|i: int| 0 <= i < bytes.len() ==> 48 <= #[trigger] bytes[i] <= 57
}

/// The text without a leading plus sign.
pub open spec fn unsigned_part(text: Seq<u8>) -> Seq<u8> {
    if text.len() > 0 && text[0] == 43 {
        text.skip(1)
    } else {
        text
    }
}

/// The number that `text` denotes: an optional plus sign and then one or
/// more decimal digits whose value fits sixteen bits.
pub open spec fn spec_parse_u16(text: Seq<u8>) -> Option<u16> {
    let digits = unsigned_part(text);
    if digits.len() > 0 && all_digits(digits) && decimal_value(digits) <= u16::MAX {
        Some(decimal_value(digits) as u16)
    } else {
        None
    }
}

/// The value of a number's leading digits is at most the value of the number.
pub proof fn lemma_prefix_value(digits: Seq<u8>, k: int)
    requires
        all_digits(digits),
        0 <= k <= digits.len(),
    ensures
        decimal_value(digits.take(k)) <= decimal_value(digits),
    decreases digits.len(),
{
    if k == digits.len() {
        assert(digits.take(k) =~= digits);
    } else {
        let rest = digits.drop_last();
        assert(rest.take(k) =~= digits.take(k));
        lemma_prefix_value(rest, k);
    }
}

/// Reads a decimal number of at most sixteen bits.
pub fn parse_u16(text: &Vec<u8>) -> (value: Option<u16>)
    ensures
        value == spec_parse_u16(text@),
{
    let start: usize = if text.len() > 0 && text[0] == 43 {
        1
    } else {
        0
    };
    let ghost digits = unsigned_part(text@);
    assert(digits =~= text@.skip(start as int));
    if start == text.len() {
        return None;
    }
    let mut value: u32 = 0;
    let mut i: usize = start;
    while i < text.len()
        invariant
            start <= i <= text.len(),
            digits == text@.skip(start as int),
            digits == unsigned_part(text@),
            all_digits(digits.take(i - start)),
            value == decimal_value(digits.take(i - start)),
            value <= u16::MAX,
        decreases text.len() - i,
    {
        let byte = text[i];
        let ghost k = i - start;
        assert(digits[k] == byte);
        if byte < 48 || byte > 57 {
            return None;
        }
        assert(digits.take(k + 1).drop_last() =~= digits.take(k));
        assert(digits.take(k + 1).last() == byte);
        let next: u32 = value * 10 + (byte - 48) as u32;
        if next > 65535 {
            proof {
                if all_digits(digits) {
                    lemma_prefix_value(digits, k + 1);
                }
            }
            return None;
        }
        value = next;
        i += 1;
    }
    assert(digits.take(i - start) =~= digits);
    Some(value as u16)
}

/// The flag that is followed by the processor's frequency in MHz.
pub open spec fn flag_freq() -> Seq<u8> {
    "-freq".spec_bytes()
}

/// The flag that asks for a proxy.
pub open spec fn flag_proxy() -> Seq<u8> {
    "-proxy".spec_bytes()
}

/// The token after which everything belongs to the application.
pub open spec fn separator() -> Seq<u8> {
    "--".spec_bytes()
}

/// The tokens as sequences of bytes.
pub open spec fn token_views(tokens: Seq<Vec<u8>>) -> Seq<Seq<u8>> {
    tokens.map_values(|token: Vec<u8>| token@)
}

/// Why a command line is refused.
#[derive(Clone, Copy, Debug, PartialEq, Eq, Structural)]
pub enum CommandLineError {
    /// `-freq` is the last token.
    MissingFrequency,
    /// What follows `-freq` is not a number of at most sixteen bits.
    InvalidFrequency,
}

/// What the command line says.
#[derive(Debug)]
pub struct CommandLine {
    /// The frequency in MHz given with `-freq`, or zero.
    pub cpu_frequency: u16,
    /// Whether `-proxy` was given.
    pub proxy: bool,
    /// The arguments of the application: what follows `--`.
    pub application: Option<Vec<Vec<u8>>>,
    /// The first token that is no flag: the path of the kernel.
    pub path: Option<Vec<u8>>,
    /// The tokens that were not understood, in order.
    pub ignored: Vec<Vec<u8>>,
}

/// The mathematical content of a `CommandLine`.
pub struct CommandLineView {
    pub cpu_frequency: u16,
    pub proxy: bool,
    pub application: Option<Seq<Seq<u8>>>,
    pub path: Option<Seq<u8>>,
    pub ignored: Seq<Seq<u8>>,
}

impl View for CommandLine {
    type V = CommandLineView;

    open spec fn view(&self) -> CommandLineView {
        CommandLineView {
            cpu_frequency: self.cpu_frequency,
            proxy: self.proxy,
            application: match self.application {
                Some(arguments) => Some(token_views(arguments@)),
                None => None,
            },
            path: match self.path {
                Some(path) => Some(path@),
                None => None,
            },
            ignored: token_views(self.ignored@),
        }
    }
}

/// What an empty command line says.
pub open spec fn empty_command_line() -> CommandLineView {
    CommandLineView {
        cpu_frequency: 0,
        proxy: false,
        application: None,
        path: None,
        ignored: Seq::empty(),
    }
}

/// What `tokens` add to what is known already, read from left to right.
pub open spec fn parse_tokens(tokens: Seq<Seq<u8>>, line: CommandLineView) -> Result<
    CommandLineView,
    CommandLineError,
>
    decreases tokens.len(),
{
    if tokens.len() == 0 {
        Ok(line)
    } else {
        let token = tokens[0];
        let rest = tokens.skip(1);
        if token == flag_freq() {
            if rest.len() == 0 {
                Err(CommandLineError::MissingFrequency)
            } else {
                match spec_parse_u16(rest[0]) {
                    Some(mhz) => parse_tokens(
                        rest.skip(1),
                        CommandLineView { cpu_frequency: mhz, ..line },
                    ),
                    None => Err(CommandLineError::InvalidFrequency),
                }
            }
        } else if token == flag_proxy() {
            parse_tokens(rest, CommandLineView { proxy: true, ..line })
        } else if token == separator() {
            Ok(CommandLineView { application: Some(rest), ..line })
        } else if line.path.is_none() {
            parse_tokens(rest, CommandLineView { path: Some(token), ..line })
        } else {
            parse_tokens(rest, CommandLineView { ignored: line.ignored.push(token), ..line })
        }
    }
}

/// Whether two texts are the same, byte for byte.
fn bytes_equal(left: &[u8], right: &[u8]) -> (same: bool)
    ensures
        same == (left@ == right@),
{
    if left.len() != right.len() {
        return false;
    }
    let mut i: usize = 0;
    while i < left.len()
        invariant
            i <= left.len(),
            left@.len() == right@.len(),
            forall|j: int| 0 <= j < i ==> left@[j] == right@[j],
        decreases left.len() - i,
    {
        if left[i] != right[i] {
            return false;
        }
        i += 1;
    }
    assert(left@ =~= right@);
    true
}

fn copy_token(token: &Vec<u8>) -> (copy: Vec<u8>)
    ensures
        copy@ == token@,
{
    let mut copy: Vec<u8> = Vec::new();
    let mut i: usize = 0;
    while i < token.len()
        invariant
            i <= token.len(),
            copy@ == token@.take(i as int),
        decreases token.len() - i,
    {
        copy.push(token[i]);
        assert(token@.take(i + 1) =~= token@.take(i as int).push(token@[i as int]));
        i += 1;
    }
    assert(token@.take(i as int) =~= token@);
    copy
}

fn copy_tokens_from(tokens: &Vec<Vec<u8>>, from: usize) -> (copy: Vec<Vec<u8>>)
    requires
        from <= tokens.len(),
    ensures
        token_views(copy@) == token_views(tokens@).skip(from as int),
{
    let mut copy: Vec<Vec<u8>> = Vec::new();
    let mut i: usize = from;
    while i < tokens.len()
        invariant
            from <= i <= tokens.len(),
            token_views(copy@) == token_views(tokens@).subrange(from as int, i as int),
        decreases tokens.len() - i,
    {
        let ghost before = copy@;
        let token = copy_token(&tokens[i]);
        copy.push(token);
        assert(token_views(copy@) =~= token_views(before).push(tokens@[i as int]@));
        assert(token_views(tokens@).subrange(from as int, i + 1) =~= token_views(
            tokens@,
        ).subrange(from as int, i as int).push(tokens@[i as int]@));
        i += 1;
    }
    assert(token_views(tokens@).subrange(from as int, i as int) =~= token_views(tokens@).skip(
        from as int,
    ));
    copy
}

/// Reads the tokens of a command line: `-freq` and a number of MHz,
/// `-proxy`, and `--` before the arguments of the application. The first
/// other token is the kernel's path; any further one is set aside.
pub fn parse_command_line(tokens: &Vec<Vec<u8>>) -> (result: Result<CommandLine, CommandLineError>)
    ensures
        match result {
            Ok(line) => parse_tokens(token_views(tokens@), empty_command_line()) == Ok::<
                CommandLineView,
                CommandLineError,
            >(line@),
            Err(error) => parse_tokens(token_views(tokens@), empty_command_line()) == Err::<
                CommandLineView,
                CommandLineError,
            >(error),
        },
{
    let mut line = CommandLine {
        cpu_frequency: 0,
        proxy: false,
        application: None,
        path: None,
        ignored: Vec::new(),
    };
    let ghost all = token_views(tokens@);
    assert(line@.ignored =~= Seq::<Seq<u8>>::empty());
    assert(all.skip(0) =~= all);
    let mut i: usize = 0;
    while i < tokens.len()
        invariant
            i <= tokens.len(),
            all == token_views(tokens@),
            line.application.is_none(),
            parse_tokens(all.skip(i as int), line@) == parse_tokens(all, empty_command_line()),
        decreases tokens.len() - i,
    {
        let token = &tokens[i];
        let ghost here = all.skip(i as int);
        assert(here[0] == token@);
        assert(here.skip(1) =~= all.skip(i + 1));
        if bytes_equal(token.as_slice(), "-freq".as_bytes()) {
            if i + 1 >= tokens.len() {
                return Err(CommandLineError::MissingFrequency);
            }
            assert(here.skip(1)[0] == tokens@[i + 1]@);
            assert(here.skip(1).skip(1) =~= all.skip(i + 2));
            match parse_u16(&tokens[i + 1]) {
                Some(mhz) => {
                    line.cpu_frequency = mhz;
                },
                None => {
                    return Err(CommandLineError::InvalidFrequency);
                },
            }
            i += 2;
        } else if bytes_equal(token.as_slice(), "-proxy".as_bytes()) {
            line.proxy = true;
            i += 1;
        } else if bytes_equal(token.as_slice(), "--".as_bytes()) {
            line.application = Some(copy_tokens_from(tokens, i + 1));
            return Ok(line);
        } else if line.path.is_none() {
            line.path = Some(copy_token(token));
            i += 1;
        } else {
            let ghost before = line.ignored@;
            line.ignored.push(copy_token(token));
            assert(token_views(line.ignored@) =~= token_views(before).push(token@));
            i += 1;
        }
    }
    assert(all.skip(i as int).len() == 0);
    Ok(line)
}

/// Where the tokenizer stands in a command line.
pub struct ScanState {
    /// The tokens that are complete.
    pub tokens: Seq<Seq<u8>>,
    /// The bytes of the token that is being read.
    pub current: Seq<u8>,
    /// The quote character that is open, if one is.
    pub quote: Option<u8>,
}

/// Whether `byte` is a single or a double quote.
pub open spec fn is_quote(byte: u8) -> bool {
    byte == 34 || byte == 39
}

/// The tokens with the one that is being read, unless that is empty.
pub open spec fn close_token(state: ScanState) -> Seq<Seq<u8>> {
    if state.current.len() > 0 {
        state.tokens.push(state.current)
    } else {
        state.tokens
    }
}

/// The tokenizer after one more byte. Inside quotes every byte but the
/// closing quote belongs to the token. Outside, a quote opens a quoted
/// stretch, the separator ends the token, and every other byte belongs to
/// the token. Quote characters are not part of a token, and a token
/// without bytes is none.
pub open spec fn scan_byte(state: ScanState, byte: u8, separator: u8) -> ScanState {
    match state.quote {
        Some(open) => if byte == open {
            ScanState { quote: None, ..state }
        } else {
            ScanState { current: state.current.push(byte), ..state }
        },
        None => if is_quote(byte) {
            ScanState { quote: Some(byte), ..state }
        } else if byte == separator {
            ScanState { tokens: close_token(state), current: Seq::empty(), quote: None }
        } else {
            ScanState { current: state.current.push(byte), ..state }
        },
    }
}

/// The tokenizer after all of `bytes`.
pub open spec fn scan(bytes: Seq<u8>, separator: u8) -> ScanState
    decreases bytes.len(),
{
    if bytes.len() == 0 {
        ScanState { tokens: Seq::empty(), current: Seq::empty(), quote: None }
    } else {
        scan_byte(scan(bytes.drop_last(), separator), bytes.last(), separator)
    }
}

/// The tokens of a command line.
pub open spec fn spec_tokenize(bytes: Seq<u8>, separator: u8) -> Seq<Seq<u8>> {
    close_token(scan(bytes, separator))
}

/// Splits a command line at the separator, but not within quotes.
pub fn tokenize(cmdline: &[u8], separator: u8) -> (tokens: Vec<Vec<u8>>)
    ensures
        token_views(tokens@) == spec_tokenize(cmdline@, separator),
{
    let mut tokens: Vec<Vec<u8>> = Vec::new();
    let mut current: Vec<u8> = Vec::new();
    let mut quote: Option<u8> = None;
    let mut i: usize = 0;
    assert(token_views(tokens@) =~= Seq::<Seq<u8>>::empty());
    assert(cmdline@.take(0) =~= Seq::<u8>::empty());
    while i < cmdline.len()
        invariant
            i <= cmdline.len(),
            scan(cmdline@.take(i as int), separator) == (ScanState {
                tokens: token_views(tokens@),
                current: current@,
                quote,
            }),
        decreases cmdline.len() - i,
    {
        let byte = cmdline[i];
        proof {
            let next = cmdline@.take(i + 1);
            assert(next.drop_last() =~= cmdline@.take(i as int));
            assert(next.last() == byte);
        }
        match quote {
            Some(open) => {
                if byte == open {
                    quote = None;
                } else {
                    current.push(byte);
                }
            },
            None => {
                if byte == 34 || byte == 39 {
                    quote = Some(byte);
                } else if byte == separator {
                    if current.len() > 0 {
                        let ghost before = tokens@;
                        let ghost token = current@;
                        tokens.push(current);
                        current = Vec::new();
                        assert(token_views(tokens@) =~= token_views(before).push(token));
                    }
                    assert(current@ =~= Seq::<u8>::empty());
                } else {
                    current.push(byte);
                }
            },
        }
        i += 1;
    }
    assert(cmdline@.take(i as int) =~= cmdline@);
    if current.len() > 0 {
        let ghost before = tokens@;
        let ghost token = current@;
        tokens.push(current);
        assert(token_views(tokens@) =~= token_views(before).push(token));
    }
    tokens
}

/// The kernel's environment.
#[derive(Debug)]
pub struct Environment {
    /// What the command line said.
    pub command_line: CommandLine,
    /// Whether the kernel talks to a proxy on the host.
    pub proxy: bool,
}

/// Whether a kernel with this record talks to a proxy: it does unless it
/// runs under the hypervisor or alone on the machine.
pub open spec fn spec_is_proxy(record: crate::boot_info::BootInfo) -> bool {
    !(record.spec_is_uhyve() || record.spec_is_single_kernel())
}

/// What the command line of `record` says, given its bytes: nothing if the
/// record has no command line, and else what its tokens say, which are
/// separated by spaces.
pub open spec fn spec_command_line(record: crate::boot_info::BootInfo, cmdline: Seq<u8>) -> Result<
    CommandLineView,
    CommandLineError,
> {
    if record.cmdsize as usize == 0 {
        Ok(empty_command_line())
    } else {
        parse_tokens(spec_tokenize(cmdline, 32), empty_command_line())
    }
}

/// Determines the environment from the bytes of the command line and the
/// hand-off record. Whether the kernel talks to a proxy follows from the
/// record alone, whatever the command line says.
pub fn init(record: &BootRecord, cmdline: &[u8]) -> (result: Result<
    Environment,
    CommandLineError,
>)
    ensures
        match result {
            Ok(environment) => spec_command_line(record@, cmdline@) == Ok::<
                CommandLineView,
                CommandLineError,
            >(environment.command_line@) && environment.proxy == spec_is_proxy(record@),
            Err(error) => spec_command_line(record@, cmdline@) == Err::<
                CommandLineView,
                CommandLineError,
            >(error),
        },
{
    let command_line = if crate::boot_info::get_cmdsize(record) == 0 {
        let line = CommandLine {
            cpu_frequency: 0,
            proxy: false,
            application: None,
            path: None,
            ignored: Vec::new(),
        };
        assert(line@.ignored =~= Seq::<Seq<u8>>::empty());
        line
    } else {
        let tokens = tokenize(cmdline, 32);
        match parse_command_line(&tokens) {
            Ok(line) => line,
            Err(error) => {
                return Err(error);
            },
        }
    };
    let proxy = !(is_uhyve(record) || is_single_kernel(record));
    Ok(Environment { command_line, proxy })
}

/// The arguments of the application: what followed `--` on the command line.
pub fn get_command_line_argv(environment: &Environment) -> (argv: Option<&Vec<Vec<u8>>>)
    ensures
        argv.is_some() == environment.command_line.application.is_some(),
        argv matches Some(arguments) ==> Some(*arguments) == environment.command_line.application,
{
    environment.command_line.application.as_ref()
}

/// The first token of the command line that was no flag.
pub fn get_command_line_path(environment: &Environment) -> (path: Option<&Vec<u8>>)
    ensures
        path.is_some() == environment.command_line.path.is_some(),
        path matches Some(p) ==> Some(*p) == environment.command_line.path,
{
    environment.command_line.path.as_ref()
}

/// The processor's frequency in MHz as given with `-freq`, or zero.
pub fn get_command_line_cpu_frequency(environment: &Environment) -> (mhz: u16)
    ensures
        mhz == environment.command_line.cpu_frequency,
{
    environment.command_line.cpu_frequency
}

/// Whether the kernel talks to a proxy on the host.
pub fn is_proxy(environment: &Environment) -> (proxy: bool)
    ensures
        proxy == environment.proxy,
{
    environment.proxy
}

} // verus!
