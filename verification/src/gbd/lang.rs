//! Debugger language values.

use vstd::prelude::*;

verus! {

/// Debugger keywords.
#[derive(Clone, Copy, Debug, PartialEq, Eq, Structural)]
pub enum Keyword {
    /// Game Boy Debugger.
    ///
    /// COMMANDS:
    /// - `break`,     `br`,   `b`: Set a breakpoint.
    /// - `capture`,   `ps`       : Capture a screenshot.
    /// - `continue`,  `cont`, `c`: Continue execution.
    /// - `delete`,    `del`      : Delete a breakpoint.
    /// - `disable`,   `dis`,  `d`: Disable a breakpoint.
    /// - `enable`,    `en`,   `e`: Enable a breakpoint.
    /// - `frequency`, `freq`, `f`: Change the step unit.
    /// - `goto`,      `go`,   `g`: Goto an address.
    /// - `help`,              `h`: Print help.
    /// - `ignore`,    `ig`       : Ignore a breakpoint.
    /// - `info`,              `i`: Print debugger info.
    /// - `jump`,      `jp`,   `j`: Jump and continue.
    /// - `list`,      `ls`,   `l`: List the current instruction.
    /// - `load`,      `ld`       : Load from a register.
    /// - `log`,       `lo`       : Change the logging level.
    /// - `quit`,              `q`: Quit the program.
    /// - `read`,      `rd`,   `r`: Read from an address.
    /// - `reset`,     `res`      : Reset the console.
    /// - `serial`,    `sx`       : Perform serial I/O.
    /// - `step`,              `s`: Execute a single step.
    /// - `store`,     `sr`       : Store to a register.
    /// - `write`,     `wr`,   `w`: Write to an address.
    ///
    /// Use `help` for more information about how to use a command.
    All,
    /// `break <ADDRESS>`
    ///
    /// Set a breakpoint at the specified location.
    ///
    /// Note that due to the SM83 CPU supporting multi-byte instructions, there
    /// is a chance that the specified breakpoint will not occur upon an
    /// instruction boundary. When this occurs, the breakpoint will NOT trigger.
    ///
    /// Aliases: `br`, `b`
    Break,
    /// `capture[!] <PATH>`
    ///
    /// Capture and save a screenshot to the provided path.
    ///
    /// Screenshots are saved as a PNG formatted image. The filename may be
    /// modified to include the "png" extension as needed.
    ///
    /// To forcefully overwrite the file at the selected path, pass the `!`
    /// argument.
    ///
    /// Aliases: `ps`
    Capture,
    /// `continue`
    ///
    /// Continue program execution.
    ///
    /// Execution will continue until the next SIGINT signal (triggered most
    /// commonly by supplying CTRL-C) is sent, or the executing program reaches a
    /// breakpoint.
    ///
    /// Aliases: `cont`, `c`
    Continue,
    /// `delete <BREAKPOINT>`
    ///
    /// Delete the breakpoint at the provided index.
    ///
    /// Note that breakpoint indices are generally not reused (monotonically
    /// increasing), however, if another breakpoint is later created at the
    /// address associated with a deleted breakpoint, the index will be restored.
    ///
    /// Aliases: `del`
    Delete,
    /// `disable <BREAKPOINT>`
    ///
    /// Disable the breakpoint at the provided index, preventing it from pausing
    /// execution when reached.
    ///
    /// Aliases: `dis`, `d`
    Disable,
    /// `enable <BREAKPOINT>`
    ///
    /// Enable the breakpoint at the provided index, causing it to pause
    /// execution when reached.
    ///
    /// Aliases: `en`, `e`
    Enable,
    /// `frequency [TICK]`
    ///
    /// Set the debugger's step frequency.
    ///
    /// `TICK` must be one of:
    /// - `d`, `dot`:   True system clock, notably used by the PPU; occurs at a
    ///                frequency of 4 MiHz.
    /// - `m`, `mach`:  Default frequency, used by CPU; always exactly 4 dots.
    /// - `i`, `insn`:  Variable frequency, equal to the duration of the current
    ///                instruction; always 1-6 machine cycles.
    /// - `l`, `line`:  Duration to draw one line of the LCD display; always
    ///                exactly 456 dots.
    /// - `f`, `frame`: Duration to draw an entire frame of the LCD display;
    ///                always exactly 154 scanlines.
    ///
    /// Aliases: `freq`, `f`
    ///
    /// See also: `step`
    Freq,
    /// `goto <ADDRESS>`
    ///
    /// Set the PC to the specified address without continuing execution.
    ///
    /// Note that if the current instruction has already been fetched, it will
    /// complete execution at the specified address. This has the consequence of
    /// potentially reading incorrect data if the executing instruction performs
    /// a fetch.
    ///
    /// Aliases: `go`, `g`
    ///
    /// Alias of: `store pc <ADDRESS>`
    ///
    /// See also: `jump`
    Goto,
    /// `help [COMMAND]`
    ///
    /// Print help for the provided command.
    ///
    /// Aliases: `h`
    Help,
    /// `ignore <BREAKPOINT> <COUNT>`
    ///
    /// Ignore the next `COUNT` crossings of the breakpoint at the specified
    /// index.
    ///
    /// Aliases: `ig`
    Ignore,
    /// `info [KEYWORD]`
    ///
    /// Print info about the debugger's state.
    ///
    /// Currently only supports breakpoints, with the `break` keyword.
    ///
    /// Aliases: `i`
    Info,
    /// `jump <ADDRESS>`
    ///
    /// Set the PC to the specified address and continue execution.
    ///
    /// Note that if the current instruction has already been fetched, it will
    /// complete execution at the specified address. This has the consequence of
    /// potentially reading incorrect data if the executing instruction performs
    /// a fetch.
    ///
    /// Aliases: `jp`, `j`
    Jump,
    /// `list`
    ///
    /// Print the instruction currently being executed.
    ///
    /// If no instruction is being executed, decode and print the instruction at
    /// the current value of the PC.
    ///
    /// Aliases: `ls`, `l`
    ///
    /// See also: `goto`
    List,
    /// `load <REGISTER...>`
    ///
    /// Load the value of the specified register(s) and print.
    ///
    /// If specified using the special `lb` or `lw` alias, the specified resister
    /// must be either byte or word size respectively.
    ///
    /// Valid 8-bit (byte) registers are:
    /// - CPU: A, F, B, C, D, E, H, L
    /// - PPU: LCDC, STAT, SCY, SCX, LYC, LY, DMA, BGP, OBP0, OBP1, WY, WX
    /// - Timer: DIV, TIMA, TMA, TAC
    ///
    /// Valid 16-bit (word) registers are:
    /// - CPU: AF, BC, DE, HL, SP, PC
    ///
    /// Aliases: `ld`
    /// Special: `lb`, `lw`
    ///
    /// See also: `store`
    Load,
    /// `log [FILTER]`
    ///
    /// Print or change the current logging level filter.
    ///
    /// See the format specified by the `env_logger` crate for more details.
    ///
    /// Aliases: `lo`
    Log,
    /// `quit`
    ///
    /// Quit the program, closing the program.
    ///
    /// Aliases: `q`
    Quit,
    /// `read <ADDRESS | RANGE>`
    ///
    /// Read the byte(s) at the specified address or range and print.
    ///
    /// Ranges can be specified as one of the following (Rust semantics):
    /// - `A..B`: Exclusive on the right
    /// - `A..=B`: Inclusive
    ///
    /// Note that either or both of the left and right bounds can be omitted to
    /// imply the start or end of memory. If the left is larger than the right,
    /// the read will overflow, wrapping around.
    ///
    /// Aliases: `rd`, `r`
    ///
    /// See also: `write`
    Read,
    /// `reset`
    ///
    /// Reset the console, equivalent to cycling the power switch.
    ///
    /// Aliases: `res`
    Reset,
    /// `serial[!] [DATA]`
    ///
    /// Receive or transmit data with the serial port.
    ///
    /// Serial data is received or transmitted depending on if the `DATA`
    /// argument is present. To drain the received data buffer, pass the `!`
    /// argument.
    ///
    /// Transmitted data must be provided in one of the following forms:
    /// - Buffer: A byte array, e.g. `[0x44, 0x61, 0x74, 0x61]`
    /// - String: ASCII string, e.g. `"Hello, world!"`
    ///
    /// Aliases: `sx`
    Serial,
    /// `step [COUNT]`
    ///
    /// Execute a (or many) steps of the debugger at the specified frequency.
    ///
    /// Aliases: `s`
    ///
    /// See also: `freq`
    Step,
    /// `store <REGISTER...> <VALUE>`
    ///
    /// Store a value to the specified register(s) and print.
    ///
    /// If specified using the special `sb` or `sw` alias, the specified resister
    /// must be either byte or word size respectively.
    ///
    /// Valid 8-bit (byte) registers are:
    /// - CPU: A, F, B, C, D, E, H, L
    /// - PPU: LCDC, STAT, SCY, SCX, LYC, LY, DMA, BGP, OBP0, OBP1, WY, WX
    /// - Timer: DIV, TIMA, TMA, TAC
    ///
    /// Valid 16-bit (word) registers are:
    /// - CPU: AF, BC, DE, HL, SP, PC
    ///
    /// Aliases: `sr`
    /// Special: `sb`, `sw`
    ///
    /// See also: `load`
    Store,
    /// `write <ADDRESS | RANGE> <BYTE>`
    ///
    /// Write a byte to the specified address or range.
    ///
    /// When writing to a range, the byte is repeated for each address within the
    /// range.
    ///
    /// Ranges can be specified as one of the following (Rust semantics):
    /// - `A..B`: Exclusive on the right
    /// - `A..=B`: Inclusive
    ///
    /// Note that either or both of the left and right bounds can be omitted to
    /// imply the start or end of memory. If the left is larger than the right,
    /// the write will overflow, wrapping around.
    ///
    /// Aliases: `wr`, `w`
    ///
    /// See also: `read`
    Write,
}

/// Help text of [`Keyword::All`].
pub const HELP_ALL: &'static str = "Game Boy Debugger.\n\nCOMMANDS:\n* `break`,     `br`,   `b`: Set a breakpoint.\n* `capture`,   `ps`       : Capture a screenshot.\n* `continue`,  `cont`, `c`: Continue execution.\n* `delete`,    `del`      : Delete a breakpoint.\n* `disable`,   `dis`,  `d`: Disable a breakpoint.\n* `enable`,    `en`,   `e`: Enable a breakpoint.\n* `frequency`, `freq`, `f`: Change the step unit.\n* `goto`,      `go`,   `g`: Goto an address.\n* `help`,              `h`: Print help.\n* `ignore`,    `ig`       : Ignore a breakpoint.\n* `info`,              `i`: Print debugger info.\n* `jump`,      `jp`,   `j`: Jump and continue.\n* `list`,      `ls`,   `l`: List the current instruction.\n* `load`,      `ld`       : Load from a register.\n* `log`,       `lo`       : Change the logging level.\n* `quit`,              `q`: Quit the program.\n* `read`,      `rd`,   `r`: Read from an address.\n* `reset`,     `res`      : Reset the console.\n* `serial`,    `sx`       : Perform serial I/O.\n* `step`,              `s`: Execute a single step.\n* `store`,     `sr`       : Store to a register.\n* `write`,     `wr`,   `w`: Write to an address.\n\nUse `help` for more information about how to use a command.";

/// Help text of [`Keyword::Break`].
pub const HELP_BREAK: &'static str = "`break <ADDRESS>`\n\nSet a breakpoint at the specified location.\n\nNote that due to the SM83 CPU supporting multi-byte instructions, there\nis a chance that the specified breakpoint will not occur upon an\ninstruction boundary. When this occurs, the breakpoint will NOT trigger.\n\nAliases: `br`, `b`";

/// Help text of [`Keyword::Capture`].
pub const HELP_CAPTURE: &'static str = "`capture[!] <PATH>`\n\nCapture and save a screenshot to the provided path.\n\nScreenshots are saved as a PNG formatted image. The filename may be\nmodified to include the \"png\" extension as needed.\n\nTo forcefully overwrite the file at the selected path, pass the `!`\nargument.\n\nAliases: `ps`";

/// Help text of [`Keyword::Continue`].
pub const HELP_CONTINUE: &'static str = "`continue`\n\nContinue program execution.\n\nExecution will continue until the next SIGINT signal (triggered most\ncommonly by supplying CTRL-C) is sent, or the executing program reaches a\nbreakpoint.\n\nAliases: `cont`, `c`";

/// Help text of [`Keyword::Delete`].
pub const HELP_DELETE: &'static str = "`delete <BREAKPOINT>`\n\nDelete the breakpoint at the provided index.\n\nNote that breakpoint indices are generally not reused (monotonically\nincreasing), however, if another breakpoint is later created at the\naddress associated with a deleted breakpoint, the index will be restored.\n\nAliases: `del`";

/// Help text of [`Keyword::Disable`].
pub const HELP_DISABLE: &'static str = "`disable <BREAKPOINT>`\n\nDisable the breakpoint at the provided index, preventing it from pausing\nexecution when reached.\n\nAliases: `dis`, `d`";

/// Help text of [`Keyword::Enable`].
pub const HELP_ENABLE: &'static str = "`enable <BREAKPOINT>`\n\nEnable the breakpoint at the provided index, causing it to pause\nexecution when reached.\n\nAliases: `en`, `e`";

/// Help text of [`Keyword::Freq`].
pub const HELP_FREQ: &'static str = "`frequency [TICK]`\n\nSet the debugger's step frequency.\n\n`TICK` must be one of:\n* `d`, `dot`:   True system clock, notably used by the PPU; occurs at a\n                frequency of 4 MiHz.\n* `m`, `mach`:  Default frequency, used by CPU; always exactly 4 dots.\n* `i`, `insn`:  Variable frequency, equal to the duration of the current\n                instruction; always 1-6 machine cycles.\n* `l`, `line`:  Duration to draw one line of the LCD display; always\n                exactly 456 dots.\n* `f`, `frame`: Duration to draw an entire frame of the LCD display;\n                always exactly 154 scanlines.\n\nAliases: `freq`, `f`\n\nSee also: `step`";

/// Help text of [`Keyword::Goto`].
pub const HELP_GOTO: &'static str = "`goto <ADDRESS>`\n\nSet the PC to the specified address without continuing execution.\n\nNote that if the current instruction has already been fetched, it will\ncomplete execution at the specified address. This has the consequence of\npotentially reading incorrect data if the executing instruction performs\na fetch.\n\nAliases: `go`, `g`\n\nAlias of: `store pc <ADDRESS>`\n\nSee also: `jump`";

/// Help text of [`Keyword::Help`].
pub const HELP_HELP: &'static str = "`help [COMMAND]`\n\nPrint help for the provided command.\n\nAliases: `h`";

/// Help text of [`Keyword::Ignore`].
pub const HELP_IGNORE: &'static str = "`ignore <BREAKPOINT> <COUNT>`\n\nIgnore the next `COUNT` crossings of the breakpoint at the specified\nindex.\n\nAliases: `ig`";

/// Help text of [`Keyword::Info`].
pub const HELP_INFO: &'static str = "`info [KEYWORD]`\n\nPrint info about the debugger's state.\n\nCurrently only supports breakpoints, with the `break` keyword.\n\nAliases: `i`";

/// Help text of [`Keyword::Jump`].
pub const HELP_JUMP: &'static str = "`jump <ADDRESS>`\n\nSet the PC to the specified address and continue execution.\n\nNote that if the current instruction has already been fetched, it will\ncomplete execution at the specified address. This has the consequence of\npotentially reading incorrect data if the executing instruction performs\na fetch.\n\nAliases: `jp`, `j`";

/// Help text of [`Keyword::List`].
pub const HELP_LIST: &'static str = "`list`\n\nPrint the instruction currently being executed.\n\nIf no instruction is being executed, decode and print the instruction at\nthe current value of the PC.\n\nAliases: `ls`, `l`\n\nSee also: `goto`";

/// Help text of [`Keyword::Load`].
pub const HELP_LOAD: &'static str = "`load <REGISTER...>`\n\nLoad the value of the specified register(s) and print.\n\nIf specified using the special `lb` or `lw` alias, the specified resister\nmust be either byte or word size respectively.\n\nValid 8-bit (byte) registers are:\n* CPU: A, F, B, C, D, E, H, L\n* PPU: LCDC, STAT, SCY, SCX, LYC, LY, DMA, BGP, OBP0, OBP1, WY, WX\n* Timer: DIV, TIMA, TMA, TAC\n\nValid 16-bit (word) registers are:\n* CPU: AF, BC, DE, HL, SP, PC\n\nAliases: `ld`\nSpecial: `lb`, `lw`\n\nSee also: `store`";

/// Help text of [`Keyword::Log`].
pub const HELP_LOG: &'static str = "`log [FILTER]`\n\nPrint or change the current logging level filter.\n\nSee the format specified by the `env_logger` crate for more details.\n\nAliases: `lo`";

/// Help text of [`Keyword::Quit`].
pub const HELP_QUIT: &'static str = "`quit`\n\nQuit the program, closing the program.\n\nAliases: `q`";

/// Help text of [`Keyword::Read`].
pub const HELP_READ: &'static str = "`read <ADDRESS | RANGE>`\n\nRead the byte(s) at the specified address or range and print.\n\nRanges can be specified as one of the following (Rust semantics):\n* `A..B`: Exclusive on the right\n* `A..=B`: Inclusive\n\nNote that either or both of the left and right bounds can be omitted to\nimply the start or end of memory. If the left is larger than the right,\nthe read will overflow, wrapping around.\n\nAliases: `rd`, `r`\n\nSee also: `write`";

/// Help text of [`Keyword::Reset`].
pub const HELP_RESET: &'static str = "`reset`\n\nReset the console, equivalent to cycling the power switch.\n\nAliases: `res`";

/// Help text of [`Keyword::Serial`].
pub const HELP_SERIAL: &'static str = "`serial[!] [DATA]`\n\nReceive or transmit data with the serial port.\n\nSerial data is received or transmitted depending on if the `DATA`\nargument is present. To drain the received data buffer, pass the `!`\nargument.\n\nTransmitted data must be provided in one of the following forms:\n* Buffer: A byte array, e.g. `[0x44, 0x61, 0x74, 0x61]`\n* String: ASCII string, e.g. `\"Hello, world!\"`\n\nAliases: `sx`";

/// Help text of [`Keyword::Step`].
pub const HELP_STEP: &'static str = "`step [COUNT]`\n\nExecute a (or many) steps of the debugger at the specified frequency.\n\nAliases: `s`\n\nSee also: `freq`";

/// Help text of [`Keyword::Store`].
pub const HELP_STORE: &'static str = "`store <REGISTER...> <VALUE>`\n\nStore a value to the specified register(s) and print.\n\nIf specified using the special `sb` or `sw` alias, the specified resister\nmust be either byte or word size respectively.\n\nValid 8-bit (byte) registers are:\n* CPU: A, F, B, C, D, E, H, L\n* PPU: LCDC, STAT, SCY, SCX, LYC, LY, DMA, BGP, OBP0, OBP1, WY, WX\n* Timer: DIV, TIMA, TMA, TAC\n\nValid 16-bit (word) registers are:\n* CPU: AF, BC, DE, HL, SP, PC\n\nAliases: `sr`\nSpecial: `sb`, `sw`\n\nSee also: `load`";

/// Help text of [`Keyword::Write`].
pub const HELP_WRITE: &'static str = "`write <ADDRESS | RANGE> <BYTE>`\n\nWrite a byte to the specified address or range.\n\nWhen writing to a range, the byte is repeated for each address within the\nrange.\n\nRanges can be specified as one of the following (Rust semantics):\n* `A..B`: Exclusive on the right\n* `A..=B`: Inclusive\n\nNote that either or both of the left and right bounds can be omitted to\nimply the start or end of memory. If the left is larger than the right,\nthe write will overflow, wrapping around.\n\nAliases: `wr`, `w`\n\nSee also: `read`";

/// The help text of a keyword: its command's usage, what it does and its
/// aliases; for [`Keyword::All`], the list of commands.
pub open spec fn keyword_help(k: Keyword) -> &'static str {
    match k {
        Keyword::All => HELP_ALL,
        Keyword::Break => HELP_BREAK,
        Keyword::Capture => HELP_CAPTURE,
        Keyword::Continue => HELP_CONTINUE,
        Keyword::Delete => HELP_DELETE,
        Keyword::Disable => HELP_DISABLE,
        Keyword::Enable => HELP_ENABLE,
        Keyword::Freq => HELP_FREQ,
        Keyword::Goto => HELP_GOTO,
        Keyword::Help => HELP_HELP,
        Keyword::Ignore => HELP_IGNORE,
        Keyword::Info => HELP_INFO,
        Keyword::Jump => HELP_JUMP,
        Keyword::List => HELP_LIST,
        Keyword::Load => HELP_LOAD,
        Keyword::Log => HELP_LOG,
        Keyword::Quit => HELP_QUIT,
        Keyword::Read => HELP_READ,
        Keyword::Reset => HELP_RESET,
        Keyword::Serial => HELP_SERIAL,
        Keyword::Step => HELP_STEP,
        Keyword::Store => HELP_STORE,
        Keyword::Write => HELP_WRITE,
    }
}

impl Keyword {
    /// The help text of the keyword.
    pub fn help(&self) -> (r: &'static str)
        ensures
            r@ == keyword_help(*self)@,
    {
        match self {
            Keyword::All => HELP_ALL,
            Keyword::Break => HELP_BREAK,
            Keyword::Capture => HELP_CAPTURE,
            Keyword::Continue => HELP_CONTINUE,
            Keyword::Delete => HELP_DELETE,
            Keyword::Disable => HELP_DISABLE,
            Keyword::Enable => HELP_ENABLE,
            Keyword::Freq => HELP_FREQ,
            Keyword::Goto => HELP_GOTO,
            Keyword::Help => HELP_HELP,
            Keyword::Ignore => HELP_IGNORE,
            Keyword::Info => HELP_INFO,
            Keyword::Jump => HELP_JUMP,
            Keyword::List => HELP_LIST,
            Keyword::Load => HELP_LOAD,
            Keyword::Log => HELP_LOG,
            Keyword::Quit => HELP_QUIT,
            Keyword::Read => HELP_READ,
            Keyword::Reset => HELP_RESET,
            Keyword::Serial => HELP_SERIAL,
            Keyword::Step => HELP_STEP,
            Keyword::Store => HELP_STORE,
            Keyword::Write => HELP_WRITE,
        }
    }
}

/// A value to store to a register.
#[derive(Clone, Copy, Debug, PartialEq, Eq, Structural)]
pub enum Value {
    /// An 8-bit value.
    Byte(u8),
    /// A 16-bit value.
    Word(u16),
}

/// A serial port operation.
#[derive(Clone, Debug)]
pub enum Serial {
    /// Look at the received data, keeping it.
    Peek,
    /// Drain the received data.
    Recv,
    /// Transmit the data.
    Send(Vec<u8>),
}

} // verus!
