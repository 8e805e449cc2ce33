//! User-level information: coloured names of message levels.

use owo_colors::OwoColorize;
use vstd::prelude::*;

use crate::text::{lower, push_lower};

verus! {

/// Importance of a message, from the most to the least urgent.
#[derive(Clone, Copy, Debug, PartialEq, Eq, Structural)]
pub enum Level {
    /// Serious errors.
    Error,
    /// Hazardous situations.
    Warn,
    /// Useful information.
    Info,
    /// Lower priority information.
    Debug,
    /// Very low priority, often extremely verbose, information.
    Trace,
}

/// The name that `log` gives a level.
pub open spec fn level_name(level: Level) -> Seq<char> {
    match level {
        Level::Error => seq!['E', 'R', 'R', 'O', 'R'],
        Level::Warn => seq!['W', 'A', 'R', 'N'],
        Level::Info => seq!['I', 'N', 'F', 'O'],
        Level::Debug => seq!['D', 'E', 'B', 'U', 'G'],
        Level::Trace => seq!['T', 'R', 'A', 'C', 'E'],
    }
}

/// The escape sequence that starts a foreground colour: `ESC [ code m`.
pub open spec fn fg(code: Seq<char>) -> Seq<char> {
    seq!['\x1b', '['] + code + seq!['m']
}

/// `s` in the foreground colour of the given code, which is reset after it.
pub open spec fn painted(code: Seq<char>, s: Seq<char>) -> Seq<char> {
    fg(code) + s + seq!['\x1b', '[', '3', '9', 'm']
}

/// `s` in bold, with every style reset after it.
pub open spec fn emboldened(s: Seq<char>) -> Seq<char> {
    seq!['\x1b', '[', '1', 'm'] + s + seq!['\x1b', '[', '0', 'm']
}

/// How a level tells itself: its name in lower case, in red and bold for
/// errors, yellow for warnings, green for information, blue for debugging
/// and magenta for tracing.
pub open spec fn told(level: Level) -> Seq<char> {
    let name = lower(level_name(level));
    match level {
        Level::Error => emboldened(painted(seq!['3', '1'], name)),
        Level::Warn => painted(seq!['3', '3'], name),
        Level::Info => painted(seq!['3', '2'], name),
        Level::Debug => painted(seq!['3', '4'], name),
        Level::Trace => painted(seq!['3', '5'], name),
    }
}

/// The name of a level.
///
/// Trusted: `log::Level::as_str`, which the source of `log` gives as the
/// upper-case names `ERROR`, `WARN`, `INFO`, `DEBUG` and `TRACE`.
#[verifier::external_body]
fn name_of(level: Level) -> (r: &'static str)
    ensures
        r@ == level_name(level),
{
    match level {
        Level::Error => log::Level::Error,
        Level::Warn => log::Level::Warn,
        Level::Info => log::Level::Info,
        Level::Debug => log::Level::Debug,
        Level::Trace => log::Level::Trace,
    }.as_str()
}

/// `s` in red.
///
/// Trusted: `OwoColorize::red` displayed, which the source of `owo-colors`
/// writes as `ESC[31m`, then `s`, then `ESC[39m`.
#[verifier::external_body]
fn red(s: &str) -> (r: String)
    ensures
        r@ == painted(seq!['3', '1'], s@),
{
    s.red().to_string()
}

/// `s` in yellow.
///
/// Trusted: `OwoColorize::yellow` displayed, which the source of `owo-colors`
/// writes as `ESC[33m`, then `s`, then `ESC[39m`.
#[verifier::external_body]
fn yellow(s: &str) -> (r: String)
    ensures
        r@ == painted(seq!['3', '3'], s@),
{
    s.yellow().to_string()
}

/// `s` in green.
///
/// Trusted: `OwoColorize::green` displayed, which the source of `owo-colors`
/// writes as `ESC[32m`, then `s`, then `ESC[39m`.
#[verifier::external_body]
fn green(s: &str) -> (r: String)
    ensures
        r@ == painted(seq!['3', '2'], s@),
{
    s.green().to_string()
}

/// `s` in blue.
///
/// Trusted: `OwoColorize::blue` displayed, which the source of `owo-colors`
/// writes as `ESC[34m`, then `s`, then `ESC[39m`.
#[verifier::external_body]
fn blue(s: &str) -> (r: String)
    ensures
        r@ == painted(seq!['3', '4'], s@),
{
    s.blue().to_string()
}

/// `s` in magenta.
///
/// Trusted: `OwoColorize::magenta` displayed, which the source of
/// `owo-colors` writes as `ESC[35m`, then `s`, then `ESC[39m`.
#[verifier::external_body]
fn magenta(s: &str) -> (r: String)
    ensures
        r@ == painted(seq!['3', '5'], s@),
{
    s.magenta().to_string()
}

/// `s` in bold.
///
/// Trusted: `OwoColorize::bold` displayed, which the source of `owo-colors`
/// writes as `ESC[1m`, then `s`, then `ESC[0m`.
#[verifier::external_body]
fn bold(s: &str) -> (r: String)
    ensures
        r@ == emboldened(s@),
{
    s.bold().to_string()
}

/// Seals [`Tell`] to the types of this module.
pub trait Sealed {}

impl Sealed for Level {}

/// Sealed trait providing a colored representation for [`Level`].
pub trait Tell: Sealed {
    /// Converts the given value to a [`String`].
    fn to_string(&self) -> String;
}

impl Tell for Level {
    fn to_string(&self) -> (r: String)
        ensures
            r@ == told(*self),
    {
        let mut name = String::new();
        push_lower(&mut name, name_of(*self));
        match self {
            Level::Error => bold(red(name.as_str()).as_str()),
            Level::Warn => yellow(name.as_str()),
            Level::Info => green(name.as_str()),
            Level::Debug => blue(name.as_str()),
            Level::Trace => magenta(name.as_str()),
        }
    }
}

} // verus!
