//! Game Boy Debugger (GBD): the decisions of the interactive debugger.
//!
//! The debugger follows the console cycle by cycle. On each edge of its step
//! unit it decides whether to take control: when its step count has run out,
//! or at an enabled breakpoint whose crossings are no longer ignored.

pub mod lang;
pub mod points;
pub mod session;

use vstd::prelude::*;

use self::points::{
    distinct, entries, law_put, lemma_place, lemma_place_unique, place, put, table_get, table_get_index, table_insert, table_len,
    table_new, value_at, Breakpoint, Table,
};
use crate::text::{dec_str, hex_str, pad_front, push_dec, push_hex_padded, push_str};

verus! {

/// Debugger progress unit.
#[derive(Clone, Copy, Debug, PartialEq, Eq, Structural)]
pub enum Tick {
    /// T-stage.
    ///
    /// True system clock notably used by the PPU; occurs at a frequency of 4
    /// MiHz.
    Dot,
    /// M-cycle.
    ///
    /// Basic clock for the CPU; always exactly 4 [dots][`Tick::Dot`].
    Mach,
    /// Instruction.
    ///
    /// Equal to the duration of the current instruction; always 1-6
    /// [M-cycles][`Tick::Mach`].
    Insn,
    /// Scanline.
    ///
    /// Duration to draw one line of the LCD display; always exactly 456
    /// [dots][`Tick::Dot`].
    Line,
    /// Frame.
    ///
    /// Duration to draw an entire frame of the LCD display; always exactly 154
    /// [scanlines][`Tick::Line`] (due to 10 extra v-blank scanlines).
    Frame,
}

/// The name of a unit.
pub open spec fn tick_name(tick: Tick) -> Seq<char> {
    match tick {
        Tick::Dot => seq!['d', 'o', 't'],
        Tick::Mach => seq!['m', 'a', 'c', 'h'],
        Tick::Insn => seq!['i', 'n', 's', 't', 'r', 'u', 'c', 't', 'i', 'o', 'n'],
        Tick::Line => seq!['s', 'c', 'a', 'n', 'l', 'i', 'n', 'e'],
        Tick::Frame => seq!['f', 'r', 'a', 'm', 'e'],
    }
}

impl Default for Tick {
    fn default() -> (r: Self)
        ensures
            r == Tick::Mach,
    {
        Tick::Mach
    }
}

impl Tick {
    /// The name of the unit.
    pub fn to_string(&self) -> (r: String)
        ensures
            r@ == tick_name(*self),
    {
        let mut r = String::new();
        match self {
            Tick::Dot => push_str(&mut r, "dot"),
            Tick::Mach => push_str(&mut r, "mach"),
            Tick::Insn => push_str(&mut r, "instruction"),
            Tick::Line => push_str(&mut r, "scanline"),
            Tick::Frame => push_str(&mut r, "frame"),
        }
        proof {
            reveal_strlit("dot");
            reveal_strlit("mach");
            reveal_strlit("instruction");
            reveal_strlit("scanline");
            reveal_strlit("frame");
        }
        assert(r@ =~= tick_name(*self));
        r
    }
}

/// How a breakpoint is described: its number and address, then whether it
/// is disabled or how many crossings it will ignore.
pub open spec fn described(bpt: Breakpoint, point: usize, addr: u16) -> Seq<char> {
    let head = seq!['b', 'r', 'e', 'a', 'k', 'p', 'o', 'i', 'n', 't', ' '] + dec_str(point as nat)
        + seq![' ', '@', ' ', '$'] + pad_front(hex_str(addr as nat), 4, '0');
    if bpt.disable {
        head + seq![':', ' ', 'd', 'i', 's', 'a', 'b', 'l', 'e', 'd']
    } else if bpt.ignore > 0 {
        head + seq![':', ' ', 'w', 'i', 'l', 'l', ' ', 'i', 'g', 'n', 'o', 'r', 'e', ' ', 'n', 'e', 'x', 't', ' ']
            + dec_str(bpt.ignore as nat) + seq![' ', 'c', 'r', 'o', 's', 's', 'i', 'n', 'g', 's']
    } else {
        head
    }
}

impl Breakpoint {
    /// Describes the breakpoint numbered `point` at `addr`.
    pub fn display(&self, point: usize, addr: u16) -> (r: String)
        ensures
            r@ == described(*self, point, addr),
    {
        proof {
            reveal_strlit("breakpoint ");
            reveal_strlit(" @ $");
            reveal_strlit(": disabled");
            reveal_strlit(": will ignore next ");
            reveal_strlit(" crossings");
        }
        let mut f = String::new();
        push_str(&mut f, "breakpoint ");
        push_dec(&mut f, point as u64);
        push_str(&mut f, " @ $");
        push_hex_padded(&mut f, addr as u64, 4);
        if self.disable {
            push_str(&mut f, ": disabled");
        } else if self.ignore > 0 {
            push_str(&mut f, ": will ignore next ");
            push_dec(&mut f, self.ignore as u64);
            push_str(&mut f, " crossings");
        }
        assert(f@ =~= described(*self, point, addr));
        f
    }
}

/// Handle for logger filter.
///
/// Provides a [getter](Self::get) and [setter](Self::set) to inspect and change
/// the logging filter.
pub trait Filter {
    /// Inspect the logging filter.
    fn get(&self) -> &str;

    /// Changes the logging filter.
    fn set(&mut self, filter: String);
}

/// An error caused by a debugger command.
#[derive(Clone, Copy, Debug, PartialEq, Eq, Structural)]
pub enum Error {
    /// Requested breakpoint could not be found.
    Breakpoint,
}

/// Model of the debugger.
pub struct DebuggerView {
    /// Cycles since the last reset.
    pub cycle: usize,
    /// The console's program counter.
    pub pc: u16,
    /// Whether the console's CPU has completed an instruction.
    pub done: bool,
    /// The PPU's dot within its scanline.
    pub dot: u16,
    /// The PPU's scanline.
    pub ly: u8,
    /// Whether the console is running.
    pub play: bool,
    /// The step unit.
    pub freq: Tick,
    /// Edges left to step over, if stepping.
    pub step: Option<usize>,
    /// The breakpoint table.
    pub bpts: Seq<(u16, Option<Breakpoint>)>,
}

/// Interactive debugger state.
#[derive(Debug)]
pub struct Debugger {
    cycle: usize,
    pc: u16,
    done: bool,
    dot: u16,
    ly: u8,
    play: bool,
    freq: Tick,
    step: Option<usize>,
    bpts: Table,
}

impl View for Debugger {
    type V = DebuggerView;

    closed spec fn view(&self) -> DebuggerView {
        DebuggerView {
            cycle: self.cycle,
            pc: self.pc,
            done: self.done,
            dot: self.dot,
            ly: self.ly,
            play: self.play,
            freq: self.freq,
            step: self.step,
            bpts: entries(self.bpts),
        }
    }
}

/// Whether the cycle of `d` is an edge of its step unit: every dot, every
/// fourth dot for machine cycles, such a dot that also completes an
/// instruction, the first dot of a scanline, or of a frame.
pub open spec fn is_edge(d: DebuggerView) -> bool {
    match d.freq {
        Tick::Dot => true,
        Tick::Mach => d.cycle % 4 == 0,
        Tick::Insn => d.cycle % 4 == 0 && d.done,
        Tick::Line => d.dot == 0,
        Tick::Frame => d.dot == 0 && d.ly == 0,
    }
}

/// Whether the breakpoint table of `d` stops the console at its program
/// counter: an enabled breakpoint there ignores no more crossings.
pub open spec fn at_breakpoint(d: DebuggerView) -> bool {
    match value_at(d.bpts, d.pc) {
        Some(Some(bpt)) => !bpt.disable && bpt.ignore == 0,
        _ => false,
    }
}

/// Whether the debugger takes control on the cycle of `d`: on an edge, once
/// the step count has run out or at a breakpoint.
pub open spec fn takes_control(d: DebuggerView) -> bool {
    is_edge(d) && (d.step == Some(0usize) || at_breakpoint(d))
}

/// Whether an enabled breakpoint that ignores no more crossings is at the
/// program counter of `d`.
pub open spec fn stops_here(d: DebuggerView) -> bool {
    exists|b: Breakpoint| value_at(d.bpts, d.pc) == Some(Some(b)) && !b.disable && b.ignore == 0
}

/// The debugger takes control only on an edge of its step unit: on every dot,
/// on every fourth cycle for machine cycles (and only once an instruction is
/// done, for instructions), on the first dot of a scanline, or of the first
/// scanline for frames. On such an edge it takes control when its step count
/// has run out, or at an enabled breakpoint that ignores no more crossings;
/// while it is stepping over edges and no such breakpoint is at the program
/// counter, or when it is not stepping at all and none is, it does not.
pub proof fn law_control_only_on_edges(d: DebuggerView)
    ensures
        takes_control(d) ==> match d.freq {
            Tick::Dot => true,
            Tick::Mach => d.cycle % 4 == 0,
            Tick::Insn => d.cycle % 4 == 0 && d.done,
            Tick::Line => d.dot == 0,
            Tick::Frame => d.dot == 0 && d.ly == 0,
        },
        d.freq == Tick::Dot && d.step == Some(0usize) ==> takes_control(d),
        d.freq == Tick::Mach && d.cycle % 4 != 0 ==> !takes_control(d),
        d.step != Some(0usize) && !stops_here(d) ==> !takes_control(d),
        d.freq == Tick::Dot && stops_here(d) ==> takes_control(d),
{
}

/// The debugger after one cycle: the cycle count moves on, and on an edge
/// the step count and the ignore count of a breakpoint at the program counter
/// each fall by one, down to zero.
pub open spec fn cycled(d: DebuggerView) -> DebuggerView {
    let d = DebuggerView { cycle: (d.cycle + 1) as usize, ..d };
    if !is_edge(d) {
        d
    } else {
        let step = match d.step {
            Some(n) => Some(if n > 0 { (n - 1) as usize } else { 0usize }),
            None => None,
        };
        let bpts = match value_at(d.bpts, d.pc) {
            Some(Some(bpt)) => put(
                d.bpts,
                d.pc,
                Some(
                    Breakpoint {
                        ignore: if bpt.ignore > 0 {
                            (bpt.ignore - 1) as usize
                        } else {
                            0usize
                        },
                        ..bpt
                    },
                ),
            ),
            _ => d.bpts,
        };
        DebuggerView { step, bpts, ..d }
    }
}

/// Breakpoint numbers are not reused: a breakpoint deleted and then set
/// again at its address gets its number back, and setting a breakpoint at a
/// new address gives the next number.
pub proof fn law_breakpoint_numbers(bpts: Seq<(u16, Option<Breakpoint>)>, point: usize, addr: u16, fresh: u16)
    requires
        distinct(bpts),
        numbered(bpts, point) matches Some((a, _)) && a == addr,
        place(bpts, fresh, 0) is None,
    ensures
        place(put(bpts, addr, None), addr, 0) == Some(point as nat),
        place(put(put(bpts, addr, None), fresh, Some(Breakpoint { disable: false, ignore: 0 })), fresh, 0)
            == Some(bpts.len()),
{
    let deleted = put(bpts, addr, None);
    lemma_place(bpts, addr, 0);
    lemma_place_unique(bpts, addr);
    law_put(bpts, addr, None, fresh);
    lemma_place(deleted, addr, 0);
    lemma_place_unique(deleted, addr);
    lemma_place(deleted, fresh, 0);
    let added = put(deleted, fresh, Some(Breakpoint { disable: false, ignore: 0 }));
    law_put(deleted, fresh, Some(Breakpoint { disable: false, ignore: 0 }), fresh);
    lemma_place(added, fresh, 0);
    lemma_place_unique(added, fresh);
}

/// A change to a breakpoint.
enum Change {
    /// Delete it.
    Delete,
    /// Disable it, or enable it.
    Disable(bool),
    /// Ignore this many crossings.
    Ignore(usize),
}

/// The breakpoint after a change, if it is kept.
spec fn changed(bpt: Breakpoint, change: Change) -> Option<Breakpoint> {
    match change {
        Change::Delete => None,
        Change::Disable(disable) => Some(Breakpoint { disable, ..bpt }),
        Change::Ignore(ignore) => Some(Breakpoint { ignore, ..bpt }),
    }
}

/// The address and the breakpoint numbered `point` in `bpts`, if it holds
/// one there.
pub open spec fn numbered(bpts: Seq<(u16, Option<Breakpoint>)>, point: usize) -> Option<(u16, Breakpoint)> {
    if point < bpts.len() {
        match bpts[point as int].1 {
            Some(bpt) => Some((bpts[point as int].0, bpt)),
            None => None,
        }
    } else {
        None
    }
}

/// The descriptions of the breakpoints numbered below `n`, in order.
pub open spec fn listed(bpts: Seq<(u16, Option<Breakpoint>)>, n: nat) -> Seq<Seq<char>>
    decreases n,
{
    if n == 0 {
        Seq::empty()
    } else {
        let rest = listed(bpts, (n - 1) as nat);
        match numbered(bpts, (n - 1) as usize) {
            Some((addr, bpt)) => rest.push(described(bpt, (n - 1) as usize, addr)),
            None => rest,
        }
    }
}

impl Debugger {
    /// Whether the breakpoint table is well formed: one entry per address.
    pub closed spec fn wf(&self) -> bool {
        distinct(entries(self.bpts))
    }

    /// Constructs a new `Debugger` instance: paused, at cycle 0, stepping by
    /// machine cycles, without a step count or breakpoints.
    pub fn new() -> (r: Self)
        ensures
            r.wf(),
            r@ == (DebuggerView {
                cycle: 0,
                pc: 0,
                done: false,
                dot: 0,
                ly: 0,
                play: false,
                freq: Tick::Mach,
                step: None,
                bpts: Seq::empty(),
            }),
    {
        Debugger {
            cycle: 0,
            pc: 0,
            done: false,
            dot: 0,
            ly: 0,
            play: false,
            freq: Tick::Mach,
            step: None,
            bpts: table_new(),
        }
    }

    /// Enables the debugger: it takes control at the next edge.
    pub fn enable(&mut self)
        requires
            old(self).wf(),
        ensures
            final(self).wf(),
            final(self)@ == (DebuggerView { step: Some(0usize), ..old(self)@ }),
    {
        self.step = Some(0);
    }

    /// Resumes console emulation.
    pub fn resume(&mut self)
        requires
            old(self).wf(),
        ensures
            final(self).wf(),
            final(self)@ == (DebuggerView { play: true, ..old(self)@ }),
    {
        self.play = true;
    }

    /// Pauses console emulation.
    pub fn pause(&mut self)
        requires
            old(self).wf(),
        ensures
            final(self).wf(),
            final(self)@ == (DebuggerView { play: false, ..old(self)@ }),
    {
        self.play = false;
    }

    /// Checks if the console is paused.
    pub fn paused(&self) -> (r: bool)
        ensures
            r == !self@.play,
    {
        !self.play
    }

    /// Synchronizes the debugger with the console: its program counter,
    /// whether its CPU has completed an instruction, and the PPU's dot and
    /// scanline.
    pub fn sync(&mut self, pc: u16, done: bool, dot: u16, ly: u8)
        requires
            old(self).wf(),
        ensures
            final(self).wf(),
            final(self)@ == (DebuggerView { pc, done, dot, ly, ..old(self)@ }),
    {
        self.pc = pc;
        self.done = done;
        self.dot = dot;
        self.ly = ly;
    }

    /// Changes the step unit.
    pub fn set_freq(&mut self, freq: Tick)
        requires
            old(self).wf(),
        ensures
            final(self).wf(),
            final(self)@ == (DebuggerView { freq, ..old(self)@ }),
    {
        self.freq = freq;
    }

    /// Steps over `many` edges, then takes control.
    pub fn step(&mut self, many: usize)
        requires
            old(self).wf(),
        ensures
            final(self).wf(),
            final(self)@ == (DebuggerView { step: Some(many), ..old(self)@ }),
    {
        self.step = Some(many);
    }

    /// Returns whether the current cycle is an active edge cycle.
    ///
    /// Depending on the step unit, the definition of an edge may differ.
    pub fn edge(&self) -> (r: bool)
        ensures
            r == is_edge(self@),
    {
        let mtick = self.cycle % 4 == 0;
        match self.freq {
            Tick::Dot => true,
            Tick::Mach => mtick,
            Tick::Insn => mtick && self.done,
            Tick::Line => self.dot == 0,
            Tick::Frame => self.dot == 0 && self.ly == 0,
        }
    }

    /// Whether the debugger takes control on this cycle.
    pub fn ready(&self) -> (r: bool)
        requires
            self.wf(),
        ensures
            r == takes_control(self@),
    {
        let edge = self.edge();
        let step = self.step != Some(0);
        let bpt = match table_get(&self.bpts, self.pc) {
            Some(Some(bpt)) => !bpt.disable && bpt.ignore == 0,
            _ => false,
        };
        edge && (!step || bpt)
    }

    /// Follows the console for one cycle.
    pub fn cycle(&mut self)
        requires
            old(self).wf(),
            old(self)@.cycle < usize::MAX,
        ensures
            final(self).wf(),
            final(self)@ == cycled(old(self)@),
    {
        self.cycle = self.cycle + 1;
        if !self.edge() {
            return;
        }
        if let Some(step) = self.step {
            self.step = Some(if step > 0 { step - 1 } else { 0 });
        }
        if let Some(Some(bpt)) = table_get(&self.bpts, self.pc) {
            let ignore = if bpt.ignore > 0 { bpt.ignore - 1 } else { 0 };
            proof {
                law_put(entries(self.bpts), self.pc, Some(Breakpoint { ignore, ..bpt }), self.pc);
            }
            table_insert(&mut self.bpts, self.pc, Some(Breakpoint { ignore, ..bpt }));
        }
    }

    /// Cycles since the last reset.
    pub fn cycles(&self) -> (r: usize)
        ensures
            r == self@.cycle,
    {
        self.cycle
    }

    /// The prompt presented to the user: the cycle count and the program
    /// counter, as `(#<cycle> @ $<pc>)> `.
    pub fn prompt_text(&self) -> (r: String)
        ensures
            r@ == seq!['(', '#'] + dec_str(self@.cycle as nat) + seq![' ', '@', ' ', '$'] + pad_front(
                hex_str(self@.pc as nat),
                4,
                '0',
            ) + seq![')', '>', ' '],
    {
        proof {
            reveal_strlit("(#");
            reveal_strlit(" @ $");
            reveal_strlit(")> ");
        }
        let mut f = String::new();
        push_str(&mut f, "(#");
        push_dec(&mut f, self.cycle as u64);
        push_str(&mut f, " @ $");
        push_hex_padded(&mut f, self.pc as u64, 4);
        push_str(&mut f, ")> ");
        f
    }

    /// Sets a breakpoint at `addr`, enabled and ignoring no crossings; gives
    /// its number. An address keeps its number once given one, so a
    /// breakpoint set again where one was deleted gets the number back.
    pub fn set_breakpoint(&mut self, addr: u16) -> (point: usize)
        requires
            old(self).wf(),
        ensures
            final(self).wf(),
            final(self)@ == (DebuggerView {
                bpts: put(old(self)@.bpts, addr, Some(Breakpoint { disable: false, ignore: 0 })),
                ..old(self)@
            }),
            point == match place(old(self)@.bpts, addr, 0) {
                Some(i) => i,
                None => old(self)@.bpts.len(),
            },
    {
        let bpt = Some(Breakpoint { disable: false, ignore: 0 });
        proof {
            law_put(entries(self.bpts), addr, bpt, addr);
        }
        let (point, _) = table_insert(&mut self.bpts, addr, bpt);
        point
    }

    /// Replaces the breakpoint numbered `point`, if there is one, by what
    /// `change` makes of it.
    fn change_breakpoint(&mut self, point: usize, change: Change) -> (r: Result<(), Error>)
        requires
            old(self).wf(),
        ensures
            final(self).wf(),
            match numbered(old(self)@.bpts, point) {
                Some((addr, bpt)) => r is Ok && final(self)@ == (DebuggerView {
                    bpts: put(old(self)@.bpts, addr, changed(bpt, change)),
                    ..old(self)@
                }),
                None => r is Err && final(self)@ == old(self)@,
            },
    {
        match table_get_index(&self.bpts, point) {
            Some((addr, Some(bpt))) => {
                let new = match change {
                    Change::Delete => None,
                    Change::Disable(disable) => Some(Breakpoint { disable, ..bpt }),
                    Change::Ignore(ignore) => Some(Breakpoint { ignore, ..bpt }),
                };
                proof {
                    law_put(entries(self.bpts), addr, new, addr);
                }
                table_insert(&mut self.bpts, addr, new);
                Ok(())
            },
            _ => Err(Error::Breakpoint),
        }
    }

    /// Deletes the breakpoint numbered `point`.
    pub fn delete_breakpoint(&mut self, point: usize) -> (r: Result<(), Error>)
        requires
            old(self).wf(),
        ensures
            final(self).wf(),
            match numbered(old(self)@.bpts, point) {
                Some((addr, bpt)) => r is Ok && final(self)@ == (DebuggerView {
                    bpts: put(old(self)@.bpts, addr, None),
                    ..old(self)@
                }),
                None => r is Err && final(self)@ == old(self)@,
            },
    {
        self.change_breakpoint(point, Change::Delete)
    }

    /// Disables the breakpoint numbered `point`, keeping it from pausing
    /// execution when reached.
    pub fn disable_breakpoint(&mut self, point: usize) -> (r: Result<(), Error>)
        requires
            old(self).wf(),
        ensures
            final(self).wf(),
            match numbered(old(self)@.bpts, point) {
                Some((addr, bpt)) => r is Ok && final(self)@ == (DebuggerView {
                    bpts: put(old(self)@.bpts, addr, Some(Breakpoint { disable: true, ..bpt })),
                    ..old(self)@
                }),
                None => r is Err && final(self)@ == old(self)@,
            },
    {
        self.change_breakpoint(point, Change::Disable(true))
    }

    /// Enables the breakpoint numbered `point`, letting it pause execution
    /// when reached.
    pub fn enable_breakpoint(&mut self, point: usize) -> (r: Result<(), Error>)
        requires
            old(self).wf(),
        ensures
            final(self).wf(),
            match numbered(old(self)@.bpts, point) {
                Some((addr, bpt)) => r is Ok && final(self)@ == (DebuggerView {
                    bpts: put(old(self)@.bpts, addr, Some(Breakpoint { disable: false, ..bpt })),
                    ..old(self)@
                }),
                None => r is Err && final(self)@ == old(self)@,
            },
    {
        self.change_breakpoint(point, Change::Disable(false))
    }

    /// Ignores the next `many` crossings of the breakpoint numbered `point`.
    pub fn ignore_breakpoint(&mut self, point: usize, many: usize) -> (r: Result<(), Error>)
        requires
            old(self).wf(),
        ensures
            final(self).wf(),
            match numbered(old(self)@.bpts, point) {
                Some((addr, bpt)) => r is Ok && final(self)@ == (DebuggerView {
                    bpts: put(old(self)@.bpts, addr, Some(Breakpoint { ignore: many, ..bpt })),
                    ..old(self)@
                }),
                None => r is Err && final(self)@ == old(self)@,
            },
    {
        self.change_breakpoint(point, Change::Ignore(many))
    }

    /// Describes every breakpoint, in the order of their numbers.
    pub fn breakpoints(&self) -> (r: Vec<String>)
        ensures
            r@.len() == listed(self@.bpts, self@.bpts.len() as nat).len(),
            forall|k: int|
                0 <= k < r@.len() ==> #[trigger] r@[k]@ == listed(self@.bpts, self@.bpts.len() as nat)[k],
    {
        let n = table_len(&self.bpts);
        let mut out: Vec<String> = Vec::new();
        let mut i: usize = 0;
        while i < n
            invariant
                n == self@.bpts.len(),
                i <= n,
                out@.len() == listed(self@.bpts, i as nat).len(),
                forall|k: int| 0 <= k < out@.len() ==> #[trigger] out@[k]@ == listed(self@.bpts, i as nat)[k],
            decreases n - i,
        {
            if let Some((addr, Some(bpt))) = table_get_index(&self.bpts, i) {
                out.push(bpt.display(i, addr));
            }
            i += 1;
        }
        out
    }

    /// Restarts the cycle count.
    pub fn reset(&mut self)
        requires
            old(self).wf(),
        ensures
            final(self).wf(),
            final(self)@ == (DebuggerView { cycle: 0, ..old(self)@ }),
    {
        self.cycle = 0;
    }
}

} // verus!
