//! Hardware timer.
//!
//! The divider counts every T-cycle. The timer counter (TIMA) counts on each
//! falling edge of the AND of the timer's enable flag with the divider bit
//! that the clock select picks. On overflow TIMA reads 0 for four cycles, is
//! then reloaded from the timer modulo (TMA), and the timer interrupt is
//! requested. A store to TIMA while the reload is pending cancels it; a store
//! on the cycle of the reload is ignored.

use vstd::prelude::*;

use crate::arch::reg::{Port, Register};

verus! {

/// Timer register select.
#[derive(Clone, Copy, Debug, PartialEq, Eq, Structural)]
pub enum Select {
    /// `[$FF04]`: Divider register.
    Div,
    /// `[$FF05]`: Timer counter.
    Tima,
    /// `[$FF06]`: Timer modulo.
    Tma,
    /// `[$FF07]`: Timer control.
    Tac,
}

/// Cycles from an overflow of TIMA until its reload is due.
pub const RELOAD_DELAY: u8 = 3;

/// Progress of a reload of TIMA from TMA.
#[derive(Clone, Copy, Debug, PartialEq, Eq, Structural)]
pub enum Reload {
    /// No reload is under way.
    Idle,
    /// The reload is due after this many more cycles.
    Pending(u8),
    /// The reload happens on the next cycle.
    Now,
}

impl Reload {
    /// The progress after one cycle.
    pub open spec fn spec_tick(self) -> Reload {
        match self {
            Reload::Idle => Reload::Idle,
            Reload::Pending(n) => if n <= 1 {
                Reload::Now
            } else {
                Reload::Pending((n - 1) as u8)
            },
            Reload::Now => Reload::Idle,
        }
    }

    /// Advances the progress by one cycle.
    pub fn tick(&mut self)
        ensures
            *final(self) == old(self).spec_tick(),
    {
        *self = match *self {
            Reload::Idle => Reload::Idle,
            Reload::Pending(n) => if n <= 1 {
                Reload::Now
            } else {
                Reload::Pending(n - 1)
            },
            Reload::Now => Reload::Idle,
        };
    }

    /// Schedules a reload.
    pub fn sched(&mut self)
        ensures
            *final(self) == Reload::Pending(RELOAD_DELAY),
    {
        *self = Reload::Pending(RELOAD_DELAY);
    }
}

/// `DIV`: Divider register, the upper byte of a counter of T-cycles.
#[derive(Debug)]
pub struct Div {
    div: u16,
}

impl View for Div {
    type V = u16;

    closed spec fn view(&self) -> u16 {
        self.div
    }
}

impl Default for Div {
    fn default() -> (r: Self)
        ensures
            r@ == 0,
    {
        Div { div: 0 }
    }
}

impl Div {
    /// The full counter.
    pub fn div(&self) -> (r: u16)
        ensures
            r == self@,
    {
        self.div
    }

    /// Counts one cycle, wrapping around.
    pub fn inc(&mut self)
        ensures
            final(self)@ == (old(self)@ + 1) % 0x1_0000,
    {
        self.div = self.div.wrapping_add(1);
    }
}

impl Register for Div {
    type Value = u8;

    /// The upper byte of the counter.
    open spec fn spec_load(&self) -> u8 {
        (self@ / 0x100) as u8
    }

    /// Any store resets the counter.
    open spec fn spec_store(&self, value: u8) -> u16 {
        0
    }

    fn load(&self) -> (r: u8) {
        let hi = self.div / 0x100;
        hi as u8
    }

    fn store(&mut self, value: u8) {
        self.div = 0;
    }
}

/// `TIMA`: Timer counter, with the progress of its reload.
#[derive(Debug)]
pub struct Tima {
    value: u8,
    rel: Reload,
}

impl View for Tima {
    type V = (u8, Reload);

    closed spec fn view(&self) -> (u8, Reload) {
        (self.value, self.rel)
    }
}

impl Default for Tima {
    fn default() -> (r: Self)
        ensures
            r@ == (0u8, Reload::Idle),
    {
        Tima { value: 0, rel: Reload::Idle }
    }
}

impl Tima {
    /// Progress of the reload.
    pub fn rel(&self) -> (r: Reload)
        ensures
            r == self@.1,
    {
        self.rel
    }

    /// Counts once, wrapping around; returns whether it overflowed.
    pub fn inc(&mut self) -> (carry: bool)
        ensures
            final(self)@ == (((old(self)@.0 + 1) % 0x100) as u8, old(self)@.1),
            carry == (old(self)@.0 == 0xff),
    {
        let carry = self.value == 0xff;
        self.value = self.value.wrapping_add(1);
        carry
    }

    /// Advances the progress of the reload by one cycle.
    pub fn tick(&mut self)
        ensures
            final(self)@ == (old(self)@.0, old(self)@.1.spec_tick()),
    {
        self.rel.tick();
    }

    /// Schedules a reload.
    pub fn sched(&mut self)
        ensures
            final(self)@ == (old(self)@.0, Reload::Pending(RELOAD_DELAY)),
    {
        self.rel.sched();
    }
}

impl Register for Tima {
    type Value = u8;

    open spec fn spec_load(&self) -> u8 {
        self@.0
    }

    /// A store on the cycle of a reload is ignored; otherwise it sets the
    /// counter and cancels a pending reload.
    open spec fn spec_store(&self, value: u8) -> (u8, Reload) {
        if self@.1 == Reload::Now {
            self@
        } else {
            (value, Reload::Idle)
        }
    }

    fn load(&self) -> (r: u8) {
        self.value
    }

    fn store(&mut self, value: u8) {
        if self.rel != Reload::Now {
            self.value = value;
            self.rel = Reload::Idle;
        }
    }
}

/// `TAC[2]`: timer enable flag.
pub const TAC_ENA: u8 = 0b100;

/// `TAC[1:0]`: clock select bits.
pub const TAC_SEL: u8 = 0b011;

/// `TAC[7:3]`: unused bits, which always read as 1.
pub const TAC_UNUSED: u8 = 0xf8;

/// The divider bit that a clock select picks: bit 9, 3, 5 or 7.
pub open spec fn spec_select(tac: u8) -> u16 {
    if tac & TAC_SEL == 0 {
        0x200
    } else if tac & TAC_SEL == 1 {
        0x008
    } else if tac & TAC_SEL == 2 {
        0x020
    } else {
        0x080
    }
}

/// `TAC`: Timer control.
#[derive(Debug)]
pub struct Tac {
    bits: u8,
}

impl View for Tac {
    type V = u8;

    closed spec fn view(&self) -> u8 {
        self.bits
    }
}

impl Default for Tac {
    fn default() -> (r: Self)
        ensures
            r@ == 0,
    {
        Tac { bits: 0 }
    }
}

impl Tac {
    /// Timer enable flag.
    pub fn ena(&self) -> (r: bool)
        ensures
            r == (self@ & TAC_ENA != 0),
    {
        self.bits & TAC_ENA != 0
    }

    /// The divider bit that the clock select picks.
    pub fn select(&self) -> (r: u16)
        ensures
            r == spec_select(self@),
    {
        let sel = self.bits & TAC_SEL;
        if sel == 0 {
            0x200
        } else if sel == 1 {
            0x008
        } else if sel == 2 {
            0x020
        } else {
            0x080
        }
    }
}

impl Register for Tac {
    type Value = u8;

    /// The stored bits, with the unused ones read as 1.
    open spec fn spec_load(&self) -> u8 {
        self@ | TAC_UNUSED
    }

    open spec fn spec_store(&self, value: u8) -> u8 {
        value
    }

    fn load(&self) -> (r: u8) {
        self.bits | TAC_UNUSED
    }

    fn store(&mut self, value: u8) {
        self.bits = value;
    }
}

/// Timer registers.
///
/// | Address | Size | Name | Description      |
/// |:-------:|------|------|------------------|
/// | `$FF04` | Byte | DIV  | Divider register |
/// | `$FF05` | Byte | TIMA | Timer counter    |
/// | `$FF06` | Byte | TMA  | Timer modulo     |
/// | `$FF07` | Byte | TAC  | Timer control    |
#[derive(Debug)]
pub struct Control {
    /// Divider register.
    pub div: Div,
    /// Timer counter.
    pub tima: Tima,
    /// Timer modulo.
    pub tma: u8,
    /// Timer control.
    pub tac: Tac,
}

impl Control {
    /// Restores every register to its initial value.
    pub fn reset(&mut self)
        ensures
            final(self).div@ == 0,
            final(self).tima@ == (0u8, Reload::Idle),
            final(self).tma == 0,
            final(self).tac@ == 0,
    {
        self.div = Div::default();
        self.tima = Tima::default();
        self.tma = 0;
        self.tac = Tac::default();
    }
}

/// Timer internals.
#[derive(Debug)]
pub struct Internal {
    /// Previous AND result.
    and: bool,
}

impl View for Internal {
    type V = bool;

    closed spec fn view(&self) -> bool {
        self.and
    }
}

impl Default for Internal {
    fn default() -> (r: Self)
        ensures
            r@ == false,
    {
        Internal { and: false }
    }
}

impl Internal {
    /// Restores the internals to their initial state.
    fn reset(&mut self)
        ensures
            final(self)@ == false,
    {
        self.and = false;
    }
}

/// Model of the timer.
pub struct TimerView {
    /// The divider counter.
    pub div: u16,
    /// The timer counter.
    pub tima: u8,
    /// Progress of the reload of the timer counter.
    pub rel: Reload,
    /// The timer modulo.
    pub tma: u8,
    /// The timer control bits.
    pub tac: u8,
    /// The previous AND result.
    pub and: bool,
}

/// The timer after a reset.
pub open spec fn initial() -> TimerView {
    TimerView { div: 0, tima: 0, rel: Reload::Idle, tma: 0, tac: 0, and: false }
}

/// The AND of the enable flag with the selected bit of the divider `div`.
pub open spec fn and_result(tac: u8, div: u16) -> bool {
    tac & TAC_ENA != 0 && spec_select(tac) & div != 0
}

/// The timer after one T-cycle, and whether the cycle requests the timer
/// interrupt.
pub open spec fn step(s: TimerView) -> (TimerView, bool) {
    let div = ((s.div + 1) % 0x1_0000) as u16;
    let reload = s.rel == Reload::Now;
    let rel = s.rel.spec_tick();
    let tima = if reload {
        s.tma
    } else {
        s.tima
    };
    let this = and_result(s.tac, div);
    let tick = s.and && !this;
    let carry = tick && tima == 0xff;
    let tima = if tick {
        ((tima + 1) % 0x100) as u8
    } else {
        tima
    };
    let rel = if carry {
        Reload::Pending(RELOAD_DELAY)
    } else {
        rel
    };
    (TimerView { div, tima, rel, tma: s.tma, tac: s.tac, and: this }, reload)
}

/// The timer after `n` T-cycles.
pub open spec fn steps(s: TimerView, n: nat) -> TimerView
    decreases n,
{
    if n == 0 {
        s
    } else {
        steps(step(s).0, (n - 1) as nat)
    }
}

/// The divider counts every cycle, wrapping around: after `n` cycles it has
/// moved on by `n`, so DIV, its upper byte, moves on once every 256 cycles.
pub proof fn law_div_counts_cycles(s: TimerView, n: nat)
    ensures
        steps(s, n).div == (s.div + n) % 0x1_0000,
        steps(s, n).tma == s.tma,
        steps(s, n).tac == s.tac,
    decreases n,
{
    if n > 0 {
        law_div_counts_cycles(step(s).0, (n - 1) as nat);
        assert(((((s.div + 1) % 0x1_0000) + (n - 1)) % 0x1_0000) == (s.div + n) % 0x1_0000)
            by (nonlinear_arith);
    }
}

/// T-cycles between two counts of TIMA for each clock select of TAC: 1024,
/// 16, 64 and 256 cycles for selects 0 to 3 (4096, 262144, 65536 and
/// 16384 Hz).
pub open spec fn clock_period(tac: u8) -> nat {
    if tac & 3 == 0 {
        1024
    } else if tac & 3 == 1 {
        16
    } else if tac & 3 == 2 {
        64
    } else {
        256
    }
}

/// A divider bit of `d` is set exactly where `d`, within its period of twice
/// the bit, is in the upper half.
proof fn lemma_divider_bits(d: u16)
    ensures
        (0x200u16 & d != 0) == (d % 1024 >= 512),
        (0x008u16 & d != 0) == (d % 16 >= 8),
        (0x020u16 & d != 0) == (d % 64 >= 32),
        (0x080u16 & d != 0) == (d % 256 >= 128),
{
    assert((0x200u16 & d != 0) == (d % 1024 >= 512)) by (bit_vector);
    assert((0x008u16 & d != 0) == (d % 16 >= 8)) by (bit_vector);
    assert((0x020u16 & d != 0) == (d % 64 >= 32)) by (bit_vector);
    assert((0x080u16 & d != 0) == (d % 256 >= 128)) by (bit_vector);
}

/// Within a period dividing the divider's range, the divider moves on by one.
proof fn lemma_mod_step(d: u16, p: int)
    requires
        p == 16 || p == 64 || p == 256 || p == 1024,
    ensures
        ((((d + 1) % 0x1_0000) as u16) as int) % p == ((d as int) % p + 1) % p,
{
    let d1 = (((d + 1) % 0x1_0000) as u16) as int;
    if d == 0xffff {
        assert(d1 == 0);
        if p == 16 {
            assert((d as int) % 16 == 15);
        } else if p == 64 {
            assert((d as int) % 64 == 63);
        } else if p == 256 {
            assert((d as int) % 256 == 255);
        } else {
            assert((d as int) % 1024 == 1023);
        }
    } else {
        assert(d1 == d + 1);
        if p == 16 {
            assert(d1 % 16 == ((d as int) % 16 + 1) % 16);
        } else if p == 64 {
            assert(d1 % 64 == ((d as int) % 64 + 1) % 64);
        } else if p == 256 {
            assert(d1 % 256 == ((d as int) % 256 + 1) % 256);
        } else {
            assert(d1 % 1024 == ((d as int) % 1024 + 1) % 1024);
        }
    }
}

/// With the timer enabled, the AND result falls on a cycle exactly when the
/// divider reaches a multiple of the clock period.
proof fn lemma_falling_edge(tac: u8, d: u16)
    requires
        tac & TAC_ENA != 0,
    ensures
        ({
            let d1 = ((d + 1) % 0x1_0000) as u16;
            let p = clock_period(tac) as int;
            &&& (d1 as int) % p == ((d as int) % p + 1) % p
            &&& (and_result(tac, d) && !and_result(tac, d1)) == ((d1 as int) % p == 0)
        }),
{
    let d1 = ((d + 1) % 0x1_0000) as u16;
    lemma_divider_bits(d);
    lemma_divider_bits(d1);
    let sel = tac & 3;
    assert(tac & TAC_SEL == sel);
    assert(sel < 4) by (bit_vector)
        requires
            sel == tac & 3,
    ;
    let p = clock_period(tac) as int;
    lemma_mod_step(d, p);
    if sel == 0 {
        assert(spec_select(tac) == 0x200);
    } else if sel == 1 {
        assert(spec_select(tac) == 0x008);
    } else if sel == 2 {
        assert(spec_select(tac) == 0x020);
    } else {
        assert(spec_select(tac) == 0x080);
    }
}

/// Counting over `n` cycles from a divider `r` cycles into its clock period:
/// TIMA counts once if the cycles reach the end of the period, else not.
proof fn lemma_counts(s: TimerView, n: nat)
    requires
        s.tac & TAC_ENA != 0,
        s.rel == Reload::Idle,
        s.and == and_result(s.tac, s.div),
        s.tima < 0xff,
        (s.div as int) % (clock_period(s.tac) as int) + n <= clock_period(s.tac),
    ensures
        steps(s, n).tima == if n > 0 && (s.div as int) % (clock_period(s.tac) as int) + n
            == clock_period(s.tac) {
            s.tima + 1
        } else {
            s.tima as int
        },
    decreases n,
{
    if n > 0 {
        let s1 = step(s).0;
        lemma_falling_edge(s.tac, s.div);
        assert(steps(s, n) == steps(s1, (n - 1) as nat));
        let p = clock_period(s.tac) as int;
        if (s.div as int) % p + 1 == p {
            assert(n == 1);
            assert(steps(s1, 0) == s1);
        } else {
            lemma_counts(s1, (n - 1) as nat);
        }
    }
}

/// TIMA counts at the rate that the clock select of TAC picks: from a divider
/// at the start of its period (as after a reset or a store to DIV), with
/// the timer enabled, no reload under way and TIMA below its maximum, TIMA
/// holds its value for a period of 1024, 16, 64 or 256 cycles less one, and
/// has counted once at its end.
pub proof fn law_tima_counts_at_clock_rate(s: TimerView, n: nat)
    requires
        s.tac & TAC_ENA != 0,
        s.rel == Reload::Idle,
        s.and == and_result(s.tac, s.div),
        s.tima < 0xff,
        (s.div as int) % (clock_period(s.tac) as int) == 0,
        n <= clock_period(s.tac),
    ensures
        steps(s, n).tima == if n == clock_period(s.tac) {
            s.tima + 1
        } else {
            s.tima as int
        },
{
    lemma_counts(s, n);
}

/// Whether TIMA counts on the cycle that follows `s`.
pub open spec fn counts(s: TimerView) -> bool {
    s.and && !step(s).0.and
}

/// Once TIMA has overflowed, the interrupt is requested on the fourth cycle
/// after and on none before it; where TIMA does not count meanwhile, it reads
/// 0 for three cycles and then reads TMA.
pub proof fn law_reload_on_fourth_cycle(s: TimerView)
    requires
        s.rel == Reload::Pending(RELOAD_DELAY),
        s.tima == 0,
    ensures
        !step(s).1,
        !step(steps(s, 1)).1,
        !step(steps(s, 2)).1,
        step(steps(s, 3)).1,
        (!counts(s) && !counts(steps(s, 1)) && !counts(steps(s, 2)) && !counts(steps(s, 3))) ==> (
        steps(s, 1).tima == s.tima && steps(s, 2).tima == s.tima && steps(s, 3).tima == s.tima
            && steps(s, 4).tima == s.tma),
{
    reveal_with_fuel(steps, 5);
    assert(steps(s, 1) == step(s).0);
    assert(steps(s, 2) == step(steps(s, 1)).0);
    assert(steps(s, 3) == step(steps(s, 2)).0);
    assert(steps(s, 4) == step(steps(s, 3)).0);
}

/// A store to TIMA sets it and cancels a pending reload, except on the cycle
/// of a reload, where it is ignored; a store to TMA before the cycle of a
/// reload is the value that the reload loads.
pub proof fn law_tima_tma_stores(t: Timer, value: u8)
    ensures
        t.spec_store(Select::Tima, value) == if t@.rel == Reload::Now {
            t@
        } else {
            TimerView { tima: value, rel: Reload::Idle, ..t@ }
        },
        t@.rel == Reload::Now ==> step(t.spec_store(Select::Tma, value)).0.tima == value || counts(
            t.spec_store(Select::Tma, value),
        ),
{
}

/// Hardware timer.
#[derive(Debug)]
pub struct Timer {
    /// Timer registers.
    pub reg: Control,
    /// Timer internals.
    pub etc: Internal,
}

impl View for Timer {
    type V = TimerView;

    open spec fn view(&self) -> TimerView {
        TimerView {
            div: self.reg.div@,
            tima: self.reg.tima@.0,
            rel: self.reg.tima@.1,
            tma: self.reg.tma,
            tac: self.reg.tac@,
            and: self.etc@,
        }
    }
}

impl Timer {
    /// Constructs a new `Timer`.
    pub fn new() -> (r: Self)
        ensures
            r@ == initial(),
    {
        Timer {
            reg: Control { div: Div::default(), tima: Tima::default(), tma: 0, tac: Tac::default() },
            etc: Internal::default(),
        }
    }

    /// Calculates the AND result, whose falling edge counts TIMA.
    fn andres(&self) -> (r: bool)
        ensures
            r == and_result(self@.tac, self@.div),
    {
        let ena = self.reg.tac.ena();
        let sel = self.reg.tac.select();
        let div = self.reg.div.div();
        ena && (sel & div != 0)
    }

    /// Runs the timer for one T-cycle; returns whether the cycle requests the
    /// timer interrupt.
    pub fn cycle(&mut self) -> (irq: bool)
        ensures
            (final(self)@, irq) == step(old(self)@),
    {
        // Increment the divider every T-cycle.
        self.reg.div.inc();

        // Reload TIMA
        let reload = self.reg.tima.rel() == Reload::Now;
        self.reg.tima.tick();
        if reload {
            let tma = self.reg.tma;
            self.reg.tima.store(tma);
        }

        // Check if TIMA should be incremented on a falling edge
        let this = self.andres();
        let tick = self.etc.and && !this;
        self.etc.and = this;

        // Increment TIMA, with a pending reload on overflow
        if tick {
            let carry = self.reg.tima.inc();
            if carry {
                self.reg.tima.sched();
            }
        }
        reload
    }

    /// Restores the timer to its state after construction.
    pub fn reset(&mut self)
        ensures
            final(self)@ == initial(),
    {
        self.reg.reset();
        self.etc.reset();
    }
}

impl Port<u8> for Timer {
    type Select = Select;

    open spec fn spec_load(&self, reg: Select) -> u8 {
        match reg {
            Select::Div => self.reg.div.spec_load(),
            Select::Tima => self.reg.tima.spec_load(),
            Select::Tma => self.reg.tma,
            Select::Tac => self.reg.tac.spec_load(),
        }
    }

    open spec fn spec_store(&self, reg: Select, value: u8) -> TimerView {
        match reg {
            Select::Div => TimerView { div: self.reg.div.spec_store(value), ..self@ },
            Select::Tima => TimerView {
                tima: self.reg.tima.spec_store(value).0,
                rel: self.reg.tima.spec_store(value).1,
                ..self@
            },
            Select::Tma => TimerView { tma: value, ..self@ },
            Select::Tac => TimerView { tac: value, ..self@ },
        }
    }

    fn load(&self, reg: Select) -> (r: u8) {
        match reg {
            Select::Div => self.reg.div.load(),
            Select::Tima => self.reg.tima.load(),
            Select::Tma => self.reg.tma,
            Select::Tac => self.reg.tac.load(),
        }
    }

    fn store(&mut self, reg: Select, value: u8) {
        match reg {
            Select::Div => self.reg.div.store(value),
            Select::Tima => self.reg.tima.store(value),
            Select::Tma => self.reg.tma = value,
            Select::Tac => self.reg.tac.store(value),
        }
    }
}

} // verus!
