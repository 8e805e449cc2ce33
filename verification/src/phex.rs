//! Pretty hexadecimal printing for slices of bytes.
//!
//! A [`Printer`] lays a blob out as lines of words, each line prefixed by its
//! address. Runs of lines that repeat a single padding byte are elided: the
//! first such line is printed, the second is replaced by a line of ellipses,
//! and the rest are skipped until the pattern breaks.

use core::marker::PhantomData;
use vstd::prelude::*;

use crate::text::{hex_str, pad_front, push_char, push_hex_padded, push_repeat, repeat};

verus! {

/// Unsigned word types a [`Printer`] can group bytes by.
pub trait Word {
    /// Bytes per word.
    spec fn spec_size() -> nat;

    /// Words per line.
    spec fn spec_line() -> nat;

    /// Bytes per word.
    fn size() -> (r: usize)
        ensures
            r as nat == Self::spec_size(),
            1 <= r <= 16,
    ;

    /// Words per line.
    fn line() -> (r: usize)
        ensures
            r as nat == Self::spec_line(),
            1 <= r <= 8,
    ;
}

impl Word for u8 {
    open spec fn spec_size() -> nat { 1 }
    open spec fn spec_line() -> nat { 8 }
    fn size() -> usize { 1 }
    fn line() -> usize { 8 }
}

impl Word for u16 {
    open spec fn spec_size() -> nat { 2 }
    open spec fn spec_line() -> nat { 4 }
    fn size() -> usize { 2 }
    fn line() -> usize { 4 }
}

impl Word for u32 {
    open spec fn spec_size() -> nat { 4 }
    open spec fn spec_line() -> nat { 4 }
    fn size() -> usize { 4 }
    fn line() -> usize { 4 }
}

impl Word for u64 {
    open spec fn spec_size() -> nat { 8 }
    open spec fn spec_line() -> nat { 2 }
    fn size() -> usize { 8 }
    fn line() -> usize { 2 }
}

impl Word for u128 {
    open spec fn spec_size() -> nat { 16 }
    open spec fn spec_line() -> nat { 1 }
    fn size() -> usize { 16 }
    fn line() -> usize { 1 }
}

impl Word for usize {
    open spec fn spec_size() -> nat { vstd::layout::size_of::<usize>() }
    open spec fn spec_line() -> nat { 2 }
    fn size() -> usize {
        broadcast use vstd::layout::layout_of_primitives;
        let r = core::mem::size_of::<usize>();
        assert(usize::BITS == 32 || usize::BITS == 64);
        r
    }
    fn line() -> usize { 2 }
}

/// Two lowercase hexadecimal digits of a byte.
pub open spec fn byte_hex(b: u8) -> Seq<char> {
    pad_front(hex_str(b as nat), 2, '0')
}

/// The first `n` bytes of `line` as words of `ws` bytes: every word is
/// preceded by a space, every byte is written as two hexadecimal digits.
pub open spec fn words(line: Seq<u8>, ws: nat, n: nat) -> Seq<char>
    decreases n,
{
    if n == 0 {
        Seq::empty()
    } else {
        let k = (n - 1) as nat;
        words(line, ws, k) + (if k % ws == 0 { seq![' '] } else { Seq::empty() }) + byte_hex(line[k as int])
    }
}

/// The line of `chunk` bytes of `d` that starts at `pos` (shorter at the end).
pub open spec fn line_at(d: Seq<u8>, pos: nat, chunk: nat) -> Seq<u8> {
    if pos + chunk <= d.len() {
        d.subrange(pos as int, (pos + chunk) as int)
    } else {
        d.subrange(pos as int, d.len() as int)
    }
}

/// `Some(b)` when every byte of a non-empty line equals `b`.
pub open spec fn pad_of(line: Seq<u8>) -> Option<u8> {
    if line.len() > 0 && forall|i: int| 0 <= i < line.len() ==> #[trigger] line[i] == line[0] {
        Some(line[0])
    } else {
        None
    }
}

/// Width of printed addresses: `0x` and the digits of the end address.
pub open spec fn addr_width(end: nat) -> nat {
    2 + hex_str(end).len()
}

/// The address column of a printed line.
pub open spec fn addr_text(addr: nat, width: nat) -> Seq<char> {
    seq!['0', 'x'] + pad_front(hex_str(addr), (width - 2) as nat, '0')
}

/// One line of the rendering: the text printed for the line of `d` that
/// starts at `pos`, and the state left for the next line. The state is the
/// last byte of the previous printed line, the padding byte of the current
/// run, and whether repeated lines are being skipped.
pub open spec fn line_step(
    o: nat,
    d: Seq<u8>,
    ws: nat,
    chunk: nat,
    width: nat,
    pos: nat,
    last: Option<u8>,
    run: Option<u8>,
    skip: bool,
) -> (Seq<char>, Option<u8>, Option<u8>, bool) {
    let line = line_at(d, pos, chunk);
    let pad = pad_of(line);
    let next = pos + chunk;
    if skip && pad == run {
        (Seq::empty(), last, run, skip)
    } else {
        let run1 = if last == pad { pad } else { run };
        let follows = next < d.len() && line_at(d, next, chunk) == line;
        let ellipses = !skip && pad is Some && run1 == pad && follows;
        let sep = if pos != 0 { seq!['\n'] } else { Seq::empty() };
        let head = if ellipses {
            repeat('.', width) + seq![':']
        } else {
            addr_text(o + pos, width) + seq![':']
        };
        let run2 = if ellipses { run1 } else { pad };
        (sep + head + words(line, ws, line.len()), Some(line.last()), run2, ellipses)
    }
}

/// Rendering of the lines of `d` from byte `pos` on, given the state that
/// the earlier lines left.
pub open spec fn dump_from(
    o: nat,
    d: Seq<u8>,
    ws: nat,
    chunk: nat,
    width: nat,
    pos: nat,
    last: Option<u8>,
    run: Option<u8>,
    skip: bool,
) -> Seq<char>
    decreases (if pos <= d.len() { d.len() - pos } else { 0 }),
    when chunk > 0
{
    if pos >= d.len() {
        Seq::empty()
    } else {
        let (text, last1, run1, skip1) = line_step(o, d, ws, chunk, width, pos, last, run, skip);
        text + dump_from(o, d, ws, chunk, width, pos + chunk, last1, run1, skip1)
    }
}

/// The whole rendering of a blob at offset `o`.
pub open spec fn dump(o: nat, d: Seq<u8>, ws: nat, ls: nat) -> Seq<char> {
    dump_from(o, d, ws, ws * ls, addr_width(o + d.len()), 0, None, None, false)
}

/// The opening of a dump of `d` at offset `o` whose lines hold `bytes`
/// bytes in words of `ws`: the address of the first line, a colon, the first
/// `bytes` bytes as words, and the line break before the second line.
pub open spec fn opening(o: nat, d: Seq<u8>, ws: nat, bytes: nat) -> Seq<char> {
    addr_text(o, addr_width(o + d.len())) + seq![':'] + words(d.subrange(0, bytes as int), ws, bytes)
        + seq!['\n']
}

/// The first line of a dump holds `chunk` bytes, and the next line follows it
/// after a line break.
proof fn lemma_first_line(o: nat, d: Seq<u8>, ws: nat, ls: nat)
    requires
        ws >= 1,
        ls >= 1,
        d.len() > ws * ls,
    ensures
        dump(o, d, ws, ls).subrange(0, opening(o, d, ws, ws * ls).len() as int) == opening(
            o,
            d,
            ws,
            ws * ls,
        ),
{
    let chunk = ws * ls;
    assert(ws * ls >= 1) by (nonlinear_arith)
        requires
            ws >= 1,
            ls >= 1,
    ;
    let width = addr_width(o + d.len());
    let first = line_step(o, d, ws, chunk, width, 0, None, None, false);
    let second = line_step(o, d, ws, chunk, width, chunk, first.1, first.2, first.3);
    let line = line_at(d, 0, chunk);
    assert(line == d.subrange(0, chunk as int));
    assert(first.0 == addr_text(o, width) + seq![':'] + words(line, ws, chunk));
    assert(!first.3);
    let rest = dump_from(o, d, ws, chunk, width, chunk, first.1, first.2, first.3);
    assert(dump(o, d, ws, ls) == first.0 + rest);
    assert(rest == second.0 + dump_from(
        o,
        d,
        ws,
        chunk,
        width,
        chunk + chunk,
        second.1,
        second.2,
        second.3,
    ));
    assert(second.0[0] == '\n');
    let op = opening(o, d, ws, chunk);
    assert(op =~= first.0 + seq!['\n']);
    assert(dump(o, d, ws, ls).subrange(0, op.len() as int) =~= op);
}

/// Lines of bytes and of 16-bit words hold 8 bytes; lines of 32-, 64- and
/// 128-bit words hold 16. A dump longer than one line opens with the first
/// line's address and those bytes, grouped into words of the word's size.
pub proof fn law_line_widths(o: nat, d: Seq<u8>)
    ensures
        d.len() > 8 ==> dump(o, d, <u8 as Word>::spec_size(), <u8 as Word>::spec_line()).subrange(
            0,
            opening(o, d, 1, 8).len() as int,
        ) == opening(o, d, 1, 8),
        d.len() > 8 ==> dump(o, d, <u16 as Word>::spec_size(), <u16 as Word>::spec_line()).subrange(
            0,
            opening(o, d, 2, 8).len() as int,
        ) == opening(o, d, 2, 8),
        d.len() > 16 ==> dump(o, d, <u32 as Word>::spec_size(), <u32 as Word>::spec_line()).subrange(
            0,
            opening(o, d, 4, 16).len() as int,
        ) == opening(o, d, 4, 16),
        d.len() > 16 ==> dump(o, d, <u64 as Word>::spec_size(), <u64 as Word>::spec_line()).subrange(
            0,
            opening(o, d, 8, 16).len() as int,
        ) == opening(o, d, 8, 16),
        d.len() > 16 ==> dump(o, d, <u128 as Word>::spec_size(), <u128 as Word>::spec_line()).subrange(
            0,
            opening(o, d, 16, 16).len() as int,
        ) == opening(o, d, 16, 16),
{
    if d.len() > 8 {
        lemma_first_line(o, d, <u8 as Word>::spec_size(), <u8 as Word>::spec_line());
        lemma_first_line(o, d, <u16 as Word>::spec_size(), <u16 as Word>::spec_line());
    }
    if d.len() > 16 {
        lemma_first_line(o, d, <u32 as Word>::spec_size(), <u32 as Word>::spec_line());
        lemma_first_line(o, d, <u64 as Word>::spec_size(), <u64 as Word>::spec_line());
        lemma_first_line(o, d, <u128 as Word>::spec_size(), <u128 as Word>::spec_line());
    }
}

/// Formatter for slices of bytes.
pub struct Printer<'a, W: Word> {
    offset: usize,
    data: &'a [u8],
    word: PhantomData<W>,
}

impl<'a, W: Word> Printer<'a, W> {
    /// Offset of the first byte.
    pub closed spec fn spec_offset(&self) -> usize {
        self.offset
    }

    /// The bytes being printed.
    pub closed spec fn spec_data(&self) -> Seq<u8> {
        self.data@
    }

    /// Constructs a new `Printer` for the provided data.
    pub fn new(offset: usize, data: &'a [u8]) -> (r: Self)
        ensures
            r.spec_offset() == offset,
            r.spec_data() == data@,
    {
        Printer { offset, data, word: PhantomData }
    }

    /// Renders the data as lines of words prefixed by their addresses.
    pub fn display(&self) -> (r: String)
        requires
            self.spec_offset() + self.spec_data().len() <= usize::MAX,
        ensures
            r@ == dump(self.spec_offset() as nat, self.spec_data(), W::spec_size(), W::spec_line()),
    {
        let size = W::size();
        let line = W::line();
        assert(line * size <= 128) by (nonlinear_arith)
            requires
                1 <= size <= 16,
                1 <= line <= 8,
        ;
        render(self.offset, self.data, size, line)
    }
}

/// Past the end, nothing is rendered.
proof fn lemma_dump_end(
    o: nat,
    d: Seq<u8>,
    ws: nat,
    chunk: nat,
    width: nat,
    pos: nat,
    last: Option<u8>,
    run: Option<u8>,
    skip: bool,
)
    requires
        chunk > 0,
        pos >= d.len(),
    ensures
        dump_from(o, d, ws, chunk, width, pos, last, run, skip) == Seq::<char>::empty(),
{
}

/// Renders `data` at `offset` with `wordsz` bytes per word and `linesz`
/// words per line.
fn render(offset: usize, data: &[u8], wordsz: usize, linesz: usize) -> (r: String)
    requires
        1 <= wordsz,
        1 <= linesz,
        linesz * wordsz <= usize::MAX,
        offset + data@.len() <= usize::MAX,
    ensures
        r@ == dump(offset as nat, data@, wordsz as nat, linesz as nat),
{
    let len = data.len();
    let end = offset + len;
    let width = 2 + crate::text::hex_len(end as u64);
    assert(linesz * wordsz >= 1) by (nonlinear_arith)
        requires
            1 <= wordsz,
            1 <= linesz,
    ;
    let chunk = linesz * wordsz;
    let ghost o = offset as nat;
    let ghost d = data@;
    let ghost ws = wordsz as nat;
    let ghost total = dump_from(o, d, ws, chunk as nat, width as nat, 0, None, None, false);
    assert(chunk as nat == wordsz as nat * linesz as nat) by (nonlinear_arith)
        requires
            chunk == linesz * wordsz,
    ;
    let mut f = String::new();
    let mut last: Option<u8> = None;
    let mut run: Option<u8> = None;
    let mut skip = false;
    let mut pos: usize = 0;
    while pos < len
        invariant
            len == d.len(),
            d == data@,
            o == offset as nat,
            ws == wordsz as nat,
            1 <= wordsz,
            1 <= chunk,
            offset + len <= usize::MAX,
            width as nat == addr_width((offset + len) as nat),
            pos <= len,
            f@ + dump_from(o, d, ws, chunk as nat, width as nat, pos as nat, last, run, skip) == total,
        decreases len - pos,
    {
        let ghost pre = f@;
        let ghost step = line_step(o, d, ws, chunk as nat, width as nat, pos as nat, last, run, skip);
        let (l, r, k) = print_line(&mut f, data, offset, pos, chunk, wordsz, width, last, run, skip);
        let next = if len - pos > chunk { pos + chunk } else { len };
        proof {
            if next == len {
                lemma_dump_end(o, d, ws, chunk as nat, width as nat, len as nat, l, r, k);
                lemma_dump_end(o, d, ws, chunk as nat, width as nat, (pos + chunk) as nat, l, r, k);
            }
        }
        last = l;
        run = r;
        skip = k;
        pos = next;
    }
    proof {
        lemma_dump_end(o, d, ws, chunk as nat, width as nat, pos as nat, last, run, skip);
    }
    assert(f@ =~= total);
    f
}

/// Prints the line of `data` that starts at `pos` and returns the new state.
#[verifier::rlimit(30)]
fn print_line(
    f: &mut String,
    data: &[u8],
    offset: usize,
    pos: usize,
    chunk: usize,
    wordsz: usize,
    width: usize,
    last: Option<u8>,
    run: Option<u8>,
    skip: bool,
) -> (r: (Option<u8>, Option<u8>, bool))
    requires
        pos < data@.len(),
        1 <= wordsz,
        1 <= chunk,
        offset + data@.len() <= usize::MAX,
        width as nat == addr_width((offset + data@.len()) as nat),
    ensures
        ({
            let step = line_step(
                offset as nat,
                data@,
                wordsz as nat,
                chunk as nat,
                width as nat,
                pos as nat,
                last,
                run,
                skip,
            );
            &&& final(f)@ == old(f)@ + step.0
            &&& r == (step.1, step.2, step.3)
        }),
{
    let len = data.len();
    let ghost d = data@;
    let stop = if len - pos >= chunk { pos + chunk } else { len };
    let ghost line = line_at(d, pos as nat, chunk as nat);
    assert(line =~= d.subrange(pos as int, stop as int));
    let pad = line_pad(data, pos, stop);
    if skip && pad == run {
        return (last, run, skip);
    }
    let mut cur = run;
    if last == pad {
        cur = pad;
    }
    let ghost run1 = cur;
    let mut ellipses = !skip && pad.is_some() && cur == pad;
    if ellipses {
        let follows = len - pos > chunk && same_line(data, pos, pos + chunk, chunk);
        if !follows {
            ellipses = false;
        }
    }
    let ghost follows = (pos + chunk) < d.len() && line_at(d, (pos + chunk) as nat, chunk as nat) == line;
    assert(ellipses == (!skip && pad is Some && run1 == pad && follows));
    let ghost start = f@;
    if pos != 0 {
        push_char(f, '\n');
    }
    print_head(f, ellipses, offset + pos, width);
    let now_skip = ellipses;
    if !ellipses {
        cur = pad;
    }
    push_words(f, data, pos, stop, wordsz);
    assert(line.last() == data@[stop - 1]);
    assert(f@ =~= start + line_step(
        offset as nat,
        d,
        wordsz as nat,
        chunk as nat,
        width as nat,
        pos as nat,
        last,
        run,
        skip,
    ).0);
    (Some(data[stop - 1]), cur, now_skip)
}

/// Prints the address column of a line, or ellipses in its place.
fn print_head(f: &mut String, ellipses: bool, addr: usize, width: usize)
    requires
        width >= 2,
    ensures
        final(f)@ == old(f)@ + (if ellipses {
            repeat('.', width as nat) + seq![':']
        } else {
            addr_text(addr as nat, width as nat) + seq![':']
        }),
{
    let ghost mid = f@;
    if ellipses {
        push_repeat(f, '.', width);
        push_char(f, ':');
        assert(f@ =~= mid + repeat('.', width as nat) + seq![':']);
    } else {
        push_char(f, '0');
        push_char(f, 'x');
        push_hex_padded(f, addr as u64, width - 2);
        push_char(f, ':');
        assert(f@ =~= mid + addr_text(addr as nat, width as nat) + seq![':']);
    }
}

/// The padding byte of `data[start..stop]`.
fn line_pad(data: &[u8], start: usize, stop: usize) -> (r: Option<u8>)
    requires
        start < stop <= data@.len(),
    ensures
        r == pad_of(data@.subrange(start as int, stop as int)),
{
    let head = data[start];
    let mut i = start + 1;
    while i < stop
        invariant
            start < i <= stop,
            stop <= data@.len(),
            head == data@[start as int],
            forall|j: int| start <= j < i ==> data@[j] == head,
        decreases stop - i,
    {
        if data[i] != head {
            let ghost line = data@.subrange(start as int, stop as int);
            assert(line[i - start] != line[0]);
            return None;
        }
        i = i + 1;
    }
    let ghost line = data@.subrange(start as int, stop as int);
    assert(forall|j: int| 0 <= j < line.len() ==> #[trigger] line[j] == line[0]);
    Some(head)
}

/// Whether the `chunk` bytes at `a` equal the line at `b` (which is `chunk`
/// bytes long, or shorter at the end of `data`).
fn same_line(data: &[u8], a: usize, b: usize, chunk: usize) -> (r: bool)
    requires
        a + chunk <= b < data@.len(),
    ensures
        r == (line_at(data@, b as nat, chunk as nat) == data@.subrange(a as int, (a + chunk) as int)),
{
    let len = data.len();
    if len - b < chunk {
        let ghost l1 = line_at(data@, b as nat, chunk as nat);
        assert(l1.len() < chunk);
        return false;
    }
    let ghost l1 = line_at(data@, b as nat, chunk as nat);
    let ghost l2 = data@.subrange(a as int, (a + chunk) as int);
    let mut i: usize = 0;
    while i < chunk
        invariant
            a + chunk <= b,
            b + chunk <= len,
            len == data@.len(),
            l1 == data@.subrange(b as int, (b + chunk) as int),
            l2 == data@.subrange(a as int, (a + chunk) as int),
            i <= chunk,
            forall|j: int| 0 <= j < i ==> #[trigger] l1[j] == l2[j],
        decreases chunk - i,
    {
        if data[a + i] != data[b + i] {
            assert(l1[i as int] != l2[i as int]);
            return false;
        }
        i = i + 1;
    }
    assert(l1 =~= l2);
    true
}

/// Appends the words of `data[start..stop]`.
fn push_words(f: &mut String, data: &[u8], start: usize, stop: usize, wordsz: usize)
    requires
        start <= stop <= data@.len(),
        wordsz >= 1,
    ensures
        final(f)@ == old(f)@ + words(data@.subrange(start as int, stop as int), wordsz as nat, (stop - start) as nat),
{
    let ghost line = data@.subrange(start as int, stop as int);
    let ghost pre = f@;
    let mut k: usize = 0;
    let mut at: usize = 0;
    let ghost mut q: nat = 0;
    while start + k < stop
        invariant
            start <= stop <= data@.len(),
            wordsz >= 1,
            line == data@.subrange(start as int, stop as int),
            k <= stop - start,
            at < wordsz,
            k == q * wordsz + at,
            at as int == (k as int) % (wordsz as int),
            f@ == pre + words(line, wordsz as nat, k as nat),
        decreases stop - start - k,
    {
        if at == 0 {
            push_char(f, ' ');
        }
        let b = data[start + k];
        push_hex_padded(f, b as u64, 2);
        assert(line[k as int] == b);
        assert(f@ =~= pre + words(line, wordsz as nat, (k + 1) as nat));
        k = k + 1;
        if at + 1 == wordsz {
            at = 0;
            proof {
                q = q + 1;
                assert(k == q * wordsz + at) by (nonlinear_arith)
                    requires k == (q - 1) * wordsz + wordsz, at == 0;
            }
        } else {
            at = at + 1;
        }
        proof {
            vstd::arithmetic::div_mod::lemma_fundamental_div_mod_converse(k as int, wordsz as int, q as int, at as int);
        }
    }
}

} // verus!
