use vstd::prelude::*;
use crate::hex::{lower_digit, lower_hex_digit};
use crate::text::string_from_chars;

verus! {

/// Whether `char::is_alphanumeric` holds of `c`.
pub uninterp spec fn alnum_of(c: char) -> bool;

/// Relies on `char::is_alphanumeric`: whether the character is alphabetic or
/// numeric in Unicode's tables, a property of the character alone.
#[verifier::external_body]
fn is_alphanumeric(c: char) -> (r: bool)
    ensures
        r == alnum_of(c),
{
    c.is_alphanumeric()
}

/// Bytes shown on one line of a dump.
pub const DUMP_WIDTH: usize = 16;

/// How a byte is shown in the text column: as the character of that code
/// point when it is alphanumeric, else as a dot.
pub open spec fn shown(b: u8) -> char {
    if alnum_of(b as char) {
        b as char
    } else {
        '.'
    }
}

/// The 48 columns of hex: each byte of the chunk as two lower-case digits and
/// a space, then spaces where a shorter chunk has no byte.
pub open spec fn hex_columns(chunk: Seq<u8>) -> Seq<char> {
    Seq::new(
        48,
        |k: int|
            if k >= 3 * chunk.len() || k % 3 == 2 {
                ' '
            } else if k % 3 == 0 {
                lower_digit((chunk[k / 3] / 16) as u8)
            } else {
                lower_digit((chunk[k / 3] % 16) as u8)
            },
    )
}

/// One line of a dump: the hex columns, a space, the text column and a newline.
pub open spec fn dump_line(chunk: Seq<u8>) -> Seq<char> {
    hex_columns(chunk) + seq![' '] + Seq::new(chunk.len(), |k: int| shown(chunk[k])) + seq!['\n']
}

/// A dump of `buf`: one line for each 16 bytes, the last line for what is left.
pub open spec fn hexdump_text(buf: Seq<u8>) -> Seq<char>
    decreases buf.len(),
{
    if buf.len() == 0 {
        Seq::empty()
    } else if buf.len() <= 16 {
        dump_line(buf)
    } else {
        dump_line(buf.subrange(0, 16)) + hexdump_text(buf.subrange(16, buf.len() as int))
    }
}

/// How byte `b` is shown in the text column, given whether its character is
/// alphanumeric: that character, or a dot.
pub fn shown_char(b: u8, alphanumeric: bool) -> (r: char)
    ensures
        r == if alphanumeric {
            b as char
        } else {
            '.'
        },
{
    if alphanumeric {
        b as char
    } else {
        '.'
    }
}

fn line_of(buf: &[u8], start: usize, end: usize) -> (r: Vec<char>)
    requires
        start < end <= buf@.len(),
        end - start <= 16,
    ensures
        r@ == dump_line(buf@.subrange(start as int, end as int)),
{
    let ghost chunk = buf@.subrange(start as int, end as int);
    let n = end - start;
    let mut out: Vec<char> = Vec::new();
    let mut k: usize = 0;
    while k < 48
        invariant
            0 <= k <= 48,
            n == chunk.len(),
            chunk == buf@.subrange(start as int, end as int),
            start < end <= buf@.len(),
            n <= 16,
            out@ == hex_columns(chunk).subrange(0, k as int),
        decreases 48 - k,
    {
        let c = if k >= 3 * n || k % 3 == 2 {
            ' '
        } else if k % 3 == 0 {
            lower_hex_digit(buf[start + k / 3] / 16)
        } else {
            lower_hex_digit(buf[start + k / 3] % 16)
        };
        out.push(c);
        k = k + 1;
        assert(out@ =~= hex_columns(chunk).subrange(0, k as int));
    }
    out.push(' ');
    let ghost head = out@;
    let mut i: usize = 0;
    while i < n
        invariant
            0 <= i <= n,
            n == chunk.len(),
            chunk == buf@.subrange(start as int, end as int),
            start < end <= buf@.len(),
            head == hex_columns(chunk) + seq![' '],
            out@ == head + Seq::new(i as nat, |j: int| shown(chunk[j])),
        decreases n - i,
    {
        let b = buf[start + i];
        let c = shown_char(b, is_alphanumeric(b as char));
        out.push(c);
        i = i + 1;
        assert(out@ =~= head + Seq::new(i as nat, |j: int| shown(chunk[j])));
    }
    out.push('\n');
    assert(out@ =~= dump_line(chunk));
    out
}

/// A dump of `buf` for reading by a person: 16 bytes a line, each line the
/// bytes in hexadecimal and then as text.
pub fn hexdump(buf: &[u8]) -> (r: String)
    ensures
        r@ == hexdump_text(buf@),
{
    let v = buf;
    let mut out: Vec<char> = Vec::new();
    let mut start: usize = 0;
    assert(v@.subrange(0, v@.len() as int) =~= v@);
    assert(out@ + hexdump_text(v@) =~= hexdump_text(v@));
    while start < v.len()
        invariant
            v@ == buf@,
            start <= v@.len(),
            out@ + hexdump_text(v@.subrange(start as int, v@.len() as int)) == hexdump_text(v@),
        decreases v@.len() - start,
    {
        let ghost rest = v@.subrange(start as int, v@.len() as int);
        let end = if v.len() - start > DUMP_WIDTH {
            start + DUMP_WIDTH
        } else {
            v.len()
        };
        let mut line = line_of(v, start, end);
        assert(v@.subrange(start as int, end as int) =~= rest.subrange(0, (end - start) as int));
        assert(v@.subrange(end as int, v@.len() as int) =~= rest.subrange(
            (end - start) as int,
            rest.len() as int,
        ));
        if end < v.len() {
            assert(hexdump_text(rest) == dump_line(rest.subrange(0, 16)) + hexdump_text(
                rest.subrange(16, rest.len() as int),
            ));
        } else {
            assert(rest.subrange(0, (end - start) as int) =~= rest);
            assert(v@.subrange(end as int, v@.len() as int) =~= Seq::<u8>::empty());
            assert(hexdump_text(Seq::<u8>::empty()) == Seq::<char>::empty());
            assert(hexdump_text(rest) == dump_line(rest));
        }
        let ghost before = out@;
        out.append(&mut line);
        start = end;
        assert(out@ + hexdump_text(v@.subrange(start as int, v@.len() as int)) =~= before
            + hexdump_text(rest));
    }
    assert(v@.subrange(start as int, v@.len() as int) =~= Seq::<u8>::empty());
    assert(out@ =~= hexdump_text(v@));
    string_from_chars(&out)
}

} // verus!
