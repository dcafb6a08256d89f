//! Canonical text building blocks shared by every renderer: decimal and
//! hexadecimal digits, left-justified padding, quoted string escapes, and
//! the spec-level character counting used to reason about line structure.
use vstd::prelude::*;

verus! {

use vstd::string::{StrSliceExecFns, StringExecFns};

/// The decimal digit character for `d` (expects `0 <= d <= 9`).
pub open spec fn digit_char(d: int) -> char {
    if d == 0 {
        '0'
    } else if d == 1 {
        '1'
    } else if d == 2 {
        '2'
    } else if d == 3 {
        '3'
    } else if d == 4 {
        '4'
    } else if d == 5 {
        '5'
    } else if d == 6 {
        '6'
    } else if d == 7 {
        '7'
    } else if d == 8 {
        '8'
    } else {
        '9'
    }
}

/// The shortest decimal rendering of `n`, most significant digit first.
pub open spec fn dec_rep(n: int) -> Seq<char>
    recommends
        n >= 0,
    decreases n,
{
    if n < 10 {
        seq![digit_char(n)]
    } else {
        dec_rep(n / 10).push(digit_char(n % 10))
    }
}

/// `n` space characters (none when `n` is negative).
pub open spec fn spaces(n: int) -> Seq<char> {
    Seq::new(if n < 0 { 0 } else { n as nat }, |i: int| ' ')
}

/// `s` left-justified in a column of `width` characters; longer values
/// are kept whole, exactly as a formatter's minimum-width padding does.
pub open spec fn pad_right(s: Seq<char>, width: int) -> Seq<char> {
    s + spaces(width - s.len())
}

/// The lowercase hexadecimal digit character for `d` (expects `0 <= d <= 15`).
pub open spec fn hex_char(d: int) -> char {
    if d < 10 {
        digit_char(d)
    } else if d == 10 {
        'a'
    } else if d == 11 {
        'b'
    } else if d == 12 {
        'c'
    } else if d == 13 {
        'd'
    } else if d == 14 {
        'e'
    } else {
        'f'
    }
}

/// Two lowercase hexadecimal digits for one byte.
pub open spec fn byte_hex(b: int) -> Seq<char> {
    seq![hex_char(b / 16), hex_char(b % 16)]
}

/// Every byte as two lowercase hexadecimal digits, concatenated in byte
/// order with no separator.
pub open spec fn hex_dump(bytes: Seq<u8>) -> Seq<char>
    decreases bytes.len(),
{
    if bytes.len() == 0 {
        Seq::empty()
    } else {
        hex_dump(bytes.drop_last()) + byte_hex(bytes.last() as int)
    }
}

/// How many times `c` occurs in `s`.
pub open spec fn count_char(s: Seq<char>, c: char) -> int
    decreases s.len(),
{
    if s.len() == 0 {
        0
    } else {
        count_char(s.drop_last(), c) + if s.last() == c {
            1int
        } else {
            0int
        }
    }
}

/// The escaped form of one character inside a quoted string.
pub open spec fn escape_char(c: char) -> Seq<char> {
    if c == '"' {
        seq!['\\', '"']
    } else if c == '\\' {
        seq!['\\', '\\']
    } else if c == '\n' {
        seq!['\\', 'n']
    } else if c == '\r' {
        seq!['\\', 'r']
    } else if c == '\t' {
        seq!['\\', 't']
    } else {
        seq![c]
    }
}

/// `s` with every character escaped, in order.
pub open spec fn escape_text(s: Seq<char>) -> Seq<char>
    decreases s.len(),
{
    if s.len() == 0 {
        Seq::empty()
    } else {
        escape_text(s.drop_last()) + escape_char(s.last())
    }
}

/// `s` escaped and wrapped in double quotes.
pub open spec fn quoted(s: Seq<char>) -> Seq<char> {
    seq!['"'] + escape_text(s) + seq!['"']
}

/// The empty sequence holds no occurrence of any character.
pub proof fn lemma_count_char_empty(c: char)
    ensures
        count_char(Seq::empty(), c) == 0,
{
}

/// Occurrences of `c` in a one-character sequence.
pub proof fn lemma_count_char_single(a: char, c: char)
    ensures
        count_char(seq![a], c) == if a == c {
            1int
        } else {
            0int
        },
{
    let s = seq![a];
    assert(s.drop_last() =~= Seq::<char>::empty());
    lemma_count_char_empty(c);
}

/// Occurrences of `c` in a two-character sequence.
pub proof fn lemma_count_char_pair(a: char, b: char, c: char)
    ensures
        count_char(seq![a, b], c) == (if a == c {
            1int
        } else {
            0int
        }) + (if b == c {
            1int
        } else {
            0int
        }),
{
    assert(seq![a, b] =~= seq![a] + seq![b]);
    lemma_count_char_concat(seq![a], seq![b], c);
    lemma_count_char_single(a, c);
    lemma_count_char_single(b, c);
}

/// Occurrences of `c` in a concatenation split over the two halves.
pub proof fn lemma_count_char_concat(a: Seq<char>, b: Seq<char>, c: char)
    ensures
        count_char(a + b, c) == count_char(a, c) + count_char(b, c),
    decreases b.len(),
{
    if b.len() == 0 {
        assert(a + b =~= a);
    } else {
        assert((a + b).drop_last() =~= a + b.drop_last());
        assert((a + b).last() == b.last());
        lemma_count_char_concat(a, b.drop_last(), c);
    }
}

/// A decimal rendering never contains a newline.
pub proof fn lemma_dec_rep_no_newline(n: int)
    ensures
        count_char(dec_rep(n), '\n') == 0,
    decreases n,
{
    if n < 10 {
        lemma_count_char_single(digit_char(n), '\n');
    } else {
        lemma_dec_rep_no_newline(n / 10);
        assert(dec_rep(n).drop_last() =~= dec_rep(n / 10));
    }
}

/// Padding spaces never contain a newline.
pub proof fn lemma_spaces_no_newline(n: int)
    ensures
        count_char(spaces(n), '\n') == 0,
    decreases n,
{
    if n <= 0 {
        assert(spaces(n) =~= Seq::<char>::empty());
        lemma_count_char_empty('\n');
    } else {
        lemma_spaces_no_newline(n - 1);
        assert(spaces(n).drop_last() =~= spaces(n - 1));
        assert(spaces(n).last() == ' ');
    }
}

/// An escaped string never contains a raw newline: the escape rewrites it.
pub proof fn lemma_escape_text_no_newline(s: Seq<char>)
    ensures
        count_char(escape_text(s), '\n') == 0,
    decreases s.len(),
{
    if s.len() == 0 {
    } else {
        lemma_escape_text_no_newline(s.drop_last());
        lemma_count_char_concat(escape_text(s.drop_last()), escape_char(s.last()), '\n');
        assert(count_char(escape_char(s.last()), '\n') == 0) by {
            let e = escape_char(s.last());
            let c = s.last();
            if c == '"' || c == '\\' || c == '\n' || c == '\r' || c == '\t' {
                assert(e =~= seq![e[0]] + seq![e[1]]);
                lemma_count_char_concat(seq![e[0]], seq![e[1]], '\n');
                lemma_count_char_single(e[0], '\n');
                lemma_count_char_single(e[1], '\n');
            } else {
                lemma_count_char_single(c, '\n');
            }
        }
    }
}

/// The decimal digit as a one-character string slice.
pub fn digit_str(d: u8) -> (r: &'static str)
    requires
        d < 10,
    ensures
        r@ == seq![digit_char(d as int)],
{
    proof {
        reveal_strlit("0");
        reveal_strlit("1");
        reveal_strlit("2");
        reveal_strlit("3");
        reveal_strlit("4");
        reveal_strlit("5");
        reveal_strlit("6");
        reveal_strlit("7");
        reveal_strlit("8");
        reveal_strlit("9");
    }
    let r = match d {
        0 => "0",
        1 => "1",
        2 => "2",
        3 => "3",
        4 => "4",
        5 => "5",
        6 => "6",
        7 => "7",
        8 => "8",
        _ => "9",
    };
    proof {
        assert(r@ =~= seq![digit_char(d as int)]);
    }
    r
}

/// The lowercase hexadecimal digit as a one-character string slice.
pub fn hex_digit_str(d: u8) -> (r: &'static str)
    requires
        d < 16,
    ensures
        r@ == seq![hex_char(d as int)],
{
    proof {
        reveal_strlit("a");
        reveal_strlit("b");
        reveal_strlit("c");
        reveal_strlit("d");
        reveal_strlit("e");
        reveal_strlit("f");
    }
    if d < 10 {
        let r = digit_str(d);
        proof {
            assert(r@ =~= seq![hex_char(d as int)]);
        }
        r
    } else {
        let r = match d {
            10 => "a",
            11 => "b",
            12 => "c",
            13 => "d",
            14 => "e",
            _ => "f",
        };
        proof {
            assert(r@ =~= seq![hex_char(d as int)]);
        }
        r
    }
}

/// The shortest decimal rendering of `n` as an owned string.
pub fn u64_to_dec(n: u64) -> (s: String)
    ensures
        s@ == dec_rep(n as int),
    decreases n,
{
    if n < 10 {
        let s = digit_str(n as u8).to_owned();
        s
    } else {
        let mut s = u64_to_dec(n / 10);
        s.append(digit_str((n % 10) as u8));
        proof {
            assert(s@ =~= dec_rep(n as int));
        }
        s
    }
}

/// Appends `piece` left-justified in a column of `width` characters.
pub fn append_padded(out: &mut String, piece: &str, width: usize)
    ensures
        final(out)@ == old(out)@ + pad_right(piece@, width as int),
{
    out.append(piece);
    let mut i: usize = piece.unicode_len();
    proof {
        assert(out@ =~= old(out)@ + piece@ + spaces(i - piece@.len()));
    }
    while i < width
        invariant
            i >= piece@.len(),
            i <= width || i == piece@.len(),
            out@ == old(out)@ + piece@ + spaces(i - piece@.len()),
        decreases width - i,
    {
        out.append(" ");
        i = i + 1;
        proof {
            reveal_strlit(" ");
            assert(spaces(i - piece@.len()) =~= spaces(i - 1 - piece@.len()).push(' '));
            assert(out@ =~= old(out)@ + piece@ + spaces(i - piece@.len()));
        }
    }
    proof {
        assert(out@ =~= old(out)@ + pad_right(piece@, width as int));
    }
}

/// Appends the decimal rendering of `n`, left-justified to `width`.
pub fn append_u64_padded(out: &mut String, n: u64, width: usize)
    ensures
        final(out)@ == old(out)@ + pad_right(dec_rep(n as int), width as int),
{
    let s = u64_to_dec(n);
    append_padded(out, s.as_str(), width);
}

/// Appends every byte of `bytes` as two lowercase hexadecimal digits.
pub fn append_hex_dump(out: &mut String, bytes: &[u8])
    ensures
        final(out)@ == old(out)@ + hex_dump(bytes@),
{
    let n = bytes.len();
    for i in 0..n
        invariant
            n == bytes@.len(),
            out@ == old(out)@ + hex_dump(bytes@.subrange(0, i as int)),
    {
        let b = bytes[i];
        out.append(hex_digit_str(b / 16));
        out.append(hex_digit_str(b % 16));
        proof {
            let pre = bytes@.subrange(0, i + 1);
            assert(pre.drop_last() =~= bytes@.subrange(0, i as int));
            assert(pre.last() == bytes@[i as int]);
            assert(out@ =~= old(out)@ + hex_dump(pre));
        }
    }
    proof {
        assert(bytes@.subrange(0, n as int) =~= bytes@);
    }
}

/// Whether two string slices hold the same characters.
pub fn eq_str(a: &str, b: &str) -> (r: bool)
    ensures
        r == (a@ == b@),
{
    let alen = a.unicode_len();
    let blen = b.unicode_len();
    if alen != blen {
        return false;
    }
    for i in 0..alen
        invariant
            alen == a@.len(),
            alen == b@.len(),
            forall|j: int| 0 <= j < i ==> a@[j] == b@[j],
    {
        if a.get_char(i) != b.get_char(i) {
            return false;
        }
    }
    proof {
        assert(a@ =~= b@);
    }
    true
}

/// Appends `s` with each character escaped as in [`escape_text`].
pub fn append_escaped(out: &mut String, s: &str)
    ensures
        final(out)@ == old(out)@ + escape_text(s@),
{
    let n = s.unicode_len();
    for i in 0..n
        invariant
            n == s@.len(),
            out@ == old(out)@ + escape_text(s@.subrange(0, i as int)),
    {
        let c = s.get_char(i);
        if c == '"' {
            out.append("\\\"");
        } else if c == '\\' {
            out.append("\\\\");
        } else if c == '\n' {
            out.append("\\n");
        } else if c == '\r' {
            out.append("\\r");
        } else if c == '\t' {
            out.append("\\t");
        } else {
            let piece = s.substring_char(i, i + 1);
            out.append(piece);
            proof {
                assert(piece@ =~= seq![s@[i as int]]);
            }
        }
        proof {
            reveal_strlit("\\\"");
            reveal_strlit("\\\\");
            reveal_strlit("\\n");
            reveal_strlit("\\r");
            reveal_strlit("\\t");
            let pre = s@.subrange(0, i + 1);
            assert(pre.drop_last() =~= s@.subrange(0, i as int));
            assert(pre.last() == s@[i as int]);
            assert(out@ =~= old(out)@ + escape_text(pre));
        }
    }
    proof {
        assert(s@.subrange(0, n as int) =~= s@);
    }
}

/// Appends `s` escaped and wrapped in double quotes.
pub fn append_quoted(out: &mut String, s: &str)
    ensures
        final(out)@ == old(out)@ + quoted(s@),
{
    proof {
        reveal_strlit("\"");
    }
    out.append("\"");
    append_escaped(out, s);
    out.append("\"");
    proof {
        assert(out@ =~= old(out)@ + quoted(s@));
    }
}

} // verus!
