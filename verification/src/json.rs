//! Minimal JSON string framing for the request bodies the protocol sends.
//!
//! Only what the wire format needs: a string literal with its two delimiting
//! quotes, where the quote, the backslash and the control characters are
//! escaped and every other character passes through unchanged.
use vstd::prelude::*;
use vstd::string::StrSliceExecFns;
use vstd::string::StringExecFns;

verus! {

/// The lower-case hexadecimal digit of a value below sixteen.
pub open spec fn hex_digit(n: int) -> char {
    if n == 0 {
        '0'
    } else if n == 1 {
        '1'
    } else if n == 2 {
        '2'
    } else if n == 3 {
        '3'
    } else if n == 4 {
        '4'
    } else if n == 5 {
        '5'
    } else if n == 6 {
        '6'
    } else if n == 7 {
        '7'
    } else if n == 8 {
        '8'
    } else if n == 9 {
        '9'
    } else if n == 10 {
        'a'
    } else if n == 11 {
        'b'
    } else if n == 12 {
        'c'
    } else if n == 13 {
        'd'
    } else if n == 14 {
        'e'
    } else {
        'f'
    }
}

/// How one character appears inside a JSON string literal.
pub open spec fn escape_char(c: char) -> Seq<char> {
    if c == '"' {
        seq!['\\', '"']
    } else if c == '\\' {
        seq!['\\', '\\']
    } else if (c as u32) < 32 {
        seq!['\\', 'u', '0', '0', hex_digit(c as u32 as int / 16), hex_digit(c as u32 as int % 16)]
    } else {
        seq![c]
    }
}

/// The body of a JSON string literal holding the characters of `s`.
pub open spec fn json_escape(s: Seq<char>) -> Seq<char>
    decreases s.len(),
{
    if s.len() == 0 {
        Seq::<char>::empty()
    } else {
        escape_char(s[0]) + json_escape(s.drop_first())
    }
}

/// A whole JSON string literal: quote, escaped characters, quote.
pub open spec fn json_str(s: Seq<char>) -> Seq<char> {
    seq!['"'] + json_escape(s) + seq!['"']
}

/// Escaping distributes over concatenation.
pub proof fn lemma_json_escape_concat(a: Seq<char>, b: Seq<char>)
    ensures
        json_escape(a + b) == json_escape(a) + json_escape(b),
    decreases a.len(),
{
    if a.len() == 0 {
        assert(a + b =~= b);
        assert(json_escape(a) + json_escape(b) =~= json_escape(b));
    } else {
        lemma_json_escape_concat(a.drop_first(), b);
        assert((a + b).drop_first() =~= a.drop_first() + b);
        assert(escape_char(a[0]) + (json_escape(a.drop_first()) + json_escape(b)) =~= (escape_char(
            a[0],
        ) + json_escape(a.drop_first())) + json_escape(b));
        assert(json_escape(a + b) == escape_char((a + b)[0]) + json_escape((a + b).drop_first()));
    }
}

/// A string without quote, backslash or control characters passes through
/// escaping unchanged.
pub proof fn lemma_json_escape_plain(s: Seq<char>)
    requires
        forall|i: int| 0 <= i < s.len() ==> s[i] != '"' && s[i] != '\\' && (s[i] as u32) >= 32,
    ensures
        json_escape(s) == s,
    decreases s.len(),
{
    if s.len() == 0 {
        assert(json_escape(s) =~= s);
    } else {
        assert(forall|i: int|
            0 <= i < s.drop_first().len() ==> s.drop_first()[i] == s[i + 1]);
        lemma_json_escape_plain(s.drop_first());
        assert(escape_char(s[0]) =~= seq![s[0]]);
        assert(json_escape(s) =~= s);
    }
}

/// Escaping a one-character sequence is escaping the character.
pub proof fn lemma_json_escape_single(c: char)
    ensures
        json_escape(seq![c]) == escape_char(c),
{
    assert(seq![c].drop_first() =~= Seq::<char>::empty());
    assert(escape_char(c) + json_escape(seq![c].drop_first()) =~= escape_char(c));
}

/// Appends the escaped form of the character at position `i` of `s`.
fn push_escaped_char(out: &mut String, s: &str, i: usize)
    requires
        i < s@.len(),
        i < usize::MAX,
    ensures
        final(out)@ == old(out)@ + escape_char(s@[i as int]),
{
    let c = s.get_char(i);
    if c == '"' {
        proof {
            reveal_strlit("\\\"");
            assert("\\\""@ =~= escape_char(c));
        }
        out.append("\\\"");
    } else if c == '\\' {
        proof {
            reveal_strlit("\\\\");
            assert("\\\\"@ =~= escape_char(c));
        }
        out.append("\\\\");
    } else if (c as u32) < 32 {
        let n = c as u32;
        let hi = (n / 16) as usize;
        let lo = (n % 16) as usize;
        let table = "0123456789abcdef";
        proof {
            reveal_strlit("0123456789abcdef");
            reveal_strlit("\\u00");
            assert(hi == 0 || hi == 1);
            assert(lo == 0 || lo == 1 || lo == 2 || lo == 3 || lo == 4 || lo == 5 || lo == 6
                || lo == 7 || lo == 8 || lo == 9 || lo == 10 || lo == 11 || lo == 12 || lo == 13
                || lo == 14 || lo == 15);
            assert(table@[0] == '0');
            assert(table@[1] == '1');
            assert(table@[2] == '2');
            assert(table@[3] == '3');
            assert(table@[4] == '4');
            assert(table@[5] == '5');
            assert(table@[6] == '6');
            assert(table@[7] == '7');
            assert(table@[8] == '8');
            assert(table@[9] == '9');
            assert(table@[10] == 'a');
            assert(table@[11] == 'b');
            assert(table@[12] == 'c');
            assert(table@[13] == 'd');
            assert(table@[14] == 'e');
            assert(table@[15] == 'f');
            assert(table@[hi as int] == hex_digit(hi as int));
            assert(table@[lo as int] == hex_digit(lo as int));
        }
        out.append("\\u00");
        let d1 = table.substring_char(hi, hi + 1);
        out.append(d1);
        let d2 = table.substring_char(lo, lo + 1);
        out.append(d2);
        proof {
            assert(d1@ =~= seq![hex_digit(hi as int)]);
            assert(d2@ =~= seq![hex_digit(lo as int)]);
            assert(final(out)@ =~= old(out)@ + escape_char(c));
        }
    } else {
        let one = s.substring_char(i, i + 1);
        out.append(one);
        proof {
            assert(one@ =~= seq![c]);
            assert(final(out)@ =~= old(out)@ + escape_char(c));
        }
    }
}

/// Appends a JSON string literal holding `s`: a quote, each character of `s`
/// in escaped form, a quote.
pub fn append_json_str(out: &mut String, s: &str)
    ensures
        final(out)@ == old(out)@ + json_str(s@),
{
    proof {
        reveal_strlit("\"");
        assert("\""@ =~= seq!['"']);
    }
    out.append("\"");
    let len = s.unicode_len();
    let mut i: usize = 0;
    while i < len
        invariant
            len == s@.len(),
            i <= len,
            out@ == old(out)@ + seq!['"'] + json_escape(s@.take(i as int)),
        decreases len - i,
    {
        push_escaped_char(out, s, i);
        proof {
            assert(s@.take(i + 1 as int) =~= s@.take(i as int) + seq![s@[i as int]]);
            lemma_json_escape_concat(s@.take(i as int), seq![s@[i as int]]);
            lemma_json_escape_single(s@[i as int]);
            assert(out@ =~= old(out)@ + seq!['"'] + json_escape(s@.take(i + 1 as int)));
        }
        i = i + 1;
    }
    out.append("\"");
    proof {
        assert(s@.take(len as int) =~= s@);
        assert(final(out)@ =~= old(out)@ + json_str(s@));
    }
}

} // verus!
