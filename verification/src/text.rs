use vstd::prelude::*;
use vstd::string::*;

verus! {

/// Relies on std's `String::push`: appends exactly the one given character
/// to the end of the string.
pub assume_specification[ String::push ](s: &mut String, ch: char)
    ensures
        final (s)@ == old(s)@.push(ch),
;

/// The character for one decimal digit.
pub open spec fn digit_char(d: nat) -> char {
    ((d + 48) as u8) as char
}

/// The decimal rendering of a natural number, most significant digit first,
/// with no leading zeros (a single `'0'` for zero).
pub open spec fn dec_digits(n: nat) -> Seq<char>
    decreases n,
{
    if n < 10 {
        seq![digit_char(n)]
    } else {
        dec_digits(n / 10) + seq![digit_char(n % 10)]
    }
}

/// The decimal rendering of an integer: a leading `'-'` for negatives.
pub open spec fn int_literal(n: int) -> Seq<char> {
    if n < 0 {
        seq!['-'] + dec_digits((-n) as nat)
    } else {
        dec_digits(n as nat)
    }
}

/// The source literal for a boolean.
pub open spec fn bool_literal(b: bool) -> Seq<char> {
    if b {
        "true"@
    } else {
        "false"@
    }
}

/// One character as it appears inside a double-quoted source literal.
pub open spec fn escaped_char(c: char) -> Seq<char> {
    if c == '"' {
        seq!['\\', '"']
    } else if c == '\\' {
        seq!['\\', '\\']
    } else if c == '\n' {
        seq!['\\', 'n']
    } else if c == '\r' {
        seq!['\\', 'r']
    } else if c == '\t' {
        seq!['\\', 't']
    } else {
        seq![c]
    }
}

/// A character sequence as it appears inside a double-quoted source literal.
pub open spec fn escaped(s: Seq<char>) -> Seq<char>
    decreases s.len(),
{
    if s.len() == 0 {
        Seq::empty()
    } else {
        escaped(s.drop_last()) + escaped_char(s.last())
    }
}

/// A double-quoted source literal for the given character sequence.
pub open spec fn quoted(s: Seq<char>) -> Seq<char> {
    seq!['"'] + escaped(s) + seq!['"']
}

/// A dotted path turned into a field identifier: `.` and `-` become `_`.
pub open spec fn sanitized_char(c: char) -> char {
    if c == '.' || c == '-' {
        '_'
    } else {
        c
    }
}

/// The sanitized identifier of a dotted path.
pub open spec fn sanitized(s: Seq<char>) -> Seq<char> {
    Seq::new(s.len(), |i: int| sanitized_char(s[i]))
}

/// Renders a `u64` in decimal.
pub fn u64_to_dec(n: u64) -> (s: String)
    ensures
        s@ == dec_digits(n as nat),
    decreases n,
{
    if n < 10 {
        let mut s = String::new();
        let c = ((n as u8) + 48) as char;
        s.push(c);
        proof {
            assert(s@ =~= dec_digits(n as nat));
        }
        s
    } else {
        let mut s = u64_to_dec(n / 10);
        let c = (((n % 10) as u8) + 48) as char;
        s.push(c);
        proof {
            assert(s@ =~= dec_digits(n as nat));
        }
        s
    }
}

/// Renders an `i64` in decimal, with a leading `-` for negatives.
pub fn i64_to_dec(n: i64) -> (s: String)
    ensures
        s@ == int_literal(n as int),
{
    if n >= 0 {
        u64_to_dec(n as u64)
    } else {
        let mut s = String::new();
        s.push('-');
        let mag: u64 = (-(n as i128)) as u64;
        let t = u64_to_dec(mag);
        s.append(t.as_str());
        proof {
            assert(s@ =~= int_literal(n as int));
        }
        s
    }
}

/// Escapes a string for embedding inside a double-quoted source literal.
pub fn escape_str(s: &str) -> (r: String)
    ensures
        r@ == escaped(s@),
{
    let n = s.unicode_len();
    let mut out = String::new();
    let mut i: usize = 0;
    while i < n
        invariant
            i <= n,
            n == s@.len(),
            out@ == escaped(s@.take(i as int)),
        decreases n - i,
    {
        let c = s.get_char(i);
        if c == '"' {
            out.push('\\');
            out.push('"');
        } else if c == '\\' {
            out.push('\\');
            out.push('\\');
        } else if c == '\n' {
            out.push('\\');
            out.push('n');
        } else if c == '\r' {
            out.push('\\');
            out.push('r');
        } else if c == '\t' {
            out.push('\\');
            out.push('t');
        } else {
            out.push(c);
        }
        i = i + 1;
        proof {
            assert(s@.take(i as int).drop_last() =~= s@.take(i - 1));
            assert(s@.take(i as int).last() == s@[i - 1]);
            assert(out@ =~= escaped(s@.take(i as int)));
        }
    }
    proof {
        assert(s@.take(n as int) =~= s@);
    }
    out
}

/// A double-quoted source literal for the given string.
pub fn quote_str(s: &str) -> (r: String)
    ensures
        r@ == quoted(s@),
{
    let mut out = String::new();
    out.push('"');
    let e = escape_str(s);
    out.append(e.as_str());
    out.push('"');
    proof {
        assert(out@ =~= quoted(s@));
    }
    out
}

/// Replaces every `.` and `-` with `_`, yielding the field identifier
/// for a dotted path.
pub fn sanitize_str(s: &str) -> (r: String)
    ensures
        r@ == sanitized(s@),
{
    let n = s.unicode_len();
    let mut out = String::new();
    let mut i: usize = 0;
    while i < n
        invariant
            i <= n,
            n == s@.len(),
            out@.len() == i,
            forall|j: int| 0 <= j < i ==> out@[j] == sanitized_char(s@[j]),
        decreases n - i,
    {
        let c = s.get_char(i);
        if c == '.' || c == '-' {
            out.push('_');
        } else {
            out.push(c);
        }
        i = i + 1;
    }
    proof {
        assert(out@ =~= sanitized(s@));
    }
    out
}

} // verus!
