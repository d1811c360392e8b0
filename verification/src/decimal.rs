//! Numbers written in decimal digits.
use vstd::prelude::*;
use vstd::string::*;

verus! {

/// The value of a decimal digit.
pub open spec fn digit_value(c: char) -> Option<nat> {
    if '0' <= c <= '9' {
        Some((c as u32 - '0' as u32) as nat)
    } else {
        None
    }
}

/// The number that the first `n` characters spell, where all of them are
/// decimal digits.
pub open spec fn digits_value(s: Seq<char>, n: nat) -> Option<nat>
    decreases n,
{
    if n == 0 {
        Some(0)
    } else {
        match (digits_value(s, (n - 1) as nat), digit_value(s[n - 1])) {
            (Some(v), Some(d)) => Some(10 * v + d),
            _ => None,
        }
    }
}

/// The number that a text spells: decimal digits, at least one, after an
/// optional plus sign, where the number is below `2^64`.
pub open spec fn decimal_u64(s: Seq<char>) -> Option<u64> {
    let digits = if s.len() > 0 && s[0] == '+' {
        s.subrange(1, s.len() as int)
    } else {
        s
    };
    if digits.len() == 0 {
        None
    } else {
        match digits_value(digits, digits.len()) {
            Some(v) => if v <= u64::MAX {
                Some(v as u64)
            } else {
                None
            },
            None => None,
        }
    }
}

/// A longer run of digits never spells a smaller number.
pub proof fn lemma_digits_value_grows(s: Seq<char>, n: nat, m: nat)
    requires
        n <= m,
        digits_value(s, m) is Some,
    ensures
        digits_value(s, n) is Some,
        digits_value(s, n).unwrap() <= digits_value(s, m).unwrap(),
    decreases m,
{
    if n < m {
        lemma_digits_value_grows(s, n, (m - 1) as nat);
    }
}

/// Reads the number that the characters from `from` up to `to` spell.
pub fn parse_decimal(text: &str, from: usize, to: usize) -> (r: Option<u64>)
    requires
        from <= to <= text@.len(),
    ensures
        r == decimal_u64(text@.subrange(from as int, to as int)),
{
    let ghost piece = text@.subrange(from as int, to as int);
    let start: usize = if from < to && text.get_char(from) == '+' {
        from + 1
    } else {
        from
    };
    if start == to {
        return None;
    }
    let ghost digits = if piece.len() > 0 && piece[0] == '+' {
        piece.subrange(1, piece.len() as int)
    } else {
        piece
    };
    assert(digits =~= text@.subrange(start as int, to as int));
    let mut value: u64 = 0;
    let mut i: usize = start;
    while i < to
        invariant
            from <= start <= i <= to <= text@.len(),
            piece == text@.subrange(from as int, to as int),
            digits == (if piece.len() > 0 && piece[0] == '+' {
                piece.subrange(1, piece.len() as int)
            } else {
                piece
            }),
            digits == text@.subrange(start as int, to as int),
            digits.len() == to - start,
            digits.len() > 0,
            digits_value(digits, (i - start) as nat) == Some(value as nat),
        decreases to - i,
    {
        let c: char = text.get_char(i);
        assert(digits[i - start] == c);
        if c < '0' || c > '9' {
            proof {
                if digits_value(digits, digits.len()) is Some {
                    lemma_digits_value_grows(digits, (i - start + 1) as nat, digits.len());
                }
            }
            return None;
        }
        let d: u64 = (c as u32 - '0' as u32) as u64;
        if value > (u64::MAX - d) / 10 {
            proof {
                if digits_value(digits, digits.len()) is Some {
                    lemma_digits_value_grows(digits, (i - start + 1) as nat, digits.len());
                }
            }
            return None;
        }
        value = value * 10 + d;
        i = i + 1;
    }
    Some(value)
}

/// How long the piece is that begins at `from`: it goes up to the next
/// comma, or to the end of the text.
pub open spec fn piece_len(s: Seq<char>, from: int) -> nat
    decreases s.len() - from,
{
    if from < 0 || from >= s.len() || s[from] == ',' {
        0
    } else {
        1 + piece_len(s, from + 1)
    }
}

/// Where the piece that begins at `from` ends.
pub open spec fn piece_end(s: Seq<char>, from: int) -> int {
    from + piece_len(s, from)
}

/// The byte that a piece spells: a number below 256.
pub open spec fn decimal_u8(piece: Seq<char>) -> Option<u8> {
    match decimal_u64(piece) {
        Some(v) => if v <= 255 {
            Some(v as u8)
        } else {
            None
        },
        None => None,
    }
}

/// The bytes that the pieces from `from` on spell, where each piece between
/// commas spells a byte. An empty piece spells none, so a text that is
/// empty or ends in a comma spells no bytes.
pub open spec fn bytes_from(s: Seq<char>, from: int) -> Option<Seq<u8>>
    decreases s.len() - from,
{
    if from < 0 || from > s.len() {
        None
    } else {
        let end = piece_end(s, from);
        match decimal_u8(s.subrange(from, end)) {
            None => None,
            Some(byte) => if end >= s.len() {
                Some(seq![byte])
            } else {
                match bytes_from(s, end + 1) {
                    Some(rest) => Some(seq![byte] + rest),
                    None => None,
                }
            },
        }
    }
}

/// A piece ends where the first comma stands, or where the text ends.
pub proof fn lemma_piece_end(s: Seq<char>, from: int, end: int)
    requires
        0 <= from <= end <= s.len(),
        forall|j: int| from <= j < end ==> s[j] != ',',
        end == s.len() || s[end] == ',',
    ensures
        piece_end(s, from) == end,
    decreases end - from,
{
    if from < end {
        lemma_piece_end(s, from + 1, end);
    }
}

/// Reads a list of bytes that are written in decimal digits and parted by
/// commas.
pub fn parse_byte_list(text: &str) -> (r: Option<Vec<u8>>)
    ensures
        match r {
            Some(bytes) => bytes_from(text@, 0) == Some(bytes@),
            None => bytes_from(text@, 0) is None,
        },
{
    let len: usize = text.unicode_len();
    let mut bytes: Vec<u8> = Vec::new();
    let mut start: usize = 0;
    let mut i: usize = 0;
    loop
        invariant
            len == text@.len(),
            0 <= start <= i <= len,
            forall|j: int| start <= j < i ==> text@[j] != ',',
            bytes_from(text@, 0) == (match bytes_from(text@, start as int) {
                Some(rest) => Some(bytes@ + rest),
                None => None,
            }),
        decreases len - i,
    {
        if i == len || text.get_char(i) == ',' {
            proof {
                lemma_piece_end(text@, start as int, i as int);
            }
            let byte: u8 = match parse_decimal(text, start, i) {
                Some(v) => {
                    if v > 255 {
                        return None;
                    }
                    v as u8
                },
                None => {
                    return None;
                },
            };
            if i == len {
                let ghost before = bytes@;
                bytes.push(byte);
                assert(bytes@ =~= before + seq![byte]);
                return Some(bytes);
            }
            proof {
                let rest = bytes_from(text@, i + 1);
                if rest is Some {
                    assert(bytes@ + (seq![byte] + rest.unwrap()) =~= bytes@.push(byte)
                        + rest.unwrap());
                }
            }
            bytes.push(byte);
            start = i + 1;
        }
        i = i + 1;
    }
}

} // verus!
