use vstd::prelude::*;
use vstd::string::StrSliceExecFns;

verus! {

/// Why a port argument was refused.
#[derive(PartialEq, Eq, Structural, Debug, Clone, Copy)]
pub enum PortError {
    /// The text is not an unsigned decimal number that fits a `usize`.
    NotANumber,
    /// The number is outside 1024 to 65535.
    OutOfRange,
}

pub const PORT_MIN: usize = 1024;
pub const PORT_MAX: usize = 65535;

pub open spec fn is_digit_char(c: char) -> bool {
    '0' <= c <= '9'
}

/// The value of a run of decimal digits.
pub open spec fn decimal_value(d: Seq<char>) -> nat
    decreases d.len(),
{
    if d.len() == 0 {
        0
    } else {
        decimal_value(d.drop_last()) * 10 + (d.last() as nat - '0' as nat) as nat
    }
}

/// The digits of a number, past one optional leading `+`.
pub open spec fn unsigned_digits(s: Seq<char>) -> Seq<char> {
    if s.len() > 0 && s[0] == '+' {
        s.drop_first()
    } else {
        s
    }
}

/// The `usize` that `s` spells, as `str::parse` reads it.
pub open spec fn usize_of(s: Seq<char>) -> Option<nat> {
    let d = unsigned_digits(s);
    if d.len() > 0 && (forall|i: int| 0 <= i < d.len() ==> is_digit_char(#[trigger] d[i]))
        && decimal_value(d) <= usize::MAX {
        Some(decimal_value(d))
    } else {
        None
    }
}

/// Reads a port number, which must lie in 1024 to 65535.
pub fn parser_port_in_range(s: &str) -> (r: Result<u16, PortError>)
    ensures
        match usize_of(s@) {
            None => r == Err::<u16, PortError>(PortError::NotANumber),
            Some(v) => if PORT_MIN <= v <= PORT_MAX {
                r == Ok::<u16, PortError>(v as u16)
            } else {
                r == Err::<u16, PortError>(PortError::OutOfRange)
            },
        },
{
    let n = s.unicode_len();
    let start: usize = if n > 0 && s.get_char(0) == '+' { 1 } else { 0 };
    let ghost d = unsigned_digits(s@);
    assert(d =~= s@.subrange(start as int, n as int));
    if start == n {
        return Err(PortError::NotANumber);
    }
    let mut value: usize = 0;
    let mut overflow = false;
    let mut i: usize = start;
    while i < n
        invariant
            n == s@.len(),
            start <= i <= n,
            d == s@.subrange(start as int, n as int),
            d == unsigned_digits(s@),
            forall|k: int| 0 <= k < i - start ==> is_digit_char(#[trigger] d[k]),
            !overflow ==> value == decimal_value(d.take(i - start)),
            overflow ==> decimal_value(d.take(i - start)) > usize::MAX,
        decreases n - i,
    {
        let c = s.get_char(i);
        if !('0' <= c && c <= '9') {
            assert(d[i - start] == c);
            assert(!is_digit_char(d[i - start]));
            assert(!(forall|k: int| 0 <= k < d.len() ==> is_digit_char(#[trigger] d[k])));
            assert(unsigned_digits(s@) == d);
            return Err(PortError::NotANumber);
        }
        let digit = (c as u32 - '0' as u32) as usize;
        let ghost prev = d.take(i - start);
        assert(d.take(i + 1 - start).drop_last() =~= prev);
        assert(d.take(i + 1 - start).last() == c);
        if !overflow {
            match value.checked_mul(10) {
                Some(m) => match m.checked_add(digit) {
                    Some(v) => {
                        value = v;
                    },
                    None => {
                        overflow = true;
                    },
                },
                None => {
                    overflow = true;
                },
            }
        }
        i = i + 1;
    }
    assert(d.take(n - start) =~= d);
    if overflow {
        return Err(PortError::NotANumber);
    }
    assert(forall|k: int| 0 <= k < d.len() ==> is_digit_char(#[trigger] d[k]));
    assert(usize_of(s@) == Some(value as nat));
    if PORT_MIN <= value && value <= PORT_MAX {
        Ok(value as u16)
    } else {
        Err(PortError::OutOfRange)
    }
}

} // verus!
