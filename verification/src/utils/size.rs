//! Amounts of memory or storage with a unit suffix.

use crate::text::{
    is_digit, is_space, lemma_nat_digits, lemma_parse_uint_of_digits, lemma_trimmed_same, nat_digits,
    parse_u64, parse_uint, push_char, to_chars, trim_bounds, trimmed, u64_to_string,
};
use crate::Error;
use vstd::prelude::*;

verus! {

/// A size with its unit: bytes, or binary multiples of a byte.
#[derive(Debug, Clone, Copy, PartialEq, Eq, Structural)]
pub enum Size {
    Bytes(u64),
    Kilobytes(u64),
    Megabytes(u64),
    Gigabytes(u64),
}

/// The unit that a suffix letter names, as a size of zero in that unit.
pub open spec fn with_unit(n: u64, suffix: char) -> Size {
    if suffix == 'K' || suffix == 'k' {
        Size::Kilobytes(n)
    } else if suffix == 'M' || suffix == 'm' {
        Size::Megabytes(n)
    } else if suffix == 'G' || suffix == 'g' {
        Size::Gigabytes(n)
    } else {
        Size::Bytes(n)
    }
}

/// Whether `c` is a unit suffix, of either case.
pub open spec fn is_suffix(c: char) -> bool {
    c == 'B' || c == 'b' || c == 'K' || c == 'k' || c == 'M' || c == 'm' || c == 'G' || c == 'g'
}

/// What a size string parses to. White space around the string is dropped;
/// what is left is a number, followed by at most one unit suffix of either
/// case, bytes being the unit where there is none.
pub open spec fn spec_parse(s: Seq<char>) -> Option<Size> {
    let t = trimmed(s);
    if t.len() == 0 {
        None
    } else if is_suffix(t.last()) {
        match parse_uint(t.drop_last(), u64::MAX as nat) {
            Some(n) => Some(with_unit(n as u64, t.last())),
            None => None,
        }
    } else {
        match parse_uint(t, u64::MAX as nat) {
            Some(n) => Some(Size::Bytes(n as u64)),
            None => None,
        }
    }
}

impl Size {
    /// The number in front of the unit.
    pub open spec fn count(self) -> u64 {
        match self {
            Size::Bytes(n) => n,
            Size::Kilobytes(n) => n,
            Size::Megabytes(n) => n,
            Size::Gigabytes(n) => n,
        }
    }

    /// The upper-case suffix of the unit.
    pub open spec fn suffix(self) -> char {
        match self {
            Size::Bytes(_) => 'B',
            Size::Kilobytes(_) => 'K',
            Size::Megabytes(_) => 'M',
            Size::Gigabytes(_) => 'G',
        }
    }

    /// The number of bytes in one unit.
    pub open spec fn unit_bytes(self) -> nat {
        match self {
            Size::Bytes(_) => 1,
            Size::Kilobytes(_) => 1024,
            Size::Megabytes(_) => 1024 * 1024,
            Size::Gigabytes(_) => 1024 * 1024 * 1024,
        }
    }

    /// The size in bytes, as a number without bound.
    pub open spec fn spec_bytes(self) -> nat {
        self.count() as nat * self.unit_bytes()
    }

    /// The text of the size: the number, then the upper-case suffix.
    pub open spec fn spec_text(self) -> Seq<char> {
        nat_digits(self.count() as nat).push(self.suffix())
    }

    /// The size in bytes.
    pub fn to_bytes(&self) -> (r: u64)
        requires
            self.spec_bytes() <= u64::MAX,
        ensures
            r == self.spec_bytes(),
    {
        proof {
            let u = self.unit_bytes();
            assert(u == 1 || u == 1024 || u == 1024 * 1024 || u == 1024 * 1024 * 1024);
            assert(self.spec_bytes() == self.count() * u);
        }
        match self {
            Size::Bytes(n) => *n,
            Size::Kilobytes(n) => *n * 1024,
            Size::Megabytes(n) => *n * (1024 * 1024),
            Size::Gigabytes(n) => *n * (1024 * 1024 * 1024),
        }
    }

    /// The size in bytes, or nothing where it does not fit in 64 bits.
    pub fn checked_to_bytes(&self) -> (r: Option<u64>)
        ensures
            match r {
                Some(b) => b == self.spec_bytes(),
                None => self.spec_bytes() > u64::MAX,
            },
    {
        let (n, unit): (u64, u64) = match self {
            Size::Bytes(n) => (*n, 1),
            Size::Kilobytes(n) => (*n, 1024),
            Size::Megabytes(n) => (*n, 1024 * 1024),
            Size::Gigabytes(n) => (*n, 1024 * 1024 * 1024),
        };
        if n > u64::MAX / unit {
            assert(n * unit > u64::MAX) by (nonlinear_arith)
                requires
                    n > u64::MAX / unit,
                    unit > 0,
            ;
            None
        } else {
            assert(n * unit <= u64::MAX) by (nonlinear_arith)
                requires
                    n <= u64::MAX / unit,
                    unit > 0,
            ;
            Some(n * unit)
        }
    }

    /// The text of the size.
    pub fn to_string(&self) -> (r: String)
        ensures
            r@ == self.spec_text(),
    {
        let (n, c): (u64, char) = match self {
            Size::Bytes(n) => (*n, 'B'),
            Size::Kilobytes(n) => (*n, 'K'),
            Size::Megabytes(n) => (*n, 'M'),
            Size::Gigabytes(n) => (*n, 'G'),
        };
        let mut s = u64_to_string(n);
        push_char(&mut s, c);
        s
    }

    /// Parses a size; `BadRequest` where the string is none.
    pub fn from_str(s: &str) -> (r: Result<Size, Error>)
        ensures
            match spec_parse(s@) {
                Some(size) => r == Ok::<Size, Error>(size),
                None => r == Err::<Size, Error>(Error::BadRequest),
            },
    {
        let cs = to_chars(s);
        let (from, to) = trim_bounds(&cs);
        if from == to {
            return Err(Error::BadRequest);
        }
        let last = cs[to - 1];
        let ghost t = trimmed(s@);
        proof {
            assert(t.last() == last);
            assert(t.drop_last() =~= cs@.subrange(from as int, to - 1));
        }
        let suffixed = last == 'B' || last == 'b' || last == 'K' || last == 'k' || last == 'M'
            || last == 'm' || last == 'G' || last == 'g';
        let end: usize = if suffixed {
            to - 1
        } else {
            to
        };
        match parse_u64(&cs, from, end) {
            None => Err(Error::BadRequest),
            Some(n) => {
                if !suffixed || last == 'B' || last == 'b' {
                    Ok(Size::Bytes(n))
                } else if last == 'K' || last == 'k' {
                    Ok(Size::Kilobytes(n))
                } else if last == 'M' || last == 'm' {
                    Ok(Size::Megabytes(n))
                } else {
                    Ok(Size::Gigabytes(n))
                }
            },
        }
    }
}

impl std::str::FromStr for Size {
    type Err = Error;

    fn from_str(s: &str) -> (r: Result<Size, Error>)
        ensures
            match spec_parse(s@) {
                Some(size) => r == Ok::<Size, Error>(size),
                None => r == Err::<Size, Error>(Error::BadRequest),
            },
    {
        Size::from_str(s)
    }
}

/// Parsing the text of a size gives the size back.
pub proof fn lemma_parse_text(size: Size)
    ensures
        spec_parse(size.spec_text()) == Some(size),
{
    let n = size.count() as nat;
    let t = size.spec_text();
    lemma_nat_digits(n);
    let d = nat_digits(n);
    assert(is_digit(d[0]));
    assert(t[0] == d[0]);
    assert(t.last() == size.suffix());
    lemma_trimmed_same(t);
    assert(t.drop_last() =~= d);
    lemma_parse_uint_of_digits(n, u64::MAX as nat);
}

} // verus!
