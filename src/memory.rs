//! Memory sizes as the platforms report them.
use vstd::prelude::*;
use crate::text::{
    chars_of, copy_range, parse_u64, parse_u64_chars, split_words, views_of, words,
};

verus! {

pub const KIB: u64 = 1024;

/// `n * m` where it fits in 64 bits, else 0.
pub open spec fn scaled(n: u64, m: u64) -> u64 {
    if n * m <= u64::MAX {
        (n * m) as u64
    } else {
        0
    }
}

fn scale(n: u64, m: u64) -> (r: u64)
    ensures
        r == scaled(n, m),
{
    match n.checked_mul(m) {
        Some(p) => p,
        None => 0,
    }
}

/// The factor of a unit word: binary multiples of a byte; 0 for any other word.
pub open spec fn unit_factor(u: Seq<char>) -> u64 {
    if u == seq!['G', 'B'] {
        1073741824
    } else if u == seq!['M', 'B'] {
        1048576
    } else if u == seq!['K', 'B'] {
        1024
    } else {
        0
    }
}

/// Where the first space stands, if there is one.
pub open spec fn first_space(s: Seq<char>) -> Option<int> {
    if exists|i: int| 0 <= i < s.len() && s[i] == ' ' {
        Some(
            choose|i: int|
                0 <= i < s.len() && s[i] == ' ' && forall|k: int| 0 <= k < i ==> s[k] != ' ',
        )
    } else {
        None
    }
}

/// Bytes in a size written `<number> <unit>` (`"16 GB"`). A text with no
/// space, a number that does not read, an unknown unit, or a product that
/// does not fit in 64 bits gives 0.
pub open spec fn memory_bytes(s: Seq<char>) -> u64 {
    match first_space(s) {
        None => 0,
        Some(i) => match parse_u64(s.subrange(0, i)) {
            None => 0,
            Some(n) => scaled(n, unit_factor(s.subrange(i + 1, s.len() as int))),
        },
    }
}

/// Reads a size such as `"16 GB"`, `"512 MB"` or `"2048 KB"` as a count of bytes.
pub fn parse_memory_string(s: &str) -> (r: u64)
    ensures
        r == memory_bytes(s@),
{
    let v = chars_of(s);
    let mut i: usize = 0;
    while i < v.len() && v[i] != ' '
        invariant
            i <= v@.len(),
            v@ == s@,
            forall|k: int| 0 <= k < i ==> v@[k] != ' ',
        decreases v@.len() - i,
    {
        i = i + 1;
    }
    if i == v.len() {
        return 0;
    }
    proof {
        let j = first_space(v@)->0;
        assert(v@[i as int] == ' ');
        assert(j == i) by {
            if j < i {
                assert(v@[j] != ' ');
            } else if j > i {
                assert(v@[i as int] != ' ');
            }
        }
    }
    let num = copy_range(&v, 0, i);
    let unit = copy_range(&v, i + 1, v.len());
    let n = match parse_u64_chars(&num) {
        Some(n) => n,
        None => return 0,
    };
    let factor: u64 = if unit.len() == 2 && unit[0] == 'G' && unit[1] == 'B' {
        assert(unit@ =~= seq!['G', 'B']);
        1073741824
    } else if unit.len() == 2 && unit[0] == 'M' && unit[1] == 'B' {
        assert(unit@ =~= seq!['M', 'B']);
        1048576
    } else if unit.len() == 2 && unit[0] == 'K' && unit[1] == 'B' {
        assert(unit@ =~= seq!['K', 'B']);
        KIB
    } else {
        0
    };
    scale(n, factor)
}

/// Bytes in a `/proc/meminfo` total line (`"MemTotal:  16318480 kB"`): its
/// second word read as kibibytes; 0 where that word is missing, does not
/// read, or the product does not fit in 64 bits.
pub open spec fn mem_total_bytes(line: Seq<char>) -> u64 {
    let w = words(line);
    if w.len() >= 2 {
        match parse_u64(w[1]) {
            Some(kb) => scaled(kb, 1024),
            None => 0,
        }
    } else {
        0
    }
}

/// Reads the size on a memory-total line.
pub fn mem_total_of_line(line: &Vec<char>) -> (r: u64)
    ensures
        r == mem_total_bytes(line@),
{
    let w = split_words(line);
    assert(views_of(w@).len() == w@.len());
    if w.len() < 2 {
        return 0;
    }
    assert(views_of(w@)[1] == w@[1]@);
    match parse_u64_chars(&w[1]) {
        Some(kb) => scale(kb, KIB),
        None => 0,
    }
}

} // verus!
