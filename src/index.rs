use vstd::prelude::*;
use vstd::string::StrSliceExecFns;
use crate::error::{ConvertError, ErrorKind};

verus! {

/// The texts of a sequence of strings.
pub open spec fn texts(v: Seq<String>) -> Seq<Seq<char>> {
    v.map_values(|s: String| s@)
}

pub open spec fn is_digit(c: char) -> bool {
    '0' <= c && c <= '9'
}

/// The digits of an index text: one leading `+` is allowed, as in the parsing of
/// integers by Rust's standard library.
pub open spec fn index_digits(s: Seq<char>) -> Seq<char> {
    if s.len() > 0 && s[0] == '+' {
        s.drop_first()
    } else {
        s
    }
}

/// A non-empty run of decimal digits, with an optional leading `+`.
pub open spec fn is_index_text(s: Seq<char>) -> bool {
    let d = index_digits(s);
    d.len() > 0 && forall|i: int| 0 <= i < d.len() ==> is_digit(#[trigger] d[i])
}

/// The number that a run of decimal digits writes.
pub open spec fn digits_value(s: Seq<char>) -> nat
    decreases s.len(),
{
    if s.len() == 0 {
        0
    } else {
        digits_value(s.drop_last()) * 10 + ((s.last() as u32) - 48) as nat
    }
}

/// The index that an index text writes.
pub open spec fn index_value(s: Seq<char>) -> nat {
    digits_value(index_digits(s))
}

/// The field that a cell yields: its text where it has no type attribute, else
/// the shared string at the index that its text writes.
pub open spec fn cell_field(typed: bool, value: Seq<char>, table: Seq<Seq<char>>) -> Result<
    Seq<char>,
    ErrorKind,
> {
    if !typed {
        Ok(value)
    } else if !is_index_text(value) {
        Err(ErrorKind::MalformedIndex)
    } else if index_value(value) >= table.len() {
        Err(ErrorKind::IndexOutOfRange)
    } else {
        Ok(table[index_value(value) as int])
    }
}

proof fn lemma_digits_value_step(s: Seq<char>, i: int)
    requires
        0 <= i < s.len(),
    ensures
        digits_value(s.take(i + 1)) == digits_value(s.take(i)) * 10 + ((s[i] as u32) - 48) as nat,
{
    assert(s.take(i + 1).drop_last() =~= s.take(i));
}

/// Resolves the text of a cell to the field it yields.
pub fn resolve_cell(typed: bool, value: &String, table: &Vec<String>) -> (r: Result<String, ConvertError>)
    ensures
        r matches Ok(f) ==> cell_field(typed, value@, texts(table@)) == Ok::<Seq<char>, ErrorKind>(f@),
        r matches Err(e) ==> cell_field(typed, value@, texts(table@)) == Err::<Seq<char>, ErrorKind>(e.kind()),
{
    if !typed {
        return Ok(value.clone());
    }
    let s = value.as_str();
    let n = s.unicode_len();
    let start: usize = if n > 0 && s.get_char(0) == '+' { 1 } else { 0 };
    let ghost d = index_digits(s@);
    assert(d =~= s@.subrange(start as int, n as int));
    if n == start {
        return Err(ConvertError::MalformedIndex(value.clone()));
    }
    let cap = table.len() as u128;
    let mut acc: u128 = 0;
    let mut over = cap == 0;
    let mut i: usize = start;
    assert(d.take(0) =~= Seq::<char>::empty());
    while i < n
        invariant
            typed,
            n == s@.len(),
            s@ == value@,
            start <= i <= n,
            d == index_digits(value@),
            d =~= s@.subrange(start as int, n as int),
            cap == table@.len(),
            cap <= 0xffff_ffff_ffff_ffffu128,
            acc <= cap,
            forall|j: int| 0 <= j < i - start ==> is_digit(#[trigger] d[j]),
            over == (digits_value(d.take(i - start)) >= cap),
            !over ==> acc == digits_value(d.take(i - start)),
        decreases n - i,
    {
        let c = s.get_char(i);
        assert(c == d[i - start]);
        if c < '0' || c > '9' {
            assert(!is_digit(d[i - start]));
            assert(!is_index_text(value@));
            return Err(ConvertError::MalformedIndex(value.clone()));
        }
        proof {
            lemma_digits_value_step(d, i - start);
        }
        if !over {
            let dv = (c as u32 - 48) as u128;
            let next = acc * 10 + dv;
            if next >= cap {
                over = true;
            } else {
                acc = next;
            }
        }
        i = i + 1;
    }
    assert(d.take(n - start) =~= d);
    if over {
        Err(ConvertError::IndexOutOfRange(value.clone()))
    } else {
        let k = acc as usize;
        Ok(table[k].clone())
    }
}

} // verus!
