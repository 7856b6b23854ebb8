//! Seek positions typed as `hh:mm:ss` or `mm:ss`.
use vstd::prelude::*;
use vstd::string::*;

verus! {

/// Which part of a seek position is not valid.
#[derive(Clone, Copy, Debug, PartialEq, Eq, Structural)]
pub enum TimeError {
    /// Neither `hh:mm:ss` nor `mm:ss`.
    Format,
    /// The hours are not a number, or too large.
    Hours,
    /// The minutes are not a number below 60.
    Minutes,
    /// The seconds are not a number below 60.
    Seconds,
}

/// The parts of `s` between colons.
pub open spec fn fields(s: Seq<char>) -> Seq<Seq<char>>
    decreases s.len(),
{
    if s.len() == 0 {
        seq![seq![]]
    } else {
        let r = fields(s.drop_last());
        if s.last() == ':' {
            r.push(seq![])
        } else {
            r.update(r.len() - 1, r.last().push(s.last()))
        }
    }
}

pub open spec fn is_digit(c: char) -> bool {
    '0' <= c && c <= '9'
}

/// One or more decimal digits.
pub open spec fn numeric(d: Seq<char>) -> bool {
    d.len() > 0 && forall|i: int| 0 <= i < d.len() ==> is_digit(#[trigger] d[i])
}

/// The number that decimal digits stand for.
pub open spec fn number(d: Seq<char>) -> nat
    decreases d.len(),
{
    if d.len() == 0 {
        0
    } else {
        number(d.drop_last()) * 10 + ((d.last() as u32) - ('0' as u32)) as nat
    }
}

/// A minutes or seconds field: a number below 60.
pub open spec fn sexagesimal(d: Seq<char>) -> bool {
    numeric(d) && number(d) < 60
}

/// The seek position that `s` gives, in seconds.
pub open spec fn seek_seconds(s: Seq<char>) -> Result<nat, TimeError> {
    let f = fields(s);
    if f.len() == 2 {
        if !sexagesimal(f[0]) {
            Err(TimeError::Minutes)
        } else if !sexagesimal(f[1]) {
            Err(TimeError::Seconds)
        } else {
            Ok(number(f[0]) * 60 + number(f[1]))
        }
    } else if f.len() == 3 {
        if !numeric(f[0]) || number(f[0]) * 3600 + 3599 > u64::MAX {
            Err(TimeError::Hours)
        } else if !sexagesimal(f[1]) {
            Err(TimeError::Minutes)
        } else if !sexagesimal(f[2]) {
            Err(TimeError::Seconds)
        } else {
            Ok(number(f[0]) * 3600 + number(f[1]) * 60 + number(f[2]))
        }
    } else {
        Err(TimeError::Format)
    }
}

proof fn lemma_fields_nonempty(s: Seq<char>)
    ensures
        fields(s).len() >= 1,
    decreases s.len(),
{
    if s.len() > 0 {
        lemma_fields_nonempty(s.drop_last());
    }
}

/// The fields of `s`, each as its characters.
fn split_fields(s: &str) -> (r: Vec<Vec<char>>)
    ensures
        r@.len() == fields(s@).len(),
        forall|i: int| 0 <= i < r@.len() ==> #[trigger] r@[i]@ == fields(s@)[i],
{
    let n = s.unicode_len();
    let mut done: Vec<Vec<char>> = Vec::new();
    let mut cur: Vec<char> = Vec::new();
    let mut i: usize = 0;
    assert(s@.subrange(0, 0) =~= Seq::<char>::empty());
    while i < n
        invariant
            n == s@.len(),
            i <= n,
            fields(s@.subrange(0, i as int)).len() == done@.len() + 1,
            forall|k: int|
                0 <= k < done@.len() ==> #[trigger] done@[k]@ == fields(s@.subrange(0, i as int))[k],
            cur@ == fields(s@.subrange(0, i as int)).last(),
        decreases n - i,
    {
        let c = s.get_char(i);
        let ghost before = s@.subrange(0, i as int);
        proof {
            let after = s@.subrange(0, i + 1);
            assert(after.drop_last() =~= before);
            assert(after.last() == c);
            lemma_fields_nonempty(before);
        }
        if c == ':' {
            done.push(cur);
            cur = Vec::new();
        } else {
            cur.push(c);
        }
        i += 1;
    }
    assert(s@.subrange(0, n as int) =~= s@);
    done.push(cur);
    done
}

/// The number that decimal digits stand for, where they are one or more digits and the
/// number fits in a `u64`.
pub(crate) fn parse_number(d: &Vec<char>) -> (r: Option<u64>)
    ensures
        r.is_some() == (numeric(d@) && number(d@) <= u64::MAX),
        r matches Some(v) ==> v == number(d@),
{
    if d.len() == 0 {
        return None;
    }
    let mut v: u64 = 0;
    let mut i: usize = 0;
    while i < d.len()
        invariant
            i <= d@.len(),
            d@.len() > 0,
            forall|k: int| 0 <= k < i ==> is_digit(#[trigger] d@[k]),
            v == number(d@.subrange(0, i as int)),
        decreases d@.len() - i,
    {
        let c = d[i];
        proof {
            assert(d@.subrange(0, i + 1).drop_last() =~= d@.subrange(0, i as int));
        }
        if !('0' <= c && c <= '9') {
            return None;
        }
        let digit = (c as u32 - '0' as u32) as u64;
        if v > (u64::MAX - digit) / 10 {
            proof {
                lemma_number_grows(d@, i as int);
            }
            return None;
        }
        v = v * 10 + digit;
        i += 1;
    }
    assert(d@.subrange(0, i as int) =~= d@);
    Some(v)
}

/// A number never shrinks as digits are added.
proof fn lemma_number_grows(d: Seq<char>, i: int)
    requires
        0 <= i < d.len(),
        number(d.subrange(0, i + 1)) > u64::MAX,
    ensures
        (forall|k: int| 0 <= k < d.len() ==> is_digit(#[trigger] d[k])) ==> number(d) > u64::MAX,
    decreases d.len() - i,
{
    if i + 1 == d.len() {
        assert(d.subrange(0, i + 1) =~= d);
    } else {
        assert(d.subrange(0, i + 2).drop_last() =~= d.subrange(0, i + 1));
        lemma_number_grows(d, i + 1);
    }
}

/// Reads a seek position, `hh:mm:ss` or `mm:ss`, as seconds.
pub fn parse_seek_time(text: &str) -> (r: Result<u64, TimeError>)
    ensures
        match seek_seconds(text@) {
            Ok(n) => r == Ok::<u64, TimeError>(n as u64),
            Err(e) => r == Err::<u64, TimeError>(e),
        },
{
    let f = split_fields(text);
    if f.len() == 2 {
        let m = parse_number(&f[0]);
        let m = match m {
            Some(m) if m < 60 => m,
            _ => return Err(TimeError::Minutes),
        };
        let sec = match parse_number(&f[1]) {
            Some(x) if x < 60 => x,
            _ => return Err(TimeError::Seconds),
        };
        Ok(m * 60 + sec)
    } else if f.len() == 3 {
        let h = match parse_number(&f[0]) {
            Some(h) if h <= (u64::MAX - 3599) / 3600 => h,
            _ => return Err(TimeError::Hours),
        };
        let m = match parse_number(&f[1]) {
            Some(m) if m < 60 => m,
            _ => return Err(TimeError::Minutes),
        };
        let sec = match parse_number(&f[2]) {
            Some(x) if x < 60 => x,
            _ => return Err(TimeError::Seconds),
        };
        Ok(h * 3600 + m * 60 + sec)
    } else {
        Err(TimeError::Format)
    }
}

} // verus!
