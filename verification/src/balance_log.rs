//! The persisted last-balance record: a single non-negative integer kept as
//! one line of decimal digits. The library turns the stored bytes into a
//! balance and back; reading and writing the flat file around it is not its
//! business.

use vstd::prelude::*;
use vstd::arithmetic::div_mod::lemma_fundamental_div_mod;

verus! {

/// An ASCII decimal digit.
pub open spec fn is_dec_digit(b: u8) -> bool {
    48 <= b <= 57
}

/// Every byte of `s` is an ASCII decimal digit.
pub open spec fn all_dec_digits(s: Seq<u8>) -> bool {
    forall|i: int| 0 <= i < s.len() ==> is_dec_digit(s[i])
}

/// The number denoted by a sequence of decimal digit bytes, most
/// significant digit first.
pub open spec fn dec_value(s: Seq<u8>) -> nat
    recommends
        all_dec_digits(s),
    decreases s.len(),
{
    if s.len() == 0 {
        0
    } else {
        dec_value(s.drop_last()) * 10 + (s.last() - 48) as nat
    }
}

/// The decimal digit bytes of `v`, most significant digit first, with no
/// leading zeros (a single zero digit for zero).
pub open spec fn dec_repr(v: nat) -> Seq<u8>
    decreases v,
{
    if v < 10 {
        seq![(48 + v) as u8]
    } else {
        dec_repr(v / 10).push((48 + v % 10) as u8)
    }
}

/// Reading a decimal digit prefix never yields more than reading the whole
/// string of digits: the digits after the prefix only scale the value up.
proof fn lemma_dec_value_prefix_le(s: Seq<u8>, i: int)
    requires
        0 <= i <= s.len(),
        forall|j: int| i <= j < s.len() ==> is_dec_digit(s[j]),
    ensures
        dec_value(s.subrange(0, i)) <= dec_value(s),
    decreases s.len() - i,
{
    if i < s.len() {
        assert(s.subrange(0, i + 1).drop_last() =~= s.subrange(0, i));
        assert(dec_value(s.subrange(0, i + 1)) == dec_value(s.subrange(0, i)) * 10 + (s[i]
            - 48) as nat);
        lemma_dec_value_prefix_le(s, i + 1);
    } else {
        assert(s.subrange(0, i) =~= s);
    }
}

/// The digits written for `v` read back as `v`: the record format and its
/// parser agree on every storable balance.
pub proof fn lemma_dec_repr_value(v: nat)
    ensures
        dec_repr(v).len() >= 1,
        all_dec_digits(dec_repr(v)),
        dec_value(dec_repr(v)) == v,
    decreases v,
{
    if v < 10 {
        assert(dec_repr(v).drop_last() =~= Seq::<u8>::empty());
        assert(dec_value(Seq::<u8>::empty()) == 0);
        assert(dec_value(dec_repr(v)) == dec_value(dec_repr(v).drop_last()) * 10 + (dec_repr(
            v,
        ).last() - 48) as nat);
        assert(((48 + v) as u8 - 48) as nat == v);
    } else {
        lemma_dec_repr_value(v / 10);
        lemma_fundamental_div_mod(v as int, 10);
        assert(dec_repr(v).drop_last() =~= dec_repr(v / 10));
        assert(dec_repr(v).last() == (48 + v % 10) as u8);
        assert(((48 + v % 10) as u8 - 48) as nat == v % 10);
        assert(dec_value(dec_repr(v)) == (v / 10) * 10 + v % 10);
    }
}

/// Parse a stored balance line: all decimal digits, at least one, denoting
/// a value that fits the balance type; anything else is rejected.
pub fn parse_balance(line: &[u8]) -> (r: Option<u64>)
    ensures
        match r {
            Some(v) => {
                &&& line@.len() > 0
                &&& all_dec_digits(line@)
                &&& dec_value(line@) == v as nat
            },
            None => line@.len() == 0 || !all_dec_digits(line@) || dec_value(line@) > u64::MAX,
        },
{
    if line.len() == 0 {
        return None;
    }
    let mut acc: u64 = 0;
    let mut i: usize = 0;
    proof {
        assert(line@.subrange(0, 0) =~= Seq::<u8>::empty());
    }
    while i < line.len()
        invariant
            i <= line@.len(),
            forall|j: int| 0 <= j < i ==> is_dec_digit(line@[j]),
            acc as nat == dec_value(line@.subrange(0, i as int)),
        decreases line@.len() - i,
    {
        let b = line[i];
        if b < 48 || b > 57 {
            proof {
                assert(!is_dec_digit(line@[i as int]));
            }
            return None;
        }
        let d = (b - 48) as u64;
        proof {
            assert(line@.subrange(0, i as int + 1).drop_last() =~= line@.subrange(0, i as int));
            assert(dec_value(line@.subrange(0, i as int + 1)) == acc * 10 + d);
        }
        let scaled = match acc.checked_mul(10) {
            Some(x) => x,
            None => {
                proof {
                    if all_dec_digits(line@) {
                        lemma_dec_value_prefix_le(line@, i as int + 1);
                    }
                }
                return None;
            },
        };
        acc = match scaled.checked_add(d) {
            Some(x) => x,
            None => {
                proof {
                    if all_dec_digits(line@) {
                        lemma_dec_value_prefix_le(line@, i as int + 1);
                    }
                }
                return None;
            },
        };
        i = i + 1;
    }
    proof {
        assert(line@.subrange(0, line@.len() as int) =~= line@);
    }
    Some(acc)
}

/// Append the decimal digits of `v` to `out`, most significant first.
fn push_dec_digits(v: u64, out: &mut Vec<u8>)
    ensures
        final(out)@ == old(out)@ + dec_repr(v as nat),
    decreases v,
{
    if v < 10 {
        out.push((v as u8) + 48);
        proof {
            assert(out@ =~= old(out)@ + dec_repr(v as nat));
        }
    } else {
        push_dec_digits(v / 10, out);
        out.push(((v % 10) as u8) + 48);
        proof {
            assert(out@ =~= old(out)@ + dec_repr(v as nat));
        }
    }
}

/// The stored form of a balance: its decimal digits, ready to stand as one
/// line of the flat record.
pub fn format_balance(v: u64) -> (line: Vec<u8>)
    ensures
        line@ == dec_repr(v as nat),
{
    let mut line: Vec<u8> = Vec::new();
    push_dec_digits(v, &mut line);
    proof {
        assert(line@ =~= dec_repr(v as nat));
    }
    line
}

} // verus!
