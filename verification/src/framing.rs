//! Framing of a streamed completion response: each network chunk carries
//! newline-delimited text, and every line that starts with `data:` carries
//! one JSON payload after that prefix. The library cuts chunks into lines
//! and hands the payload bytes out; turning a payload into a typed record is
//! left to the unverified rim around the library.

use vstd::prelude::*;
use vstd::slice::slice_subrange;
use vstd::slice::slice_to_vec;

verus! {

/// The byte sequences held by a vector of byte vectors.
pub open spec fn byte_views(v: Seq<Vec<u8>>) -> Seq<Seq<u8>> {
    v.map_values(|l: Vec<u8>| l@)
}

/// Index of the first occurrence of `b` in `s`, or `-1` when `b` does not
/// occur.
pub open spec fn find_byte(s: Seq<u8>, b: u8) -> int
    decreases s.len(),
{
    if s.len() == 0 {
        -1
    } else if s[0] == b {
        0
    } else {
        let r = find_byte(s.subrange(1, s.len() as int), b);
        if r < 0 {
            -1
        } else {
            r + 1
        }
    }
}

/// When `find_byte` reports an occurrence, it lies in bounds, holds `b`,
/// and nothing before it holds `b`.
pub proof fn lemma_find_byte_found(s: Seq<u8>, b: u8)
    ensures
        find_byte(s, b) >= 0 ==> {
            &&& find_byte(s, b) < s.len()
            &&& s[find_byte(s, b)] == b
            &&& forall|i: int| 0 <= i < find_byte(s, b) ==> s[i] != b
        },
    decreases s.len(),
{
    if s.len() != 0 && s[0] != b {
        let tail = s.subrange(1, s.len() as int);
        lemma_find_byte_found(tail, b);
        if find_byte(s, b) >= 0 {
            assert(forall|i: int| 1 <= i < find_byte(s, b) ==> s[i] == tail[i - 1]);
        }
    }
}

/// `find_byte` returns exactly the position of the first occurrence.
pub proof fn lemma_find_byte_at(s: Seq<u8>, b: u8, k: int)
    requires
        0 <= k < s.len(),
        s[k] == b,
        forall|i: int| 0 <= i < k ==> s[i] != b,
    ensures
        find_byte(s, b) == k,
    decreases s.len(),
{
    if k > 0 {
        let tail = s.subrange(1, s.len() as int);
        assert(forall|i: int| 0 <= i < k - 1 ==> tail[i] == s[i + 1]);
        lemma_find_byte_at(tail, b, k - 1);
    }
}

/// A carriage return just before the line feed belongs to the line
/// terminator, not to the line.
pub open spec fn strip_cr(l: Seq<u8>) -> Seq<u8> {
    if l.len() > 0 && l[l.len() - 1] == 13 {
        l.subrange(0, l.len() - 1)
    } else {
        l
    }
}

/// The lines of `s`: split at each line feed, with a carriage return
/// directly before a line feed removed, and no empty line after a final
/// line feed. A trailing carriage return without a line feed stays in the
/// last line.
pub open spec fn spec_lines(s: Seq<u8>) -> Seq<Seq<u8>>
    decreases s.len(),
{
    if s.len() == 0 {
        Seq::empty()
    } else {
        let i = find_byte(s, 10);
        if 0 <= i < s.len() {
            seq![strip_cr(s.subrange(0, i))] + spec_lines(s.subrange(i + 1, s.len() as int))
        } else {
            seq![s]
        }
    }
}

/// Cut a chunk of streamed bytes into its lines.
pub fn split_lines(chunk: &[u8]) -> (lines: Vec<Vec<u8>>)
    ensures
        byte_views(lines@) == spec_lines(chunk@),
{
    let mut lines: Vec<Vec<u8>> = Vec::new();
    let mut cur: Vec<u8> = Vec::new();
    let mut idx: usize = 0;
    proof {
        assert(cur@ + chunk@.subrange(0, chunk@.len() as int) =~= chunk@);
        assert(byte_views(lines@) + spec_lines(chunk@) =~= spec_lines(chunk@));
    }
    while idx < chunk.len()
        invariant
            idx <= chunk@.len(),
            forall|j: int| 0 <= j < cur@.len() ==> cur@[j] != 10,
            spec_lines(chunk@) == byte_views(lines@) + spec_lines(
                cur@ + chunk@.subrange(idx as int, chunk@.len() as int),
            ),
        decreases chunk@.len() - idx,
    {
        let ghost rest = cur@ + chunk@.subrange(idx as int, chunk@.len() as int);
        let ghost tail = chunk@.subrange(idx as int + 1, chunk@.len() as int);
        let b = chunk[idx];
        if b == 10 {
            let ghost line0 = cur@;
            proof {
                lemma_find_byte_at(rest, 10, line0.len() as int);
                assert(rest.subrange(0, line0.len() as int) =~= line0);
                assert(rest.subrange(line0.len() as int + 1, rest.len() as int) =~= tail);
                assert(spec_lines(rest) == seq![strip_cr(line0)] + spec_lines(tail));
            }
            if cur.len() > 0 && cur[cur.len() - 1] == 13 {
                cur.pop();
            }
            proof {
                assert(cur@ =~= strip_cr(line0));
            }
            let ghost prev_lines = byte_views(lines@);
            lines.push(cur);
            cur = Vec::new();
            proof {
                assert(byte_views(lines@) =~= prev_lines.push(strip_cr(line0)));
                assert(byte_views(lines@) + spec_lines(tail) =~= prev_lines + (seq![
                    strip_cr(line0),
                ] + spec_lines(tail)));
                assert(cur@ + tail =~= tail);
            }
        } else {
            cur.push(b);
            proof {
                assert(cur@ + tail =~= rest);
            }
        }
        idx = idx + 1;
    }
    proof {
        assert(cur@ + chunk@.subrange(idx as int, chunk@.len() as int) =~= cur@);
    }
    if cur.len() > 0 {
        proof {
            lemma_find_byte_found(cur@, 10);
            assert(spec_lines(cur@) == seq![cur@]);
        }
        let ghost prev_lines = byte_views(lines@);
        let ghost last_line = cur@;
        lines.push(cur);
        proof {
            assert(byte_views(lines@) =~= prev_lines.push(last_line));
            assert(prev_lines.push(last_line) =~= prev_lines + seq![last_line]);
        }
    } else {
        proof {
            assert(byte_views(lines@) + spec_lines(cur@) =~= byte_views(lines@));
        }
    }
    lines
}

/// The five bytes of the `data:` prefix that marks a payload line.
pub open spec fn data_prefix() -> Seq<u8> {
    seq![100u8, 97u8, 116u8, 97u8, 58u8]
}

/// A line carries a payload when it starts with the `data:` prefix.
pub open spec fn starts_with_data(l: Seq<u8>) -> bool {
    l.len() >= 5 && l.subrange(0, 5) == data_prefix()
}

/// Whether one line starts with the `data:` prefix.
pub fn is_data_line(line: &Vec<u8>) -> (r: bool)
    ensures
        r == starts_with_data(line@),
{
    if line.len() < 5 {
        return false;
    }
    let r = line[0] == 100 && line[1] == 97 && line[2] == 116 && line[3] == 97 && line[4] == 58;
    proof {
        if r {
            assert(line@.subrange(0, 5) =~= data_prefix());
        } else {
            assert(line@.subrange(0, 5) != data_prefix());
        }
    }
    r
}

/// The payloads carried by a sequence of lines: for each line that starts
/// with `data:`, the bytes after that prefix, in line order.
pub open spec fn spec_payloads(lines: Seq<Seq<u8>>) -> Seq<Seq<u8>>
    decreases lines.len(),
{
    if lines.len() == 0 {
        Seq::empty()
    } else {
        let init = spec_payloads(lines.drop_last());
        let l = lines.last();
        if starts_with_data(l) {
            init.push(l.subrange(5, l.len() as int))
        } else {
            init
        }
    }
}

/// Extract every `data:` payload of one streamed chunk, in order.
pub fn extract_data_payloads(chunk: &[u8]) -> (payloads: Vec<Vec<u8>>)
    ensures
        byte_views(payloads@) == spec_payloads(spec_lines(chunk@)),
{
    let lines = split_lines(chunk);
    let mut payloads: Vec<Vec<u8>> = Vec::new();
    let mut i: usize = 0;
    proof {
        assert(byte_views(lines@).subrange(0, 0) =~= Seq::<Seq<u8>>::empty());
        assert(byte_views(payloads@) =~= spec_payloads(byte_views(lines@).subrange(0, 0)));
    }
    while i < lines.len()
        invariant
            i <= lines@.len(),
            byte_views(lines@) == spec_lines(chunk@),
            byte_views(payloads@) == spec_payloads(byte_views(lines@).subrange(0, i as int)),
        decreases lines@.len() - i,
    {
        let ghost done = byte_views(lines@).subrange(0, i as int);
        let ghost next = byte_views(lines@).subrange(0, i as int + 1);
        proof {
            assert(next.drop_last() =~= done);
            assert(next.last() == lines@[i as int]@);
        }
        let line = &lines[i];
        if is_data_line(line) {
            let payload = slice_to_vec(slice_subrange(line.as_slice(), 5, line.len()));
            let ghost prev_payloads = byte_views(payloads@);
            payloads.push(payload);
            proof {
                assert(byte_views(payloads@) =~= prev_payloads.push(
                    next.last().subrange(5, next.last().len() as int),
                ));
            }
        }
        i = i + 1;
    }
    proof {
        assert(byte_views(lines@).subrange(0, lines@.len() as int) =~= byte_views(lines@));
    }
    payloads
}

} // verus!
