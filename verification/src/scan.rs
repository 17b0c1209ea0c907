//! Difficulty statistics over transaction logs, for the history report.
//!
//! The caller fetches recent transactions and hands over their log lines as
//! raw bytes; extracting each logged difficulty and keeping the count and
//! the maximum happens here.
use vstd::prelude::*;

verus! {

/// An ASCII decimal digit.
pub open spec fn is_ascii_digit(b: u8) -> bool {
    48 <= b && b <= 57
}

/// Digits throughout.
pub open spec fn all_digits(s: Seq<u8>) -> bool {
    forall|k: int| 0 <= k < s.len() ==> is_ascii_digit(#[trigger] s[k])
}

/// The value a decimal digit string spells, most significant digit first.
pub open spec fn digits_value(s: Seq<u8>) -> int
    decreases s.len(),
{
    if s.len() == 0 {
        0
    } else {
        digits_value(s.drop_last()) * 10 + (s.last() - 48)
    }
}

/// The announcement that precedes a logged difficulty: `Program log: Diff `.
pub open spec fn diff_prefix() -> Seq<u8> {
    seq![
        80u8,
        114u8,
        111u8,
        103u8,
        114u8,
        97u8,
        109u8,
        32u8,
        108u8,
        111u8,
        103u8,
        58u8,
        32u8,
        68u8,
        105u8,
        102u8,
        102u8,
        32u8,
    ]
}

/// A line that reports a difficulty: the announcement, then digits and
/// nothing else, spelling a value the report's signed counter can hold.
pub open spec fn diff_line_ok(s: Seq<u8>) -> bool {
    &&& s.len() > 18
    &&& s.subrange(0, 18) == diff_prefix()
    &&& all_digits(s.skip(18))
    &&& digits_value(s.skip(18)) <= i32::MAX
}

/// The difficulty a well-formed line reports.
pub open spec fn diff_line_value(s: Seq<u8>) -> int {
    digits_value(s.skip(18))
}

proof fn lemma_digits_value_nonneg(s: Seq<u8>)
    requires
        all_digits(s),
    ensures
        digits_value(s) >= 0,
    decreases s.len(),
{
    if s.len() > 0 {
        assert(all_digits(s.drop_last()));
        lemma_digits_value_nonneg(s.drop_last());
    }
}

/// A digit string's value never drops as more digits follow.
proof fn lemma_digits_value_take(s: Seq<u8>, j: int)
    requires
        all_digits(s),
        0 <= j <= s.len(),
    ensures
        digits_value(s.take(j)) <= digits_value(s),
    decreases s.len() - j,
{
    if j < s.len() {
        assert(s.take(j + 1).drop_last() =~= s.take(j));
        assert(s.take(j + 1).last() == s[j]);
        assert(all_digits(s.take(j)));
        lemma_digits_value_nonneg(s.take(j));
        assert(digits_value(s.take(j + 1)) == digits_value(s.take(j)) * 10 + (s[j] - 48));
        assert(digits_value(s.take(j)) * 10 >= digits_value(s.take(j))) by (nonlinear_arith)
            requires
                digits_value(s.take(j)) >= 0,
        ;
        lemma_digits_value_take(s, j + 1);
    } else {
        assert(s.take(j) =~= s);
    }
}

/// Reads one log line: `Some(v)` exactly when the line is the announcement
/// followed by digits spelling `v`, with `v` within the counter's range.
pub fn parse_diff_line(line: &Vec<u8>) -> (r: Option<u32>)
    ensures
        match r {
            Some(v) => diff_line_ok(line@) && v == diff_line_value(line@),
            None => !diff_line_ok(line@),
        },
{
    if line.len() <= 18 {
        return None;
    }
    let prefix: [u8; 18] = [
        80u8,
        114u8,
        111u8,
        103u8,
        114u8,
        97u8,
        109u8,
        32u8,
        108u8,
        111u8,
        103u8,
        58u8,
        32u8,
        68u8,
        105u8,
        102u8,
        102u8,
        32u8,
    ];
    proof {
        assert(prefix@ =~= diff_prefix());
    }
    let mut i: usize = 0;
    while i < 18
        invariant
            i <= 18,
            line@.len() > 18,
            prefix@ =~= diff_prefix(),
            forall|k: int| 0 <= k < i ==> line@[k] == diff_prefix()[k],
        decreases 18 - i,
    {
        if line[i] != prefix[i] {
            proof {
                assert(line@.subrange(0, 18)[i as int] == line@[i as int]);
            }
            return None;
        }
        i = i + 1;
    }
    let mut v: u32 = 0;
    let mut j: usize = 18;
    while j < line.len()
        invariant
            18 <= j <= line@.len(),
            line@.len() > 18,
            all_digits(line@.subrange(18, j as int)),
            v == digits_value(line@.subrange(18, j as int)),
            v <= 0x7fffffffu32,
            forall|k: int| 0 <= k < 18 ==> line@[k] == diff_prefix()[k],
        decreases line@.len() - j,
    {
        let b = line[j];
        if b < 48 || b > 57 {
            proof {
                assert(line@.skip(18)[j - 18] == line@[j as int]);
            }
            return None;
        }
        let d: u32 = (b - 48) as u32;
        proof {
            vstd::arithmetic::div_mod::lemma_fundamental_div_mod(0x7fffffff - d as int, 10);
            vstd::arithmetic::div_mod::lemma_mod_bound(0x7fffffff - d as int, 10);
        }
        if v > (0x7fffffffu32 - d) / 10 {
            proof {
                let tail = line@.skip(18);
                assert(line@.subrange(18, j as int + 1).drop_last()
                    =~= line@.subrange(18, j as int));
                assert(line@.subrange(18, j as int + 1).last() == line@[j as int]);
                if all_digits(tail) && digits_value(tail) <= i32::MAX {
                    lemma_digits_value_take(tail, j as int + 1 - 18);
                    assert(tail.take(j as int + 1 - 18) =~= line@.subrange(18, j as int + 1));
                    assert(false);
                }
            }
            return None;
        }
        v = v * 10 + d;
        j = j + 1;
        proof {
            assert(line@.subrange(18, j as int).drop_last() =~= line@.subrange(
                18,
                j as int - 1,
            ));
            assert(line@.subrange(18, j as int).last() == line@[j as int - 1]);
        }
    }
    proof {
        assert(line@.subrange(0, 18) =~= diff_prefix());
        assert(line@.skip(18) =~= line@.subrange(18, j as int));
    }
    Some(v)
}

/// How many lines of the batch report a difficulty.
pub open spec fn diff_count(lines: Seq<Seq<u8>>) -> int
    decreases lines.len(),
{
    if lines.len() == 0 {
        0
    } else {
        diff_count(lines.drop_last()) + if diff_line_ok(lines.last()) {
            1int
        } else {
            0int
        }
    }
}

/// The greatest difficulty any line of the batch reports; zero when none
/// does.
pub open spec fn diff_max(lines: Seq<Seq<u8>>) -> int
    decreases lines.len(),
{
    if lines.len() == 0 {
        0
    } else {
        let rest = diff_max(lines.drop_last());
        let here = if diff_line_ok(lines.last()) {
            diff_line_value(lines.last())
        } else {
            0int
        };
        if here > rest {
            here
        } else {
            rest
        }
    }
}

/// The log batch as mathematical sequences.
pub open spec fn logs_view(lines: Seq<Vec<u8>>) -> Seq<Seq<u8>> {
    lines.map_values(|l: Vec<u8>| l@)
}

/// Walks a batch of log lines and tallies the difficulty reports: how many
/// lines carry one, and the greatest value carried.
pub fn scan_logs(lines: &Vec<Vec<u8>>) -> (r: (usize, u32))
    ensures
        r.0 == diff_count(logs_view(lines@)),
        r.1 == diff_max(logs_view(lines@)),
{
    let mut count: usize = 0;
    let mut max: u32 = 0;
    let mut i: usize = 0;
    while i < lines.len()
        invariant
            i <= lines@.len(),
            count == diff_count(logs_view(lines@).take(i as int)),
            max == diff_max(logs_view(lines@).take(i as int)),
            count <= i,
        decreases lines@.len() - i,
    {
        proof {
            assert(logs_view(lines@).take(i as int + 1).drop_last() =~= logs_view(
                lines@,
            ).take(i as int));
            assert(logs_view(lines@).take(i as int + 1).last() == lines@[i as int]@);
        }
        match parse_diff_line(&lines[i]) {
            Some(vv) => {
                count = count + 1;
                if vv > max {
                    max = vv;
                }
            },
            None => {},
        }
        i = i + 1;
    }
    proof {
        assert(logs_view(lines@).take(lines@.len() as int) =~= logs_view(lines@));
    }
    (count, max)
}

/// The history report looks one minute back from the first transaction it
/// sees; a transaction is reported when its block time reaches the cutoff.
pub fn recent_cutoff(first_block_time: i64) -> (c: i64)
    requires
        first_block_time >= i64::MIN + 60,
    ensures
        c == first_block_time - 60,
{
    first_block_time - 60
}

} // verus!
