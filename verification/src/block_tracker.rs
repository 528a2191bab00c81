//! The bookkeeping of the last block the feeder processed: what the stored
//! record says, whether the feeder is behind the chain, and how many blocks it
//! missed.

use vstd::prelude::*;
use vstd::string::*;

verus! {

/// The file, in the feeder's data directory, that records the last block.
pub const LAST_BLOCK_FILE: &'static str = "last_block.txt";

/// Whether every character of `s` is an ASCII decimal digit, and there is one.
pub open spec fn is_decimal_digits(s: Seq<char>) -> bool {
    s.len() > 0 && forall|i: int| 0 <= i < s.len() ==> '0' <= #[trigger] s[i] <= '9'
}

/// The number that the decimal digits `s` denote.
pub open spec fn decimal_value(s: Seq<char>) -> nat
    decreases s.len(),
{
    if s.len() == 0 {
        0
    } else {
        decimal_value(s.drop_last()) * 10 + ((s.last() as u32) - ('0' as u32)) as nat
    }
}

/// What std's `u32::from_str` makes of `s`: an optional `+` followed by
/// decimal digits whose value fits in a `u32`; anything else is refused.
pub open spec fn u32_from_decimal(s: Seq<char>) -> Option<u32> {
    let digits = if s.len() > 0 && s[0] == '+' {
        s.drop_first()
    } else {
        s
    };
    if is_decimal_digits(digits) && decimal_value(digits) <= u32::MAX {
        Some(decimal_value(digits) as u32)
    } else {
        None
    }
}

/// The character of the decimal digit `d`.
pub open spec fn digit_char(d: nat) -> char {
    (('0' as u32) + d) as char
}

/// The decimal digits of `n`, most significant first, without leading zeros.
pub open spec fn decimal_digits(n: nat) -> Seq<char>
    decreases n,
{
    if n < 10 {
        seq![digit_char(n)]
    } else {
        decimal_digits(n / 10).push(digit_char(n % 10))
    }
}

/// Whether `s` begins and ends with an ASCII decimal digit.
pub open spec fn ascii_digit_at_both_ends(s: Seq<char>) -> bool {
    s.len() > 0 && '0' <= s[0] <= '9' && '0' <= s.last() <= '9'
}

/// Whether `c` is whitespace in the sense of Unicode's White_Space property,
/// which std's `char::is_whitespace` (and so `str::trim`) follows.
pub open spec fn is_white_space(c: char) -> bool {
    ||| ('\u{9}' <= c && c <= '\u{d}')
    ||| c == ' '
    ||| c == '\u{85}'
    ||| c == '\u{a0}'
    ||| c == '\u{1680}'
    ||| ('\u{2000}' <= c && c <= '\u{200a}')
    ||| c == '\u{2028}'
    ||| c == '\u{2029}'
    ||| c == '\u{202f}'
    ||| c == '\u{205f}'
    ||| c == '\u{3000}'
}

/// `s` without its leading whitespace.
pub open spec fn trim_start(s: Seq<char>) -> Seq<char>
    decreases s.len(),
{
    if s.len() > 0 && is_white_space(s[0]) {
        trim_start(s.drop_first())
    } else {
        s
    }
}

/// `s` without its trailing whitespace.
pub open spec fn trim_end(s: Seq<char>) -> Seq<char>
    decreases s.len(),
{
    if s.len() > 0 && is_white_space(s.last()) {
        trim_end(s.drop_last())
    } else {
        s
    }
}

/// What std's `str::trim` leaves of `s`: `s` without leading and trailing
/// whitespace.
pub open spec fn trimmed(s: Seq<char>) -> Seq<char> {
    trim_end(trim_start(s))
}

/// Whether `c` is whitespace.
fn is_white_space_char(c: char) -> (b: bool)
    ensures
        b == is_white_space(c),
{
    ('\u{9}' <= c && c <= '\u{d}') || c == ' ' || c == '\u{85}' || c == '\u{a0}' || c
        == '\u{1680}' || ('\u{2000}' <= c && c <= '\u{200a}') || c == '\u{2028}' || c
        == '\u{2029}' || c == '\u{202f}' || c == '\u{205f}' || c == '\u{3000}'
}

/// `s` without leading and trailing whitespace.
pub fn trim(s: &str) -> (t: &str)
    ensures
        t@ == trimmed(s@),
{
    let n = s.unicode_len();
    let mut i: usize = 0;
    assert(s@.subrange(0, n as int) =~= s@);
    while i < n && is_white_space_char(s.get_char(i))
        invariant
            n == s@.len(),
            i <= n,
            trim_start(s@) == trim_start(s@.subrange(i as int, n as int)),
        decreases n - i,
    {
        assert(s@.subrange(i as int, n as int).drop_first() =~= s@.subrange(i + 1, n as int));
        i = i + 1;
    }
    assert(trim_start(s@) == s@.subrange(i as int, n as int));
    let mut j: usize = n;
    while j > i && is_white_space_char(s.get_char(j - 1))
        invariant
            n == s@.len(),
            i <= j <= n,
            trimmed(s@) == trim_end(s@.subrange(i as int, j as int)),
        decreases j - i,
    {
        assert(s@.subrange(i as int, j as int).drop_last() =~= s@.subrange(i as int, j - 1));
        j = j - 1;
    }
    s.substring_char(i, j)
}

/// Text that begins and ends with something other than whitespace is left as
/// it is by trimming.
proof fn lemma_trimmed_unchanged(s: Seq<char>)
    requires
        s.len() > 0,
        !is_white_space(s[0]),
        !is_white_space(s.last()),
    ensures
        trimmed(s) == s,
{
}

/// The text of the decimal digit `d`.
fn digit_text(d: u32) -> (t: &'static str)
    requires
        d < 10,
    ensures
        t@ == seq![digit_char(d as nat)],
{
    proof {
        reveal_strlit("0");
        reveal_strlit("1");
        reveal_strlit("2");
        reveal_strlit("3");
        reveal_strlit("4");
        reveal_strlit("5");
        reveal_strlit("6");
        reveal_strlit("7");
        reveal_strlit("8");
        reveal_strlit("9");
    }
    let t = if d == 0 {
        "0"
    } else if d == 1 {
        "1"
    } else if d == 2 {
        "2"
    } else if d == 3 {
        "3"
    } else if d == 4 {
        "4"
    } else if d == 5 {
        "5"
    } else if d == 6 {
        "6"
    } else if d == 7 {
        "7"
    } else if d == 8 {
        "8"
    } else {
        "9"
    };
    assert(t@ =~= seq![digit_char(d as nat)]);
    t
}

/// The decimal digits of `n`, as `u32`'s `ToString` writes them.
fn u32_to_decimal(n: u32) -> (s: String)
    ensures
        s@ == decimal_digits(n as nat),
    decreases n,
{
    if n < 10 {
        String::from_str(digit_text(n))
    } else {
        let mut s = u32_to_decimal(n / 10);
        s.append(digit_text(n % 10));
        assert(s@ =~= decimal_digits((n / 10) as nat).push(digit_char((n % 10) as nat)));
        s
    }
}

/// The record written for block `block_num`: its decimal digits.
pub fn block_record(block_num: u32) -> (record: String)
    ensures
        record@ == decimal_digits(block_num as nat),
{
    u32_to_decimal(block_num)
}

/// Decimal digits denote at least as much as any of their prefixes.
proof fn lemma_decimal_prefix(s: Seq<char>, k: int)
    requires
        0 <= k <= s.len(),
        forall|i: int| 0 <= i < s.len() ==> '0' <= #[trigger] s[i] <= '9',
    ensures
        decimal_value(s.subrange(0, k)) <= decimal_value(s),
    decreases s.len(),
{
    if k < s.len() {
        assert(s.drop_last().subrange(0, k) =~= s.subrange(0, k));
        lemma_decimal_prefix(s.drop_last(), k);
    } else {
        assert(s.subrange(0, k) =~= s);
    }
}

/// What `u32::from_str` makes of `s`: an optional `+` sign followed by
/// decimal digits whose value fits in a `u32`; anything else is refused.
pub fn parse_u32(s: &str) -> (n: Option<u32>)
    ensures
        n == u32_from_decimal(s@),
{
    let len = s.unicode_len();
    let start: usize = if len > 0 && s.get_char(0) == '+' {
        1
    } else {
        0
    };
    let ghost digits = s@.subrange(start as int, len as int);
    assert(digits =~= (if s@.len() > 0 && s@[0] == '+' {
        s@.drop_first()
    } else {
        s@
    }));
    if start == len {
        return None;
    }
    let mut value: u64 = 0;
    let mut i: usize = start;
    while i < len
        invariant
            len == s@.len(),
            start < len,
            start <= i <= len,
            digits == s@.subrange(start as int, len as int),
            digits == (if s@.len() > 0 && s@[0] == '+' {
                s@.drop_first()
            } else {
                s@
            }),
            value == decimal_value(s@.subrange(start as int, i as int)),
            value <= u32::MAX,
            forall|k: int| start <= k < i ==> '0' <= #[trigger] s@[k] <= '9',
        decreases len - i,
    {
        let c = s.get_char(i);
        if !('0' <= c && c <= '9') {
            assert(digits[i - start] == c);
            assert(!is_decimal_digits(digits));
            assert(u32_from_decimal(s@) is None);
            return None;
        }
        let d: u64 = ((c as u32) - ('0' as u32)) as u64;
        let next: u64 = value * 10 + d;
        let ghost prefix = s@.subrange(start as int, i + 1);
        assert(prefix.drop_last() =~= s@.subrange(start as int, i as int));
        assert(prefix.last() == c);
        assert(next == decimal_value(prefix));
        if next > u32::MAX as u64 {
            proof {
                if is_decimal_digits(digits) {
                    assert(digits.subrange(0, (i + 1 - start) as int) =~= prefix);
                    lemma_decimal_prefix(digits, (i + 1 - start) as int);
                    assert(decimal_value(digits) > u32::MAX);
                }
                assert(u32_from_decimal(s@) is None);
            }
            return None;
        }
        value = next;
        i = i + 1;
    }
    assert(s@.subrange(start as int, i as int) =~= digits);
    assert(is_decimal_digits(digits)) by {
        assert forall|k: int| 0 <= k < digits.len() implies '0' <= #[trigger] digits[k] <= '9' by {
            assert(digits[k] == s@[k + start]);
        }
    }
    Some(value as u32)
}

/// The last processed block that a stored record gives: the number the
/// record holds, surrounding whitespace aside, or 0 when it holds none.
pub open spec fn block_from_record(record: Seq<char>) -> u32 {
    match u32_from_decimal(trimmed(record)) {
        Some(n) => n,
        None => 0,
    }
}

/// The block that decimal digits `s`, with no whitespace around them, give:
/// their number, or 0 when they do not form a valid one.
pub open spec fn digits_block(s: Seq<char>) -> u32 {
    match u32_from_decimal(s) {
        Some(n) => n,
        None => 0,
    }
}

/// The block number read from a stored record; a record that holds no valid
/// number counts as block 0.
pub fn parse_last_block(record: &str) -> (block: u32)
    ensures
        block == block_from_record(record@),
        ascii_digit_at_both_ends(record@) ==> block == digits_block(record@),
{
    proof {
        if ascii_digit_at_both_ends(record@) {
            lemma_trimmed_unchanged(record@);
        }
    }
    match parse_u32(trim(record)) {
        Some(n) => n,
        None => 0,
    }
}

/// Whether the walk back from the current block goes on, after `fetched` of
/// the `count` missed blocks were fetched: it stops once all are fetched, or
/// when the last fetched block's parent is the genesis hash (zero).
pub fn walk_continues(fetched: u32, count: u32, reached_genesis: bool) -> (more: bool)
    ensures
        more == (fetched < count && !reached_genesis),
{
    fetched < count && !reached_genesis
}

/// The blocks of a walk back from the current block, oldest first.
pub fn oldest_first<T>(walked: Vec<T>) -> (blocks: Vec<T>)
    ensures
        blocks@ == walked@.reverse(),
{
    let mut walked = walked;
    let ghost original = walked@;
    let mut blocks: Vec<T> = Vec::new();
    while walked.len() > 0
        invariant
            walked@.len() <= original.len(),
            walked@ == original.subrange(0, walked@.len() as int),
            blocks@ == original.subrange(walked@.len() as int, original.len() as int).reverse(),
        decreases walked@.len(),
    {
        let ghost before = blocks@;
        let ghost k = walked@.len() as int;
        let b = walked.pop().unwrap();
        assert(walked@ =~= original.subrange(0, k - 1));
        blocks.push(b);
        assert(blocks@ =~= before.push(original[k - 1]));
        assert(original.subrange(k - 1, original.len() as int).reverse() =~= original.subrange(
            k,
            original.len() as int,
        ).reverse().push(original[k - 1]));
    }
    assert(original.subrange(0, original.len() as int) =~= original);
    blocks
}

/// Whether the feeder has to catch up, and the last processed block after the
/// check: on the first check (nothing processed yet) the current block is
/// taken as processed and no catching up is needed; afterwards the feeder is
/// behind exactly when the chain has moved past the last processed block.
pub open spec fn sync_check(last: Option<u32>, current: u32) -> (bool, Option<u32>) {
    match last {
        None => (false, Some(current)),
        Some(l) => (current > l, Some(l)),
    }
}

/// How many blocks the feeder missed: those after the last processed block
/// (block 0 when none was processed) up to the current one.
pub open spec fn missed_count(last: Option<u32>, current: u32) -> nat {
    let l: u32 = match last {
        Some(l) => l,
        None => 0,
    };
    if current <= l {
        0
    } else {
        (current - l) as nat
    }
}

/// The outcome of a sync check: whether the feeder is behind, and the block
/// number to write to the record, if the check set one.
pub struct SyncCheck {
    pub needs_sync: bool,
    pub record: Option<u32>,
}

/// The last block the feeder processed, if any.
pub struct BlockTracker {
    pub last_processed_block: Option<u32>,
}

impl BlockTracker {
    /// The tracker as the stored record leaves it: without a record (the
    /// first run) nothing was processed; otherwise the record's block.
    pub fn new(record: Option<&str>) -> (tracker: Self)
        ensures
            tracker.last_processed_block == match record {
                None => None,
                Some(r) => Some(block_from_record(r@)),
            },
    {
        let last_processed_block = match record {
            Some(r) => Some(parse_last_block(r)),
            None => None,
        };
        BlockTracker { last_processed_block }
    }

    /// Checks the tracker against the chain's current block. On the first
    /// check the current block becomes the last processed one, and the
    /// result asks for it to be recorded.
    pub fn needs_sync(&mut self, current_block: u32) -> (check: SyncCheck)
        ensures
            (check.needs_sync, final(self).last_processed_block) == sync_check(
                old(self).last_processed_block,
                current_block,
            ),
            check.record == if old(self).last_processed_block is None {
                Some(current_block)
            } else {
                None::<u32>
            },
    {
        match self.last_processed_block {
            None => {
                self.update_last_block(current_block);
                SyncCheck { needs_sync: false, record: Some(current_block) }
            },
            Some(last) => SyncCheck { needs_sync: current_block > last, record: None },
        }
    }

    /// Takes `block_num` as the last processed block.
    pub fn update_last_block(&mut self, block_num: u32)
        ensures
            final(self).last_processed_block == Some(block_num),
    {
        self.last_processed_block = Some(block_num);
    }

    /// How many blocks, walking back from the current one, the feeder has to
    /// fetch to cover those it missed.
    pub fn missed_block_count(&self, current_block: u32) -> (count: u32)
        ensures
            count == missed_count(self.last_processed_block, current_block),
    {
        let last: u32 = match self.last_processed_block {
            Some(l) => l,
            None => 0,
        };
        if current_block <= last {
            0
        } else {
            current_block - last
        }
    }
}

/// Once a block has been processed, the feeder is behind exactly when it
/// missed blocks; a check never moves the last processed block once there is
/// one, and right after the first check at a block the feeder is not behind
/// at that block.
pub proof fn law_sync_matches_missed_blocks(last: Option<u32>, current: u32)
    ensures
        last is Some ==> (sync_check(last, current).0 <==> missed_count(last, current) > 0),
        last is Some ==> sync_check(last, current).1 == last,
        last is None ==> !sync_check(sync_check(last, current).1, current).0,
        missed_count(sync_check(None, current).1, current) == 0,
{
}

/// After block `n` was recorded as processed, the feeder is behind at block
/// `m` exactly when `m > n`, and then it missed `m - n` blocks.
pub proof fn law_update_then_check(n: u32, m: u32)
    ensures
        sync_check(Some(n), m).0 == (m > n),
        m > n ==> missed_count(Some(n), m) == m - n,
        m <= n ==> missed_count(Some(n), m) == 0,
{
}

/// Before any block was processed the count starts at block 0: every block
/// from 1 up to the current one is missed, as if block 0 had been processed.
pub proof fn law_nothing_processed_counts_from_block_zero(current: u32)
    ensures
        missed_count(None, current) == current,
        missed_count(None, current) == missed_count(Some(0), current),
{
}

/// What the tracker writes for block `n` reads back as `n`: the record of a
/// block is its decimal digits, and reading a record takes its number.
pub proof fn law_record_round_trip(n: u32)
    ensures
        block_from_record(decimal_digits(n as nat)) == n,
{
    lemma_decimal_digits(n as nat);
    let d = decimal_digits(n as nat);
    assert(d[0] != '+');
    lemma_trimmed_unchanged(d);
}

/// The decimal digits of `n` are digits and denote `n`.
proof fn lemma_decimal_digits(n: nat)
    ensures
        is_decimal_digits(decimal_digits(n)),
        decimal_value(decimal_digits(n)) == n,
        ascii_digit_at_both_ends(decimal_digits(n)),
    decreases n,
{
    if n >= 10 {
        lemma_decimal_digits(n / 10);
        let d = decimal_digits(n);
        assert(d.drop_last() =~= decimal_digits(n / 10));
        assert(n == (n / 10) * 10 + n % 10) by (nonlinear_arith);
        assert((digit_char(n % 10) as u32) == ('0' as u32) + n % 10);
        assert(d.last() == digit_char(n % 10));
        assert forall|i: int| 0 <= i < d.len() implies '0' <= #[trigger] d[i] <= '9' by {
            if i < d.len() - 1 {
                assert(d[i] == decimal_digits(n / 10)[i]);
            }
        }
    } else {
        assert(decimal_digits(n) =~= seq![digit_char(n)]);
        assert((digit_char(n) as u32) == ('0' as u32) + n);
        assert(seq![digit_char(n)].drop_last() =~= Seq::<char>::empty());
        assert(decimal_value(Seq::<char>::empty()) == 0);
    }
}

} // verus!
