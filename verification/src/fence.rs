//! Choice of a fence delimiter for wrapping arbitrary content in a fenced
//! block. The delimiter is a run of backticks strictly longer than any run
//! of backticks inside the content (and at least three), so the content can
//! never close the block early.

use vstd::prelude::*;

verus! {

/// Longest run of backticks in `s` at or after position `i`, where `cur` is
/// the length of the backtick run ending just before `i` and `best` the
/// longest run completed so far.
pub open spec fn scan_runs(s: Seq<char>, i: int, cur: nat, best: nat) -> nat
    decreases s.len() - i,
{
    if i < 0 || i >= s.len() {
        if cur > best {
            cur
        } else {
            best
        }
    } else if s[i] == '`' {
        scan_runs(s, i + 1, cur + 1, best)
    } else {
        scan_runs(
            s,
            i + 1,
            0,
            if cur > best {
                cur
            } else {
                best
            },
        )
    }
}

/// Length of the longest run of consecutive backticks in `s`.
pub open spec fn max_backtick_run(s: Seq<char>) -> nat {
    scan_runs(s, 0, 0, 0)
}

/// Length of the fence chosen for content `s`: at least three backticks and
/// strictly more than the longest backtick run inside `s`.
pub open spec fn fence_len_spec(s: Seq<char>) -> nat {
    if max_backtick_run(s) + 1 > 3 {
        (max_backtick_run(s) + 1) as nat
    } else {
        3
    }
}

/// A run of `n` backticks.
pub open spec fn backticks(n: nat) -> Seq<char> {
    Seq::new(n, |i: int| '`')
}

/// The fence delimiter chosen for content `s`.
pub open spec fn fence_spec(s: Seq<char>) -> Seq<char> {
    backticks(fence_len_spec(s))
}

/// The scan result is never below its accumulators.
proof fn lemma_scan_ge(s: Seq<char>, i: int, cur: nat, best: nat)
    requires
        0 <= i <= s.len(),
    ensures
        scan_runs(s, i, cur, best) >= cur,
        scan_runs(s, i, cur, best) >= best,
    decreases s.len() - i,
{
    if i < s.len() {
        if s[i] == '`' {
            lemma_scan_ge(s, i + 1, cur + 1, best);
        } else {
            lemma_scan_ge(
                s,
                i + 1,
                0,
                if cur > best {
                    cur
                } else {
                    best
                },
            );
        }
    }
}

/// Scanning from the start of a backtick run of length `m` yields at least
/// `cur + m`.
proof fn lemma_scan_run_from(s: Seq<char>, i: int, cur: nat, best: nat, m: nat)
    requires
        0 <= i,
        i + m <= s.len(),
        forall|j: int| i <= j < i + m ==> s[j] == '`',
    ensures
        scan_runs(s, i, cur, best) >= cur + m,
    decreases m,
{
    if m == 0 {
        lemma_scan_ge(s, i, cur, best);
    } else {
        lemma_scan_run_from(s, i + 1, cur + 1, best, (m - 1) as nat);
    }
}

/// A scan that has not yet passed a backtick run of length `m` yields at
/// least `m`.
proof fn lemma_scan_sees_run(s: Seq<char>, i: int, cur: nat, best: nat, k: int, m: nat)
    requires
        0 <= i <= s.len(),
        i <= k,
        k + m <= s.len(),
        forall|j: int| k <= j < k + m ==> s[j] == '`',
    ensures
        scan_runs(s, i, cur, best) >= m,
    decreases s.len() - i,
{
    if i == k {
        lemma_scan_run_from(s, i, cur, best, m);
    } else {
        if s[i] == '`' {
            lemma_scan_sees_run(s, i + 1, cur + 1, best, k, m);
        } else {
            lemma_scan_sees_run(
                s,
                i + 1,
                0,
                if cur > best {
                    cur
                } else {
                    best
                },
                k,
                m,
            );
        }
    }
}

/// Fence-escaping law: every backtick run inside the content is strictly
/// shorter than the fence chosen for that content, and the fence is at
/// least three backticks long, so the wrapped content can never terminate
/// the fenced block.
pub proof fn lemma_fence_escapes(code: Seq<char>, k: int, m: nat)
    requires
        0 <= k,
        k + m <= code.len(),
        forall|j: int| k <= j < k + m ==> code[j] == '`',
    ensures
        m < fence_len_spec(code),
        fence_len_spec(code) >= 3,
{
    lemma_scan_sees_run(code, 0, 0, 0, k, m);
}

/// Length of the longest run of consecutive backtick characters in `s`.
pub fn longest_backtick_run(s: &str) -> (r: usize)
    ensures
        r == max_backtick_run(s@),
        r <= s@.len(),
{
    let n = s.unicode_len();
    let mut cur: usize = 0;
    let mut best: usize = 0;
    let mut i: usize = 0;
    while i < n
        invariant
            i <= n,
            n == s@.len(),
            cur <= i,
            best <= i,
            max_backtick_run(s@) == scan_runs(s@, i as int, cur as nat, best as nat),
        decreases n - i,
    {
        let c = s.get_char(i);
        if c == '`' {
            cur = cur + 1;
        } else {
            if cur > best {
                best = cur;
            }
            cur = 0;
        }
        i = i + 1;
    }
    if cur > best {
        best = cur;
    }
    best
}

/// The fence delimiter chosen for `code`, as a string of backticks.
pub fn build_fence(code: &str) -> (r: String)
    requires
        code@.len() < usize::MAX,
    ensures
        r@ == fence_spec(code@),
{
    let run = longest_backtick_run(code);
    let flen: usize = if run + 1 > 3 {
        run + 1
    } else {
        3
    };
    assert(flen as nat == fence_len_spec(code@));
    let mut f = String::new();
    let mut k: usize = 0;
    proof {
        reveal_strlit("`");
        assert(f@ =~= backticks(0));
    }
    while k < flen
        invariant
            k <= flen,
            f@ == backticks(k as nat),
        decreases flen - k,
    {
        f.append("`");
        k = k + 1;
        proof {
            reveal_strlit("`");
            assert(f@ =~= backticks(k as nat));
        }
    }
    f
}

} // verus!
