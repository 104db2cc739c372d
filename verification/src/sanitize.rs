//! Log sanitizer: removes terminal control sequences from log lines
//! before they are projected.
//!
//! A control sequence is one introducer character (`ESC`, or its 8-bit
//! single-shifted equivalent U+009B), a run of intermediate characters
//! (`[`, `(`, `)`, `#`, `;`, `?`), an optional run of parameter
//! characters (decimal digits and `;`), and exactly one final byte from a
//! fixed class.  Both runs are taken greedily; when no final byte follows
//! the parameter run, the sequence still ends at the last parameter digit
//! (a digit is itself a valid final byte), and when the parameters hold
//! no digit at all the text is left intact.  Sanitization is pure and
//! total: line order and count are always preserved, and text outside a
//! control sequence — including non-ASCII content — passes through
//! unchanged.

use vstd::prelude::*;

verus! {

/// An introducer: `ESC` or the 8-bit control-sequence introducer.
pub open spec fn is_intro(c: char) -> bool {
    c == '\u{1b}' || c == '\u{9b}'
}

/// An intermediate character, allowed between the introducer and the
/// parameters.
pub open spec fn is_inter(c: char) -> bool {
    c == '[' || c == '(' || c == ')' || c == '#' || c == ';' || c == '?'
}

/// A decimal digit.
pub open spec fn is_digit(c: char) -> bool {
    '0' <= c && c <= '9'
}

/// A parameter character: a digit or a `;` separator.
pub open spec fn is_param(c: char) -> bool {
    is_digit(c) || c == ';'
}

/// A final byte, ending a control sequence.
pub open spec fn is_final(c: char) -> bool {
    ||| is_digit(c)
    ||| ('A' <= c && c <= 'P')
    ||| c == 'R'
    ||| c == 'Z'
    ||| c == 'c'
    ||| ('f' <= c && c <= 'n')
    ||| c == 'q'
    ||| c == 'r'
    ||| c == 'y'
    ||| c == '='
    ||| c == '>'
    ||| c == '<'
}

/// The end of the run of intermediate characters starting at `i`.
pub open spec fn inter_run_end(s: Seq<char>, i: int) -> int
    decreases s.len() - i
        when 0 <= i <= s.len()
{
    if i < s.len() && is_inter(s[i]) {
        inter_run_end(s, i + 1)
    } else {
        i
    }
}

/// The end of the run of parameter characters starting at `i`.
pub open spec fn param_run_end(s: Seq<char>, i: int) -> int
    decreases s.len() - i
        when 0 <= i <= s.len()
{
    if i < s.len() && is_param(s[i]) {
        param_run_end(s, i + 1)
    } else {
        i
    }
}

/// One past the last digit within `s[j..k]`, or `j` when that range holds
/// no digit.
pub open spec fn last_digit_end(s: Seq<char>, j: int, k: int) -> int
    decreases k - j
        when j <= k
{
    if k <= j {
        j
    } else if is_digit(s[k - 1]) {
        k
    } else {
        last_digit_end(s, j, k - 1)
    }
}

/// The length of the control sequence starting at the head of `s`, or
/// `None` when `s` does not start with one.
pub open spec fn ansi_match_len(s: Seq<char>) -> Option<int> {
    if s.len() == 0 || !is_intro(s[0]) {
        None
    } else {
        let j = inter_run_end(s, 1);
        let k = param_run_end(s, j);
        if k < s.len() && is_final(s[k]) {
            Some(k + 1)
        } else {
            let e = last_digit_end(s, j, k);
            if e > j {
                Some(e)
            } else {
                None
            }
        }
    }
}

pub proof fn lemma_inter_run_end_bounds(s: Seq<char>, i: int)
    requires
        0 <= i <= s.len(),
    ensures
        i <= inter_run_end(s, i) <= s.len(),
    decreases s.len() - i,
{
    if i < s.len() && is_inter(s[i]) {
        lemma_inter_run_end_bounds(s, i + 1);
    }
}

pub proof fn lemma_param_run_end_bounds(s: Seq<char>, i: int)
    requires
        0 <= i <= s.len(),
    ensures
        i <= param_run_end(s, i) <= s.len(),
    decreases s.len() - i,
{
    if i < s.len() && is_param(s[i]) {
        lemma_param_run_end_bounds(s, i + 1);
    }
}

pub proof fn lemma_last_digit_end_bounds(s: Seq<char>, j: int, k: int)
    requires
        j <= k,
    ensures
        j <= last_digit_end(s, j, k) <= k,
    decreases k - j,
{
    if k > j && !is_digit(s[k - 1]) {
        lemma_last_digit_end_bounds(s, j, k - 1);
    }
}

/// A recognized control sequence covers the introducer and at least one
/// more character, and never runs past the end of the text.
pub proof fn lemma_ansi_match_len_bounds(s: Seq<char>)
    ensures
        ansi_match_len(s) matches Some(l) ==> 2 <= l <= s.len(),
{
    if s.len() > 0 && is_intro(s[0]) {
        lemma_inter_run_end_bounds(s, 1);
        let j = inter_run_end(s, 1);
        lemma_param_run_end_bounds(s, j);
        let k = param_run_end(s, j);
        lemma_last_digit_end_bounds(s, j, k);
    }
}

/// The text with every control sequence removed, scanning left to right.
pub open spec fn strip_seq(s: Seq<char>) -> Seq<char>
    decreases s.len()
        via strip_seq_decreases
{
    if s.len() == 0 {
        s
    } else {
        match ansi_match_len(s) {
            Some(l) => strip_seq(s.skip(l)),
            None => seq![s[0]] + strip_seq(s.skip(1)),
        }
    }
}

#[via_fn]
proof fn strip_seq_decreases(s: Seq<char>) {
    lemma_ansi_match_len_bounds(s);
}

/// Text with no introducer character sanitizes to itself.
pub proof fn lemma_strip_seq_no_intro(s: Seq<char>)
    requires
        forall|i: int| 0 <= i < s.len() ==> !is_intro(s[i]),
    ensures
        strip_seq(s) == s,
    decreases s.len(),
{
    if s.len() > 0 {
        assert(ansi_match_len(s) is None);
        lemma_strip_seq_no_intro(s.skip(1));
        assert(seq![s[0]] + s.skip(1) =~= s);
    }
}

fn is_inter_exec(c: char) -> (r: bool)
    ensures
        r == is_inter(c),
{
    c == '[' || c == '(' || c == ')' || c == '#' || c == ';' || c == '?'
}

fn is_digit_exec(c: char) -> (r: bool)
    ensures
        r == is_digit(c),
{
    let u = c as u32;
    if 48 <= u && u <= 57 {
        assert('0' <= c && c <= '9');
        true
    } else {
        assert(!('0' <= c && c <= '9'));
        false
    }
}

fn is_param_exec(c: char) -> (r: bool)
    ensures
        r == is_param(c),
{
    is_digit_exec(c) || c == ';'
}

fn is_final_exec(c: char) -> (r: bool)
    ensures
        r == is_final(c),
{
    let u = c as u32;
    let in_upper = 65 <= u && u <= 80;
    let in_lower = 102 <= u && u <= 110;
    proof {
        assert(in_upper == ('A' <= c && c <= 'P'));
        assert(in_lower == ('f' <= c && c <= 'n'));
    }
    is_digit_exec(c) || in_upper || c == 'R' || c == 'Z' || c == 'c' || in_lower || c == 'q'
        || c == 'r' || c == 'y' || c == '=' || c == '>' || c == '<'
}

/// Finds the length of the control sequence starting at character `i` of
/// `line`, if one starts there.
fn match_len_at(line: &str, i: usize, n: usize) -> (r: Option<usize>)
    requires
        n == line@.len(),
        i < n,
    ensures
        match r {
            Some(l) => ansi_match_len(line@.skip(i as int)) == Some(l as int),
            None => ansi_match_len(line@.skip(i as int)) is None,
        },
        r matches Some(l) ==> 2 <= l && i + l <= n,
{
    let ghost t = line@.skip(i as int);
    assert(forall|m: int| 0 <= m < t.len() ==> t[m] == line@[i + m]);
    let c0 = line.get_char(i);
    if !(c0 == '\u{1b}' || c0 == '\u{9b}') {
        assert(!is_intro(t[0]));
        return None;
    }
    assert(is_intro(t[0]));
    // greedy run of intermediate characters
    let mut j: usize = i + 1;
    while j < n && is_inter_exec(line.get_char(j))
        invariant
            n == line@.len(),
            i < n,
            i + 1 <= j <= n,
            t == line@.skip(i as int),
            forall|m: int| 0 <= m < t.len() ==> t[m] == line@[i + m],
            inter_run_end(t, 1) == inter_run_end(t, j - i),
        decreases n - j,
    {
        assert(is_inter(t[j - i]));
        j += 1;
    }
    assert(inter_run_end(t, (j - i) as int) == (j - i) as int);
    let ghost jr = (j - i) as int;
    assert(inter_run_end(t, 1) == jr);
    // greedy run of parameter characters
    let mut k: usize = j;
    while k < n && is_param_exec(line.get_char(k))
        invariant
            n == line@.len(),
            i < n,
            i <= j <= k <= n,
            t == line@.skip(i as int),
            forall|m: int| 0 <= m < t.len() ==> t[m] == line@[i + m],
            jr == (j - i) as int,
            param_run_end(t, jr) == param_run_end(t, k - i),
        decreases n - k,
    {
        assert(is_param(t[k - i]));
        k += 1;
    }
    assert(param_run_end(t, (k - i) as int) == (k - i) as int);
    let ghost kr = (k - i) as int;
    assert(param_run_end(t, jr) == kr);
    if k < n && is_final_exec(line.get_char(k)) {
        assert(is_final(t[kr]));
        assert(ansi_match_len(t) == Some(kr + 1));
        return Some(k + 1 - i);
    }
    assert(!(kr < t.len() && is_final(t[kr])));
    // no final byte after the parameters: the sequence ends at the last
    // parameter digit, if there is one
    let mut e: usize = k;
    while e > j && !is_digit_exec(line.get_char(e - 1))
        invariant
            n == line@.len(),
            i < n,
            i <= j <= e <= k <= n,
            t == line@.skip(i as int),
            forall|m: int| 0 <= m < t.len() ==> t[m] == line@[i + m],
            jr == (j - i) as int,
            kr == (k - i) as int,
            last_digit_end(t, jr, kr) == last_digit_end(t, jr, e - i),
        decreases e,
    {
        assert(!is_digit(t[e - 1 - i]));
        e -= 1;
    }
    if e > j {
        assert(is_digit(t[e - i - 1]));
        assert(last_digit_end(t, jr, (e - i) as int) == (e - i) as int);
        assert(ansi_match_len(t) == Some((e - i) as int));
        Some(e - i)
    } else {
        assert(e == j);
        assert(last_digit_end(t, jr, jr) == jr);
        assert(ansi_match_len(t) is None);
        None
    }
}

/// Removes every control sequence from one line.  Characters outside a
/// control sequence are kept, in order.
pub fn strip_line(line: &str) -> (r: String)
    ensures
        r@ == strip_seq(line@),
{
    let n = line.unicode_len();
    let mut out = String::new();
    let mut i: usize = 0;
    proof {
        assert(line@.skip(0) =~= line@);
    }
    while i < n
        invariant
            n == line@.len(),
            i <= n,
            strip_seq(line@) == out@ + strip_seq(line@.skip(i as int)),
        decreases n - i,
    {
        let ghost t = line@.skip(i as int);
        match match_len_at(line, i, n) {
            Some(l) => {
                proof {
                    assert(strip_seq(t) == strip_seq(t.skip(l as int)));
                    assert(t.skip(l as int) =~= line@.skip(i + l));
                }
                i += l;
            },
            None => {
                proof {
                    assert(strip_seq(t) == seq![t[0]] + strip_seq(t.skip(1)));
                    assert(t.skip(1) =~= line@.skip(i + 1));
                }
                let piece = line.substring_char(i, i + 1);
                proof {
                    assert(piece@ =~= seq![t[0]]);
                }
                out.append(piece);
                proof {
                    assert(out@ + strip_seq(line@.skip(i + 1)) =~= strip_seq(line@));
                }
                i += 1;
            },
        }
    }
    proof {
        assert(line@.skip(n as int) =~= Seq::<char>::empty());
        assert(strip_seq(line@.skip(n as int)) =~= Seq::<char>::empty());
        assert(out@ =~= strip_seq(line@));
    }
    out
}

} // verus!
