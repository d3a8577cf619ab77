//! Syntax of the server addresses a connection accepts: dotted-quad IPv4 and
//! RFC-style IPv6, including `::` compression and an embedded IPv4 tail.

use crate::wire::{all_digits, chars_of, dec_bounded, dec_val, is_digit, parse_u64_tok, subvec};
use vstd::prelude::*;

verus! {

/// ASCII hexadecimal digit.
pub open spec fn is_hex(c: char) -> bool {
    is_digit(c) || c == 'a' || c == 'b' || c == 'c' || c == 'd' || c == 'e' || c == 'f' || c == 'A'
        || c == 'B' || c == 'C' || c == 'D' || c == 'E' || c == 'F'
}

/// Position of the first `sep` in `s` at or after `i`, or the length of `s`.
pub open spec fn sep_end(s: Seq<char>, i: int, sep: char) -> int
    decreases s.len() - i,
{
    if i < 0 || i >= s.len() || s[i] == sep {
        i
    } else {
        sep_end(s, i + 1, sep)
    }
}

/// What `sep_end` finds: the first separator at or after `i`, or the end.
pub proof fn lemma_sep_end(s: Seq<char>, i: int, sep: char)
    requires
        0 <= i <= s.len(),
    ensures
        i <= sep_end(s, i, sep) <= s.len(),
        sep_end(s, i, sep) < s.len() ==> s[sep_end(s, i, sep)] == sep,
        forall|k: int| i <= k < sep_end(s, i, sep) ==> #[trigger] s[k] != sep,
    decreases s.len() - i,
{
    if i < s.len() && s[i] != sep {
        lemma_sep_end(s, i + 1, sep);
    }
}

/// `sep_end` is pinned down by its characterization.
pub proof fn lemma_sep_end_is(s: Seq<char>, i: int, j: int, sep: char)
    requires
        0 <= i <= j <= s.len(),
        forall|k: int| i <= k < j ==> #[trigger] s[k] != sep,
        j < s.len() ==> s[j] == sep,
    ensures
        sep_end(s, i, sep) == j,
    decreases j - i,
{
    if i < j {
        lemma_sep_end_is(s, i + 1, j, sep);
    }
}

/// The fields of `s` from position `i` on, split at every `sep`; empty
/// fields are kept, so the result always holds at least one field.
pub open spec fn split_from(s: Seq<char>, i: int, sep: char) -> Seq<Seq<char>>
    decreases s.len() - i,
        via split_from_dec
{
    if i < 0 || i > s.len() {
        seq![]
    } else {
        let j = sep_end(s, i, sep);
        if j >= s.len() {
            seq![s.subrange(i, s.len() as int)]
        } else {
            seq![s.subrange(i, j)] + split_from(s, j + 1, sep)
        }
    }
}

#[via_fn]
proof fn split_from_dec(s: Seq<char>, i: int, sep: char) {
    if 0 <= i <= s.len() {
        lemma_sep_end(s, i, sep);
    }
}

/// The fields of `s`, split at every `sep`.
pub open spec fn split_on(s: Seq<char>, sep: char) -> Seq<Seq<char>> {
    split_from(s, 0, sep)
}

/// A decimal octet as an IPv4 address writes it: one to three digits, value
/// at most 255, no leading zero.
pub open spec fn is_octet(p: Seq<char>) -> bool {
    &&& 1 <= p.len() <= 3
    &&& all_digits(p)
    &&& dec_val(p) <= 255
    &&& (p.len() > 1 ==> p[0] != '0')
}

/// Dotted-quad IPv4 syntax: four octets separated by dots.
pub open spec fn is_ipv4(s: Seq<char>) -> bool {
    let ps = split_on(s, '.');
    &&& ps.len() == 4
    &&& is_octet(ps[0])
    &&& is_octet(ps[1])
    &&& is_octet(ps[2])
    &&& is_octet(ps[3])
}

/// One IPv6 group: one to four hexadecimal digits.
pub open spec fn is_h16(p: Seq<char>) -> bool {
    &&& 1 <= p.len() <= 4
    &&& forall|i: int| 0 <= i < p.len() ==> is_hex(#[trigger] p[i])
}

/// Index of the first empty field from `i` on, or the field count.
pub open spec fn first_empty(ps: Seq<Seq<char>>, i: int) -> int
    decreases ps.len() - i,
{
    if i < 0 || i >= ps.len() {
        i
    } else if ps[i].len() == 0 {
        i
    } else {
        first_empty(ps, i + 1)
    }
}

/// What `first_empty` finds.
pub proof fn lemma_first_empty(ps: Seq<Seq<char>>, i: int)
    requires
        0 <= i <= ps.len(),
    ensures
        i <= first_empty(ps, i) <= ps.len(),
        first_empty(ps, i) < ps.len() ==> ps[first_empty(ps, i)].len() == 0,
        forall|k: int| i <= k < first_empty(ps, i) ==> #[trigger] ps[k].len() != 0,
    decreases ps.len() - i,
{
    if i < ps.len() && ps[i].len() != 0 {
        lemma_first_empty(ps, i + 1);
    }
}

/// `first_empty` is pinned down by its characterization.
pub proof fn lemma_first_empty_is(ps: Seq<Seq<char>>, i: int, j: int)
    requires
        0 <= i <= j <= ps.len(),
        forall|k: int| i <= k < j ==> #[trigger] ps[k].len() != 0,
        j < ps.len() ==> ps[j].len() == 0,
    ensures
        first_empty(ps, i) == j,
    decreases j - i,
{
    if i < j {
        lemma_first_empty_is(ps, i + 1, j);
    }
}

/// The groups after a `::`, read from field `start` on: hexadecimal groups,
/// the last of which may instead be an embedded IPv4 address.
pub open spec fn is_tail_from(ps: Seq<Seq<char>>, start: int) -> bool {
    &&& 0 <= start < ps.len()
    &&& (forall|i: int| start <= i < ps.len() - 1 ==> is_h16(#[trigger] ps[i]))
    &&& (is_h16(ps[ps.len() - 1]) || is_ipv4(ps[ps.len() - 1]))
}

/// How many 16-bit groups the fields from `start` on stand for; an embedded
/// IPv4 address stands for two.
pub open spec fn tail_groups_from(ps: Seq<Seq<char>>, start: int) -> int {
    ps.len() - start + (if is_ipv4(ps[ps.len() - 1]) {
        1int
    } else {
        0int
    })
}

/// IPv6 syntax over the colon-separated fields of `s`: eight groups in full
/// form (an embedded IPv4 tail standing for the last two), or a single `::`
/// compression standing for at least one zero group.
pub open spec fn is_ipv6(s: Seq<char>) -> bool {
    let ps = split_on(s, ':');
    let n = ps.len();
    let fe = first_empty(ps, 0);
    if fe >= n {
        ||| (n == 8 && forall|i: int| 0 <= i < 8 ==> is_h16(#[trigger] ps[i]))
        ||| (n == 7 && (forall|i: int| 0 <= i < 6 ==> is_h16(#[trigger] ps[i])) && is_ipv4(ps[6]))
    } else if n == 3 && ps[0].len() == 0 && ps[1].len() == 0 && ps[2].len() == 0 {
        true
    } else if fe == 0 {
        &&& n >= 3
        &&& ps[1].len() == 0
        &&& is_tail_from(ps, 2)
        &&& tail_groups_from(ps, 2) <= 7
    } else if fe == n - 2 && ps[n - 1].len() == 0 {
        &&& n >= 3
        &&& n - 2 <= 7
        &&& (forall|i: int| 0 <= i < n - 2 ==> is_h16(#[trigger] ps[i]))
    } else if 1 <= fe <= n - 2 {
        &&& (forall|i: int| 0 <= i < fe ==> is_h16(#[trigger] ps[i]))
        &&& is_tail_from(ps, fe + 1)
        &&& fe + tail_groups_from(ps, fe + 1) <= 7
    } else {
        false
    }
}

/// A syntactically valid server address: IPv4 or IPv6.
pub open spec fn is_ip_addr(s: Seq<char>) -> bool {
    is_ipv4(s) || is_ipv6(s)
}

/// Position of the first `sep` in `v` at or after `i`, or the length.
fn find_sep(v: &Vec<char>, i: usize, sep: char) -> (r: usize)
    requires
        i <= v@.len(),
    ensures
        r == sep_end(v@, i as int, sep),
        i <= r <= v@.len(),
{
    let mut j: usize = i;
    while j < v.len()
        invariant
            i <= j <= v@.len(),
            forall|k: int| i <= k < j ==> #[trigger] v@[k] != sep,
        decreases v@.len() - j,
    {
        if v[j] == sep {
            proof {
                lemma_sep_end_is(v@, i as int, j as int, sep);
            }
            return j;
        }
        j = j + 1;
    }
    proof {
        lemma_sep_end_is(v@, i as int, v@.len() as int, sep);
    }
    v.len()
}

/// Splits `v` at every `sep`, keeping empty fields.
fn split_all(v: &Vec<char>, sep: char) -> (ps: Vec<Vec<char>>)
    ensures
        ps.deep_view() == split_on(v@, sep),
        ps@.len() >= 1,
{
    let s = Ghost(v@);
    let mut ps: Vec<Vec<char>> = Vec::new();
    let mut i: usize = 0;
    let mut done = false;
    while !done
        invariant
            i <= v@.len(),
            s@ == v@,
            !done ==> split_on(s@, sep) == ps.deep_view() + split_from(s@, i as int, sep),
            done ==> split_on(s@, sep) == ps.deep_view() && ps@.len() >= 1,
        decreases v@.len() - i + (if done {
            0int
        } else {
            1int
        }),
    {
        let j = find_sep(v, i, sep);
        let part = subvec(v, i, j);
        let ghost old_ps = ps.deep_view();
        ps.push(part);
        proof {
            assert(ps.deep_view() =~~= old_ps.push(part@));
            lemma_sep_end(s@, i as int, sep);
        }
        if j >= v.len() {
            proof {
                assert(part@ =~= s@.subrange(i as int, s@.len() as int));
                assert(split_from(s@, i as int, sep) =~~= seq![part@]);
                assert(old_ps.push(part@) =~~= old_ps + seq![part@]);
            }
            done = true;
        } else {
            proof {
                assert(split_from(s@, i as int, sep) =~~= seq![part@] + split_from(
                    s@,
                    j + 1,
                    sep,
                ));
                assert(old_ps.push(part@) + split_from(s@, j + 1, sep) =~~= old_ps + (seq![part@]
                    + split_from(s@, j + 1, sep)));
            }
            i = j + 1;
        }
    }
    ps
}

/// Whether a field is a decimal octet, as `is_octet` describes.
fn check_octet(t: &Vec<char>) -> (b: bool)
    ensures
        b == is_octet(t@),
{
    if t.len() < 1 || t.len() > 3 {
        return false;
    }
    if t.len() > 1 && t[0] == '0' {
        return false;
    }
    match parse_u64_tok(t) {
        Some(n) => n <= 255,
        None => {
            proof {
                if all_digits(t@) {
                    assert(dec_bounded(t@, u64::MAX as nat) == None::<nat>);
                    assert(dec_val(t@) > u64::MAX as nat);
                }
            }
            false
        },
    }
}

/// Exec test for a hexadecimal digit, matching `is_hex`.
fn char_is_hex(c: char) -> (b: bool)
    ensures
        b == is_hex(c),
{
    crate::wire::char_is_digit(c) || c == 'a' || c == 'b' || c == 'c' || c == 'd' || c == 'e'
        || c == 'f' || c == 'A' || c == 'B' || c == 'C' || c == 'D' || c == 'E' || c == 'F'
}

/// Whether a field is a hexadecimal group, as `is_h16` describes.
fn check_h16(t: &Vec<char>) -> (b: bool)
    ensures
        b == is_h16(t@),
{
    if t.len() < 1 || t.len() > 4 {
        return false;
    }
    let mut i: usize = 0;
    while i < t.len()
        invariant
            i <= t@.len(),
            forall|k: int| 0 <= k < i ==> is_hex(#[trigger] t@[k]),
        decreases t@.len() - i,
    {
        if !char_is_hex(t[i]) {
            return false;
        }
        i = i + 1;
    }
    true
}

/// Whether the fields of `v` split at dots form an IPv4 address.
fn check_ipv4(v: &Vec<char>) -> (b: bool)
    ensures
        b == is_ipv4(v@),
{
    let ps = split_all(v, '.');
    proof {
        assert(ps.deep_view().len() == ps@.len());
        assert forall|k: int| 0 <= k < ps@.len() implies ps.deep_view()[k] =~= ps@[k]@ by {}
    }
    if ps.len() != 4 {
        return false;
    }
    check_octet(&ps[0]) && check_octet(&ps[1]) && check_octet(&ps[2]) && check_octet(&ps[3])
}

/// Whether every field in `[lo, hi)` is a hexadecimal group.
fn check_h16_range(ps: &Vec<Vec<char>>, lo: usize, hi: usize) -> (b: bool)
    requires
        lo <= hi <= ps@.len(),
    ensures
        b == (forall|i: int| lo <= i < hi ==> is_h16(#[trigger] ps.deep_view()[i])),
{
    proof {
        assert(ps.deep_view().len() == ps@.len());
        assert forall|k: int| 0 <= k < ps@.len() implies ps.deep_view()[k] =~= ps@[k]@ by {}
    }
    let mut i: usize = lo;
    while i < hi
        invariant
            lo <= i <= hi <= ps@.len(),
            ps.deep_view().len() == ps@.len(),
            forall|k: int| 0 <= k < ps@.len() ==> ps.deep_view()[k] == ps@[k]@,
            forall|k: int| lo <= k < i ==> is_h16(#[trigger] ps.deep_view()[k]),
        decreases hi - i,
    {
        if !check_h16(&ps[i]) {
            proof {
                assert(ps.deep_view()[i as int] == ps@[i as int]@);
                assert(!is_h16(ps.deep_view()[i as int]));
            }
            return false;
        }
        i = i + 1;
    }
    true
}

/// Whether the fields from `start` on form a valid tail after `::` whose
/// group count stays within `budget`.
fn check_tail(ps: &Vec<Vec<char>>, start: usize, budget: usize) -> (b: bool)
    requires
        start < ps@.len(),
        budget >= 1,
    ensures
        b == (is_tail_from(ps.deep_view(), start as int) && tail_groups_from(
            ps.deep_view(),
            start as int,
        ) <= budget),
{
    proof {
        assert(ps.deep_view().len() == ps@.len());
        assert forall|k: int| 0 <= k < ps@.len() implies ps.deep_view()[k] =~= ps@[k]@ by {}
    }
    let n = ps.len();
    if !check_h16_range(ps, start, n - 1) {
        return false;
    }
    let last = &ps[n - 1];
    let last_h16 = check_h16(last);
    let last_v4 = check_ipv4(last);
    if !last_h16 && !last_v4 {
        return false;
    }
    let extra: usize = if last_v4 {
        1
    } else {
        0
    };
    n - start <= budget - extra
}

/// Whether the fields of `v` split at colons form an IPv6 address.
fn check_ipv6(v: &Vec<char>) -> (b: bool)
    ensures
        b == is_ipv6(v@),
{
    let ps = split_all(v, ':');
    proof {
        assert(ps.deep_view().len() == ps@.len());
        assert forall|k: int| 0 <= k < ps@.len() implies ps.deep_view()[k] =~= ps@[k]@ by {}
    }
    let n = ps.len();
    let mut fe: usize = 0;
    while fe < n && ps[fe].len() != 0
        invariant
            fe <= n,
            n == ps@.len(),
            ps.deep_view().len() == ps@.len(),
            forall|k: int| 0 <= k < ps@.len() ==> ps.deep_view()[k] == ps@[k]@,
            forall|k: int| 0 <= k < fe ==> #[trigger] ps.deep_view()[k].len() != 0,
        decreases n - fe,
    {
        fe = fe + 1;
    }
    proof {
        lemma_first_empty_is(ps.deep_view(), 0, fe as int);
    }
    if fe >= n {
        if n == 8 {
            check_h16_range(&ps, 0, 8)
        } else if n == 7 {
            check_h16_range(&ps, 0, 6) && check_ipv4(&ps[6])
        } else {
            false
        }
    } else if n == 3 && ps[0].len() == 0 && ps[1].len() == 0 && ps[2].len() == 0 {
        true
    } else if fe == 0 {
        if n >= 3 && ps[1].len() == 0 {
            check_tail(&ps, 2, 7)
        } else {
            false
        }
    } else if fe == n - 2 && ps[n - 1].len() == 0 {
        n >= 3 && n - 2 <= 7 && check_h16_range(&ps, 0, n - 2)
    } else if fe <= n - 2 {
        if fe >= 7 {
            return false;
        }
        if !check_h16_range(&ps, 0, fe) {
            return false;
        }
        check_tail(&ps, fe + 1, 7 - fe)
    } else {
        false
    }
}

/// Whether a string is a syntactically valid IPv4 or IPv6 address, exactly
/// as `is_ip_addr` describes.
pub fn is_valid_address(s: &str) -> (b: bool)
    ensures
        b == is_ip_addr(s@),
{
    let v = chars_of(s);
    if check_ipv4(&v) {
        return true;
    }
    check_ipv6(&v)
}

} // verus!
