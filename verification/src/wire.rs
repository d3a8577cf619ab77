//! Lexical layer of the wire format: character classes, decimal rendering and
//! parsing, and whitespace tokenization of protocol lines.

use vstd::prelude::*;

verus! {

/// Whitespace as the protocol understands it: the ASCII separators that can
/// occur around tokens on a wire line.
pub open spec fn is_space(c: char) -> bool {
    c == ' ' || c == '\t' || c == '\r' || c == '\n'
}

/// ASCII decimal digit.
pub open spec fn is_digit(c: char) -> bool {
    c == '0' || c == '1' || c == '2' || c == '3' || c == '4' || c == '5' || c == '6' || c == '7'
        || c == '8' || c == '9'
}

/// The digit character for a value in `0..=9`.
pub open spec fn digit_char(d: int) -> char {
    if d == 0 {
        '0'
    } else if d == 1 {
        '1'
    } else if d == 2 {
        '2'
    } else if d == 3 {
        '3'
    } else if d == 4 {
        '4'
    } else if d == 5 {
        '5'
    } else if d == 6 {
        '6'
    } else if d == 7 {
        '7'
    } else if d == 8 {
        '8'
    } else {
        '9'
    }
}

/// Numeric value of a digit character.
pub open spec fn digit_val(c: char) -> int {
    if c == '0' {
        0
    } else if c == '1' {
        1
    } else if c == '2' {
        2
    } else if c == '3' {
        3
    } else if c == '4' {
        4
    } else if c == '5' {
        5
    } else if c == '6' {
        6
    } else if c == '7' {
        7
    } else if c == '8' {
        8
    } else {
        9
    }
}

/// Canonical decimal rendering of a natural number, most significant digit
/// first, no sign, no leading zeros (a lone `0` for zero).
pub open spec fn dec_of(n: nat) -> Seq<char>
    decreases n,
{
    if n < 10 {
        seq![digit_char(n as int)]
    } else {
        dec_of(n / 10).push(digit_char((n % 10) as int))
    }
}

/// Value of a digit string, most significant digit first.
pub open spec fn dec_val(s: Seq<char>) -> nat
    decreases s.len(),
{
    if s.len() == 0 {
        0
    } else {
        (dec_val(s.drop_last()) * 10 + digit_val(s.last())) as nat
    }
}

/// All characters of `s` are decimal digits.
pub open spec fn all_digits(s: Seq<char>) -> bool {
    forall|i: int| 0 <= i < s.len() ==> is_digit(#[trigger] s[i])
}

proof fn lemma_digit_char_val(d: int)
    requires
        0 <= d <= 9,
    ensures
        is_digit(digit_char(d)),
        digit_val(digit_char(d)) == d,
{
}

/// A rendered number reads back to itself: `dec_of` yields a nonempty digit
/// string whose value is the number that was rendered.
pub proof fn lemma_dec_of_val(n: nat)
    ensures
        dec_of(n).len() >= 1,
        all_digits(dec_of(n)),
        dec_val(dec_of(n)) == n,
    decreases n,
{
    if n < 10 {
        lemma_digit_char_val(n as int);
        let s = dec_of(n);
        assert(s =~= seq![digit_char(n as int)]);
        assert(s.drop_last() =~= Seq::<char>::empty());
        assert(dec_val(s.drop_last()) == 0);
        assert(s.last() == digit_char(n as int));
        assert(dec_val(s) == 0 * 10 + digit_val(digit_char(n as int)));
    } else {
        lemma_dec_of_val(n / 10);
        lemma_digit_char_val((n % 10) as int);
        let s = dec_of(n);
        assert(s =~= dec_of(n / 10).push(digit_char((n % 10) as int)));
        assert(s.drop_last() =~= dec_of(n / 10));
        assert(dec_val(s) == dec_val(dec_of(n / 10)) * 10 + (n % 10));
        assert(n / 10 * 10 + n % 10 == n) by (nonlinear_arith);
        assert forall|i: int| 0 <= i < s.len() implies is_digit(#[trigger] s[i]) by {
            if i < s.len() - 1 {
                assert(s[i] == dec_of(n / 10)[i]);
            } else {
                assert(s[i] == digit_char((n % 10) as int));
            }
        }
    }
}

/// Relies on `String::push`: appends exactly one character to the string.
#[verifier::external_body]
pub fn push_char(s: &mut String, c: char)
    ensures
        final(s)@ == old(s)@.push(c),
{
    s.push(c);
}

/// Exec digit-to-character conversion, matching `digit_char`.
pub fn digit_to_char(d: u8) -> (c: char)
    requires
        d <= 9,
    ensures
        c == digit_char(d as int),
{
    match d {
        0 => '0',
        1 => '1',
        2 => '2',
        3 => '3',
        4 => '4',
        5 => '5',
        6 => '6',
        7 => '7',
        8 => '8',
        _ => '9',
    }
}

/// Renders a number in decimal, exactly as `dec_of` describes.
pub fn u64_to_string(n: u64) -> (s: String)
    ensures
        s@ == dec_of(n as nat),
    decreases n,
{
    if n < 10 {
        let mut s = String::new();
        push_char(&mut s, digit_to_char(n as u8));
        proof {
            assert(s@ =~= dec_of(n as nat));
        }
        s
    } else {
        let mut s = u64_to_string(n / 10);
        push_char(&mut s, digit_to_char((n % 10) as u8));
        s
    }
}

/// End of the token that starts at `i`: the first position at or after `i`
/// holding a space, or the end of the region.
pub open spec fn tok_end(s: Seq<char>, i: int) -> int
    decreases s.len() - i,
{
    if i < 0 || i >= s.len() || is_space(s[i]) {
        i
    } else {
        tok_end(s, i + 1)
    }
}

/// What `tok_end` finds: a maximal run of non-space characters.
pub proof fn lemma_tok_end(s: Seq<char>, i: int)
    requires
        0 <= i <= s.len(),
    ensures
        i <= tok_end(s, i) <= s.len(),
        tok_end(s, i) < s.len() ==> is_space(s[tok_end(s, i)]),
        forall|k: int| i <= k < tok_end(s, i) ==> !is_space(#[trigger] s[k]),
    decreases s.len() - i,
{
    if i < s.len() && !is_space(s[i]) {
        lemma_tok_end(s, i + 1);
    }
}

/// `tok_end` is pinned down by the maximal-run characterization.
pub proof fn lemma_tok_end_is(s: Seq<char>, i: int, j: int)
    requires
        0 <= i <= j <= s.len(),
        forall|k: int| i <= k < j ==> !is_space(#[trigger] s[k]),
        j < s.len() ==> is_space(s[j]),
    ensures
        tok_end(s, i) == j,
    decreases j - i,
{
    if i < j {
        lemma_tok_end_is(s, i + 1, j);
    }
}

/// The whitespace-separated tokens of `s`, starting at position `i`.
pub open spec fn tokens_from(s: Seq<char>, i: int) -> Seq<Seq<char>>
    decreases s.len() - i,
        via tokens_from_dec
{
    if i < 0 || i >= s.len() {
        seq![]
    } else if is_space(s[i]) {
        tokens_from(s, i + 1)
    } else if tok_end(s, i) >= s.len() {
        seq![s.subrange(i, tok_end(s, i))]
    } else {
        seq![s.subrange(i, tok_end(s, i))] + tokens_from(s, tok_end(s, i) + 1)
    }
}

#[via_fn]
proof fn tokens_from_dec(s: Seq<char>, i: int) {
    if 0 <= i < s.len() && !is_space(s[i]) {
        lemma_tok_end(s, i);
    }
}

/// The tokens of a whole line region.
pub open spec fn tokens_of(s: Seq<char>) -> Seq<Seq<char>> {
    tokens_from(s, 0)
}

/// Position of the first `'#'` in `s`, or the length of `s` when there is
/// none: everything from here on is comment.
pub open spec fn hash_end(s: Seq<char>, i: int) -> int
    decreases s.len() - i,
{
    if i < 0 || i >= s.len() || s[i] == '#' {
        i
    } else {
        hash_end(s, i + 1)
    }
}

/// What `hash_end` finds: the first `'#'` at or after `i`, or the end.
pub proof fn lemma_hash_end(s: Seq<char>, i: int)
    requires
        0 <= i <= s.len(),
    ensures
        i <= hash_end(s, i) <= s.len(),
        hash_end(s, i) < s.len() ==> s[hash_end(s, i)] == '#',
        forall|k: int| i <= k < hash_end(s, i) ==> #[trigger] s[k] != '#',
    decreases s.len() - i,
{
    if i < s.len() && s[i] != '#' {
        lemma_hash_end(s, i + 1);
    }
}

/// `hash_end` is pinned down by its characterization.
pub proof fn lemma_hash_end_is(s: Seq<char>, i: int, j: int)
    requires
        0 <= i <= j <= s.len(),
        forall|k: int| i <= k < j ==> #[trigger] s[k] != '#',
        j < s.len() ==> s[j] == '#',
    ensures
        hash_end(s, i) == j,
    decreases j - i,
{
    if i < j {
        lemma_hash_end_is(s, i + 1, j);
    }
}

/// The effective content of a received line: everything before the first
/// `'#'`; what follows is a comment.
pub open spec fn line_region(s: Seq<char>) -> Seq<char> {
    s.subrange(0, hash_end(s, 0))
}

/// The token list a received line is read as.
pub open spec fn line_tokens(s: Seq<char>) -> Seq<Seq<char>> {
    tokens_of(line_region(s))
}

/// How a token reads as an unsigned number: it must be one or more decimal
/// digits and its value must fit the requested bound. Anything else is not a
/// number.
pub open spec fn dec_bounded(s: Seq<char>, bound: nat) -> Option<nat> {
    if s.len() >= 1 && all_digits(s) && dec_val(s) <= bound {
        Some(dec_val(s))
    } else {
        None
    }
}

/// Prefixes only grow in value: the whole digit string is worth at least any
/// prefix of it.
pub proof fn lemma_dec_val_prefix(s: Seq<char>, i: int)
    requires
        0 <= i <= s.len(),
    ensures
        dec_val(s) >= dec_val(s.take(i)),
    decreases s.len() - i,
{
    assert(s.take(s.len() as int) =~= s);
    if i < s.len() {
        lemma_dec_val_prefix(s, i + 1);
        let t = s.take(i + 1);
        assert(t.drop_last() =~= s.take(i));
        assert(t.last() == s[i]);
        assert(dec_val(t) == dec_val(s.take(i)) * 10 + digit_val(s[i]));
    }
}

/// One more digit multiplies the prefix value by ten and adds the digit.
pub proof fn lemma_dec_val_step(s: Seq<char>, i: int)
    requires
        0 <= i < s.len(),
    ensures
        dec_val(s.take(i + 1)) == dec_val(s.take(i)) * 10 + digit_val(s[i]),
{
    let t = s.take(i + 1);
    assert(t.drop_last() =~= s.take(i));
    assert(t.last() == s[i]);
}

/// Digit characters are never protocol separators.
pub proof fn lemma_digit_not_special(c: char)
    requires
        is_digit(c),
    ensures
        !is_space(c),
        c != '#',
        c != '=',
{
}

/// A token is safe to stand on a wire line: nonempty, and free of the
/// characters that tokenization or comment stripping would react to.
pub open spec fn token_safe(s: Seq<char>) -> bool {
    &&& s.len() >= 1
    &&& forall|i: int| 0 <= i < s.len() ==> !is_space(#[trigger] s[i]) && s[i] != '#'
}

/// Tokens joined by single spaces: the canonical rendering of a token list.
pub open spec fn join_tokens(toks: Seq<Seq<char>>) -> Seq<char>
    decreases toks.len(),
{
    if toks.len() == 0 {
        seq![]
    } else if toks.len() == 1 {
        toks[0]
    } else {
        toks[0] + seq![' '] + join_tokens(toks.drop_first())
    }
}

/// Every character of a join of safe tokens is a token character or a single
/// separating space; in particular no `'#'` appears.
pub proof fn lemma_join_no_hash(toks: Seq<Seq<char>>)
    requires
        forall|k: int| 0 <= k < toks.len() ==> token_safe(#[trigger] toks[k]),
    ensures
        forall|i: int| 0 <= i < join_tokens(toks).len() ==> #[trigger] join_tokens(toks)[i] != '#',
    decreases toks.len(),
{
    if toks.len() == 0 {
    } else if toks.len() == 1 {
        assert(join_tokens(toks) == toks[0]);
    } else {
        let rest = toks.drop_first();
        assert(forall|k: int| 0 <= k < rest.len() ==> token_safe(#[trigger] rest[k]));
        lemma_join_no_hash(rest);
        let s = join_tokens(toks);
        let t0 = toks[0];
        assert(s =~= t0 + seq![' '] + join_tokens(rest));
        assert forall|i: int| 0 <= i < s.len() implies #[trigger] s[i] != '#' by {
            if i < t0.len() {
                assert(s[i] == t0[i]);
            } else if i == t0.len() {
                assert(s[i] == ' ');
            } else {
                assert(s[i] == join_tokens(rest)[i - t0.len() - 1]);
            }
        }
    }
}

/// Shifting a token-run end past a prefix.
proof fn lemma_tok_end_shift(a: Seq<char>, b: Seq<char>, k: int)
    requires
        0 <= k <= b.len(),
    ensures
        tok_end(a + b, a.len() + k) == a.len() + tok_end(b, k),
{
    let s = a + b;
    let j = tok_end(b, k);
    lemma_tok_end(b, k);
    assert forall|m: int| a.len() + k <= m < a.len() + j implies !is_space(#[trigger] s[m]) by {
        assert(s[m] == b[m - a.len()]);
    }
    if a.len() + j < s.len() {
        assert(s[a.len() + j] == b[j]);
    }
    lemma_tok_end_is(s, a.len() + k, a.len() + j);
}

/// Tokenization ignores a prefix it has already walked past.
proof fn lemma_tokens_from_shift(a: Seq<char>, b: Seq<char>, k: int)
    requires
        0 <= k <= b.len(),
    ensures
        tokens_from(a + b, a.len() + k) == tokens_from(b, k),
    decreases b.len() - k,
{
    let s = a + b;
    if k >= b.len() {
    } else if is_space(b[k]) {
        assert(s[a.len() + k] == b[k]);
        lemma_tokens_from_shift(a, b, k + 1);
    } else {
        assert(s[a.len() + k] == b[k]);
        let j = tok_end(b, k);
        lemma_tok_end(b, k);
        lemma_tok_end_shift(a, b, k);
        assert(s.subrange(a.len() + k, a.len() + j) =~= b.subrange(k, j));
        if j >= b.len() {
            assert(a.len() + j >= s.len());
        } else {
            lemma_tokens_from_shift(a, b, j + 1);
        }
    }
}

/// Tokenizing the canonical join of safe tokens gives the tokens back.
pub proof fn lemma_tokens_of_join(toks: Seq<Seq<char>>)
    requires
        forall|k: int| 0 <= k < toks.len() ==> token_safe(#[trigger] toks[k]),
    ensures
        tokens_of(join_tokens(toks)) == toks,
    decreases toks.len(),
{
    let s = join_tokens(toks);
    if toks.len() == 0 {
        assert(tokens_of(s) =~= toks);
    } else if toks.len() == 1 {
        let t0 = toks[0];
        assert(s == t0);
        lemma_tok_end_is(s, 0, s.len() as int);
        assert(s.subrange(0, s.len() as int) =~= t0);
        assert(tokens_of(s) =~= toks);
    } else {
        let t0 = toks[0];
        let rest = toks.drop_first();
        assert(forall|k: int| 0 <= k < rest.len() ==> token_safe(#[trigger] rest[k]));
        lemma_tokens_of_join(rest);
        let r = join_tokens(rest);
        let a = t0 + seq![' '];
        assert(s =~= a + r);
        assert forall|m: int| 0 <= m < t0.len() implies !is_space(#[trigger] s[m]) by {
            assert(s[m] == t0[m]);
        }
        assert(s[t0.len() as int] == ' ');
        lemma_tok_end_is(s, 0, t0.len() as int);
        assert(s.subrange(0, t0.len() as int) =~= t0);
        lemma_tokens_from_shift(a, r, 0);
        assert(tokens_from(s, a.len() as int) == tokens_of(r));
        assert(!is_space(s[0]));
        assert(tok_end(s, 0) == t0.len());
        assert(tok_end(s, 0) < s.len());
        assert(tokens_of(s) == seq![t0] + tokens_of(r));
        assert(seq![t0] + rest =~= toks);
    }
}

/// Reading back the canonical join of safe tokens: no comment is found and the
/// token list is recovered unchanged.
pub proof fn lemma_line_tokens_join(toks: Seq<Seq<char>>)
    requires
        forall|k: int| 0 <= k < toks.len() ==> token_safe(#[trigger] toks[k]),
    ensures
        line_tokens(join_tokens(toks)) == toks,
{
    let s = join_tokens(toks);
    lemma_join_no_hash(toks);
    lemma_hash_end_is(s, 0, s.len() as int);
    assert(line_region(s) =~= s);
    lemma_tokens_of_join(toks);
}

/// ASCII lower-casing of one character; anything but an ASCII capital is left
/// alone.
pub open spec fn lower_char(c: char) -> char {
    if c == 'A' {
        'a'
    } else if c == 'B' {
        'b'
    } else if c == 'C' {
        'c'
    } else if c == 'D' {
        'd'
    } else if c == 'E' {
        'e'
    } else if c == 'F' {
        'f'
    } else if c == 'G' {
        'g'
    } else if c == 'H' {
        'h'
    } else if c == 'I' {
        'i'
    } else if c == 'J' {
        'j'
    } else if c == 'K' {
        'k'
    } else if c == 'L' {
        'l'
    } else if c == 'M' {
        'm'
    } else if c == 'N' {
        'n'
    } else if c == 'O' {
        'o'
    } else if c == 'P' {
        'p'
    } else if c == 'Q' {
        'q'
    } else if c == 'R' {
        'r'
    } else if c == 'S' {
        's'
    } else if c == 'T' {
        't'
    } else if c == 'U' {
        'u'
    } else if c == 'V' {
        'v'
    } else if c == 'W' {
        'w'
    } else if c == 'X' {
        'x'
    } else if c == 'Y' {
        'y'
    } else if c == 'Z' {
        'z'
    } else {
        c
    }
}

/// ASCII lower-casing of a whole key.
pub open spec fn lower(s: Seq<char>) -> Seq<char> {
    Seq::new(s.len(), |i: int| lower_char(s[i]))
}

/// Position of the first `'='` in a token at or after `i`, or the token's
/// length when there is none.
pub open spec fn eq_end(s: Seq<char>, i: int) -> int
    decreases s.len() - i,
{
    if i < 0 || i >= s.len() || s[i] == '=' {
        i
    } else {
        eq_end(s, i + 1)
    }
}

/// `eq_end` is pinned down by its characterization.
pub proof fn lemma_eq_end_is(s: Seq<char>, i: int, j: int)
    requires
        0 <= i <= j <= s.len(),
        forall|k: int| i <= k < j ==> #[trigger] s[k] != '=',
        j < s.len() ==> s[j] == '=',
    ensures
        eq_end(s, i) == j,
    decreases j - i,
{
    if i < j {
        lemma_eq_end_is(s, i + 1, j);
    }
}

/// Whether a token carries a `Key=Value` attribute at all.
pub open spec fn has_eq(s: Seq<char>) -> bool {
    eq_end(s, 0) < s.len()
}

/// The attribute a token carries: the part before the first `'='`,
/// lower-cased, and the part after it, verbatim.
pub open spec fn opt_pair(t: Seq<char>) -> (Seq<char>, Seq<char>) {
    (lower(t.take(eq_end(t, 0))), t.skip(eq_end(t, 0) + 1))
}

/// The attribute list of the tokens from position `i` on: tokens without an
/// `'='` are passed over.
pub open spec fn opts_from(toks: Seq<Seq<char>>, i: int) -> Seq<(Seq<char>, Seq<char>)>
    decreases toks.len() - i,
{
    if i < 0 || i >= toks.len() {
        seq![]
    } else if has_eq(toks[i]) {
        seq![opt_pair(toks[i])] + opts_from(toks, i + 1)
    } else {
        opts_from(toks, i + 1)
    }
}

/// Looking an attribute key up in an attribute list: the latest occurrence
/// wins, a missing key reads as absent.
pub open spec fn lookup(opts: Seq<(Seq<char>, Seq<char>)>, key: Seq<char>) -> Option<Seq<char>>
    decreases opts.len(),
{
    if opts.len() == 0 {
        None
    } else if opts.last().0 == key {
        Some(opts.last().1)
    } else {
        lookup(opts.drop_last(), key)
    }
}

/// The attribute read for `key` among the tokens of a line, from position `i`
/// on.
pub open spec fn opt_get(toks: Seq<Seq<char>>, i: int, key: Seq<char>) -> Option<Seq<char>> {
    lookup(opts_from(toks, i), key)
}

/// A well-formed attribute key: nonempty and free of `'='` and of the line
/// separators.
pub open spec fn key_wf(k: Seq<char>) -> bool {
    &&& k.len() >= 1
    &&& forall|i: int|
        0 <= i < k.len() ==> !is_space(#[trigger] k[i]) && k[i] != '#' && k[i] != '='
}

/// A well-formed attribute value: free of the line separators. It may be
/// empty and may itself contain `'='`.
pub open spec fn value_wf(v: Seq<char>) -> bool {
    forall|i: int| 0 <= i < v.len() ==> !is_space(#[trigger] v[i]) && v[i] != '#'
}

/// The single wire token of one attribute.
pub open spec fn kv_token(k: Seq<char>, v: Seq<char>) -> Seq<char> {
    k + seq!['='] + v
}

/// The wire tokens of a row of optional attributes, in the row's order;
/// absent attributes leave no token.
pub open spec fn opt_tokens(fields: Seq<(Seq<char>, Option<Seq<char>>)>) -> Seq<Seq<char>>
    decreases fields.len(),
{
    if fields.len() == 0 {
        seq![]
    } else {
        (match fields[0].1 {
            Some(v) => seq![kv_token(fields[0].0, v)],
            None => seq![],
        }) + opt_tokens(fields.drop_first())
    }
}

/// The attribute pairs such a row announces, in order.
pub open spec fn opt_pairs(fields: Seq<(Seq<char>, Option<Seq<char>>)>) -> Seq<
    (Seq<char>, Seq<char>),
>
    decreases fields.len(),
{
    if fields.len() == 0 {
        seq![]
    } else {
        (match fields[0].1 {
            Some(v) => seq![(lower(fields[0].0), v)],
            None => seq![],
        }) + opt_pairs(fields.drop_first())
    }
}

/// A well-formed attribute row: every key well formed, every present value
/// well formed.
pub open spec fn fields_wf(fields: Seq<(Seq<char>, Option<Seq<char>>)>) -> bool {
    forall|k: int|
        0 <= k < fields.len() ==> key_wf(#[trigger] fields[k].0) && (fields[k].1 matches Some(v)
            ==> value_wf(v))
}

/// No two keys of the row collide once lower-cased.
pub open spec fn keys_distinct(fields: Seq<(Seq<char>, Option<Seq<char>>)>) -> bool {
    forall|k1: int, k2: int|
        0 <= k1 < k2 < fields.len() ==> lower(#[trigger] fields[k1].0) != lower(
            #[trigger] fields[k2].0,
        )
}

/// Every token an attribute row emits is safe to stand on a line.
pub proof fn lemma_opt_tokens_safe(fields: Seq<(Seq<char>, Option<Seq<char>>)>)
    requires
        fields_wf(fields),
    ensures
        forall|k: int|
            0 <= k < opt_tokens(fields).len() ==> token_safe(#[trigger] opt_tokens(fields)[k]),
    decreases fields.len(),
{
    if fields.len() > 0 {
        let rest = fields.drop_first();
        assert(fields_wf(rest));
        lemma_opt_tokens_safe(rest);
        let ts = opt_tokens(fields);
        assert forall|k: int| 0 <= k < ts.len() implies token_safe(#[trigger] ts[k]) by {
            match fields[0].1 {
                Some(v) => {
                    if k == 0 {
                        let t = kv_token(fields[0].0, v);
                        assert(key_wf(fields[0].0) && value_wf(v));
                        assert forall|i: int|
                            0 <= i < t.len() implies !is_space(#[trigger] t[i]) && t[i]
                            != '#' by {
                            let kk = fields[0].0;
                            if i < kk.len() {
                                assert(t[i] == kk[i]);
                            } else if i == kk.len() {
                                assert(t[i] == '=');
                            } else {
                                assert(t[i] == v[i - kk.len() - 1]);
                            }
                        }
                    } else {
                        assert(ts[k] == opt_tokens(rest)[k - 1]);
                    }
                },
                None => {
                    assert(ts[k] == opt_tokens(rest)[k]);
                },
            }
        }
    }
}

/// The attribute list resumes unchanged past a walked prefix of tokens.
pub proof fn lemma_opts_from_shift(a: Seq<Seq<char>>, b: Seq<Seq<char>>, k: int)
    requires
        0 <= k <= b.len(),
    ensures
        opts_from(a + b, a.len() + k) == opts_from(b, k),
    decreases b.len() - k,
{
    let s = a + b;
    if k < b.len() {
        assert(s[a.len() + k] == b[k]);
        lemma_opts_from_shift(a, b, k + 1);
    }
}

/// Attribute lists concatenate along token concatenation.
proof fn lemma_opts_from_concat(a: Seq<Seq<char>>, b: Seq<Seq<char>>, i: int)
    requires
        0 <= i <= a.len(),
    ensures
        opts_from(a + b, i) == opts_from(a, i) + opts_from(b, 0),
    decreases a.len() - i,
{
    let s = a + b;
    if i == a.len() {
        lemma_opts_from_shift(a, b, 0);
        assert(opts_from(a, i) + opts_from(b, 0) =~= opts_from(b, 0));
    } else {
        assert(s[i] == a[i]);
        lemma_opts_from_concat(a, b, i + 1);
        if has_eq(a[i]) {
            assert(seq![opt_pair(a[i])] + (opts_from(a, i + 1) + opts_from(b, 0)) =~= (seq![
                opt_pair(a[i]),
            ] + opts_from(a, i + 1)) + opts_from(b, 0));
        }
    }
}

/// Last-wins lookup over concatenated attribute lists: the back half is
/// consulted first.
proof fn lemma_lookup_concat(o1: Seq<(Seq<char>, Seq<char>)>, o2: Seq<(Seq<char>, Seq<char>)>, key: Seq<char>)
    ensures
        lookup(o1 + o2, key) == (match lookup(o2, key) {
            Some(v) => Some(v),
            None => lookup(o1, key),
        }),
    decreases o2.len(),
{
    if o2.len() == 0 {
        assert(o1 + o2 =~= o1);
    } else {
        let s = o1 + o2;
        assert(s.last() == o2.last());
        if o2.last().0 != key {
            assert(s.drop_last() =~= o1 + o2.drop_last());
            lemma_lookup_concat(o1, o2.drop_last(), key);
        }
    }
}

/// Lookup in a one-entry attribute list.
proof fn lemma_lookup_single(p: (Seq<char>, Seq<char>), key: Seq<char>)
    ensures
        lookup(seq![p], key) == (if p.0 == key {
            Some(p.1)
        } else {
            None
        }),
{
    let s = seq![p];
    assert(s.last() == p);
    assert(s.drop_last() =~= Seq::<(Seq<char>, Seq<char>)>::empty());
    if p.0 == key {
        assert(lookup(s, key) == Some(p.1));
    } else {
        assert(lookup(s, key) == lookup(s.drop_last(), key));
        assert(lookup(Seq::<(Seq<char>, Seq<char>)>::empty(), key) == None::<Seq<char>>);
    }
}

/// An attribute row announces exactly its pairs.
proof fn lemma_opts_of_opt_tokens(fields: Seq<(Seq<char>, Option<Seq<char>>)>)
    requires
        fields_wf(fields),
    ensures
        opts_from(opt_tokens(fields), 0) == opt_pairs(fields),
    decreases fields.len(),
{
    if fields.len() > 0 {
        let rest = fields.drop_first();
        assert(fields_wf(rest));
        lemma_opts_of_opt_tokens(rest);
        match fields[0].1 {
            Some(v) => {
                let kk = fields[0].0;
                let t = kv_token(kk, v);
                assert forall|m: int| 0 <= m < kk.len() implies #[trigger] t[m] != '=' by {
                    assert(t[m] == kk[m]);
                }
                assert(t[kk.len() as int] == '=');
                lemma_eq_end_is(t, 0, kk.len() as int);
                assert(has_eq(t));
                assert(t.take(kk.len() as int) =~= kk);
                assert(t.skip(kk.len() as int + 1) =~= v);
                assert(opt_pair(t) == (lower(kk), v));
                let head = seq![t];
                lemma_opts_from_concat(head, opt_tokens(rest), 0);
                assert(opt_tokens(fields) =~= head + opt_tokens(rest));
                assert(head[0] == t);
                assert(opts_from(head, 1) =~= Seq::<(Seq<char>, Seq<char>)>::empty());
                assert(opts_from(head, 0) =~= seq![(lower(kk), v)]);
                assert(opt_pairs(fields) =~= seq![(lower(kk), v)] + opt_pairs(rest));
            },
            None => {
                assert(opt_tokens(fields) =~= opt_tokens(rest));
                assert(opt_pairs(fields) =~= opt_pairs(rest));
            },
        }
    }
}

/// A key no row member carries is not found.
proof fn lemma_lookup_pairs_absent(fields: Seq<(Seq<char>, Option<Seq<char>>)>, key: Seq<char>)
    requires
        forall|k: int| 0 <= k < fields.len() ==> lower(#[trigger] fields[k].0) != key,
    ensures
        lookup(opt_pairs(fields), key) == None::<Seq<char>>,
    decreases fields.len(),
{
    if fields.len() > 0 {
        let rest = fields.drop_first();
        assert(forall|k: int| 0 <= k < rest.len() ==> lower(#[trigger] rest[k].0) != key);
        lemma_lookup_pairs_absent(rest, key);
        match fields[0].1 {
            Some(v) => {
                lemma_lookup_concat(seq![(lower(fields[0].0), v)], opt_pairs(rest), key);
                lemma_lookup_single((lower(fields[0].0), v), key);
            },
            None => {
                assert(opt_pairs(fields) =~= opt_pairs(rest));
            },
        }
    }
}

/// Reading an attribute row back: the lookup of each key of the row gives
/// exactly the value the row holds for it, present or absent.
pub proof fn lemma_opt_tokens_lookup(fields: Seq<(Seq<char>, Option<Seq<char>>)>, j: int)
    requires
        fields_wf(fields),
        keys_distinct(fields),
        0 <= j < fields.len(),
    ensures
        opt_get(opt_tokens(fields), 0, lower(fields[j].0)) == fields[j].1,
    decreases fields.len(),
{
    lemma_opts_of_opt_tokens(fields);
    let key = lower(fields[j].0);
    let rest = fields.drop_first();
    assert(fields_wf(rest));
    assert(keys_distinct(rest));
    if j == 0 {
        assert(forall|k: int| 0 <= k < rest.len() ==> lower(#[trigger] rest[k].0) != key);
        lemma_lookup_pairs_absent(rest, key);
        match fields[0].1 {
            Some(v) => {
                lemma_lookup_concat(seq![(key, v)], opt_pairs(rest), key);
                lemma_lookup_single((key, v), key);
            },
            None => {
                assert(opt_pairs(fields) =~= opt_pairs(rest));
            },
        }
    } else {
        lemma_opt_tokens_lookup(rest, j - 1);
        lemma_opts_of_opt_tokens(rest);
        assert(rest[j - 1] == fields[j]);
        match fields[0].1 {
            Some(v0) => {
                lemma_lookup_concat(seq![(lower(fields[0].0), v0)], opt_pairs(rest), key);
                assert(lower(fields[0].0) != key);
                match lookup(opt_pairs(rest), key) {
                    Some(_) => {},
                    None => {
                        lemma_lookup_single((lower(fields[0].0), v0), key);
                    },
                }
            },
            None => {
                assert(opt_pairs(fields) =~= opt_pairs(rest));
            },
        }
    }
}


/// The characters of a borrowed string, as a vector the parser can index.
pub fn chars_of(s: &str) -> (r: Vec<char>)
    ensures
        r@ == s@,
{
    let n = s.unicode_len();
    let mut r: Vec<char> = Vec::new();
    let mut i: usize = 0;
    while i < n
        invariant
            n == s@.len(),
            i <= n,
            r@ =~= s@.take(i as int),
        decreases n - i,
    {
        r.push(s.get_char(i));
        i = i + 1;
    }
    proof {
        assert(r@ =~= s@);
    }
    r
}

/// A vector of characters rendered back into an owned string.
pub fn vec_to_string(v: &Vec<char>) -> (r: String)
    ensures
        r@ == v@,
{
    let mut r = String::new();
    let mut i: usize = 0;
    while i < v.len()
        invariant
            i <= v@.len(),
            r@ =~= v@.take(i as int),
        decreases v@.len() - i,
    {
        push_char(&mut r, v[i]);
        proof {
            assert(v@.take(i as int).push(v@[i as int]) =~= v@.take(i + 1));
        }
        i = i + 1;
    }
    proof {
        assert(r@ =~= v@);
    }
    r
}

/// Whether a token spells exactly the given name.
pub fn tok_eq(t: &Vec<char>, s: &str) -> (r: bool)
    ensures
        r == (t@ == s@),
{
    let n = s.unicode_len();
    if t.len() != n {
        proof {
            assert(t@ != s@);
        }
        return false;
    }
    let mut i: usize = 0;
    while i < n
        invariant
            n == s@.len(),
            t@.len() == n,
            i <= n,
            forall|k: int| 0 <= k < i ==> t@[k] == s@[k],
        decreases n - i,
    {
        if t[i] != s.get_char(i) {
            proof {
                assert(t@[i as int] != s@[i as int]);
            }
            return false;
        }
        i = i + 1;
    }
    proof {
        assert(t@ =~= s@);
    }
    true
}

/// Position of the first comment mark in a received line, or its length.
pub fn find_hash(v: &Vec<char>) -> (r: usize)
    ensures
        r == hash_end(v@, 0),
{
    let mut i: usize = 0;
    while i < v.len()
        invariant
            i <= v@.len(),
            forall|k: int| 0 <= k < i ==> #[trigger] v@[k] != '#',
        decreases v@.len() - i,
    {
        if v[i] == '#' {
            proof {
                lemma_hash_end_is(v@, 0, i as int);
            }
            return i;
        }
        i = i + 1;
    }
    proof {
        lemma_hash_end_is(v@, 0, v@.len() as int);
    }
    v.len()
}

/// A copy of the characters `a..b` of a line.
pub fn subvec(v: &Vec<char>, a: usize, b: usize) -> (r: Vec<char>)
    requires
        a <= b <= v@.len(),
    ensures
        r@ == v@.subrange(a as int, b as int),
{
    let mut r: Vec<char> = Vec::new();
    let mut i: usize = a;
    while i < b
        invariant
            a <= i <= b <= v@.len(),
            r@ =~= v@.subrange(a as int, i as int),
        decreases b - i,
    {
        r.push(v[i]);
        proof {
            assert(v@.subrange(a as int, i as int).push(v@[i as int]) =~= v@.subrange(
                a as int,
                i + 1,
            ));
        }
        i = i + 1;
    }
    r
}

/// Exec test for protocol whitespace, matching `is_space`.
pub fn char_is_space(c: char) -> (r: bool)
    ensures
        r == is_space(c),
{
    c == ' ' || c == '\t' || c == '\r' || c == '\n'
}

/// Splits the content region of a line into its whitespace-separated tokens.
pub fn tokenize(v: &Vec<char>, end: usize) -> (toks: Vec<Vec<char>>)
    requires
        end <= v@.len(),
    ensures
        toks.deep_view() == tokens_from(v@.take(end as int), 0),
{
    let ghost s = v@.take(end as int);
    let mut toks: Vec<Vec<char>> = Vec::new();
    let mut i: usize = 0;
    while i < end
        invariant
            end <= v@.len(),
            s == v@.take(end as int),
            tokens_from(s, 0) == toks.deep_view() + tokens_from(s, i as int),
        decreases end - i,
    {
        proof {
            assert(s[i as int] == v@[i as int]);
        }
        if char_is_space(v[i]) {
            i = i + 1;
        } else {
            let mut j: usize = i + 1;
            while j < end && !char_is_space(v[j])
                invariant
                    i < j <= end <= v@.len(),
                    s == v@.take(end as int),
                    forall|k: int| i <= k < j ==> !is_space(#[trigger] s[k]),
                decreases end - j,
            {
                proof {
                    assert(s[j as int] == v@[j as int]);
                }
                j = j + 1;
            }
            proof {
                if j < end {
                    assert(s[j as int] == v@[j as int]);
                }
                lemma_tok_end_is(s, i as int, j as int);
            }
            let t = subvec(v, i, j);
            proof {
                assert(t@ =~= s.subrange(i as int, j as int));
            }
            let ghost old_toks = toks.deep_view();
            toks.push(t);
            proof {
                assert(toks.deep_view() =~~= old_toks.push(t@));
                if j < end {
                    assert(is_space(s[j as int]));
                    assert(tokens_from(s, j as int) == tokens_from(s, j + 1));
                    assert(tokens_from(s, i as int) == seq![s.subrange(i as int, j as int)]
                        + tokens_from(s, j + 1));
                } else {
                    assert(tokens_from(s, j as int) =~= Seq::<Seq<char>>::empty());
                    assert(tokens_from(s, i as int) == seq![s.subrange(i as int, j as int)]);
                }
                assert(old_toks.push(t@) + tokens_from(s, j as int) =~~= old_toks + tokens_from(
                    s,
                    i as int,
                ));
            }
            i = j;
        }
    }
    proof {
        assert(tokens_from(s, i as int) =~= Seq::<Seq<char>>::empty());
        assert(toks.deep_view() + Seq::<Seq<char>>::empty() =~= toks.deep_view());
    }
    toks
}


/// Exec test for a digit, matching `is_digit`.
pub fn char_is_digit(c: char) -> (r: bool)
    ensures
        r == is_digit(c),
{
    c == '0' || c == '1' || c == '2' || c == '3' || c == '4' || c == '5' || c == '6' || c == '7'
        || c == '8' || c == '9'
}

/// Exec digit value, matching `digit_val`.
pub fn char_digit_val(c: char) -> (d: u8)
    requires
        is_digit(c),
    ensures
        d == digit_val(c),
        d <= 9,
{
    match c {
        '0' => 0,
        '1' => 1,
        '2' => 2,
        '3' => 3,
        '4' => 4,
        '5' => 5,
        '6' => 6,
        '7' => 7,
        '8' => 8,
        _ => 9,
    }
}

/// Reads a token as an unsigned number, exactly as `dec_bounded` with the
/// `u64` bound describes: digits only, nonempty, value in range.
pub fn parse_u64_tok(t: &Vec<char>) -> (r: Option<u64>)
    ensures
        r == (match dec_bounded(t@, u64::MAX as nat) {
            Some(n) => Some(n as u64),
            None => None::<u64>,
        }),
{
    if t.len() == 0 {
        return None;
    }
    let mut acc: u64 = 0;
    let mut i: usize = 0;
    while i < t.len()
        invariant
            t@.len() >= 1,
            i <= t@.len(),
            forall|k: int| 0 <= k < i ==> is_digit(#[trigger] t@[k]),
            acc as nat == dec_val(t@.take(i as int)),
        decreases t@.len() - i,
    {
        let c = t[i];
        if !char_is_digit(c) {
            proof {
                assert(!all_digits(t@));
            }
            return None;
        }
        let d = char_digit_val(c);
        proof {
            lemma_dec_val_step(t@, i as int);
        }
        if acc > (u64::MAX - d as u64) / 10 {
            proof {
                assert(dec_val(t@.take(i + 1)) == acc as nat * 10 + d as nat);
                assert(acc as nat * 10 + d as nat > u64::MAX as nat) by (nonlinear_arith)
                    requires
                        acc > (u64::MAX - d as u64) / 10,
                        d <= 9,
                ;
                lemma_dec_val_prefix(t@, i + 1);
                assert(dec_val(t@) > u64::MAX as nat);
            }
            return None;
        }
        proof {
            assert(acc as nat * 10 + d as nat <= u64::MAX as nat) by (nonlinear_arith)
                requires
                    acc <= (u64::MAX - d as u64) / 10,
                    d <= 9,
            ;
        }
        acc = acc * 10 + d as u64;
        i = i + 1;
    }
    proof {
        assert(t@.take(t@.len() as int) =~= t@);
        assert(all_digits(t@));
    }
    Some(acc)
}

/// Exec ASCII lower-casing of one character, matching `lower_char`.
pub fn char_lower(c: char) -> (r: char)
    ensures
        r == lower_char(c),
{
    match c {
        'A' => 'a',
        'B' => 'b',
        'C' => 'c',
        'D' => 'd',
        'E' => 'e',
        'F' => 'f',
        'G' => 'g',
        'H' => 'h',
        'I' => 'i',
        'J' => 'j',
        'K' => 'k',
        'L' => 'l',
        'M' => 'm',
        'N' => 'n',
        'O' => 'o',
        'P' => 'p',
        'Q' => 'q',
        'R' => 'r',
        'S' => 's',
        'T' => 't',
        'U' => 'u',
        'V' => 'v',
        'W' => 'w',
        'X' => 'x',
        'Y' => 'y',
        'Z' => 'z',
        _ => c,
    }
}

/// Exec ASCII lower-casing of a key, matching `lower`.
pub fn vec_lower(v: &Vec<char>) -> (r: Vec<char>)
    ensures
        r@ == lower(v@),
{
    let mut r: Vec<char> = Vec::new();
    let mut i: usize = 0;
    while i < v.len()
        invariant
            i <= v@.len(),
            r@.len() == i,
            forall|k: int| 0 <= k < i ==> r@[k] == lower_char(#[trigger] v@[k]),
        decreases v@.len() - i,
    {
        r.push(char_lower(v[i]));
        i = i + 1;
    }
    proof {
        assert(r@ =~= lower(v@));
    }
    r
}

/// Position of the first `'='` in a token, or its length.
pub fn find_eq(t: &Vec<char>) -> (r: usize)
    ensures
        r == eq_end(t@, 0),
{
    let mut i: usize = 0;
    while i < t.len()
        invariant
            i <= t@.len(),
            forall|k: int| 0 <= k < i ==> #[trigger] t@[k] != '=',
        decreases t@.len() - i,
    {
        if t[i] == '=' {
            proof {
                lemma_eq_end_is(t@, 0, i as int);
            }
            return i;
        }
        i = i + 1;
    }
    proof {
        lemma_eq_end_is(t@, 0, t@.len() as int);
    }
    t.len()
}

/// Canonical decimal rendering of a signed number: a leading minus for
/// negative values, then the digits of the magnitude.
pub open spec fn int_dec(v: int) -> Seq<char> {
    if v < 0 {
        seq!['-'] + dec_of((-v) as nat)
    } else {
        dec_of(v as nat)
    }
}

/// Renders a signed number in decimal, exactly as `int_dec` describes.
pub fn i64_to_string(n: i64) -> (s: String)
    ensures
        s@ == int_dec(n as int),
{
    if n >= 0 {
        let s = u64_to_string(n as u64);
        s
    } else {
        let mag: u64 = ((-(n + 1)) as u64) + 1;
        proof {
            assert(mag as nat == (-(n as int)) as nat);
        }
        let mut s = String::new();
        push_char(&mut s, '-');
        let d = u64_to_string(mag);
        let r = s.concat(d.as_str());
        proof {
            assert(s@ =~= seq!['-']);
            assert(r@ =~= int_dec(n as int));
        }
        r
    }
}
} // verus!
