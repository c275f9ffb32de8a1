use vstd::prelude::*;
use vstd::utf8::*;

verus! {

/// `String::push` appends one character.
pub assume_specification[ String::push ](s: &mut String, c: char)
    ensures
        final(s)@ == old(s)@.push(c),
;

/// Does `s` begin with `pat`?
pub open spec fn starts_with(s: Seq<char>, pat: Seq<char>) -> bool {
    pat.len() <= s.len() && s.take(pat.len() as int) == pat
}

/// Does `pat` occur somewhere in `s`?
pub open spec fn contains(s: Seq<char>, pat: Seq<char>) -> bool {
    exists|i: int| 0 <= i <= s.len() && starts_with(#[trigger] s.skip(i), pat)
}

/// `s` with every occurrence of `pat` replaced by `rep`: occurrences are found from left to
/// right, do not overlap, and are not looked for inside what was put in their place.
pub open spec fn replace_all(s: Seq<char>, pat: Seq<char>, rep: Seq<char>) -> Seq<char>
    decreases s.len(),
{
    if s.len() == 0 || pat.len() == 0 {
        s
    } else if starts_with(s, pat) {
        rep + replace_all(s.skip(pat.len() as int), pat, rep)
    } else {
        seq![s[0]] + replace_all(s.skip(1), pat, rep)
    }
}

/// The characters of `s`.
pub fn chars_of(s: &str) -> (v: Vec<char>)
    ensures
        v@ == s@,
{
    let mut v: Vec<char> = Vec::new();
    for c in it: s.chars()
        invariant
            it.seq() == s@,
            v@ == it.seq().take(it.index()),
    {
        v.push(c);
    }
    v
}

/// Is `pat` what stands in `s` from position `at` on?
fn matches_at(s: &Vec<char>, at: usize, pat: &Vec<char>) -> (found: bool)
    requires
        at <= s.len(),
    ensures
        found == starts_with(s@.skip(at as int), pat@),
{
    if s.len() - at < pat.len() {
        return false;
    }
    let ghost rest = s@.skip(at as int);
    for k in 0..pat.len()
        invariant
            at + pat.len() <= s.len(),
            rest == s@.skip(at as int),
            forall|j: int| 0 <= j < k ==> rest[j] == pat[j],
    {
        if s[at + k] != pat[k] {
            assert(rest.take(pat.len() as int)[k as int] != pat[k as int]);
            return false;
        }
    }
    assert(rest.take(pat.len() as int) =~= pat@);
    true
}

/// Does `pat` occur somewhere in `s`?
pub fn text_contains(s: &str, pat: &str) -> (found: bool)
    ensures
        found == contains(s@, pat@),
{
    let chars = chars_of(s);
    let wanted = chars_of(pat);
    let mut i: usize = 0;
    loop
        invariant
            chars@ == s@,
            wanted@ == pat@,
            i <= chars.len(),
            forall|j: int| 0 <= j < i ==> !starts_with(#[trigger] s@.skip(j), pat@),
        decreases chars.len() - i,
    {
        if matches_at(&chars, i, &wanted) {
            assert(starts_with(s@.skip(i as int), pat@));
            return true;
        }
        if i == chars.len() {
            return false;
        }
        i += 1;
    }
}

/// Replaces every occurrence of `pat` in `s` by `rep`.
pub fn text_replace(s: &str, pat: &str, rep: &str) -> (out: String)
    requires
        pat@.len() > 0,
    ensures
        out@ == replace_all(s@, pat@, rep@),
{
    let chars = chars_of(s);
    let wanted = chars_of(pat);
    let mut out = String::new();
    let mut i: usize = 0;
    assert(s@.skip(0) =~= s@);
    assert(out@ + replace_all(s@, pat@, rep@) =~= replace_all(s@, pat@, rep@));
    while i < chars.len()
        invariant
            chars@ == s@,
            wanted@ == pat@,
            pat@.len() > 0,
            i <= chars.len(),
            out@ + replace_all(s@.skip(i as int), pat@, rep@) == replace_all(s@, pat@, rep@),
        decreases chars.len() - i,
    {
        let ghost rest = s@.skip(i as int);
        let ghost before = out@;
        if matches_at(&chars, i, &wanted) {
            out.append(rep);
            i += wanted.len();
            assert(rest.skip(pat@.len() as int) =~= s@.skip(i as int));
            assert(out@ + replace_all(s@.skip(i as int), pat@, rep@) =~= before + (rep@
                + replace_all(s@.skip(i as int), pat@, rep@)));
        } else {
            out.push(chars[i]);
            i += 1;
            assert(rest.skip(1) =~= s@.skip(i as int));
            assert(out@ + replace_all(s@.skip(i as int), pat@, rep@) =~= before + (seq![rest[0]]
                + replace_all(s@.skip(i as int), pat@, rep@)));
        }
    }
    assert(s@.skip(i as int) =~= Seq::<char>::empty());
    assert(out@ + replace_all(s@.skip(i as int), pat@, rep@) =~= out@);
    out
}

/// Unicode's `White_Space` property.
pub open spec fn is_white(c: char) -> bool {
    ||| '\u{9}' <= c <= '\u{d}'
    ||| c == '\u{20}'
    ||| c == '\u{85}'
    ||| c == '\u{a0}'
    ||| c == '\u{1680}'
    ||| '\u{2000}' <= c <= '\u{200a}'
    ||| c == '\u{2028}'
    ||| c == '\u{2029}'
    ||| c == '\u{202f}'
    ||| c == '\u{205f}'
    ||| c == '\u{3000}'
}

/// Has `c` Unicode's `White_Space` property?
pub fn is_whitespace(c: char) -> (white: bool)
    ensures
        white == is_white(c),
{
    ('\u{9}' <= c && c <= '\u{d}') || c == '\u{20}' || c == '\u{85}' || c == '\u{a0}' || c
        == '\u{1680}' || ('\u{2000}' <= c && c <= '\u{200a}') || c == '\u{2028}' || c
        == '\u{2029}' || c == '\u{202f}' || c == '\u{205f}' || c == '\u{3000}'
}

/// `s` without the white space at its start.
pub open spec fn trim_start(s: Seq<char>) -> Seq<char>
    decreases s.len(),
{
    if s.len() > 0 && is_white(s[0]) {
        trim_start(s.skip(1))
    } else {
        s
    }
}

/// `s` without the white space at its end.
pub open spec fn trim_end(s: Seq<char>) -> Seq<char>
    decreases s.len(),
{
    if s.len() > 0 && is_white(s.last()) {
        trim_end(s.drop_last())
    } else {
        s
    }
}

/// `s` without the white space at its start and at its end.
pub open spec fn trim(s: Seq<char>) -> Seq<char> {
    trim_end(trim_start(s))
}

/// `s` without the white space at its start and at its end.
pub fn text_trim(s: &str) -> (out: String)
    ensures
        out@ == trim(s@),
{
    let chars = chars_of(s);
    let mut from: usize = 0;
    assert(s@.skip(0) =~= s@);
    while from < chars.len() && is_whitespace(chars[from])
        invariant
            chars@ == s@,
            from <= chars.len(),
            trim_start(s@.skip(from as int)) == trim_start(s@),
        decreases chars.len() - from,
    {
        assert(s@.skip(from as int).skip(1) =~= s@.skip(from + 1));
        from += 1;
    }
    let mut to: usize = chars.len();
    let ghost body = s@.skip(from as int);
    assert(body == trim_start(s@));
    assert(s@.subrange(from as int, to as int) =~= body);
    while to > from && is_whitespace(chars[to - 1])
        invariant
            chars@ == s@,
            from <= to <= chars.len(),
            body == trim_start(s@),
            trim_end(s@.subrange(from as int, to as int)) == trim_end(body),
        decreases to,
    {
        let ghost piece = s@.subrange(from as int, to as int);
        assert(piece.last() == chars[to - 1]);
        assert(piece.drop_last() =~= s@.subrange(from as int, to - 1));
        to -= 1;
    }
    let ghost piece = s@.subrange(from as int, to as int);
    assert(trim_end(piece) == piece);
    let mut out = String::new();
    for k in from..to
        invariant
            chars@ == s@,
            from <= k <= to <= chars.len(),
            out@ == s@.subrange(from as int, k as int),
    {
        out.push(chars[k]);
        assert(out@ =~= s@.subrange(from as int, k + 1));
    }
    out
}

/// The decimal digits of `n`.
pub open spec fn decimal(n: nat) -> Seq<char>
    decreases n,
{
    let digit = ((48 + n % 10) as u8) as char;
    if n < 10 {
        seq![digit]
    } else {
        decimal(n / 10).push(digit)
    }
}

/// Writes `n` in decimal.
pub fn decimal_text(n: usize) -> (out: String)
    ensures
        out@ == decimal(n as nat),
    decreases n,
{
    let digit = (48 + (n % 10) as u8) as char;
    let mut out = if n < 10 {
        String::new()
    } else {
        decimal_text(n / 10)
    };
    out.push(digit);
    assert(n < 10 ==> out@ =~= seq![digit]);
    out
}

/// `result` is `expected`, with the error as a text.
pub open spec fn agrees<T>(result: Result<T, String>, expected: Result<T, Seq<char>>) -> bool {
    match result {
        Ok(value) => expected == Ok::<T, Seq<char>>(value),
        Err(error) => expected == Err::<T, Seq<char>>(error@),
    }
}

/// The characters of a list of texts.
pub open spec fn texts_of(texts: Seq<String>) -> Seq<Seq<char>> {
    Seq::new(texts.len(), |i: int| texts[i]@)
}

/// The parts one after the other, with `sep` between each two.
pub open spec fn join(parts: Seq<Seq<char>>, sep: Seq<char>) -> Seq<char>
    decreases parts.len(),
{
    if parts.len() == 0 {
        Seq::empty()
    } else if parts.len() == 1 {
        parts[0]
    } else {
        join(parts.drop_last(), sep) + sep + parts.last()
    }
}

/// Joins the parts, with `sep` between each two.
pub fn text_join(parts: &Vec<String>, sep: &str) -> (out: String)
    ensures
        out@ == join(texts_of(parts@), sep@),
{
    let mut out = String::new();
    let ghost texts = texts_of(parts@);
    for k in 0..parts.len()
        invariant
            texts == texts_of(parts@),
            out@ == join(texts.take(k as int), sep@),
    {
        assert(texts.take(k + 1).drop_last() =~= texts.take(k as int));
        if k > 0 {
            out.append(sep);
        }
        out.append(parts[k].as_str());
        assert(k == 0 ==> out@ =~= texts[0]);
    }
    assert(texts.take(parts@.len() as int) =~= texts);
    out
}

/// Do `a` and `b` hold the same characters?
pub fn same_text(a: &str, b: &str) -> (same: bool)
    ensures
        same == (a@ == b@),
{
    let left = a.as_bytes();
    let right = b.as_bytes();
    if left.len() != right.len() {
        return false;
    }
    for k in 0..left.len()
        invariant
            left@ == encode_utf8(a@),
            right@ == encode_utf8(b@),
            left@.len() == right@.len(),
            forall|j: int| 0 <= j < k ==> left@[j] == right@[j],
    {
        if left[k] != right[k] {
            return false;
        }
    }
    proof {
        assert(left@ =~= right@);
        encode_utf8_decode_utf8(a@);
        encode_utf8_decode_utf8(b@);
    }
    true
}

/// Can `s` be cut after `limit` bytes? It can if it is no longer than that, or if a character
/// ends there.
pub open spec fn cuts_cleanly(s: Seq<char>, limit: int) -> bool {
    encode_utf8(s).len() <= limit || is_char_boundary(encode_utf8(s), limit)
}

/// The first `limit` bytes of `s`, or all of `s` if it is shorter.
pub open spec fn clip(s: Seq<char>, limit: int) -> Seq<char> {
    if encode_utf8(s).len() <= limit {
        s
    } else {
        decode_utf8(encode_utf8(s).subrange(0, limit))
    }
}

/// Can `s` be cut after `limit` bytes?
pub fn text_cuts_cleanly(s: &str, limit: usize) -> (clean: bool)
    ensures
        clean == cuts_cleanly(s@, limit as int),
{
    s.as_bytes().len() <= limit || s.is_char_boundary(limit)
}

/// The first `limit` bytes of `s`, or all of `s` if it is shorter.
pub fn text_clip(s: &str, limit: usize) -> (out: &str)
    requires
        cuts_cleanly(s@, limit as int),
    ensures
        out@ == clip(s@, limit as int),
{
    if s.as_bytes().len() <= limit {
        s
    } else {
        let halves = s.split_at(limit);
        proof {
            encode_utf8_decode_utf8(halves.0@);
        }
        halves.0
    }
}

/// What is clipped off is a tail: the clipped text is the start of the whole, and takes up the
/// smaller of `limit` and the whole length in bytes.
pub proof fn clip_keeps_a_start(s: Seq<char>, limit: int)
    requires
        0 <= limit,
        cuts_cleanly(s, limit),
    ensures
        starts_with(s, clip(s, limit)),
        encode_utf8(clip(s, limit)).len() == (if encode_utf8(s).len() <= limit {
            encode_utf8(s).len() as int
        } else {
            limit
        }),
{
    let bytes = encode_utf8(s);
    if bytes.len() <= limit {
        assert(s.take(s.len() as int) =~= s);
    } else {
        encode_utf8_valid_utf8(s);
        encode_utf8_decode_utf8(s);
        valid_utf8_split(bytes, limit);
        decode_utf8_split(bytes, limit);
        decode_utf8_encode_utf8(bytes.subrange(0, limit));
        assert(s.take(clip(s, limit).len() as int) =~= clip(s, limit));
    }
}

/// A text begins with another just where it is that one and something after it.
pub proof fn starts_with_means_followed(s: Seq<char>, pat: Seq<char>)
    ensures
        starts_with(s, pat) <==> exists|after: Seq<char>| s == #[trigger] (pat + after),
{
    if starts_with(s, pat) {
        assert(s =~= pat + s.skip(pat.len() as int));
    }
    if exists|after: Seq<char>| s == #[trigger] (pat + after) {
        let after = choose|after: Seq<char>| s == #[trigger] (pat + after);
        assert(s.take(pat.len() as int) =~= pat);
    }
}

/// A text occurs in another just where that is something before it, the text, and something after
/// it.
pub proof fn contains_means_surrounded(s: Seq<char>, pat: Seq<char>)
    ensures
        contains(s, pat) <==> exists|before: Seq<char>, after: Seq<char>|
            s == #[trigger] (before + pat + after),
{
    if contains(s, pat) {
        let i = choose|i: int| 0 <= i <= s.len() && starts_with(#[trigger] s.skip(i), pat);
        let rest = s.skip(i);
        assert(s =~= s.take(i) + rest.take(pat.len() as int) + rest.skip(pat.len() as int));
    }
    if exists|before: Seq<char>, after: Seq<char>| s == #[trigger] (before + pat + after) {
        let (before, after) = choose|before: Seq<char>, after: Seq<char>|
            s == #[trigger] (before + pat + after);
        let rest = s.skip(before.len() as int);
        assert(rest.take(pat.len() as int) =~= pat);
        assert(starts_with(s.skip(before.len() as int), pat));
    }
}

/// What stands before the first occurrence stays, the occurrence gives way to the replacement,
/// and the replacing goes on behind it.
pub proof fn replace_takes_the_first(
    before: Seq<char>,
    after: Seq<char>,
    pat: Seq<char>,
    rep: Seq<char>,
)
    requires
        pat.len() > 0,
        forall|i: int|
            0 <= i < before.len() ==> #[trigger] (before + pat + after).subrange(
                i,
                i + pat.len(),
            ) != pat,
    ensures
        replace_all(before + pat + after, pat, rep) == before + rep + replace_all(after, pat, rep),
    decreases before.len(),
{
    let s = before + pat + after;
    if before.len() == 0 {
        assert(s.take(pat.len() as int) =~= pat);
        assert(s.skip(pat.len() as int) =~= after);
        assert(before + rep =~= rep);
    } else {
        let tail = before.skip(1);
        assert(s.subrange(0, 0int + pat.len()) =~= s.take(pat.len() as int));
        assert(!starts_with(s, pat));
        assert(s.skip(1) =~= tail + pat + after);
        assert forall|i: int| 0 <= i < tail.len() implies #[trigger] (tail + pat + after).subrange(
            i,
            i + pat.len(),
        ) != pat by {
            assert((tail + pat + after).subrange(i, i + pat.len()) =~= s.subrange(
                i + 1,
                i + 1 + pat.len(),
            ));
        }
        replace_takes_the_first(tail, after, pat, rep);
        assert(before + rep + replace_all(after, pat, rep) =~= seq![s[0]] + (tail + rep
            + replace_all(after, pat, rep)));
    }
}

/// A text in which the pattern does not occur stays as it is.
pub proof fn replace_keeps_the_rest(s: Seq<char>, pat: Seq<char>, rep: Seq<char>)
    requires
        forall|before: Seq<char>, after: Seq<char>| s != #[trigger] (before + pat + after),
    ensures
        replace_all(s, pat, rep) == s,
    decreases s.len(),
{
    if s.len() > 0 && pat.len() > 0 {
        if starts_with(s, pat) {
            assert(s =~= Seq::<char>::empty() + pat + s.skip(pat.len() as int));
        }
        assert forall|before: Seq<char>, after: Seq<char>| s.skip(1) != #[trigger] (before + pat
            + after) by {
            if s.skip(1) == before + pat + after {
                assert(s =~= seq![s[0]] + s.skip(1));
                assert(s =~= (seq![s[0]] + before) + pat + after);
            }
        }
        replace_keeps_the_rest(s.skip(1), pat, rep);
        assert(s =~= seq![s[0]] + s.skip(1));
    }
}

/// White space is what Unicode calls so: tab to carriage return, space, next line, no-break
/// space, ogham space, the spaces from en quad to hair space, line and paragraph separator, narrow
/// no-break space, mathematical space and ideographic space.
pub proof fn white_space_by_code_point(c: char)
    ensures
        is_white(c) <==> {
            let code = c as u32;
            ||| 9 <= code <= 13
            ||| code == 32
            ||| code == 133
            ||| code == 160
            ||| code == 5760
            ||| 8192 <= code <= 8202
            ||| code == 8232
            ||| code == 8233
            ||| code == 8239
            ||| code == 8287
            ||| code == 12288
        },
{
}

/// Is all of `s` white space?
pub open spec fn all_white(s: Seq<char>) -> bool {
    forall|i: int| 0 <= i < s.len() ==> is_white(#[trigger] s[i])
}

/// What is trimmed at the start is white space, and no more of it follows.
proof fn trim_start_splits(s: Seq<char>) -> (left: Seq<char>)
    ensures
        s == left + trim_start(s),
        all_white(left),
        trim_start(s).len() > 0 ==> !is_white(trim_start(s)[0]),
    decreases s.len(),
{
    if s.len() > 0 && is_white(s[0]) {
        let more = trim_start_splits(s.skip(1));
        let left = seq![s[0]] + more;
        assert(s =~= seq![s[0]] + s.skip(1));
        assert(s =~= left + trim_start(s));
        assert forall|i: int| 0 <= i < left.len() implies is_white(#[trigger] left[i]) by {
            if i > 0 {
                assert(left[i] == more[i - 1]);
            }
        }
        left
    } else {
        assert(s =~= Seq::<char>::empty() + s);
        Seq::empty()
    }
}

/// What is trimmed at the end is white space, and no more of it stands before.
proof fn trim_end_splits(s: Seq<char>) -> (right: Seq<char>)
    ensures
        s == trim_end(s) + right,
        all_white(right),
        trim_end(s).len() > 0 ==> !is_white(trim_end(s).last()),
    decreases s.len(),
{
    if s.len() > 0 && is_white(s.last()) {
        let more = trim_end_splits(s.drop_last());
        let right = more.push(s.last());
        assert(s =~= s.drop_last().push(s.last()));
        assert(s =~= trim_end(s) + right);
        right
    } else {
        assert(s =~= s + Seq::<char>::empty());
        Seq::empty()
    }
}

/// Trimming takes away white space at both ends, nothing else, and all of it: what is left
/// neither starts nor ends with white space.
pub proof fn trim_takes_all_white_ends(s: Seq<char>)
    ensures
        exists|left: Seq<char>, right: Seq<char>|
            s == #[trigger] (left + trim(s) + right) && all_white(left) && all_white(right),
        trim(s).len() > 0 ==> !is_white(trim(s)[0]) && !is_white(trim(s).last()),
{
    let left = trim_start_splits(s);
    let right = trim_end_splits(trim_start(s));
    assert(s =~= left + trim(s) + right);
    if trim(s).len() > 0 {
        assert(trim(s)[0] == trim_start(s)[0]);
    }
}

/// The number that decimal digits stand for.
pub open spec fn digits_value(digits: Seq<char>) -> int
    decreases digits.len(),
{
    if digits.len() == 0 {
        0
    } else {
        digits_value(digits.drop_last()) * 10 + (digits.last() as int - 48)
    }
}

/// A number is written with digits alone, which stand for it, and without a zero in front unless
/// it is zero itself.
pub proof fn decimal_stands_for_the_number(n: nat)
    ensures
        digits_value(decimal(n)) == n,
        forall|i: int| 0 <= i < decimal(n).len() ==> '0' <= #[trigger] decimal(n)[i] <= '9',
        decimal(n).len() > 0,
        decimal(n)[0] == '0' <==> n == 0,
        n == 0 ==> decimal(n).len() == 1,
    decreases n,
{
    let digit = ((48 + n % 10) as u8) as char;
    if n < 10 {
        assert(decimal(n).drop_last() =~= Seq::<char>::empty());
        assert(digits_value(Seq::<char>::empty()) == 0);
        assert(digits_value(decimal(n)) == n);
    } else {
        decimal_stands_for_the_number(n / 10);
        assert(decimal(n).drop_last() =~= decimal(n / 10));
        assert(digits_value(decimal(n)) == n);
        assert(decimal(n)[0] == decimal(n / 10)[0]);
    }
}

/// Parts that are joined stand in their order with the separator between each two: nothing is
/// the empty text, one part is itself, and two lists are joined one after the other.
pub proof fn join_puts_the_separator_between(
    first: Seq<Seq<char>>,
    second: Seq<Seq<char>>,
    part: Seq<char>,
    sep: Seq<char>,
)
    ensures
        join(Seq::<Seq<char>>::empty(), sep) == Seq::<char>::empty(),
        join(seq![part], sep) == part,
        first.len() > 0 && second.len() > 0 ==> join(first + second, sep) == join(first, sep) + sep
            + join(second, sep),
    decreases second.len(),
{
    if first.len() > 0 && second.len() > 0 {
        let both = first + second;
        assert(both.drop_last() =~= first + second.drop_last());
        if second.len() == 1 {
            assert(both.drop_last() =~= first);
        } else {
            join_puts_the_separator_between(first, second.drop_last(), part, sep);
            assert(join(both, sep) =~= join(first, sep) + sep + (join(second.drop_last(), sep)
                + sep + second.last()));
        }
    }
}

/// The bytes of two texts in a row are those of the first and then those of the second.
proof fn encode_concat(a: Seq<char>, b: Seq<char>)
    ensures
        encode_utf8(a + b) == encode_utf8(a) + encode_utf8(b),
    decreases a.len(),
{
    if a.len() == 0 {
        assert(a + b =~= b);
        assert(encode_utf8(a) + encode_utf8(b) =~= encode_utf8(b));
    } else {
        let tail = a.drop_first();
        assert((a + b).drop_first() =~= tail + b);
        encode_concat(tail, b);
        assert(encode_utf8(a + b) =~= encode_utf8(a) + encode_utf8(b));
    }
}

/// Where a start of a text ends, a character ends.
proof fn start_ends_at_boundary(a: Seq<char>, b: Seq<char>)
    ensures
        is_char_boundary(encode_utf8(a + b), encode_utf8(a).len() as int),
    decreases a.len(),
{
    let bytes = encode_utf8(a + b);
    encode_utf8_valid_utf8(a + b);
    if a.len() == 0 {
        is_char_boundary_start_end_of_seq(bytes);
    } else {
        encode_utf8_first_scalar(a + b);
        encode_utf8_first_scalar(a);
        let tail = a.drop_first();
        assert((a + b).drop_first() =~= tail + b);
        start_ends_at_boundary(tail, b);
        encode_concat(a, b);
        assert(pop_first_scalar(bytes) =~= encode_utf8(tail + b));
        assert(encode_utf8(a).len() == encode_scalar(a[0] as u32).len() + encode_utf8(tail).len());
    }
}

/// A text can be cut after `limit` bytes just where it has no more than these, or some start of
/// it has exactly these.
pub proof fn cuts_cleanly_between_characters(s: Seq<char>, limit: int)
    requires
        0 <= limit,
    ensures
        cuts_cleanly(s, limit) <==> encode_utf8(s).len() <= limit || exists|
            start: Seq<char>,
            rest: Seq<char>,
        | s == #[trigger] (start + rest) && encode_utf8(start).len() == limit,
{
    if cuts_cleanly(s, limit) && encode_utf8(s).len() > limit {
        clip_keeps_a_start(s, limit);
        let start = clip(s, limit);
        assert(s =~= start + s.skip(start.len() as int));
    }
    if exists|start: Seq<char>, rest: Seq<char>|
        s == #[trigger] (start + rest) && encode_utf8(start).len() == limit {
        let (start, rest) = choose|start: Seq<char>, rest: Seq<char>|
            s == #[trigger] (start + rest) && encode_utf8(start).len() == limit;
        start_ends_at_boundary(start, rest);
    }
}

/// A result agrees with one whose error is a plain text just where both have the same value, or
/// errors with the same characters.
pub proof fn agreement_is_exact<T>(value: T, other: T, error: String, words: Seq<char>)
    ensures
        agrees(Ok::<T, String>(value), Ok(other)) <==> value == other,
        agrees(Err::<T, String>(error), Err(words)) <==> error@ == words,
        !agrees(Ok::<T, String>(value), Err(words)),
        !agrees(Err::<T, String>(error), Ok(other)),
{
}

/// The characters of a list of texts are those of each, in their order.
pub proof fn texts_keep_their_order(texts: Seq<String>)
    ensures
        texts_of(texts).len() == texts.len(),
        forall|i: int| 0 <= i < texts.len() ==> #[trigger] texts_of(texts)[i] == texts[i]@,
{
}

/// A text that takes up no more than `limit` bytes is not clipped.
pub proof fn short_text_is_kept_whole(s: Seq<char>, limit: int)
    requires
        encode_utf8(s).len() <= limit,
    ensures
        clip(s, limit) == s,
{
}

}
