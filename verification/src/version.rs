//! Release tags and `major.minor.patch` version comparison.

use vstd::prelude::*;
use vstd::string::StrSliceExecFns;
use vstd::string::StringExecFns;

use crate::text::chars_of;

verus! {

// ---------------------------------------------------------------------------
// Model
// ---------------------------------------------------------------------------

/// `tag` without one leading `v`, if it has one.
pub open spec fn strip_v_spec(tag: Seq<char>) -> Seq<char> {
    if tag.len() > 0 && tag[0] == 'v' {
        tag.drop_first()
    } else {
        tag
    }
}

/// An ASCII decimal digit.
pub open spec fn is_digit(c: char) -> bool {
    '0' <= c && c <= '9'
}

pub open spec fn all_digits(d: Seq<char>) -> bool {
    forall|i: int| 0 <= i < d.len() ==> is_digit(#[trigger] d[i])
}

/// The number that a string of decimal digits denotes.
pub open spec fn digits_value(d: Seq<char>) -> int
    decreases d.len(),
{
    if d.len() == 0 {
        0
    } else {
        digits_value(d.drop_last()) * 10 + (d.last() as int - '0' as int)
    }
}

/// The digits that follow an optional leading `+`.
pub open spec fn unsigned_digits(s: Seq<char>) -> Seq<char> {
    if s.len() > 0 && s[0] == '+' {
        s.drop_first()
    } else {
        s
    }
}

/// What parsing `s` as a `u32` gives: an optional `+`, then one or more decimal
/// digits whose value fits in 32 bits.
pub open spec fn parse_u32_spec(s: Seq<char>) -> Option<u32> {
    let d = unsigned_digits(s);
    if d.len() > 0 && all_digits(d) && digits_value(d) <= u32::MAX {
        Some(digits_value(d) as u32)
    } else {
        None
    }
}

/// The pieces of `s` between the dots, in order (a string without dots is one piece).
pub open spec fn split_dots(s: Seq<char>) -> Seq<Seq<char>>
    decreases s.len(),
{
    if s.len() == 0 {
        seq![Seq::<char>::empty()]
    } else {
        let p = split_dots(s.drop_last());
        if s.last() == '.' {
            p.push(Seq::<char>::empty())
        } else {
            p.update(p.len() - 1, p.last().push(s.last()))
        }
    }
}

/// The pieces that parse as numbers, in order; the others are skipped.
pub open spec fn parsed_numbers(pieces: Seq<Seq<char>>) -> Seq<u32>
    decreases pieces.len(),
{
    if pieces.len() == 0 {
        Seq::<u32>::empty()
    } else {
        let rest = parsed_numbers(pieces.drop_last());
        match parse_u32_spec(pieces.last()) {
            Some(v) => rest.push(v),
            None => rest,
        }
    }
}

/// Number `i` of `nums`, or 0 where there is none.
pub open spec fn component(nums: Seq<u32>, i: int) -> u32 {
    if 0 <= i < nums.len() {
        nums[i]
    } else {
        0
    }
}

/// A character that ends the core of a semantic version: a pre-release (`-`) or build (`+`)
/// part follows it.
pub open spec fn ends_core(c: char) -> bool {
    c == '-' || c == '+'
}

/// The length of the core of a version string: the characters before the first `-` or `+`.
pub open spec fn core_len(s: Seq<char>) -> int
    decreases s.len(),
{
    if s.len() == 0 || ends_core(s[0]) {
        0
    } else {
        1 + core_len(s.drop_first())
    }
}

/// A piece of one or more decimal digits.
pub open spec fn numeric_piece(p: Seq<char>) -> bool {
    p.len() > 0 && all_digits(p)
}

/// Every piece is a piece of digits.
pub open spec fn all_numeric(pieces: Seq<Seq<char>>) -> bool {
    forall|j: int| 0 <= j < pieces.len() ==> numeric_piece(#[trigger] pieces[j])
}

/// A semantic-version core: three pieces of digits separated by dots (`1.2.3`).
pub open spec fn is_numeric_core(c: Seq<char>) -> bool {
    split_dots(c).len() == 3 && all_numeric(split_dots(c))
}

/// The text of a version string that is read: where a complete `major.minor.patch` core is
/// followed by a pre-release (`-`) or build (`+`) part, the core alone
/// (`"1.2.3-rc.1+b5"` gives `"1.2.3"`); otherwise the whole string.
pub open spec fn version_text(s: Seq<char>) -> Seq<char> {
    let k = core_len(s);
    if k < s.len() && is_numeric_core(s.take(k)) {
        s.take(k)
    } else {
        s
    }
}

/// `(major, minor, patch)` of a version string: the pieces of its text between the dots
/// that parse as numbers, in order, with 0 for each that is missing.
pub open spec fn version_triple(s: Seq<char>) -> (u32, u32, u32) {
    let nums = parsed_numbers(split_dots(version_text(s)));
    (component(nums, 0), component(nums, 1), component(nums, 2))
}

/// Lexicographic order on version triples.
pub open spec fn triple_less(a: (u32, u32, u32), b: (u32, u32, u32)) -> bool {
    ||| a.0 < b.0
    ||| a.0 == b.0 && a.1 < b.1
    ||| a.0 == b.0 && a.1 == b.1 && a.2 < b.2
}

/// `latest` names a newer version than `current`.
pub open spec fn is_newer_spec(current: Seq<char>, latest: Seq<char>) -> bool {
    triple_less(version_triple(current), version_triple(latest))
}

// ---------------------------------------------------------------------------
// Lemmas
// ---------------------------------------------------------------------------

proof fn lemma_digits_value_nonneg(d: Seq<char>)
    requires
        all_digits(d),
    ensures
        digits_value(d) >= 0,
    decreases d.len(),
{
    if d.len() > 0 {
        lemma_digits_value_nonneg(d.drop_last());
    }
}

/// A prefix of a string of digits never denotes more than the whole string.
proof fn lemma_digits_value_prefix(d: Seq<char>, k: int)
    requires
        all_digits(d),
        0 <= k <= d.len(),
    ensures
        digits_value(d.take(k)) <= digits_value(d),
    decreases d.len(),
{
    if k < d.len() {
        assert(d.drop_last().take(k) =~= d.take(k));
        lemma_digits_value_prefix(d.drop_last(), k);
        lemma_digits_value_nonneg(d.drop_last());
    } else {
        assert(d.take(k) =~= d);
    }
}

// ---------------------------------------------------------------------------
// Code
// ---------------------------------------------------------------------------

/// The tag without a leading `v` (`"v1.2.3"` gives `"1.2.3"`).
pub fn strip_v_prefix(tag: &str) -> (r: String)
    ensures
        r@ == strip_v_spec(tag@),
{
    let cs = chars_of(tag);
    if cs.len() > 0 && cs[0] == 'v' {
        String::from_str(tag.substring_char(1, cs.len()))
    } else {
        String::from_str(tag)
    }
}

/// Parses `cs[lo..hi]` as a `u32`, as `str::parse::<u32>` does.
pub fn parse_u32_chars(cs: &Vec<char>, lo: usize, hi: usize) -> (r: Option<u32>)
    requires
        lo <= hi <= cs@.len(),
    ensures
        r == parse_u32_spec(cs@.subrange(lo as int, hi as int)),
{
    let ghost s = cs@.subrange(lo as int, hi as int);
    let mut start = lo;
    if start < hi && cs[start] == '+' {
        start = start + 1;
    }
    let ghost d = cs@.subrange(start as int, hi as int);
    assert(d =~= unsigned_digits(s));
    if start == hi {
        return None;
    }
    let mut i = start;
    let mut val: u64 = 0;
    while i < hi
        invariant
            lo <= start <= i <= hi <= cs@.len(),
            s == cs@.subrange(lo as int, hi as int),
            d == cs@.subrange(start as int, hi as int),
            d == unsigned_digits(s),
            d.len() > 0,
            all_digits(d.take(i - start)),
            val == digits_value(d.take(i - start)),
            val <= u32::MAX,
        decreases hi - i,
    {
        let c = cs[i];
        assert(d[i - start] == c);
        if !('0' <= c && c <= '9') {
            assert(!all_digits(d));
            return None;
        }
        let ghost k = i - start;
        assert(d.take(k + 1).drop_last() =~= d.take(k));
        assert(all_digits(d.take(k + 1)));
        val = val * 10 + ((c as u32) - ('0' as u32)) as u64;
        assert(val == digits_value(d.take(k + 1)));
        i = i + 1;
        if val > 0xffff_ffffu64 {
            proof {
                if all_digits(d) {
                    lemma_digits_value_prefix(d, k + 1);
                }
            }
            return None;
        }
    }
    assert(d.take(i - start) =~= d);
    Some(val as u32)
}

/// Parses the string as a `u32`, as `str::parse::<u32>` does.
pub fn parse_u32(s: &str) -> (r: Option<u32>)
    ensures
        r == parse_u32_spec(s@),
{
    let cs = chars_of(s);
    assert(cs@.subrange(0, cs@.len() as int) =~= cs@);
    parse_u32_chars(&cs, 0, cs.len())
}

/// The length of the core of the version string `cs` (the characters before the first
/// `-` or `+`).
fn core_length(cs: &Vec<char>) -> (r: usize)
    ensures
        r == core_len(cs@),
        r <= cs@.len(),
{
    let mut i: usize = 0;
    assert(cs@.skip(0) =~= cs@);
    while i < cs.len() && !(cs[i] == '-' || cs[i] == '+')
        invariant
            i <= cs@.len(),
            core_len(cs@) == i + core_len(cs@.skip(i as int)),
        decreases cs.len() - i,
    {
        assert(cs@.skip(i as int).drop_first() =~= cs@.skip(i + 1));
        i = i + 1;
    }
    i
}

/// Whether `cs[lo..hi]` is a piece of one or more decimal digits.
fn is_numeric_range(cs: &Vec<char>, lo: usize, hi: usize) -> (r: bool)
    requires
        lo <= hi <= cs@.len(),
    ensures
        r == numeric_piece(cs@.subrange(lo as int, hi as int)),
{
    if lo == hi {
        return false;
    }
    let mut i = lo;
    while i < hi
        invariant
            lo <= i <= hi <= cs@.len(),
            forall|j: int| lo <= j < i ==> is_digit(#[trigger] cs@[j]),
        decreases hi - i,
    {
        if !('0' <= cs[i] && cs[i] <= '9') {
            assert(!is_digit(cs@.subrange(lo as int, hi as int)[i - lo]));
            return false;
        }
        i = i + 1;
    }
    assert forall|j: int| 0 <= j < hi - lo implies is_digit(
        #[trigger] cs@.subrange(lo as int, hi as int)[j],
    ) by {
        assert(is_digit(cs@[lo + j]));
    }
    true
}

proof fn lemma_all_numeric_push(q: Seq<Seq<char>>, x: Seq<char>)
    ensures
        all_numeric(q.push(x)) == (all_numeric(q) && numeric_piece(x)),
{
    if all_numeric(q.push(x)) {
        assert(q.push(x)[q.len() as int] == x);
        assert forall|j: int| 0 <= j < q.len() implies numeric_piece(#[trigger] q[j]) by {
            assert(q.push(x)[j] == q[j]);
        }
    }
    if all_numeric(q) && numeric_piece(x) {
        assert forall|j: int| 0 <= j < q.push(x).len() implies numeric_piece(
            #[trigger] q.push(x)[j],
        ) by {
            if j < q.len() {
                assert(q.push(x)[j] == q[j]);
            }
        }
    }
}

/// The numbers among the dot-separated pieces of `cs[..end]`, how many dots separate the
/// pieces, and whether every piece is a piece of digits.
fn split_and_parse(cs: &Vec<char>, end: usize) -> (r: (Vec<u32>, usize, bool))
    requires
        end <= cs@.len(),
    ensures
        r.0@ == parsed_numbers(split_dots(cs@.take(end as int))),
        r.1 == split_dots(cs@.take(end as int)).len() - 1,
        r.2 == all_numeric(split_dots(cs@.take(end as int))),
{
    let mut nums: Vec<u32> = Vec::new();
    let mut count: usize = 0;
    let mut numeric = true;
    let mut seg_start: usize = 0;
    let mut i: usize = 0;
    proof {
        assert(cs@.take(0) =~= Seq::<char>::empty());
        assert(split_dots(cs@.take(0)).drop_last() =~= Seq::<Seq<char>>::empty());
        assert(cs@.subrange(0, 0) =~= Seq::<char>::empty());
    }
    while i < end
        invariant
            end <= cs@.len(),
            seg_start <= i <= end,
            split_dots(cs@.take(i as int)).len() >= 1,
            count == split_dots(cs@.take(i as int)).len() - 1,
            count <= i,
            numeric == all_numeric(split_dots(cs@.take(i as int)).drop_last()),
            nums@ == parsed_numbers(split_dots(cs@.take(i as int)).drop_last()),
            split_dots(cs@.take(i as int)).last() == cs@.subrange(seg_start as int, i as int),
        decreases end - i,
    {
        let ghost p = split_dots(cs@.take(i as int));
        let c = cs[i];
        assert(cs@.take(i + 1).drop_last() =~= cs@.take(i as int));
        assert(cs@.take(i + 1).last() == c);
        if c == '.' {
            let v = parse_u32_chars(&cs, seg_start, i);
            let piece_numeric = is_numeric_range(cs, seg_start, i);
            assert(split_dots(cs@.take(i + 1)) == p.push(Seq::<char>::empty()));
            assert(p.push(Seq::<char>::empty()).drop_last() =~= p);
            proof {
                assert(p =~= p.drop_last().push(p.last()));
                lemma_all_numeric_push(p.drop_last(), p.last());
            }
            match v {
                Some(x) => nums.push(x),
                None => {},
            }
            numeric = numeric && piece_numeric;
            count = count + 1;
            i = i + 1;
            seg_start = i;
            assert(cs@.subrange(seg_start as int, i as int) =~= Seq::<char>::empty());
        } else {
            assert(split_dots(cs@.take(i + 1)) == p.update(p.len() - 1, p.last().push(c)));
            assert(p.update(p.len() - 1, p.last().push(c)).drop_last() =~= p.drop_last());
            assert(cs@.subrange(seg_start as int, i + 1) =~= cs@.subrange(
                seg_start as int,
                i as int,
            ).push(c));
            i = i + 1;
        }
    }
    let last = parse_u32_chars(&cs, seg_start, i);
    let last_numeric = is_numeric_range(cs, seg_start, i);
    let ghost p = split_dots(cs@.take(i as int));
    assert(p.drop_last().push(p.last()) =~= p);
    proof {
        lemma_all_numeric_push(p.drop_last(), p.last());
    }
    match last {
        Some(x) => nums.push(x),
        None => {},
    }
    (nums, count, numeric && last_numeric)
}

/// The first three numbers, with 0 for each that is missing.
fn first_three(nums: &Vec<u32>) -> (r: (u32, u32, u32))
    ensures
        r == (component(nums@, 0), component(nums@, 1), component(nums@, 2)),
{
    let major = if nums.len() > 0 { nums[0] } else { 0 };
    let minor = if nums.len() > 1 { nums[1] } else { 0 };
    let patch = if nums.len() > 2 { nums[2] } else { 0 };
    (major, minor, patch)
}

/// `(major, minor, patch)` of a version string: the pieces between the dots that parse as
/// numbers, in order, with 0 for each that is missing. A pre-release (`-`) or build (`+`)
/// part that follows a complete `major.minor.patch` core is not read.
pub fn parse_version(s: &str) -> (r: (u32, u32, u32))
    ensures
        r == version_triple(s@),
{
    let cs = chars_of(s);
    let k = core_length(&cs);
    let n = cs.len();
    if k < n {
        let (nums, count, numeric) = split_and_parse(&cs, k);
        if count == 2 && numeric {
            return first_three(&nums);
        }
    }
    let (nums, _, _) = split_and_parse(&cs, n);
    assert(cs@.take(n as int) =~= s@);
    first_three(&nums)
}

/// Whether `latest` is a newer version than `current`: their `(major, minor, patch)`
/// triples compared in order.
pub fn is_newer(current: &str, latest: &str) -> (r: bool)
    ensures
        r == is_newer_spec(current@, latest@),
{
    let c = parse_version(current);
    let l = parse_version(latest);
    l.0 > c.0 || (l.0 == c.0 && (l.1 > c.1 || (l.1 == c.1 && l.2 > c.2)))
}

} // verus!

verus! {

// ---------------------------------------------------------------------------
// Laws
// ---------------------------------------------------------------------------

/// No version is newer than itself.
pub proof fn law_not_newer_than_itself(v: Seq<char>)
    ensures
        !is_newer_spec(v, v),
{
}

/// Of two versions, at most one is newer than the other.
pub proof fn law_newer_is_asymmetric(a: Seq<char>, b: Seq<char>)
    ensures
        is_newer_spec(a, b) ==> !is_newer_spec(b, a),
{
}

/// If `b` is newer than `a` and `c` newer than `b`, then `c` is newer than `a`.
pub proof fn law_newer_is_transitive(a: Seq<char>, b: Seq<char>, c: Seq<char>)
    ensures
        is_newer_spec(a, b) && is_newer_spec(b, c) ==> is_newer_spec(a, c),
{
}

/// Two versions with different `(major, minor, patch)` are ordered one way or the other;
/// two with the same triple are neither newer than the other.
pub proof fn law_newer_is_total(a: Seq<char>, b: Seq<char>)
    ensures
        version_triple(a) != version_triple(b) <==> (is_newer_spec(a, b) || is_newer_spec(b, a)),
{
}

/// Stripping takes exactly one leading `v` off a tag, and leaves a tag without one as it is.
pub proof fn law_strip_v_removes_one_v(rest: Seq<char>)
    ensures
        strip_v_spec(seq!['v'] + rest) == rest,
        rest.len() == 0 || rest[0] != 'v' ==> strip_v_spec(rest) == rest,
{
    assert((seq!['v'] + rest).drop_first() =~= rest);
}

} // verus!

verus! {

proof fn lemma_core_len_of_extended(s: Seq<char>, rest: Seq<char>)
    requires
        core_len(s) == s.len(),
        rest.len() > 0,
        ends_core(rest[0]),
    ensures
        core_len(s + rest) == s.len(),
    decreases s.len(),
{
    if s.len() > 0 {
        assert((s + rest).drop_first() =~= s.drop_first() + rest);
        lemma_core_len_of_extended(s.drop_first(), rest);
    } else {
        assert(s + rest =~= rest);
    }
}

/// A pre-release or build part after a complete `major.minor.patch` core (`1.2.3-rc.1`,
/// `1.2.3+build.5`) does not change the version's `(major, minor, patch)`; a string
/// without `-` and `+` is read whole.
pub proof fn law_prerelease_and_build_are_ignored(core: Seq<char>, rest: Seq<char>)
    requires
        core_len(core) == core.len(),
        is_numeric_core(core),
        rest.len() > 0,
        ends_core(rest[0]),
    ensures
        version_triple(core + rest) == version_triple(core),
        version_text(core) == core,
{
    lemma_core_len_of_extended(core, rest);
    assert((core + rest).take(core.len() as int) =~= core);
}

} // verus!

verus! {

// ---------------------------------------------------------------------------
// Versions written in the usual form
// ---------------------------------------------------------------------------

/// The version `x.y.z`, each number in decimal.
pub open spec fn version_string(x: u32, y: u32, z: u32) -> Seq<char> {
    crate::install::decimal_spec(x as nat) + seq!['.'] + crate::install::decimal_spec(y as nat)
        + seq!['.'] + crate::install::decimal_spec(z as nat)
}

proof fn lemma_split_dots_nonempty(s: Seq<char>)
    ensures
        split_dots(s).len() >= 1,
    decreases s.len(),
{
    if s.len() > 0 {
        lemma_split_dots_nonempty(s.drop_last());
    }
}

proof fn lemma_split_without_dots(s: Seq<char>)
    requires
        forall|i: int| 0 <= i < s.len() ==> #[trigger] s[i] != '.',
    ensures
        split_dots(s) == seq![s],
    decreases s.len(),
{
    if s.len() == 0 {
        assert(s =~= Seq::<char>::empty());
    } else {
        assert forall|i: int| 0 <= i < s.drop_last().len() implies #[trigger] s.drop_last()[i]
            != '.' by {
            assert(s.drop_last()[i] == s[i]);
        }
        lemma_split_without_dots(s.drop_last());
        assert(s.drop_last().push(s.last()) =~= s);
        assert(seq![s.drop_last()].update(0, s.drop_last().push(s.last())) =~= seq![s]);
    }
}

proof fn lemma_split_at_dot(s: Seq<char>, t: Seq<char>)
    ensures
        split_dots(s + seq!['.'] + t) == split_dots(s) + split_dots(t),
    decreases t.len(),
{
    let u = s + seq!['.'] + t;
    if t.len() == 0 {
        assert(u =~= s + seq!['.']);
        assert(u.drop_last() =~= s);
        assert(split_dots(t) =~= seq![Seq::<char>::empty()]);
        assert(split_dots(s).push(Seq::<char>::empty()) =~= split_dots(s) + split_dots(t));
    } else {
        assert(u.drop_last() =~= s + seq!['.'] + t.drop_last());
        assert(u.last() == t.last());
        lemma_split_at_dot(s, t.drop_last());
        lemma_split_dots_nonempty(t.drop_last());
        lemma_split_dots_nonempty(s);
        let a = split_dots(s);
        let b = split_dots(t.drop_last());
        if t.last() == '.' {
            assert((a + b).push(Seq::<char>::empty()) =~= a + b.push(Seq::<char>::empty()));
        } else {
            assert((a + b).update((a + b).len() - 1, (a + b).last().push(t.last())) =~= a
                + b.update(b.len() - 1, b.last().push(t.last())));
        }
    }
}

proof fn lemma_decimal_has_no_separators(n: nat)
    ensures
        forall|i: int|
            0 <= i < crate::install::decimal_spec(n).len() ==> #[trigger] crate::install::decimal_spec(
                n,
            )[i] != '.' && !ends_core(crate::install::decimal_spec(n)[i]),
{
    crate::install::lemma_decimal_digits(n);
    assert forall|i: int| 0 <= i < crate::install::decimal_spec(n).len() implies #[trigger] crate::install::decimal_spec(
        n,
    )[i] != '.' && !ends_core(crate::install::decimal_spec(n)[i]) by {
        assert(is_digit(crate::install::decimal_spec(n)[i]));
    }
}

proof fn lemma_core_len_without_separators(s: Seq<char>)
    requires
        forall|i: int| 0 <= i < s.len() ==> !ends_core(#[trigger] s[i]),
    ensures
        core_len(s) == s.len(),
    decreases s.len(),
{
    if s.len() > 0 {
        assert forall|i: int| 0 <= i < s.drop_first().len() implies !ends_core(
            #[trigger] s.drop_first()[i],
        ) by {
            assert(s.drop_first()[i] == s[i + 1]);
        }
        lemma_core_len_without_separators(s.drop_first());
    }
}

/// The version `x.y.z` (in decimal) reads as `(x, y, z)`, with or without a leading `v`
/// on the tag.
pub proof fn law_version_string_reads_back(x: u32, y: u32, z: u32)
    ensures
        version_triple(version_string(x, y, z)) == (x, y, z),
        strip_v_spec(seq!['v'] + version_string(x, y, z)) == version_string(x, y, z),
{
    let dx = crate::install::decimal_spec(x as nat);
    let dy = crate::install::decimal_spec(y as nat);
    let dz = crate::install::decimal_spec(z as nat);
    let s = version_string(x, y, z);
    lemma_decimal_has_no_separators(x as nat);
    lemma_decimal_has_no_separators(y as nat);
    lemma_decimal_has_no_separators(z as nat);
    assert forall|i: int| 0 <= i < s.len() implies !ends_core(#[trigger] s[i]) by {
        if i < dx.len() {
            assert(s[i] == dx[i]);
        } else if i == dx.len() {
        } else if i < dx.len() + 1 + dy.len() {
            assert(s[i] == dy[i - dx.len() - 1]);
        } else if i == dx.len() + 1 + dy.len() {
        } else {
            assert(s[i] == dz[i - dx.len() - 2 - dy.len()]);
        }
    }
    lemma_core_len_without_separators(s);
    assert(s.take(s.len() as int) =~= s);
    assert(version_text(s) == s);
    lemma_split_without_dots(dx);
    lemma_split_without_dots(dy);
    lemma_split_without_dots(dz);
    lemma_split_at_dot(dx, dy);
    lemma_split_at_dot(dx + seq!['.'] + dy, dz);
    assert(split_dots(s) =~= seq![dx, dy, dz]);
    crate::install::law_decimal_parses_back(x);
    crate::install::law_decimal_parses_back(y);
    crate::install::law_decimal_parses_back(z);
    let pieces = seq![dx, dy, dz];
    assert(pieces.drop_last() =~= seq![dx, dy]);
    assert(seq![dx, dy].drop_last() =~= seq![dx]);
    assert(seq![dx].drop_last() =~= Seq::<Seq<char>>::empty());
    assert(seq![dx].last() == dx);
    assert(seq![dx, dy].last() == dy);
    assert(pieces.last() == dz);
    assert(parse_u32_spec(dx) == Some(x));
    assert(parsed_numbers(Seq::<Seq<char>>::empty()) =~= Seq::<u32>::empty());
    assert(parsed_numbers(seq![dx]) =~= seq![x]);
    assert(parsed_numbers(seq![dx, dy]) =~= seq![x, y]);
    assert(parsed_numbers(pieces) =~= seq![x, y, z]);
    assert((seq!['v'] + s).drop_first() =~= s);
}

/// `is_newer` orders versions written as `x.y.z` by their numbers: the major number first,
/// then the minor, then the patch, each compared as a number.
pub proof fn law_newer_compares_numbers(a: (u32, u32, u32), b: (u32, u32, u32))
    ensures
        is_newer_spec(version_string(a.0, a.1, a.2), version_string(b.0, b.1, b.2)) <==> (a.0
            < b.0 || (a.0 == b.0 && a.1 < b.1) || (a.0 == b.0 && a.1 == b.1 && a.2 < b.2)),
{
    law_version_string_reads_back(a.0, a.1, a.2);
    law_version_string_reads_back(b.0, b.1, b.2);
}

/// Between versions with the same major and minor numbers the patch numbers decide, and
/// likewise the minor numbers between versions with the same major number, and the major
/// numbers otherwise.
pub proof fn law_newer_by_component(a: Seq<char>, b: Seq<char>)
    ensures
        version_triple(a).0 < version_triple(b).0 ==> is_newer_spec(a, b),
        version_triple(a).0 == version_triple(b).0 && version_triple(a).1 < version_triple(b).1
            ==> is_newer_spec(a, b),
        version_triple(a).0 == version_triple(b).0 && version_triple(a).1 == version_triple(b).1
            ==> (is_newer_spec(a, b) <==> version_triple(a).2 < version_triple(b).2),
        version_triple(a).0 > version_triple(b).0 ==> !is_newer_spec(a, b),
{
}

} // verus!
