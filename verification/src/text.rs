//! Text helpers used by the input fields and the favourites list: trimming,
//! editing at a cursor (inserting at a byte offset, deleting and moving by
//! character), lexicographic ordering and sorting.
use vstd::prelude::*;
use vstd::relations::{sorted_by, total_ordering};
use vstd::string::StrSliceExecFns;
use vstd::string::StringExecFns;

verus! {

broadcast use vstd::seq_lib::group_to_multiset_ensures;

/// The characters with the Unicode `White_Space` property, which is what
/// `char::is_whitespace` (and therefore `str::trim`) recognises.
pub open spec fn is_space(c: char) -> bool {
    let u = c as u32;
    ||| 0x09 <= u <= 0x0D
    ||| u == 0x20
    ||| u == 0x85
    ||| u == 0xA0
    ||| u == 0x1680
    ||| 0x2000 <= u <= 0x200A
    ||| u == 0x2028
    ||| u == 0x2029
    ||| u == 0x202F
    ||| u == 0x205F
    ||| u == 0x3000
}

/// `s` without its leading whitespace.
pub open spec fn trim_start(s: Seq<char>) -> Seq<char>
    decreases s.len(),
{
    if s.len() > 0 && is_space(s[0]) {
        trim_start(s.drop_first())
    } else {
        s
    }
}

/// `s` without its trailing whitespace.
pub open spec fn trim_end(s: Seq<char>) -> Seq<char>
    decreases s.len(),
{
    if s.len() > 0 && is_space(s.last()) {
        trim_end(s.drop_last())
    } else {
        s
    }
}

/// `s` without leading and trailing whitespace.
pub open spec fn trimmed(s: Seq<char>) -> Seq<char> {
    trim_end(trim_start(s))
}

/// `s` with the character just before position `pos` removed; positions past
/// the end leave the text as it is.
pub open spec fn remove_before(s: Seq<char>, pos: nat) -> Seq<char> {
    if 0 < pos <= s.len() {
        s.remove(pos - 1)
    } else {
        s
    }
}

/// Lexicographic order on texts, comparing characters by code point (for
/// UTF-8 text this is the byte order that `String`'s `Ord` uses).
pub open spec fn text_le(a: Seq<char>, b: Seq<char>) -> bool
    decreases a.len(),
{
    if a.len() == 0 {
        true
    } else if b.len() == 0 {
        false
    } else if a[0] != b[0] {
        a[0] < b[0]
    } else {
        text_le(a.drop_first(), b.drop_first())
    }
}

/// `text_le` lifted to `String`s, as the order of the favourites list.
pub open spec fn string_le() -> spec_fn(String, String) -> bool {
    |a: String, b: String| text_le(a@, b@)
}

pub proof fn lemma_text_le_reflexive(a: Seq<char>)
    ensures
        text_le(a, a),
    decreases a.len(),
{
    if a.len() > 0 {
        lemma_text_le_reflexive(a.drop_first());
    }
}

pub proof fn lemma_text_le_total(a: Seq<char>, b: Seq<char>)
    ensures
        text_le(a, b) || text_le(b, a),
    decreases a.len(),
{
    if a.len() > 0 && b.len() > 0 {
        if a[0] == b[0] {
            lemma_text_le_total(a.drop_first(), b.drop_first());
        }
    }
}

pub proof fn lemma_text_le_antisymmetric(a: Seq<char>, b: Seq<char>)
    requires
        text_le(a, b),
        text_le(b, a),
    ensures
        a =~= b,
    decreases a.len(),
{
    if a.len() > 0 && b.len() > 0 {
        lemma_text_le_antisymmetric(a.drop_first(), b.drop_first());
        assert(a =~= seq![a[0]] + a.drop_first());
        assert(b =~= seq![b[0]] + b.drop_first());
    }
}

pub proof fn lemma_text_le_transitive(a: Seq<char>, b: Seq<char>, c: Seq<char>)
    requires
        text_le(a, b),
        text_le(b, c),
    ensures
        text_le(a, c),
    decreases a.len(),
{
    if a.len() > 0 && b.len() > 0 && c.len() > 0 && a[0] == b[0] && b[0] == c[0] {
        lemma_text_le_transitive(a.drop_first(), b.drop_first(), c.drop_first());
    }
}

/// The order of texts is a total order on texts themselves.
pub proof fn lemma_text_le_total_ordering()
    ensures
        total_ordering(|a: Seq<char>, b: Seq<char>| text_le(a, b)),
{
    assert forall|a: Seq<char>| #[trigger] text_le(a, a) by {
        lemma_text_le_reflexive(a);
    }
    assert forall|a: Seq<char>, b: Seq<char>| #[trigger] text_le(a, b) && #[trigger] text_le(b, a) implies a
        == b by {
        lemma_text_le_antisymmetric(a, b);
    }
    assert forall|a: Seq<char>, b: Seq<char>, c: Seq<char>| #[trigger]
        text_le(a, b) && #[trigger] text_le(b, c) implies text_le(a, c) by {
        lemma_text_le_transitive(a, b, c);
    }
    assert forall|a: Seq<char>, b: Seq<char>| #[trigger] text_le(a, b) || #[trigger] text_le(b, a) by {
        lemma_text_le_total(a, b);
    }
}

/// Whether `c` is whitespace in the sense of `char::is_whitespace`.
pub fn is_whitespace(c: char) -> (r: bool)
    ensures
        r == is_space(c),
{
    let u = c as u32;
    (0x09 <= u && u <= 0x0D) || u == 0x20 || u == 0x85 || u == 0xA0 || u == 0x1680 || (0x2000 <= u
        && u <= 0x200A) || u == 0x2028 || u == 0x2029 || u == 0x202F || u == 0x205F || u == 0x3000
}

proof fn lemma_trim_start_skip(s: Seq<char>, i: int)
    requires
        0 <= i < s.len(),
        is_space(s[i]),
    ensures
        trim_start(s.skip(i)) == trim_start(s.skip(i + 1)),
{
    assert(s.skip(i).drop_first() =~= s.skip(i + 1));
}

proof fn lemma_trim_end_take(s: Seq<char>, j: int)
    requires
        0 < j <= s.len(),
        is_space(s[j - 1]),
    ensures
        trim_end(s.take(j)) == trim_end(s.take(j - 1)),
{
    assert(s.take(j).drop_last() =~= s.take(j - 1));
}

/// A copy of `s` without leading and trailing whitespace (`str::trim`).
pub fn trim(s: &str) -> (r: String)
    ensures
        r@ == trimmed(s@),
{
    let n = s.unicode_len();
    let mut i: usize = 0;
    assert(s@.skip(0) =~= s@);
    while i < n && is_whitespace(s.get_char(i))
        invariant
            n == s@.len(),
            i <= n,
            trim_start(s@) == trim_start(s@.skip(i as int)),
        decreases n - i,
    {
        proof {
            lemma_trim_start_skip(s@, i as int);
        }
        i = i + 1;
    }
    let ghost rest = s@.skip(i as int);
    assert(trim_start(s@) == rest) by {
        if i < n {
            assert(rest[0] == s@[i as int]);
        } else {
            assert(rest.len() == 0);
        }
    }
    let mut j: usize = n;
    assert(rest.take((n - i) as int) =~= rest);
    while j > i && is_whitespace(s.get_char(j - 1))
        invariant
            n == s@.len(),
            i <= j <= n,
            rest == s@.skip(i as int),
            trim_end(rest) == trim_end(rest.take(j - i)),
        decreases j,
    {
        proof {
            assert(rest[j - i - 1] == s@[j - 1]);
            lemma_trim_end_take(rest, (j - i) as int);
        }
        j = j - 1;
    }
    let ghost kept = rest.take(j - i);
    assert(trim_end(kept) == kept) by {
        if j > i {
            assert(kept.last() == s@[j - 1]);
        }
    }
    let piece = s.substring_char(i, j);
    assert(piece@ =~= kept);
    String::from_str(piece)
}

/// Appends one character by calling `String::push`, which std documents as
/// appending the given `char` to the end of the string; this contract
/// claims exactly that of the text.
#[verifier::external_body]
fn push_char(s: &mut String, c: char)
    ensures
        final(s)@ == old(s)@.push(c),
{
    s.push(c);
}

/// The number of bytes that `c` takes in UTF-8.
pub open spec fn char_width(c: char) -> nat {
    let u = c as u32;
    if u <= 0x7F {
        1
    } else if u <= 0x7FF {
        2
    } else if u <= 0xFFFF {
        3
    } else {
        4
    }
}

/// The length of `s` in UTF-8 bytes, which is what `str::len` gives.
pub open spec fn byte_len(s: Seq<char>) -> nat
    decreases s.len(),
{
    if s.len() == 0 {
        0
    } else {
        char_width(s[0]) + byte_len(s.drop_first())
    }
}

/// The character position at which byte offset `b` of `s` falls, where `b`
/// is a character boundary (the start of a character, or the end of the
/// text); `None` at any other offset.
pub open spec fn char_at_byte(s: Seq<char>, b: int) -> Option<nat>
    decreases s.len(),
{
    if b == 0 {
        Some(0)
    } else if b < 0 || s.len() == 0 {
        None
    } else {
        match char_at_byte(s.drop_first(), b - char_width(s[0])) {
            Some(k) => Some(k + 1),
            None => None,
        }
    }
}

/// Whether every character of `s` is ASCII (one byte each).
pub open spec fn all_ascii(s: Seq<char>) -> bool {
    forall|i: int| 0 <= i < s.len() ==> (#[trigger] s[i] as u32) <= 0x7F
}

/// `s` with `c` inserted at byte offset `b`, which must be a character boundary.
pub open spec fn insert_at_byte(s: Seq<char>, b: int, c: char) -> Seq<char> {
    s.insert(char_at_byte(s, b)->0 as int, c)
}

/// `str::len` counts the same bytes as `byte_len`.
pub proof fn lemma_encoded_len(s: Seq<char>)
    ensures
        vstd::utf8::encode_utf8(s).len() == byte_len(s),
    decreases s.len(),
{
    if s.len() > 0 {
        vstd::utf8::char_is_scalar(s[0]);
        lemma_encoded_len(s.drop_first());
    }
}

/// A text has at least as many bytes as characters.
pub proof fn lemma_chars_within_bytes(s: Seq<char>)
    ensures
        s.len() <= byte_len(s),
    decreases s.len(),
{
    if s.len() > 0 {
        lemma_chars_within_bytes(s.drop_first());
    }
}

/// The end of the text is a character boundary.
pub proof fn lemma_end_is_boundary(s: Seq<char>)
    ensures
        char_at_byte(s, byte_len(s) as int) == Some(s.len()),
    decreases s.len(),
{
    if s.len() > 0 {
        lemma_end_is_boundary(s.drop_first());
        lemma_chars_within_bytes(s.drop_first());
    }
}

/// A boundary names a position inside the text, at or after the character
/// count of the bytes before it.
pub proof fn lemma_boundary_in_text(s: Seq<char>, b: int)
    requires
        char_at_byte(s, b) is Some,
    ensures
        char_at_byte(s, b)->0 <= s.len(),
        char_at_byte(s, b)->0 <= b,
    decreases s.len(),
{
    if b != 0 {
        lemma_boundary_in_text(s.drop_first(), b - char_width(s[0]));
    }
}

/// Where the first `k` characters are ASCII, byte offset `k` is the
/// boundary before character `k`.
pub proof fn lemma_ascii_boundary(s: Seq<char>, k: int)
    requires
        0 <= k <= s.len(),
        all_ascii(s.take(k)),
    ensures
        char_at_byte(s, k) == Some(k as nat),
    decreases k,
{
    if k > 0 {
        assert(s.take(k)[0] == s[0]);
        assert(s.drop_first().take(k - 1) =~= s.take(k).drop_first());
        assert forall|i: int| 0 <= i < k - 1 implies (#[trigger] s.drop_first().take(k - 1)[i] as u32)
            <= 0x7F by {
            assert(s.drop_first().take(k - 1)[i] == s.take(k)[i + 1]);
        }
        lemma_ascii_boundary(s.drop_first(), k - 1);
    }
}

/// ASCII text has one byte per character.
pub proof fn lemma_ascii_byte_len(s: Seq<char>)
    requires
        all_ascii(s),
    ensures
        byte_len(s) == s.len(),
    decreases s.len(),
{
    if s.len() > 0 {
        assert(s[0] as u32 <= 0x7F);
        assert forall|i: int| 0 <= i < s.len() - 1 implies (#[trigger] s.drop_first()[i] as u32)
            <= 0x7F by {
            assert(s.drop_first()[i] == s[i + 1]);
        }
        lemma_ascii_byte_len(s.drop_first());
    }
}

/// The number of UTF-8 bytes of `c`.
fn char_width_exec(c: char) -> (w: usize)
    ensures
        w == char_width(c),
{
    let u = c as u32;
    if u <= 0x7F {
        1
    } else if u <= 0x7FF {
        2
    } else if u <= 0xFFFF {
        3
    } else {
        4
    }
}

/// The length of `s` in bytes (`str::len`).
pub fn byte_count(s: &String) -> (n: usize)
    ensures
        n == byte_len(s@) as usize,
{
    proof {
        lemma_encoded_len(s@);
    }
    s.as_str().len()
}

/// The character position at byte offset `pos` of `s`, where `pos` is a
/// character boundary (`str::is_char_boundary`); `None` elsewhere.
pub fn char_index_at_byte(s: &String, pos: usize) -> (r: Option<usize>)
    ensures
        match r {
            Some(k) => char_at_byte(s@, pos as int) == Some(k as nat),
            None => char_at_byte(s@, pos as int) is None,
        },
{
    let n = s.as_str().unicode_len();
    let mut k: usize = 0;
    let mut rest: usize = pos;
    assert(s@.skip(0) =~= s@);
    while rest > 0 && k < n
        invariant
            n == s@.len(),
            k <= n,
            char_at_byte(s@, pos as int) == match char_at_byte(s@.skip(k as int), rest as int) {
                Some(j) => Some((j + k) as nat),
                None => None,
            },
        decreases n - k,
    {
        let c = s.as_str().get_char(k);
        let w = char_width_exec(c);
        let ghost tail = s@.skip(k as int);
        assert(tail[0] == c);
        assert(tail.drop_first() =~= s@.skip(k + 1));
        if w > rest {
            assert(char_at_byte(tail.drop_first(), rest - w) is None);
            return None;
        }
        rest = rest - w;
        k = k + 1;
    }
    if rest == 0 {
        Some(k)
    } else {
        assert(s@.skip(k as int).len() == 0);
        None
    }
}

/// `s` with `c` inserted at byte offset `pos` (`String::insert`), which is a
/// character boundary.
pub fn insert_char_at(s: &String, pos: usize, c: char) -> (r: String)
    requires
        char_at_byte(s@, pos as int) is Some,
    ensures
        r@ == insert_at_byte(s@, pos as int, c),
{
    proof {
        lemma_boundary_in_text(s@, pos as int);
    }
    match char_index_at_byte(s, pos) {
        Some(k) => {
            let n = s.as_str().unicode_len();
            let mut r = String::from_str(s.as_str().substring_char(0, k));
            push_char(&mut r, c);
            r.append(s.as_str().substring_char(k, n));
            assert(r@ =~= s@.insert(k as int, c));
            r
        },
        None => s.clone(),
    }
}

/// `s` with the character just before position `pos` removed (positions
/// past the end keep the text).
pub fn remove_char_before(s: &String, pos: usize) -> (r: String)
    ensures
        r@ == remove_before(s@, pos as nat),
{
    let n = s.as_str().unicode_len();
    if 0 < pos && pos <= n {
        let mut r = String::from_str(s.as_str().substring_char(0, pos - 1));
        r.append(s.as_str().substring_char(pos, n));
        assert(r@ =~= s@.remove(pos - 1));
        r
    } else {
        s.clone()
    }
}

/// Number of characters in `s`.
pub fn char_count(s: &String) -> (n: usize)
    ensures
        n == s@.len(),
{
    s.as_str().unicode_len()
}

/// Whether `a` comes no later than `b` in the order of texts.
pub fn text_le_exec(a: &String, b: &String) -> (r: bool)
    ensures
        r == text_le(a@, b@),
{
    let na = a.as_str().unicode_len();
    let nb = b.as_str().unicode_len();
    let mut k: usize = 0;
    assert(a@.skip(0) =~= a@);
    assert(b@.skip(0) =~= b@);
    while k < na && k < nb && a.as_str().get_char(k) == b.as_str().get_char(k)
        invariant
            na == a@.len(),
            nb == b@.len(),
            k <= na,
            k <= nb,
            text_le(a@, b@) == text_le(a@.skip(k as int), b@.skip(k as int)),
        decreases na - k,
    {
        assert(a@.skip(k as int).drop_first() =~= a@.skip(k + 1));
        assert(b@.skip(k as int).drop_first() =~= b@.skip(k + 1));
        k = k + 1;
    }
    if k == na {
        true
    } else if k == nb {
        false
    } else {
        let ca = a.as_str().get_char(k);
        let cb = b.as_str().get_char(k);
        assert(a@.skip(k as int)[0] == ca);
        assert(b@.skip(k as int)[0] == cb);
        ca < cb
    }
}

/// The text `prefix` followed by `s`.
pub fn concat_text(prefix: &str, s: &str) -> (r: String)
    ensures
        r@ == prefix@ + s@,
{
    let mut r = String::from_str(prefix);
    r.append(s);
    r
}

/// The decimal digit `d` (0 to 9) as a character.
pub open spec fn digit_char(d: nat) -> char {
    (48 + d) as char
}

/// The decimal representation of `n`, without leading zeros.
pub open spec fn decimal(n: nat) -> Seq<char>
    decreases n,
{
    if n < 10 {
        seq![digit_char(n)]
    } else {
        decimal(n / 10).push(digit_char(n % 10))
    }
}

/// The decimal representation of `n` (what `to_string` gives for integers).
pub fn decimal_text(n: u64) -> (r: String)
    ensures
        r@ == decimal(n as nat),
    decreases n,
{
    let d = (n % 10) as u8;
    let c = (48u8 + d) as char;
    if n < 10 {
        let mut r = String::new();
        push_char(&mut r, c);
        assert(r@ =~= seq![digit_char(n as nat)]);
        r
    } else {
        let mut r = decimal_text(n / 10);
        push_char(&mut r, c);
        r
    }
}

/// Appends the text `t`.
pub fn push_str(s: &mut String, t: &str)
    ensures
        final(s)@ == old(s)@ + t@,
{
    s.append(t);
}

/// A copy of an optional string.
pub fn clone_opt(o: &Option<String>) -> (r: Option<String>)
    ensures
        r == *o,
{
    match o {
        Some(s) => Some(s.clone()),
        None => None,
    }
}

/// A copy of a list of strings.
pub fn clone_texts(v: &Vec<String>) -> (r: Vec<String>)
    ensures
        r@ == v@,
{
    let mut r: Vec<String> = Vec::new();
    let mut i: usize = 0;
    while i < v.len()
        invariant
            i <= v.len(),
            r@ == v@.take(i as int),
        decreases v.len() - i,
    {
        r.push(v[i].clone());
        assert(v@.take(i + 1) =~= v@.take(i as int).push(v@[i as int]));
        i = i + 1;
    }
    assert(v@.take(v.len() as int) =~= v@);
    r
}

/// Whether two strings hold the same text.
pub fn same_text(a: &String, b: &String) -> (r: bool)
    ensures
        r == (a@ == b@),
{
    *a == *b
}

/// Inserting `x` where everything before is no later and the next element
/// comes after keeps a sorted sequence sorted, and adds `x` to its contents.
proof fn lemma_insert_sorted(prev: Seq<String>, k: int, x: String)
    requires
        sorted_by(prev, string_le()),
        0 <= k <= prev.len(),
        forall|j: int| 0 <= j < k ==> text_le(#[trigger] prev[j]@, x@),
        k < prev.len() ==> !text_le(prev[k]@, x@),
    ensures
        sorted_by(prev.insert(k, x), string_le()),
        prev.insert(k, x).to_multiset() == prev.to_multiset().insert(x),
{
    assert forall|j: int| k <= j < prev.len() implies text_le(x@, #[trigger] prev[j]@) by {
        lemma_text_le_total(prev[k]@, x@);
        if j > k {
            assert((string_le())(prev[k], prev[j]));
            lemma_text_le_transitive(x@, prev[k]@, prev[j]@);
        }
    }
    let out = prev.insert(k, x);
    prev.insert_ensures(k, x);
    assert forall|i: int, j: int| 0 <= i < j < out.len() implies #[trigger] (string_le())(
        out[i],
        out[j],
    ) by {
        if j < k {
            assert((string_le())(prev[i], prev[j]));
        } else if i < k && j == k {
        } else if i < k {
            assert(text_le(x@, prev[j - 1]@));
            lemma_text_le_transitive(prev[i]@, x@, prev[j - 1]@);
        } else if i == k {
            assert(text_le(x@, prev[j - 1]@));
        } else {
            assert((string_le())(prev[i - 1], prev[j - 1]));
        }
    }
    let a = prev.take(k);
    let b = prev.skip(k);
    assert(out =~= a.push(x) + b);
    vstd::seq_lib::lemma_multiset_commutative(a.push(x), b);
    vstd::seq_lib::lemma_multiset_commutative(a, b);
    assert(prev =~= a + b);
    assert(out.to_multiset() =~= prev.to_multiset().insert(x));
}

/// Sorts `v` into ascending text order, as `slice::sort` does for `String`s.
pub fn sort_texts(v: &mut Vec<String>)
    ensures
        sorted_by(final(v)@, string_le()),
        final(v)@.to_multiset() == old(v)@.to_multiset(),
{
    let mut out: Vec<String> = Vec::new();
    let ghost orig = old(v)@;
    while v.len() > 0
        invariant
            sorted_by(out@, string_le()),
            out@.to_multiset().add(v@.to_multiset()) == orig.to_multiset(),
        decreases v.len(),
    {
        let ghost before_v = v@;
        let x = v.remove(0);
        assert(before_v.remove(0).to_multiset() == before_v.to_multiset().remove(x));
        let mut k: usize = 0;
        while k < out.len() && text_le_exec(&out[k], &x)
            invariant
                0 <= k <= out.len(),
                forall|j: int| 0 <= j < k ==> text_le(#[trigger] out@[j]@, x@),
            decreases out.len() - k,
        {
            k = k + 1;
        }
        let ghost prev = out@;
        proof {
            lemma_insert_sorted(prev, k as int, x);
        }
        out.insert(k, x);
        proof {
            assert(before_v.to_multiset().count(x) > 0) by {
                assert(before_v[0] == x);
                assert(before_v.contains(x));
            }
            assert(out@.to_multiset().add(v@.to_multiset()) =~= orig.to_multiset());
        }
    }
    *v = out;
}

} // verus!
