//! Character-level text operations the question builder is made of:
//! white-space trimming, splitting on commas, and removal of the
//! first-person marker `"I "`.

use vstd::prelude::*;
use vstd::string::StrSliceExecFns;
use vstd::string::StringExecFns;

verus! {

/// A character that trimming removes: the Unicode white-space set,
/// the same set `str::trim` uses.
pub open spec fn is_ws_char(c: char) -> bool {
    let u = c as u32;
    ||| u == 0x9
    ||| u == 0xA
    ||| u == 0xB
    ||| u == 0xC
    ||| u == 0xD
    ||| u == 0x20
    ||| u == 0x85
    ||| u == 0xA0
    ||| u == 0x1680
    ||| (0x2000 <= u && u <= 0x200A)
    ||| u == 0x2028
    ||| u == 0x2029
    ||| u == 0x202F
    ||| u == 0x205F
    ||| u == 0x3000
}

/// Decides `is_ws_char`.
pub fn is_ws(c: char) -> (b: bool)
    ensures
        b == is_ws_char(c),
{
    let u = c as u32;
    u == 0x9 || u == 0xA || u == 0xB || u == 0xC || u == 0xD || u == 0x20 || u == 0x85
        || u == 0xA0 || u == 0x1680 || (0x2000 <= u && u <= 0x200A) || u == 0x2028 || u == 0x2029
        || u == 0x202F || u == 0x205F || u == 0x3000
}

/// The text with its leading white-space characters removed.
pub open spec fn drop_leading_ws(s: Seq<char>) -> Seq<char>
    decreases s.len(),
{
    if s.len() > 0 && is_ws_char(s[0]) {
        drop_leading_ws(s.subrange(1, s.len() as int))
    } else {
        s
    }
}

/// The text with its trailing white-space characters removed.
pub open spec fn drop_trailing_ws(s: Seq<char>) -> Seq<char>
    decreases s.len(),
{
    if s.len() > 0 && is_ws_char(s[s.len() - 1]) {
        drop_trailing_ws(s.subrange(0, s.len() - 1))
    } else {
        s
    }
}

/// The text with leading and trailing white space removed: what
/// `str::trim` returns.
pub open spec fn trim_spec(s: Seq<char>) -> Seq<char> {
    drop_trailing_ws(drop_leading_ws(s))
}

proof fn lemma_drop_leading_ws_skip(s: Seq<char>, a: int)
    requires
        0 <= a <= s.len(),
        forall|j: int| 0 <= j < a ==> is_ws_char(s[j]),
    ensures
        drop_leading_ws(s) == drop_leading_ws(s.subrange(a, s.len() as int)),
    decreases a,
{
    if a == 0 {
        assert(s.subrange(0, s.len() as int) =~= s);
    } else {
        let s1 = s.subrange(1, s.len() as int);
        lemma_drop_leading_ws_skip(s1, a - 1);
        assert(s1.subrange(a - 1, s1.len() as int) =~= s.subrange(a, s.len() as int));
    }
}

proof fn lemma_drop_trailing_ws_skip(s: Seq<char>, b: int)
    requires
        0 <= b <= s.len(),
        forall|j: int| b <= j < s.len() ==> is_ws_char(s[j]),
    ensures
        drop_trailing_ws(s) == drop_trailing_ws(s.subrange(0, b)),
    decreases s.len() - b,
{
    if b == s.len() {
        assert(s.subrange(0, s.len() as int) =~= s);
    } else {
        let s1 = s.subrange(0, s.len() - 1);
        assert(is_ws_char(s[s.len() - 1]));
        lemma_drop_trailing_ws_skip(s1, b);
        assert(s1.subrange(0, b) =~= s.subrange(0, b));
    }
}

/// Trimming keeps exactly the characters between the first and the last
/// non-white-space character.
pub proof fn lemma_trim_range(s: Seq<char>, a: int, b: int)
    requires
        0 <= a <= b <= s.len(),
        forall|j: int| 0 <= j < a ==> is_ws_char(s[j]),
        forall|j: int| b <= j < s.len() ==> is_ws_char(s[j]),
        a < b ==> !is_ws_char(s[a]) && !is_ws_char(s[b - 1]),
    ensures
        trim_spec(s) == s.subrange(a, b),
{
    lemma_drop_leading_ws_skip(s, a);
    let t = s.subrange(a, s.len() as int);
    if a == b {
        // every character of `t` is white space, so both drops empty it
        lemma_drop_leading_ws_skip(t, t.len() as int);
        assert(t.subrange(t.len() as int, t.len() as int) =~= Seq::<char>::empty());
        assert(drop_leading_ws(Seq::<char>::empty()) =~= Seq::<char>::empty());
        assert(drop_trailing_ws(Seq::<char>::empty()) =~= Seq::<char>::empty());
        assert(s.subrange(a, b) =~= Seq::<char>::empty());
    } else {
        assert(!is_ws_char(t[0]));
        assert(drop_leading_ws(t) == t);
        lemma_drop_trailing_ws_skip(t, b - a);
        assert(t.subrange(0, b - a) =~= s.subrange(a, b));
        assert(!is_ws_char(s.subrange(a, b)[b - a - 1]));
        assert(drop_trailing_ws(s.subrange(a, b)) == s.subrange(a, b));
    }
}

/// Removes leading and trailing white space, as `str::trim` does.
pub fn trim_str(s: &str) -> (r: String)
    ensures
        r@ == trim_spec(s@),
{
    let n = s.unicode_len();
    let mut a: usize = 0;
    while a < n && is_ws(s.get_char(a))
        invariant
            a <= n,
            n == s@.len(),
            forall|j: int| 0 <= j < a ==> is_ws_char(s@[j]),
        decreases n - a,
    {
        a = a + 1;
    }
    let mut b: usize = n;
    while b > a && is_ws(s.get_char(b - 1))
        invariant
            a <= b <= n,
            n == s@.len(),
            forall|j: int| b <= j < n ==> is_ws_char(s@[j]),
        decreases b,
    {
        b = b - 1;
    }
    proof {
        lemma_trim_range(s@, a as int, b as int);
    }
    let sub = s.substring_char(a, b);
    sub.to_owned()
}

/// The comma-separated segments of the text, in order: one more segment
/// than there are commas, and an empty text yields one empty segment.
pub open spec fn split_commas_spec(s: Seq<char>) -> Seq<Seq<char>>
    decreases s.len(),
{
    if s.len() == 0 {
        seq![Seq::<char>::empty()]
    } else if s[0] == ',' {
        seq![Seq::<char>::empty()] + split_commas_spec(s.subrange(1, s.len() as int))
    } else {
        let rest = split_commas_spec(s.subrange(1, s.len() as int));
        seq![seq![s[0]] + rest[0]] + rest.subrange(1, rest.len() as int)
    }
}

/// Splitting always yields at least one segment.
pub proof fn lemma_split_commas_len(s: Seq<char>)
    ensures
        split_commas_spec(s).len() >= 1,
    decreases s.len(),
{
    if s.len() == 0 {
    } else {
        lemma_split_commas_len(s.subrange(1, s.len() as int));
    }
}

/// If the first `k` characters hold no comma and position `k` is a comma
/// (or the end), the first segment is exactly those `k` characters.
proof fn lemma_split_commas_first_segment(s: Seq<char>, k: int)
    requires
        0 <= k <= s.len(),
        forall|j: int| 0 <= j < k ==> s[j] != ',',
        k == s.len() || s[k] == ',',
    ensures
        k == s.len() ==> split_commas_spec(s) == seq![s],
        k < s.len() ==> split_commas_spec(s) == seq![s.subrange(0, k)] + split_commas_spec(
            s.subrange(k + 1, s.len() as int),
        ),
    decreases k,
{
    if k == 0 {
        if k == s.len() {
            assert(s =~= Seq::<char>::empty());
            assert(split_commas_spec(s) =~= seq![s]);
        } else {
            assert(s[0] == ',');
            assert(s.subrange(0, 0) =~= Seq::<char>::empty());
            assert(split_commas_spec(s) =~= seq![s.subrange(0, 0)] + split_commas_spec(
                s.subrange(1, s.len() as int),
            ));
        }
    } else {
        let s1 = s.subrange(1, s.len() as int);
        lemma_split_commas_first_segment(s1, k - 1);
        lemma_split_commas_len(s1);
        let rest = split_commas_spec(s1);
        if k == s.len() {
            assert(rest == seq![s1]);
            assert(seq![s[0]] + rest[0] =~= s);
            assert(rest.subrange(1, rest.len() as int) =~= Seq::<Seq<char>>::empty());
            assert(split_commas_spec(s) =~= seq![s]);
        } else {
            assert(s1[k - 1] == ',');
            assert(rest == seq![s1.subrange(0, k - 1)] + split_commas_spec(
                s1.subrange(k, s1.len() as int),
            ));
            assert(seq![s[0]] + rest[0] =~= s.subrange(0, k));
            assert(s1.subrange(k, s1.len() as int) =~= s.subrange(k + 1, s.len() as int));
            assert(rest.subrange(1, rest.len() as int) =~= split_commas_spec(
                s.subrange(k + 1, s.len() as int),
            ));
            assert(split_commas_spec(s) =~= seq![s.subrange(0, k)] + split_commas_spec(
                s.subrange(k + 1, s.len() as int),
            ));
        }
    }
}

/// Splits on the literal comma character, segments unmodified and in order.
pub fn split_commas(s: &str) -> (parts: Vec<String>)
    ensures
        parts.deep_view() == split_commas_spec(s@),
{
    let n = s.unicode_len();
    let mut parts: Vec<String> = Vec::new();
    let mut start: usize = 0;
    let mut i: usize = 0;
    proof {
        assert(s@.subrange(0, n as int) =~= s@);
        assert(parts.deep_view() + split_commas_spec(s@) =~~= split_commas_spec(s@));
    }
    while i < n
        invariant
            start <= i <= n,
            n == s@.len(),
            forall|j: int| start <= j < i ==> s@[j] != ',',
            split_commas_spec(s@) == parts.deep_view() + split_commas_spec(
                s@.subrange(start as int, n as int),
            ),
        decreases n - i,
    {
        if s.get_char(i) == ',' {
            let seg = s.substring_char(start, i).to_owned();
            proof {
                let t = s@.subrange(start as int, n as int);
                lemma_split_commas_first_segment(t, i - start);
                assert(t.subrange(0, i - start) =~= s@.subrange(start as int, i as int));
                assert(t.subrange(i - start + 1, t.len() as int) =~= s@.subrange(
                    i + 1,
                    n as int,
                ));
                assert(parts.deep_view() + split_commas_spec(t) =~~= parts.deep_view().push(seg@)
                    + split_commas_spec(s@.subrange(i + 1, n as int)));
            }
            let ghost pre = parts.deep_view();
            parts.push(seg);
            proof {
                assert(parts.deep_view() =~~= pre.push(seg@));
            }
            start = i + 1;
        }
        i = i + 1;
    }
    let seg = s.substring_char(start, n).to_owned();
    proof {
        let t = s@.subrange(start as int, n as int);
        lemma_split_commas_first_segment(t, t.len() as int);
        assert(parts.deep_view() + split_commas_spec(t) =~~= parts.deep_view().push(seg@));
    }
    let ghost pre = parts.deep_view();
    parts.push(seg);
    proof {
        assert(parts.deep_view() =~~= pre.push(seg@));
    }
    parts
}

/// The text after removal of every occurrence of the first-person marker
/// `"I "`, scanning left to right without overlap, as
/// `str::replace("I ", "")` does.
pub open spec fn remove_i_spec(s: Seq<char>) -> Seq<char>
    decreases s.len(),
{
    if s.len() >= 2 && s[0] == 'I' && s[1] == ' ' {
        remove_i_spec(s.subrange(2, s.len() as int))
    } else if s.len() > 0 {
        seq![s[0]] + remove_i_spec(s.subrange(1, s.len() as int))
    } else {
        Seq::<char>::empty()
    }
}

/// Removes every occurrence of `"I "`, left to right.
pub fn remove_i(s: &str) -> (r: String)
    ensures
        r@ == remove_i_spec(s@),
{
    let n = s.unicode_len();
    let mut r = String::new();
    let mut i: usize = 0;
    proof {
        assert(s@.subrange(0, n as int) =~= s@);
        assert(r@ + remove_i_spec(s@) =~= remove_i_spec(s@));
    }
    while i < n
        invariant
            i <= n,
            n == s@.len(),
            remove_i_spec(s@) == r@ + remove_i_spec(s@.subrange(i as int, n as int)),
        decreases n - i,
    {
        let t_len = n - i;
        if t_len >= 2 && s.get_char(i) == 'I' && s.get_char(i + 1) == ' ' {
            proof {
                let t = s@.subrange(i as int, n as int);
                assert(t.subrange(2, t.len() as int) =~= s@.subrange(i + 2, n as int));
            }
            i = i + 2;
        } else {
            let c = s.substring_char(i, i + 1);
            proof {
                let t = s@.subrange(i as int, n as int);
                assert(t.subrange(1, t.len() as int) =~= s@.subrange(i + 1, n as int));
                assert(r@ + remove_i_spec(t) =~= (r@ + c@) + remove_i_spec(
                    s@.subrange(i + 1, n as int),
                ));
            }
            r.append(c);
            i = i + 1;
        }
    }
    proof {
        assert(s@.subrange(i as int, n as int) =~= Seq::<char>::empty());
        assert(r@ + remove_i_spec(Seq::<char>::empty()) =~= r@);
    }
    r
}

} // verus!
