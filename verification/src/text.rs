//! Verified helpers over strings: equality, prefix tests, whitespace
//! trimming, decimal rendering of integers, and case-insensitive comparison.

use vstd::prelude::*;
use vstd::string::*;

verus! {

/// The whitespace characters stripped by `trim`: the ASCII forms that shell
/// command output carries.
pub open spec fn is_space_char(c: char) -> bool {
    c == ' ' || c == '\t' || c == '\n' || c == '\r'
}

pub fn is_space(c: char) -> (r: bool)
    ensures
        r == is_space_char(c),
{
    c == ' ' || c == '\t' || c == '\n' || c == '\r'
}

/// Character-wise equality of two string slices.
pub fn str_eq(a: &str, b: &str) -> (r: bool)
    ensures
        r == (a@ == b@),
{
    let la = a.unicode_len();
    let lb = b.unicode_len();
    if la != lb {
        return false;
    }
    let mut i: usize = 0;
    while i < la
        invariant
            la == a@.len(),
            la == b@.len(),
            i <= la,
            forall|j: int| 0 <= j < i ==> a@[j] == b@[j],
        decreases la - i,
    {
        if a.get_char(i) != b.get_char(i) {
            return false;
        }
        i += 1;
    }
    proof {
        assert(a@ =~= b@);
    }
    true
}

/// Whether `s` begins with `p`, character for character.
pub fn str_starts_with(s: &str, p: &str) -> (r: bool)
    ensures
        r == p@.is_prefix_of(s@),
{
    let ls = s.unicode_len();
    let lp = p.unicode_len();
    if lp > ls {
        return false;
    }
    let mut i: usize = 0;
    while i < lp
        invariant
            ls == s@.len(),
            lp == p@.len(),
            lp <= ls,
            i <= lp,
            forall|j: int| 0 <= j < i ==> s@[j] == p@[j],
        decreases lp - i,
    {
        if s.get_char(i) != p.get_char(i) {
            assert(!p@.is_prefix_of(s@)) by {
                assert(s@.subrange(0, p@.len() as int)[i as int] == s@[i as int]);
            }
            return false;
        }
        i += 1;
    }
    proof {
        assert(p@ =~= s@.subrange(0, p@.len() as int));
    }
    true
}

/// Whether some element of `v` equals `x`.
pub fn contains_string(v: &Vec<String>, x: &str) -> (r: bool)
    ensures
        r == v.deep_view().contains(x@),
{
    let mut i: usize = 0;
    while i < v.len()
        invariant
            i <= v.len(),
            v.deep_view().len() == v@.len(),
            forall|j: int| 0 <= j < v@.len() ==> v.deep_view()[j] == v@[j]@,
            forall|j: int| 0 <= j < i ==> v@[j]@ != x@,
        decreases v.len() - i,
    {
        if str_eq(v[i].as_str(), x) {
            proof {
                assert(v.deep_view()[i as int] == x@);
            }
            return true;
        }
        i += 1;
    }
    proof {
        if v.deep_view().contains(x@) {
            let j = choose|j: int| 0 <= j < v.deep_view().len() && v.deep_view()[j] == x@;
            assert(v@[j]@ == x@);
        }
    }
    false
}

/// `s` with leading whitespace removed.
pub open spec fn trim_start_spec(s: Seq<char>) -> Seq<char>
    decreases s.len(),
{
    if s.len() > 0 && is_space_char(s[0]) {
        trim_start_spec(s.drop_first())
    } else {
        s
    }
}

/// `s` with trailing whitespace removed.
pub open spec fn trim_end_spec(s: Seq<char>) -> Seq<char>
    decreases s.len(),
{
    if s.len() > 0 && is_space_char(s.last()) {
        trim_end_spec(s.drop_last())
    } else {
        s
    }
}

/// `s` with whitespace removed from both ends.
pub open spec fn trim_spec(s: Seq<char>) -> Seq<char> {
    trim_end_spec(trim_start_spec(s))
}

proof fn lemma_trim_start_at(s: Seq<char>, i: int)
    requires
        0 <= i <= s.len(),
        forall|j: int| 0 <= j < i ==> is_space_char(s[j]),
        i == s.len() || !is_space_char(s[i]),
    ensures
        trim_start_spec(s) == s.subrange(i, s.len() as int),
    decreases i,
{
    if i == 0 {
        assert(s.subrange(0, s.len() as int) =~= s);
    } else {
        assert(is_space_char(s[0]));
        lemma_trim_start_at(s.drop_first(), i - 1);
        assert(s.drop_first().subrange(i - 1, s.drop_first().len() as int) =~= s.subrange(
            i,
            s.len() as int,
        ));
    }
}

proof fn lemma_trim_end_at(s: Seq<char>, i: int)
    requires
        0 <= i <= s.len(),
        forall|j: int| i <= j < s.len() ==> is_space_char(s[j]),
        i == 0 || !is_space_char(s[i - 1]),
    ensures
        trim_end_spec(s) == s.subrange(0, i),
    decreases s.len() - i,
{
    if i == s.len() {
        assert(s.subrange(0, s.len() as int) =~= s);
    } else {
        assert(is_space_char(s.last()));
        lemma_trim_end_at(s.drop_last(), i);
        assert(s.drop_last().subrange(0, i) =~= s.subrange(0, i));
    }
}

/// A copy of `s` without leading and trailing whitespace.
pub fn trim(s: &str) -> (r: String)
    ensures
        r@ == trim_spec(s@),
{
    let len = s.unicode_len();
    let mut start: usize = 0;
    while start < len && is_space(s.get_char(start))
        invariant
            len == s@.len(),
            start <= len,
            forall|j: int| 0 <= j < start ==> is_space_char(s@[j]),
        decreases len - start,
    {
        start += 1;
    }
    let mut end: usize = len;
    while end > start && is_space(s.get_char(end - 1))
        invariant
            len == s@.len(),
            start <= end <= len,
            forall|j: int| 0 <= j < start ==> is_space_char(s@[j]),
            forall|j: int| end <= j < len ==> is_space_char(s@[j]),
        decreases end,
    {
        end -= 1;
    }
    proof {
        lemma_trim_start_at(s@, start as int);
        let t = s@.subrange(start as int, len as int);
        lemma_trim_end_at(t, end - start);
        assert(t.subrange(0, end - start) =~= s@.subrange(start as int, end as int));
    }
    s.substring_char(start, end).to_owned()
}

/// The decimal digit character for `d`.
pub open spec fn digit_char(d: nat) -> char {
    if d == 0 {
        '0'
    } else if d == 1 {
        '1'
    } else if d == 2 {
        '2'
    } else if d == 3 {
        '3'
    } else if d == 4 {
        '4'
    } else if d == 5 {
        '5'
    } else if d == 6 {
        '6'
    } else if d == 7 {
        '7'
    } else if d == 8 {
        '8'
    } else {
        '9'
    }
}

/// The decimal rendering of `n`, most significant digit first.
pub open spec fn dec_spec(n: nat) -> Seq<char>
    decreases n,
{
    if n < 10 {
        seq![digit_char(n)]
    } else {
        dec_spec(n / 10).push(digit_char(n % 10))
    }
}

fn digit_str(d: u64) -> (r: &'static str)
    requires
        d < 10,
    ensures
        r@ =~= seq![digit_char(d as nat)],
{
    if d == 0 {
        proof {
            reveal_strlit("0");
        }
        "0"
    } else if d == 1 {
        proof {
            reveal_strlit("1");
        }
        "1"
    } else if d == 2 {
        proof {
            reveal_strlit("2");
        }
        "2"
    } else if d == 3 {
        proof {
            reveal_strlit("3");
        }
        "3"
    } else if d == 4 {
        proof {
            reveal_strlit("4");
        }
        "4"
    } else if d == 5 {
        proof {
            reveal_strlit("5");
        }
        "5"
    } else if d == 6 {
        proof {
            reveal_strlit("6");
        }
        "6"
    } else if d == 7 {
        proof {
            reveal_strlit("7");
        }
        "7"
    } else if d == 8 {
        proof {
            reveal_strlit("8");
        }
        "8"
    } else {
        proof {
            reveal_strlit("9");
        }
        "9"
    }
}

/// The decimal rendering of `n` as a `String`.
pub fn dec_string(n: u64) -> (r: String)
    ensures
        r@ == dec_spec(n as nat),
    decreases n,
{
    if n < 10 {
        digit_str(n).to_owned()
    } else {
        let mut r = dec_string(n / 10);
        r.append(digit_str(n % 10));
        proof {
            assert(dec_spec((n / 10) as nat).push(digit_char((n % 10) as nat)) =~= dec_spec(
                (n / 10) as nat,
            ) + seq![digit_char((n % 10) as nat)]);
        }
        r
    }
}

/// `c` folded to lower case when it is an ASCII capital letter.
pub open spec fn lower_char_spec(c: char) -> char {
    if 'A' <= c && c <= 'Z' {
        (((c as u8) + 32) as char)
    } else {
        c
    }
}

/// `s` folded character-wise to ASCII lower case.
pub open spec fn lower_spec(s: Seq<char>) -> Seq<char> {
    s.map_values(|c: char| lower_char_spec(c))
}

fn lower_char(c: char) -> (r: char)
    ensures
        r == lower_char_spec(c),
{
    if 'A' <= c && c <= 'Z' {
        ((c as u8) + 32) as char
    } else {
        c
    }
}

/// Whether `a` and `b` are equal once both are folded to ASCII lower case.
pub fn eq_ignore_ascii_case(a: &str, b: &str) -> (r: bool)
    ensures
        r == (lower_spec(a@) == lower_spec(b@)),
{
    let la = a.unicode_len();
    let lb = b.unicode_len();
    if la != lb {
        proof {
            assert(lower_spec(a@).len() == a@.len());
            assert(lower_spec(b@).len() == b@.len());
        }
        return false;
    }
    let mut i: usize = 0;
    while i < la
        invariant
            la == a@.len(),
            la == b@.len(),
            i <= la,
            forall|j: int| 0 <= j < i ==> lower_char_spec(a@[j]) == lower_char_spec(b@[j]),
        decreases la - i,
    {
        if lower_char(a.get_char(i)) != lower_char(b.get_char(i)) {
            proof {
                assert(lower_spec(a@)[i as int] != lower_spec(b@)[i as int]);
            }
            return false;
        }
        i += 1;
    }
    proof {
        assert(lower_spec(a@) =~= lower_spec(b@));
    }
    true
}

/// `s` with every single-quote character removed.
pub open spec fn strip_quotes_spec(s: Seq<char>) -> Seq<char>
    decreases s.len(),
{
    if s.len() == 0 {
        Seq::empty()
    } else if s[0] == '\'' {
        strip_quotes_spec(s.drop_first())
    } else {
        seq![s[0]] + strip_quotes_spec(s.drop_first())
    }
}

proof fn lemma_strip_quotes_concat(a: Seq<char>, b: Seq<char>)
    ensures
        strip_quotes_spec(a + b) == strip_quotes_spec(a) + strip_quotes_spec(b),
    decreases a.len(),
{
    if a.len() == 0 {
        assert(a + b =~= b);
        assert(strip_quotes_spec(a) + strip_quotes_spec(b) =~= strip_quotes_spec(b));
    } else {
        assert((a + b)[0] == a[0]);
        assert((a + b).len() > 0);
        assert((a + b).drop_first() =~= a.drop_first() + b);
        lemma_strip_quotes_concat(a.drop_first(), b);
        if a[0] != '\'' {
            assert(seq![a[0]] + (strip_quotes_spec(a.drop_first()) + strip_quotes_spec(b)) =~= (
            seq![a[0]] + strip_quotes_spec(a.drop_first())) + strip_quotes_spec(b));
        }
    }
}

/// Whether an engine listing line names exactly `name`: the line is trimmed,
/// its quote characters are dropped, and the remainder must equal `name`.
pub fn container_name_listed(output: &str, name: &str) -> (r: bool)
    ensures
        r == (strip_quotes_spec(trim_spec(output@)) == name@),
{
    let t = trim(output);
    let tl = t.as_str().unicode_len();
    let nl = name.unicode_len();
    let mut i: usize = 0;
    let mut j: usize = 0;
    while i < tl
        invariant
            tl == t@.len(),
            nl == name@.len(),
            t@ == trim_spec(output@),
            i <= tl,
            j <= nl,
            strip_quotes_spec(t@.subrange(0, i as int)) == name@.subrange(0, j as int),
        decreases tl - i,
    {
        let c = t.as_str().get_char(i);
        proof {
            assert(t@.subrange(0, i + 1) =~= t@.subrange(0, i as int).push(t@[i as int]));
        }
        if c == '\'' {
            proof {
                lemma_strip_quotes_concat(t@.subrange(0, i as int), seq![t@[i as int]]);
                assert(t@.subrange(0, i as int) + seq![t@[i as int]] =~= t@.subrange(0, i + 1));
                assert(seq![t@[i as int]].drop_first() =~= Seq::<char>::empty());
                assert(strip_quotes_spec(Seq::<char>::empty()) =~= Seq::<char>::empty());
                assert(seq![t@[i as int]][0] == t@[i as int]);
                assert(strip_quotes_spec(seq![t@[i as int]]) =~= Seq::<char>::empty());
                assert(strip_quotes_spec(t@.subrange(0, i + 1)) =~= name@.subrange(0, j as int));
            }
            i += 1;
        } else {
            proof {
                lemma_strip_quotes_concat(t@.subrange(0, i as int), t@.subrange(i as int, tl as int));
                assert(t@.subrange(0, i as int) + t@.subrange(i as int, tl as int) =~= t@);
                let suffix = t@.subrange(i as int, tl as int);
                assert(suffix[0] == t@[i as int]);
                assert(suffix[0] != '\'');
                assert(strip_quotes_spec(suffix) == seq![suffix[0]] + strip_quotes_spec(
                    suffix.drop_first(),
                ));
                assert(strip_quotes_spec(t@)[j as int] == t@[i as int]);
                assert(strip_quotes_spec(t@).len() > j);
            }
            if j >= nl {
                proof {
                    assert(strip_quotes_spec(t@).len() != name@.len());
                }
                return false;
            }
            if name.get_char(j) != c {
                proof {
                    assert(strip_quotes_spec(t@)[j as int] != name@[j as int]);
                }
                return false;
            }
            proof {
                lemma_strip_quotes_concat(t@.subrange(0, i as int), seq![t@[i as int]]);
                assert(t@.subrange(0, i as int) + seq![t@[i as int]] =~= t@.subrange(0, i + 1));
                assert(seq![t@[i as int]].drop_first() =~= Seq::<char>::empty());
                assert(strip_quotes_spec(Seq::<char>::empty()) =~= Seq::<char>::empty());
                assert(seq![t@[i as int]][0] == t@[i as int]);
                assert(strip_quotes_spec(seq![t@[i as int]]) =~= seq![t@[i as int]]);
                assert(strip_quotes_spec(t@.subrange(0, i + 1)) =~= name@.subrange(0, j + 1));
            }
            i += 1;
            j += 1;
        }
    }
    proof {
        assert(t@.subrange(0, tl as int) =~= t@);
    }
    if j == nl {
        proof {
            assert(name@.subrange(0, nl as int) =~= name@);
        }
        true
    } else {
        proof {
            assert(strip_quotes_spec(t@).len() == j);
        }
        false
    }
}

} // verus!
