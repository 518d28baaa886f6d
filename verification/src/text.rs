//! Text helpers: glob patterns over characters and decimal rendering of integers.
use vstd::prelude::*;
use vstd::std_specs::iter::IteratorSpec;

verus! {

/// The characters of `s`, in order.
pub fn chars_of(s: &str) -> (r: Vec<char>)
    ensures
        r@ == s@,
{
    let mut out: Vec<char> = Vec::new();
    let mut it = s.chars();
    proof {
        broadcast use vstd::string::group_string_axioms;
    }
    loop
        invariant
            it.obeys_prophetic_iter_laws(),
            out@ + it.remaining() == s@,
            it.decrease() is Some,
        ensures
            out@ == s@,
        decreases it.decrease()->0,
    {
        let ghost before = it.remaining();
        let next = it.next();
        proof {
            broadcast use vstd::string::group_string_axioms;
        }
        match next {
            Some(c) => {
                out.push(c);
                assert(out@ + it.remaining() =~= s@) by {
                    assert(before =~= seq![c] + it.remaining());
                }
            },
            None => {
                assert(out@ =~= s@);
                break ;
            },
        }
    }
    out
}

/// Whether the glob pattern `pat` matches a prefix of `t`. In a pattern, `*` stands for any
/// run of characters (the empty one too), `?` for any one character, and every other
/// character for itself.
pub open spec fn glob_prefix(pat: Seq<char>, t: Seq<char>) -> bool
    decreases pat.len() + t.len(),
{
    if pat.len() == 0 {
        true
    } else if pat[0] == '*' {
        if glob_prefix(pat.drop_first(), t) {
            true
        } else if t.len() > 0 {
            glob_prefix(pat, t.drop_first())
        } else {
            false
        }
    } else if t.len() == 0 {
        false
    } else if pat[0] == '?' || pat[0] == t[0] {
        glob_prefix(pat.drop_first(), t.drop_first())
    } else {
        false
    }
}

/// The glob pattern `pat` matches some contiguous piece of `text`: a pattern without `*` or
/// `?` matches where it occurs as a piece of the text, and `*.tmp` matches every text in
/// which ".tmp" occurs.
pub open spec fn glob_occurs(text: Seq<char>, pat: Seq<char>) -> bool {
    exists|k: int| 0 <= k <= text.len() && #[trigger] glob_prefix(pat, text.skip(k))
}

/// `pat` holds no wildcard: neither `*` nor `?`.
pub open spec fn literal(pat: Seq<char>) -> bool {
    forall|i: int| 0 <= i < pat.len() ==> #[trigger] pat[i] != '*' && pat[i] != '?'
}

/// A pattern without wildcards matches a prefix of `t` exactly when it is one.
proof fn lemma_literal_prefix(pat: Seq<char>, t: Seq<char>)
    requires
        literal(pat),
    ensures
        glob_prefix(pat, t) <==> (pat.len() <= t.len() && t.take(pat.len() as int) == pat),
    decreases pat.len(),
{
    if pat.len() == 0 {
        assert(t.take(0) =~= pat);
    } else {
        assert(pat[0] != '*' && pat[0] != '?');
        let rest = pat.drop_first();
        assert(literal(rest)) by {
            assert forall|i: int| 0 <= i < rest.len() implies #[trigger] rest[i] != '*' && rest[i]
                != '?' by {
                assert(rest[i] == pat[i + 1]);
            }
        }
        if t.len() > 0 {
            lemma_literal_prefix(rest, t.drop_first());
            if pat.len() <= t.len() && t.take(pat.len() as int) == pat {
                assert(t[0] == t.take(pat.len() as int)[0]);
                assert(t.drop_first().take(rest.len() as int) =~= rest) by {
                    assert forall|i: int| 0 <= i < rest.len() implies t.drop_first().take(
                        rest.len() as int,
                    )[i] == rest[i] by {
                        assert(t.take(pat.len() as int)[i + 1] == pat[i + 1]);
                    }
                }
            }
            if pat[0] == t[0] && rest.len() <= t.drop_first().len() && t.drop_first().take(
                rest.len() as int,
            ) == rest {
                assert(t.take(pat.len() as int) =~= pat) by {
                    assert forall|i: int| 0 <= i < pat.len() implies t.take(pat.len() as int)[i]
                        == pat[i] by {
                        if i > 0 {
                            assert(t.drop_first().take(rest.len() as int)[i - 1] == rest[i - 1]);
                        }
                    }
                }
            }
            if pat.len() <= t.len() && t.take(pat.len() as int) == pat {
                assert(pat[0] == t[0]);
            }
        }
    }
}

/// A pattern without `*` or `?` matches a piece of a text exactly when it occurs in it as
/// a piece: such patterns ignore the paths that contain them.
pub proof fn law_literal_pattern_is_a_piece(text: Seq<char>, pat: Seq<char>)
    requires
        literal(pat),
    ensures
        glob_occurs(text, pat) <==> exists|k: int|
            0 <= k && k + pat.len() <= text.len() && #[trigger] text.subrange(k, k + pat.len())
                == pat,
{
    if glob_occurs(text, pat) {
        let k = choose|k: int| 0 <= k <= text.len() && #[trigger] glob_prefix(pat, text.skip(k));
        lemma_literal_prefix(pat, text.skip(k));
        assert(text.skip(k).take(pat.len() as int) =~= text.subrange(k, k + pat.len()));
    }
    if exists|k: int|
        0 <= k && k + pat.len() <= text.len() && #[trigger] text.subrange(k, k + pat.len())
            == pat {
        let k = choose|k: int|
            0 <= k && k + pat.len() <= text.len() && #[trigger] text.subrange(k, k + pat.len())
                == pat;
        lemma_literal_prefix(pat, text.skip(k));
        assert(text.skip(k).take(pat.len() as int) =~= text.subrange(k, k + pat.len()));
        assert(glob_prefix(pat, text.skip(k)));
    }
}

/// Whether `p` from position `i` matches a prefix of `t` from position `j`.
fn glob_prefix_at(p: &Vec<char>, i: usize, t: &Vec<char>, j: usize) -> (r: bool)
    requires
        i <= p@.len(),
        j <= t@.len(),
    ensures
        r == glob_prefix(p@.skip(i as int), t@.skip(j as int)),
    decreases (p@.len() - i) + (t@.len() - j),
{
    let ghost ps = p@.skip(i as int);
    let ghost ts = t@.skip(j as int);
    if i == p.len() {
        assert(ps.len() == 0);
        return true;
    }
    assert(ps[0] == p@[i as int]);
    if i + 1 <= p.len() {
        assert(ps.drop_first() =~= p@.skip(i + 1));
    }
    if j < t.len() {
        assert(ts[0] == t@[j as int]);
        assert(ts.drop_first() =~= t@.skip(j + 1));
    }
    if p[i] == '*' {
        if glob_prefix_at(p, i + 1, t, j) {
            return true;
        }
        if j < t.len() {
            return glob_prefix_at(p, i, t, j + 1);
        }
        assert(ts.len() == 0);
        return false;
    }
    if j == t.len() {
        assert(ts.len() == 0);
        return false;
    }
    if p[i] == '?' || p[i] == t[j] {
        return glob_prefix_at(p, i + 1, t, j + 1);
    }
    false
}

/// Whether the glob pattern `pat` matches some piece of `text`.
pub fn glob_occurs_in(text: &Vec<char>, pat: &Vec<char>) -> (r: bool)
    ensures
        r == glob_occurs(text@, pat@),
{
    let mut k: usize = 0;
    loop
        invariant
            k <= text@.len(),
            forall|t: int| 0 <= t < k ==> !#[trigger] glob_prefix(pat@, text@.skip(t)),
        ensures
            forall|t: int| 0 <= t <= text@.len() ==> !#[trigger] glob_prefix(pat@, text@.skip(t)),
        decreases text@.len() - k,
    {
        if glob_prefix_at(pat, 0, text, k) {
            assert(pat@.skip(0) =~= pat@);
            return true;
        }
        assert(pat@.skip(0) =~= pat@);
        if k == text.len() {
            break;
        }
        k = k + 1;
    }
    false
}

/// Some glob pattern of `patterns` matches a piece of `text`.
pub open spec fn contains_any(text: Seq<char>, patterns: Seq<Seq<char>>) -> bool {
    exists|i: int| 0 <= i < patterns.len() && glob_occurs(text, #[trigger] patterns[i])
}

/// The texts of a list of strings.
pub open spec fn texts(v: Seq<String>) -> Seq<Seq<char>> {
    v.map_values(|s: String| s@)
}

/// Whether some glob pattern of `patterns` matches a piece of `text`.
pub fn contains_any_of(text: &str, patterns: &Vec<String>) -> (r: bool)
    ensures
        r == contains_any(text@, texts(patterns@)),
{
    let hay = chars_of(text);
    let mut i: usize = 0;
    while i < patterns.len()
        invariant
            i <= patterns@.len(),
            hay@ == text@,
            forall|j: int| 0 <= j < i ==> !glob_occurs(text@, #[trigger] texts(patterns@)[j]),
        decreases patterns@.len() - i,
    {
        let pat = chars_of(patterns[i].as_str());
        if glob_occurs_in(&hay, &pat) {
            assert(texts(patterns@)[i as int] == patterns@[i as int]@);
            return true;
        }
        assert(texts(patterns@)[i as int] == patterns@[i as int]@);
        i = i + 1;
    }
    false
}

/// Whether `key` is one of the texts of `list`.
pub fn list_contains(list: &Vec<String>, key: &str) -> (r: bool)
    ensures
        r == texts(list@).contains(key@),
{
    let mut i: usize = 0;
    while i < list.len()
        invariant
            i <= list@.len(),
            forall|j: int| 0 <= j < i ==> list@[j]@ != key@,
        decreases list@.len() - i,
    {
        if same_text(list[i].as_str(), key) {
            assert(texts(list@)[i as int] == key@);
            return true;
        }
        i = i + 1;
    }
    assert forall|j: int| 0 <= j < texts(list@).len() implies texts(list@)[j] != key@ by {
        assert(texts(list@)[j] == list@[j]@);
    }
    false
}

/// Whether two texts are equal.
pub fn same_text(a: &str, b: &str) -> (r: bool)
    ensures
        r == (a@ == b@),
{
    let x = String::from_str(a);
    let y = String::from_str(b);
    x == y
}

/// The decimal digit character for `d` (0 through 9).
pub open spec fn digit_char(d: int) -> char {
    if d == 0 {
        '0'
    } else if d == 1 {
        '1'
    } else if d == 2 {
        '2'
    } else if d == 3 {
        '3'
    } else if d == 4 {
        '4'
    } else if d == 5 {
        '5'
    } else if d == 6 {
        '6'
    } else if d == 7 {
        '7'
    } else if d == 8 {
        '8'
    } else {
        '9'
    }
}

/// The decimal rendering of `n`, without sign or leading zeros.
pub open spec fn decimal(n: nat) -> Seq<char>
    decreases n,
{
    if n < 10 {
        seq![digit_char(n as int)]
    } else {
        decimal(n / 10).push(digit_char((n % 10) as int))
    }
}

fn digit_text(d: u64) -> (r: &'static str)
    requires
        d < 10,
    ensures
        r@ == seq![digit_char(d as int)],
{
    if d == 0 {
        proof {
            reveal_strlit("0");
        }
        "0"
    } else if d == 1 {
        proof {
            reveal_strlit("1");
        }
        "1"
    } else if d == 2 {
        proof {
            reveal_strlit("2");
        }
        "2"
    } else if d == 3 {
        proof {
            reveal_strlit("3");
        }
        "3"
    } else if d == 4 {
        proof {
            reveal_strlit("4");
        }
        "4"
    } else if d == 5 {
        proof {
            reveal_strlit("5");
        }
        "5"
    } else if d == 6 {
        proof {
            reveal_strlit("6");
        }
        "6"
    } else if d == 7 {
        proof {
            reveal_strlit("7");
        }
        "7"
    } else if d == 8 {
        proof {
            reveal_strlit("8");
        }
        "8"
    } else {
        proof {
            reveal_strlit("9");
        }
        "9"
    }
}

/// Renders `n` in decimal.
pub fn decimal_string(n: u64) -> (r: String)
    ensures
        r@ == decimal(n as nat),
    decreases n,
{
    if n < 10 {
        String::from_str(digit_text(n))
    } else {
        let mut s = decimal_string(n / 10);
        s.append(digit_text(n % 10));
        s
    }
}

} // verus!
