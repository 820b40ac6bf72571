//! Turning an arbitrary workspace file stem into a directory-name slug.
use vstd::prelude::*;

verus! {

/// ASCII letters and digits, the characters that a slug keeps.
pub open spec fn is_ascii_alnum(c: char) -> bool {
    ||| 'a' <= c <= 'z'
    ||| 'A' <= c <= 'Z'
    ||| '0' <= c <= '9'
}

/// The ASCII lower-case form of a character; other characters stay as they are.
pub open spec fn ascii_lower(c: char) -> char {
    if 'A' <= c <= 'Z' {
        ((c as u32) + 32) as char
    } else {
        c
    }
}

/// The characters that can occur in a slug besides `-`.
pub open spec fn is_slug_char(c: char) -> bool {
    ||| 'a' <= c <= 'z'
    ||| '0' <= c <= '9'
}

/// The slug built from a prefix of the input, left to right, and whether it
/// currently ends on a separator dash: letters and digits are kept in lower
/// case, and every run of other characters after the first kept character
/// becomes one `-`.
pub open spec fn slug_scan(s: Seq<char>) -> (Seq<char>, bool)
    decreases s.len(),
{
    if s.len() == 0 {
        (Seq::empty(), false)
    } else {
        let prev = slug_scan(s.drop_last());
        let c = s.last();
        if is_ascii_alnum(c) {
            (prev.0.push(ascii_lower(c)), false)
        } else if !prev.1 && prev.0.len() > 0 {
            (prev.0.push('-'), true)
        } else {
            prev
        }
    }
}

/// `s` without its leading dashes.
pub open spec fn trim_start_dashes(s: Seq<char>) -> Seq<char>
    decreases s.len(),
{
    if s.len() > 0 && s[0] == '-' {
        trim_start_dashes(s.drop_first())
    } else {
        s
    }
}

/// `s` without its trailing dashes.
pub open spec fn trim_end_dashes(s: Seq<char>) -> Seq<char>
    decreases s.len(),
{
    if s.len() > 0 && s.last() == '-' {
        trim_end_dashes(s.drop_last())
    } else {
        s
    }
}

/// The name used when nothing of the input survives.
pub open spec fn fallback_slug() -> Seq<char> {
    seq!['w', 'o', 'r', 'k', 's', 'p', 'a', 'c', 'e']
}

/// The slug of `s`: the scan with dashes trimmed at both ends, or
/// `workspace` where that is empty.
pub open spec fn slugify_spec(s: Seq<char>) -> Seq<char> {
    let t = trim_end_dashes(trim_start_dashes(slug_scan(s).0));
    if t.len() == 0 {
        fallback_slug()
    } else {
        t
    }
}

/// A well-formed slug: non-empty, lower-case ASCII letters, digits and
/// single dashes, with no dash at either end.
pub open spec fn is_slug(t: Seq<char>) -> bool {
    &&& t.len() > 0
    &&& forall|i: int| 0 <= i < t.len() ==> is_slug_char(#[trigger] t[i]) || t[i] == '-'
    &&& t[0] != '-'
    &&& t.last() != '-'
    &&& forall|i: int| 0 <= i < t.len() - 1 ==> !(#[trigger] t[i] == '-' && t[i + 1] == '-')
}

/// What every prefix scan satisfies: slug characters and single dashes,
/// never a leading dash, and the flag tells whether it ends on a dash.
pub open spec fn scan_shape(t: Seq<char>, dash: bool) -> bool {
    &&& forall|i: int| 0 <= i < t.len() ==> is_slug_char(#[trigger] t[i]) || t[i] == '-'
    &&& t.len() > 0 ==> t[0] != '-'
    &&& forall|i: int| 0 <= i < t.len() - 1 ==> !(#[trigger] t[i] == '-' && t[i + 1] == '-')
    &&& dash == (t.len() > 0 && t.last() == '-')
}

proof fn lemma_scan_shape(s: Seq<char>)
    ensures
        scan_shape(slug_scan(s).0, slug_scan(s).1),
    decreases s.len(),
{
    if s.len() > 0 {
        lemma_scan_shape(s.drop_last());
        let prev = slug_scan(s.drop_last());
        let c = s.last();
        if is_ascii_alnum(c) {
            assert(is_slug_char(ascii_lower(c)));
            let t = prev.0.push(ascii_lower(c));
            assert forall|i: int| 0 <= i < t.len() - 1 implies !(#[trigger] t[i] == '-' && t[i
                + 1] == '-') by {
                if i < t.len() - 2 {
                    assert(t[i] == prev.0[i] && t[i + 1] == prev.0[i + 1]);
                }
            }
        } else if !prev.1 && prev.0.len() > 0 {
            let t = prev.0.push('-');
            assert forall|i: int| 0 <= i < t.len() - 1 implies !(#[trigger] t[i] == '-' && t[i
                + 1] == '-') by {
                if i < t.len() - 2 {
                    assert(t[i] == prev.0[i] && t[i + 1] == prev.0[i + 1]);
                }
            }
        }
    }
}


/// Trimming the scan removes at most its final separator dash.
proof fn lemma_trim_scan(s: Seq<char>)
    ensures
        ({
            let sc = slug_scan(s);
            trim_end_dashes(trim_start_dashes(sc.0)) == if sc.1 {
                sc.0.drop_last()
            } else {
                sc.0
            }
        }),
{
    lemma_scan_shape(s);
    let t = slug_scan(s).0;
    assert(trim_start_dashes(t) == t);
    if slug_scan(s).1 {
        let u = t.drop_last();
        if u.len() > 0 {
            assert(t[u.len() - 1] == u.last());
        }
        assert(trim_end_dashes(u) == u);
    }
}

/// Every slug is well formed: non-empty, made of lower-case ASCII letters,
/// digits and single dashes, and with no dash at either end.
pub proof fn lemma_slug_is_well_formed(s: Seq<char>)
    ensures
        is_slug(slugify_spec(s)),
{
    lemma_trim_scan(s);
    lemma_scan_shape(s);
    let sc = slug_scan(s);
    let u = if sc.1 {
        sc.0.drop_last()
    } else {
        sc.0
    };
    if u.len() > 0 {
        assert forall|i: int| 0 <= i < u.len() implies is_slug_char(#[trigger] u[i]) || u[i]
            == '-' by {
            assert(u[i] == sc.0[i]);
        }
        assert forall|i: int| 0 <= i < u.len() - 1 implies !(#[trigger] u[i] == '-' && u[i + 1]
            == '-') by {
            assert(u[i] == sc.0[i] && u[i + 1] == sc.0[i + 1]);
        }
        assert(u[0] == sc.0[0]);
        if sc.1 {
            assert(u.last() == sc.0[sc.0.len() - 2]);
        }
    } else {
        let w = fallback_slug();
        assert forall|i: int| 0 <= i < w.len() implies is_slug_char(#[trigger] w[i]) || w[i]
            == '-' by {}
        assert forall|i: int| 0 <= i < w.len() - 1 implies !(#[trigger] w[i] == '-' && w[i + 1]
            == '-') by {}
    }
}

/// Scanning a text that already has the shape of a scan gives it back.
proof fn lemma_scan_fixed_point(t: Seq<char>)
    requires
        scan_shape(t, t.len() > 0 && t.last() == '-'),
    ensures
        slug_scan(t) == (t, t.len() > 0 && t.last() == '-'),
    decreases t.len(),
{
    if t.len() > 0 {
        let p = t.drop_last();
        assert forall|i: int| 0 <= i < p.len() implies is_slug_char(#[trigger] p[i]) || p[i]
            == '-' by {
            assert(p[i] == t[i]);
        }
        assert forall|i: int| 0 <= i < p.len() - 1 implies !(#[trigger] p[i] == '-' && p[i + 1]
            == '-') by {
            assert(p[i] == t[i] && p[i + 1] == t[i + 1]);
        }
        if p.len() > 0 {
            assert(p[0] == t[0]);
            assert(p.last() == t[t.len() - 2]);
        }
        lemma_scan_fixed_point(p);
        assert(p.push(t.last()) == t);
        let c = t.last();
        assert(is_slug_char(c) || c == '-');
        if c == '-' {
            assert(t.len() >= 2);
            assert(!(t[t.len() - 2] == '-' && t[t.len() - 1] == '-'));
        }
    }
}

/// Slugifying a slug changes nothing.
pub proof fn lemma_slugify_idempotent(s: Seq<char>)
    ensures
        slugify_spec(slugify_spec(s)) == slugify_spec(s),
{
    let t = slugify_spec(s);
    lemma_slug_is_well_formed(s);
    lemma_scan_fixed_point(t);
    lemma_trim_scan(t);
}

/// The ASCII letters and digits of `s`, in order and in lower case.
pub open spec fn kept_chars(s: Seq<char>) -> Seq<char>
    decreases s.len(),
{
    if s.len() == 0 {
        Seq::empty()
    } else if is_ascii_alnum(s.last()) {
        kept_chars(s.drop_last()).push(ascii_lower(s.last()))
    } else {
        kept_chars(s.drop_last())
    }
}

/// `t` without its dashes.
pub open spec fn without_dashes(t: Seq<char>) -> Seq<char>
    decreases t.len(),
{
    if t.len() == 0 {
        Seq::empty()
    } else if t.last() == '-' {
        without_dashes(t.drop_last())
    } else {
        without_dashes(t.drop_last()).push(t.last())
    }
}

proof fn lemma_scan_keeps_chars(s: Seq<char>)
    ensures
        without_dashes(slug_scan(s).0) == kept_chars(s),
    decreases s.len(),
{
    if s.len() > 0 {
        lemma_scan_keeps_chars(s.drop_last());
        let prev = slug_scan(s.drop_last());
        let c = s.last();
        if is_ascii_alnum(c) {
            assert(prev.0.push(ascii_lower(c)).drop_last() == prev.0);
            assert(ascii_lower(c) != '-');
        } else if !prev.1 && prev.0.len() > 0 {
            assert(prev.0.push('-').drop_last() == prev.0);
        }
    }
}

/// A scan from which nothing but dashes would remain is empty.
proof fn lemma_scan_without_chars_is_empty(t: Seq<char>, dash: bool)
    requires
        scan_shape(t, dash),
        without_dashes(t).len() == 0,
    ensures
        t.len() == 0,
    decreases t.len(),
{
    if t.len() > 0 {
        if t.last() != '-' {
            assert(without_dashes(t).len() == without_dashes(t.drop_last()).len() + 1);
        } else if t.len() == 1 {
            assert(t[0] == t.last());
        } else {
            let p = t.drop_last();
            assert(p.last() == t[t.len() - 2]);
            assert(!(t[t.len() - 2] == '-' && t[t.len() - 1] == '-'));
            assert(without_dashes(p).len() == without_dashes(p.drop_last()).len() + 1);
        }
    }
}

/// The slug keeps exactly the ASCII letters and digits of its input, in
/// order and in lower case, with dashes only between them; an input without
/// any gives `workspace`.
pub proof fn lemma_slug_keeps_letters_and_digits(s: Seq<char>)
    ensures
        kept_chars(s).len() > 0 ==> without_dashes(slugify_spec(s)) == kept_chars(s),
        kept_chars(s).len() == 0 ==> slugify_spec(s) == seq!['w', 'o', 'r', 'k', 's', 'p', 'a', 'c', 'e'],
{
    lemma_scan_keeps_chars(s);
    lemma_trim_scan(s);
    lemma_scan_shape(s);
    let sc = slug_scan(s);
    if sc.1 {
        assert(sc.0.drop_last().push('-') == sc.0);
        assert(without_dashes(sc.0) == without_dashes(sc.0.drop_last()));
    }
    let u = if sc.1 {
        sc.0.drop_last()
    } else {
        sc.0
    };
    if kept_chars(s).len() > 0 {
        if u.len() == 0 {
            assert(without_dashes(u).len() == 0);
        }
    } else {
        lemma_scan_without_chars_is_empty(sc.0, sc.1);
    }
}

/// The ASCII upper-case form of a character; other characters stay as they are.
pub open spec fn ascii_upper(c: char) -> char {
    if 'a' <= c <= 'z' {
        ((c as u32) - 32) as char
    } else {
        c
    }
}

/// Whether two texts differ at most in the case of ASCII letters.
pub open spec fn same_ignoring_ascii_case(s: Seq<char>, t: Seq<char>) -> bool {
    s.len() == t.len() && forall|i: int| 0 <= i < s.len() ==> ascii_lower(#[trigger] s[i])
        == ascii_lower(t[i])
}

proof fn lemma_lower_keeps_kind(a: char, b: char)
    requires
        ascii_lower(a) == ascii_lower(b),
    ensures
        is_ascii_alnum(a) == is_ascii_alnum(b),
{
}

proof fn lemma_scan_ignores_case(s: Seq<char>, t: Seq<char>)
    requires
        same_ignoring_ascii_case(s, t),
    ensures
        slug_scan(s) == slug_scan(t),
    decreases s.len(),
{
    if s.len() > 0 {
        let (ps, pt) = (s.drop_last(), t.drop_last());
        assert forall|i: int| 0 <= i < ps.len() implies ascii_lower(#[trigger] ps[i])
            == ascii_lower(pt[i]) by {
            assert(ps[i] == s[i] && pt[i] == t[i]);
        }
        lemma_scan_ignores_case(ps, pt);
        assert(ascii_lower(s[s.len() - 1]) == ascii_lower(t[t.len() - 1]));
        lemma_lower_keeps_kind(s.last(), t.last());
    }
}

/// The case of ASCII letters does not change a slug: texts that differ only
/// in it have the same slug.
pub proof fn lemma_slug_ignores_ascii_case(s: Seq<char>, t: Seq<char>)
    requires
        same_ignoring_ascii_case(s, t),
    ensures
        slugify_spec(s) == slugify_spec(t),
{
    lemma_scan_ignores_case(s, t);
}

/// Upper-casing or lower-casing the ASCII letters of a text leaves its slug
/// unchanged.
pub proof fn lemma_slug_of_case_mapped_text(s: Seq<char>)
    ensures
        slugify_spec(s.map_values(|c: char| ascii_upper(c))) == slugify_spec(s),
        slugify_spec(s.map_values(|c: char| ascii_lower(c))) == slugify_spec(s),
{
    let up = s.map_values(|c: char| ascii_upper(c));
    let low = s.map_values(|c: char| ascii_lower(c));
    assert forall|i: int| 0 <= i < s.len() implies ascii_lower(#[trigger] s[i]) == ascii_lower(
        up[i],
    ) by {}
    assert forall|i: int| 0 <= i < s.len() implies ascii_lower(#[trigger] s[i]) == ascii_lower(
        low[i],
    ) by {}
    lemma_slug_ignores_ascii_case(s, up);
    lemma_slug_ignores_ascii_case(s, low);
}

/// Appending a run of characters that are not ASCII letters or digits to a
/// non-empty scan ends it with exactly one separator dash.
proof fn lemma_scan_separators(q: Seq<char>, x: Seq<char>)
    requires
        x.len() > 0,
        forall|i: int| 0 <= i < x.len() ==> !is_ascii_alnum(#[trigger] x[i]),
        slug_scan(q).0.len() > 0,
    ensures
        slug_scan(q + x).1,
        slug_scan(q + x).0 == if slug_scan(q).1 {
            slug_scan(q).0
        } else {
            slug_scan(q).0.push('-')
        },
    decreases x.len(),
{
    let qx = q + x;
    assert(qx.drop_last() == q + x.drop_last());
    assert(qx.last() == x[x.len() - 1]);
    if x.len() > 1 {
        let y = x.drop_last();
        assert forall|i: int| 0 <= i < y.len() implies !is_ascii_alnum(#[trigger] y[i]) by {
            assert(y[i] == x[i]);
        }
        lemma_scan_separators(q, y);
    } else {
        assert(q + x.drop_last() == q);
    }
}

/// Appending a slug-shaped text that starts with a letter or digit to a scan
/// appends it unchanged.
proof fn lemma_scan_append_slug(p: Seq<char>, b: Seq<char>)
    requires
        b.len() > 0,
        is_slug_char(b[0]),
        forall|i: int| 0 <= i < b.len() ==> is_slug_char(#[trigger] b[i]) || b[i] == '-',
        forall|i: int| 0 <= i < b.len() - 1 ==> !(#[trigger] b[i] == '-' && b[i + 1] == '-'),
    ensures
        slug_scan(p + b) == (slug_scan(p).0 + b, b.last() == '-'),
    decreases b.len(),
{
    let pb = p + b;
    assert(pb.drop_last() == p + b.drop_last());
    assert(pb.last() == b.last());
    if b.len() == 1 {
        assert(p + b.drop_last() == p);
        assert(slug_scan(p).0 + b == slug_scan(p).0.push(b[0]));
    } else {
        let c = b.drop_last();
        assert forall|i: int| 0 <= i < c.len() implies is_slug_char(#[trigger] c[i]) || c[i] == '-' by {
            assert(c[i] == b[i]);
        }
        assert forall|i: int| 0 <= i < c.len() - 1 implies !(#[trigger] c[i] == '-' && c[i + 1]
            == '-') by {
            assert(c[i] == b[i] && c[i + 1] == b[i + 1]);
        }
        assert(c[0] == b[0]);
        lemma_scan_append_slug(p, c);
        assert(slug_scan(p).0 + b == (slug_scan(p).0 + c).push(b.last()));
        if b.last() == '-' {
            assert(c.last() == b[b.len() - 2]);
            assert(!(b[b.len() - 2] == '-' && b[b.len() - 1] == '-'));
        }
    }
}

/// Characters that are not ASCII letters or digits, non-ASCII ones
/// included, separate words: between two slugs, any non-empty run of them
/// becomes exactly one dash.
pub proof fn lemma_slug_separates_words(a: Seq<char>, x: Seq<char>, b: Seq<char>)
    requires
        is_slug(a),
        is_slug(b),
        x.len() > 0,
        forall|i: int| 0 <= i < x.len() ==> !is_ascii_alnum(#[trigger] x[i]),
    ensures
        slugify_spec(a + x + b) == a + seq!['-'] + b,
{
    assert(scan_shape(a, false));
    lemma_scan_fixed_point(a);
    lemma_scan_separators(a, x);
    assert(is_slug_char(b[0]));
    lemma_scan_append_slug(a + x, b);
    let t = a.push('-') + b;
    assert(t == a + seq!['-'] + b);
    lemma_trim_scan(a + x + b);
    lemma_scan_shape(a + x + b);
    assert(t[0] == a[0]);
    assert(t.len() > 0);
}

/// A word made only of lower-case ASCII letters and digits is its own slug.
pub proof fn lemma_slug_of_plain_word(w: Seq<char>)
    requires
        w.len() > 0,
        forall|i: int| 0 <= i < w.len() ==> is_slug_char(#[trigger] w[i]),
    ensures
        slugify_spec(w) == w,
{
    assert forall|i: int| 0 <= i < w.len() implies is_slug_char(#[trigger] w[i]) || w[i] == '-' by {}
    assert forall|i: int| 0 <= i < w.len() - 1 implies !(#[trigger] w[i] == '-' && w[i + 1] == '-') by {
        assert(is_slug_char(w[i]));
    }
    assert(w + Seq::<char>::empty() == w);
    lemma_scan_append_slug(Seq::empty(), w);
    assert(Seq::<char>::empty() + w == w);
    assert(slug_scan(Seq::<char>::empty()).0 + w == w);
    assert(is_slug_char(w.last()));
    lemma_trim_scan(w);
    lemma_scan_shape(w);
}

/// Whether `c` is an ASCII letter or digit.
fn is_alnum(c: char) -> (b: bool)
    ensures
        b == is_ascii_alnum(c),
{
    ('a' <= c && c <= 'z') || ('A' <= c && c <= 'Z') || ('0' <= c && c <= '9')
}

/// The ASCII lower-case form of `c`.
fn to_lower(c: char) -> (l: char)
    ensures
        l == ascii_lower(c),
{
    if 'A' <= c && c <= 'Z' {
        ((c as u8) + 32) as char
    } else {
        c
    }
}

/// Turns `value` into a directory-name slug: ASCII letters and digits are
/// kept in lower case, each run of other characters between them becomes a
/// single `-`, dashes at either end are dropped, and an empty result becomes
/// `workspace`.
pub fn slugify(value: &str) -> (slug: String)
    ensures
        slug@ == slugify_spec(value@),
{
    let mut out = String::new();
    // A separator that becomes part of the slug once another letter or digit follows.
    let mut pending_dash = false;
    for character in it: value.chars()
        invariant
            it.seq() == value@,
            pending_dash == slug_scan(value@.take(it.index() as int)).1,
            slug_scan(value@.take(it.index() as int)).0 == if pending_dash {
                out@.push('-')
            } else {
                out@
            },
            pending_dash ==> out@.len() > 0,
    {
        let ghost i = it.index() as int;
        assert(value@.take(i + 1).drop_last() == value@.take(i));
        assert(value@.take(i + 1).last() == character);
        if is_alnum(character) {
            if pending_dash {
                out.push('-');
            }
            out.push(to_lower(character));
            pending_dash = false;
        } else if !pending_dash && !out.as_str().is_empty() {
            pending_dash = true;
        }
    }
    assert(value@.take(value@.len() as int) == value@);
    proof {
        lemma_trim_scan(value@);
    }
    if out.as_str().is_empty() {
        let fallback = "workspace".to_owned();
        proof {
            reveal_strlit("workspace");
        }
        assert(fallback@ == fallback_slug());
        fallback
    } else {
        out
    }
}

} // verus!
