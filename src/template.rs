//! When filling the output path template leaves no `%` behind.
use vstd::prelude::*;
use crate::pipeline::parsed_output;
use crate::text::{dec, hex_digits, replaced};

verus! {

/// The placeholders of the output path template, in the order they are filled.
pub open spec fn placeholder(j: int) -> Seq<char> {
    if j == 0 {
        "%PACK_NAME%"@
    } else if j == 1 {
        "%PACK_VERSION%"@
    } else if j == 2 {
        "%PACK_AUTHOR%"@
    } else {
        "%TIME%"@
    }
}

/// Whether `s` begins with `p`.
pub open spec fn starts_with(s: Seq<char>, p: Seq<char>) -> bool {
    p.len() <= s.len() && s.subrange(0, p.len() as int) == p
}

/// Whether `s` holds no `%`.
pub open spec fn no_percent(s: Seq<char>) -> bool {
    forall|i: int| 0 <= i < s.len() ==> s[i] != '%'
}

/// A character that may follow a placeholder: neither `%` nor an upper-case
/// ASCII letter.
pub open spec fn may_follow_placeholder(c: char) -> bool {
    c != '%' && !('A' <= c <= 'Z')
}

/// The first placeholder `j` or later that `open` allows and `s` begins with.
pub open spec fn placeholder_at(s: Seq<char>, open: Seq<bool>, j: int) -> Option<int>
    decreases 4 - j,
{
    if j >= 4 || j < 0 {
        None
    } else if open[j] && starts_with(s, placeholder(j)) {
        Some(j)
    } else {
        placeholder_at(s, open, j + 1)
    }
}

/// `s` is made of characters other than `%` and of the placeholders that
/// `open` allows, each followed by the end of `s` or by a character that may
/// follow a placeholder.
pub open spec fn well_placed(s: Seq<char>, open: Seq<bool>) -> bool
    decreases s.len(),
{
    if s.len() == 0 {
        true
    } else if s[0] != '%' {
        well_placed(s.subrange(1, s.len() as int), open)
    } else {
        match placeholder_at(s, open, 0) {
            Some(j) => {
                let k = placeholder(j).len();
                if 0 < k <= s.len() {
                    &&& k == s.len() || may_follow_placeholder(s[k as int])
                    &&& well_placed(s.subrange(k as int, s.len() as int), open)
                } else {
                    false
                }
            },
            None => false,
        }
    }
}

proof fn lemma_placeholder_facts(j: int)
    requires
        0 <= j < 4,
    ensures
        placeholder(j).len() >= 6,
        placeholder(j)[0] == '%',
        placeholder(j)[placeholder(j).len() - 1] == '%',
        'A' <= placeholder(j)[1] <= 'Z',
        forall|i: int| 0 < i < placeholder(j).len() - 1 ==> #[trigger] placeholder(j)[i] != '%',
{
    reveal_strlit("%PACK_NAME%");
    reveal_strlit("%PACK_VERSION%");
    reveal_strlit("%PACK_AUTHOR%");
    reveal_strlit("%TIME%");
}

proof fn lemma_placeholders_distinct(s: Seq<char>, a: int, b: int)
    requires
        0 <= a < 4,
        0 <= b < 4,
        starts_with(s, placeholder(a)),
        starts_with(s, placeholder(b)),
    ensures
        a == b,
{
    reveal_strlit("%PACK_NAME%");
    reveal_strlit("%PACK_VERSION%");
    reveal_strlit("%PACK_AUTHOR%");
    reveal_strlit("%TIME%");
    assert(s[1] == placeholder(a)[1] && s[1] == placeholder(b)[1]);
    assert(s[5] == placeholder(a)[5] && s[5] == placeholder(b)[5]);
    if a != 3 && b != 3 {
        assert(s[6] == placeholder(a)[6] && s[6] == placeholder(b)[6]);
    }
}

proof fn lemma_placeholder_at(s: Seq<char>, open: Seq<bool>, j: int, t: int)
    requires
        open.len() == 4,
        0 <= j <= t < 4,
        open[t],
        starts_with(s, placeholder(t)),
    ensures
        placeholder_at(s, open, j) == Some(t),
    decreases t - j,
{
    if j < t {
        if open[j] && starts_with(s, placeholder(j)) {
            lemma_placeholders_distinct(s, j, t);
        }
        lemma_placeholder_at(s, open, j + 1, t);
    }
}

proof fn lemma_placeholder_at_found(s: Seq<char>, open: Seq<bool>, j: int)
    requires
        open.len() == 4,
        0 <= j,
    ensures
        placeholder_at(s, open, j) matches Some(t) ==> 0 <= t < 4 && open[t] && starts_with(
            s,
            placeholder(t),
        ),
    decreases 4 - j,
{
    if j < 4 && !(open[j] && starts_with(s, placeholder(j))) {
        lemma_placeholder_at_found(s, open, j + 1);
    }
}

/// Characters free of `%` in front of `x` do not change whether it is well placed.
proof fn lemma_plain_prefix(r: Seq<char>, x: Seq<char>, open: Seq<bool>)
    requires
        no_percent(r),
    ensures
        well_placed(r + x, open) == well_placed(x, open),
    decreases r.len(),
{
    if r.len() > 0 {
        let r1 = r.subrange(1, r.len() as int);
        assert((r + x).subrange(1, (r + x).len() as int) =~= r1 + x);
        lemma_plain_prefix(r1, x, open);
    } else {
        assert(r + x =~= x);
    }
}

/// Where no match of `pat` starts before `k`, replacing copies the first `k`
/// characters unchanged.
proof fn lemma_copy_prefix(s: Seq<char>, pat: Seq<char>, rep: Seq<char>, k: int)
    requires
        0 <= k <= s.len(),
        forall|i: int| 0 <= i < k ==> !#[trigger] starts_with(s.subrange(i, s.len() as int), pat),
    ensures
        replaced(s, pat, rep) == s.subrange(0, k) + replaced(s.subrange(k, s.len() as int), pat, rep),
    decreases k,
{
    if k == 0 {
        assert(s.subrange(0, s.len() as int) =~= s);
        assert(s.subrange(0, 0) + replaced(s, pat, rep) =~= replaced(s, pat, rep));
    } else {
        lemma_copy_prefix(s, pat, rep, k - 1);
        let t = s.subrange(k - 1, s.len() as int);
        assert(!starts_with(t, pat));
        assert(t.subrange(1, t.len() as int) =~= s.subrange(k, s.len() as int));
        assert(t[0] == s[k - 1]);
        assert(s.subrange(0, k - 1) + seq![s[k - 1]] =~= s.subrange(0, k));
        assert(s.subrange(0, k - 1) + (seq![s[k - 1]] + replaced(s.subrange(k, s.len() as int), pat, rep))
            =~= s.subrange(0, k) + replaced(s.subrange(k, s.len() as int), pat, rep));
    }
}

/// Filling placeholder `p` with `rep` (free of `%`) in a well-placed string
/// leaves a string well placed without `p`.
proof fn lemma_fill_one(s: Seq<char>, open: Seq<bool>, p: int, rep: Seq<char>)
    requires
        open.len() == 4,
        0 <= p < 4,
        open[p],
        well_placed(s, open),
        no_percent(rep),
    ensures
        well_placed(replaced(s, placeholder(p), rep), open.update(p, false)),
    decreases s.len(),
{
    let pat = placeholder(p);
    let shut = open.update(p, false);
    lemma_placeholder_facts(p);
    if s.len() == 0 {
        return;
    }
    let n = s.len() as int;
    if s[0] != '%' {
        let s1 = s.subrange(1, n);
        assert(!starts_with(s, pat));
        lemma_fill_one(s1, open, p, rep);
        lemma_plain_prefix(seq![s[0]], replaced(s1, pat, rep), shut);
        return;
    }
    lemma_placeholder_at_found(s, open, 0);
    let u = placeholder_at(s, open, 0)->0;
    lemma_placeholder_facts(u);
    let k = placeholder(u).len() as int;
    let rest = s.subrange(k, n);
    if u == p {
        assert(starts_with(s, pat));
        lemma_fill_one(rest, open, p, rep);
        lemma_plain_prefix(rep, replaced(rest, pat, rep), shut);
    } else {
        assert forall|i: int| 0 <= i < k implies !#[trigger] starts_with(s.subrange(i, n), pat) by {
            let t = s.subrange(i, n);
            if starts_with(t, pat) {
                assert(t[0] == pat[0]);
                if i == 0 {
                    assert(t =~= s);
                    lemma_placeholders_distinct(s, u, p);
                } else if i < k - 1 {
                    assert(s[i] == placeholder(u)[i]);
                } else {
                    assert(t[1] == pat[1]);
                    assert(s[k] == t[1]);
                }
            }
        }
        lemma_copy_prefix(s, pat, rep, k);
        lemma_fill_one(rest, open, p, rep);
        let y = replaced(rest, pat, rep);
        if rest.len() > 0 {
            assert(!starts_with(rest, pat));
            assert(y[0] == rest[0]);
        }
        let z = placeholder(u) + y;
        assert(s.subrange(0, k) =~= placeholder(u));
        assert(z.subrange(0, k) =~= placeholder(u));
        lemma_placeholder_at(z, shut, 0, u);
        assert(z.subrange(k, z.len() as int) =~= y);
    }
}

proof fn lemma_closed_no_percent(s: Seq<char>)
    requires
        well_placed(s, seq![false, false, false, false]),
    ensures
        no_percent(s),
    decreases s.len(),
{
    let shut = seq![false, false, false, false];
    if s.len() > 0 {
        if s[0] == '%' {
            lemma_placeholder_at_found(s, shut, 0);
        }
        let s1 = s.subrange(1, s.len() as int);
        lemma_closed_no_percent(s1);
        assert forall|i: int| 0 <= i < s.len() implies s[i] != '%' by {
            if i > 0 {
                assert(s[i] == s1[i - 1]);
            }
        }
    }
}

proof fn lemma_dec_no_percent(n: nat)
    ensures
        no_percent(dec(n)),
    decreases n,
{
    assert(forall|d: int| 0 <= d < 16 ==> #[trigger] hex_digits()[d] != '%');
    if n >= 10 {
        lemma_dec_no_percent(n / 10);
    }
}

/// Placeholder substitution leaves no `%`: a template whose every `%` belongs
/// to one of `%PACK_NAME%`, `%PACK_VERSION%`, `%PACK_AUTHOR%`, `%TIME%`, each
/// followed by the end or by a character that is neither `%` nor an
/// upper-case ASCII letter, filled with a name, version and author free of
/// `%`, yields a path without any `%`.
pub proof fn filled_template_has_no_percent(
    template: Seq<char>,
    name: Seq<char>,
    version: Seq<char>,
    author: Seq<char>,
    time_ms: nat,
)
    requires
        well_placed(template, seq![true, true, true, true]),
        no_percent(name),
        no_percent(version),
        no_percent(author),
    ensures
        no_percent(parsed_output(template, name, version, author, time_ms)),
{
    let o0 = seq![true, true, true, true];
    lemma_fill_one(template, o0, 0, name);
    let s1 = replaced(template, placeholder(0), name);
    let o1 = o0.update(0, false);
    lemma_fill_one(s1, o1, 1, version);
    let s2 = replaced(s1, placeholder(1), version);
    let o2 = o1.update(1, false);
    lemma_fill_one(s2, o2, 2, author);
    let s3 = replaced(s2, placeholder(2), author);
    let o3 = o2.update(2, false);
    lemma_dec_no_percent(time_ms);
    lemma_fill_one(s3, o3, 3, dec(time_ms));
    let s4 = replaced(s3, placeholder(3), dec(time_ms));
    assert(o3.update(3, false) =~= seq![false, false, false, false]);
    lemma_closed_no_percent(s4);
}

} // verus!
