//! Settings read from a key file of `key=value` lines, where `#` starts a
//! comment.
use vstd::prelude::*;
use crate::text::{chars_of, push_char};

verus! {

/// Index of the first `c` in `s`, or `s.len()` where there is none.
pub open spec fn index_of(s: Seq<char>, c: char) -> nat
    decreases s.len(),
{
    if s.len() == 0 {
        0
    } else if s[0] == c {
        0
    } else {
        1 + index_of(s.subrange(1, s.len() as int), c)
    }
}

/// The part of `s` before its first `c` (all of `s` where there is none).
pub open spec fn before(s: Seq<char>, c: char) -> Seq<char> {
    s.subrange(0, index_of(s, c) as int)
}

/// `l` without one trailing carriage return.
pub open spec fn strip_cr(l: Seq<char>) -> Seq<char> {
    if l.len() > 0 && l.last() == '\r' {
        l.drop_last()
    } else {
        l
    }
}

/// The lines of a text: split at each `'\n'` or `"\r\n"`; a final empty
/// line is not one, and a final line without `'\n'` keeps a trailing `'\r'`.
pub open spec fn lines(t: Seq<char>) -> Seq<Seq<char>>
    decreases t.len(),
{
    if t.len() == 0 {
        Seq::empty()
    } else if index_of(t, '\n') >= t.len() {
        seq![t]
    } else {
        seq![strip_cr(before(t, '\n'))] + lines(
            t.subrange(index_of(t, '\n') + 1int, t.len() as int),
        )
    }
}

/// A line without its comment.
pub open spec fn line_content(line: Seq<char>) -> Seq<char> {
    before(line, '#')
}

/// The key of a line: its content up to the first `=`.
pub open spec fn line_key(line: Seq<char>) -> Seq<char> {
    before(line_content(line), '=')
}

/// The value of a line: its content between the first `=` and the next one
/// (empty where the line has no `=`).
pub open spec fn line_value(line: Seq<char>) -> Seq<char> {
    let c = line_content(line);
    if index_of(c, '=') >= c.len() {
        Seq::empty()
    } else {
        before(c.subrange(index_of(c, '=') + 1int, c.len() as int), '=')
    }
}

/// The key the API key is stored under, in lower case.
pub open spec fn api_key_name() -> Seq<char> {
    "curseforge_api_key"@
}

/// Whether `a` and `b` are equal once ASCII upper-case letters of `a` are
/// lowered (`b` is in lower case).
pub open spec fn eq_ignore_ascii_case_lower(a: Seq<char>, b: Seq<char>) -> bool {
    &&& a.len() == b.len()
    &&& forall|i: int|
        0 <= i < a.len() ==> #[trigger] a[i] == b[i] || ('A' <= a[i] <= 'Z' && a[i] as u32 + 32
            == b[i] as u32)
}

/// Whether a line sets the API key.
pub open spec fn sets_api_key(line: Seq<char>) -> bool {
    eq_ignore_ascii_case_lower(line_key(line), api_key_name())
}

/// The API key after reading `ls` in order, starting from `acc`: each line
/// that sets it replaces what was there.
pub open spec fn api_key_after(ls: Seq<Seq<char>>, acc: Seq<char>) -> Seq<char>
    decreases ls.len(),
{
    if ls.len() == 0 {
        acc
    } else {
        api_key_after(
            ls.subrange(1, ls.len() as int),
            if sets_api_key(ls[0]) {
                line_value(ls[0])
            } else {
                acc
            },
        )
    }
}

/// The API key a key file sets: the value of its last line whose key is
/// `curseforge_api_key` in any ASCII case, or empty where none is.
pub open spec fn api_key_of(text: Seq<char>) -> Seq<char> {
    api_key_after(lines(text), Seq::empty())
}

/// Settings of the catalog client.
#[derive(Debug)]
pub struct Env {
    pub curseforge_api_key: String,
}

proof fn lemma_index_of_step(s: Seq<char>, c: char, i: int)
    requires
        0 <= i < s.len(),
        forall|j: int| 0 <= j < i ==> s[j] != c,
    ensures
        index_of(s, c) == i + index_of(s.subrange(i, s.len() as int), c),
    decreases i,
{
    if i > 0 {
        let t = s.subrange(1, s.len() as int);
        assert forall|j: int| 0 <= j < i - 1 implies t[j] != c by {
            assert(t[j] == s[j + 1]);
        }
        lemma_index_of_step(t, c, i - 1);
        assert(t.subrange(i - 1, t.len() as int) =~= s.subrange(i, s.len() as int));
    } else {
        assert(s.subrange(0, s.len() as int) =~= s);
    }
}

/// Index of the first `c` in `cs[from..to]`, as an index of `cs`; `to` where none.
fn find_char(cs: &Vec<char>, from: usize, to: usize, c: char) -> (r: usize)
    requires
        from <= to <= cs@.len(),
    ensures
        r == from + index_of(cs@.subrange(from as int, to as int), c),
        from <= r <= to,
{
    let mut i = from;
    while i < to && cs[i] != c
        invariant
            from <= i <= to <= cs@.len(),
            forall|j: int| from <= j < i ==> cs@[j] != c,
        decreases to - i,
    {
        i = i + 1;
    }
    proof {
        let s = cs@.subrange(from as int, to as int);
        if i < to {
            assert forall|j: int| 0 <= j < i - from implies s[j] != c by {
                assert(s[j] == cs@[from + j]);
            }
            lemma_index_of_step(s, c, i - from);
            assert(s.subrange(i - from, s.len() as int)[0] == c);
        } else {
            lemma_index_of_absent(s, c);
        }
    }
    i
}

proof fn lemma_index_of_absent(s: Seq<char>, c: char)
    requires
        forall|j: int| 0 <= j < s.len() ==> s[j] != c,
    ensures
        index_of(s, c) == s.len(),
    decreases s.len(),
{
    if s.len() > 0 {
        let t = s.subrange(1, s.len() as int);
        assert forall|j: int| 0 <= j < t.len() implies t[j] != c by {
            assert(t[j] == s[j + 1]);
        }
        lemma_index_of_absent(t, c);
    }
}

proof fn lemma_index_of_bound(s: Seq<char>, c: char)
    ensures
        index_of(s, c) <= s.len(),
    decreases s.len(),
{
    if s.len() > 0 {
        lemma_index_of_bound(s.subrange(1, s.len() as int), c);
    }
}

proof fn lemma_lines_step(t: Seq<char>, acc: Seq<char>)
    requires
        t.len() > 0,
    ensures
        ({
            let k = index_of(t, '\n');
            let line = if k < t.len() {
                strip_cr(t.subrange(0, k as int))
            } else {
                t
            };
            let next = if sets_api_key(line) {
                line_value(line)
            } else {
                acc
            };
            &&& k <= t.len()
            &&& k < t.len() ==> api_key_after(lines(t), acc) == api_key_after(
                lines(t.subrange(k + 1int, t.len() as int)),
                next,
            )
            &&& k == t.len() ==> api_key_after(lines(t), acc) == next
        }),
{
    lemma_index_of_bound(t, '\n');
    let k = index_of(t, '\n');
    let ls = lines(t);
    let line = if k < t.len() {
        strip_cr(t.subrange(0, k as int))
    } else {
        t
    };
    let next = if sets_api_key(line) {
        line_value(line)
    } else {
        acc
    };
    if k == t.len() {
        assert(ls =~= seq![t]);
        assert(ls.subrange(1, 1) =~= Seq::<Seq<char>>::empty());
        assert(api_key_after(ls, acc) == api_key_after(ls.subrange(1, 1), next));
        assert(api_key_after(Seq::<Seq<char>>::empty(), next) == next);
    } else {
        let tail = lines(t.subrange(k + 1int, t.len() as int));
        assert(ls =~= seq![line] + tail);
        assert(ls.subrange(1, ls.len() as int) =~= tail);
    }
}

impl Env {
    /// Reads the settings from the text of a key file. Where several lines
    /// set the API key, keys that differ only in ASCII letter case included,
    /// the last such line wins.
    pub fn new(text: &str) -> (r: Env)
        ensures
            r.curseforge_api_key@ == api_key_of(text@),
    {
        let cs = chars_of(text);
        let n = cs.len();
        let mut key: Vec<char> = Vec::new();
        let mut pos: usize = 0;
        assert(cs@.subrange(0, n as int) =~= text@);
        while pos < n
            invariant
                n == cs@.len(),
                cs@ == text@,
                pos <= n,
                api_key_after(lines(cs@.subrange(pos as int, n as int)), key@) == api_key_of(
                    text@,
                ),
            decreases n - pos,
        {
            let ghost rest = cs@.subrange(pos as int, n as int);
            let eol = find_char(&cs, pos, n, '\n');
            let mut end = eol;
            if eol < n && end > pos && cs[end - 1] == '\r' {
                end = end - 1;
            }
            proof {
                lemma_lines_step(rest, key@);
                let l = rest.subrange(0, eol - pos);
                assert(l =~= cs@.subrange(pos as int, eol as int));
                if eol < n {
                    assert(strip_cr(l) =~= cs@.subrange(pos as int, end as int));
                } else {
                    assert(rest =~= cs@.subrange(pos as int, end as int));
                }
            }
            match Env::line_setting(&cs, pos, end) {
                Some(v) => {
                    key = v;
                },
                None => {},
            }
            proof {
                if eol < n {
                    assert(rest.subrange(eol - pos + 1, rest.len() as int) =~= cs@.subrange(
                        eol + 1,
                        n as int,
                    ));
                } else {
                    assert(cs@.subrange(n as int, n as int) =~= Seq::<char>::empty());
                    assert(lines(Seq::<char>::empty()) =~= Seq::<Seq<char>>::empty());
                }
            }
            pos = if eol < n {
                eol + 1
            } else {
                n
            };
        }
        let mut s = String::new();
        let mut i: usize = 0;
        while i < key.len()
            invariant
                i <= key@.len(),
                s@ == key@.subrange(0, i as int),
            decreases key@.len() - i,
        {
            push_char(&mut s, key[i]);
            i = i + 1;
        }
        assert(key@.subrange(0, key@.len() as int) =~= key@);
        Env { curseforge_api_key: s }
    }

    /// The API key that the line `cs[from..to]` sets, if it sets it.
    fn line_setting(cs: &Vec<char>, from: usize, to: usize) -> (r: Option<Vec<char>>)
        requires
            from <= to <= cs@.len(),
        ensures
            r is Some <==> sets_api_key(cs@.subrange(from as int, to as int)),
            r matches Some(v) ==> v@ == line_value(cs@.subrange(from as int, to as int)),
    {
        let ghost line = cs@.subrange(from as int, to as int);
        let hash = find_char(cs, from, to, '#');
        let eq = find_char(cs, from, hash, '=');
        proof {
            assert(cs@.subrange(from as int, hash as int) =~= line_content(line));
            assert(cs@.subrange(from as int, eq as int) =~= line_key(line));
        }
        if !Env::matches_api_key(cs, from, eq) {
            return None;
        }
        let mut value: Vec<char> = Vec::new();
        if eq < hash {
            let stop = find_char(cs, eq + 1, hash, '=');
            let mut k = eq + 1;
            while k < stop
                invariant
                    eq + 1 <= k <= stop <= cs@.len(),
                    value@ == cs@.subrange(eq + 1, k as int),
                decreases stop - k,
            {
                value.push(cs[k]);
                k = k + 1;
            }
            proof {
                let c = line_content(line);
                assert(c.subrange(index_of(c, '=') + 1int, c.len() as int) =~= cs@.subrange(
                    eq + 1,
                    hash as int,
                ));
            }
        }
        Some(value)
    }

    /// Whether `cs[from..to]` equals the API key's name in any ASCII case.
    fn matches_api_key(cs: &Vec<char>, from: usize, to: usize) -> (r: bool)
        requires
            from <= to <= cs@.len(),
        ensures
            r == eq_ignore_ascii_case_lower(cs@.subrange(from as int, to as int), api_key_name()),
    {
        let name = chars_of("curseforge_api_key");
        if to - from != name.len() {
            return false;
        }
        let mut i: usize = 0;
        while i < name.len()
            invariant
                from <= to <= cs@.len(),
                to - from == name@.len(),
                name@ == api_key_name(),
                i <= name@.len(),
                forall|j: int|
                    0 <= j < i ==> #[trigger] cs@[from + j] == name@[j] || ('A' <= cs@[from + j]
                        <= 'Z' && cs@[from + j] as u32 + 32 == name@[j] as u32),
            decreases name@.len() - i,
        {
            let c = cs[from + i];
            let lower = name[i];
            if !(c == lower || ('A' <= c && c <= 'Z' && c as u32 + 32 == lower as u32)) {
                assert(cs@.subrange(from as int, to as int)[i as int] == c);
                return false;
            }
            i = i + 1;
        }
        assert forall|j: int| 0 <= j < name@.len() implies #[trigger] cs@.subrange(
            from as int,
            to as int,
        )[j] == name@[j] || ('A' <= cs@.subrange(from as int, to as int)[j] <= 'Z' && cs@.subrange(
            from as int,
            to as int,
        )[j] as u32 + 32 == name@[j] as u32) by {
            assert(cs@.subrange(from as int, to as int)[j] == cs@[from + j]);
        }
        true
    }
}

} // verus!
