//! Text helpers: template-literal escaping and `{{key}}` placeholder rendering.
use vstd::prelude::*;

verus! {

/// What one character becomes inside a backtick-quoted script literal.
pub open spec fn escape_char(c: char) -> Seq<char> {
    if c == '\\' {
        seq!['\\', '\\']
    } else if c == '`' {
        seq!['\\', '`']
    } else if c == '$' {
        seq!['\\', '$']
    } else if c == '\n' {
        seq!['\\', 'n']
    } else if c == '\r' {
        seq!['\\', 'r']
    } else {
        seq![c]
    }
}

/// The escaped form of a whole text: each character escaped in place.
pub open spec fn escape_seq(s: Seq<char>) -> Seq<char>
    decreases s.len(),
{
    if s.len() == 0 {
        Seq::empty()
    } else {
        escape_seq(s.drop_last()) + escape_char(s.last())
    }
}

/// The characters that a backtick-quoted script literal cannot hold as they are.
pub open spec fn needs_escape(c: char) -> bool {
    c == '\\' || c == '`' || c == '$' || c == '\n' || c == '\r'
}

/// The characters that may follow a backslash in an escaped text.
pub open spec fn is_escape_code(c: char) -> bool {
    c == '\\' || c == '`' || c == '$' || c == 'n' || c == 'r'
}

/// The character that a backslash followed by `code` stands for.
pub open spec fn unescape_code(code: char) -> char {
    if code == 'n' {
        '\n'
    } else if code == 'r' {
        '\r'
    } else {
        code
    }
}

/// An escaped text: every special character is a backslash that opens an
/// escape pair; no bare backtick, dollar sign or line break is left.
pub open spec fn well_escaped(t: Seq<char>) -> bool
    decreases t.len(),
{
    if t.len() == 0 {
        true
    } else if t[0] == '\\' {
        t.len() >= 2 && is_escape_code(t[1]) && well_escaped(t.subrange(2, t.len() as int))
    } else {
        !needs_escape(t[0]) && well_escaped(t.drop_first())
    }
}

/// Reading an escaped text back, as the script's literal does.
pub open spec fn unescape_seq(t: Seq<char>) -> Seq<char>
    decreases t.len(),
{
    if t.len() == 0 {
        Seq::empty()
    } else if t[0] == '\\' && t.len() >= 2 {
        seq![unescape_code(t[1])] + unescape_seq(t.subrange(2, t.len() as int))
    } else {
        seq![t[0]] + unescape_seq(t.drop_first())
    }
}

proof fn lemma_escape_concat(a: Seq<char>, b: Seq<char>)
    ensures
        escape_seq(a + b) == escape_seq(a) + escape_seq(b),
    decreases b.len(),
{
    if b.len() == 0 {
        assert(a + b == a);
        assert(escape_seq(a) + Seq::<char>::empty() == escape_seq(a));
    } else {
        lemma_escape_concat(a, b.drop_last());
        assert((a + b).drop_last() == a + b.drop_last());
        assert((a + b).last() == b.last());
    }
}

/// Escaping is undone by reading the literal back, and leaves no special
/// character unescaped, for every text.
pub proof fn lemma_escape_round_trip(s: Seq<char>)
    ensures
        well_escaped(escape_seq(s)),
        unescape_seq(escape_seq(s)) == s,
    decreases s.len(),
{
    if s.len() > 0 {
        let c = s[0];
        let rest = s.drop_first();
        lemma_escape_round_trip(rest);
        assert(s == seq![c] + rest);
        lemma_escape_concat(seq![c], rest);
        assert(seq![c].drop_last() == Seq::<char>::empty());
        assert(seq![c].last() == c);
        assert(escape_seq(Seq::<char>::empty()) == Seq::<char>::empty());
        assert(Seq::<char>::empty() + escape_char(c) == escape_char(c));
        assert(escape_seq(seq![c]) == escape_char(c));
        let t = escape_seq(s);
        assert(t == escape_char(c) + escape_seq(rest));
        if needs_escape(c) {
            assert(t.subrange(2, t.len() as int) == escape_seq(rest));
        } else {
            assert(t.drop_first() == escape_seq(rest));
        }
    }
}

/// How many backslashes stand in `t` immediately before position `i`.
#[verifier::opaque]
pub open spec fn backslash_run(t: Seq<char>, i: int) -> nat
    decreases i,
{
    if 0 < i <= t.len() && t[i - 1] == '\\' {
        1 + backslash_run(t, i - 1)
    } else {
        0
    }
}

proof fn lemma_backslash_run_prefix(t: Seq<char>, u: Seq<char>, i: int)
    requires
        0 <= i <= t.len(),
    ensures
        backslash_run(t + u, i) == backslash_run(t, i),
    decreases i,
{
    reveal(backslash_run);
    if i > 0 {
        lemma_backslash_run_prefix(t, u, i - 1);
    }
}

proof fn lemma_backslash_run_step(t: Seq<char>, i: int)
    requires
        0 < i <= t.len(),
    ensures
        backslash_run(t, i) == if t[i - 1] == '\\' {
            1 + backslash_run(t, i - 1)
        } else {
            0
        },
{
    reveal(backslash_run);
}

/// Nothing of the text can end a backtick-quoted literal or open an
/// interpolation: no line break, every backtick and dollar sign follows an
/// odd run of backslashes (so it is escaped), and the text ends on an even
/// run (so it does not escape the closing backtick).
pub open spec fn literal_safe(t: Seq<char>) -> bool {
    &&& forall|i: int| 0 <= i < t.len() ==> #[trigger] t[i] != '\n' && t[i] != '\r'
    &&& forall|i: int|
        0 <= i < t.len() && (#[trigger] t[i] == '`' || t[i] == '$') ==> backslash_run(t, i) % 2
            == 1
    &&& backslash_run(t, t.len() as int) % 2 == 0
}

#[verifier::spinoff_prover]
proof fn lemma_literal_safe_append(t0: Seq<char>, c: char)
    requires
        literal_safe(t0),
    ensures
        literal_safe(t0 + escape_char(c)),
{
    let e = escape_char(c);
    let t = t0 + e;
    let n0 = t0.len() as int;
    let r0 = backslash_run(t0, n0);
    lemma_backslash_run_prefix(t0, e, n0);
    assert forall|i: int| 0 <= i < n0 implies backslash_run(t, i) == backslash_run(t0, i) && t[i]
        == t0[i] by {
        lemma_backslash_run_prefix(t0, e, i);
    }
    assert(backslash_run(t, n0) == r0);
    if needs_escape(c) {
        assert(e.len() == 2 && e[0] == '\\');
        assert(t[n0] == '\\');
        lemma_backslash_run_step(t, n0 + 1);
        lemma_backslash_run_step(t, n0 + 2);
        assert(backslash_run(t, n0 + 1) == 1 + r0);
        if c == '\\' {
            assert(t[n0 + 1] == '\\');
            assert(backslash_run(t, n0 + 2) == 2 + r0);
        } else {
            assert(t[n0 + 1] != '\\');
            assert(backslash_run(t, n0 + 2) == 0);
        }
        assert(t[n0 + 1] != '\n' && t[n0 + 1] != '\r');
    } else {
        assert(e == seq![c]);
        assert(t[n0] == c);
        lemma_backslash_run_step(t, n0 + 1);
        assert(backslash_run(t, n0 + 1) == 0);
    }
}

/// The escaped form of every text is safe inside a backtick-quoted literal.
pub proof fn lemma_escape_is_literal_safe(s: Seq<char>)
    ensures
        literal_safe(escape_seq(s)),
    decreases s.len(),
{
    if s.len() > 0 {
        lemma_escape_is_literal_safe(s.drop_last());
        lemma_literal_safe_append(escape_seq(s.drop_last()), s.last());
    } else {
        reveal(backslash_run);
    }
}

/// Every occurrence of one character replaced by a text.
pub open spec fn replace_char_seq(s: Seq<char>, x: char, t: Seq<char>) -> Seq<char> {
    replace_seq(s, seq![x], t)
}

/// The five replacements of the escaping, in their order: backslashes first,
/// so that the backslashes the later ones insert are not escaped again.
pub open spec fn ordered_escape(s: Seq<char>) -> Seq<char> {
    replace_char_seq(
        replace_char_seq(
            replace_char_seq(
                replace_char_seq(replace_char_seq(s, '\\', seq!['\\', '\\']), '`', seq!['\\', '`']),
                '$',
                seq!['\\', '$'],
            ),
            '\n',
            seq!['\\', 'n'],
        ),
        '\r',
        seq!['\\', 'r'],
    )
}

proof fn lemma_replace_char_cons(c: char, rest: Seq<char>, x: char, t: Seq<char>)
    ensures
        replace_char_seq(seq![c] + rest, x, t) == (if c == x {
            t
        } else {
            seq![c]
        }) + replace_char_seq(rest, x, t),
{
    let s = seq![c] + rest;
    assert(s.subrange(0, 1) =~= seq![c]);
    assert(s.subrange(1, s.len() as int) =~= rest);
    assert(s.drop_first() =~= rest);
    if c != x {
        assert(seq![c][0] != seq![x][0]);
    }
}

proof fn lemma_replace_char_empty(x: char, t: Seq<char>)
    ensures
        replace_char_seq(Seq::empty(), x, t) == Seq::<char>::empty(),
{
}

proof fn lemma_replace_char_concat(a: Seq<char>, b: Seq<char>, x: char, t: Seq<char>)
    ensures
        replace_char_seq(a + b, x, t) == replace_char_seq(a, x, t) + replace_char_seq(b, x, t),
    decreases a.len(),
{
    if a.len() == 0 {
        assert(a + b =~= b);
        assert(a =~= Seq::<char>::empty());
        lemma_replace_char_empty(x, t);
        assert(Seq::<char>::empty() + replace_char_seq(b, x, t) =~= replace_char_seq(b, x, t));
    } else {
        let c = a[0];
        let r = a.drop_first();
        assert(a =~= seq![c] + r);
        assert(a + b =~= seq![c] + (r + b));
        lemma_replace_char_cons(c, r + b, x, t);
        lemma_replace_char_cons(c, r, x, t);
        lemma_replace_char_concat(r, b, x, t);
        let head = if c == x {
            t
        } else {
            seq![c]
        };
        assert(head + (replace_char_seq(r, x, t) + replace_char_seq(b, x, t)) =~= (head
            + replace_char_seq(r, x, t)) + replace_char_seq(b, x, t));
    }
}

proof fn lemma_replace_char_single(c: char, x: char, t: Seq<char>)
    ensures
        replace_char_seq(seq![c], x, t) == if c == x {
            t
        } else {
            seq![c]
        },
{
    lemma_replace_char_cons(c, Seq::empty(), x, t);
    lemma_replace_char_empty(x, t);
    assert(seq![c] + Seq::<char>::empty() =~= seq![c]);
    assert(t + Seq::<char>::empty() =~= t);
}

proof fn lemma_replace_char_pair(a: char, b: char, x: char, t: Seq<char>)
    requires
        a != x,
        b != x,
    ensures
        replace_char_seq(seq![a, b], x, t) == seq![a, b],
{
    assert(seq![a, b] =~= seq![a] + seq![b]);
    lemma_replace_char_concat(seq![a], seq![b], x, t);
    lemma_replace_char_single(a, x, t);
    lemma_replace_char_single(b, x, t);
}

proof fn lemma_ordered_escape_concat(a: Seq<char>, b: Seq<char>)
    ensures
        ordered_escape(a + b) == ordered_escape(a) + ordered_escape(b),
{
    let r1 = |s: Seq<char>| replace_char_seq(s, '\\', seq!['\\', '\\']);
    let r2 = |s: Seq<char>| replace_char_seq(s, '`', seq!['\\', '`']);
    let r3 = |s: Seq<char>| replace_char_seq(s, '$', seq!['\\', '$']);
    let r4 = |s: Seq<char>| replace_char_seq(s, '\n', seq!['\\', 'n']);
    lemma_replace_char_concat(a, b, '\\', seq!['\\', '\\']);
    lemma_replace_char_concat(r1(a), r1(b), '`', seq!['\\', '`']);
    lemma_replace_char_concat(r2(r1(a)), r2(r1(b)), '$', seq!['\\', '$']);
    lemma_replace_char_concat(r3(r2(r1(a))), r3(r2(r1(b))), '\n', seq!['\\', 'n']);
    lemma_replace_char_concat(r4(r3(r2(r1(a)))), r4(r3(r2(r1(b)))), '\r', seq!['\\', 'r']);
}

proof fn lemma_ordered_escape_single(c: char)
    ensures
        ordered_escape(seq![c]) == escape_char(c),
{
    lemma_replace_char_single(c, '\\', seq!['\\', '\\']);
    if c == '\\' {
        lemma_replace_char_pair('\\', '\\', '`', seq!['\\', '`']);
        lemma_replace_char_pair('\\', '\\', '$', seq!['\\', '$']);
        lemma_replace_char_pair('\\', '\\', '\n', seq!['\\', 'n']);
        lemma_replace_char_pair('\\', '\\', '\r', seq!['\\', 'r']);
    } else {
        lemma_replace_char_single(c, '`', seq!['\\', '`']);
        if c == '`' {
            lemma_replace_char_pair('\\', '`', '$', seq!['\\', '$']);
            lemma_replace_char_pair('\\', '`', '\n', seq!['\\', 'n']);
            lemma_replace_char_pair('\\', '`', '\r', seq!['\\', 'r']);
        } else {
            lemma_replace_char_single(c, '$', seq!['\\', '$']);
            if c == '$' {
                lemma_replace_char_pair('\\', '$', '\n', seq!['\\', 'n']);
                lemma_replace_char_pair('\\', '$', '\r', seq!['\\', 'r']);
            } else {
                lemma_replace_char_single(c, '\n', seq!['\\', 'n']);
                if c == '\n' {
                    lemma_replace_char_pair('\\', 'n', '\r', seq!['\\', 'r']);
                } else {
                    lemma_replace_char_single(c, '\r', seq!['\\', 'r']);
                }
            }
        }
    }
}

/// Escaping each character in place is the same as the five replacements
/// applied one after the other with backslashes first.
pub proof fn lemma_escape_is_ordered_replacement(s: Seq<char>)
    ensures
        escape_seq(s) == ordered_escape(s),
    decreases s.len(),
{
    if s.len() == 0 {
        lemma_replace_char_empty('\\', seq!['\\', '\\']);
        lemma_replace_char_empty('`', seq!['\\', '`']);
        lemma_replace_char_empty('$', seq!['\\', '$']);
        lemma_replace_char_empty('\n', seq!['\\', 'n']);
        lemma_replace_char_empty('\r', seq!['\\', 'r']);
        assert(s =~= Seq::<char>::empty());
        assert(escape_seq(s) =~= Seq::<char>::empty());
        assert(ordered_escape(s) =~= Seq::<char>::empty());
    } else {
        let c = s[0];
        let rest = s.drop_first();
        assert(s =~= seq![c] + rest);
        lemma_escape_is_ordered_replacement(rest);
        lemma_escape_concat(seq![c], rest);
        assert(seq![c].drop_last() =~= Seq::<char>::empty());
        assert(seq![c].last() == c);
        assert(Seq::<char>::empty() + escape_char(c) =~= escape_char(c));
        assert(escape_seq(Seq::<char>::empty()) =~= Seq::<char>::empty());
        assert(escape_seq(seq![c]) == escape_char(c));
        lemma_ordered_escape_concat(seq![c], rest);
        lemma_ordered_escape_single(c);
        assert(escape_seq(s) == escape_char(c) + escape_seq(rest));
        assert(ordered_escape(s) == ordered_escape(seq![c]) + ordered_escape(rest));
    }
}

/// Relies on String::push: the character is appended at the end.
#[verifier::external_body]
pub(crate) fn push_char(s: &mut String, c: char)
    ensures
        final(s)@ == old(s)@.push(c),
{
    s.push(c);
}

/// Escape a string for safe use in a JavaScript template literal.
///
/// Backslashes, backticks, dollar signs, newlines and carriage returns are
/// each preceded by a backslash (the line breaks become `\n` and `\r`).
pub fn escape_js(s: &str) -> (r: String)
    ensures
        r@ == escape_seq(s@),
{
    let mut out = String::new();
    for c in it: s.chars()
        invariant
            it.seq() == s@,
            out@ == escape_seq(s@.subrange(0, it.index() as int)),
    {
        proof {
            let k = it.index() as int;
            assert(s@.subrange(0, k + 1).drop_last() == s@.subrange(0, k));
            assert(s@.subrange(0, k + 1).last() == c);
        }
        if c == '\\' {
            proof { reveal_strlit("\\\\"); }
            out.append("\\\\");
        } else if c == '`' {
            proof { reveal_strlit("\\`"); }
            out.append("\\`");
        } else if c == '$' {
            proof { reveal_strlit("\\$"); }
            out.append("\\$");
        } else if c == '\n' {
            proof { reveal_strlit("\\n"); }
            out.append("\\n");
        } else if c == '\r' {
            proof { reveal_strlit("\\r"); }
            out.append("\\r");
        } else {
            push_char(&mut out, c);
        }
    }
    proof {
        assert(s@.subrange(0, s@.len() as int) == s@);
    }
    out
}

/// `s` with every occurrence of the non-empty pattern `p` replaced by `t`,
/// matches taken from the left and never overlapping.
pub open spec fn replace_seq(s: Seq<char>, p: Seq<char>, t: Seq<char>) -> Seq<char>
    decreases s.len(),
{
    if p.len() == 0 || s.len() < p.len() {
        s
    } else if s.subrange(0, p.len() as int) == p {
        t + replace_seq(s.subrange(p.len() as int, s.len() as int), p, t)
    } else {
        seq![s[0]] + replace_seq(s.drop_first(), p, t)
    }
}

/// The placeholder text `{{key}}`.
pub open spec fn placeholder(key: Seq<char>) -> Seq<char> {
    seq!['{', '{'] + key + seq!['}', '}']
}

/// The bindings of a template as pairs of texts.
pub open spec fn bindings_view(vars: Seq<(&str, &str)>) -> Seq<(Seq<char>, Seq<char>)> {
    vars.map_values(|kv: (&str, &str)| (kv.0@, kv.1@))
}

/// `t` begins with `p`.
pub open spec fn starts_with_seq(t: Seq<char>, p: Seq<char>) -> bool {
    p.len() <= t.len() && t.subrange(0, p.len() as int) == p
}

/// The placeholder of binding `j` stands at the start of `t`.
pub open spec fn binding_at(t: Seq<char>, vars: Seq<(Seq<char>, Seq<char>)>, j: int) -> bool {
    starts_with_seq(t, placeholder(vars[j].0))
}

/// Binding `j` is the first binding whose placeholder stands at the start of `t`.
pub open spec fn first_binding_at(t: Seq<char>, vars: Seq<(Seq<char>, Seq<char>)>, j: int) -> bool {
    &&& 0 <= j < vars.len()
    &&& binding_at(t, vars, j)
    &&& forall|k: int| 0 <= k < j ==> !#[trigger] binding_at(t, vars, k)
}

/// A template rendered in one pass from left to right: where a bound
/// `{{key}}` stands in the template, its value is written (the first binding
/// of that key wins) and reading goes on after the placeholder; every other
/// character is copied. Inserted values are never read again.
pub open spec fn render_seq(template: Seq<char>, vars: Seq<(Seq<char>, Seq<char>)>) -> Seq<char>
    decreases template.len(),
{
    if template.len() == 0 {
        Seq::empty()
    } else if exists|j: int| first_binding_at(template, vars, j) {
        let j = choose|j: int| first_binding_at(template, vars, j);
        vars[j].1 + render_seq(
            template.subrange(placeholder(vars[j].0).len() as int, template.len() as int),
            vars,
        )
    } else {
        seq![template[0]] + render_seq(template.drop_first(), vars)
    }
}

pub(crate) fn chars_of(s: &str) -> (r: Vec<char>)
    ensures
        r@ == s@,
{
    let mut v: Vec<char> = Vec::new();
    for c in it: s.chars()
        invariant
            it.seq() == s@,
            v@ == s@.subrange(0, it.index() as int),
    {
        v.push(c);
    }
    v
}

fn matches_at(s: &Vec<char>, i: usize, p: &Vec<char>) -> (r: bool)
    requires
        i + p@.len() <= s@.len(),
    ensures
        r == (s@.subrange(i as int, i + p@.len()) == p@),
{
    let sl = s.len();
    let mut j: usize = 0;
    while j < p.len()
        invariant
            sl == s@.len(),
            j <= p@.len(),
            i + p@.len() <= s@.len(),
            forall|k: int| 0 <= k < j ==> s@[i + k] == p@[k],
        decreases p@.len() - j,
    {
        if s[i + j] != p[j] {
            assert(s@.subrange(i as int, i + p@.len())[j as int] != p@[j as int]);
            return false;
        }
        j = j + 1;
    }
    assert(s@.subrange(i as int, i + p@.len()) =~= p@);
    true
}

/// The first binding whose placeholder stands at position `i` of `t`.
fn find_binding(t: &Vec<char>, i: usize, phs: &Vec<Vec<char>>) -> (r: Option<usize>)
    requires
        i <= t@.len(),
    ensures
        match r {
            Some(j) => j < phs@.len() && i + phs@[j as int]@.len() <= t@.len() && t@.subrange(
                i as int,
                i + phs@[j as int]@.len(),
            ) == phs@[j as int]@ && forall|k: int|
                0 <= k < j ==> !(i + phs@[k]@.len() <= t@.len() && #[trigger] t@.subrange(
                    i as int,
                    i + phs@[k]@.len(),
                ) == phs@[k]@),
            None => forall|k: int|
                0 <= k < phs@.len() ==> !(i + phs@[k]@.len() <= t@.len() && #[trigger] t@.subrange(
                    i as int,
                    i + phs@[k]@.len(),
                ) == phs@[k]@),
        },
{
    let n = t.len();
    let mut j: usize = 0;
    while j < phs.len()
        invariant
            n == t@.len(),
            i <= n,
            j <= phs@.len(),
            forall|k: int|
                0 <= k < j ==> !(i + phs@[k]@.len() <= t@.len() && #[trigger] t@.subrange(
                    i as int,
                    i + phs@[k]@.len(),
                ) == phs@[k]@),
        decreases phs@.len() - j,
    {
        let p = &phs[j];
        if p.len() <= n - i && matches_at(t, i, p) {
            return Some(j);
        }
        j = j + 1;
    }
    None
}

/// Build a script from a template by replacing `{{key}}` placeholders.
///
/// The template is read once from left to right; a key that occurs nowhere
/// changes nothing, and text that a value brings in is never replaced.
pub fn build_js(template: &str, vars: &[(&str, &str)]) -> (r: String)
    ensures
        r@ == render_seq(template@, bindings_view(vars@)),
{
    let ghost bv = bindings_view(vars@);
    let tv = chars_of(template);
    let n = tv.len();
    let mut phs: Vec<Vec<char>> = Vec::new();
    let mut j: usize = 0;
    while j < vars.len()
        invariant
            bv == bindings_view(vars@),
            j <= vars@.len(),
            phs@.len() == j,
            forall|k: int| 0 <= k < j ==> (#[trigger] phs@[k])@ == placeholder(bv[k].0),
        decreases vars@.len() - j,
    {
        let mut pat = String::from_str("{{");
        pat.append(vars[j].0);
        pat.append("}}");
        proof {
            reveal_strlit("{{");
            reveal_strlit("}}");
        }
        phs.push(chars_of(pat.as_str()));
        j = j + 1;
    }
    let mut out = String::new();
    let mut i: usize = 0;
    proof {
        assert(template@.subrange(0, n as int) == template@);
        assert(out@ + render_seq(template@, bv) == render_seq(template@, bv));
    }
    while i < n
        invariant
            bv == bindings_view(vars@),
            tv@ == template@,
            n == tv@.len(),
            i <= n,
            phs@.len() == vars@.len(),
            forall|k: int| 0 <= k < phs@.len() ==> (#[trigger] phs@[k])@ == placeholder(bv[k].0),
            out@ + render_seq(template@.subrange(i as int, n as int), bv) == render_seq(
                template@,
                bv,
            ),
        decreases n - i,
    {
        let ghost rest = template@.subrange(i as int, n as int);
        proof {
            assert forall|k: int| 0 <= k < bv.len() implies binding_at(rest, bv, k) == (i
                + phs@[k]@.len() <= tv@.len() && tv@.subrange(i as int, i + phs@[k]@.len())
                == phs@[k]@) by {
                let p = phs@[k]@;
                assert(p == placeholder(bv[k].0));
                if p.len() <= rest.len() {
                    assert(rest.subrange(0, p.len() as int) == tv@.subrange(i as int, i + p.len()));
                }
            }
        }
        match find_binding(&tv, i, &phs) {
            Some(j) => {
                let ghost plen = phs@[j as int]@.len();
                proof {
                    assert(binding_at(rest, bv, j as int));
                    assert forall|k: int| 0 <= k < j implies !#[trigger] binding_at(rest, bv, k) by {
                        assert(!(i + phs@[k]@.len() <= tv@.len() && tv@.subrange(
                            i as int,
                            i + phs@[k]@.len(),
                        ) == phs@[k]@));
                    }
                    assert(first_binding_at(rest, bv, j as int));
                    let c = choose|c: int| first_binding_at(rest, bv, c);
                    if c < j {
                        assert(!binding_at(rest, bv, c));
                    }
                    if j < c {
                        assert(!binding_at(rest, bv, j as int));
                    }
                    assert(c == j);
                    assert(plen == placeholder(bv[j as int].0).len());
                    assert(rest.subrange(plen as int, rest.len() as int) == template@.subrange(
                        i + plen,
                        n as int,
                    ));
                    assert(bv[j as int].1 == vars@[j as int].1@);
                }
                out.append(vars[j].1);
                i = i + phs[j].len();
            },
            None => {
                let c = tv[i];
                proof {
                    assert forall|k: int| !first_binding_at(rest, bv, k) by {
                        if 0 <= k < bv.len() {
                            assert(!binding_at(rest, bv, k));
                        }
                    }
                    assert(rest.drop_first() == template@.subrange(i + 1, n as int));
                    assert(rest[0] == c);
                }
                push_char(&mut out, c);
                i = i + 1;
            },
        }
    }
    proof {
        assert(template@.subrange(n as int, n as int).len() == 0);
        assert(out@ + Seq::<char>::empty() == out@);
    }
    out
}

/// The character of a decimal digit.
pub open spec fn digit_char(d: int) -> char {
    seq!['0', '1', '2', '3', '4', '5', '6', '7', '8', '9'][d]
}

/// The decimal numeral of `n`, without leading zeros.
pub open spec fn decimal_seq(n: nat) -> Seq<char>
    decreases n,
{
    if n < 10 {
        seq![digit_char(n as int)]
    } else {
        decimal_seq(n / 10).push(digit_char((n % 10) as int))
    }
}

fn digit(d: u64) -> (c: char)
    requires
        d < 10,
    ensures
        c == digit_char(d as int),
{
    if d == 0 {
        '0'
    } else if d == 1 {
        '1'
    } else if d == 2 {
        '2'
    } else if d == 3 {
        '3'
    } else if d == 4 {
        '4'
    } else if d == 5 {
        '5'
    } else if d == 6 {
        '6'
    } else if d == 7 {
        '7'
    } else if d == 8 {
        '8'
    } else {
        '9'
    }
}

/// The decimal numeral of `n`.
pub fn decimal_string(n: u64) -> (r: String)
    ensures
        r@ == decimal_seq(n as nat),
    decreases n,
{
    if n < 10 {
        let mut s = String::new();
        push_char(&mut s, digit(n));
        s
    } else {
        let mut s = decimal_string(n / 10);
        push_char(&mut s, digit(n % 10));
        s
    }
}

} // verus!
