use vstd::prelude::*;

use crate::text::{chars_of, owned, range_equals, same_text, string_from_range};

verus! {

/// Index of the last `/` in `p`, or -1 when there is none.
pub open spec fn last_slash(p: Seq<char>) -> int
    decreases p.len(),
{
    if p.len() == 0 {
        -1
    } else if p.last() == '/' {
        p.len() - 1
    } else {
        last_slash(p.drop_last())
    }
}

/// Index of the last `.` in `p`, or -1 when there is none.
pub open spec fn last_dot(p: Seq<char>) -> int
    decreases p.len(),
{
    if p.len() == 0 {
        -1
    } else if p.last() == '.' {
        p.len() - 1
    } else {
        last_dot(p.drop_last())
    }
}

/// The final name of a `/`-separated path, read the way a path's components are:
/// empty components and `.` components are skipped, and a path whose last remaining
/// component is `..` (or that has none) has no file name.
pub open spec fn file_name_spec(p: Seq<char>) -> Option<Seq<char>>
    decreases p.len(),
{
    proof {
        lemma_last_slash_bounds(p);
    }
    let i = last_slash(p);
    let seg = p.subrange(i + 1, p.len() as int);
    if seg.len() == 0 || seg == seq!['.'] {
        if i < 0 {
            None
        } else {
            file_name_spec(p.take(i))
        }
    } else if seg == seq!['.', '.'] {
        None
    } else {
        Some(seg)
    }
}

/// The named parts of a `/`-separated path, in order: the pieces between separators,
/// leaving out empty pieces and `.` pieces.
pub open spec fn path_segments(p: Seq<char>) -> Seq<Seq<char>>
    decreases p.len(),
{
    proof {
        lemma_last_slash_bounds(p);
    }
    let i = last_slash(p);
    let seg = p.subrange(i + 1, p.len() as int);
    let rest = if i < 0 {
        Seq::<Seq<char>>::empty()
    } else {
        path_segments(p.take(i))
    };
    if seg.len() == 0 || seg == seq!['.'] {
        rest
    } else {
        rest.push(seg)
    }
}

/// The components of a `/`-separated path, the way `Path::components` reads them: a
/// leading `/` gives the root (written `/`), a relative path that starts with a `.` piece
/// gives the current directory (written `.`), and the named parts follow. Two paths name
/// the same file for `Path`'s `==` exactly when their components are equal.
pub open spec fn path_components(p: Seq<char>) -> Seq<Seq<char>> {
    let lead = if p.len() > 0 && p[0] == '/' {
        seq![seq!['/']]
    } else if p.len() > 0 && p[0] == '.' && (p.len() == 1 || p[1] == '/') {
        seq![seq!['.']]
    } else {
        Seq::<Seq<char>>::empty()
    };
    lead + path_segments(p)
}

/// Whether two paths are equal component by component.
pub open spec fn same_path_spec(a: Seq<char>, b: Seq<char>) -> bool {
    path_components(a) == path_components(b)
}

/// Whether `a` comes before `b` character by character, by code point; a proper prefix
/// comes first. For UTF-8 text this is the order of the bytes.
pub open spec fn chars_lt(a: Seq<char>, b: Seq<char>) -> bool
    decreases a.len(),
{
    if b.len() == 0 {
        false
    } else if a.len() == 0 {
        true
    } else if a[0] != b[0] {
        (a[0] as int) < (b[0] as int)
    } else {
        chars_lt(a.drop_first(), b.drop_first())
    }
}

/// The kind of a path component, in the order `Path` sorts kinds: the root, the current
/// directory, the parent directory, then named parts.
pub open spec fn component_rank(c: Seq<char>) -> int {
    if c == seq!['/'] {
        0
    } else if c == seq!['.'] {
        1
    } else if c == seq!['.', '.'] {
        2
    } else {
        3
    }
}

/// Whether component `a` sorts before component `b`: by kind, then named parts by text.
pub open spec fn component_lt(a: Seq<char>, b: Seq<char>) -> bool {
    component_rank(a) < component_rank(b) || (component_rank(a) == component_rank(b)
        && chars_lt(a, b))
}

/// Whether the component list `a` sorts before `b`: the first differing component
/// decides, and a proper prefix comes first.
pub open spec fn components_lt(a: Seq<Seq<char>>, b: Seq<Seq<char>>) -> bool
    decreases a.len(),
{
    if b.len() == 0 {
        false
    } else if a.len() == 0 {
        true
    } else if a[0] != b[0] {
        component_lt(a[0], b[0])
    } else {
        components_lt(a.drop_first(), b.drop_first())
    }
}

/// Whether path `a` sorts before path `b` the way `Path`'s `<` orders them: by their
/// components.
pub open spec fn path_lt(a: Seq<char>, b: Seq<char>) -> bool {
    components_lt(path_components(a), path_components(b))
}

/// `p` put into the list `r`: nothing changes when the list holds a path equal to `p`
/// before reaching one that `p` sorts before; otherwise `p` goes in front of the first
/// such path, or at the end.
pub open spec fn insert_path_spec(r: Seq<Seq<char>>, p: Seq<char>) -> Seq<Seq<char>>
    decreases r.len(),
{
    if r.len() == 0 {
        seq![p]
    } else if same_path_spec(r[0], p) {
        r
    } else if path_lt(p, r[0]) {
        seq![p] + r
    } else {
        seq![r[0]] + insert_path_spec(r.drop_first(), p)
    }
}

/// The extension of a file name: what follows its last `.`, unless the name has no
/// `.` or its only leading `.` marks a hidden file.
pub open spec fn extension_of_name(name: Seq<char>) -> Option<Seq<char>> {
    let d = last_dot(name);
    if d <= 0 {
        None
    } else {
        Some(name.subrange(d + 1, name.len() as int))
    }
}

/// The extension of a path's file name.
pub open spec fn extension_spec(p: Seq<char>) -> Option<Seq<char>> {
    match file_name_spec(p) {
        Some(name) => extension_of_name(name),
        None => None,
    }
}

pub proof fn lemma_last_slash_bounds(p: Seq<char>)
    ensures
        -1 <= last_slash(p) < p.len(),
        last_slash(p) >= 0 ==> p[last_slash(p)] == '/',
        forall|k: int| last_slash(p) < k < p.len() ==> p[k] != '/',
    decreases p.len(),
{
    if p.len() > 0 && p.last() != '/' {
        lemma_last_slash_bounds(p.drop_last());
        assert forall|k: int| last_slash(p) < k < p.len() implies p[k] != '/' by {
            if k < p.len() - 1 {
                assert(p.drop_last()[k] == p[k]);
            }
        }
    }
}

proof fn lemma_last_slash_at(p: Seq<char>, j: int)
    requires
        0 <= j <= p.len(),
        j > 0 ==> p[j - 1] == '/',
        forall|k: int| j <= k < p.len() ==> p[k] != '/',
    ensures
        last_slash(p) == j - 1,
    decreases p.len(),
{
    if p.len() > 0 && j < p.len() {
        lemma_last_slash_at(p.drop_last(), j);
    }
}

proof fn lemma_last_dot_at(p: Seq<char>, j: int)
    requires
        0 <= j <= p.len(),
        j > 0 ==> p[j - 1] == '.',
        forall|k: int| j <= k < p.len() ==> p[k] != '.',
    ensures
        last_dot(p) == j - 1,
    decreases p.len(),
{
    if p.len() > 0 && j < p.len() {
        lemma_last_dot_at(p.drop_last(), j);
    }
}

/// Start and end (within `chars`) of the file name of `chars`, if it has one.
fn file_name_range(chars: &Vec<char>) -> (r: Option<(usize, usize)>)
    ensures
        match r {
            Some((a, b)) => a <= b <= chars@.len() && file_name_spec(chars@) == Some(
                chars@.subrange(a as int, b as int),
            ),
            None => file_name_spec(chars@) is None,
        },
{
    let mut end = chars.len();
    assert(chars@.take(end as int) =~= chars@);
    loop
        invariant
            end <= chars@.len(),
            file_name_spec(chars@) == file_name_spec(chars@.take(end as int)),
        decreases end,
    {
        let ghost p = chars@.take(end as int);
        proof {
            reveal_strlit(".");
            reveal_strlit("..");
            assert("."@ =~= seq!['.']);
            assert(".."@ =~= seq!['.', '.']);
        }
        let mut j = end;
        while j > 0 && chars[j - 1] != '/'
            invariant
                j <= end <= chars@.len(),
                forall|k: int| j <= k < end ==> chars@[k] != '/',
            decreases j,
        {
            j = j - 1;
        }
        proof {
            lemma_last_slash_at(p, j as int);
            assert(p.subrange(j as int, end as int) == chars@.subrange(j as int, end as int));
        }
        let empty_or_dot = j == end || range_equals(chars, j, end, ".");
        let ghost seg = p.subrange(j as int, end as int);
        assert(p.len() == end);
        assert(empty_or_dot == (seg.len() == 0 || seg == seq!['.']));
        if empty_or_dot {
            if j == 0 {
                assert(file_name_spec(p) is None);
                return None;
            }
            proof {
                assert(p.take(j - 1) == chars@.take(j - 1));
            }
            end = j - 1;
        } else if range_equals(chars, j, end, "..") {
            assert(seg == seq!['.', '.']);
            assert(file_name_spec(p) is None);
            return None;
        } else {
            return Some((j, end));
        }
    }
}

/// The file name of a `/`-separated path, as `Path::file_name` reads it.
pub fn file_name(path: &str) -> (r: Option<String>)
    ensures
        match r {
            Some(s) => file_name_spec(path@) == Some(s@),
            None => file_name_spec(path@) is None,
        },
{
    let chars = chars_of(path);
    match file_name_range(&chars) {
        Some((a, b)) => Some(string_from_range(&chars, a, b)),
        None => None,
    }
}

/// The extension of a path's file name, as `Path::extension` reads it.
pub fn extension(path: &str) -> (r: Option<String>)
    ensures
        match r {
            Some(s) => extension_spec(path@) == Some(s@),
            None => extension_spec(path@) is None,
        },
{
    let chars = chars_of(path);
    match file_name_range(&chars) {
        None => None,
        Some((a, b)) => {
            let ghost name = chars@.subrange(a as int, b as int);
            let mut j = b;
            while j > a && chars[j - 1] != '.'
                invariant
                    a <= j <= b <= chars@.len(),
                    forall|k: int| j <= k < b ==> chars@[k] != '.',
                decreases j,
            {
                j = j - 1;
            }
            proof {
                lemma_last_dot_at(name, j - a);
            }
            if j - a <= 1 {
                None
            } else {
                proof {
                    assert(name.subrange(j - a, name.len() as int) == chars@.subrange(j as int, b as int));
                }
                Some(string_from_range(&chars, j, b))
            }
        }
    }
}

proof fn lemma_segments_last(q: Seq<char>, start: int)
    requires
        0 <= start <= q.len(),
        start > 0 ==> q[start - 1] == '/',
        forall|k: int| start <= k < q.len() ==> q[k] != '/',
    ensures
        path_segments(q) == ({
            let rest = if start == 0 {
                Seq::<Seq<char>>::empty()
            } else {
                path_segments(q.take(start - 1))
            };
            let seg = q.subrange(start, q.len() as int);
            if seg.len() == 0 || seg == seq!['.'] {
                rest
            } else {
                rest.push(seg)
            }
        }),
{
    lemma_last_slash_at(q, start);
}

/// The named parts of the path held in `chars`.
fn segment_list(chars: &Vec<char>) -> (v: Vec<String>)
    ensures
        v@.map_values(|s: String| s@) == path_segments(chars@),
{
    proof {
        reveal_strlit(".");
        assert("."@ =~= seq!['.']);
    }
    let n = chars.len();
    let mut out: Vec<String> = Vec::new();
    let mut start: usize = 0;
    let mut j: usize = 0;
    while j < n
        invariant
            n == chars@.len(),
            "."@ == seq!['.'],
            start <= j <= n,
            start > 0 ==> chars@[start - 1] == '/',
            forall|k: int| start <= k < j ==> chars@[k] != '/',
            out@.map_values(|s: String| s@) == (if start == 0 {
                Seq::<Seq<char>>::empty()
            } else {
                path_segments(chars@.take(start - 1))
            }),
        decreases n - j,
    {
        if chars[j] == '/' {
            let ghost q = chars@.take(j as int);
            let ghost before = out@.map_values(|s: String| s@);
            proof {
                lemma_segments_last(q, start as int);
                if start > 0 {
                    assert(q.take(start - 1) == chars@.take(start - 1));
                }
                assert(q.subrange(start as int, j as int) == chars@.subrange(start as int, j as int));
            }
            if !(j == start || range_equals(chars, start, j, ".")) {
                let seg = string_from_range(chars, start, j);
                out.push(seg);
                assert(out@.map_values(|s: String| s@) =~= before.push(
                    chars@.subrange(start as int, j as int),
                ));
            }
            start = j + 1;
        }
        j = j + 1;
    }
    let ghost before = out@.map_values(|s: String| s@);
    proof {
        lemma_segments_last(chars@, start as int);
    }
    if !(n == start || range_equals(chars, start, n, ".")) {
        let seg = string_from_range(chars, start, n);
        out.push(seg);
        assert(out@.map_values(|s: String| s@) =~= before.push(chars@.subrange(start as int, n as int)));
    }
    out
}

/// The components of `path`, as `path_components` reads them.
pub fn path_component_list(path: &str) -> (v: Vec<String>)
    ensures
        v@.map_values(|s: String| s@) == path_components(path@),
{
    let chars = chars_of(path);
    let n = chars.len();
    let mut v: Vec<String> = Vec::new();
    if n > 0 && chars[0] == '/' {
        v.push(owned("/"));
    } else if n > 0 && chars[0] == '.' && (n == 1 || chars[1] == '/') {
        v.push(owned("."));
    }
    proof {
        reveal_strlit("/");
        reveal_strlit(".");
        assert("/"@ =~= seq!['/']);
        assert("."@ =~= seq!['.']);
    }
    let ghost lead = v@.map_values(|s: String| s@);
    let mut segs = segment_list(&chars);
    let ghost sv = segs@;
    v.append(&mut segs);
    assert(v@.map_values(|s: String| s@) =~= lead + sv.map_values(|s: String| s@));
    v
}

/// Whether two paths are equal component by component, as `Path`'s `==` compares them.
pub fn same_path(a: &str, b: &str) -> (r: bool)
    ensures
        r == same_path_spec(a@, b@),
{
    let va = path_component_list(a);
    let vb = path_component_list(b);
    let ghost ma = va@.map_values(|s: String| s@);
    let ghost mb = vb@.map_values(|s: String| s@);
    if va.len() != vb.len() {
        assert(ma.len() != mb.len());
        return false;
    }
    let mut i: usize = 0;
    while i < va.len()
        invariant
            va.len() == vb.len(),
            i <= va.len(),
            ma == va@.map_values(|s: String| s@),
            mb == vb@.map_values(|s: String| s@),
            ma == path_components(a@),
            mb == path_components(b@),
            forall|k: int| 0 <= k < i ==> ma[k] == mb[k],
        decreases va.len() - i,
    {
        if !same_text(va[i].as_str(), vb[i].as_str()) {
            assert(ma[i as int] != mb[i as int]);
            return false;
        }
        i = i + 1;
    }
    assert(ma =~= mb);
    true
}

proof fn lemma_chars_lt_skip(a: Seq<char>, b: Seq<char>, i: int)
    requires
        0 <= i <= a.len(),
        i <= b.len(),
        forall|k: int| 0 <= k < i ==> a[k] == b[k],
    ensures
        chars_lt(a, b) == chars_lt(a.skip(i), b.skip(i)),
    decreases i,
{
    if i == 0 {
        assert(a.skip(0) =~= a);
        assert(b.skip(0) =~= b);
    } else {
        assert(a[0] == b[0]);
        assert forall|k: int| 0 <= k < i - 1 implies a.drop_first()[k] == b.drop_first()[k] by {
            assert(a[k + 1] == b[k + 1]);
        }
        lemma_chars_lt_skip(a.drop_first(), b.drop_first(), i - 1);
        assert(a.drop_first().skip(i - 1) =~= a.skip(i));
        assert(b.drop_first().skip(i - 1) =~= b.skip(i));
    }
}

proof fn lemma_components_lt_skip(a: Seq<Seq<char>>, b: Seq<Seq<char>>, i: int)
    requires
        0 <= i <= a.len(),
        i <= b.len(),
        forall|k: int| 0 <= k < i ==> a[k] == b[k],
    ensures
        components_lt(a, b) == components_lt(a.skip(i), b.skip(i)),
    decreases i,
{
    if i == 0 {
        assert(a.skip(0) =~= a);
        assert(b.skip(0) =~= b);
    } else {
        assert(a[0] == b[0]);
        assert forall|k: int| 0 <= k < i - 1 implies a.drop_first()[k] == b.drop_first()[k] by {
            assert(a[k + 1] == b[k + 1]);
        }
        lemma_components_lt_skip(a.drop_first(), b.drop_first(), i - 1);
        assert(a.drop_first().skip(i - 1) =~= a.skip(i));
        assert(b.drop_first().skip(i - 1) =~= b.skip(i));
    }
}

/// Whether `a` comes before `b` character by character.
fn chars_less(a: &Vec<char>, b: &Vec<char>) -> (r: bool)
    ensures
        r == chars_lt(a@, b@),
{
    let mut i: usize = 0;
    while i < a.len() && i < b.len() && a[i] == b[i]
        invariant
            i <= a@.len(),
            i <= b@.len(),
            forall|k: int| 0 <= k < i ==> a@[k] == b@[k],
        decreases a.len() - i,
    {
        i = i + 1;
    }
    proof {
        lemma_chars_lt_skip(a@, b@, i as int);
    }
    if i == b.len() {
        false
    } else if i == a.len() {
        true
    } else {
        a[i] < b[i]
    }
}

/// The kind of component `c`, as `component_rank` orders kinds.
fn component_kind(c: &str) -> (r: u8)
    ensures
        r as int == component_rank(c@),
{
    proof {
        reveal_strlit("/");
        reveal_strlit(".");
        reveal_strlit("..");
        assert("/"@ =~= seq!['/']);
        assert("."@ =~= seq!['.']);
        assert(".."@ =~= seq!['.', '.']);
    }
    if same_text(c, "/") {
        0
    } else if same_text(c, ".") {
        1
    } else if same_text(c, "..") {
        2
    } else {
        3
    }
}

/// Whether component `a` sorts before component `b`.
fn component_less(a: &str, b: &str) -> (r: bool)
    ensures
        r == component_lt(a@, b@),
{
    let ka = component_kind(a);
    let kb = component_kind(b);
    if ka != kb {
        ka < kb
    } else {
        chars_less(&chars_of(a), &chars_of(b))
    }
}

/// Whether path `a` sorts before path `b`, as `Path`'s `<` orders them.
pub fn path_less(a: &str, b: &str) -> (r: bool)
    ensures
        r == path_lt(a@, b@),
{
    let va = path_component_list(a);
    let vb = path_component_list(b);
    let ghost ma = va@.map_values(|s: String| s@);
    let ghost mb = vb@.map_values(|s: String| s@);
    let mut i: usize = 0;
    while i < va.len() && i < vb.len() && same_text(va[i].as_str(), vb[i].as_str())
        invariant
            i <= va@.len(),
            i <= vb@.len(),
            ma == va@.map_values(|s: String| s@),
            mb == vb@.map_values(|s: String| s@),
            forall|k: int| 0 <= k < i ==> ma[k] == mb[k],
        decreases va.len() - i,
    {
        i = i + 1;
    }
    proof {
        lemma_components_lt_skip(ma, mb, i as int);
    }
    if i == vb.len() {
        false
    } else if i == va.len() {
        true
    } else {
        component_less(va[i].as_str(), vb[i].as_str())
    }
}

proof fn lemma_insert_skip(r: Seq<Seq<char>>, p: Seq<char>, i: int)
    requires
        0 <= i <= r.len(),
        forall|k: int| 0 <= k < i ==> !same_path_spec(r[k], p) && !path_lt(p, r[k]),
    ensures
        insert_path_spec(r, p) == r.take(i) + insert_path_spec(r.skip(i), p),
    decreases i,
{
    if i == 0 {
        assert(r.skip(0) =~= r);
        assert(r.take(0) + insert_path_spec(r, p) =~= insert_path_spec(r, p));
    } else {
        assert(!same_path_spec(r[0], p) && !path_lt(p, r[0]));
        assert forall|k: int| 0 <= k < i - 1 implies !same_path_spec(r.drop_first()[k], p) && !path_lt(
            p,
            r.drop_first()[k],
        ) by {
            assert(r.drop_first()[k] == r[k + 1]);
        }
        lemma_insert_skip(r.drop_first(), p, i - 1);
        assert(r.drop_first().skip(i - 1) =~= r.skip(i));
        assert(seq![r[0]] + r.drop_first().take(i - 1) =~= r.take(i));
    }
}

/// Puts path `p` into the list `v` as `insert_path_spec` says.
pub fn insert_path(v: &mut Vec<String>, p: String)
    ensures
        final(v)@.map_values(|s: String| s@) == insert_path_spec(
            old(v)@.map_values(|s: String| s@),
            p@,
        ),
{
    let ghost v0 = v@;
    let ghost m = v@.map_values(|s: String| s@);
    let mut i: usize = 0;
    while i < v.len()
        invariant
            v@ == v0,
            v0 == old(v)@,
            m == v0.map_values(|s: String| s@),
            i <= v@.len(),
            forall|k: int| 0 <= k < i ==> !same_path_spec(m[k], p@) && !path_lt(p@, m[k]),
        decreases v.len() - i,
    {
        if same_path(v[i].as_str(), p.as_str()) {
            proof {
                lemma_insert_skip(m, p@, i as int);
                assert(m.skip(i as int)[0] == m[i as int]);
                assert(m.take(i as int) + m.skip(i as int) =~= m);
            }
            return;
        }
        if path_less(p.as_str(), v[i].as_str()) {
            proof {
                lemma_insert_skip(m, p@, i as int);
                assert(m.skip(i as int)[0] == m[i as int]);
            }
            let ghost pv = p@;
            v.insert(i, p);
            assert(v@.map_values(|s: String| s@) =~= m.take(i as int) + (seq![pv] + m.skip(
                i as int,
            )));
            return;
        }
        i = i + 1;
    }
    proof {
        lemma_insert_skip(m, p@, i as int);
        assert(m.take(i as int) =~= m);
    }
    let ghost pv = p@;
    v.push(p);
    assert(v@.map_values(|s: String| s@) =~= m + seq![pv]);
}

proof fn lemma_chars_lt_order(a: Seq<char>, b: Seq<char>, c: Seq<char>)
    ensures
        !chars_lt(a, a),
        chars_lt(a, b) && chars_lt(b, c) ==> chars_lt(a, c),
        a != b ==> chars_lt(a, b) || chars_lt(b, a),
    decreases a.len(),
{
    if a.len() > 0 {
        lemma_chars_lt_order(a.drop_first(), a.drop_first(), a.drop_first());
        if b.len() > 0 {
            if c.len() > 0 {
                lemma_chars_lt_order(a.drop_first(), b.drop_first(), c.drop_first());
            }
            lemma_chars_lt_order(a.drop_first(), b.drop_first(), b.drop_first());
            if a != b && a[0] == b[0] {
                if a.drop_first() == b.drop_first() {
                    assert(a =~= seq![a[0]] + a.drop_first());
                    assert(b =~= seq![b[0]] + b.drop_first());
                }
            }
        }
    } else if b.len() == 0 {
        assert(a =~= b);
    }
}

proof fn lemma_component_lt_order(a: Seq<char>, b: Seq<char>, c: Seq<char>)
    ensures
        !component_lt(a, a),
        component_lt(a, b) && component_lt(b, c) ==> component_lt(a, c),
        a != b ==> component_lt(a, b) || component_lt(b, a),
{
    lemma_chars_lt_order(a, b, c);
}

proof fn lemma_components_lt_order(a: Seq<Seq<char>>, b: Seq<Seq<char>>, c: Seq<Seq<char>>)
    ensures
        !components_lt(a, a),
        components_lt(a, b) && components_lt(b, c) ==> components_lt(a, c),
        a != b ==> components_lt(a, b) || components_lt(b, a),
    decreases a.len(),
{
    if a.len() > 0 {
        lemma_components_lt_order(a.drop_first(), a.drop_first(), a.drop_first());
        if b.len() > 0 {
            lemma_component_lt_order(a[0], b[0], if c.len() > 0 { c[0] } else { b[0] });
            if c.len() > 0 {
                lemma_components_lt_order(a.drop_first(), b.drop_first(), c.drop_first());
            }
            lemma_components_lt_order(a.drop_first(), b.drop_first(), b.drop_first());
            if a != b && a[0] == b[0] {
                if a.drop_first() == b.drop_first() {
                    assert(a =~= seq![a[0]] + a.drop_first());
                    assert(b =~= seq![b[0]] + b.drop_first());
                }
            }
        }
    } else if b.len() == 0 {
        assert(a =~= b);
    }
}

/// Paths are ordered strictly: no path sorts before one equal to it, the order is
/// transitive, and of two paths that are not equal one sorts before the other.
pub proof fn lemma_path_lt_order(a: Seq<char>, b: Seq<char>, c: Seq<char>)
    ensures
        same_path_spec(a, b) ==> !path_lt(a, b),
        path_lt(a, b) && path_lt(b, c) ==> path_lt(a, c),
        !same_path_spec(a, b) ==> path_lt(a, b) || path_lt(b, a),
        path_lt(a, b) ==> !path_lt(b, a),
{
    lemma_components_lt_order(path_components(a), path_components(b), path_components(c));
    lemma_components_lt_order(path_components(a), path_components(b), path_components(a));
    lemma_components_lt_order(path_components(a), path_components(a), path_components(a));
}

/// Whether every path in `r` sorts before every later one.
pub open spec fn strictly_sorted(r: Seq<Seq<char>>) -> bool {
    forall|i: int, j: int| 0 <= i < j < r.len() ==> path_lt(#[trigger] r[i], #[trigger] r[j])
}

/// Putting a path into a sorted list keeps it sorted, keeps every path it held, adds
/// nothing but that path, and leaves the list holding a path equal to it.
pub proof fn lemma_insert_path_sorted(r: Seq<Seq<char>>, p: Seq<char>)
    requires
        strictly_sorted(r),
    ensures
        strictly_sorted(insert_path_spec(r, p)),
        forall|k: int|
            0 <= k < insert_path_spec(r, p).len() ==> #[trigger] insert_path_spec(r, p)[k] == p
                || r.contains(insert_path_spec(r, p)[k]),
        forall|k: int| 0 <= k < r.len() ==> insert_path_spec(r, p).contains(#[trigger] r[k]),
        insert_path_spec(r, p).contains(p) || (exists|k: int|
            0 <= k < r.len() && same_path_spec(#[trigger] r[k], p)),
    decreases r.len(),
{
    let t = insert_path_spec(r, p);
    if r.len() == 0 {
        assert(t[0] == p);
    } else if same_path_spec(r[0], p) {
        assert forall|k: int| 0 <= k < r.len() implies t.contains(#[trigger] r[k]) by {
            assert(t[k] == r[k]);
        }
        assert forall|k: int| 0 <= k < t.len() implies #[trigger] t[k] == p || r.contains(t[k]) by {
            assert(r[k] == t[k]);
        }
    } else if path_lt(p, r[0]) {
        assert forall|i: int, j: int| 0 <= i < j < t.len() implies path_lt(#[trigger] t[i], #[trigger] t[j]) by {
            if i == 0 {
                assert(t[j] == r[j - 1]);
                if j > 1 {
                    assert(path_lt(r[0], r[j - 1]));
                    lemma_path_lt_order(p, r[0], r[j - 1]);
                }
            } else {
                assert(t[i] == r[i - 1] && t[j] == r[j - 1]);
            }
        }
        assert forall|k: int| 0 <= k < r.len() implies t.contains(#[trigger] r[k]) by {
            assert(t[k + 1] == r[k]);
        }
        assert forall|k: int| 0 <= k < t.len() implies #[trigger] t[k] == p || r.contains(t[k]) by {
            if k > 0 {
                assert(t[k] == r[k - 1]);
            }
        }
        assert(t[0] == p);
    } else {
        let rest = r.drop_first();
        assert forall|i: int, j: int| 0 <= i < j < rest.len() implies path_lt(#[trigger] rest[i], #[trigger] rest[j]) by {
            assert(rest[i] == r[i + 1] && rest[j] == r[j + 1]);
        }
        lemma_insert_path_sorted(rest, p);
        let u = insert_path_spec(rest, p);
        assert(t == seq![r[0]] + u);
        lemma_path_lt_order(r[0], p, p);
        assert(path_lt(r[0], p));
        assert forall|k: int| 0 <= k < u.len() implies path_lt(r[0], #[trigger] u[k]) by {
            if u[k] != p {
                assert(rest.contains(u[k]));
                let m = choose|m: int| 0 <= m < rest.len() && rest[m] == u[k];
                assert(r[m + 1] == rest[m]);
            }
        }
        assert forall|i: int, j: int| 0 <= i < j < t.len() implies path_lt(#[trigger] t[i], #[trigger] t[j]) by {
            assert(t[j] == u[j - 1]);
            if i > 0 {
                assert(t[i] == u[i - 1]);
            }
        }
        assert forall|k: int| 0 <= k < r.len() implies t.contains(#[trigger] r[k]) by {
            if k == 0 {
                assert(t[0] == r[0]);
            } else {
                assert(rest[k - 1] == r[k]);
                assert(u.contains(rest[k - 1]));
                let m = choose|m: int| 0 <= m < u.len() && u[m] == rest[k - 1];
                assert(t[m + 1] == u[m]);
            }
        }
        assert forall|k: int| 0 <= k < t.len() implies #[trigger] t[k] == p || r.contains(t[k]) by {
            if k == 0 {
                assert(r[0] == t[0]);
            } else {
                assert(t[k] == u[k - 1]);
                if u[k - 1] != p {
                    assert(rest.contains(u[k - 1]));
                    let m = choose|m: int| 0 <= m < rest.len() && rest[m] == u[k - 1];
                    assert(r[m + 1] == rest[m]);
                }
            }
        }
        if u.contains(p) {
            let m = choose|m: int| 0 <= m < u.len() && u[m] == p;
            assert(t[m + 1] == u[m]);
        } else {
            let m = choose|m: int| 0 <= m < rest.len() && same_path_spec(#[trigger] rest[m], p);
            assert(r[m + 1] == rest[m]);
        }
    }
}

} // verus!
