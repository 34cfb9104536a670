//! Path validation and sanitisation: normalisation of client-supplied paths,
//! depth limits, rejection of dangerous components, resolution against the
//! current virtual directory, and the mapping to real paths under the server
//! root.
use crate::text::{chars_eq, chars_of, slice_range, trim, trim_chars, contains_char, decimal, decimal_chars, extend_chars, string_from_chars};
use vstd::prelude::*;

verus! {

/// The default limit on subdirectory depth (0 = root, 1 = one level deep,
/// ...); the limit in force is the configured `max_directory_depth`.
pub const MAX_DIRECTORY_DEPTH: usize = 3;

/// Whether `c` separates path components: `/` always, and `\` too when
/// `backslash` is set.
pub open spec fn is_sep(c: char, backslash: bool) -> bool {
    c == '/' || (backslash && c == '\\')
}

/// The non-empty components of `s` that follow the partial component `cur`,
/// splitting at separators.
pub open spec fn segments_from(s: Seq<char>, cur: Seq<char>, backslash: bool) -> Seq<Seq<char>>
    decreases s.len(),
{
    if s.len() == 0 {
        if cur.len() > 0 {
            seq![cur]
        } else {
            Seq::empty()
        }
    } else if is_sep(s[0], backslash) {
        (if cur.len() > 0 {
            seq![cur]
        } else {
            Seq::<Seq<char>>::empty()
        }) + segments_from(s.drop_first(), Seq::empty(), backslash)
    } else {
        segments_from(s.drop_first(), cur.push(s[0]), backslash)
    }
}

/// The non-empty components of `s`, in order: `s` split at every separator,
/// with empty pieces dropped.
pub open spec fn segments(s: Seq<char>, backslash: bool) -> Seq<Seq<char>> {
    segments_from(s, Seq::empty(), backslash)
}

/// The components joined with `/` between consecutive ones.
pub open spec fn join_slash(parts: Seq<Seq<char>>) -> Seq<char>
    decreases parts.len(),
{
    if parts.len() == 0 {
        Seq::empty()
    } else if parts.len() == 1 {
        parts[0]
    } else {
        parts[0] + seq!['/'] + join_slash(parts.drop_first())
    }
}

/// Every component is non-empty and holds no separator.
pub open spec fn clean_parts(parts: Seq<Seq<char>>, backslash: bool) -> bool {
    &&& forall|i: int| 0 <= i < parts.len() ==> (#[trigger] parts[i]).len() > 0
    &&& forall|i: int, j: int|
        0 <= i < parts.len() && 0 <= j < parts[i].len() ==> !is_sep(
            #[trigger] parts[i][j],
            backslash,
        )
}

/// The character sequences held by a vector of character vectors.
pub open spec fn char_seqs(v: Seq<Vec<char>>) -> Seq<Seq<char>> {
    v.map_values(|x: Vec<char>| x@)
}

/// The normal form of a client path: `\` read as `/`, runs of separators
/// collapsed, leading and trailing separators dropped, and a single leading
/// `/` kept for absolute paths. The empty path is `/`.
pub open spec fn normalize_spec(p: Seq<char>) -> Seq<char> {
    if p.len() == 0 {
        seq!['/']
    } else if is_sep(p[0], true) {
        seq!['/'] + join_slash(segments(p, true))
    } else {
        join_slash(segments(p, true))
    }
}

proof fn lemma_join_push(parts: Seq<Seq<char>>, x: Seq<char>)
    ensures
        join_slash(parts.push(x)) == if parts.len() == 0 {
            x
        } else {
            join_slash(parts) + seq!['/'] + x
        },
    decreases parts.len(),
{
    if parts.len() == 0 {
        assert(parts.push(x) =~= seq![x]);
    } else if parts.len() == 1 {
        assert(parts.push(x).drop_first() =~= seq![x]);
        assert(join_slash(seq![x]) == x);
        assert(parts.push(x)[0] == parts[0]);
    } else {
        assert(parts.push(x).drop_first() =~= parts.drop_first().push(x));
        lemma_join_push(parts.drop_first(), x);
        assert(parts.push(x)[0] == parts[0]);
        assert(join_slash(parts.push(x)) == parts[0] + seq!['/'] + join_slash(parts.drop_first().push(x)));
        assert(join_slash(parts.push(x)) =~= join_slash(parts) + seq!['/'] + x);
    }
}

/// Splitting a separator-free prefix just extends the partial component.
proof fn lemma_segments_plain_prefix(a: Seq<char>, b: Seq<char>, cur: Seq<char>, backslash: bool)
    requires
        forall|j: int| 0 <= j < a.len() ==> !is_sep(#[trigger] a[j], backslash),
    ensures
        segments_from(a + b, cur, backslash) == segments_from(b, cur + a, backslash),
    decreases a.len(),
{
    if a.len() == 0 {
        assert(a + b =~= b);
        assert(cur + a =~= cur);
    } else {
        assert((a + b).drop_first() =~= a.drop_first() + b);
        assert((a + b)[0] == a[0]);
        lemma_segments_plain_prefix(a.drop_first(), b, cur.push(a[0]), backslash);
        assert(cur.push(a[0]) + a.drop_first() =~= cur + a);
    }
}

/// Splitting the join of clean components gives them back.
pub proof fn lemma_segments_of_join(parts: Seq<Seq<char>>, backslash: bool)
    requires
        clean_parts(parts, backslash),
    ensures
        segments(join_slash(parts), backslash) == parts,
    decreases parts.len(),
{
    let e = Seq::<char>::empty();
    if parts.len() == 0 {
        assert(segments(join_slash(parts), backslash) =~= parts);
    } else {
        let p0 = parts[0];
        assert forall|j: int| 0 <= j < p0.len() implies !is_sep(#[trigger] p0[j], backslash) by {
            assert(parts[0][j] == p0[j]);
        }
        assert(p0.len() > 0);
        if parts.len() == 1 {
            lemma_segments_plain_prefix(p0, e, e, backslash);
            assert(p0 + e =~= p0);
            assert(e + p0 =~= p0);
            assert(segments_from(e, p0, backslash) =~= seq![p0]);
            assert(parts =~= seq![p0]);
        } else {
            let rest = parts.drop_first();
            assert(clean_parts(rest, backslash)) by {
                assert forall|i: int| 0 <= i < rest.len() implies (#[trigger] rest[i]).len() > 0 by {
                    assert(rest[i] == parts[i + 1]);
                }
                assert forall|i: int, j: int|
                    0 <= i < rest.len() && 0 <= j < rest[i].len() implies !is_sep(
                        #[trigger] rest[i][j],
                        backslash,
                    ) by {
                    assert(rest[i] == parts[i + 1]);
                    assert(parts[i + 1][j] == rest[i][j]);
                }
            }
            lemma_segments_of_join(rest, backslash);
            let tail = seq!['/'] + join_slash(rest);
            assert(join_slash(parts) =~= p0 + tail);
            lemma_segments_plain_prefix(p0, tail, e, backslash);
            assert(e + p0 =~= p0);
            assert(tail.drop_first() =~= join_slash(rest));
            assert(segments_from(tail, p0, backslash) =~= seq![p0] + segments(
                join_slash(rest),
                backslash,
            ));
            assert(parts =~= seq![p0] + rest);
        }
    }
}

/// Components produced by splitting are clean.
proof fn lemma_segments_clean(s: Seq<char>, cur: Seq<char>, backslash: bool)
    requires
        forall|j: int| 0 <= j < cur.len() ==> !is_sep(#[trigger] cur[j], backslash),
    ensures
        clean_parts(segments_from(s, cur, backslash), backslash),
    decreases s.len(),
{
    let e = Seq::<char>::empty();
    if s.len() == 0 {
        if cur.len() > 0 {
            let r = seq![cur];
            assert forall|i: int, j: int|
                0 <= i < r.len() && 0 <= j < r[i].len() implies !is_sep(
                    #[trigger] r[i][j],
                    backslash,
                ) by {
                assert(r[i] == cur);
            }
        } else {
            assert(segments_from(s, cur, backslash) =~= Seq::<Seq<char>>::empty());
        }
    } else if is_sep(s[0], backslash) {
        lemma_segments_clean(s.drop_first(), e, backslash);
        let head = if cur.len() > 0 {
            seq![cur]
        } else {
            Seq::<Seq<char>>::empty()
        };
        let tl = segments_from(s.drop_first(), e, backslash);
        let r = head + tl;
        assert forall|i: int| 0 <= i < r.len() implies (#[trigger] r[i]).len() > 0 by {
            if i < head.len() {
                assert(r[i] == cur);
            } else {
                assert(r[i] == tl[i - head.len()]);
            }
        }
        assert forall|i: int, j: int|
            0 <= i < r.len() && 0 <= j < r[i].len() implies !is_sep(
                #[trigger] r[i][j],
                backslash,
            ) by {
            if i < head.len() {
                assert(r[i] == cur);
            } else {
                assert(r[i] == tl[i - head.len()]);
                assert(tl[i - head.len()][j] == r[i][j]);
            }
        }
    } else {
        let c2 = cur.push(s[0]);
        assert forall|j: int| 0 <= j < c2.len() implies !is_sep(#[trigger] c2[j], backslash) by {
            if j < cur.len() {
                assert(c2[j] == cur[j]);
            }
        }
        lemma_segments_clean(s.drop_first(), c2, backslash);
    }
}

/// Splits `s` into its non-empty components.
pub fn split_components(s: &[char], backslash: bool) -> (parts: Vec<Vec<char>>)
    ensures
        char_seqs(parts@) == segments(s@, backslash),
{
    let n = s.len();
    let mut parts: Vec<Vec<char>> = Vec::new();
    let mut cur: Vec<char> = Vec::new();
    let mut i: usize = 0;
    assert(s@.subrange(0, n as int) =~= s@);
    while i < n
        invariant
            n == s@.len(),
            i <= n,
            char_seqs(parts@) + segments_from(s@.subrange(i as int, n as int), cur@, backslash)
                == segments(s@, backslash),
        decreases n - i,
    {
        let ghost sub = s@.subrange(i as int, n as int);
        assert(sub[0] == s@[i as int]);
        assert(sub.drop_first() =~= s@.subrange(i + 1, n as int));
        let c = s[i];
        if c == '/' || (backslash && c == '\\') {
            if cur.len() > 0 {
                let ghost before = char_seqs(parts@);
                let ghost done = cur@;
                parts.push(cur);
                cur = Vec::new();
                assert(char_seqs(parts@) =~= before + seq![done]);
            } else {
                assert(cur@ =~= Seq::<char>::empty());
            }
            let ghost e = Seq::<char>::empty();
            assert(cur@ =~= e);
        } else {
            cur.push(c);
        }
        i = i + 1;
        proof {
            assert(char_seqs(parts@) + segments_from(s@.subrange(i as int, n as int), cur@, backslash)
                =~= segments(s@, backslash));
        }
    }
    if cur.len() > 0 {
        let ghost before = char_seqs(parts@);
        let ghost done = cur@;
        parts.push(cur);
        assert(char_seqs(parts@) =~= before + seq![done]);
    }
    assert(s@.subrange(n as int, n as int) =~= Seq::<char>::empty());
    assert(char_seqs(parts@) =~= segments(s@, backslash));
    parts
}

/// Joins components with `/`.
pub fn join_components(parts: &Vec<Vec<char>>) -> (out: Vec<char>)
    ensures
        out@ == join_slash(char_seqs(parts@)),
{
    let mut out: Vec<char> = Vec::new();
    let mut i: usize = 0;
    while i < parts.len()
        invariant
            i <= parts@.len(),
            out@ == join_slash(char_seqs(parts@).subrange(0, i as int)),
        decreases parts@.len() - i,
    {
        proof {
            lemma_join_push(char_seqs(parts@).subrange(0, i as int), char_seqs(parts@)[i as int]);
            assert(char_seqs(parts@).subrange(0, i as int).push(char_seqs(parts@)[i as int])
                =~= char_seqs(parts@).subrange(0, i + 1));
        }
        if i > 0 {
            out.push('/');
        }
        extend_chars(&mut out, &parts[i]);
        i = i + 1;
    }
    assert(char_seqs(parts@).subrange(0, parts@.len() as int) =~= char_seqs(parts@));
    out
}

/// The mathematical value of a string result: both sides as character
/// sequences.
pub open spec fn str_result(r: Result<String, String>) -> Result<Seq<char>, Seq<char>> {
    match r {
        Ok(s) => Ok(s@),
        Err(e) => Err(e@),
    }
}

/// The mathematical value of a result without payload.
pub open spec fn unit_result(r: Result<(), String>) -> Result<(), Seq<char>> {
    match r {
        Ok(()) => Ok(()),
        Err(e) => Err(e@),
    }
}

proof fn lemma_segments_leading_sep(x: Seq<char>, backslash: bool)
    ensures
        segments(seq!['/'] + x, backslash) == segments(x, backslash),
{
    let s = seq!['/'] + x;
    assert(s[0] == '/');
    assert(s.drop_first() =~= x);
    assert(Seq::<Seq<char>>::empty() + segments(x, backslash) =~= segments(x, backslash));
}

proof fn lemma_clean_narrow(parts: Seq<Seq<char>>)
    requires
        clean_parts(parts, true),
    ensures
        clean_parts(parts, false),
{
    assert forall|i: int, j: int|
        0 <= i < parts.len() && 0 <= j < parts[i].len() implies !is_sep(
            #[trigger] parts[i][j],
            false,
        ) by {
        assert(!is_sep(parts[i][j], true));
    }
}

/// The components of a normal form are those of the path it came from.
pub proof fn lemma_normalize_segments(p: Seq<char>, backslash: bool)
    ensures
        segments(normalize_spec(p), backslash) == segments(p, true),
{
    let e = Seq::<char>::empty();
    lemma_segments_clean(p, e, true);
    let parts = segments(p, true);
    if !backslash {
        lemma_clean_narrow(parts);
    }
    lemma_segments_of_join(parts, backslash);
    if p.len() == 0 {
        assert(segments(seq!['/'], backslash) =~= segments(e, backslash)) by {
            assert(seq!['/'] =~= seq!['/'] + e);
            lemma_segments_leading_sep(e, backslash);
        }
        assert(segments(p, true) =~= Seq::<Seq<char>>::empty());
    } else if is_sep(p[0], true) {
        lemma_segments_leading_sep(join_slash(parts), backslash);
    }
}

/// No character of `q` is a backslash.
pub open spec fn no_backslash(q: Seq<char>) -> bool {
    forall|i: int| 0 <= i < q.len() ==> #[trigger] q[i] != '\\'
}

/// No two consecutive characters of `q` are both `/`.
pub open spec fn no_double_slash(q: Seq<char>) -> bool {
    forall|i: int, j: int| 0 <= i && j == i + 1 && j < q.len() ==> !(#[trigger] q[i] == '/' && #[trigger] q[j] == '/')
}

/// The join of clean components has no backslash and no `//`; when there is
/// a component, it neither starts nor ends with `/`.
proof fn lemma_join_shape(parts: Seq<Seq<char>>)
    requires
        clean_parts(parts, true),
    ensures
        no_backslash(join_slash(parts)),
        no_double_slash(join_slash(parts)),
        parts.len() == 0 ==> join_slash(parts).len() == 0,
        parts.len() > 0 ==> join_slash(parts).len() > 0 && join_slash(parts)[0] != '/'
            && join_slash(parts).last() != '/',
    decreases parts.len(),
{
    if parts.len() == 0 {
        return;
    }
    let p0 = parts[0];
    assert(p0.len() > 0);
    assert forall|k: int| 0 <= k < p0.len() implies !is_sep(#[trigger] p0[k], true) by {
        assert(parts[0][k] == p0[k]);
    }
    if parts.len() == 1 {
        assert(join_slash(parts) == p0);
        assert(!is_sep(p0[0], true));
        assert(!is_sep(p0[p0.len() - 1], true));
        return;
    }
    let rest = parts.drop_first();
    assert(clean_parts(rest, true)) by {
        assert forall|i: int| 0 <= i < rest.len() implies (#[trigger] rest[i]).len() > 0 by {
            assert(rest[i] == parts[i + 1]);
        }
        assert forall|i: int, j: int|
            0 <= i < rest.len() && 0 <= j < rest[i].len() implies !is_sep(#[trigger] rest[i][j], true) by {
            assert(rest[i] == parts[i + 1]);
            assert(parts[i + 1][j] == rest[i][j]);
        }
    }
    lemma_join_shape(rest);
    let r = join_slash(rest);
    let q = join_slash(parts);
    assert(q == p0 + seq!['/'] + r);
    let n = p0.len();
    assert forall|i: int| 0 <= i < q.len() implies #[trigger] q[i] != '\\' by {
        if i < n {
            assert(q[i] == p0[i]);
        } else if i == n {
            assert(q[i] == '/');
        } else {
            assert(q[i] == r[i - n - 1]);
        }
    }
    assert forall|i: int, j: int| 0 <= i && j == i + 1 && j < q.len() implies !(#[trigger] q[i] == '/'
        && #[trigger] q[j] == '/') by {
        if i < n {
            assert(q[i] == p0[i]);
        } else if i == n {
            assert(q[j] == r[0]);
        } else {
            assert(q[i] == r[i - n - 1]);
            assert(q[j] == r[j - n - 1]);
        }
    }
    assert(q[0] == p0[0]);
    assert(q.last() == r.last());
}

/// A normal form has no backslash and no `//`, and ends with `/` only when
/// it is the root `/` itself.
pub proof fn law_normal_form_shape(p: Seq<char>)
    ensures
        no_backslash(normalize_spec(p)),
        no_double_slash(normalize_spec(p)),
        normalize_spec(p).len() > 0 && normalize_spec(p).last() == '/' ==> normalize_spec(p) == seq!['/'],
{
    let q = normalize_spec(p);
    let parts = segments(p, true);
    lemma_segments_clean(p, Seq::<char>::empty(), true);
    lemma_join_shape(parts);
    let j = join_slash(parts);
    if p.len() == 0 {
        assert(q == seq!['/']);
        assert(q[0] == '/');
    } else if is_sep(p[0], true) {
        assert(q == seq!['/'] + j);
        if parts.len() == 0 {
            assert(q =~= seq!['/']);
            assert(q[0] == '/');
        } else {
            assert forall|i: int| 0 <= i < q.len() implies #[trigger] q[i] != '\\' by {
                if i > 0 {
                    assert(q[i] == j[i - 1]);
                }
            }
            assert forall|i: int, k: int| 0 <= i && k == i + 1 && k < q.len() implies !(#[trigger] q[i]
                == '/' && #[trigger] q[k] == '/') by {
                assert(q[k] == j[k - 1]);
                if i > 0 {
                    assert(q[i] == j[i - 1]);
                }
            }
            assert(q.last() == j.last());
        }
    }
}

/// Normalising a path twice gives what normalising it once gives.
pub proof fn law_normalize_idempotent(p: Seq<char>)
    ensures
        normalize_spec(normalize_spec(p)) == normalize_spec(p),
{
    let q = normalize_spec(p);
    lemma_normalize_segments(p, true);
    let parts = segments(p, true);
    if p.len() == 0 {
        assert(q =~= seq!['/']);
        assert(q[0] == '/');
        assert(segments(p, true) =~= Seq::<Seq<char>>::empty());
        assert(join_slash(Seq::<Seq<char>>::empty()) =~= Seq::<char>::empty());
        assert(seq!['/'] + Seq::<char>::empty() =~= seq!['/']);
    } else if is_sep(p[0], true) {
        assert(q[0] == '/');
    } else {
        // The first component starts with p[0], which is no separator.
        lemma_segments_first(p);
        let p0 = parts[0];
        assert(q.len() > 0 && q[0] == p0[0]) by {
            if parts.len() == 1 {
                assert(q == p0);
            } else {
                assert(q == p0 + seq!['/'] + join_slash(parts.drop_first()));
            }
        }
    }
}

/// A path that does not start with a separator has a first component that
/// starts with its first character.
proof fn lemma_segments_first(p: Seq<char>)
    requires
        p.len() > 0,
        !is_sep(p[0], true),
    ensures
        segments(p, true).len() > 0,
        segments(p, true)[0].len() > 0,
        segments(p, true)[0][0] == p[0],
{
    lemma_segments_first_from(p.drop_first(), seq![p[0]]);
    let e = Seq::<char>::empty();
    assert(e.push(p[0]) =~= seq![p[0]]);
}

proof fn lemma_segments_first_from(s: Seq<char>, cur: Seq<char>)
    requires
        cur.len() > 0,
    ensures
        segments_from(s, cur, true).len() > 0,
        segments_from(s, cur, true)[0].len() > 0,
        segments_from(s, cur, true)[0][0] == cur[0],
    decreases s.len(),
{
    if s.len() == 0 {
    } else if is_sep(s[0], true) {
        let r = seq![cur] + segments_from(s.drop_first(), Seq::empty(), true);
        assert(r[0] == cur);
    } else {
        lemma_segments_first_from(s.drop_first(), cur.push(s[0]));
        assert(cur.push(s[0])[0] == cur[0]);
    }
}

/// Normalises path separators to `/`, collapses runs of separators, and
/// keeps a leading `/` for absolute paths. The empty path normalises to `/`.
pub fn normalize_path(path: &str) -> (r: Result<String, String>)
    ensures
        str_result(r) == Ok::<Seq<char>, Seq<char>>(normalize_spec(path@)),
{
    let chars = chars_of(path);
    let n = normalize_chars(&chars);
    Ok(string_from_chars(&n))
}

/// Character-level form of [`normalize_path`].
pub fn normalize_chars(chars: &[char]) -> (n: Vec<char>)
    ensures
        n@ == normalize_spec(chars@),
{
    if chars.len() == 0 {
        let mut v: Vec<char> = Vec::new();
        v.push('/');
        assert(v@ =~= seq!['/']);
        return v;
    }
    let parts = split_components(chars, true);
    let joined = join_components(&parts);
    if chars[0] == '/' || chars[0] == '\\' {
        let mut v: Vec<char> = Vec::new();
        v.push('/');
        extend_chars(&mut v, &joined);
        assert(v@ =~= seq!['/'] + joined@);
        v
    } else {
        joined
    }
}

/// The depth of a path: the number of its non-empty `/`-separated components.
pub open spec fn path_depth(path: Seq<char>) -> nat {
    segments(path, false).len()
}

/// The error that a path of depth `d` above the limit `max_depth` gets.
pub open spec fn depth_message(d: nat, max_depth: usize) -> Seq<char> {
    "Directory depth "@ + decimal(d) + " exceeds maximum allowed depth of "@ + decimal(max_depth as nat)
}

/// What validating the depth of `path` against the limit `max_depth` gives.
pub open spec fn depth_check(path: Seq<char>, max_depth: usize) -> Result<(), Seq<char>> {
    if path_depth(path) > max_depth {
        Err(depth_message(path_depth(path), max_depth))
    } else {
        Ok(())
    }
}

/// Checks that the directory depth of `path` does not exceed `max_depth`.
pub fn validate_directory_depth(path: &str, max_depth: usize) -> (r: Result<(), String>)
    ensures
        unit_result(r) == depth_check(path@, max_depth),
{
    let chars = chars_of(path);
    depth_check_chars(&chars, max_depth)
}

/// Character-level form of [`validate_directory_depth`].
pub fn depth_check_chars(path: &[char], max_depth: usize) -> (r: Result<(), String>)
    ensures
        unit_result(r) == depth_check(path@, max_depth),
{
    let parts = split_components(path, false);
    let depth = parts.len();
    assert(depth == path_depth(path@));
    if depth > max_depth {
        let mut m = chars_of("Directory depth ");
        let d = decimal_chars(depth as u64);
        extend_chars(&mut m, &d);
        let tail = chars_of(" exceeds maximum allowed depth of ");
        extend_chars(&mut m, &tail);
        extend_chars(&mut m, &decimal_chars(max_depth as u64));
        Err(string_from_chars(&m))
    } else {
        Ok(())
    }
}

/// Characters that may not occur in a path component, in the order in which
/// they are checked.
pub open spec fn dangerous_chars() -> Seq<char> {
    seq!['\0', '<', '>', '|', '"', '*', '?', ':']
}

/// The first character of `list` that occurs in `s`, if any.
pub open spec fn first_listed_in(list: Seq<char>, s: Seq<char>) -> Option<char>
    decreases list.len(),
{
    if list.len() == 0 {
        None
    } else if s.contains(list[0]) {
        Some(list[0])
    } else {
        first_listed_in(list.drop_first(), s)
    }
}

/// The upper-case form of a string under Unicode case mapping, as
/// `str::to_uppercase` computes it.
pub uninterp spec fn unicode_upper(s: Seq<char>) -> Seq<char>;

/// Upper-cases `s` with `str::to_uppercase`, the full Unicode case mapping.
/// Claimed: the result is [`unicode_upper`] of `s`, a function of `s`
/// alone; on an all-ASCII string it maps `a`-`z` to `A`-`Z` and keeps every
/// other character, as Unicode gives no other ASCII character an upper-case
/// form. Nothing is stated of other strings.
#[verifier::external_body]
fn str_to_uppercase(s: &str) -> (u: String)
    ensures
        u@ == unicode_upper(s@),
        (forall|i: int| 0 <= i < s@.len() ==> (#[trigger] s@[i] as u32) < 128) ==> u@
            == crate::text::ascii_upper_seq(s@),
{
    s.to_uppercase()
}

/// Whether an upper-cased name is one of the device names reserved on
/// Windows: CON, PRN, AUX, NUL, COM1-COM9 and LPT1-LPT9.
pub open spec fn is_reserved_name(u: Seq<char>) -> bool {
    ||| u == seq!['C', 'O', 'N']
    ||| u == seq!['P', 'R', 'N']
    ||| u == seq!['A', 'U', 'X']
    ||| u == seq!['N', 'U', 'L']
    ||| (u.len() == 4 && (u.take(3) == seq!['C', 'O', 'M'] || u.take(3) == seq!['L', 'P', 'T'])
        && '1' <= u[3] && u[3] <= '9')
}

/// The error that validating a single path component gives, if any.
pub open spec fn component_error(c: Seq<char>) -> Option<Seq<char>> {
    if c.len() == 0 {
        Some("Empty path component"@)
    } else if c == seq!['.', '.'] || c == seq!['.'] {
        Some("Directory traversal not allowed"@)
    } else if first_listed_in(dangerous_chars(), c) is Some {
        Some(
            "Invalid character '"@ + seq![first_listed_in(dangerous_chars(), c)->0] + "' in path"@,
        )
    } else if is_reserved_name(unicode_upper(c)) {
        Some("Reserved filename: "@ + c)
    } else {
        None
    }
}

/// What validating a single path component gives.
pub open spec fn component_check(c: Seq<char>) -> Result<(), Seq<char>> {
    match component_error(c) {
        Some(m) => Err(m),
        None => Ok(()),
    }
}

fn is_reserved_chars(u: &[char]) -> (r: bool)
    ensures
        r == is_reserved_name(u@),
{
    let con = ['C', 'O', 'N'];
    let prn = ['P', 'R', 'N'];
    let aux = ['A', 'U', 'X'];
    let nul = ['N', 'U', 'L'];
    let com = ['C', 'O', 'M'];
    let lpt = ['L', 'P', 'T'];
    assert(con@ =~= seq!['C', 'O', 'N']);
    assert(prn@ =~= seq!['P', 'R', 'N']);
    assert(aux@ =~= seq!['A', 'U', 'X']);
    assert(nul@ =~= seq!['N', 'U', 'L']);
    assert(com@ =~= seq!['C', 'O', 'M']);
    assert(lpt@ =~= seq!['L', 'P', 'T']);
    if chars_eq(u, &con) || chars_eq(u, &prn) || chars_eq(u, &aux) || chars_eq(u, &nul) {
        return true;
    }
    if u.len() == 4 {
        let head = slice_range(u, 0, 3);
        assert(head@ =~= u@.take(3));
        let d = u[3];
        (chars_eq(&head, &com) || chars_eq(&head, &lpt)) && '1' <= d && d <= '9'
    } else {
        false
    }
}

/// Checks that a path component is non-empty, is not `.` or `..`, holds none
/// of the characters `\0 < > | " * ? :`, and is not a reserved device name.
pub fn validate_path_component(component: &str) -> (r: Result<(), String>)
    ensures
        unit_result(r) == component_check(component@),
{
    let chars = chars_of(component);
    component_check_chars(&chars)
}

/// Character-level form of [`validate_path_component`].
pub fn component_check_chars(c: &[char]) -> (r: Result<(), String>)
    ensures
        unit_result(r) == component_check(c@),
{
    if c.len() == 0 {
        return Err(string_from_chars(&chars_of("Empty path component")));
    }
    let dotdot = ['.', '.'];
    let dot = ['.'];
    assert(dotdot@ =~= seq!['.', '.']);
    assert(dot@ =~= seq!['.']);
    if chars_eq(c, &dotdot) || chars_eq(c, &dot) {
        return Err(string_from_chars(&chars_of("Directory traversal not allowed")));
    }
    let danger = ['\0', '<', '>', '|', '"', '*', '?', ':'];
    assert(danger@ =~= dangerous_chars());
    let mut k: usize = 0;
    assert(danger@.subrange(0, 8) =~= danger@);
    while k < 8
        invariant
            k <= 8,
            danger@ == dangerous_chars(),
            first_listed_in(dangerous_chars(), c@) == first_listed_in(
                danger@.subrange(k as int, 8),
                c@,
            ),
        decreases 8 - k,
    {
        let ch = danger[k];
        assert(danger@.subrange(k as int, 8)[0] == ch);
        assert(danger@.subrange(k as int, 8).drop_first() =~= danger@.subrange(k + 1, 8));
        if contains_char(c, ch) {
            let mut m = chars_of("Invalid character '");
            m.push(ch);
            let tail = chars_of("' in path");
            extend_chars(&mut m, &tail);
            assert(m@ =~= "Invalid character '"@ + seq![ch] + "' in path"@);
            return Err(string_from_chars(&m));
        }
        k = k + 1;
    }
    assert(danger@.subrange(8, 8) =~= Seq::<char>::empty());
    let owned = string_from_chars(c);
    let upper = str_to_uppercase(owned.as_str());
    let uc = chars_of(upper.as_str());
    if is_reserved_chars(&uc) {
        let mut m = chars_of("Reserved filename: ");
        extend_chars(&mut m, c);
        return Err(string_from_chars(&m));
    }
    Ok(())
}

/// The first error among the components, in order, if any.
pub open spec fn first_component_error(parts: Seq<Seq<char>>) -> Option<Seq<char>>
    decreases parts.len(),
{
    if parts.len() == 0 {
        None
    } else {
        match component_error(parts[0]) {
            Some(m) => Some(m),
            None => first_component_error(parts.drop_first()),
        }
    }
}

/// What validating a client path gives: its normal form, provided that the
/// depth is within the limit `max_depth` and every component is acceptable;
/// otherwise the first error found.
pub open spec fn validate_path_spec(p: Seq<char>, max_depth: usize) -> Result<Seq<char>, Seq<char>> {
    let n = normalize_spec(p);
    match depth_check(n, max_depth) {
        Err(m) => Err(m),
        Ok(()) => match first_component_error(segments(n, false)) {
            Some(m) => Err(m),
            None => Ok(n),
        },
    }
}

/// Normalises `path`, then checks its depth against `max_depth` and each of
/// its components.
pub fn validate_path(path: &str, max_depth: usize) -> (r: Result<String, String>)
    ensures
        str_result(r) == validate_path_spec(path@, max_depth),
{
    let chars = chars_of(path);
    match validate_path_chars(&chars, max_depth) {
        Ok(n) => Ok(string_from_chars(&n)),
        Err(e) => Err(e),
    }
}

/// Character-level form of [`validate_path`].
pub fn validate_path_chars(path: &[char], max_depth: usize) -> (r: Result<Vec<char>, String>)
    ensures
        match r {
            Ok(n) => validate_path_spec(path@, max_depth) == Ok::<Seq<char>, Seq<char>>(n@),
            Err(e) => validate_path_spec(path@, max_depth) == Err::<Seq<char>, Seq<char>>(e@),
        },
{
    let n = normalize_chars(path);
    match depth_check_chars(&n, max_depth) {
        Err(e) => {
            return Err(e);
        },
        Ok(()) => {},
    }
    let parts = split_components(&n, false);
    let ghost all = char_seqs(parts@);
    let mut i: usize = 0;
    assert(all.subrange(0, all.len() as int) =~= all);
    while i < parts.len()
        invariant
            i <= parts@.len(),
            all == char_seqs(parts@),
            all == segments(n@, false),
            depth_check(n@, max_depth) is Ok,
            n@ == normalize_spec(path@),
            first_component_error(all) == first_component_error(all.subrange(i as int, all.len() as int)),
        decreases parts@.len() - i,
    {
        proof {
            assert(all.subrange(i as int, all.len() as int)[0] == parts@[i as int]@);
            assert(all.subrange(i as int, all.len() as int).drop_first() =~= all.subrange(
                i + 1,
                all.len() as int,
            ));
        }
        match component_check_chars(&parts[i]) {
            Err(e) => {
                return Err(e);
            },
            Ok(()) => {},
        }
        i = i + 1;
    }
    assert(all.subrange(all.len() as int, all.len() as int) =~= Seq::<Seq<char>>::empty());
    Ok(n)
}

/// `rel` appended to the directory `cwd`, with a `/` between them unless
/// `cwd` already ends with one.
pub open spec fn join_under(cwd: Seq<char>, rel: Seq<char>) -> Seq<char> {
    if cwd.len() > 0 && cwd.last() == '/' {
        cwd + rel
    } else {
        cwd + seq!['/'] + rel
    }
}

fn join_under_chars(cwd: &[char], rel: &[char]) -> (v: Vec<char>)
    ensures
        v@ == join_under(cwd@, rel@),
{
    let mut v = slice_range(cwd, 0, cwd.len());
    assert(v@ =~= cwd@);
    if !(cwd.len() > 0 && cwd[cwd.len() - 1] == '/') {
        v.push('/');
    }
    extend_chars(&mut v, rel);
    v
}

/// What resolving a file path against the current virtual directory gives:
/// the trimmed path is validated as it is when absolute, and appended to the
/// current directory first when relative.
pub open spec fn resolve_file_spec(cwd: Seq<char>, file_path: Seq<char>, max_depth: usize) -> Result<Seq<char>, Seq<char>> {
    let f = trim(file_path);
    if f.len() == 0 {
        Err("Empty file path"@)
    } else if is_sep(f[0], true) {
        validate_path_spec(f, max_depth)
    } else {
        validate_path_spec(join_under(cwd, f), max_depth)
    }
}

/// Resolves a file path relative to the current virtual directory and
/// validates the result.
pub fn resolve_file_path(current_virtual_path: &str, file_path: &str, max_depth: usize) -> (r: Result<String, String>)
    ensures
        str_result(r) == resolve_file_spec(current_virtual_path@, file_path@, max_depth),
{
    let cwd = chars_of(current_virtual_path);
    let raw = chars_of(file_path);
    let f = trim_chars(&raw);
    if f.len() == 0 {
        return Err(string_from_chars(&chars_of("Empty file path")));
    }
    let target = if f[0] == '/' || f[0] == '\\' {
        f
    } else {
        join_under_chars(&cwd, &f)
    };
    match validate_path_chars(&target, max_depth) {
        Ok(n) => Ok(string_from_chars(&n)),
        Err(e) => Err(e),
    }
}

/// What resolving a `CWD` target against the current virtual directory
/// gives: an empty target keeps the directory, `..` at the root stays at the
/// root, and any other target is validated as a path, relative targets after
/// being appended to the current directory.
pub open spec fn resolve_cwd_spec(cwd: Seq<char>, requested: Seq<char>, max_depth: usize) -> Result<Seq<char>, Seq<char>> {
    let r = trim(requested);
    if r.len() == 0 {
        Ok(cwd)
    } else if r == seq!['.', '.'] && cwd == seq!['/'] {
        Ok(seq!['/'])
    } else if is_sep(r[0], true) {
        validate_path_spec(r, max_depth)
    } else {
        validate_path_spec(join_under(cwd, r), max_depth)
    }
}

/// Resolves the target of a `CWD` command against the current virtual
/// directory and validates the result.
pub fn resolve_cwd_path(current_virtual_path: &str, requested_path: &str, max_depth: usize) -> (r: Result<String, String>)
    ensures
        str_result(r) == resolve_cwd_spec(current_virtual_path@, requested_path@, max_depth),
{
    let cwd = chars_of(current_virtual_path);
    let raw = chars_of(requested_path);
    let req = trim_chars(&raw);
    if req.len() == 0 {
        return Ok(string_from_chars(&cwd));
    }
    let dotdot = ['.', '.'];
    let root = ['/'];
    assert(dotdot@ =~= seq!['.', '.']);
    assert(root@ =~= seq!['/']);
    if chars_eq(&req, &dotdot) && chars_eq(&cwd, &root) {
        return Ok(string_from_chars(&root));
    }
    let target = if req[0] == '/' || req[0] == '\\' {
        req
    } else {
        join_under_chars(&cwd, &req)
    };
    match validate_path_chars(&target, max_depth) {
        Ok(n) => Ok(string_from_chars(&n)),
        Err(e) => Err(e),
    }
}

/// `s` without its leading `/` characters.
pub open spec fn trim_leading_slashes(s: Seq<char>) -> Seq<char>
    decreases s.len(),
{
    if s.len() > 0 && s[0] == '/' {
        trim_leading_slashes(s.drop_first())
    } else {
        s
    }
}

/// The real path of a virtual path: the virtual path without its leading
/// slashes, appended to the server root with a `/` between them unless the
/// root is empty or already ends with one. The root path itself when nothing
/// remains.
pub open spec fn real_path_spec(root: Seq<char>, virtual_path: Seq<char>) -> Seq<char> {
    let rel = trim_leading_slashes(virtual_path);
    if rel.len() == 0 {
        root
    } else if root.len() > 0 && root.last() != '/' {
        root + seq!['/'] + rel
    } else {
        root + rel
    }
}

/// Maps a virtual path to the real file-system path under `server_root`.
pub fn virtual_to_real_path(server_root: &str, virtual_path: &str) -> (p: String)
    ensures
        p@ == real_path_spec(server_root@, virtual_path@),
{
    let root = chars_of(server_root);
    let v = chars_of(virtual_path);
    let n = v.len();
    let mut i: usize = 0;
    assert(v@.subrange(0, n as int) =~= v@);
    while i < n && v[i] == '/'
        invariant
            n == v@.len(),
            i <= n,
            trim_leading_slashes(v@) == trim_leading_slashes(v@.subrange(i as int, n as int)),
        decreases n - i,
    {
        assert(v@.subrange(i as int, n as int).drop_first() =~= v@.subrange(i + 1, n as int));
        i = i + 1;
    }
    let rel = slice_range(&v, i, n);
    assert(trim_leading_slashes(v@) == rel@) by {
        if i < n {
            assert(v@.subrange(i as int, n as int)[0] == v@[i as int]);
        }
    }
    let mut out = slice_range(&root, 0, root.len());
    assert(out@ =~= root@);
    if rel.len() > 0 {
        if root.len() > 0 && root[root.len() - 1] != '/' {
            out.push('/');
        }
        extend_chars(&mut out, &rel);
    }
    string_from_chars(&out)
}

/// Whether `b` is a leading part of `a`, component-wise: both absolute or
/// both relative, and the components of `b` are the first components of `a`.
/// This is how `Path::starts_with` compares paths that hold no `.`
/// components, which canonical paths never do.
pub open spec fn path_has_prefix(a: Seq<char>, b: Seq<char>) -> bool {
    let abs_a = a.len() > 0 && a[0] == '/';
    let abs_b = b.len() > 0 && b[0] == '/';
    let ca = segments(a, false);
    let cb = segments(b, false);
    &&& abs_a == abs_b
    &&& cb.len() <= ca.len()
    &&& ca.take(cb.len() as int) == cb
}

/// Whether `b` is a component-wise leading part of `a`.
pub fn path_starts_with(a: &str, b: &str) -> (r: bool)
    ensures
        r == path_has_prefix(a@, b@),
{
    let ac = chars_of(a);
    let bc = chars_of(b);
    let abs_a = ac.len() > 0 && ac[0] == '/';
    let abs_b = bc.len() > 0 && bc[0] == '/';
    if abs_a != abs_b {
        return false;
    }
    let pa = split_components(&ac, false);
    let pb = split_components(&bc, false);
    if pb.len() > pa.len() {
        return false;
    }
    let ghost ca = char_seqs(pa@);
    let ghost cb = char_seqs(pb@);
    let mut i: usize = 0;
    while i < pb.len()
        invariant
            i <= pb@.len() <= pa@.len(),
            ca == char_seqs(pa@),
            cb == char_seqs(pb@),
            ca == segments(a@, false),
            cb == segments(b@, false),
            forall|j: int| 0 <= j < i ==> ca[j] == cb[j],
        decreases pb@.len() - i,
    {
        if !chars_eq(&pa[i], &pb[i]) {
            assert(ca[i as int] == pa@[i as int]@);
            assert(cb[i as int] == pb@[i as int]@);
            assert(ca.take(cb.len() as int)[i as int] != cb[i as int]);
            return false;
        }
        i = i + 1;
    }
    assert(ca.take(cb.len() as int) =~= cb);
    true
}

/// What the bounds check decides, given the canonical forms of the server
/// root, of the target path and of the target's parent directory (`None`
/// where canonicalisation failed or there is no parent). An existing target
/// must lie under the root; a target that does not exist yet is judged by its
/// parent. Where the root cannot be canonicalised, nothing is rejected.
pub open spec fn bounds_check(
    canonical_root: Option<Seq<char>>,
    canonical_target: Option<Seq<char>>,
    canonical_parent: Option<Seq<char>>,
) -> Result<(), Seq<char>> {
    let outside = Err("Path outside server root"@);
    match canonical_root {
        None => Ok(()),
        Some(root) => match canonical_target {
            Some(t) => if path_has_prefix(t, root) {
                Ok(())
            } else {
                outside
            },
            None => match canonical_parent {
                Some(p) => if path_has_prefix(p, root) {
                    Ok(())
                } else {
                    outside
                },
                None => Ok(()),
            },
        },
    }
}

/// The view of an optional string.
pub open spec fn opt_view(o: Option<&str>) -> Option<Seq<char>> {
    match o {
        Some(s) => Some(s@),
        None => None,
    }
}

/// Verifies that a real path lies within the server root (security check),
/// given the canonical forms of the server root, of the path, and of its
/// parent directory.
pub fn verify_path_within_bounds(
    canonical_root: Option<&str>,
    canonical_target: Option<&str>,
    canonical_parent: Option<&str>,
) -> (r: Result<(), String>)
    ensures
        unit_result(r) == bounds_check(
            opt_view(canonical_root),
            opt_view(canonical_target),
            opt_view(canonical_parent),
        ),
{
    let inside = match canonical_root {
        None => true,
        Some(root) => match canonical_target {
            Some(t) => path_starts_with(t, root),
            None => match canonical_parent {
                Some(p) => path_starts_with(p, root),
                None => true,
            },
        },
    };
    if inside {
        Ok(())
    } else {
        Err(string_from_chars(&chars_of("Path outside server root")))
    }
}

/// What full resolution of a file path gives: the real path and the virtual
/// path, provided that the path resolves and the bounds check, made on the
/// canonical forms given, passes.
pub open spec fn resolve_and_validate_spec(
    root: Seq<char>,
    cwd: Seq<char>,
    file_path: Seq<char>,
    canonical_root: Option<Seq<char>>,
    canonical_target: Option<Seq<char>>,
    canonical_parent: Option<Seq<char>>,
    max_depth: usize,
) -> Result<(Seq<char>, Seq<char>), Seq<char>> {
    match resolve_file_spec(cwd, file_path, max_depth) {
        Err(e) => Err(e),
        Ok(v) => match bounds_check(canonical_root, canonical_target, canonical_parent) {
            Err(e) => Err(e),
            Ok(()) => Ok((real_path_spec(root, v), v)),
        },
    }
}

/// Complete file path resolution with all security checks: resolves the
/// virtual path, maps it under the server root, and applies the bounds check
/// to the canonical forms given (those of the root, of the real path and of
/// its parent).
pub fn resolve_and_validate_file_path(
    server_root: &str,
    current_virtual_path: &str,
    file_path: &str,
    canonical_root: Option<&str>,
    canonical_target: Option<&str>,
    canonical_parent: Option<&str>,
    max_depth: usize,
) -> (r: Result<(String, String), String>)
    ensures
        match r {
            Ok((real_path, v)) => resolve_and_validate_spec(
                server_root@,
                current_virtual_path@,
                file_path@,
                opt_view(canonical_root),
                opt_view(canonical_target),
                opt_view(canonical_parent),
                max_depth,
            ) == Ok::<(Seq<char>, Seq<char>), Seq<char>>((real_path@, v@)),
            Err(e) => resolve_and_validate_spec(
                server_root@,
                current_virtual_path@,
                file_path@,
                opt_view(canonical_root),
                opt_view(canonical_target),
                opt_view(canonical_parent),
                max_depth,
            ) == Err::<(Seq<char>, Seq<char>), Seq<char>>(e@),
        },
{
    let v = match resolve_file_path(current_virtual_path, file_path, max_depth) {
        Ok(v) => v,
        Err(e) => {
            return Err(e);
        },
    };
    let real_path = virtual_to_real_path(server_root, v.as_str());
    match verify_path_within_bounds(canonical_root, canonical_target, canonical_parent) {
        Ok(()) => Ok((real_path, v)),
        Err(e) => Err(e),
    }
}

proof fn lemma_no_component_error(parts: Seq<Seq<char>>)
    requires
        first_component_error(parts) is None,
    ensures
        forall|i: int| 0 <= i < parts.len() ==> component_error(#[trigger] parts[i]) is None,
    decreases parts.len(),
{
    if parts.len() > 0 {
        lemma_no_component_error(parts.drop_first());
        assert forall|i: int| 0 <= i < parts.len() implies component_error(
            #[trigger] parts[i],
        ) is None by {
            if i > 0 {
                assert(parts[i] == parts.drop_first()[i - 1]);
            }
        }
    }
}

proof fn lemma_join_chars(parts: Seq<Seq<char>>)
    requires
        clean_parts(parts, true),
    ensures
        forall|k: int| 0 <= k < join_slash(parts).len() ==> #[trigger] join_slash(parts)[k] != '\\',
    decreases parts.len(),
{
    if parts.len() == 1 {
        assert forall|k: int| 0 <= k < join_slash(parts).len() implies #[trigger] join_slash(
            parts,
        )[k] != '\\' by {
            assert(!is_sep(parts[0][k], true));
        }
    } else if parts.len() > 1 {
        let rest = parts.drop_first();
        assert(clean_parts(rest, true)) by {
            assert forall|i: int| 0 <= i < rest.len() implies (#[trigger] rest[i]).len() > 0 by {
                assert(rest[i] == parts[i + 1]);
            }
            assert forall|i: int, j: int|
                0 <= i < rest.len() && 0 <= j < rest[i].len() implies !is_sep(
                    #[trigger] rest[i][j],
                    true,
                ) by {
                assert(rest[i] == parts[i + 1]);
                assert(parts[i + 1][j] == rest[i][j]);
            }
        }
        lemma_join_chars(rest);
        let j = join_slash(parts);
        let p0 = parts[0];
        assert(j == p0 + seq!['/'] + join_slash(rest));
        assert forall|k: int| 0 <= k < j.len() implies #[trigger] j[k] != '\\' by {
            if k < p0.len() {
                assert(!is_sep(parts[0][k], true));
            } else if k > p0.len() {
                assert(j[k] == join_slash(rest)[k - p0.len() - 1]);
            }
        }
    }
}

/// A path accepted by validation is in normal form, uses `/` as its only
/// separator, is at most `max_depth` components deep, and has no `.` or
/// `..` component nor any other component that validation rejects.
pub proof fn law_validated_path_is_safe(p: Seq<char>, max_depth: usize)
    requires
        validate_path_spec(p, max_depth) is Ok,
    ensures
        ({
            let n = validate_path_spec(p, max_depth)->Ok_0;
            &&& n == normalize_spec(p)
            &&& normalize_spec(n) == n
            &&& forall|k: int| 0 <= k < n.len() ==> #[trigger] n[k] != '\\'
            &&& path_depth(n) <= max_depth
            &&& forall|i: int|
                0 <= i < segments(n, false).len() ==> {
                    &&& #[trigger] segments(n, false)[i] != seq!['.', '.']
                    &&& segments(n, false)[i] != seq!['.']
                    &&& component_error(segments(n, false)[i]) is None
                }
        }),
{
    let n = normalize_spec(p);
    law_normalize_idempotent(p);
    lemma_no_component_error(segments(n, false));
    let parts = segments(p, true);
    lemma_segments_clean(p, Seq::empty(), true);
    lemma_join_chars(parts);
    assert forall|k: int| 0 <= k < n.len() implies #[trigger] n[k] != '\\' by {
        if p.len() == 0 {
            assert(n == seq!['/']);
        } else if is_sep(p[0], true) {
            if k > 0 {
                assert(n[k] == join_slash(parts)[k - 1]);
            }
        }
    }
}

/// Validation is stable: validating an accepted path again accepts it
/// unchanged.
pub proof fn law_validate_path_stable(p: Seq<char>, max_depth: usize)
    requires
        validate_path_spec(p, max_depth) is Ok,
    ensures
        validate_path_spec(validate_path_spec(p, max_depth)->Ok_0, max_depth) == validate_path_spec(p, max_depth),
{
    law_normalize_idempotent(p);
}

/// Resolution against an absolute current directory yields an absolute
/// path: the resolved path of a file, and the new directory of a `CWD`, both
/// start with `/`.
pub proof fn law_resolved_paths_are_absolute(cwd: Seq<char>, target: Seq<char>, max_depth: usize)
    requires
        cwd.len() > 0,
        cwd[0] == '/',
    ensures
        resolve_file_spec(cwd, target, max_depth) matches Ok(v) ==> v.len() > 0 && v[0] == '/',
        resolve_cwd_spec(cwd, target, max_depth) matches Ok(v) ==> v.len() > 0 && v[0] == '/',
{
    let t = trim(target);
    if t.len() > 0 {
        let j = join_under(cwd, t);
        assert(j[0] == cwd[0]);
        assert(is_sep(j[0], true));
        if is_sep(t[0], true) {
            assert(normalize_spec(t)[0] == '/');
        }
        assert(normalize_spec(j)[0] == '/');
    }
}

/// The real path of a virtual path always begins with the server root.
pub proof fn law_real_path_under_root(root: Seq<char>, virtual_path: Seq<char>)
    ensures
        real_path_spec(root, virtual_path).len() >= root.len(),
        real_path_spec(root, virtual_path).take(root.len() as int) == root,
{
    let r = real_path_spec(root, virtual_path);
    assert(r.take(root.len() as int) =~= root);
}

/// A file path that resolves and passes the security checks maps to a real
/// path under the server root, through a validated virtual path; where the
/// root's canonical form is known, the canonical form of the target (or,
/// for a target that does not exist yet, of its parent) lies under it.
pub proof fn law_resolved_file_stays_under_root(
    root: Seq<char>,
    cwd: Seq<char>,
    file_path: Seq<char>,
    canonical_root: Option<Seq<char>>,
    canonical_target: Option<Seq<char>>,
    canonical_parent: Option<Seq<char>>,
    max_depth: usize,
)
    requires
        resolve_and_validate_spec(root, cwd, file_path, canonical_root, canonical_target, canonical_parent, max_depth) is Ok,
    ensures
        ({
            let (real_path, v) = resolve_and_validate_spec(
                root,
                cwd,
                file_path,
                canonical_root,
                canonical_target,
                canonical_parent,
                max_depth,
            )->Ok_0;
            &&& real_path.take(root.len() as int) == root
            &&& real_path == real_path_spec(root, v)
            &&& normalize_spec(v) == v
            &&& forall|i: int| 0 <= i < segments(v, false).len() ==> #[trigger] segments(v, false)[i] != seq!['.', '.']
            &&& canonical_root matches Some(r) ==> match canonical_target {
                Some(t) => path_has_prefix(t, r),
                None => canonical_parent matches Some(p) ==> path_has_prefix(p, r),
            }
        }),
{
    let v = resolve_file_spec(cwd, file_path, max_depth)->Ok_0;
    law_real_path_under_root(root, v);
    let f = trim(file_path);
    if is_sep(f[0], true) {
        law_validated_path_is_safe(f, max_depth);
    } else {
        law_validated_path_is_safe(join_under(cwd, f), max_depth);
    }
}

} // verus!
