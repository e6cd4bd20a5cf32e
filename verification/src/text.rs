//! Text operations on routes and handler names.
use vstd::prelude::*;

verus! {

/// `s` cut at every `sep`, as `str::split` cuts it: `n` separators give
/// `n + 1` pieces, some of which may be empty.
pub open spec fn split_on(s: Seq<char>, sep: char) -> Seq<Seq<char>>
    decreases s.len(),
{
    if s.len() == 0 {
        seq![Seq::<char>::empty()]
    } else {
        let init = split_on(s.drop_last(), sep);
        if s.last() == sep {
            init.push(Seq::<char>::empty())
        } else {
            init.update(init.len() - 1, init.last().push(s.last()))
        }
    }
}

/// The pieces of `segs` put one after the other, with `sep` between two of them.
pub open spec fn join_with(segs: Seq<Seq<char>>, sep: char) -> Seq<char>
    decreases segs.len(),
{
    if segs.len() == 0 {
        Seq::<char>::empty()
    } else if segs.len() == 1 {
        segs[0]
    } else {
        join_with(segs.drop_last(), sep).push(sep) + segs.last()
    }
}

/// A path segment in OpenAPI notation: a parameter `:name` becomes `{name}`,
/// anything else is kept.
pub open spec fn template_segment(seg: Seq<char>) -> Seq<char> {
    if seg.len() > 0 && seg[0] == ':' {
        seq!['{'] + seg.drop_first() + seq!['}']
    } else {
        seg
    }
}

/// A parameter segment `:name` is written `{name}` with the whole name
/// kept: one character longer, opened by `{`, closed by `}`, and holding
/// every character of the name at the place that follows its `:`. Any other
/// segment is kept as it is.
pub proof fn law_parameter_keeps_its_whole_name(seg: Seq<char>)
    ensures
        seg.len() > 0 && seg[0] == ':' ==> {
            let t = template_segment(seg);
            &&& t.len() == seg.len() + 1
            &&& t[0] == '{'
            &&& t[t.len() - 1] == '}'
            &&& forall|i: int| 1 <= i < seg.len() ==> #[trigger] t[i] == seg[i]
        },
        !(seg.len() > 0 && seg[0] == ':') ==> template_segment(seg) == seg,
{
}

/// Different parameters stay different: two parameter segments that are
/// written the same in OpenAPI notation are the same parameter.
pub proof fn law_parameters_stay_distinct(a: Seq<char>, b: Seq<char>)
    requires
        a.len() > 0 && a[0] == ':',
        b.len() > 0 && b[0] == ':',
        template_segment(a) == template_segment(b),
    ensures
        a == b,
{
    let ta = template_segment(a);
    law_parameter_keeps_its_whole_name(a);
    law_parameter_keeps_its_whole_name(b);
    assert(a.len() == b.len());
    assert forall|i: int| 0 <= i < a.len() implies a[i] == b[i] by {
        if i > 0 {
            assert(ta[i] == a[i]);
            assert(ta[i] == b[i]);
        }
    }
    assert(a =~= b);
}

/// A route path with each of its `/`-separated segments in OpenAPI notation.
pub open spec fn templated_route(path: Seq<char>) -> Seq<char> {
    join_with(split_on(path, '/').map_values(|seg: Seq<char>| template_segment(seg)), '/')
}

/// The documented route of `path` under the context path `prefix`.
pub open spec fn route_for(prefix: Seq<char>, path: Seq<char>) -> Seq<char> {
    prefix + templated_route(path)
}

/// What follows the last `:` in `s`, if `s` holds a `:`.
pub open spec fn after_last_colon(s: Seq<char>) -> Option<Seq<char>>
    decreases s.len(),
{
    if s.len() == 0 {
        None
    } else if s.last() == ':' {
        Some(Seq::<char>::empty())
    } else {
        match after_last_colon(s.drop_last()) {
            Some(t) => Some(t.push(s.last())),
            None => None,
        }
    }
}

pub proof fn lemma_split_on_nonempty(s: Seq<char>, sep: char)
    ensures
        split_on(s, sep).len() >= 1,
    decreases s.len(),
{
    if s.len() > 0 {
        lemma_split_on_nonempty(s.drop_last(), sep);
    }
}

proof fn lemma_join_extend_last(r: Seq<Seq<char>>, c: char, sep: char)
    requires
        r.len() >= 1,
    ensures
        join_with(r.update(r.len() - 1, r.last().push(c)), sep) == join_with(r, sep).push(c),
{
    let u = r.update(r.len() - 1, r.last().push(c));
    if r.len() == 1 {
        assert(u[0] == r[0].push(c));
    } else {
        assert(u.drop_last() =~= r.drop_last());
        assert(join_with(r, sep) == join_with(r.drop_last(), sep).push(sep) + r.last());
        assert(join_with(u, sep) == join_with(u.drop_last(), sep).push(sep) + u.last());
        assert(join_with(r.drop_last(), sep).push(sep) + r.last().push(c) =~= (join_with(
            r.drop_last(),
            sep,
        ).push(sep) + r.last()).push(c));
    }
}

/// Cutting a text at every separator and joining the pieces back with the
/// separator gives the text back.
pub proof fn law_split_join_roundtrip(s: Seq<char>, sep: char)
    ensures
        join_with(split_on(s, sep), sep) == s,
    decreases s.len(),
{
    if s.len() == 0 {
        assert(join_with(split_on(s, sep), sep) =~= s);
    } else {
        let init = split_on(s.drop_last(), sep);
        law_split_join_roundtrip(s.drop_last(), sep);
        lemma_split_on_nonempty(s.drop_last(), sep);
        if s.last() == sep {
            let segs = init.push(Seq::<char>::empty());
            assert(segs.drop_last() =~= init);
            assert(join_with(segs, sep) == join_with(init, sep).push(sep) + Seq::<char>::empty());
            assert(join_with(segs, sep) =~= s);
        } else {
            lemma_join_extend_last(init, s.last(), sep);
            assert(s.drop_last().push(s.last()) =~= s);
        }
    }
}

/// A route with no parameter segment (none starts with `:`) is documented
/// under its own text.
pub proof fn law_plain_route_is_unchanged(path: Seq<char>)
    requires
        forall|i: int|
            0 <= i < split_on(path, '/').len() ==> !(#[trigger] split_on(path, '/')[i].len() > 0
                && split_on(path, '/')[i][0] == ':'),
    ensures
        templated_route(path) == path,
{
    let segs = split_on(path, '/');
    let mapped = segs.map_values(|seg: Seq<char>| template_segment(seg));
    assert forall|i: int| 0 <= i < segs.len() implies mapped[i] == segs[i] by {
        assert(!(segs[i].len() > 0 && segs[i][0] == ':'));
    }
    assert(mapped =~= segs);
    law_split_join_roundtrip(path, '/');
}

/// One segment in OpenAPI notation.
fn template_segment_exec(seg: &str) -> (res: String)
    ensures
        res@ == template_segment(seg@),
{
    let n = seg.unicode_len();
    if n > 0 && seg.get_char(0) == ':' {
        let mut out = String::from_str("{");
        out.append(seg.substring_char(1, n));
        out.append("}");
        proof {
            reveal_strlit("{");
            reveal_strlit("}");
            assert(out@ =~= seq!['{'] + seg@.drop_first() + seq!['}']);
        }
        out
    } else {
        String::from_str(seg)
    }
}

/// The route `path` with each segment in OpenAPI notation.
pub fn templated_route_exec(path: &str) -> (res: String)
    ensures
        res@ == templated_route(path@),
{
    let n = path.unicode_len();
    let ghost s = path@;
    let ghost mut raw: Seq<Seq<char>> = Seq::empty();
    let mut done: Vec<String> = Vec::new();
    let mut seg_start: usize = 0;
    let mut i: usize = 0;
    proof {
        assert(s.take(0) =~= Seq::<char>::empty());
        assert(s.subrange(0, 0) =~= Seq::<char>::empty());
        assert(raw.push(Seq::<char>::empty()) =~= seq![Seq::<char>::empty()]);
    }
    while i < n
        invariant
            n == s.len(),
            s == path@,
            seg_start <= i <= n,
            split_on(s.take(i as int), '/') == raw.push(s.subrange(seg_start as int, i as int)),
            done@.len() == raw.len(),
            forall|k: int| 0 <= k < raw.len() ==> #[trigger] done@[k]@ == template_segment(raw[k]),
        decreases n - i,
    {
        let c = path.get_char(i);
        proof {
            assert(s.take(i + 1).drop_last() =~= s.take(i as int));
            assert(s.take(i + 1).last() == c);
        }
        if c == '/' {
            let seg = path.substring_char(seg_start, i);
            let t = template_segment_exec(seg);
            done.push(t);
            proof {
                raw = raw.push(s.subrange(seg_start as int, i as int));
                assert(s.subrange((i + 1) as int, (i + 1) as int) =~= Seq::<char>::empty());
            }
            seg_start = i + 1;
        } else {
            proof {
                let r = raw.push(s.subrange(seg_start as int, i as int));
                assert(s.subrange(seg_start as int, i as int).push(c) =~= s.subrange(
                    seg_start as int,
                    (i + 1) as int,
                ));
                assert(r.update(r.len() - 1, r.last().push(c)) =~= raw.push(
                    s.subrange(seg_start as int, (i + 1) as int),
                ));
            }
        }
        i = i + 1;
    }
    let seg = path.substring_char(seg_start, n);
    let t = template_segment_exec(seg);
    done.push(t);
    proof {
        raw = raw.push(s.subrange(seg_start as int, n as int));
        assert(s.take(n as int) =~= s);
    }
    let ghost segs = split_on(s, '/').map_values(|seg: Seq<char>| template_segment(seg));
    assert(segs.len() == done@.len());
    let mut out = String::new();
    let mut k: usize = 0;
    while k < done.len()
        invariant
            segs.len() == done@.len(),
            segs == split_on(s, '/').map_values(|seg: Seq<char>| template_segment(seg)),
            split_on(s, '/') == raw,
            forall|j: int| 0 <= j < raw.len() ==> #[trigger] done@[j]@ == template_segment(raw[j]),
            k <= done.len(),
            out@ == join_with(segs.take(k as int), '/'),
        decreases done.len() - k,
    {
        assert(segs[k as int] == done@[k as int]@);
        if k > 0 {
            out.append("/");
            proof {
                reveal_strlit("/");
            }
        }
        out.append(done[k].as_str());
        proof {
            let t = segs.take(k + 1);
            assert(t.drop_last() =~= segs.take(k as int));
            if k == 0 {
                assert(out@ =~= t[0]);
            } else {
                assert(out@ =~= join_with(t.drop_last(), '/').push('/') + t.last());
            }
        }
        k = k + 1;
    }
    assert(segs.take(done@.len() as int) =~= segs);
    out
}

/// The route under which `path` is documented, below the context path `prefix`.
pub fn route_for_exec(prefix: &str, path: &str) -> (res: String)
    ensures
        res@ == route_for(prefix@, path@),
{
    let mut out = String::from_str(prefix);
    let t = templated_route_exec(path);
    out.append(t.as_str());
    out
}

/// The short name of a handler: what follows the last `:` in its type name.
pub fn handler_short_name(full_name: &str) -> (res: Option<String>)
    ensures
        match after_last_colon(full_name@) {
            Some(t) => res is Some && res->0@ == t,
            None => res is None,
        },
{
    let n = full_name.unicode_len();
    let ghost s = full_name@;
    let mut last: Option<usize> = None;
    let mut i: usize = 0;
    while i < n
        invariant
            n == s.len(),
            s == full_name@,
            i <= n,
            match last {
                Some(j) => j < i && after_last_colon(s.take(i as int)) == Some(
                    s.subrange(j + 1, i as int),
                ),
                None => after_last_colon(s.take(i as int)) is None,
            },
        decreases n - i,
    {
        let c = full_name.get_char(i);
        proof {
            assert(s.take(i + 1).drop_last() =~= s.take(i as int));
            assert(s.take(i + 1).last() == c);
            if c != ':' {
                if let Some(j) = last {
                    assert(s.subrange(j + 1, i as int).push(c) =~= s.subrange(j + 1, i + 1));
                }
            } else {
                assert(s.subrange(i + 1, i + 1) =~= Seq::<char>::empty());
            }
        }
        if c == ':' {
            last = Some(i);
        }
        i = i + 1;
    }
    proof {
        assert(s.take(n as int) =~= s);
    }
    match last {
        Some(j) => Some(String::from_str(full_name.substring_char(j + 1, n))),
        None => None,
    }
}

} // verus!
