use vstd::prelude::*;

verus! {

use crate::text::chars_of;

/// Adds a finished part to the components found so far: empty parts (from
/// repeated or trailing separators) and `.` parts are not components.
pub open spec fn flush_part(comps: Seq<Seq<char>>, part: Seq<char>) -> Seq<Seq<char>> {
    if part.len() > 0 && part != seq!['.'] {
        comps.push(part)
    } else {
        comps
    }
}

/// Scans a path from the left: the components finished so far and the part
/// being read.
pub open spec fn scan_parts(s: Seq<char>) -> (Seq<Seq<char>>, Seq<char>)
    decreases s.len(),
{
    if s.len() == 0 {
        (Seq::empty(), Seq::empty())
    } else {
        let (comps, part) = scan_parts(s.drop_last());
        if s.last() == '/' {
            (flush_part(comps, part), Seq::empty())
        } else {
            (comps, part.push(s.last()))
        }
    }
}

/// The leading component: the root `/`, or `.` when the path begins with a
/// current-directory part.
pub open spec fn path_start(s: Seq<char>) -> Seq<Seq<char>> {
    if s.len() > 0 && s[0] == '/' {
        seq![seq!['/']]
    } else if s.len() > 0 && s[0] == '.' && (s.len() == 1 || s[1] == '/') {
        seq![seq!['.']]
    } else {
        Seq::empty()
    }
}

/// The components of a path, as `Path::components` gives them with `/` as the
/// separator: `a//b/` and `a/./b` both have the components `a`, `b`.
pub open spec fn path_components(s: Seq<char>) -> Seq<Seq<char>> {
    path_start(s) + flush_part(scan_parts(s).0, scan_parts(s).1)
}

/// Whether two paths are equal as `Path`s are compared: component by component.
pub open spec fn same_path_spec(a: Seq<char>, b: Seq<char>) -> bool {
    path_components(a) == path_components(b)
}

pub open spec fn comp_views(v: Seq<Vec<char>>) -> Seq<Seq<char>> {
    v.map_values(|c: Vec<char>| c@)
}

fn flush(comps: &mut Vec<Vec<char>>, part: Vec<char>)
    ensures
        comp_views(final(comps)@) == flush_part(comp_views(old(comps)@), part@),
{
    if part.len() > 0 && !(part.len() == 1 && part[0] == '.') {
        proof {
            assert(part@ != seq!['.']) by {
                if part@ == seq!['.'] {
                    assert(part@[0] == '.');
                }
            }
        }
        comps.push(part);
        assert(comp_views(comps@) =~= comp_views(old(comps)@).push(part@));
    } else {
        assert(part@.len() == 0 || part@ =~= seq!['.']);
    }
}

/// The components of `path`.
fn components(path: &str) -> (comps: Vec<Vec<char>>)
    ensures
        comp_views(comps@) == path_components(path@),
{
    let s = chars_of(path);
    let n = s.len();
    let mut comps: Vec<Vec<char>> = Vec::new();
    if n > 0 && s[0] == '/' {
        let mut root: Vec<char> = Vec::new();
        root.push('/');
        comps.push(root);
        assert(comps@[0]@ =~= seq!['/']);
        assert(comp_views(comps@) =~= seq![seq!['/']]);
    } else if n > 0 && s[0] == '.' && (n == 1 || s[1] == '/') {
        let mut here: Vec<char> = Vec::new();
        here.push('.');
        comps.push(here);
        assert(comps@[0]@ =~= seq!['.']);
        assert(comp_views(comps@) =~= seq![seq!['.']]);
    } else {
        assert(comp_views(comps@) =~= Seq::<Seq<char>>::empty());
    }
    let ghost start = comp_views(comps@);
    assert(start == path_start(s@));
    let mut part: Vec<char> = Vec::new();
    let mut i: usize = 0;
    assert(s@.take(0) =~= Seq::<char>::empty());
    while i < n
        invariant
            n == s@.len(),
            s@ == path@,
            i <= n,
            start == path_start(s@),
            comp_views(comps@) == start + scan_parts(s@.take(i as int)).0,
            part@ == scan_parts(s@.take(i as int)).1,
        decreases n - i,
    {
        let c = s[i];
        assert(s@.take(i + 1).drop_last() =~= s@.take(i as int));
        assert(s@.take(i + 1).last() == c);
        let ghost inner = scan_parts(s@.take(i as int)).0;
        if c == '/' {
            let done = part;
            part = Vec::new();
            flush(&mut comps, done);
            assert(flush_part(start + inner, done@) =~= start + flush_part(inner, done@));
            assert(part@ =~= Seq::<char>::empty());
        } else {
            part.push(c);
        }
        i += 1;
    }
    assert(s@.take(n as int) =~= s@);
    let ghost inner = scan_parts(s@).0;
    let done = part;
    flush(&mut comps, done);
    assert(flush_part(start + inner, done@) =~= start + flush_part(inner, done@));
    comps
}

/// Whether `a` and `b` name the same path, compared component by component.
pub fn same_path(a: &str, b: &str) -> (same: bool)
    ensures
        same == same_path_spec(a@, b@),
{
    let x = components(a);
    let y = components(b);
    if x.len() != y.len() {
        assert(comp_views(x@).len() != comp_views(y@).len());
        return false;
    }
    let mut i: usize = 0;
    while i < x.len()
        invariant
            x.len() == y.len(),
            i <= x.len(),
            comp_views(x@) == path_components(a@),
            comp_views(y@) == path_components(b@),
            forall|j: int| 0 <= j < i ==> x@[j]@ == y@[j]@,
        decreases x.len() - i,
    {
        let p = &x[i];
        let q = &y[i];
        assert(comp_views(x@)[i as int] == p@);
        assert(comp_views(y@)[i as int] == q@);
        if p.len() != q.len() {
            return false;
        }
        let mut k: usize = 0;
        while k < p.len()
            invariant
                p.len() == q.len(),
                k <= p.len(),
                forall|j: int| 0 <= j < k ==> p@[j] == q@[j],
                i < x.len(),
                comp_views(x@) == path_components(a@),
                comp_views(y@) == path_components(b@),
                comp_views(x@)[i as int] == p@,
                comp_views(y@)[i as int] == q@,
            decreases p.len() - k,
        {
            if p[k] != q[k] {
                assert(p@[k as int] != q@[k as int]);
                return false;
            }
            k += 1;
        }
        assert(p@ =~= q@);
        i += 1;
    }
    assert(comp_views(x@) =~= comp_views(y@));
    true
}

} // verus!
