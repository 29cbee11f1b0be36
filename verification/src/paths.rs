//! Path reasoning for archive extraction: splitting entry names into
//! components, deciding whether a relative path escapes the directory it is
//! extracted into, and joining entry names onto a destination directory.
//!
//! An entry name is modelled as its sequence of `/`-separated components. A
//! name escapes when, walking its components left to right with `..` going up
//! one level and ordinary names going down one, the walk ever rises above the
//! starting directory.

use vstd::prelude::*;

verus! {

/// The `/`-separated components of a path, empty components included, so a
/// path with n separators always has n + 1 components.
pub open spec fn spec_components(s: Seq<char>) -> Seq<Seq<char>>
    decreases s.len(),
{
    if s.len() == 0 {
        seq![Seq::<char>::empty()]
    } else if s[0] == '/' {
        seq![Seq::<char>::empty()] + spec_components(s.drop_first())
    } else {
        let rest = spec_components(s.drop_first());
        seq![seq![s[0]] + rest[0]] + rest.drop_first()
    }
}

/// How one component moves the depth of the walk: `..` goes up, an empty
/// component or `.` stays, anything else goes down into a subdirectory.
pub open spec fn spec_step_depth(depth: int, c: Seq<char>) -> int {
    if c == ".."@ {
        depth - 1
    } else if c.len() == 0 || c == "."@ {
        depth
    } else {
        depth + 1
    }
}

/// Whether walking the components from the given depth ever rises above
/// depth zero.
pub open spec fn spec_escapes_from(comps: Seq<Seq<char>>, depth: int) -> bool
    decreases comps.len(),
{
    if comps.len() == 0 {
        false
    } else {
        let d = spec_step_depth(depth, comps[0]);
        d < 0 || spec_escapes_from(comps.drop_first(), d)
    }
}

/// The depth the walk ends at after all components.
pub open spec fn spec_final_depth(comps: Seq<Seq<char>>, depth: int) -> int
    decreases comps.len(),
{
    if comps.len() == 0 {
        depth
    } else {
        spec_final_depth(comps.drop_first(), spec_step_depth(depth, comps[0]))
    }
}

/// Whether an archive entry name is safe to extract: non-empty, relative,
/// and never escaping the destination directory.
pub open spec fn spec_safe_entry(name: Seq<char>) -> bool {
    name.len() > 0 && name[0] != '/' && !spec_escapes_from(spec_components(name), 0)
}

/// Whether a symbolic link is safe: its own name is a safe entry and its
/// target, resolved relative to the link's parent directory, is relative,
/// non-empty and stays inside the destination directory.
pub open spec fn spec_safe_link(name: Seq<char>, target: Seq<char>) -> bool {
    &&& spec_safe_entry(name)
    &&& target.len() > 0
    &&& target[0] != '/'
    &&& !spec_escapes_from(
        spec_components(target),
        spec_final_depth(spec_components(name).drop_last(), 0),
    )
}

/// A text without separators is its own single component.
proof fn lemma_components_no_sep(c: Seq<char>)
    requires
        forall|i: int| 0 <= i < c.len() ==> c[i] != '/',
    ensures
        spec_components(c) =~= seq![c],
    decreases c.len(),
{
    if c.len() == 0 {
        assert(c =~= Seq::<char>::empty());
        assert(spec_components(c) =~= seq![c]);
    } else {
        lemma_components_no_sep(c.drop_first());
        let rest = spec_components(c.drop_first());
        assert(rest[0] == c.drop_first());
        assert(rest.drop_first() =~= Seq::<Seq<char>>::empty());
        assert(seq![c[0]] + c.drop_first() =~= c);
        assert(spec_components(c) =~= seq![c]);
    }
}

/// Splitting at the first separator: the components of `c + "/" + t` are the
/// component `c` followed by the components of `t`.
proof fn lemma_components_split(c: Seq<char>, t: Seq<char>)
    requires
        forall|i: int| 0 <= i < c.len() ==> c[i] != '/',
    ensures
        spec_components(c + seq!['/'] + t) =~= seq![c] + spec_components(t),
    decreases c.len(),
{
    let s = c + seq!['/'] + t;
    if c.len() == 0 {
        assert(s[0] == '/');
        assert(s.drop_first() =~= t);
        assert(c =~= Seq::<char>::empty());
        assert(spec_components(s) =~= seq![c] + spec_components(t));
    } else {
        lemma_components_split(c.drop_first(), t);
        assert(s.drop_first() =~= c.drop_first() + seq!['/'] + t);
        let rest = spec_components(s.drop_first());
        assert(rest == seq![c.drop_first()] + spec_components(t));
        assert(rest[0] == c.drop_first());
        assert(seq![s[0]] + rest[0] =~= c);
        assert(rest.drop_first() =~= spec_components(t));
        assert(spec_components(s) =~= seq![c] + spec_components(t));
    }
}

/// Walking a concatenation of component sequences: the walk escapes exactly
/// when the first part escapes or the second escapes from where the first
/// ends, and it ends where the second part ends.
proof fn lemma_depth_concat(a: Seq<Seq<char>>, b: Seq<Seq<char>>, depth: int)
    ensures
        spec_escapes_from(a + b, depth) == (spec_escapes_from(a, depth) || spec_escapes_from(
            b,
            spec_final_depth(a, depth),
        )),
        spec_final_depth(a + b, depth) == spec_final_depth(b, spec_final_depth(a, depth)),
    decreases a.len(),
{
    if a.len() == 0 {
        assert(a + b =~= b);
    } else {
        let d = spec_step_depth(depth, a[0]);
        lemma_depth_concat(a.drop_first(), b, d);
        assert((a + b).drop_first() =~= a.drop_first() + b);
    }
}

/// Splits a path into its `/`-separated components.
pub fn split_components(s: &str) -> (v: Vec<String>)
    ensures
        v.deep_view() == spec_components(s@),
{
    let len = s.unicode_len();
    let mut v: Vec<String> = Vec::new();
    let mut start: usize = 0;
    let mut i: usize = 0;
    proof {
        assert(s@.subrange(0, len as int) =~= s@);
        assert(v.deep_view() =~= Seq::<Seq<char>>::empty());
    }
    while i < len
        invariant
            0 <= start <= i <= len,
            len == s@.len(),
            forall|j: int| start <= j < i ==> s@[j] != '/',
            spec_components(s@) =~= v.deep_view() + spec_components(
                s@.subrange(start as int, len as int),
            ),
        decreases len - i,
    {
        let c = s.get_char(i);
        if c == '/' {
            let comp = s.substring_char(start, i);
            let ghost old_dv = v.deep_view();
            v.push(String::from_str(comp));
            proof {
                assert(v.deep_view() =~= old_dv.push(comp@));
                let head = s@.subrange(start as int, i as int);
                let tail = s@.subrange(i + 1, len as int);
                assert(s@.subrange(start as int, len as int) =~= head + seq!['/'] + tail);
                lemma_components_split(head, tail);
                assert(spec_components(s@) =~= v.deep_view() + spec_components(tail));
            }
            start = i + 1;
        }
        i = i + 1;
    }
    let comp = s.substring_char(start, len);
    let ghost old_dv = v.deep_view();
    v.push(String::from_str(comp));
    proof {
        assert(v.deep_view() =~= old_dv.push(comp@));
        lemma_components_no_sep(s@.subrange(start as int, len as int));
        assert(v.deep_view() =~= spec_components(s@));
    }
    v
}

/// Walks the components from a starting depth; `None` exactly when the walk
/// escapes, otherwise the final depth.
pub fn check_depth(comps: &Vec<String>, start_depth: i128) -> (r: Option<i128>)
    requires
        0 <= start_depth < 0x1_0000_0000_0000_0000,
    ensures
        r is Some <==> !spec_escapes_from(comps.deep_view(), start_depth as int),
        r matches Some(d) ==> d == spec_final_depth(comps.deep_view(), start_depth as int),
        r matches Some(d) ==> 0 <= d <= start_depth + comps.deep_view().len(),
{
    let ghost dv = comps.deep_view();
    let dotdot = String::from_str("..");
    let dot = String::from_str(".");
    let mut depth: i128 = start_depth;
    let mut i: usize = 0;
    proof {
        assert(dv.subrange(0, dv.len() as int) =~= dv);
    }
    while i < comps.len()
        invariant
            0 <= i <= comps.len(),
            dv == comps.deep_view(),
            dotdot@ == ".."@,
            dot@ == "."@,
            0 <= depth <= start_depth + i,
            start_depth < 0x1_0000_0000_0000_0000,
            spec_escapes_from(dv, start_depth as int) == spec_escapes_from(
                dv.subrange(i as int, dv.len() as int),
                depth as int,
            ),
            spec_final_depth(dv, start_depth as int) == spec_final_depth(
                dv.subrange(i as int, dv.len() as int),
                depth as int,
            ),
        decreases comps.len() - i,
    {
        let ghost remaining = dv.subrange(i as int, dv.len() as int);
        proof {
            assert(remaining[0] == dv[i as int]);
            assert(remaining.drop_first() =~= dv.subrange(i + 1, dv.len() as int));
        }
        let c = &comps[i];
        let next: i128 = if *c == dotdot {
            if depth == 0 {
                proof {
                    assert(spec_step_depth(depth as int, dv[i as int]) < 0);
                }
                return None;
            }
            depth - 1
        } else if c.as_str().is_empty() || *c == dot {
            depth
        } else {
            depth + 1
        };
        proof {
            assert(next == spec_step_depth(depth as int, dv[i as int]));
        }
        depth = next;
        i = i + 1;
    }
    proof {
        assert(dv.subrange(dv.len() as int, dv.len() as int) =~= Seq::<Seq<char>>::empty());
    }
    Some(depth)
}

/// Decides whether an archive entry name is safe to extract into the
/// destination directory.
pub fn is_safe_entry(name: &str) -> (b: bool)
    ensures
        b == spec_safe_entry(name@),
{
    if name.is_empty() {
        return false;
    }
    if name.get_char(0) == '/' {
        return false;
    }
    let comps = split_components(name);
    check_depth(&comps, 0).is_some()
}

/// Decides whether a symbolic link entry with the given name and target is
/// safe to extract into the destination directory.
pub fn is_safe_link(name: &str, target: &str) -> (b: bool)
    ensures
        b == spec_safe_link(name@, target@),
{
    if !is_safe_entry(name) {
        return false;
    }
    if target.is_empty() {
        return false;
    }
    if target.get_char(0) == '/' {
        return false;
    }
    let mut comps = split_components(name);
    proof {
        assert(comps.deep_view().len() > 0);
    }
    let ghost name_comps = comps.deep_view();
    comps.pop();
    proof {
        assert(comps.deep_view() =~= name_comps.drop_last());
        assert(name_comps =~= name_comps.drop_last() + seq![name_comps.last()]);
        lemma_depth_concat(name_comps.drop_last(), seq![name_comps.last()], 0);
    }
    let parent_len = comps.len();
    let parent_depth = match check_depth(&comps, 0) {
        Some(d) => d,
        None => {
            proof {
                assert(false);
            }
            return false;
        },
    };
    proof {
        assert(parent_depth <= parent_len);
    }
    let target_comps = split_components(target);
    check_depth(&target_comps, parent_depth).is_some()
}

/// Joins an entry name onto a destination directory with a separator.
pub fn join_under(dest: &str, name: &str) -> (r: String)
    ensures
        r@ == dest@ + "/"@ + name@,
{
    String::from_str(dest).concat("/").concat(name)
}

} // verus!
