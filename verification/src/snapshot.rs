//! Layout snapshot support: where golden files live, which element pairs the
//! overlap invariant covers, and the frames the snapshots are taken of.

use vstd::prelude::*;
use crate::text::{chars_of, matches_at, matches_at_exec, push_char};

verus! {

/// `base` with the path component `comp` pushed onto it, as `PathBuf::push`
/// does on Unix: an absolute component replaces the path; otherwise a `/` is
/// put in between unless the path is empty or already ends in `/`.
pub open spec fn path_push(base: Seq<char>, comp: Seq<char>) -> Seq<char> {
    if comp.len() > 0 && comp[0] == '/' {
        comp
    } else if base.len() == 0 || base.last() == '/' {
        base + comp
    } else {
        base.push('/') + comp
    }
}

/// `"tests"`
pub open spec fn tests_dir() -> Seq<char> {
    seq!['t', 'e', 's', 't', 's']
}

/// `"snapshots"`
pub open spec fn snapshots_dir() -> Seq<char> {
    seq!['s', 'n', 'a', 'p', 's', 'h', 'o', 't', 's']
}

/// `".json"`
pub open spec fn json_ext() -> Seq<char> {
    seq!['.', 'j', 's', 'o', 'n']
}

/// The golden file of snapshot `name` under the crate root `crate_dir`:
/// `<crate_dir>/tests/snapshots/<name>.json`.
pub open spec fn snapshot_file(crate_dir: Seq<char>, name: Seq<char>) -> Seq<char> {
    path_push(path_push(path_push(crate_dir, tests_dir()), snapshots_dir()), name + json_ext())
}

fn push_component(base: String, comp: &Vec<char>) -> (r: String)
    ensures
        r@ == path_push(base@, comp@),
{
    if comp.len() > 0 && comp[0] == '/' {
        let mut r = String::new();
        let mut i: usize = 0;
        while i < comp.len()
            invariant
                i <= comp.len(),
                r@ == comp@.take(i as int),
            decreases comp.len() - i,
        {
            push_char(&mut r, comp[i]);
            assert(comp@.take(i + 1) =~= comp@.take(i as int).push(comp@[i as int]));
            i = i + 1;
        }
        assert(comp@.take(comp.len() as int) =~= comp@);
        return r;
    }
    let b = chars_of(base.as_str());
    let mut r = base;
    let ghost start = r@;
    if b.len() > 0 && b[b.len() - 1] != '/' {
        push_char(&mut r, '/');
    }
    let ghost head = r@;
    let mut i: usize = 0;
    while i < comp.len()
        invariant
            i <= comp.len(),
            r@ == head + comp@.take(i as int),
        decreases comp.len() - i,
    {
        push_char(&mut r, comp[i]);
        assert(head + comp@.take(i + 1) =~= (head + comp@.take(i as int)).push(comp@[i as int]));
        i = i + 1;
    }
    assert(comp@.take(comp.len() as int) =~= comp@);
    r
}

/// The laws of the golden file paths: under a crate root that does not end in
/// `/`, the path is the root, `/tests/snapshots/`, the name and `.json`; under
/// one that does, the root, `tests/snapshots/`, the name and `.json`. Either
/// way, for a relative name, it ends with the name and `.json`.
pub proof fn lemma_snapshot_file_laws(crate_dir: Seq<char>, name: Seq<char>)
    ensures
        crate_dir.len() > 0 && crate_dir.last() != '/' && (name.len() == 0 || name[0] != '/')
            ==> snapshot_file(crate_dir, name) == crate_dir + "/tests/snapshots/"@ + name
            + ".json"@,
        crate_dir.len() > 0 && crate_dir.last() == '/' && (name.len() == 0 || name[0] != '/')
            ==> snapshot_file(crate_dir, name) == crate_dir + "tests/snapshots/"@ + name
            + ".json"@,
{
    reveal_strlit("/tests/snapshots/");
    reveal_strlit("tests/snapshots/");
    reveal_strlit(".json");
    assert(json_ext() =~= ".json"@);
    if crate_dir.len() > 0 && (name.len() == 0 || name[0] != '/') {
        let nj = name + json_ext();
        assert(nj.len() == 0 || nj[0] != '/');
        let t = path_push(crate_dir, tests_dir());
        let u = path_push(t, snapshots_dir());
        assert(t.last() == 's');
        assert(u.last() == 's');
        if crate_dir.last() != '/' {
            assert(snapshot_file(crate_dir, name) =~= crate_dir + "/tests/snapshots/"@ + name
                + ".json"@);
        } else {
            assert(snapshot_file(crate_dir, name) =~= crate_dir + "tests/snapshots/"@ + name
                + ".json"@);
        }
    }
}

/// Path of the golden file for snapshot `name`, under the crate root
/// `crate_dir`: `<crate_dir>/tests/snapshots/<name>.json`.
pub fn snapshot_path(crate_dir: &str, name: &str) -> (p: String)
    ensures
        p@ == snapshot_file(crate_dir@, name@),
{
    let tests = vec!['t', 'e', 's', 't', 's'];
    let snapshots = vec!['s', 'n', 'a', 'p', 's', 'h', 'o', 't', 's'];
    assert(tests@ =~= tests_dir());
    assert(snapshots@ =~= snapshots_dir());
    let mut file = chars_of(name);
    file.push('.');
    file.push('j');
    file.push('s');
    file.push('o');
    file.push('n');
    assert(file@ =~= name@ + json_ext());
    let mut root = String::new();
    let dir = chars_of(crate_dir);
    let mut i: usize = 0;
    while i < dir.len()
        invariant
            i <= dir.len(),
            root@ == dir@.take(i as int),
        decreases dir.len() - i,
    {
        push_char(&mut root, dir[i]);
        assert(dir@.take(i + 1) =~= dir@.take(i as int).push(dir@[i as int]));
        i = i + 1;
    }
    assert(dir@.take(dir.len() as int) =~= dir@);
    let p = push_component(root, &tests);
    let p = push_component(p, &snapshots);
    push_component(p, &file)
}

/// `"frame_outer"`
pub open spec fn frame_outer_key() -> Seq<char> {
    seq!['f', 'r', 'a', 'm', 'e', '_', 'o', 'u', 't', 'e', 'r']
}

/// `"callout_label"`
pub open spec fn callout_label_prefix() -> Seq<char> {
    seq!['c', 'a', 'l', 'l', 'o', 'u', 't', '_', 'l', 'a', 'b', 'e', 'l']
}

/// Whether the overlap invariant covers the pair of elements with keys `a` and
/// `b`. The frame body underlies every annotation by design, and stacking of
/// callout labels is the layout's concern, so those pairs are not counted.
pub open spec fn overlap_pair_counted(a: Seq<char>, b: Seq<char>) -> bool {
    !(a == frame_outer_key() || b == frame_outer_key() || (matches_at(
        a,
        callout_label_prefix(),
        0,
    ) && matches_at(b, callout_label_prefix(), 0)))
}

/// The key starts with `"callout_label"`.
pub open spec fn is_callout_label_key(k: Seq<char>) -> bool {
    k.len() >= 13 && k.take(13) == "callout_label"@
}

/// The laws of the overlap invariant's pairs: the order of a pair does not
/// matter; a pair with the frame body is never counted, nor a pair of two
/// callout labels; every other pair is counted.
pub proof fn lemma_overlap_pair_laws(a: Seq<char>, b: Seq<char>)
    ensures
        overlap_pair_counted(a, b) == overlap_pair_counted(b, a),
        a == "frame_outer"@ || b == "frame_outer"@ ==> !overlap_pair_counted(a, b),
        is_callout_label_key(a) && is_callout_label_key(b) ==> !overlap_pair_counted(a, b),
        a != "frame_outer"@ && b != "frame_outer"@ && !(is_callout_label_key(a)
            && is_callout_label_key(b)) ==> overlap_pair_counted(a, b),
{
    reveal_strlit("frame_outer");
    reveal_strlit("callout_label");
    assert(frame_outer_key() =~= "frame_outer"@);
    assert(callout_label_prefix() =~= "callout_label"@);
    assert(matches_at(a, callout_label_prefix(), 0) <==> is_callout_label_key(a)) by {
        if a.len() >= 13 {
            assert(a.subrange(0, 13) =~= a.take(13));
        }
    }
    assert(matches_at(b, callout_label_prefix(), 0) <==> is_callout_label_key(b)) by {
        if b.len() >= 13 {
            assert(b.subrange(0, 13) =~= b.take(13));
        }
    }
}

/// See [`overlap_pair_counted`].
pub fn overlap_pair_is_counted(a: &str, b: &str) -> (r: bool)
    ensures
        r == overlap_pair_counted(a@, b@),
{
    let va = chars_of(a);
    let vb = chars_of(b);
    let frame = vec!['f', 'r', 'a', 'm', 'e', '_', 'o', 'u', 't', 'e', 'r'];
    let label = vec!['c', 'a', 'l', 'l', 'o', 'u', 't', '_', 'l', 'a', 'b', 'e', 'l'];
    assert(frame@ =~= frame_outer_key());
    assert(label@ =~= callout_label_prefix());
    let a_is_frame = va.len() == frame.len() && matches_at_exec(&va, &frame, 0);
    let b_is_frame = vb.len() == frame.len() && matches_at_exec(&vb, &frame, 0);
    assert(a_is_frame == (a@ == frame_outer_key())) by {
        if va.len() == frame.len() && matches_at(va@, frame@, 0) {
            assert(va@.subrange(0, frame@.len() as int) =~= va@);
        }
        if a@ == frame_outer_key() {
            assert(va@.subrange(0, frame@.len() as int) =~= va@);
        }
    }
    assert(b_is_frame == (b@ == frame_outer_key())) by {
        if vb.len() == frame.len() && matches_at(vb@, frame@, 0) {
            assert(vb@.subrange(0, frame@.len() as int) =~= vb@);
        }
        if b@ == frame_outer_key() {
            assert(vb@.subrange(0, frame@.len() as int) =~= vb@);
        }
    }
    let both_labels = matches_at_exec(&va, &label, 0) && matches_at_exec(&vb, &label, 0);
    !(a_is_frame || b_is_frame || both_labels)
}

/// One frame the layout snapshots are taken of. Lengths are in sixteenths of an inch.
#[derive(Debug, Clone, Copy, PartialEq, Eq)]
pub struct SnapshotCase {
    /// Name of the case and of its golden file
    pub label: &'static str,
    pub artwork_height: u32,
    pub artwork_width: u32,
    pub frame_material_width: u32,
    pub mat_width_top_bottom: u32,
    pub mat_width_sides: u32,
}

/// A case with a 3/4" frame and the same mat on every side.
pub open spec fn snapshot_case(label: &'static str, height: u32, width: u32, mat: u32) -> SnapshotCase {
    SnapshotCase {
        label,
        artwork_height: height,
        artwork_width: width,
        frame_material_width: 12,
        mat_width_top_bottom: mat,
        mat_width_sides: mat,
    }
}

/// The snapshot cases, in order.
pub open spec fn snapshot_cases() -> Seq<SnapshotCase> {
    seq![
        snapshot_case("8x10_no_mat", 160, 128, 0),
        snapshot_case("16x20_with_mat", 320, 256, 32),
        snapshot_case("5x100_portrait_break", 1600, 80, 0),
        snapshot_case("100x5_landscape_break", 80, 1600, 0),
        snapshot_case("3x20_label_fit_break", 320, 48, 0),
        snapshot_case("250x375_dual_break", 6000, 4000, 0),
        snapshot_case("4x6_small", 96, 64, 0),
    ]
}

fn make_case(label: &'static str, height: u32, width: u32, mat: u32) -> (c: SnapshotCase)
    ensures
        c == snapshot_case(label, height, width, mat),
{
    SnapshotCase {
        label,
        artwork_height: height,
        artwork_width: width,
        frame_material_width: 12,
        mat_width_top_bottom: mat,
        mat_width_sides: mat,
    }
}

/// The frames the layout snapshots are taken of: a standard frame without and
/// with a mat, extreme portrait and landscape frames that need an axis break,
/// a tall frame whose labels force a break, a frame extreme on both axes, and
/// a small dense frame.
pub fn test_designs() -> (cases: Vec<SnapshotCase>)
    ensures
        cases@ == snapshot_cases(),
{
    let mut cases: Vec<SnapshotCase> = Vec::new();
    cases.push(make_case("8x10_no_mat", 160, 128, 0));
    cases.push(make_case("16x20_with_mat", 320, 256, 32));
    cases.push(make_case("5x100_portrait_break", 1600, 80, 0));
    cases.push(make_case("100x5_landscape_break", 80, 1600, 0));
    cases.push(make_case("3x20_label_fit_break", 320, 48, 0));
    cases.push(make_case("250x375_dual_break", 6000, 4000, 0));
    cases.push(make_case("4x6_small", 96, 64, 0));
    assert(cases@ =~= snapshot_cases());
    cases
}

} // verus!
