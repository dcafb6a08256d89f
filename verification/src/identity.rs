//! The snapshot identity resolver: pure path arithmetic turning a call
//! site's relative source path, the running test's name, and an optional
//! case label into the directory where that snapshot's fixture lives.
use vstd::prelude::*;

verus! {

use vstd::string::{StrSliceExecFns, StringExecFns};

/// The test-name segment that follows the last `::` separator before
/// position `i`; the whole name when no separator occurs there.
pub open spec fn last_segment_from(s: Seq<char>, i: int) -> Seq<char>
    decreases i,
{
    if i < 2 {
        s
    } else if s[i - 2] == ':' && s[i - 1] == ':' {
        s.subrange(i, s.len() as int)
    } else {
        last_segment_from(s, i - 1)
    }
}

/// The innermost name segment: what follows the last `::`, or the whole
/// name when it holds no `::`.
pub open spec fn last_segment(s: Seq<char>) -> Seq<char> {
    last_segment_from(s, s.len() as int)
}

/// The root directory that holds every snapshot fixture.
pub open spec fn snapshots_root() -> Seq<char> {
    seq!['s', 'n', 'a', 'p', 's', 'h', 'o', 't', 's']
}

/// The fixture directory of one snapshot:
/// `snapshots/<relative path>/<test name>`, with the case label as one
/// more component when present.  The test name is the innermost segment
/// of the running test's qualified name.
pub open spec fn snapshot_path_text(
    relative_path: Seq<char>,
    thread_name: Seq<char>,
    case_name: Option<Seq<char>>,
) -> Seq<char> {
    let base = snapshots_root() + seq!['/'] + relative_path + seq!['/'] + last_segment(
        thread_name,
    );
    match case_name {
        Some(c) => base + seq!['/'] + c,
        None => base,
    }
}

/// Extracts the innermost segment of a `::`-qualified test name.
pub fn test_name_segment(thread_name: &str) -> (r: String)
    ensures
        r@ == last_segment(thread_name@),
{
    let n = thread_name.unicode_len();
    let mut i: usize = n;
    while i >= 2
        invariant
            i <= n,
            n == thread_name@.len(),
            last_segment_from(thread_name@, i as int) == last_segment(thread_name@),
        decreases i,
    {
        if thread_name.get_char(i - 2) == ':' && thread_name.get_char(i - 1) == ':' {
            let seg = thread_name.substring_char(i, n);
            return seg.to_owned();
        }
        i = i - 1;
    }
    thread_name.to_owned()
}

/// Computes the fixture directory for one snapshot from the call site's
/// source path (relative to the repository root), the running test's
/// qualified name, and an optional case label.  Pure path arithmetic: it
/// never touches the store.
pub fn resolve_snapshot_path(relative_path: &str, thread_name: &str, case_name: Option<&str>) -> (
    r: String)
    ensures
        ({
            let lbl = match case_name {
                Some(c) => Some(c@),
                None => None::<Seq<char>>,
            };
            r@ == snapshot_path_text(relative_path@, thread_name@, lbl)
        }),
{
    proof {
        reveal_strlit("snapshots");
        reveal_strlit("/");
    }
    let mut r = String::new();
    r.append("snapshots");
    r.append("/");
    r.append(relative_path);
    r.append("/");
    let seg = test_name_segment(thread_name);
    r.append(seg.as_str());
    if let Some(c) = case_name {
        r.append("/");
        r.append(c);
        proof {
            assert(r@ =~= snapshot_path_text(relative_path@, thread_name@, Some(c@)));
        }
        return r;
    }
    proof {
        assert(r@ =~= snapshot_path_text(relative_path@, thread_name@, None::<Seq<char>>));
    }
    r
}

} // verus!
