//! Workspace-relative paths, as Unix reads them.
//!
//! The slash is the only separator, a leading slash makes a path absolute, and there are no
//! drives or other prefixes. A resolved path is modelled by its components below the file
//! system's root.

use vstd::prelude::*;
use vstd::string::*;

use crate::text::same_text;

verus! {

/// A path without symbolic links: its components below the root, as bytes.
pub type ResolvedPath = Vec<Vec<u8>>;

/// The model of a resolved path.
pub type PathModel = Seq<Seq<u8>>;

/// The model of a resolved path.
pub open spec fn path_model(path: Seq<Vec<u8>>) -> PathModel {
    path.map_values(|name: Vec<u8>| name@)
}

/// The pieces of a text between slashes, where `piece` has been read already.
pub open spec fn pieces(s: Seq<char>, piece: Seq<char>) -> Seq<Seq<char>>
    decreases s.len(),
{
    if s.len() == 0 {
        seq![piece]
    } else if s[0] == '/' {
        seq![piece] + pieces(s.drop_first(), seq![])
    } else {
        pieces(s.drop_first(), piece.push(s[0]))
    }
}

/// The pieces of a Unix path: what stands between its slashes.
pub open spec fn segments(path: Seq<char>) -> Seq<Seq<char>> {
    pieces(path, seq![])
}

/// Whether a Unix path stays below where it starts by its text: it is not absolute and
/// never goes up.
pub open spec fn stays_below(path: Seq<char>) -> bool {
    &&& !(path.len() > 0 && path[0] == '/')
    &&& !segments(path).contains(".."@)
}

/// Whether a segment names an entry: an empty one and a single dot name none.
pub open spec fn names_an_entry(segment: Seq<char>) -> bool {
    segment != ""@ && segment != "."@
}

/// The entries that a path names, as bytes.
pub open spec fn entries(path: Seq<char>) -> PathModel {
    segments(path).filter(|segment: Seq<char>| names_an_entry(segment)).map_values(
        |segment: Seq<char>| vstd::utf8::encode_utf8(segment),
    )
}

/// Whether a path lies in a directory, or is that directory.
pub open spec fn lies_in(path: PathModel, directory: PathModel) -> bool {
    path.len() >= directory.len() && path.take(directory.len() as int) == directory
}

/// The pieces of a path between slashes.
pub fn split_path(path: &str) -> (found: Vec<String>)
    ensures
        crate::json::texts(found@) == segments(path@),
{
    let total = path.unicode_len();
    let mut found: Vec<String> = Vec::new();
    let mut start: usize = 0;
    let mut i: usize = 0;
    proof {
        assert(path@.skip(0) =~= path@);
        assert(path@.subrange(0, 0) =~= seq![]);
        assert(crate::json::texts(found@) + segments(path@) =~= segments(path@));
    }
    let mut rest = path.chars();
    loop
        invariant
            total == path@.len(),
            start <= i <= total,
            vstd::std_specs::iter::IteratorSpec::remaining(&rest) == path@.skip(i as int),
            crate::json::texts(found@) + pieces(
                path@.skip(i as int),
                path@.subrange(start as int, i as int),
            ) == segments(path@),
        decreases total - i,
    {
        match rest.next() {
            None => {
                let ghost before = crate::json::texts(found@);
                found.push(path.substring_char(start, i).to_owned());
                assert(crate::json::texts(found@) =~= before + seq![
                    path@.subrange(start as int, i as int),
                ]);
                return found;
            },
            Some(c) => {
                assert(path@.skip(i as int).drop_first() =~= path@.skip(i + 1));
                if c == '/' {
                    let ghost before = crate::json::texts(found@);
                    let ghost piece = path@.subrange(start as int, i as int);
                    found.push(path.substring_char(start, i).to_owned());
                    i = i + 1;
                    start = i;
                    proof {
                        assert(path@.subrange(start as int, i as int) =~= seq![]);
                        assert(crate::json::texts(found@) =~= before + seq![piece]);
                        assert(before + seq![piece] + pieces(path@.skip(i as int), seq![])
                            =~= before + (seq![piece] + pieces(path@.skip(i as int), seq![])));
                    }
                } else {
                    assert(path@.subrange(start as int, i + 1) =~= path@.subrange(
                        start as int,
                        i as int,
                    ).push(c));
                    i = i + 1;
                }
            },
        }
    }
}

/// Whether a path stays below where it starts by its text.
pub fn is_relative(path: &str) -> (relative: bool)
    ensures
        relative == stays_below(path@),
{
    if path.unicode_len() > 0 && path.get_char(0) == '/' {
        return false;
    }
    let found = split_path(path);
    let ghost all = segments(path@);
    let mut i: usize = 0;
    while i < found.len()
        invariant
            i <= found.len(),
            all == segments(path@),
            crate::json::texts(found@) == all,
            forall|j: int| 0 <= j < i ==> #[trigger] all[j] != ".."@,
        decreases found.len() - i,
    {
        assert(all[i as int] == found[i as int]@);
        if same_text(found[i].as_str(), "..") {
            return false;
        }
        i = i + 1;
    }
    true
}

/// The last entry that a path names.
pub fn last_entry(path: &str) -> (name: Option<Vec<u8>>)
    ensures
        match name {
            Some(name) => entries(path@).len() > 0 && name@ == entries(path@).last(),
            None => entries(path@).len() == 0,
        },
{
    let found = split_path(path);
    let ghost all = segments(path@);
    let ghost keep = |segment: Seq<char>| names_an_entry(segment);
    let ghost code = |segment: Seq<char>| vstd::utf8::encode_utf8(segment);
    let mut end: usize = found.len();
    assert(all.take(end as int) =~= all);
    while end > 0
        invariant
            end <= found.len(),
            all == segments(path@),
            crate::json::texts(found@) == all,
            keep == (|segment: Seq<char>| names_an_entry(segment)),
            code == (|segment: Seq<char>| vstd::utf8::encode_utf8(segment)),
            all.filter(keep) == all.take(end as int).filter(keep),
        decreases end,
    {
        let segment = found[end - 1].as_str();
        proof {
            assert(all.take(end as int).drop_last() =~= all.take(end - 1));
            assert(all.take(end as int).last() == segment@);
            reveal(Seq::filter);
        }
        if !same_text(segment, "") && !same_text(segment, ".") {
            let ghost kept = all.take(end - 1).filter(keep);
            assert(all.filter(keep) == kept.push(segment@));
            assert(entries(path@).last() == code(segment@));
            return Some(segment.as_bytes_vec());
        }
        end = end - 1;
    }
    assert(all.take(0) =~= seq![]);
    assert(all.take(0).filter(keep).len() == 0) by {
        reveal(Seq::filter);
    }
    None
}

fn same_bytes(a: &Vec<u8>, b: &Vec<u8>) -> (same: bool)
    ensures
        same == (a@ == b@),
{
    if a.len() != b.len() {
        return false;
    }
    let mut i: usize = 0;
    while i < a.len()
        invariant
            i <= a.len(),
            a.len() == b.len(),
            forall|j: int| 0 <= j < i ==> a@[j] == b@[j],
        decreases a.len() - i,
    {
        if a[i] != b[i] {
            return false;
        }
        i = i + 1;
    }
    assert(a@ =~= b@);
    true
}

/// Whether a path lies in a directory, or is that directory.
pub fn starts_with(path: &ResolvedPath, directory: &ResolvedPath) -> (inside: bool)
    ensures
        inside == lies_in(path_model(path@), path_model(directory@)),
{
    if path.len() < directory.len() {
        return false;
    }
    let ghost whole = path_model(path@);
    let ghost above = path_model(directory@);
    let mut i: usize = 0;
    while i < directory.len()
        invariant
            i <= directory.len() <= path.len(),
            whole == path_model(path@),
            above == path_model(directory@),
            forall|j: int| 0 <= j < i ==> #[trigger] whole[j] == above[j],
        decreases directory.len() - i,
    {
        if !same_bytes(&path[i], &directory[i]) {
            assert(whole.take(above.len() as int)[i as int] != above[i as int]);
            return false;
        }
        assert(whole[i as int] == above[i as int]);
        i = i + 1;
    }
    assert(whole.take(above.len() as int) =~= above);
    true
}

// ---- laws ---------------------------------------------------------------------------

proof fn pieces_hold_the_text(s: Seq<char>, piece: Seq<char>)
    requires
        forall|i: int| 0 <= i < s.len() ==> s[i] != '/',
    ensures
        pieces(s, piece) == seq![piece + s],
    decreases s.len(),
{
    if s.len() == 0 {
        assert(piece + s =~= piece);
    } else {
        pieces_hold_the_text(s.drop_first(), piece.push(s[0]));
        assert(piece.push(s[0]) + s.drop_first() =~= piece + s);
    }
}

proof fn pieces_end_at_a_slash(before: Seq<char>, rest: Seq<char>, piece: Seq<char>)
    requires
        forall|i: int| 0 <= i < before.len() ==> before[i] != '/',
    ensures
        pieces(before + seq!['/'] + rest, piece) == seq![piece + before] + segments(rest),
    decreases before.len(),
{
    let s = before + seq!['/'] + rest;
    if before.len() == 0 {
        assert(s.drop_first() =~= rest);
        assert(piece + before =~= piece);
    } else {
        pieces_end_at_a_slash(before.drop_first(), rest, piece.push(before[0]));
        assert(s.drop_first() =~= before.drop_first() + seq!['/'] + rest);
        assert(piece.push(before[0]) + before.drop_first() =~= piece + before);
    }
}

/// A path without a slash is one segment, and a slash ends a segment.
pub proof fn a_path_is_cut_at_its_slashes(segment: Seq<char>, rest: Seq<char>)
    requires
        forall|i: int| 0 <= i < segment.len() ==> segment[i] != '/',
    ensures
        segments(segment) == seq![segment],
        segments(segment + seq!['/'] + rest) == seq![segment] + segments(rest),
{
    pieces_hold_the_text(segment, Seq::empty());
    pieces_end_at_a_slash(segment, rest, Seq::empty());
    assert(Seq::<char>::empty() + segment =~= segment);
}

/// A path stays below where it starts exactly if it does not begin with a slash and none of
/// its segments goes up; and a path lies in a directory exactly if the directory's
/// components are its first ones.
pub proof fn staying_below_is_never_going_up(path: Seq<char>, inner: PathModel, outer: PathModel)
    ensures
        stays_below(path) <==> !(path.len() > 0 && path[0] == '/') && forall|i: int|
            0 <= i < segments(path).len() ==> #[trigger] segments(path)[i] != seq!['.', '.'],
        lies_in(inner, outer) <==> outer.len() <= inner.len() && forall|i: int|
            0 <= i < outer.len() ==> #[trigger] outer[i] == inner[i],
{
    reveal_strlit("..");
    assert(".."@ =~= seq!['.', '.']);
    if lies_in(inner, outer) {
        assert forall|i: int| 0 <= i < outer.len() implies #[trigger] outer[i] == inner[i] by {
            assert(inner.take(outer.len() as int)[i] == inner[i]);
        }
    }
    if outer.len() <= inner.len() && forall|i: int|
        0 <= i < outer.len() ==> #[trigger] outer[i] == inner[i] {
        assert(inner.take(outer.len() as int) =~= outer);
    }
}

/// The entries of a path are its segments in order, as bytes; an empty segment and a single
/// dot name no entry.
pub proof fn entries_are_the_named_segments(path: Seq<char>, segment: Seq<char>)
    ensures
        names_an_entry(segment) <==> segment.len() > 0 && segment != seq!['.'],
        entries(path).len() <= segments(path).len(),
        (forall|i: int| 0 <= i < segments(path).len() ==> names_an_entry(#[trigger] segments(path)[i]))
            ==> entries(path).len() == segments(path).len() && forall|i: int|
            0 <= i < segments(path).len() ==> #[trigger] entries(path)[i]
                == vstd::utf8::encode_utf8(segments(path)[i]),
{
    reveal_strlit("");
    reveal_strlit(".");
    assert("."@ =~= seq!['.']);
    if segment.len() == 0 {
        assert(segment =~= ""@);
    }
    let keep = |segment: Seq<char>| names_an_entry(segment);
    let all = segments(path);
    all.lemma_filter_len(keep);
    if forall|i: int| 0 <= i < all.len() ==> names_an_entry(#[trigger] all[i]) {
        assert forall|i: int| 0 <= i < all.len() implies keep(#[trigger] all[i]) by {}
        everything_is_kept(all, keep);
    }
}

proof fn everything_is_kept(all: Seq<Seq<char>>, keep: spec_fn(Seq<char>) -> bool)
    requires
        forall|i: int| 0 <= i < all.len() ==> keep(#[trigger] all[i]),
    ensures
        all.filter(keep) == all,
    decreases all.len(),
{
    reveal(Seq::filter);
    if all.len() > 0 {
        everything_is_kept(all.drop_last(), keep);
        assert(keep(all[all.len() - 1]));
        assert(all =~= all.drop_last().push(all.last()));
    }
}

} // verus!
