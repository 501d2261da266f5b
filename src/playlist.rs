//! The shuffled playback order of the image files found in the folders.
use crate::geometry::Size;
use crate::paths::{has_image_extension, is_image_path};
use rand::seq::SliceRandom;
use vstd::prelude::*;

verus! {

/// Which image orientations the playlist keeps.
#[derive(Clone, Copy, Debug, PartialEq, Eq, Structural)]
pub enum OrientationFilter {
    Both,
    Landscape,
    Portrait,
}

/// A file found while walking the folders, with its dimensions when its
/// header could be read.
#[derive(Debug)]
pub struct ScannedFile {
    pub path: String,
    pub dims: Option<Size>,
}

pub open spec fn accepts(filter: OrientationFilter, d: Size) -> bool {
    match filter {
        OrientationFilter::Both => true,
        OrientationFilter::Landscape => d.width >= d.height,
        OrientationFilter::Portrait => d.height > d.width,
    }
}

/// A file belongs in the playlist when it has an image extension, its
/// dimensions could be read, and its orientation passes the filter.
pub open spec fn qualifies(f: ScannedFile, filter: OrientationFilter) -> bool {
    has_image_extension(f.path@) && match f.dims {
        Some(d) => accepts(filter, d),
        None => false,
    }
}

/// The paths that qualify, in the order found, each kept at its first
/// occurrence only.
pub open spec fn selected(files: Seq<ScannedFile>, filter: OrientationFilter) -> Seq<Seq<char>>
    decreases files.len(),
{
    if files.len() == 0 {
        Seq::empty()
    } else {
        let prev = selected(files.drop_last(), filter);
        let f = files.last();
        if qualifies(f, filter) && !prev.contains(f.path@) {
            prev.push(f.path@)
        } else {
            prev
        }
    }
}

pub open spec fn path_views(v: Seq<String>) -> Seq<Seq<char>> {
    v.map_values(|s: String| s@)
}

/// `a` holds the same paths as `b`, each as often, in any order.
pub open spec fn is_permutation(a: Seq<Seq<char>>, b: Seq<Seq<char>>) -> bool {
    a.to_multiset() == b.to_multiset()
}

/// The mathematical state of a playlist: the play order and the position of
/// the next path to hand out.
pub ghost struct PlaylistView {
    pub order: Seq<Seq<char>>,
    pub index: nat,
}

impl PlaylistView {
    /// No path twice, and the index points at a path unless there is none.
    pub open spec fn wf(self) -> bool {
        &&& self.order.no_duplicates()
        &&& if self.order.len() == 0 {
            self.index == 0
        } else {
            self.index < self.order.len()
        }
    }
}

/// One call of `advance` on a non-empty playlist: it hands out the path at
/// the index and moves on; past the end, the order is reshuffled and the
/// index goes back to the start.
pub open spec fn advance_step(pre: PlaylistView, post: PlaylistView, out: Seq<char>) -> bool {
    &&& pre.index < pre.order.len()
    &&& out == pre.order[pre.index as int]
    &&& if pre.index + 1 < pre.order.len() {
        post.order == pre.order && post.index == pre.index + 1
    } else {
        is_permutation(post.order, pre.order) && post.index == 0
    }
}

/// Relies on rand's `SliceRandom::shuffle` driven by `thread_rng`: the slice
/// is rearranged by swaps only, so it holds the same elements afterwards.
#[verifier::external_body]
fn shuffle_paths(v: &mut Vec<String>)
    ensures
        final(v)@.len() == old(v)@.len(),
        path_views(final(v)@).to_multiset() == path_views(old(v)@).to_multiset(),
{
    v.shuffle(&mut rand::thread_rng());
}

/// A rearrangement of a sequence without duplicates has none either.
pub proof fn lemma_permutation_keeps_distinct(a: Seq<Seq<char>>, b: Seq<Seq<char>>)
    requires
        is_permutation(a, b),
        b.no_duplicates(),
    ensures
        a.no_duplicates(),
{
    b.lemma_multiset_has_no_duplicates();
    a.lemma_multiset_has_no_duplicates_conv();
}

/// Every path of the selection qualifies, and none occurs twice.
pub proof fn lemma_selected_facts(files: Seq<ScannedFile>, filter: OrientationFilter)
    ensures
        selected(files, filter).no_duplicates(),
        forall|i: int|
            0 <= i < selected(files, filter).len() ==> has_image_extension(
                #[trigger] selected(files, filter)[i],
            ),
    decreases files.len(),
{
    if files.len() > 0 {
        lemma_selected_facts(files.drop_last(), filter);
        let prev = selected(files.drop_last(), filter);
        let f = files.last();
        if qualifies(f, filter) && !prev.contains(f.path@) {
            let cur = prev.push(f.path@);
            assert forall|i: int, j: int| 0 <= i < cur.len() && 0 <= j < cur.len() && i != j implies cur[i]
                != cur[j] by {
                if i == prev.len() as int {
                    assert(prev.contains(cur[j]));
                } else if j == prev.len() as int {
                    assert(prev.contains(cur[i]));
                }
            }
            assert forall|i: int| 0 <= i < cur.len() implies has_image_extension(#[trigger] cur[i]) by {
                if i < prev.len() {
                    assert(cur[i] == prev[i]);
                }
            }
        }
    }
}

/// No path of a scan lacks an image extension (jpg, jpeg, png, gif or bmp,
/// in any case).
pub proof fn lemma_selection_only_images(files: Seq<ScannedFile>, filter: OrientationFilter, p: Seq<char>)
    requires
        selected(files, filter).contains(p),
    ensures
        has_image_extension(p),
{
    lemma_selected_facts(files, filter);
}

fn contains_path(v: &Vec<String>, s: &String) -> (r: bool)
    ensures
        r == path_views(v@).contains(s@),
{
    let mut i: usize = 0;
    while i < v.len()
        invariant
            i <= v@.len(),
            forall|j: int| 0 <= j < i ==> v@[j]@ != s@,
        decreases v@.len() - i,
    {
        if v[i] == *s {
            assert(path_views(v@)[i as int] == s@);
            return true;
        }
        i += 1;
    }
    assert(!path_views(v@).contains(s@)) by {
        if path_views(v@).contains(s@) {
            let k = choose|k: int| 0 <= k < path_views(v@).len() && path_views(v@)[k] == s@;
            assert(v@[k]@ == s@);
        }
    }
    false
}

/// Keeps the scanned files that qualify, in the order found, without
/// repeating a path.
pub fn select_images(files: &Vec<ScannedFile>, filter: OrientationFilter) -> (r: Vec<String>)
    ensures
        path_views(r@) == selected(files@, filter),
{
    let mut out: Vec<String> = Vec::new();
    let mut i: usize = 0;
    while i < files.len()
        invariant
            i <= files@.len(),
            path_views(out@) == selected(files@.take(i as int), filter),
        decreases files@.len() - i,
    {
        let f = &files[i];
        assert(files@.take(i + 1).drop_last() == files@.take(i as int));
        assert(files@.take(i + 1).last() == files@[i as int]);
        let keep = match f.dims {
            Some(d) => match filter {
                OrientationFilter::Both => true,
                OrientationFilter::Landscape => d.width >= d.height,
                OrientationFilter::Portrait => d.height > d.width,
            },
            None => false,
        };
        if keep && is_image_path(f.path.as_str()) && !contains_path(&out, &f.path) {
            let ghost before = out@;
            out.push(f.path.clone());
            assert(path_views(out@) =~= path_views(before).push(f.path@));
        }
        i += 1;
    }
    assert(files@.take(files@.len() as int) == files@);
    out
}

/// The play order and the position of the next path to hand out.
#[derive(Debug)]
pub struct Playlist {
    order: Vec<String>,
    index: usize,
}

impl View for Playlist {
    type V = PlaylistView;

    closed spec fn view(&self) -> PlaylistView {
        PlaylistView { order: path_views(self.order@), index: self.index as nat }
    }
}

impl Playlist {
    /// An empty playlist.
    pub fn new() -> (r: Self)
        ensures
            r@.order.len() == 0,
            r@.index == 0,
            r@.wf(),
    {
        Playlist { order: Vec::new(), index: 0 }
    }

    /// A playlist of the qualifying scanned files in random order.
    pub fn from_scan(files: &Vec<ScannedFile>, filter: OrientationFilter) -> (r: Self)
        ensures
            r@.wf(),
            r@.index == 0,
            is_permutation(r@.order, selected(files@, filter)),
    {
        let mut p = Playlist::new();
        p.rebuild(files, filter);
        p
    }

    /// Replaces the order by a random permutation of the qualifying scanned
    /// files and starts again from the first.
    pub fn rebuild(&mut self, files: &Vec<ScannedFile>, filter: OrientationFilter)
        ensures
            final(self)@.wf(),
            final(self)@.index == 0,
            is_permutation(final(self)@.order, selected(files@, filter)),
            forall|i: int|
                0 <= i < final(self)@.order.len() ==> has_image_extension(
                    #[trigger] final(self)@.order[i],
                ),
    {
        let mut order = select_images(files, filter);
        let ghost before = path_views(order@);
        shuffle_paths(&mut order);
        proof {
            let after = path_views(order@);
            lemma_selected_facts(files@, filter);
            lemma_permutation_keeps_distinct(after, before);
            after.to_multiset_ensures();
            before.to_multiset_ensures();
            assert forall|i: int| 0 <= i < after.len() implies has_image_extension(
                #[trigger] after[i],
            ) by {
                assert(after.contains(after[i]));
                assert(after.to_multiset().count(after[i]) > 0);
                assert(before.to_multiset().count(after[i]) > 0);
                assert(before.contains(after[i]));
                lemma_selection_only_images(files@, filter, after[i]);
            }
        }
        self.order = order;
        self.index = 0;
    }

    /// The number of paths in the playlist.
    pub fn len(&self) -> (r: usize)
        ensures
            r == self@.order.len(),
    {
        self.order.len()
    }

    pub fn is_empty(&self) -> (r: bool)
        ensures
            r == (self@.order.len() == 0),
    {
        self.order.len() == 0
    }

    /// The position of the next path to hand out.
    pub fn position(&self) -> (r: usize)
        ensures
            r == self@.index,
    {
        self.index
    }

    /// The paths in play order.
    pub fn paths(&self) -> (r: &Vec<String>)
        ensures
            path_views(r@) == self@.order,
    {
        &self.order
    }

    /// Hands out the next path. After the last one the order is reshuffled
    /// and play starts again from its first path. An empty playlist yields
    /// nothing and stays as it is.
    pub fn advance(&mut self) -> (r: Option<String>)
        requires
            old(self)@.wf(),
        ensures
            final(self)@.wf(),
            old(self)@.order.len() == 0 ==> r.is_none() && final(self)@ == old(self)@,
            old(self)@.order.len() > 0 ==> r.is_some() && advance_step(
                old(self)@,
                final(self)@,
                r.unwrap()@,
            ),
    {
        if self.order.len() == 0 {
            return None;
        }
        let ghost pre = self@;
        let out = self.order[self.index].clone();
        assert(out@ == pre.order[pre.index as int]);
        if self.index + 1 < self.order.len() {
            self.index = self.index + 1;
        } else {
            let ghost before = path_views(self.order@);
            shuffle_paths(&mut self.order);
            proof {
                lemma_permutation_keeps_distinct(path_views(self.order@), before);
            }
            self.index = 0;
        }
        Some(out)
    }
}

/// The states along `k` calls of `advance` from the start of an order
/// still share that order, and the calls handed out its first `k` paths.
proof fn lemma_pass_prefix(states: Seq<PlaylistView>, outs: Seq<Seq<char>>, k: int)
    requires
        states.len() == outs.len() + 1,
        states[0].index == 0,
        forall|i: int| 0 <= i < outs.len() ==> advance_step(states[i], #[trigger] states[i + 1], outs[i]),
        0 <= k < states.len(),
        k < states[0].order.len(),
    ensures
        states[k].order == states[0].order,
        states[k].index == k,
        outs.subrange(0, k) == states[0].order.subrange(0, k),
    decreases k,
{
    if k > 0 {
        lemma_pass_prefix(states, outs, k - 1);
        let j = k - 1;
        assert(advance_step(states[j], states[j + 1], outs[j]));
        assert(outs.subrange(0, k) =~= outs.subrange(0, k - 1).push(outs[k - 1]));
        assert(states[0].order.subrange(0, k) =~= states[0].order.subrange(0, k - 1).push(
            states[0].order[k - 1],
        ));
    } else {
        assert(outs.subrange(0, 0) =~= states[0].order.subrange(0, 0));
    }
}

/// Starting from the first path of an order, as many calls of `advance` as
/// the playlist has paths hand out every path exactly once, in play order,
/// and leave a reshuffled order of the same paths.
pub proof fn lemma_full_pass(states: Seq<PlaylistView>, outs: Seq<Seq<char>>)
    requires
        states.len() == outs.len() + 1,
        outs.len() == states[0].order.len(),
        states[0].wf(),
        states[0].index == 0,
        forall|i: int| 0 <= i < outs.len() ==> advance_step(states[i], #[trigger] states[i + 1], outs[i]),
    ensures
        outs == states[0].order,
        outs.no_duplicates(),
        is_permutation(states.last().order, states[0].order),
{
    let n = outs.len() as int;
    if n > 0 {
        lemma_pass_prefix(states, outs, n - 1);
        let j = n - 1;
        assert(advance_step(states[j], states[j + 1], outs[j]));
        assert(outs =~= outs.subrange(0, n - 1).push(outs[n - 1]));
        assert(states[0].order =~= states[0].order.subrange(0, n - 1).push(states[0].order[n - 1]));
    } else {
        assert(outs =~= states[0].order);
    }
}

} // verus!
