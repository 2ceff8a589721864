//! The plan of a gallery: which images are rendered, in what order, and
//! under which file names; and how many encoder workers take them.
use crate::camera::{all_views, view_from_name, view_name, View};
use crate::renderer::RenderMode;
use vstd::prelude::*;
use vstd::string::StringExecFns;
use vstd::view::View as _;

verus! {

/// How far the camera stands from the normalized model.
#[derive(Copy, Clone, Debug, PartialEq, Eq, Structural)]
pub enum Framing {
    /// The model fills the frame.
    Near,
    /// The camera steps back.
    Far,
}

/// One of the four images rendered from each angle.
#[derive(Copy, Clone, Debug, PartialEq, Eq, Structural)]
pub struct Variant {
    pub framing: Framing,
    pub mode: RenderMode,
}

/// One image of the gallery.
#[derive(Clone, Debug)]
pub struct Job {
    pub view: View,
    pub variant: Variant,
    pub file_name: String,
}

/// The four variants in the order in which each angle is rendered.
pub open spec fn all_variants() -> Seq<Variant> {
    seq![
        Variant { framing: Framing::Near, mode: RenderMode::Plain },
        Variant { framing: Framing::Far, mode: RenderMode::Plain },
        Variant { framing: Framing::Near, mode: RenderMode::Edges },
        Variant { framing: Framing::Far, mode: RenderMode::Edges },
    ]
}

/// The file-name suffix of each variant.
pub open spec fn suffix_of(v: Variant) -> Seq<char> {
    match (v.framing, v.mode) {
        (Framing::Near, RenderMode::Plain) => ""@,
        (Framing::Far, RenderMode::Plain) => "_far"@,
        (Framing::Near, RenderMode::Edges) => "_edges"@,
        (Framing::Far, RenderMode::Edges) => "_far_edges"@,
    }
}

/// The file name of the image of `view` in variant `variant`.
pub open spec fn file_name_of(view: View, variant: Variant) -> Seq<char> {
    view_name(view) + suffix_of(variant) + ".png"@
}

/// The gallery's images, angle by angle, each angle in its four variants.
pub open spec fn job_view(k: int) -> View {
    all_views()[k / 4]
}

pub open spec fn job_variant(k: int) -> Variant {
    all_variants()[k % 4]
}

impl Variant {
    /// The suffix that this variant appends to an angle's name.
    pub fn suffix(&self) -> (r: &'static str)
        ensures
            r@ == suffix_of(*self),
    {
        match (self.framing, self.mode) {
            (Framing::Near, RenderMode::Plain) => "",
            (Framing::Far, RenderMode::Plain) => "_far",
            (Framing::Near, RenderMode::Edges) => "_edges",
            (Framing::Far, RenderMode::Edges) => "_far_edges",
        }
    }
}

/// The four variants of each angle, in rendering order.
pub fn variants() -> (r: &'static [Variant])
    ensures
        r@ == all_variants(),
{
    &[
        Variant { framing: Framing::Near, mode: RenderMode::Plain },
        Variant { framing: Framing::Far, mode: RenderMode::Plain },
        Variant { framing: Framing::Near, mode: RenderMode::Edges },
        Variant { framing: Framing::Far, mode: RenderMode::Edges },
    ]
}

/// `{name}{suffix}.png`: the file that the image of `view` in `variant`
/// is written to.
pub fn file_name(view: View, variant: Variant) -> (r: String)
    ensures
        r@ == file_name_of(view, variant),
{
    let mut s = String::from_str(view.name());
    s.append(variant.suffix());
    s.append(".png");
    s
}

/// Every image of the gallery in rendering order: for each angle of
/// `View::all`, its four variants.
pub fn gallery_jobs() -> (jobs: Vec<Job>)
    ensures
        jobs@.len() == all_views().len() * all_variants().len(),
        forall|k: int|
            0 <= k < jobs@.len() ==> {
                &&& #[trigger] jobs@[k].view == job_view(k)
                &&& jobs@[k].variant == job_variant(k)
                &&& jobs@[k].file_name@ == file_name_of(job_view(k), job_variant(k))
            },
{
    let views = View::all();
    let vs = variants();
    let mut jobs: Vec<Job> = Vec::new();
    let mut i: usize = 0;
    while i < views.len()
        invariant
            views@ == all_views(),
            vs@ == all_variants(),
            0 <= i <= views@.len(),
            jobs@.len() == 4 * i,
            forall|k: int|
                0 <= k < jobs@.len() ==> {
                    &&& #[trigger] jobs@[k].view == job_view(k)
                    &&& jobs@[k].variant == job_variant(k)
                    &&& jobs@[k].file_name@ == file_name_of(job_view(k), job_variant(k))
                },
        decreases views@.len() - i,
    {
        let view = views[i];
        let mut j: usize = 0;
        while j < vs.len()
            invariant
                views@ == all_views(),
                vs@ == all_variants(),
                0 <= i < views@.len(),
                view == all_views()[i as int],
                0 <= j <= vs@.len(),
                jobs@.len() == 4 * i + j,
                forall|k: int|
                    0 <= k < jobs@.len() ==> {
                        &&& #[trigger] jobs@[k].view == job_view(k)
                        &&& jobs@[k].variant == job_variant(k)
                        &&& jobs@[k].file_name@ == file_name_of(job_view(k), job_variant(k))
                    },
            decreases vs@.len() - j,
        {
            let variant = vs[j];
            let file_name = file_name(view, variant);
            let ghost k = jobs@.len() as int;
            assert(k / 4 == i && k % 4 == j);
            jobs.push(Job { view, variant, file_name });
            j = j + 1;
        }
        i = i + 1;
    }
    jobs
}

/// Reads the angle and variant back from a file name: `.png` is cut off,
/// then `_edges` if the stem ends in `s`, then `_far` if it ends in `r`.
pub open spec fn decode_file_name(s: Seq<char>) -> (View, Variant) {
    let t = s.subrange(0, s.len() - 4);
    let edges = t.last() == 's';
    let t1 = if edges {
        t.subrange(0, t.len() - 6)
    } else {
        t
    };
    let far = t1.last() == 'r';
    let t2 = if far {
        t1.subrange(0, t1.len() - 4)
    } else {
        t1
    };
    (
        view_from_name(t2),
        Variant {
            framing: if far {
                Framing::Far
            } else {
                Framing::Near
            },
            mode: if edges {
                RenderMode::Edges
            } else {
                RenderMode::Plain
            },
        },
    )
}

proof fn lemma_view_name_shape(v: View)
    ensures
        view_name(v).len() >= 3,
        view_name(v).last() != 's',
        view_name(v).last() != 'r',
{
    reveal_strlit("front");
    reveal_strlit("back");
    reveal_strlit("left");
    reveal_strlit("right");
    reveal_strlit("top");
    reveal_strlit("bottom");
    reveal_strlit("iso_top_front_right");
    reveal_strlit("iso_top_front_left");
    reveal_strlit("iso_top_back_right");
    reveal_strlit("iso_top_back_left");
    reveal_strlit("iso_bottom_front_right");
    reveal_strlit("iso_bottom_front_left");
    reveal_strlit("iso_bottom_back_right");
    reveal_strlit("iso_bottom_back_left");
}

proof fn lemma_decode_file_name(view: View, variant: Variant)
    ensures
        decode_file_name(file_name_of(view, variant)) == (view, variant),
{
    reveal_strlit("");
    reveal_strlit("_far");
    reveal_strlit("_edges");
    reveal_strlit("_far_edges");
    reveal_strlit(".png");
    crate::camera::lemma_view_from_name(view);
    lemma_view_name_shape(view);
    let n = view_name(view);
    let suf = suffix_of(variant);
    let s = file_name_of(view, variant);
    let t = s.subrange(0, s.len() - 4);
    assert(t =~= n + suf);
    match (variant.framing, variant.mode) {
        (Framing::Near, RenderMode::Plain) => {
            assert(n + suf =~= n);
        },
        (Framing::Far, RenderMode::Plain) => {
            assert(t.subrange(0, t.len() - 4) =~= n);
        },
        (Framing::Near, RenderMode::Edges) => {
            assert(t.subrange(0, t.len() - 6) =~= n);
        },
        (Framing::Far, RenderMode::Edges) => {
            let t1 = t.subrange(0, t.len() - 6);
            assert(t1 =~= n + "_far"@);
            assert(t1.subrange(0, t1.len() - 4) =~= n);
        },
    }
}

/// No two images of the gallery share a file name, so none overwrites
/// another.
pub proof fn lemma_file_names_distinct(v1: View, w1: Variant, v2: View, w2: Variant)
    ensures
        file_name_of(v1, w1) == file_name_of(v2, w2) ==> v1 == v2 && w1 == w2,
{
    lemma_decode_file_name(v1, w1);
    lemma_decode_file_name(v2, w2);
}

/// The gallery holds fourteen angles in four variants: fifty-six images,
/// with pairwise distinct file names.
pub proof fn lemma_gallery_has_56_distinct_images(k1: int, k2: int)
    requires
        0 <= k1 < 56,
        0 <= k2 < 56,
        k1 != k2,
    ensures
        all_views().len() * all_variants().len() == 56,
        file_name_of(job_view(k1), job_variant(k1)) != file_name_of(job_view(k2), job_variant(k2)),
{
    crate::camera::lemma_all_views_each_once(View::Front);
    lemma_file_names_distinct(job_view(k1), job_variant(k1), job_view(k2), job_variant(k2));
    if job_view(k1) == job_view(k2) && job_variant(k1) == job_variant(k2) {
        assert(all_views()[k1 / 4] == all_views()[k2 / 4]);
        assert(k1 / 4 == k2 / 4);
        assert(k1 % 4 == k2 % 4);
        vstd::arithmetic::div_mod::lemma_fundamental_div_mod(k1, 4);
        vstd::arithmetic::div_mod::lemma_fundamental_div_mod(k2, 4);
    }
}

/// A variant's suffix says both of its choices: `_far` for the far framing,
/// then `_edges` for the edge style.
pub proof fn lemma_suffix_names_choices(v: Variant)
    ensures
        suffix_of(v) == (if v.framing == Framing::Far {
            "_far"@
        } else {
            ""@
        }) + (if v.mode == RenderMode::Edges {
            "_edges"@
        } else {
            ""@
        }),
{
    reveal_strlit("");
    reveal_strlit("_far");
    reveal_strlit("_edges");
    reveal_strlit("_far_edges");
    assert(suffix_of(v) =~= (if v.framing == Framing::Far {
        "_far"@
    } else {
        ""@
    }) + (if v.mode == RenderMode::Edges {
        "_edges"@
    } else {
        ""@
    }));
}

/// Default number of encoder workers: the available parallelism (4 when it
/// cannot be read), clamped to `2..=8`.
pub open spec fn default_encoders(available: Option<usize>) -> usize {
    let n = match available {
        Some(n) => n,
        None => 4,
    };
    if n < 2 {
        2
    } else if n > 8 {
        8
    } else {
        n
    }
}

/// Number of PNG-encoder workers: the requested count if one was given,
/// else the default.
pub fn encoder_count(requested: Option<usize>, available: Option<usize>) -> (n: usize)
    ensures
        n == match requested {
            Some(r) => r,
            None => default_encoders(available),
        },
{
    match requested {
        Some(r) => r,
        None => {
            let n = match available {
                Some(n) => n,
                None => 4,
            };
            if n < 2 {
                2
            } else if n > 8 {
                8
            } else {
                n
            }
        },
    }
}

/// Capacity of the channel between the renderer and the encoders: two
/// frames in flight per worker.
pub fn channel_capacity(workers: usize) -> (c: usize)
    requires
        workers * 2 <= usize::MAX,
    ensures
        c == workers * 2,
{
    workers * 2
}

/// The default worker count lies in `2..=8`.
pub proof fn lemma_default_encoders_bounded(available: Option<usize>)
    ensures
        2 <= default_encoders(available) <= 8,
{
}

/// The default worker count is the available parallelism when it lies in
/// `2..=8`, the nearer bound otherwise, and 4 when it cannot be read.
pub proof fn lemma_default_encoders_values(available: Option<usize>)
    ensures
        available is None ==> default_encoders(available) == 4,
        available matches Some(n) ==> (2 <= n <= 8 ==> default_encoders(available) == n),
        available matches Some(n) ==> (n < 2 ==> default_encoders(available) == 2),
        available matches Some(n) ==> (n > 8 ==> default_encoders(available) == 8),
{
}

/// Each image's file name is its angle's name, then its variant's suffix,
/// then `.png`: the name starts the file name and `.png` ends it.
pub proof fn lemma_file_name_parts(view: View, variant: Variant)
    ensures
        file_name_of(view, variant).len() == view_name(view).len() + suffix_of(variant).len() + 4,
        file_name_of(view, variant).subrange(0, view_name(view).len() as int) == view_name(view),
        file_name_of(view, variant).subrange(
            file_name_of(view, variant).len() - 4,
            file_name_of(view, variant).len() as int,
        ) == seq!['.', 'p', 'n', 'g'],
{
    reveal_strlit(".png");
    let f = file_name_of(view, variant);
    let n = view_name(view);
    assert(f.subrange(0, n.len() as int) =~= n);
    assert(f.subrange(f.len() - 4, f.len() as int) =~= seq!['.', 'p', 'n', 'g']);
}

} // verus!
