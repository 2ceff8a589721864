//! The fourteen camera angles of the gallery: which way each one looks,
//! which way is up for it, and the name its images are filed under.
use vstd::prelude::*;
use vstd::view::View as _;

verus! {

/// One of the fourteen viewing angles: six cardinal views (face centers of
/// an axis-aligned cube) and eight isometric views (its vertices).
#[derive(Copy, Clone, Debug, PartialEq, Eq, Structural)]
pub enum View {
    Front,
    Back,
    Left,
    Right,
    Top,
    Bottom,
    IsoTopFrontRight,
    IsoTopFrontLeft,
    IsoTopBackRight,
    IsoTopBackLeft,
    IsoBottomFrontRight,
    IsoBottomFrontLeft,
    IsoBottomBackRight,
    IsoBottomBackLeft,
}

/// An integer direction in model space: `x` points right, `y` up and `z`
/// toward the viewer of the front view.
#[derive(Copy, Clone, Debug, PartialEq, Eq, Structural)]
pub struct Direction {
    pub x: i8,
    pub y: i8,
    pub z: i8,
}

/// The gallery's angles in the order in which they are rendered.
pub open spec fn all_views() -> Seq<View> {
    seq![
        View::Front,
        View::Back,
        View::Left,
        View::Right,
        View::Top,
        View::Bottom,
        View::IsoTopFrontRight,
        View::IsoTopFrontLeft,
        View::IsoTopBackRight,
        View::IsoTopBackLeft,
        View::IsoBottomFrontRight,
        View::IsoBottomFrontLeft,
        View::IsoBottomBackRight,
        View::IsoBottomBackLeft,
    ]
}

/// The file-name stem of each angle.
pub open spec fn view_name(v: View) -> Seq<char> {
    match v {
        View::Front => "front"@,
        View::Back => "back"@,
        View::Left => "left"@,
        View::Right => "right"@,
        View::Top => "top"@,
        View::Bottom => "bottom"@,
        View::IsoTopFrontRight => "iso_top_front_right"@,
        View::IsoTopFrontLeft => "iso_top_front_left"@,
        View::IsoTopBackRight => "iso_top_back_right"@,
        View::IsoTopBackLeft => "iso_top_back_left"@,
        View::IsoBottomFrontRight => "iso_bottom_front_right"@,
        View::IsoBottomFrontLeft => "iso_bottom_front_left"@,
        View::IsoBottomBackRight => "iso_bottom_back_right"@,
        View::IsoBottomBackLeft => "iso_bottom_back_left"@,
    }
}

/// Direction from the model's origin toward the camera, before it is
/// scaled to unit length: an axis for a cardinal view, a cube corner
/// `(±1, ±1, ±1)` for an isometric one.
pub open spec fn eye_direction_of(v: View) -> Direction {
    match v {
        View::Front => Direction { x: 0, y: 0, z: 1 },
        View::Back => Direction { x: 0, y: 0, z: -1i8 },
        View::Right => Direction { x: 1, y: 0, z: 0 },
        View::Left => Direction { x: -1i8, y: 0, z: 0 },
        View::Top => Direction { x: 0, y: 1, z: 0 },
        View::Bottom => Direction { x: 0, y: -1i8, z: 0 },
        View::IsoTopFrontRight => Direction { x: 1, y: 1, z: 1 },
        View::IsoTopFrontLeft => Direction { x: -1i8, y: 1, z: 1 },
        View::IsoTopBackRight => Direction { x: 1, y: 1, z: -1i8 },
        View::IsoTopBackLeft => Direction { x: -1i8, y: 1, z: -1i8 },
        View::IsoBottomFrontRight => Direction { x: 1, y: -1i8, z: 1 },
        View::IsoBottomFrontLeft => Direction { x: -1i8, y: -1i8, z: 1 },
        View::IsoBottomBackRight => Direction { x: 1, y: -1i8, z: -1i8 },
        View::IsoBottomBackLeft => Direction { x: -1i8, y: -1i8, z: -1i8 },
    }
}

/// The camera's `up`: world `-Z` for the top view, `+Z` for the bottom
/// view, world `+Y` for every other view.
pub open spec fn up_vector_of(v: View) -> Direction {
    match v {
        View::Top => Direction { x: 0, y: 0, z: -1i8 },
        View::Bottom => Direction { x: 0, y: 0, z: 1 },
        _ => Direction { x: 0, y: 1, z: 0 },
    }
}

/// The cardinal views: the six face centers of the cube.
pub open spec fn is_cardinal(v: View) -> bool {
    match v {
        View::Front | View::Back | View::Left | View::Right | View::Top | View::Bottom => true,
        _ => false,
    }
}

pub open spec fn is_unit(c: i8) -> bool {
    c == 1 || c == -1
}

/// A unit vector along one of the three axes.
pub open spec fn is_axis(d: Direction) -> bool {
    ||| is_unit(d.x) && d.y == 0 && d.z == 0
    ||| d.x == 0 && is_unit(d.y) && d.z == 0
    ||| d.x == 0 && d.y == 0 && is_unit(d.z)
}

/// A vertex `(±1, ±1, ±1)` of the cube.
pub open spec fn is_corner(d: Direction) -> bool {
    is_unit(d.x) && is_unit(d.y) && is_unit(d.z)
}

/// The cross product of two directions, over the integers.
pub open spec fn cross(a: Direction, b: Direction) -> (int, int, int) {
    (a.y * b.z - a.z * b.y, a.z * b.x - a.x * b.z, a.x * b.y - a.y * b.x)
}

/// The name that a direction of the gallery is described by: the axis word
/// for a cardinal direction, and `iso_` followed by the vertical, depth and
/// side words of a corner.
pub open spec fn direction_label(d: Direction) -> Seq<char> {
    if d.x != 0 && d.y != 0 && d.z != 0 {
        "iso_"@ + (if d.y > 0 {
            "top"@
        } else {
            "bottom"@
        }) + "_"@ + (if d.z > 0 {
            "front"@
        } else {
            "back"@
        }) + "_"@ + (if d.x > 0 {
            "right"@
        } else {
            "left"@
        })
    } else if d.z > 0 {
        "front"@
    } else if d.z < 0 {
        "back"@
    } else if d.x > 0 {
        "right"@
    } else if d.x < 0 {
        "left"@
    } else if d.y > 0 {
        "top"@
    } else {
        "bottom"@
    }
}

impl View {
    /// Every angle of the gallery, each once, in rendering order.
    pub fn all() -> (r: &'static [View])
        ensures
            r@ == all_views(),
    {
        &[
            View::Front,
            View::Back,
            View::Left,
            View::Right,
            View::Top,
            View::Bottom,
            View::IsoTopFrontRight,
            View::IsoTopFrontLeft,
            View::IsoTopBackRight,
            View::IsoTopBackLeft,
            View::IsoBottomFrontRight,
            View::IsoBottomFrontLeft,
            View::IsoBottomBackRight,
            View::IsoBottomBackLeft,
        ]
    }

    /// The stem of the file names under which this angle's images are saved.
    pub fn name(&self) -> (r: &'static str)
        ensures
            r@ == view_name(*self),
    {
        match self {
            View::Front => "front",
            View::Back => "back",
            View::Left => "left",
            View::Right => "right",
            View::Top => "top",
            View::Bottom => "bottom",
            View::IsoTopFrontRight => "iso_top_front_right",
            View::IsoTopFrontLeft => "iso_top_front_left",
            View::IsoTopBackRight => "iso_top_back_right",
            View::IsoTopBackLeft => "iso_top_back_left",
            View::IsoBottomFrontRight => "iso_bottom_front_right",
            View::IsoBottomFrontLeft => "iso_bottom_front_left",
            View::IsoBottomBackRight => "iso_bottom_back_right",
            View::IsoBottomBackLeft => "iso_bottom_back_left",
        }
    }

    /// Direction from the model's origin toward the camera, not yet scaled
    /// to unit length (the isometric corners have length √3).
    pub fn eye_direction(&self) -> (d: Direction)
        ensures
            d == eye_direction_of(*self),
    {
        match self {
            View::Front => Direction { x: 0, y: 0, z: 1 },
            View::Back => Direction { x: 0, y: 0, z: -1 },
            View::Right => Direction { x: 1, y: 0, z: 0 },
            View::Left => Direction { x: -1, y: 0, z: 0 },
            View::Top => Direction { x: 0, y: 1, z: 0 },
            View::Bottom => Direction { x: 0, y: -1, z: 0 },
            View::IsoTopFrontRight => Direction { x: 1, y: 1, z: 1 },
            View::IsoTopFrontLeft => Direction { x: -1, y: 1, z: 1 },
            View::IsoTopBackRight => Direction { x: 1, y: 1, z: -1 },
            View::IsoTopBackLeft => Direction { x: -1, y: 1, z: -1 },
            View::IsoBottomFrontRight => Direction { x: 1, y: -1, z: 1 },
            View::IsoBottomFrontLeft => Direction { x: -1, y: -1, z: 1 },
            View::IsoBottomBackRight => Direction { x: 1, y: -1, z: -1 },
            View::IsoBottomBackLeft => Direction { x: -1, y: -1, z: -1 },
        }
    }

    /// The camera's `up`, chosen so that it is never colinear with the eye
    /// direction.
    pub fn up_vector(&self) -> (d: Direction)
        ensures
            d == up_vector_of(*self),
    {
        match self {
            View::Top => Direction { x: 0, y: 0, z: -1 },
            View::Bottom => Direction { x: 0, y: 0, z: 1 },
            _ => Direction { x: 0, y: 1, z: 0 },
        }
    }
}

/// `View::all` lists every angle of the gallery exactly once: fourteen
/// angles, no repeats.
pub proof fn lemma_all_views_each_once(v: View)
    ensures
        all_views().len() == 14,
        all_views().contains(v),
        all_views().no_duplicates(),
{
    let s = all_views();
    let i: int = match v {
        View::Front => 0,
        View::Back => 1,
        View::Left => 2,
        View::Right => 3,
        View::Top => 4,
        View::Bottom => 5,
        View::IsoTopFrontRight => 6,
        View::IsoTopFrontLeft => 7,
        View::IsoTopBackRight => 8,
        View::IsoTopBackLeft => 9,
        View::IsoBottomFrontRight => 10,
        View::IsoBottomFrontLeft => 11,
        View::IsoBottomBackRight => 12,
        View::IsoBottomBackLeft => 13,
    };
    assert(s[i] == v);
    assert forall|a: int, b: int| 0 <= a < s.len() && 0 <= b < s.len() && a != b implies s[a]
        != s[b] by {
        assert(eye_direction_of(s[a]) != eye_direction_of(s[b]));
    }
}

/// Each cardinal view looks from a face center of the cube (a unit axis),
/// each isometric view from one of its vertices.
pub proof fn lemma_eye_directions_are_cube_points(v: View)
    ensures
        is_cardinal(v) ==> is_axis(eye_direction_of(v)),
        !is_cardinal(v) ==> is_corner(eye_direction_of(v)),
{
}

/// No two angles look from the same direction.
pub proof fn lemma_eye_directions_distinct(a: View, b: View)
    ensures
        eye_direction_of(a) == eye_direction_of(b) ==> a == b,
{
}

/// The up vector is a unit axis and is never colinear with the eye
/// direction, so the look-at frame of every view is well defined.
pub proof fn lemma_up_not_colinear(v: View)
    ensures
        is_axis(up_vector_of(v)),
        cross(eye_direction_of(v), up_vector_of(v)) != (0int, 0int, 0int),
{
}

/// Each angle's name says where its camera stands: the axis word of a
/// cardinal view, and `iso_{top|bottom}_{front|back}_{right|left}` for the
/// corner `(x, y, z)` of an isometric view.
pub proof fn lemma_name_describes_direction(v: View)
    ensures
        view_name(v) == direction_label(eye_direction_of(v)),
{
    reveal_strlit("front");
    reveal_strlit("back");
    reveal_strlit("left");
    reveal_strlit("right");
    reveal_strlit("top");
    reveal_strlit("bottom");
    reveal_strlit("iso_");
    reveal_strlit("_");
    reveal_strlit("iso_top_front_right");
    reveal_strlit("iso_top_front_left");
    reveal_strlit("iso_top_back_right");
    reveal_strlit("iso_top_back_left");
    reveal_strlit("iso_bottom_front_right");
    reveal_strlit("iso_bottom_front_left");
    reveal_strlit("iso_bottom_back_right");
    reveal_strlit("iso_bottom_back_left");
    assert(view_name(v) =~= direction_label(eye_direction_of(v)));
}

/// Reads an angle back from its name, by length and a few characters.
pub open spec fn view_from_name(s: Seq<char>) -> View {
    if s.len() <= 6 {
        if s.len() == 3 {
            View::Top
        } else if s.len() == 6 {
            View::Bottom
        } else if s.len() == 5 {
            if s[0] == 'f' {
                View::Front
            } else {
                View::Right
            }
        } else if s[0] == 'b' {
            View::Back
        } else {
            View::Left
        }
    } else {
        let top = s[4] == 't';
        let vertical_len: int = if top {
            3
        } else {
            6
        };
        let front = s[4 + vertical_len + 1] == 'f';
        let depth_len: int = if front {
            5
        } else {
            4
        };
        let right = s.len() == 4 + vertical_len + 1 + depth_len + 1 + 5;
        if top {
            if front {
                if right {
                    View::IsoTopFrontRight
                } else {
                    View::IsoTopFrontLeft
                }
            } else if right {
                View::IsoTopBackRight
            } else {
                View::IsoTopBackLeft
            }
        } else if front {
            if right {
                View::IsoBottomFrontRight
            } else {
                View::IsoBottomFrontLeft
            }
        } else if right {
            View::IsoBottomBackRight
        } else {
            View::IsoBottomBackLeft
        }
    }
}

/// Every name reads back as the angle it belongs to.
pub proof fn lemma_view_from_name(v: View)
    ensures
        view_from_name(view_name(v)) == v,
{
    reveal_strlit("front");
    reveal_strlit("back");
    reveal_strlit("left");
    reveal_strlit("right");
    reveal_strlit("top");
    reveal_strlit("bottom");
    reveal_strlit("iso_top_front_right");
    reveal_strlit("iso_top_front_left");
    reveal_strlit("iso_top_back_right");
    reveal_strlit("iso_top_back_left");
    reveal_strlit("iso_bottom_front_right");
    reveal_strlit("iso_bottom_front_left");
    reveal_strlit("iso_bottom_back_right");
    reveal_strlit("iso_bottom_back_left");
}

/// Distinct angles have distinct names, so no image overwrites another.
pub proof fn lemma_view_names_distinct(a: View, b: View)
    ensures
        view_name(a) == view_name(b) ==> a == b,
{
    lemma_view_from_name(a);
    lemma_view_from_name(b);
}

/// Whether `word` occurs in `s` as a contiguous run of characters.
pub open spec fn contains_word(s: Seq<char>, word: Seq<char>) -> bool {
    exists|i: int| 0 <= i && i + word.len() <= s.len() && #[trigger] s.subrange(i, i + word.len()) == word
}

/// A direction's signs as words: `top`/`bottom` for `y`, `front`/`back`
/// for `z`, `right`/`left` for `x`; a word occurs in the name exactly when
/// its sign does.
pub open spec fn words_match_direction(s: Seq<char>, d: Direction) -> bool {
    &&& (d.y > 0 <==> contains_word(s, "top"@))
    &&& (d.y < 0 <==> contains_word(s, "bottom"@))
    &&& (d.z > 0 <==> contains_word(s, "front"@))
    &&& (d.z < 0 <==> contains_word(s, "back"@))
    &&& (d.x > 0 <==> contains_word(s, "right"@))
    &&& (d.x < 0 <==> contains_word(s, "left"@))
}

/// A word does not occur in a text that lacks one of its characters.
proof fn lemma_missing_char_missing_word(s: Seq<char>, word: Seq<char>, k: int)
    requires
        0 <= k < word.len(),
        forall|j: int| 0 <= j < s.len() ==> s[j] != word[k],
    ensures
        !contains_word(s, word),
{
    if contains_word(s, word) {
        let i = choose|i: int|
            0 <= i && i + word.len() <= s.len() && #[trigger] s.subrange(i, i + word.len()) == word;
        assert(s.subrange(i, i + word.len())[k] == s[i + k]);
    }
}

/// A word occurs in a text whose run starting at `i` spells it.
proof fn lemma_word_at(s: Seq<char>, word: Seq<char>, i: int)
    requires
        0 <= i,
        i + word.len() <= s.len(),
        s.subrange(i, i + word.len()) =~= word,
    ensures
        contains_word(s, word),
{
}

/// The vertical word (`top`/`bottom`) starts after `iso_`, or at 0.
proof fn lemma_vertical_word(v: View)
    ensures
        eye_direction_of(v).y > 0 <==> contains_word(view_name(v), "top"@),
        eye_direction_of(v).y < 0 <==> contains_word(view_name(v), "bottom"@),
{
    reveal_strlit("front");
    reveal_strlit("back");
    reveal_strlit("left");
    reveal_strlit("right");
    reveal_strlit("top");
    reveal_strlit("bottom");
    reveal_strlit("iso_top_front_right");
    reveal_strlit("iso_top_front_left");
    reveal_strlit("iso_top_back_right");
    reveal_strlit("iso_top_back_left");
    reveal_strlit("iso_bottom_front_right");
    reveal_strlit("iso_bottom_front_left");
    reveal_strlit("iso_bottom_back_right");
    reveal_strlit("iso_bottom_back_left");
    let n = view_name(v);
    let d = eye_direction_of(v);
    let iso = !is_cardinal(v);
    let at: int = if iso {
        4
    } else {
        0
    };
    if d.y > 0 {
        lemma_word_at(n, "top"@, at);
    } else {
        lemma_missing_char_missing_word(n, "top"@, 2);
    }
    if d.y < 0 {
        lemma_word_at(n, "bottom"@, at);
    } else {
        lemma_missing_char_missing_word(n, "bottom"@, 5);
    }
}

/// The depth word (`front`/`back`) follows `iso_top_` or `iso_bottom_`, or starts at 0.
#[verifier::rlimit(40)]
proof fn lemma_depth_word(v: View)
    ensures
        eye_direction_of(v).z > 0 <==> contains_word(view_name(v), "front"@),
        eye_direction_of(v).z < 0 <==> contains_word(view_name(v), "back"@),
{
    reveal_strlit("front");
    reveal_strlit("back");
    reveal_strlit("left");
    reveal_strlit("right");
    reveal_strlit("top");
    reveal_strlit("bottom");
    reveal_strlit("iso_top_front_right");
    reveal_strlit("iso_top_front_left");
    reveal_strlit("iso_top_back_right");
    reveal_strlit("iso_top_back_left");
    reveal_strlit("iso_bottom_front_right");
    reveal_strlit("iso_bottom_front_left");
    reveal_strlit("iso_bottom_back_right");
    reveal_strlit("iso_bottom_back_left");
    let n = view_name(v);
    let d = eye_direction_of(v);
    let iso = !is_cardinal(v);
    let at: int = if !iso {
        0
    } else if d.y > 0 {
        8
    } else {
        11
    };
    if d.z > 0 {
        lemma_word_at(n, "front"@, at);
    } else {
        lemma_missing_char_missing_word(n, "front"@, 3);
    }
    if d.z < 0 {
        lemma_word_at(n, "back"@, at);
    } else {
        lemma_missing_char_missing_word(n, "back"@, 3);
    }
}

/// The side word (`right`/`left`) ends the name.
proof fn lemma_side_word(v: View)
    ensures
        eye_direction_of(v).x > 0 <==> contains_word(view_name(v), "right"@),
        eye_direction_of(v).x < 0 <==> contains_word(view_name(v), "left"@),
{
    reveal_strlit("front");
    reveal_strlit("back");
    reveal_strlit("left");
    reveal_strlit("right");
    reveal_strlit("top");
    reveal_strlit("bottom");
    reveal_strlit("iso_top_front_right");
    reveal_strlit("iso_top_front_left");
    reveal_strlit("iso_top_back_right");
    reveal_strlit("iso_top_back_left");
    reveal_strlit("iso_bottom_front_right");
    reveal_strlit("iso_bottom_front_left");
    reveal_strlit("iso_bottom_back_right");
    reveal_strlit("iso_bottom_back_left");
    let n = view_name(v);
    let d = eye_direction_of(v);
    let iso = !is_cardinal(v);
    let at: int = if !iso {
        0
    } else if d.x > 0 {
        n.len() - 5
    } else {
        n.len() - 4
    };
    if d.x > 0 {
        lemma_word_at(n, "right"@, at);
    } else {
        lemma_missing_char_missing_word(n, "right"@, 2);
    }
    if d.x < 0 {
        lemma_word_at(n, "left"@, at);
    } else {
        lemma_missing_char_missing_word(n, "left"@, 1);
    }
}

/// Each angle's name holds the words of its eye direction's signs and no
/// others: `top` exactly when the camera is above (`y > 0`), `bottom` when
/// below, `front`/`back` for the sign of `z`, `right`/`left` for `x`.
///
/// Each word has a letter that no other part of any name uses (`p`, `m`,
/// `n`, `k`, `g`, `e`), so a name without that letter lacks the word.
pub proof fn lemma_name_words_match_direction(v: View)
    ensures
        words_match_direction(view_name(v), eye_direction_of(v)),
{
    lemma_vertical_word(v);
    lemma_depth_word(v);
    lemma_side_word(v);
}

/// The camera stays upright: every view whose eye is off the vertical axis
/// keeps world `+Y` as its up, and the two views along that axis (top and
/// bottom) take the horizontal `-Z` or `+Z`, the opposite sign of their eye
/// height, so that the front of the model faces down the image from above
/// and up the image from below.
pub proof fn lemma_up_vector_upright(v: View)
    ensures
        !(eye_direction_of(v).x == 0 && eye_direction_of(v).z == 0) ==> up_vector_of(v) == (
        Direction { x: 0, y: 1, z: 0 }),
        eye_direction_of(v).x == 0 && eye_direction_of(v).z == 0 ==> up_vector_of(v).x == 0
            && up_vector_of(v).y == 0 && up_vector_of(v).z == -eye_direction_of(v).y,
        up_vector_of(v).y >= 0,
{
}

/// The gallery renders the six cardinal views first, then the eight
/// isometric ones.
pub proof fn lemma_all_views_cardinal_first()
    ensures
        forall|i: int| 0 <= i < 6 ==> is_cardinal(#[trigger] all_views()[i]),
        forall|i: int| 6 <= i < 14 ==> !is_cardinal(#[trigger] all_views()[i]),
{
}

} // verus!
