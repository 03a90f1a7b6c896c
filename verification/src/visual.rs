//! Visual negotiation and the decomposition of channel masks.

use vstd::prelude::*;

verus! {

/// How the server maps pixel values to colors on one of its visuals.
#[derive(Clone, Copy, Debug, PartialEq, Eq, Structural)]
pub struct Visual {
    /// The server's identifier of the visual.
    pub visualid: u64,
    /// The visual class, as the protocol numbers it.
    pub class: i32,
    /// The depth in bits at which the visual is offered.
    pub depth: i32,
    /// The bits of a pixel that hold the red channel.
    pub red_mask: u64,
    /// The bits of a pixel that hold the green channel.
    pub green_mask: u64,
    /// The bits of a pixel that hold the blue channel.
    pub blue_mask: u64,
}

/// The protocol's number for the true-color visual class.
pub const TRUE_COLOR: i32 = 4;

/// The number of the true-color visual class, read from `x11::xlib::TrueColor`.
/// The contract repeats the value that the protocol assigns to it.
#[verifier::external_body]
pub(crate) fn true_color_class() -> (class: i32)
    ensures
        class == TRUE_COLOR,
{
    x11::xlib::TrueColor
}

/// Whether bit `i` of `mask` is set. Positions past the top bit are clear.
pub open spec fn bit_set(mask: u64, i: int) -> bool {
    0 <= i < 64 && (mask >> (i as u64)) & 1 == 1
}

/// Whether `shift` and `width` describe the lowest run of one-bits of `mask`:
/// every bit below `shift` is clear, the next `width` bits are set, and the
/// bit after them is clear. The run is empty only where no bit is set at all,
/// and then it stands at position 64.
pub open spec fn is_low_run(mask: u64, shift: int, width: int) -> bool {
    &&& 0 <= shift
    &&& 0 <= width
    &&& shift + width <= 64
    &&& (shift == 64 || width > 0)
    &&& forall|i: int| 0 <= i < shift ==> !bit_set(mask, i)
    &&& forall|i: int| shift <= i < shift + width ==> bit_set(mask, i)
    &&& !bit_set(mask, shift + width)
}

/// Whether the set bits of `mask` are exactly the positions from `shift` up
/// to, but not including, `shift + width`.
pub open spec fn covers_exactly(mask: u64, shift: int, width: int) -> bool {
    forall|i: int| 0 <= i < 64 ==> (bit_set(mask, i) <==> shift <= i < shift + width)
}

/// Whether the set bits of `mask` form one unbroken run.
pub open spec fn is_single_run(mask: u64) -> bool {
    exists|shift: int, width: int|
        0 <= shift && 0 <= width && shift + width <= 64 && #[trigger] covers_exactly(
            mask,
            shift,
            width,
        )
}

/// A mask has one lowest run only: two descriptions of it agree.
pub proof fn lemma_low_run_unique(mask: u64, s1: int, w1: int, s2: int, w2: int)
    requires
        is_low_run(mask, s1, w1),
        is_low_run(mask, s2, w2),
    ensures
        s1 == s2,
        w1 == w2,
{
    if s1 < s2 {
        assert(bit_set(mask, s1));
    } else if s2 < s1 {
        assert(bit_set(mask, s2));
    } else if w1 < w2 {
        assert(bit_set(mask, s1 + w1));
    } else if w2 < w1 {
        assert(bit_set(mask, s2 + w2));
    }
}

/// Where the set bits of a mask form one unbroken run, the lowest run covers
/// exactly those bits, and it never reaches past the top bit of the mask.
pub proof fn lemma_low_run_covers_single_run(mask: u64, shift: int, width: int)
    requires
        is_single_run(mask),
        is_low_run(mask, shift, width),
    ensures
        covers_exactly(mask, shift, width),
        shift + width <= 64,
{
    let (s, w): (int, int) = choose|s: int, w: int|
        0 <= s && 0 <= w && s + w <= 64 && #[trigger] covers_exactly(mask, s, w);
    if w == 0 {
        if shift < 64 {
            assert(bit_set(mask, shift));
        }
    } else {
        assert(is_low_run(mask, s, w));
        lemma_low_run_unique(mask, s, w, shift, width);
    }
}

/// The lowest run of one-bits of `mask`, found by scanning from the low bit:
/// the zero bits that are skipped give the shift, the one-bits that follow
/// give the width.
pub fn low_run(mask: u64) -> (run: (u32, u32))
    ensures
        is_low_run(mask, run.0 as int, run.1 as int),
{
    let mut shift: u32 = 0;
    while shift < 64 && (mask >> (shift as u64)) & 1 != 1
        invariant
            shift <= 64,
            forall|i: int| 0 <= i < shift ==> !bit_set(mask, i),
        decreases 64 - shift,
    {
        shift += 1;
    }
    let mut width: u32 = 0;
    while shift + width < 64 && (mask >> ((shift + width) as u64)) & 1 == 1
        invariant
            shift + width <= 64,
            forall|i: int| shift <= i < shift + width ==> bit_set(mask, i),
        decreases 64 - width,
    {
        width += 1;
    }
    (shift, width)
}

/// The packing table of a visual: for red, green and blue in turn, the shift
/// and then the width of the channel's mask.
pub open spec fn is_packing_table(visual: Visual, table: Seq<i32>) -> bool {
    &&& table.len() == 6
    &&& is_low_run(visual.red_mask, table[0] as int, table[1] as int)
    &&& is_low_run(visual.green_mask, table[2] as int, table[3] as int)
    &&& is_low_run(visual.blue_mask, table[4] as int, table[5] as int)
}

/// Decomposes the three channel masks of a visual into the table that packs
/// channel values into a pixel.
pub fn mlx_int_rgb_conversion(visual: &Visual) -> (decrgb: [i32; 6])
    ensures
        is_packing_table(*visual, decrgb@),
{
    let red = low_run(visual.red_mask);
    let green = low_run(visual.green_mask);
    let blue = low_run(visual.blue_mask);
    [red.0 as i32, red.1 as i32, green.0 as i32, green.1 as i32, blue.0 as i32, blue.1 as i32]
}

/// The first position of `supported` at or after `from` that holds a
/// true-color visual of the given depth, or the length where there is none.
pub open spec fn first_true_color(supported: Seq<Visual>, depth: i32, from: int) -> int
    decreases supported.len() - from,
{
    if from < 0 || from >= supported.len() {
        supported.len() as int
    } else if supported[from].class == TRUE_COLOR && supported[from].depth == depth {
        from
    } else {
        first_true_color(supported, depth, from + 1)
    }
}

/// The visual that a session uses, and whether it needs a colormap of its own.
///
/// A default visual that is true-color is taken as it is, with the server's
/// colormap. Otherwise the first supported visual that is true-color at the
/// screen's depth is taken, and a private colormap goes with it. Where there is
/// neither, and where the server names no default visual, there is no choice.
pub open spec fn chosen_visual(
    default_visual: Option<Visual>,
    supported: Seq<Visual>,
    depth: i32,
) -> Option<(Visual, bool)> {
    match default_visual {
        None => None,
        Some(visual) => if visual.class == TRUE_COLOR {
            Some((visual, false))
        } else {
            let at = first_true_color(supported, depth, 0);
            if at < supported.len() {
                Some((supported[at], true))
            } else {
                None
            }
        },
    }
}

/// Chooses the session's visual among the default visual and the visuals
/// that the server supports. `private_cmap` is set exactly when the choice is
/// not the default visual, so that a colormap must be made for it.
pub fn mlx_int_get_visual(
    default_visual: Option<Visual>,
    supported: &Vec<Visual>,
    private_cmap: &mut bool,
    depth: i32,
) -> (visual: Option<Visual>)
    ensures
        match chosen_visual(default_visual, supported@, depth) {
            Some((chosen, private)) => visual == Some(chosen) && *final(private_cmap) == private,
            None => visual.is_none() && !*final(private_cmap),
        },
{
    *private_cmap = false;
    let visual = match default_visual {
        None => { return None; },
        Some(visual) => visual,
    };
    if visual.class == true_color_class() {
        return Some(visual);
    }
    let mut at: usize = 0;
    while at < supported.len()
        invariant
            at <= supported.len(),
            default_visual == Some(visual),
            visual.class != TRUE_COLOR,
            !*private_cmap,
            first_true_color(supported@, depth, 0) == first_true_color(supported@, depth, at as int),
        decreases supported.len() - at,
    {
        if supported[at].class == true_color_class() && supported[at].depth == depth {
            *private_cmap = true;
            return Some(supported[at]);
        }
        at += 1;
    }
    None
}

/// A true-color default visual never brings a private colormap with it, and a
/// true-color visual of the screen's depth among the supported ones is always
/// found when the default is of another class.
pub proof fn lemma_true_color_choice(
    default_visual: Visual,
    supported: Seq<Visual>,
    depth: i32,
    at: int,
)
    ensures
        default_visual.class == TRUE_COLOR ==> chosen_visual(
            Some(default_visual),
            supported,
            depth,
        ) == Some((default_visual, false)),
        default_visual.class != TRUE_COLOR && 0 <= at < supported.len() && supported[at].class
            == TRUE_COLOR && supported[at].depth == depth ==> {
            &&& chosen_visual(Some(default_visual), supported, depth).is_some()
            &&& chosen_visual(Some(default_visual), supported, depth).unwrap().1
            &&& chosen_visual(Some(default_visual), supported, depth).unwrap().0.class
                == TRUE_COLOR
            &&& chosen_visual(Some(default_visual), supported, depth).unwrap().0.depth == depth
        },
{
    if default_visual.class != TRUE_COLOR && 0 <= at < supported.len() && supported[at].class
        == TRUE_COLOR && supported[at].depth == depth {
        lemma_first_true_color(supported, depth, 0, at);
    }
}

/// The search for a true-color visual stops at or before any position that
/// holds one, and where it stops short of the end it has found one.
pub proof fn lemma_first_true_color(supported: Seq<Visual>, depth: i32, from: int, at: int)
    requires
        0 <= from <= at < supported.len(),
        supported[at].class == TRUE_COLOR,
        supported[at].depth == depth,
    ensures
        from <= first_true_color(supported, depth, from) <= at,
        supported[first_true_color(supported, depth, from)].class == TRUE_COLOR,
        supported[first_true_color(supported, depth, from)].depth == depth,
    decreases at - from,
{
    if !(supported[from].class == TRUE_COLOR && supported[from].depth == depth) {
        lemma_first_true_color(supported, depth, from + 1, at);
    }
}

} // verus!
