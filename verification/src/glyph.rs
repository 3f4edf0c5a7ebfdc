//! The animation engine: square bitmap glyphs and the two frame builders that
//! turn a glyph list into a flat byte stream, one byte per display row.
//!
//! `Next` mode concatenates the glyphs' row bytes, so playback shows one
//! character after another.  `Scroll` mode lays all glyphs end to end on a
//! reel of pixel rows, separated by one blank column and followed by a full
//! blank glyph width, then slides a window of the glyph width over the reel
//! one column at a time, packing each window row back into a byte.

use vstd::prelude::*;

verus! {

/// Playback mode selecting which frame builder runs.
pub enum AnimationMode {
    Next,
    Scroll,
}

/// An immutable square bitmap.  Each element of `bitmap` encodes one row as a
/// bitfield whose most significant used bit is the leftmost pixel.
#[derive(PartialEq, Debug)]
pub struct Glyph {
    width: u8,
    height: u8,
    bitmap: Vec<u8>,
}

impl Glyph {
    /// The row bytes, top to bottom.
    pub closed spec fn rows(self) -> Seq<u8> {
        self.bitmap@
    }

    pub closed spec fn spec_width(self) -> u8 {
        self.width
    }

    pub closed spec fn spec_height(self) -> u8 {
        self.height
    }

    /// Every glyph is square and carries exactly one row byte per row.
    #[verifier::type_invariant]
    pub open spec fn wf(self) -> bool {
        self.rows().len() == self.spec_height() as nat && self.spec_width() == self.spec_height()
    }

    /// Builds a glyph of the given size; fails exactly when the row data does
    /// not match the declared size.
    pub fn new(size: u8, bitmap: Vec<u8>) -> (r: Result<Glyph, &'static str>)
        ensures
            (r is Ok) <==> bitmap@.len() == size as nat,
            r is Ok ==> r->Ok_0.spec_width() == size && r->Ok_0.spec_height() == size
                && r->Ok_0.rows() == bitmap@,
            r is Err ==> r->Err_0@ == "Not enough row data as per size"@,
    {
        if bitmap.len() != size as usize {
            return Err("Not enough row data as per size");
        }
        Ok(Glyph { width: size, height: size, bitmap })
    }

    /// Width of the glyph
    pub fn width(&self) -> (w: u8)
        ensures
            w == self.spec_width(),
    {
        self.width
    }

    /// Height of the glyph
    pub fn height(&self) -> (h: u8)
        ensures
            h == self.spec_height(),
    {
        self.height
    }

    /// Bitmap data as slice
    pub fn bitmap(&self) -> (b: &[u8])
        ensures
            b@ == self.rows(),
    {
        self.bitmap.as_slice()
    }
}

/// Whether every glyph has the height of the first one.
pub open spec fn uniform_height(glyphs: Seq<Glyph>) -> bool {
    forall|i: int|
        0 <= i < glyphs.len() ==> #[trigger] glyphs[i].spec_height() == glyphs[0].spec_height()
}

/// The stream of `Next` mode: the glyphs' row bytes concatenated in order.
pub open spec fn next_frames(glyphs: Seq<Glyph>) -> Seq<u8>
    decreases glyphs.len(),
{
    if glyphs.len() == 0 {
        Seq::empty()
    } else {
        glyphs.first().rows() + next_frames(glyphs.drop_first())
    }
}

/// Bit `i` of a row byte, counted from the least significant end.
pub open spec fn spec_bit(v: u8, i: u8) -> bool {
    v & (1u8 << i) != 0
}

/// A row byte expanded into `w` pixels, most significant used bit first.
pub open spec fn row_pixels(v: u8, w: nat) -> Seq<bool> {
    Seq::new(w, |j: int| spec_bit(v, (w - 1 - j) as u8))
}

/// Row `r` of the scroll reel before the trailing blank: each glyph's pixels
/// followed by one blank spacer column.
pub open spec fn reel_row(glyphs: Seq<Glyph>, r: int) -> Seq<bool>
    decreases glyphs.len(),
{
    if glyphs.len() == 0 {
        Seq::empty()
    } else {
        row_pixels(glyphs.first().rows()[r], glyphs.first().spec_width() as nat).push(false)
            + reel_row(glyphs.drop_first(), r)
    }
}

/// Length of a reel row before the trailing blank: the glyph widths plus one
/// spacer column each.
pub open spec fn reel_len(glyphs: Seq<Glyph>) -> nat
    decreases glyphs.len(),
{
    if glyphs.len() == 0 {
        0
    } else {
        glyphs.first().spec_width() as nat + 1 + reel_len(glyphs.drop_first())
    }
}

/// A full reel row: the glyph pixels and spacers, then `width - 1` further
/// blank columns, so that together with the last spacer a whole blank glyph
/// width trails the reel.
pub open spec fn scroll_full_row(glyphs: Seq<Glyph>, r: int) -> Seq<bool> {
    reel_row(glyphs, r) + Seq::new((glyphs[0].spec_width() - 1) as nat, |j: int| false)
}

/// A window of `len` pixels packed into a byte, first pixel into the most
/// significant position; a pixel shifted beyond the byte is dropped.
pub open spec fn pack_bits(s: Seq<bool>) -> u8
    decreases s.len(),
{
    if s.len() == 0 {
        0u8
    } else {
        (((pack_bits(s.drop_last()) as nat) * 2 + (if s.last() {
            1nat
        } else {
            0nat
        })) % 256) as u8
    }
}

/// Byte `k` of the scroll stream: it belongs to frame `k / height` and row
/// `k % height`, and packs the window of the glyph width starting at column
/// `k / height` of that row.
pub open spec fn scroll_byte(glyphs: Seq<Glyph>, k: int) -> u8 {
    let w = glyphs[0].spec_width() as int;
    let h = glyphs[0].spec_height() as int;
    pack_bits(scroll_full_row(glyphs, k % h).subrange(k / h, k / h + w))
}

/// The stream of `Scroll` mode: one frame per window position, each frame the
/// packed windows of all reel rows top to bottom.
pub open spec fn scroll_frames(glyphs: Seq<Glyph>) -> Seq<u8> {
    Seq::new(
        reel_len(glyphs) * (glyphs[0].spec_height() as nat),
        |k: int| scroll_byte(glyphs, k),
    )
}

/// The stream that `glyph_animation_frames` owes for each mode.
pub open spec fn frames_spec(glyphs: Seq<Glyph>, mode: AnimationMode) -> Seq<u8> {
    match mode {
        AnimationMode::Next => next_frames(glyphs),
        AnimationMode::Scroll => scroll_frames(glyphs),
    }
}

/// The glyph heights added up.
pub open spec fn total_height(glyphs: Seq<Glyph>) -> nat
    decreases glyphs.len(),
{
    if glyphs.len() == 0 {
        0
    } else {
        glyphs.first().spec_height() as nat + total_height(glyphs.drop_first())
    }
}

/// Law: the `Next` stream holds exactly one byte per glyph row, so its length
/// is the sum of the glyph heights.
pub proof fn lemma_next_frames_length(glyphs: Seq<Glyph>)
    requires
        forall|i: int| 0 <= i < glyphs.len() ==> (#[trigger] glyphs[i]).wf(),
    ensures
        next_frames(glyphs).len() == total_height(glyphs),
    decreases glyphs.len(),
{
    if glyphs.len() > 0 {
        assert(glyphs[0].wf());
        assert(forall|i: int|
            0 <= i < glyphs.drop_first().len() ==> (#[trigger] glyphs.drop_first()[i]).wf());
        lemma_next_frames_length(glyphs.drop_first());
    }
}

/// Law: the `Scroll` stream holds `frame_count * height` bytes, where
/// `frame_count` is the full reel length minus `width - 1`, one frame per
/// position of the sliding window.
pub proof fn lemma_scroll_frames_length(glyphs: Seq<Glyph>)
    requires
        glyphs.len() > 0,
        glyphs[0].spec_width() >= 1,
    ensures
        scroll_frames(glyphs).len() == (scroll_full_row(glyphs, 0).len() - (glyphs[0].spec_width()
            - 1)) * glyphs[0].spec_height(),
{
    lemma_reel_row_len(glyphs, 0);
    assert(scroll_full_row(glyphs, 0).len() - (glyphs[0].spec_width() - 1) == reel_len(glyphs));
}

/// Law: the frame stream is a function of the glyph list and the mode alone,
/// so rendering the same inputs twice yields byte-identical output.
pub proof fn lemma_frames_deterministic(
    first: Seq<u8>,
    second: Seq<u8>,
    glyphs: Seq<Glyph>,
    mode: AnimationMode,
)
    requires
        first == frames_spec(glyphs, mode),
        second == frames_spec(glyphs, mode),
    ensures
        first == second,
{
}

/// Renders the glyph list in the chosen mode.  Glyph lists of mixed heights
/// are rejected before any frame is built.
pub fn glyph_animation_frames(glyphs: Vec<Glyph>, mode: AnimationMode) -> (r: Result<
    Vec<u8>,
    &'static str,
>)
    requires
        glyphs@.len() > 0,
        mode is Scroll ==> 1 <= glyphs@[0].spec_width() <= 8,
    ensures
        (r is Ok) <==> uniform_height(glyphs@),
        r is Ok ==> r->Ok_0@ == frames_spec(glyphs@, mode),
        r is Err ==> r->Err_0@ == "HeightMismatch"@,
{
    if !validate_glyph_list(&glyphs) {
        return Err("HeightMismatch");
    }
    match mode {
        AnimationMode::Next => Ok(build_glyph_next_animation_frames(&glyphs)),
        AnimationMode::Scroll => Ok(build_glyph_scroll_animation_frame(&glyphs)),
    }
}

/// Whether all glyphs share the height of the first one.
fn validate_glyph_list(glyphs: &Vec<Glyph>) -> (r: bool)
    requires
        glyphs@.len() > 0,
    ensures
        r == uniform_height(glyphs@),
{
    let first_height = glyphs[0].height();
    let mut i: usize = 1;
    while i < glyphs.len()
        invariant
            1 <= i <= glyphs@.len(),
            first_height == glyphs@[0].spec_height(),
            forall|q: int| 0 <= q < i ==> #[trigger] glyphs@[q].spec_height() == first_height,
        decreases glyphs@.len() - i,
    {
        if glyphs[i].height() != first_height {
            return false;
        }
        i += 1;
    }
    true
}

proof fn lemma_next_frames_push(glyphs: Seq<Glyph>, g: Glyph)
    ensures
        next_frames(glyphs.push(g)) == next_frames(glyphs) + g.rows(),
    decreases glyphs.len(),
{
    let p = glyphs.push(g);
    if glyphs.len() == 0 {
        assert(p.first() == g);
        assert(p.drop_first() =~= Seq::<Glyph>::empty());
        assert(next_frames(p.drop_first()).len() == 0);
        assert(next_frames(p) == p.first().rows() + next_frames(p.drop_first()));
        assert(next_frames(p) =~= next_frames(glyphs) + g.rows());
    } else {
        assert(p.first() == glyphs.first());
        assert(p.drop_first() =~= glyphs.drop_first().push(g));
        lemma_next_frames_push(glyphs.drop_first(), g);
        assert(next_frames(p) == p.first().rows() + next_frames(p.drop_first()));
        assert(next_frames(glyphs) == glyphs.first().rows() + next_frames(glyphs.drop_first()));
        assert(glyphs.first().rows() + (next_frames(glyphs.drop_first()) + g.rows()) =~= (
        glyphs.first().rows() + next_frames(glyphs.drop_first())) + g.rows());
    }
}

fn build_glyph_next_animation_frames(glyphs: &Vec<Glyph>) -> (r: Vec<u8>)
    ensures
        r@ == next_frames(glyphs@),
{
    let mut frames: Vec<u8> = Vec::new();
    let mut g: usize = 0;
    while g < glyphs.len()
        invariant
            g <= glyphs@.len(),
            frames@ == next_frames(glyphs@.take(g as int)),
        decreases glyphs@.len() - g,
    {
        let glyph = &glyphs[g];
        let mut r: usize = 0;
        while r < glyph.bitmap.len()
            invariant
                r <= glyph.rows().len(),
                glyph == glyphs@[g as int],
                g < glyphs@.len(),
                frames@ == next_frames(glyphs@.take(g as int)) + glyph.rows().take(r as int),
            decreases glyph.rows().len() - r,
        {
            frames.push(glyph.bitmap[r]);
            assert(glyph.rows().take(r + 1) =~= glyph.rows().take(r as int).push(
                glyph.rows()[r as int],
            ));
            r += 1;
        }
        proof {
            lemma_next_frames_push(glyphs@.take(g as int), glyphs@[g as int]);
            assert(glyphs@.take(g as int).push(glyphs@[g as int]) =~= glyphs@.take(g + 1));
            assert(glyph.rows().take(glyph.rows().len() as int) =~= glyph.rows());
        }
        g += 1;
    }
    proof {
        assert(glyphs@.take(glyphs@.len() as int) =~= glyphs@);
    }
    frames
}

/// Packs a window of pixels into a byte: for each pixel left to right, shift
/// the accumulator left once and or in the pixel.
pub fn get_bitmap(bool_slice: &[bool]) -> (r: u8)
    ensures
        r == pack_bits(bool_slice@),
{
    let mut result: u8 = 0;
    let mut idx: usize = 0;
    while idx < bool_slice.len()
        invariant
            idx <= bool_slice@.len(),
            result == pack_bits(bool_slice@.take(idx as int)),
        decreases bool_slice@.len() - idx,
    {
        let bit: u8 = if *vstd::slice::slice_index_get(bool_slice, idx) {
            1
        } else {
            0
        };
        let shifted = result << 1;
        let combined = shifted | bit;
        proof {
            assert(combined == ((result as nat) * 2 + (bit as nat)) % 256) by (bit_vector)
                requires
                    shifted == result << 1,
                    combined == shifted | bit,
                    bit == 0 || bit == 1,
            ;
            let s = bool_slice@.take(idx + 1);
            assert(s.drop_last() =~= bool_slice@.take(idx as int));
            assert(s.last() == bool_slice@[idx as int]);
        }
        result = combined;
        idx += 1;
    }
    proof {
        assert(bool_slice@.take(bool_slice@.len() as int) =~= bool_slice@);
    }
    result
}

proof fn lemma_reel_row_push(glyphs: Seq<Glyph>, g: Glyph, r: int)
    ensures
        reel_row(glyphs.push(g), r) == reel_row(glyphs, r) + row_pixels(
            g.rows()[r],
            g.spec_width() as nat,
        ).push(false),
    decreases glyphs.len(),
{
    let p = glyphs.push(g);
    let seg = row_pixels(g.rows()[r], g.spec_width() as nat).push(false);
    if glyphs.len() == 0 {
        assert(p.first() == g);
        assert(p.drop_first() =~= Seq::<Glyph>::empty());
        assert(reel_row(p.drop_first(), r).len() == 0);
        assert(reel_row(p, r) =~= reel_row(glyphs, r) + seg);
    } else {
        assert(p.first() == glyphs.first());
        assert(p.drop_first() =~= glyphs.drop_first().push(g));
        lemma_reel_row_push(glyphs.drop_first(), g, r);
        let head = row_pixels(glyphs.first().rows()[r], glyphs.first().spec_width() as nat).push(
            false,
        );
        assert(reel_row(p, r) == head + (reel_row(glyphs.drop_first(), r) + seg));
        assert(head + (reel_row(glyphs.drop_first(), r) + seg) =~= (head + reel_row(
            glyphs.drop_first(),
            r,
        )) + seg);
    }
}

proof fn lemma_reel_row_len(glyphs: Seq<Glyph>, r: int)
    ensures
        reel_row(glyphs, r).len() == reel_len(glyphs),
    decreases glyphs.len(),
{
    if glyphs.len() > 0 {
        lemma_reel_row_len(glyphs.drop_first(), r);
    }
}

fn build_glyph_scroll_animation_frame(glyphs: &Vec<Glyph>) -> (res: Vec<u8>)
    requires
        glyphs@.len() > 0,
        uniform_height(glyphs@),
        1 <= glyphs@[0].spec_width() <= 8,
    ensures
        res@ == scroll_frames(glyphs@),
{
    let first_glyph = &glyphs[0];
    proof {
        use_type_invariant(first_glyph);
    }
    let num_rows = first_glyph.height();
    let width = first_glyph.width() as usize;
    let mut animation_reel: Vec<Vec<bool>> = Vec::new();
    let mut r: usize = 0;
    while r < num_rows as usize
        invariant
            r <= num_rows as usize,
            animation_reel@.len() == r,
            forall|q: int|
                0 <= q < r ==> #[trigger] animation_reel@[q]@ == scroll_full_row(glyphs@, q),
            glyphs@.len() > 0,
            uniform_height(glyphs@),
            num_rows == glyphs@[0].spec_height(),
            width == glyphs@[0].spec_width() as usize,
            num_rows as usize == width,
            1 <= width <= 8,
        decreases num_rows as usize - r,
    {
        let mut row: Vec<bool> = Vec::new();
        let mut g: usize = 0;
        while g < glyphs.len()
            invariant
                g <= glyphs@.len(),
                row@ == reel_row(glyphs@.take(g as int), r as int),
                glyphs@.len() > 0,
                uniform_height(glyphs@),
                num_rows == glyphs@[0].spec_height(),
                num_rows as usize == width,
                1 <= width <= 8,
                r < num_rows as usize,
            decreases glyphs@.len() - g,
        {
            let glyph = &glyphs[g];
            proof {
                use_type_invariant(glyph);
                assert(glyph.spec_height() == num_rows);
                assert(glyph.spec_width() == num_rows);
                assert(glyph.rows().len() == num_rows as nat);
            }
            let value = glyph.bitmap[r];
            let gw = glyph.width();
            let mut j: usize = 0;
            while j < gw as usize
                invariant
                    j <= gw as usize,
                    row@ == reel_row(glyphs@.take(g as int), r as int) + row_pixels(
                        value,
                        gw as nat,
                    ).take(j as int),
                    1 <= gw <= 8,
                decreases gw as usize - j,
            {
                let sh: u8 = gw - 1 - (j as u8);
                let mask: u8 = 1u8 << sh;
                let bit = (value & mask) != 0;
                proof {
                    let px = row_pixels(value, gw as nat);
                    assert(px[j as int] == spec_bit(value, (gw - 1 - j) as u8));
                    assert(px.take(j + 1) =~= px.take(j as int).push(px[j as int]));
                }
                row.push(bit);
                j += 1;
            }
            proof {
                assert(row_pixels(value, gw as nat).take(gw as int) =~= row_pixels(
                    value,
                    gw as nat,
                ));
            }
            row.push(false);
            proof {
                lemma_reel_row_push(glyphs@.take(g as int), glyphs@[g as int], r as int);
                assert(glyphs@.take(g as int).push(glyphs@[g as int]) =~= glyphs@.take(g + 1));
            }
            g += 1;
        }
        proof {
            assert(glyphs@.take(glyphs@.len() as int) =~= glyphs@);
        }
        let mut j: usize = 0;
        while j < width - 1
            invariant
                j <= width - 1,
                row@ == reel_row(glyphs@, r as int) + Seq::new(j as nat, |q: int| false),
            decreases width - 1 - j,
        {
            row.push(false);
            proof {
                assert(Seq::new((j + 1) as nat, |q: int| false) =~= Seq::new(
                    j as nat,
                    |q: int| false,
                ).push(false));
            }
            j += 1;
        }
        proof {
            assert(row@ =~= scroll_full_row(glyphs@, r as int));
        }
        animation_reel.push(row);
        r += 1;
    }
    let l0 = animation_reel[0].len();
    proof {
        lemma_reel_row_len(glyphs@, 0);
        assert(l0 == reel_len(glyphs@) + (width - 1));
    }
    let max = l0 - (width - 1);
    let ghost target = scroll_frames(glyphs@);
    let ghost h = num_rows as int;
    proof {
        assert(target.len() == reel_len(glyphs@) * (h as nat));
    }
    let mut frames: Vec<u8> = Vec::new();
    let mut i: usize = 0;
    while i < max
        invariant
            i <= max,
            frames@ == target.take((i as int) * h),
            max == reel_len(glyphs@),
            num_rows == glyphs@[0].spec_height(),
            target == scroll_frames(glyphs@),
            target.len() == reel_len(glyphs@) * (h as nat),
            h == num_rows as int,
            num_rows as usize == width,
            1 <= width <= 8,
            width == glyphs@[0].spec_width() as usize,
            animation_reel@.len() == num_rows as usize,
            forall|q: int|
                0 <= q < num_rows as usize ==> #[trigger] animation_reel@[q]@ == scroll_full_row(
                    glyphs@,
                    q,
                ),
            l0 == reel_len(glyphs@) + (width - 1),
        decreases max - i,
    {
        let mut rr: usize = 0;
        while rr < num_rows as usize
            invariant
                rr <= num_rows as usize,
                frames@ == target.take((i as int) * h + rr as int),
                i < max,
                max == reel_len(glyphs@),
                num_rows == glyphs@[0].spec_height(),
                target == scroll_frames(glyphs@),
                target.len() == reel_len(glyphs@) * (h as nat),
                h == num_rows as int,
                num_rows as usize == width,
                1 <= width <= 8,
                width == glyphs@[0].spec_width() as usize,
                animation_reel@.len() == num_rows as usize,
                forall|q: int|
                    0 <= q < num_rows as usize ==> #[trigger] animation_reel@[q]@
                        == scroll_full_row(glyphs@, q),
                l0 == reel_len(glyphs@) + (width - 1),
            decreases num_rows as usize - rr,
        {
            let row_ref = &animation_reel[rr];
            proof {
                assert(row_ref@ == scroll_full_row(glyphs@, rr as int));
                assert(row_ref@.len() == l0) by {
                    lemma_reel_row_len(glyphs@, rr as int);
                }
                assert(i + width <= l0);
            }
            let window = vstd::slice::slice_subrange(row_ref.as_slice(), i, i + width);
            let b = get_bitmap(window);
            proof {
                let k = (i as int) * h + rr as int;
                vstd::arithmetic::div_mod::lemma_fundamental_div_mod_converse(
                    k,
                    h,
                    i as int,
                    rr as int,
                );
                assert(k / h == i as int && k % h == rr as int);
                vstd::arithmetic::mul::lemma_mul_inequality(i + 1, max as int, h);
                vstd::arithmetic::mul::lemma_mul_is_distributive_add_other_way(h, i as int, 1);
                assert((i + 1) as int * h == (i as int) * h + h);
                assert(k < (max as int) * h);
                vstd::arithmetic::mul::lemma_mul_is_commutative(max as int, h);
                assert(k < target.len());
                assert(0 <= k < target.len());
                assert(target[k] == scroll_byte(glyphs@, k));
                assert(scroll_byte(glyphs@, k) == pack_bits(
                    scroll_full_row(glyphs@, k % h).subrange(
                        k / h,
                        k / h + glyphs@[0].spec_width() as int,
                    ),
                ));
                assert(k / h + glyphs@[0].spec_width() as int == i as int + width as int);
                assert(window@ == scroll_full_row(glyphs@, rr as int).subrange(
                    i as int,
                    i as int + width as int,
                ));
                assert(b == target[k]);
                assert(target.take(k + 1) =~= target.take(k).push(target[k]));
            }
            frames.push(b);
            rr += 1;
        }
        proof {
            vstd::arithmetic::mul::lemma_mul_is_distributive_add_other_way(h, i as int, 1);
            assert((i as int) * h + h == (i + 1) as int * h);
        }
        i += 1;
    }
    proof {
        assert((max as int) * h == target.len()) by {
            vstd::arithmetic::mul::lemma_mul_is_commutative(max as int, h);
        }
        assert(target.take(target.len() as int) =~= target);
    }
    frames
}

} // verus!
