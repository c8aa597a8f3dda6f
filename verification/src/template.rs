use vstd::prelude::*;
use crate::text::owned;

verus! {

/// An RGBA image: `width * height` pixels of four bytes each, row by row.
#[derive(Clone, Debug, PartialEq, Eq)]
pub struct Image {
    pub width: u32,
    pub height: u32,
    pub rgba: Vec<u8>,
}

/// An image as a value: its size and its RGBA bytes, row by row.
pub struct ImageView {
    pub width: u32,
    pub height: u32,
    pub rgba: Seq<u8>,
}

impl ImageView {
    /// The bytes are exactly `width * height` pixels.
    pub open spec fn wf(&self) -> bool {
        self.rgba.len() == self.width * self.height * 4
    }

    /// Channel `c` (0 red, 1 green, 2 blue, 3 alpha) of the pixel at `(x, y)`.
    pub open spec fn channel(&self, x: int, y: int, c: int) -> u8 {
        self.rgba[(y * self.width + x) * 4 + c]
    }
}

impl View for Image {
    type V = ImageView;

    open spec fn view(&self) -> ImageView {
        ImageView { width: self.width, height: self.height, rgba: self.rgba@ }
    }
}

/// Why a template was not located on the screen.
#[derive(PartialEq, Eq, Structural, Clone, Copy, Debug)]
pub enum TemplateError {
    /// The template is wider or taller than the screen.
    TooLarge,
    /// No position matches.
    NotFound,
}

impl Image {
    /// The pixel buffer holds exactly `width * height` pixels.
    pub open spec fn wf(&self) -> bool {
        self@.wf()
    }

    /// An image of the given size from its RGBA bytes; `None` when the
    /// buffer does not hold exactly `width * height` pixels.
    pub fn from_rgba(width: u32, height: u32, rgba: Vec<u8>) -> (r: Option<Image>)
        ensures
            match r {
                Some(img) => img.wf() && img.width == width && img.height == height && img.rgba
                    == rgba,
                None => rgba@.len() != width * height * 4,
            },
    {
        let w = width as u64;
        let h = height as u64;
        assert(w * h <= 0xffff_ffff_ffff_ffff) by (nonlinear_arith)
            requires
                w <= 0xffff_ffff,
                h <= 0xffff_ffff,
        ;
        let pixels = w * h;
        if pixels > (usize::MAX / 4) as u64 {
            let n = rgba.len();
            assert(pixels * 4 > usize::MAX) by (nonlinear_arith)
                requires
                    pixels > usize::MAX / 4,
            ;
            assert(n < w * h * 4);
            return None;
        }
        let bytes = (pixels as usize) * 4;
        if rgba.len() == bytes {
            Some(Image { width, height, rgba })
        } else {
            None
        }
    }

    /// The red, green and blue values of the pixel at `(x, y)`.
    fn rgb(&self, x: u32, y: u32) -> (p: (u8, u8, u8))
        requires
            self.wf(),
            x < self.width,
            y < self.height,
        ensures
            p == (self@.channel(x as int, y as int, 0), self@.channel(
                x as int,
                y as int,
                1,
            ), self@.channel(x as int, y as int, 2)),
    {
        proof {
            lemma_pixel_index(self.width as int, self.height as int, x as int, y as int);
        }
        let n = self.rgba.len();
        let base = ((y as usize) * (self.width as usize) + (x as usize)) * 4;
        (self.rgba[base], self.rgba[base + 1], self.rgba[base + 2])
    }
}

proof fn lemma_pixel_index(w: int, h: int, x: int, y: int)
    requires
        0 <= x < w,
        0 <= y < h,
    ensures
        0 <= y * w,
        y * w + x < w * h,
        (y * w + x) * 4 + 3 < w * h * 4,
{
    assert(0 <= y * w) by (nonlinear_arith)
        requires
            0 <= y,
            0 <= w,
    ;
    assert(y * w + x < w * h) by (nonlinear_arith)
        requires
            0 <= x < w,
            0 <= y < h,
    ;
    assert((y * w + x) * 4 + 3 < w * h * 4) by (nonlinear_arith)
        requires
            y * w + x < w * h,
    ;
}

/// The points of the template that are compared exactly first: the four
/// corners and the centre.
pub open spec fn probe_points(tw: int, th: int) -> Seq<(int, int)> {
    seq![(0, 0), (tw - 1, 0), (0, th - 1), (tw - 1, th - 1), (tw / 2, th / 2)]
}

/// The screen pixel at `(mx, my)` and the template pixel at `(tx, ty)` have
/// the same red, green and blue values.
pub open spec fn same_rgb(screen: ImageView, mx: int, my: int, template: ImageView, tx: int, ty: int) -> bool {
    &&& screen.channel(mx, my, 0) == template.channel(tx, ty, 0)
    &&& screen.channel(mx, my, 1) == template.channel(tx, ty, 1)
    &&& screen.channel(mx, my, 2) == template.channel(tx, ty, 2)
}

/// `|a - b| <= 10`.
pub open spec fn close(a: u8, b: u8) -> bool {
    -10 <= a - b <= 10
}

/// The red, green and blue values of the two pixels differ by at most 10.
pub open spec fn close_rgb(screen: ImageView, mx: int, my: int, template: ImageView, tx: int, ty: int) -> bool {
    &&& close(screen.channel(mx, my, 0), template.channel(tx, ty, 0))
    &&& close(screen.channel(mx, my, 1), template.channel(tx, ty, 1))
    &&& close(screen.channel(mx, my, 2), template.channel(tx, ty, 2))
}

/// The probe points of the template placed at `(x, y)` match exactly.
pub open spec fn probes_match(screen: ImageView, template: ImageView, x: int, y: int) -> bool {
    forall|i: int|
        0 <= i < 5 ==> #[trigger] same_rgb(
            screen,
            x + probe_points(template.width as int, template.height as int)[i].0,
            y + probe_points(template.width as int, template.height as int)[i].1,
            template,
            probe_points(template.width as int, template.height as int)[i].0,
            probe_points(template.width as int, template.height as int)[i].1,
        )
}

/// Every template pixel whose coordinates are both multiples of 3 is close
/// to the screen pixel under it, with the template placed at `(x, y)`.
pub open spec fn samples_match(screen: ImageView, template: ImageView, x: int, y: int) -> bool {
    forall|tx: int, ty: int|
        0 <= tx < template.width && 0 <= ty < template.height && tx % 3 == 0 && ty % 3 == 0
            ==> #[trigger] close_rgb(screen, x + tx, y + ty, template, tx, ty)
}

/// The template placed with its top-left corner at `(x, y)` matches.
pub open spec fn matches_at(screen: ImageView, template: ImageView, x: int, y: int) -> bool {
    probes_match(screen, template, x, y) && samples_match(screen, template, x, y)
}

/// The positions that the search tries: every position at which the
/// template lies wholly on the screen.
pub open spec fn is_candidate(screen: ImageView, template: ImageView, x: int, y: int) -> bool {
    &&& 0 <= x <= screen.width - template.width
    &&& 0 <= y <= screen.height - template.height
}

/// `(x1, y1)` comes before `(x2, y2)` when the screen is read row by row.
pub open spec fn scans_before(x1: int, y1: int, x2: int, y2: int) -> bool {
    y1 < y2 || (y1 == y2 && x1 < x2)
}

/// The template fits on the screen.
pub open spec fn fits(screen: ImageView, template: ImageView) -> bool {
    template.width <= screen.width && template.height <= screen.height
}

fn probes_match_at(screen: &Image, template: &Image, x: u32, y: u32) -> (r: bool)
    requires
        screen.wf(),
        template.wf(),
        template.width > 0,
        template.height > 0,
        x + template.width <= screen.width,
        y + template.height <= screen.height,
    ensures
        r == probes_match(screen@, template@, x as int, y as int),
{
    let tw = template.width;
    let th = template.height;
    let ghost pts = probe_points(tw as int, th as int);
    let xs: [u32; 5] = [0, tw - 1, 0, tw - 1, tw / 2];
    let ys: [u32; 5] = [0, 0, th - 1, th - 1, th / 2];
    let mut i: usize = 0;
    while i < 5
        invariant
            0 <= i <= 5,
            screen.wf(),
            template.wf(),
            tw == template.width,
            th == template.height,
            tw > 0,
            th > 0,
            x + tw <= screen.width,
            y + th <= screen.height,
            pts == probe_points(tw as int, th as int),
            forall|k: int| 0 <= k < 5 ==> xs@[k] == pts[k].0 && ys@[k] == pts[k].1,
            forall|k: int|
                0 <= k < i ==> #[trigger] same_rgb(
                    screen@,
                    x + pts[k].0,
                    y + pts[k].1,
                    template@,
                    pts[k].0,
                    pts[k].1,
                ),
        decreases 5 - i,
    {
        let tx = xs[i];
        let ty = ys[i];
        let m = screen.rgb(x + tx, y + ty);
        let t = template.rgb(tx, ty);
        if m.0 != t.0 || m.1 != t.1 || m.2 != t.2 {
            assert(!same_rgb(screen@, x + pts[i as int].0, y + pts[i as int].1, template@, pts[i as int].0, pts[i as int].1));
            return false;
        }
        i = i + 1;
    }
    true
}

fn samples_match_at(screen: &Image, template: &Image, x: u32, y: u32) -> (r: bool)
    requires
        screen.wf(),
        template.wf(),
        x + template.width <= screen.width,
        y + template.height <= screen.height,
    ensures
        r == samples_match(screen@, template@, x as int, y as int),
{
    let tw = template.width;
    let th = template.height;
    let mut ty: u32 = 0;
    loop
        invariant
            screen.wf(),
            template.wf(),
            tw == template.width,
            th == template.height,
            x + tw <= screen.width,
            y + th <= screen.height,
            ty % 3 == 0,
            forall|tx2: int, ty2: int|
                0 <= tx2 < tw && 0 <= ty2 < th && ty2 < ty && tx2 % 3 == 0 && ty2 % 3 == 0
                    ==> #[trigger] close_rgb(screen@, x + tx2, y + ty2, template@, tx2, ty2),
        decreases th + 3 - ty,
    {
        if ty >= th {
            return true;
        }
        let mut tx: u32 = 0;
        loop
            invariant
                screen.wf(),
                template.wf(),
                tw == template.width,
                th == template.height,
                x + tw <= screen.width,
                y + th <= screen.height,
                ty < th,
                ty % 3 == 0,
                tx % 3 == 0,
                forall|tx2: int, ty2: int|
                    0 <= tx2 < tw && 0 <= ty2 < th && ty2 < ty && tx2 % 3 == 0 && ty2 % 3 == 0
                        ==> #[trigger] close_rgb(screen@, x + tx2, y + ty2, template@, tx2, ty2),
                forall|tx2: int|
                    0 <= tx2 < tw && tx2 < tx && tx2 % 3 == 0 ==> #[trigger] close_rgb(
                        screen@,
                        x + tx2,
                        y + ty,
                        template@,
                        tx2,
                        ty as int,
                    ),
            ensures
                tx >= tw,
                forall|tx2: int|
                    0 <= tx2 < tw && tx2 % 3 == 0 ==> #[trigger] close_rgb(
                        screen@,
                        x + tx2,
                        y + ty,
                        template@,
                        tx2,
                        ty as int,
                    ),
            decreases tw + 3 - tx,
        {
            if tx >= tw {
                break;
            }
            let m = screen.rgb(x + tx, y + ty);
            let t = template.rgb(tx, ty);
            let d0 = m.0 as i32 - t.0 as i32;
            let d1 = m.1 as i32 - t.1 as i32;
            let d2 = m.2 as i32 - t.2 as i32;
            if d0 > 10 || d0 < -10 || d1 > 10 || d1 < -10 || d2 > 10 || d2 < -10 {
                assert(!close_rgb(screen@, x + tx, y + ty, template@, tx as int, ty as int));
                return false;
            }
            if tw - tx <= 3 {
                tx = tw + (3 - (tw % 3)) % 3;
                assert(tx % 3 == 0);
                break;
            }
            tx = tx + 3;
        }
        assert forall|tx2: int, ty2: int|
            0 <= tx2 < tw && 0 <= ty2 < th && ty2 < ty + 3 && tx2 % 3 == 0 && ty2 % 3
                == 0 implies #[trigger] close_rgb(screen@, x + tx2, y + ty2, template@, tx2, ty2) by {
            if ty2 >= ty {
                assert(ty2 == ty);
            }
        }
        if th - ty <= 3 {
            return true;
        }
        ty = ty + 3;
    }
}

/// `(x, y)` is the first position, row by row, at which the template
/// matches.
pub open spec fn is_first_match(screen: ImageView, template: ImageView, x: int, y: int) -> bool {
    &&& is_candidate(screen, template, x, y)
    &&& matches_at(screen, template, x, y)
    &&& forall|x2: int, y2: int|
        is_candidate(screen, template, x2, y2) && scans_before(x2, y2, x, y) ==> !#[trigger] matches_at(
            screen,
            template,
            x2,
            y2,
        )
}

/// What a search for the template on the screen gives: the centre of the
/// first match, or why there is none.
pub open spec fn located(screen: ImageView, template: ImageView) -> Result<(u32, u32), TemplateError> {
    if !fits(screen, template) {
        Err(TemplateError::TooLarge)
    } else if exists|x: int, y: int| is_first_match(screen, template, x, y) {
        let (x, y) = choose|x: int, y: int| is_first_match(screen, template, x, y);
        Ok(((x + template.width / 2) as u32, (y + template.height / 2) as u32))
    } else {
        Err(TemplateError::NotFound)
    }
}

proof fn lemma_first_match_unique(screen: ImageView, template: ImageView, x1: int, y1: int, x2: int, y2: int)
    requires
        is_first_match(screen, template, x1, y1),
        is_first_match(screen, template, x2, y2),
    ensures
        x1 == x2 && y1 == y2,
{
    if scans_before(x1, y1, x2, y2) {
        assert(!matches_at(screen, template, x1, y1));
    } else if scans_before(x2, y2, x1, y1) {
        assert(!matches_at(screen, template, x2, y2));
    }
}

/// The place of `(x, y)` when the screen is read row by row.
spec fn scan_rank(screen: ImageView, x: int, y: int) -> int {
    y * (screen.width + 1) + x
}

proof fn lemma_scan_rank(screen: ImageView, x1: int, y1: int, x2: int, y2: int)
    requires
        0 <= x1 <= screen.width,
        0 <= x2 <= screen.width,
        0 <= y1,
        0 <= y2,
        scans_before(x1, y1, x2, y2),
    ensures
        0 <= scan_rank(screen, x1, y1) < scan_rank(screen, x2, y2),
{
    let w = screen.width + 1;
    assert(0 <= y1 * w) by (nonlinear_arith)
        requires
            0 <= y1,
            0 <= w,
    ;
    if y1 < y2 {
        assert(y1 * w + w <= y2 * w) by (nonlinear_arith)
            requires
                y1 < y2,
                0 <= w,
        ;
    }
}

proof fn lemma_first_match_exists(screen: ImageView, template: ImageView, x: int, y: int)
    requires
        is_candidate(screen, template, x, y),
        matches_at(screen, template, x, y),
    ensures
        exists|x1: int, y1: int| is_first_match(screen, template, x1, y1),
    decreases scan_rank(screen, x, y),
{
    if is_first_match(screen, template, x, y) {
    } else {
        let (x2, y2) = choose|x2: int, y2: int|
            is_candidate(screen, template, x2, y2) && scans_before(x2, y2, x, y) && matches_at(
                screen,
                template,
                x2,
                y2,
            );
        lemma_scan_rank(screen, x2, y2, x, y);
        lemma_first_match_exists(screen, template, x2, y2);
    }
}

/// Where a template was found, its centre lies on the screen, inside the
/// area that the template covers.
pub proof fn lemma_center_on_screen(screen: ImageView, template: ImageView)
    requires
        template.width > 0,
        template.height > 0,
    ensures
        located(screen, template) matches Ok((cx, cy)) ==> cx < screen.width && cy < screen.height
            && exists|x: int, y: int|
            #![trigger is_first_match(screen, template, x, y)]
            is_first_match(screen, template, x, y) && x <= cx < x + template.width && y <= cy < y
                + template.height,
{
    if located(screen, template) is Ok {
        let (x, y) = choose|x: int, y: int| is_first_match(screen, template, x, y);
        assert(is_first_match(screen, template, x, y));
    }
}

/// A template that appears on the screen pixel for pixel in red, green and
/// blue, at any position, is found.
pub proof fn lemma_exact_copy_is_found(screen: ImageView, template: ImageView, x: int, y: int)
    requires
        is_candidate(screen, template, x, y),
        template.width > 0,
        template.height > 0,
        forall|tx: int, ty: int|
            0 <= tx < template.width && 0 <= ty < template.height ==> #[trigger] same_rgb(
                screen,
                x + tx,
                y + ty,
                template,
                tx,
                ty,
            ),
    ensures
        located(screen, template) is Ok,
{
    let tw = template.width as int;
    let th = template.height as int;
    assert forall|i: int| 0 <= i < 5 implies #[trigger] same_rgb(
        screen,
        x + probe_points(tw, th)[i].0,
        y + probe_points(tw, th)[i].1,
        template,
        probe_points(tw, th)[i].0,
        probe_points(tw, th)[i].1,
    ) by {
        let p = probe_points(tw, th)[i];
        assert(0 <= p.0 < tw && 0 <= p.1 < th);
        assert(same_rgb(screen, x + p.0, y + p.1, template, p.0, p.1));
    }
    assert forall|tx: int, ty: int|
        0 <= tx < template.width && 0 <= ty < template.height && tx % 3 == 0 && ty % 3 == 0
            implies #[trigger] close_rgb(screen, x + tx, y + ty, template, tx, ty) by {
        assert(same_rgb(screen, x + tx, y + ty, template, tx, ty));
    }
    assert(matches_at(screen, template, x, y));
    lemma_first_match_exists(screen, template, x, y);
}

/// Two images of the same size whose red, green and blue values agree at
/// every pixel (their alpha may differ).
pub open spec fn same_colours(a: ImageView, b: ImageView) -> bool {
    &&& a.width == b.width
    &&& a.height == b.height
    &&& forall|x: int, y: int, c: int|
        0 <= x < a.width && 0 <= y < a.height && 0 <= c < 3 ==> #[trigger] a.channel(x, y, c)
            == b.channel(x, y, c)
}

proof fn lemma_match_ignores_alpha(
    s1: ImageView,
    t1: ImageView,
    s2: ImageView,
    t2: ImageView,
    x: int,
    y: int,
)
    requires
        same_colours(s1, s2),
        same_colours(t1, t2),
        t1.width > 0,
        t1.height > 0,
        is_candidate(s1, t1, x, y),
    ensures
        matches_at(s1, t1, x, y) == matches_at(s2, t2, x, y),
{
    let tw = t1.width as int;
    let th = t1.height as int;
    assert forall|i: int| 0 <= i < 5 implies #[trigger] same_rgb(
        s1,
        x + probe_points(tw, th)[i].0,
        y + probe_points(tw, th)[i].1,
        t1,
        probe_points(tw, th)[i].0,
        probe_points(tw, th)[i].1,
    ) == same_rgb(
        s2,
        x + probe_points(tw, th)[i].0,
        y + probe_points(tw, th)[i].1,
        t2,
        probe_points(tw, th)[i].0,
        probe_points(tw, th)[i].1,
    ) by {
        let p = probe_points(tw, th)[i];
        assert(0 <= p.0 < tw && 0 <= p.1 < th);
        assert(s1.channel(x + p.0, y + p.1, 0) == s2.channel(x + p.0, y + p.1, 0));
        assert(s1.channel(x + p.0, y + p.1, 1) == s2.channel(x + p.0, y + p.1, 1));
        assert(s1.channel(x + p.0, y + p.1, 2) == s2.channel(x + p.0, y + p.1, 2));
        assert(t1.channel(p.0, p.1, 0) == t2.channel(p.0, p.1, 0));
        assert(t1.channel(p.0, p.1, 1) == t2.channel(p.0, p.1, 1));
        assert(t1.channel(p.0, p.1, 2) == t2.channel(p.0, p.1, 2));
    }
    if probes_match(s1, t1, x, y) {
        assert forall|i: int| 0 <= i < 5 implies #[trigger] same_rgb(
            s2,
            x + probe_points(tw, th)[i].0,
            y + probe_points(tw, th)[i].1,
            t2,
            probe_points(tw, th)[i].0,
            probe_points(tw, th)[i].1,
        ) by {
            assert(same_rgb(
                s1,
                x + probe_points(tw, th)[i].0,
                y + probe_points(tw, th)[i].1,
                t1,
                probe_points(tw, th)[i].0,
                probe_points(tw, th)[i].1,
            ));
        }
    }
    if probes_match(s2, t2, x, y) {
        assert forall|i: int| 0 <= i < 5 implies #[trigger] same_rgb(
            s1,
            x + probe_points(tw, th)[i].0,
            y + probe_points(tw, th)[i].1,
            t1,
            probe_points(tw, th)[i].0,
            probe_points(tw, th)[i].1,
        ) by {
            assert(same_rgb(
                s2,
                x + probe_points(tw, th)[i].0,
                y + probe_points(tw, th)[i].1,
                t2,
                probe_points(tw, th)[i].0,
                probe_points(tw, th)[i].1,
            ));
        }
    }
    assert forall|tx: int, ty: int|
        0 <= tx < t1.width && 0 <= ty < t1.height && tx % 3 == 0 && ty % 3 == 0 implies #[trigger] close_rgb(
            s1,
            x + tx,
            y + ty,
            t1,
            tx,
            ty,
        ) == close_rgb(s2, x + tx, y + ty, t2, tx, ty) by {
        assert(s1.channel(x + tx, y + ty, 0) == s2.channel(x + tx, y + ty, 0));
        assert(s1.channel(x + tx, y + ty, 1) == s2.channel(x + tx, y + ty, 1));
        assert(s1.channel(x + tx, y + ty, 2) == s2.channel(x + tx, y + ty, 2));
        assert(t1.channel(tx, ty, 0) == t2.channel(tx, ty, 0));
        assert(t1.channel(tx, ty, 1) == t2.channel(tx, ty, 1));
        assert(t1.channel(tx, ty, 2) == t2.channel(tx, ty, 2));
    }
    if samples_match(s1, t1, x, y) {
        assert forall|tx: int, ty: int|
            0 <= tx < t2.width && 0 <= ty < t2.height && tx % 3 == 0 && ty % 3 == 0 implies #[trigger] close_rgb(
                s2,
                x + tx,
                y + ty,
                t2,
                tx,
                ty,
            ) by {
            assert(close_rgb(s1, x + tx, y + ty, t1, tx, ty));
        }
    }
    if samples_match(s2, t2, x, y) {
        assert forall|tx: int, ty: int|
            0 <= tx < t1.width && 0 <= ty < t1.height && tx % 3 == 0 && ty % 3 == 0 implies #[trigger] close_rgb(
                s1,
                x + tx,
                y + ty,
                t1,
                tx,
                ty,
            ) by {
            assert(close_rgb(s2, x + tx, y + ty, t2, tx, ty));
        }
    }
}

/// The search reads only red, green and blue: screens and templates that
/// agree in those, whatever their alpha, give the same result.
pub proof fn lemma_search_ignores_alpha(s1: ImageView, t1: ImageView, s2: ImageView, t2: ImageView)
    requires
        same_colours(s1, s2),
        same_colours(t1, t2),
        fits(s1, t1) ==> t1.width > 0 && t1.height > 0,
    ensures
        located(s1, t1) == located(s2, t2),
{
    if fits(s1, t1) {
        assert forall|x: int, y: int| #[trigger]
            is_first_match(s1, t1, x, y) == is_first_match(s2, t2, x, y) by {
            if is_candidate(s1, t1, x, y) {
                lemma_match_ignores_alpha(s1, t1, s2, t2, x, y);
                if is_first_match(s1, t1, x, y) {
                    assert forall|x2: int, y2: int|
                        is_candidate(s2, t2, x2, y2) && scans_before(x2, y2, x, y) implies !#[trigger] matches_at(
                        s2,
                        t2,
                        x2,
                        y2,
                    ) by {
                        lemma_match_ignores_alpha(s1, t1, s2, t2, x2, y2);
                    }
                }
                if is_first_match(s2, t2, x, y) {
                    assert forall|x2: int, y2: int|
                        is_candidate(s1, t1, x2, y2) && scans_before(x2, y2, x, y) implies !#[trigger] matches_at(
                        s1,
                        t1,
                        x2,
                        y2,
                    ) by {
                        lemma_match_ignores_alpha(s1, t1, s2, t2, x2, y2);
                    }
                }
            }
        }
        if exists|x: int, y: int| is_first_match(s1, t1, x, y) {
            let (x1, y1) = choose|x: int, y: int| is_first_match(s1, t1, x, y);
            assert(is_first_match(s2, t2, x1, y1));
            let (x2, y2) = choose|x: int, y: int| is_first_match(s2, t2, x, y);
            assert(is_first_match(s1, t1, x2, y2));
            lemma_first_match_unique(s1, t1, x1, y1, x2, y2);
        } else {
            assert(!exists|x: int, y: int| is_first_match(s2, t2, x, y)) by {
                if exists|x: int, y: int| is_first_match(s2, t2, x, y) {
                    let (x2, y2) = choose|x: int, y: int| is_first_match(s2, t2, x, y);
                    assert(is_first_match(s1, t1, x2, y2));
                }
            }
        }
    }
}

impl TemplateError {
    /// The text that reports the error.
    pub open spec fn message_text(self) -> Seq<char> {
        match self {
            TemplateError::TooLarge => "Template larger than monitor"@,
            TemplateError::NotFound => "Template not found"@,
        }
    }

    /// The text that reports the error.
    pub fn message(&self) -> (s: String)
        ensures
            s@ == self.message_text(),
    {
        match self {
            TemplateError::TooLarge => owned("Template larger than monitor"),
            TemplateError::NotFound => owned("Template not found"),
        }
    }
}

/// Locates a template on a screen image.
///
/// Every position at which the template fits is tried, row by row; at each, the
/// template's corners and centre must match the screen exactly, and then
/// every template pixel on the grid of multiples of 3 must be within 10 of
/// the screen in red, green and blue. The centre of the first match is
/// returned.
pub fn find_template(screen: &Image, template: &Image) -> (r: Result<(u32, u32), TemplateError>)
    requires
        screen.wf(),
        template.wf(),
        fits(screen@, template@) ==> template.width > 0 && template.height > 0,
    ensures
        r == located(screen@, template@),
        r == Err::<(u32, u32), TemplateError>(TemplateError::TooLarge) <==> !fits(screen@, template@),
        r == Err::<(u32, u32), TemplateError>(TemplateError::NotFound) <==> fits(screen@, template@)
            && forall|x: int, y: int|
            is_candidate(screen@, template@, x, y) ==> !#[trigger] matches_at(
                screen@,
                template@,
                x,
                y,
            ),
        r matches Ok((cx, cy)) ==> exists|x: int, y: int|
            {
                &&& is_candidate(screen@, template@, x, y)
                &&& #[trigger] matches_at(screen@, template@, x, y)
                &&& cx == x + template.width / 2
                &&& cy == y + template.height / 2
                &&& forall|x2: int, y2: int|
                    is_candidate(screen@, template@, x2, y2) && scans_before(x2, y2, x, y)
                        ==> !#[trigger] matches_at(screen@, template@, x2, y2)
            },
{
    let tw = template.width;
    let th = template.height;
    if tw > screen.width || th > screen.height {
        return Err(TemplateError::TooLarge);
    }
    let last_x = screen.width - tw;
    let last_y = screen.height - th;
    let mut y: u32 = 0;
    loop
        invariant
            screen.wf(),
            template.wf(),
            tw == template.width,
            th == template.height,
            tw > 0,
            th > 0,
            fits(screen@, template@),
            last_x == screen.width - tw,
            last_y == screen.height - th,
            y <= last_y,
            forall|x2: int, y2: int|
                is_candidate(screen@, template@, x2, y2) && y2 < y ==> !#[trigger] matches_at(
                    screen@,
                    template@,
                    x2,
                    y2,
                ),
        decreases last_y - y,
    {
        let mut x: u32 = 0;
        loop
            invariant
                screen.wf(),
                template.wf(),
                tw == template.width,
                th == template.height,
                tw > 0,
                th > 0,
                fits(screen@, template@),
                last_x == screen.width - tw,
                last_y == screen.height - th,
                y <= last_y,
                    x <= last_x,
                forall|x2: int, y2: int|
                    is_candidate(screen@, template@, x2, y2) && scans_before(x2, y2, x as int, y as int)
                        ==> !#[trigger] matches_at(screen@, template@, x2, y2),
            ensures
                forall|x2: int, y2: int|
                    is_candidate(screen@, template@, x2, y2) && y2 <= y ==> !#[trigger] matches_at(
                        screen@,
                        template@,
                        x2,
                        y2,
                    ),
            decreases last_x - x,
        {
            if probes_match_at(screen, template, x, y) && samples_match_at(screen, template, x, y) {
                assert(is_candidate(screen@, template@, x as int, y as int));
                assert(matches_at(screen@, template@, x as int, y as int));
                proof {
                    assert(is_first_match(screen@, template@, x as int, y as int));
                    let (x1, y1) = choose|x1: int, y1: int| is_first_match(screen@, template@, x1, y1);
                    lemma_first_match_unique(screen@, template@, x1, y1, x as int, y as int);
                }
                return Ok((x + tw / 2, y + th / 2));
            }
            if x == last_x {
                assert forall|x2: int, y2: int|
                    is_candidate(screen@, template@, x2, y2) && y2 <= y implies !#[trigger] matches_at(
                        screen@,
                        template@,
                        x2,
                        y2,
                    ) by {
                    if y2 == y && x2 >= x {
                        assert(x2 == x);
                    }
                }
                break;
            }
            x = x + 1;
        }
        if y == last_y {
            assert forall|x2: int, y2: int|
                is_candidate(screen@, template@, x2, y2) implies !#[trigger] matches_at(
                    screen@,
                    template@,
                    x2,
                    y2,
                ) by {
                assert(y2 <= y);
            }
            assert(!exists|x1: int, y1: int| is_first_match(screen@, template@, x1, y1));
            return Err(TemplateError::NotFound);
        }
        y = y + 1;
    }
}

} // verus!
