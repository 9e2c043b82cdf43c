//! Decoded pictures as rows of RGBA pixels, and the mirror and rotation
//! transforms that EXIF orientation calls for.
use vstd::prelude::*;

verus! {

/// A picture as the proofs see it: its width and its rows, top to bottom, each a
/// row of RGBA pixels from left to right.
pub struct PixelGrid {
    pub width: nat,
    pub rows: Seq<Seq<[u8; 4]>>,
}

/// Every row of `g` is `g.width` pixels long.
pub open spec fn grid_wf(g: PixelGrid) -> bool {
    forall|y: int| 0 <= y < g.rows.len() ==> (#[trigger] g.rows[y]).len() == g.width
}

/// A pixel-moving transform: mirrors and clockwise rotations.
#[derive(Clone, Copy, Debug, PartialEq, Eq)]
pub enum Turn {
    FlipHorizontal,
    FlipVertical,
    Rotate90,
    Rotate180,
    Rotate270,
}

/// Whether `t` exchanges width and height.
pub open spec fn turn_swaps(t: Turn) -> bool {
    t is Rotate90 || t is Rotate270
}

/// For a `w` by `h` source, the source position `(x, y)` of the pixel that `t`
/// puts at `(x, y)` of its result.
pub open spec fn turn_source(t: Turn, w: int, h: int, x: int, y: int) -> (int, int) {
    match t {
        Turn::FlipHorizontal => (w - 1 - x, y),
        Turn::FlipVertical => (x, h - 1 - y),
        Turn::Rotate90 => (y, h - 1 - x),
        Turn::Rotate180 => (w - 1 - x, h - 1 - y),
        Turn::Rotate270 => (w - 1 - y, x),
    }
}

/// The picture `t` makes of `g`.
pub open spec fn turned(g: PixelGrid, t: Turn) -> PixelGrid {
    let w = g.width as int;
    let h = g.rows.len() as int;
    let ow = if turn_swaps(t) {
        h
    } else {
        w
    };
    let oh = if turn_swaps(t) {
        w
    } else {
        h
    };
    PixelGrid {
        width: ow as nat,
        rows: Seq::new(
            oh as nat,
            |y: int|
                Seq::new(
                    ow as nat,
                    |x: int|
                        g.rows[turn_source(t, w, h, x, y).1][turn_source(t, w, h, x, y).0],
                ),
        ),
    }
}

/// The EXIF orientations, in the order of their tag values 1 to 8: what must be
/// done to the stored picture to show it upright.
#[derive(Clone, Copy, Debug, PartialEq, Eq)]
pub enum Orientation {
    Normal,
    MirrorHorizontal,
    Rotate180,
    MirrorVertical,
    MirrorHorizontalRotate270,
    Rotate90,
    MirrorHorizontalRotate90,
    Rotate270,
}

/// The picture shown upright for orientation `o`.
pub open spec fn oriented(g: PixelGrid, o: Orientation) -> PixelGrid {
    match o {
        Orientation::Normal => g,
        Orientation::MirrorHorizontal => turned(g, Turn::FlipHorizontal),
        Orientation::Rotate180 => turned(g, Turn::Rotate180),
        Orientation::MirrorVertical => turned(g, Turn::FlipVertical),
        Orientation::MirrorHorizontalRotate270 => turned(
            turned(g, Turn::FlipHorizontal),
            Turn::Rotate270,
        ),
        Orientation::Rotate90 => turned(g, Turn::Rotate90),
        Orientation::MirrorHorizontalRotate90 => turned(
            turned(g, Turn::FlipHorizontal),
            Turn::Rotate90,
        ),
        Orientation::Rotate270 => turned(g, Turn::Rotate270),
    }
}

/// Whether orientation `o` exchanges width and height.
pub open spec fn orientation_swaps(o: Orientation) -> bool {
    o is MirrorHorizontalRotate270 || o is Rotate90 || o is MirrorHorizontalRotate90
        || o is Rotate270
}

/// A decoded picture: `height` rows of `width` RGBA pixels each.
pub struct PixelBuffer {
    width: usize,
    height: usize,
    rows: Vec<Vec<[u8; 4]>>,
}

impl PixelBuffer {
    /// The picture held.
    pub closed spec fn grid(&self) -> PixelGrid {
        PixelGrid { width: self.width as nat, rows: self.rows@.map_values(|r: Vec<[u8; 4]>| r@) }
    }

    /// Rows and width agree with the stored dimensions.
    pub closed spec fn wf(&self) -> bool {
        &&& self.rows@.len() == self.height
        &&& forall|y: int| 0 <= y < self.rows@.len() ==> (#[trigger] self.rows@[y])@.len() == self.width
    }

    /// The picture made of `rows`, each `width` pixels long; `None` when a row
    /// has another length.
    pub fn from_rows(width: usize, rows: Vec<Vec<[u8; 4]>>) -> (r: Option<PixelBuffer>)
        ensures
            (forall|y: int| 0 <= y < rows@.len() ==> (#[trigger] rows@[y])@.len() == width)
                <==> r is Some,
            r matches Some(p) ==> p.wf() && p.grid() == (PixelGrid {
                width: width as nat,
                rows: rows@.map_values(|r: Vec<[u8; 4]>| r@),
            }),
    {
        let mut y: usize = 0;
        while y < rows.len()
            invariant
                y <= rows@.len(),
                forall|i: int| 0 <= i < y ==> (#[trigger] rows@[i])@.len() == width,
            decreases rows@.len() - y,
        {
            if rows[y].len() != width {
                return None;
            }
            y = y + 1;
        }
        let height = rows.len();
        Some(PixelBuffer { width, height, rows })
    }

    /// The width in pixels.
    pub fn width(&self) -> (r: usize)
        ensures
            r == self.grid().width,
    {
        self.width
    }

    /// The height in pixels.
    pub fn height(&self) -> (r: usize)
        requires
            self.wf(),
        ensures
            r == self.grid().rows.len(),
    {
        self.height
    }

    /// The rows of pixels, top to bottom.
    pub fn rows(&self) -> (r: &Vec<Vec<[u8; 4]>>)
        ensures
            r@.map_values(|r: Vec<[u8; 4]>| r@) == self.grid().rows,
    {
        &self.rows
    }

    /// The pixel at column `x` of row `y`.
    pub fn pixel(&self, x: usize, y: usize) -> (r: [u8; 4])
        requires
            self.wf(),
            x < self.grid().width,
            y < self.grid().rows.len(),
        ensures
            r == self.grid().rows[y as int][x as int],
    {
        self.rows[y][x]
    }

    /// The picture that `t` makes of this one.
    pub fn turn(&self, t: Turn) -> (r: PixelBuffer)
        requires
            self.wf(),
        ensures
            r.wf(),
            r.grid() == turned(self.grid(), t),
    {
        let w = self.width;
        let h = self.height;
        let swaps = match t {
            Turn::Rotate90 | Turn::Rotate270 => true,
            _ => false,
        };
        let ow = if swaps {
            h
        } else {
            w
        };
        let oh = if swaps {
            w
        } else {
            h
        };
        let ghost g = self.grid();
        let ghost want = turned(g, t);
        let mut rows: Vec<Vec<[u8; 4]>> = Vec::new();
        let mut y: usize = 0;
        while y < oh
            invariant
                self.wf(),
                g == self.grid(),
                want == turned(g, t),
                w == self.width,
                h == self.height,
                ow == want.width,
                oh == want.rows.len(),
                y <= oh,
                rows@.len() == y,
                forall|i: int| 0 <= i < y ==> (#[trigger] rows@[i])@ == want.rows[i],
            decreases oh - y,
        {
            let mut row: Vec<[u8; 4]> = Vec::new();
            let mut x: usize = 0;
            while x < ow
                invariant
                    self.wf(),
                    g == self.grid(),
                    want == turned(g, t),
                    w == self.width,
                    h == self.height,
                    ow == want.width,
                    oh == want.rows.len(),
                    y < oh,
                    x <= ow,
                    row@.len() == x,
                    forall|j: int| 0 <= j < x ==> row@[j] == want.rows[y as int][j],
                decreases ow - x,
            {
                let (sx, sy) = match t {
                    Turn::FlipHorizontal => (w - 1 - x, y),
                    Turn::FlipVertical => (x, h - 1 - y),
                    Turn::Rotate90 => (y, h - 1 - x),
                    Turn::Rotate180 => (w - 1 - x, h - 1 - y),
                    Turn::Rotate270 => (w - 1 - y, x),
                };
                assert(self.rows@[sy as int]@ == g.rows[sy as int]);
                row.push(self.rows[sy][sx]);
                x = x + 1;
            }
            assert(row@ =~= want.rows[y as int]);
            rows.push(row);
            y = y + 1;
        }
        let r = PixelBuffer { width: ow, height: oh, rows };
        assert(r.grid().rows =~= want.rows);
        r
    }
}

/// The picture `img` shown upright for orientation `o`.
pub fn apply_orientation(img: PixelBuffer, o: Orientation) -> (r: PixelBuffer)
    requires
        img.wf(),
    ensures
        r.wf(),
        r.grid() == oriented(img.grid(), o),
        orientation_swaps(o) ==> r.grid().width == img.grid().rows.len() && r.grid().rows.len()
            == img.grid().width,
        !orientation_swaps(o) ==> r.grid().width == img.grid().width && r.grid().rows.len()
            == img.grid().rows.len(),
{
    match o {
        Orientation::Normal => img,
        Orientation::MirrorHorizontal => img.turn(Turn::FlipHorizontal),
        Orientation::Rotate180 => img.turn(Turn::Rotate180),
        Orientation::MirrorVertical => img.turn(Turn::FlipVertical),
        Orientation::MirrorHorizontalRotate270 => img.turn(Turn::FlipHorizontal).turn(
            Turn::Rotate270,
        ),
        Orientation::Rotate90 => img.turn(Turn::Rotate90),
        Orientation::MirrorHorizontalRotate90 => img.turn(Turn::FlipHorizontal).turn(
            Turn::Rotate90,
        ),
        Orientation::Rotate270 => img.turn(Turn::Rotate270),
    }
}

/// The picture of a well-formed buffer has rows all as wide as it, so the laws
/// below apply to it.
pub proof fn lemma_buffer_grid_wf(p: &PixelBuffer)
    requires
        p.wf(),
    ensures
        grid_wf(p.grid()),
{
}

/// Turning a picture by 180 degrees twice gives it back.
pub proof fn lemma_rotate180_twice(g: PixelGrid)
    requires
        grid_wf(g),
    ensures
        turned(turned(g, Turn::Rotate180), Turn::Rotate180) == g,
{
    let r = turned(turned(g, Turn::Rotate180), Turn::Rotate180);
    assert(r.rows =~~= g.rows);
}

/// Mirroring a picture horizontally twice gives it back.
pub proof fn lemma_flip_horizontal_twice(g: PixelGrid)
    requires
        grid_wf(g),
    ensures
        turned(turned(g, Turn::FlipHorizontal), Turn::FlipHorizontal) == g,
{
    let r = turned(turned(g, Turn::FlipHorizontal), Turn::FlipHorizontal);
    assert(r.rows =~~= g.rows);
}

/// A clockwise turn by 90 degrees followed by one by 270 degrees (the
/// orientations `Rotate90` then `Rotate270`) gives the picture back.
pub proof fn lemma_rotate90_then_270(g: PixelGrid)
    requires
        grid_wf(g),
    ensures
        oriented(oriented(g, Orientation::Rotate90), Orientation::Rotate270) == g,
{
    let r = turned(turned(g, Turn::Rotate90), Turn::Rotate270);
    assert(r.rows =~~= g.rows);
}

} // verus!
