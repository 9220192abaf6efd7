//! The canvas: an immutable grid of RGB cells, stored row major.

use vstd::prelude::*;

verus! {

/// One pixel color: red, green and blue channels, eight bits each.
#[derive(Clone, Copy, Debug, PartialEq, Eq, Structural)]
pub struct RGB {
    pub r: u8,
    pub g: u8,
    pub b: u8,
}

/// The color every cell of a fresh canvas holds.
pub open spec fn white() -> RGB {
    RGB { r: 255, g: 255, b: 255 }
}

/// Mathematical model of a canvas: its dimensions and the row-major cell
/// sequence; the cell at `(x, y)` sits at index `y * width + x`.
#[verifier::ext_equal]
pub struct ImageV {
    pub width: nat,
    pub height: nat,
    pub cells: Seq<RGB>,
}

impl ImageV {
    /// A canvas model is well formed when both dimensions are positive, the
    /// cell sequence covers the whole grid, and the flat byte form fits in
    /// a machine-sized vector.
    pub open spec fn wf(self) -> bool {
        &&& self.width >= 1
        &&& self.height >= 1
        &&& self.cells.len() == self.width * self.height
        &&& self.width * self.height * 3 <= usize::MAX
    }

    /// The blank canvas of the given dimensions: every cell white.
    pub open spec fn blank(width: nat, height: nat) -> ImageV {
        ImageV { width, height, cells: Seq::new(width * height, |i: int| white()) }
    }

    /// Whether `(x, y)` lies on the grid.
    pub open spec fn in_bounds(self, x: int, y: int) -> bool {
        0 <= x < self.width && 0 <= y < self.height
    }

    /// The color of the cell at `(x, y)`.
    pub open spec fn cell(self, x: int, y: int) -> RGB {
        self.cells[y * self.width + x]
    }

    /// The canvas with the cell at `(x, y)` set to `c` and every other cell,
    /// and both dimensions, kept as they are.
    pub open spec fn painted(self, x: int, y: int, c: RGB) -> ImageV {
        ImageV { cells: self.cells.update(y * self.width + x, c), ..self }
    }
}

/// The flat R,G,B byte form of a cell sequence: three bytes per cell, in
/// cell order.
pub open spec fn bytes_of(cells: Seq<RGB>) -> Seq<u8>
    decreases cells.len(),
{
    if cells.len() == 0 {
        Seq::empty()
    } else {
        bytes_of(cells.drop_last()) + seq![cells.last().r, cells.last().g, cells.last().b]
    }
}

/// The row-major index of `(x, y)` lies inside a `width * height` grid.
pub proof fn lemma_grid_index(width: int, height: int, x: int, y: int)
    requires
        0 <= x < width,
        0 <= y < height,
    ensures
        0 <= y * width + x < width * height,
{
    assert(0 <= y * width + x < width * height) by (nonlinear_arith)
        requires
            0 <= x < width,
            0 <= y < height,
    ;
}

/// Why a canvas operation was refused.
#[derive(Clone, Copy, Debug, PartialEq, Eq, Structural)]
pub enum CanvasError {
    /// A dimension was zero at construction.
    InvalidDimensions,
    /// A paint coordinate lay outside the grid.
    OutOfBounds,
}

/// A grid of colored cells. A stored canvas is never mutated: `brush`
/// returns a fresh canvas, so snapshots held by a history stay valid.
#[derive(Debug)]
pub struct Image {
    width: usize,
    height: usize,
    cells: Vec<RGB>,
}

impl View for Image {
    type V = ImageV;

    closed spec fn view(&self) -> ImageV {
        ImageV { width: self.width as nat, height: self.height as nat, cells: self.cells@ }
    }
}

impl Image {
    /// Constructs an all-white canvas of the given dimensions, or refuses a
    /// zero dimension.
    pub fn new(width: usize, height: usize) -> (r: Result<Image, CanvasError>)
        requires
            width as int * height as int * 3 <= usize::MAX as int,
        ensures
            r is Err <==> (width == 0 || height == 0),
            r is Err ==> r == Err::<Image, CanvasError>(CanvasError::InvalidDimensions),
            r matches Ok(img) ==> img@ == ImageV::blank(width as nat, height as nat) && img@.wf(),
    {
        if width == 0 || height == 0 {
            return Err(CanvasError::InvalidDimensions);
        }
        proof {
            assert(width as int * height as int >= 0 && width as int * height as int <= width
                as int * height as int * 3) by (nonlinear_arith)
                requires
                    width >= 1,
                    height >= 1,
            ;
        }
        let total: usize = width * height;
        let mut cells: Vec<RGB> = Vec::new();
        let mut i: usize = 0;
        while i < total
            invariant
                i <= total,
                cells@.len() == i,
                forall|j: int| 0 <= j < i ==> cells@[j] == white(),
            decreases total - i,
        {
            cells.push(RGB { r: 255, g: 255, b: 255 });
            i = i + 1;
        }
        let img = Image { width, height, cells };
        proof {
            assert(img@.cells =~= ImageV::blank(width as nat, height as nat).cells);
            assert(img@ =~= ImageV::blank(width as nat, height as nat));
        }
        Ok(img)
    }

    /// The number of cells in one row.
    pub fn width(&self) -> (r: usize)
        ensures
            r == self@.width,
    {
        self.width
    }

    /// The number of rows.
    pub fn height(&self) -> (r: usize)
        ensures
            r == self@.height,
    {
        self.height
    }

    /// The flat R,G,B byte form of the grid, for a rendering surface.
    pub fn cells(&self) -> (r: Vec<u8>)
        ensures
            r@ == bytes_of(self@.cells),
    {
        let mut out: Vec<u8> = Vec::new();
        let mut i: usize = 0;
        while i < self.cells.len()
            invariant
                i <= self.cells@.len(),
                out@ == bytes_of(self.cells@.take(i as int)),
            decreases self.cells@.len() - i,
        {
            let c = self.cells[i];
            out.push(c.r);
            out.push(c.g);
            out.push(c.b);
            proof {
                let taken = self.cells@.take(i as int + 1);
                assert(taken.drop_last() =~= self.cells@.take(i as int));
                assert(out@ =~= bytes_of(taken));
            }
            i = i + 1;
        }
        proof {
            assert(self.cells@.take(self.cells@.len() as int) =~= self.cells@);
        }
        out
    }

    /// Paints one cell without touching the receiver: `Ok(None)` when the
    /// cell already holds `color`, `Ok(Some(..))` with the fresh canvas when
    /// it differs, and `Err(OutOfBounds)` off the grid.
    pub fn brush(&self, x: usize, y: usize, color: RGB) -> (r: Result<Option<Image>, CanvasError>)
        requires
            self@.wf(),
        ensures
            !self@.in_bounds(x as int, y as int) ==> r == Err::<Option<Image>, CanvasError>(
                CanvasError::OutOfBounds,
            ),
            self@.in_bounds(x as int, y as int) && self@.cell(x as int, y as int) == color ==> r
                == Ok::<Option<Image>, CanvasError>(None),
            self@.in_bounds(x as int, y as int) && self@.cell(x as int, y as int) != color ==> (
            r matches Ok(o) && o matches Some(img) && img@ == self@.painted(
                x as int,
                y as int,
                color,
            ) && img@.wf()),
    {
        if x >= self.width || y >= self.height {
            return Err(CanvasError::OutOfBounds);
        }
        proof {
            lemma_grid_index(self.width as int, self.height as int, x as int, y as int);
        }
        let index: usize = y * self.width + x;
        if self.cells[index] == color {
            Ok(None)
        } else {
            let mut cells: Vec<RGB> = Vec::new();
            let mut i: usize = 0;
            while i < self.cells.len()
                invariant
                    i <= self.cells@.len(),
                    index < self.cells@.len(),
                    cells@.len() == i,
                    forall|j: int| 0 <= j < i ==> cells@[j] == (if j == index {
                        color
                    } else {
                        self.cells@[j]
                    }),
                decreases self.cells@.len() - i,
            {
                if i == index {
                    cells.push(color);
                } else {
                    cells.push(self.cells[i]);
                }
                i = i + 1;
            }
            let img = Image { width: self.width, height: self.height, cells };
            proof {
                assert(img@.cells =~= self@.cells.update(y as int * self@.width + x as int, color));
                assert(img@ =~= self@.painted(x as int, y as int, color));
            }
            Ok(Some(img))
        }
    }
}

impl Clone for Image {
    /// An exact copy: the clone has the same dimensions and cells.
    fn clone(&self) -> (r: Self)
        ensures
            r@ == self@,
    {
        let mut cells: Vec<RGB> = Vec::new();
        let mut i: usize = 0;
        while i < self.cells.len()
            invariant
                i <= self.cells@.len(),
                cells@.len() == i,
                forall|j: int| 0 <= j < i ==> cells@[j] == self.cells@[j],
            decreases self.cells@.len() - i,
        {
            cells.push(self.cells[i]);
            i = i + 1;
        }
        let img = Image { width: self.width, height: self.height, cells };
        proof {
            assert(img@.cells =~= self@.cells);
            assert(img@ =~= self@);
        }
        img
    }
}

} // verus!
