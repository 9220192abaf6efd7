//! The editing session: an undo/redo log of canvas snapshots, with the
//! laws the log obeys proved over its mathematical model.

use vstd::prelude::*;

use crate::image::CanvasError;
use crate::image::Image;
use crate::image::ImageV;
use crate::image::RGB;
use crate::image::lemma_grid_index;
use crate::undo::UndoQueue;

verus! {

/// Mathematical model of a session: the snapshot models, oldest first, and
/// the cursor marking the current one.
#[verifier::ext_equal]
pub struct HistoryV {
    pub entries: Seq<ImageV>,
    pub cursor: int,
}

impl HistoryV {
    /// A history model is well formed when it holds at least one entry, the
    /// cursor sits on one of them, and every snapshot is a well-formed
    /// canvas.
    pub open spec fn wf(self) -> bool {
        &&& self.entries.len() >= 1
        &&& 0 <= self.cursor < self.entries.len()
        &&& forall|i: int| 0 <= i < self.entries.len() ==> (#[trigger] self.entries[i]).wf()
    }

    /// The snapshot under the cursor: the state the session shows.
    pub open spec fn current(self) -> ImageV {
        self.entries[self.cursor]
    }

    /// Commits `img`: drops the redo branch, appends `img`, and moves the
    /// cursor onto it.
    pub open spec fn committed(self, img: ImageV) -> HistoryV {
        HistoryV { entries: self.entries.take(self.cursor + 1).push(img), cursor: self.cursor + 1 }
    }

    /// The session after `paint(x, y, c)`: unchanged when the coordinate is
    /// off the grid or the cell already holds `c`, else the repainted
    /// snapshot committed.
    pub open spec fn painted(self, x: int, y: int, c: RGB) -> HistoryV {
        if self.current().in_bounds(x, y) {
            if self.current().cell(x, y) == c {
                self
            } else {
                self.committed(self.current().painted(x, y, c))
            }
        } else {
            self
        }
    }

    /// The session after `undo`: the cursor one entry back, clamped at the
    /// seed entry.
    pub open spec fn undone(self) -> HistoryV {
        if self.cursor > 0 {
            HistoryV { cursor: self.cursor - 1, ..self }
        } else {
            self
        }
    }

    /// The session after `redo`: the cursor one entry forward, clamped at
    /// the newest entry.
    pub open spec fn redone(self) -> HistoryV {
        if self.cursor < self.entries.len() - 1 {
            HistoryV { cursor: self.cursor + 1, ..self }
        } else {
            self
        }
    }

    /// The session after `clear`: a blank canvas of the current dimensions
    /// committed as a new, undoable entry.
    pub open spec fn cleared(self) -> HistoryV {
        self.committed(ImageV::blank(self.current().width, self.current().height))
    }
}

/// The views of a sequence of canvases, in order.
pub open spec fn views_of(s: Seq<Image>) -> Seq<ImageV> {
    Seq::new(s.len(), |i: int| s[i]@)
}

/// Taking views commutes with truncating and appending.
proof fn lemma_views_of_take_push(s: Seq<Image>, k: int, img: Image)
    requires
        0 <= k <= s.len(),
    ensures
        views_of(s.take(k).push(img)) == views_of(s).take(k).push(img@),
{
    assert(views_of(s.take(k).push(img)) =~= views_of(s).take(k).push(img@));
}

/// An editing session: a log of immutable canvas snapshots with a cursor.
/// Painting commits a new snapshot only when a cell really changes; undo
/// and redo move the cursor and clamp silently at either end.
pub struct InternalState {
    undo_queue: UndoQueue<Image>,
}

impl View for InternalState {
    type V = HistoryV;

    closed spec fn view(&self) -> HistoryV {
        HistoryV { entries: views_of(self.undo_queue.entries()), cursor: self.undo_queue.cursor() }
    }
}

impl InternalState {
    /// A session is well formed when its history model is.
    pub open spec fn wf(self) -> bool {
        self@.wf()
    }

    /// Opens a session on an all-white canvas of the given dimensions, or
    /// refuses a zero dimension.
    pub fn new(width: usize, height: usize) -> (r: Result<InternalState, CanvasError>)
        requires
            width as int * height as int * 3 <= usize::MAX as int,
        ensures
            r is Err <==> (width == 0 || height == 0),
            r is Err ==> r == Err::<InternalState, CanvasError>(CanvasError::InvalidDimensions),
            r matches Ok(st) ==> st.wf() && st@ == (HistoryV {
                entries: seq![ImageV::blank(width as nat, height as nat)],
                cursor: 0,
            }),
    {
        match Image::new(width, height) {
            Err(e) => Err(e),
            Ok(img) => {
                let st = InternalState { undo_queue: UndoQueue::new(img) };
                proof {
                    assert(st@.entries =~= seq![ImageV::blank(width as nat, height as nat)]);
                    assert(st@ =~= HistoryV {
                        entries: seq![ImageV::blank(width as nat, height as nat)],
                        cursor: 0,
                    });
                }
                Ok(st)
            },
        }
    }

    /// A copy of the current snapshot.
    pub fn image(&self) -> (r: Image)
        requires
            self.wf(),
        ensures
            r@ == self@.current(),
    {
        self.undo_queue.current().clone()
    }

    /// Paints one cell of the current snapshot. A real change commits a new
    /// snapshot; repainting a cell with its own color leaves the whole
    /// session untouched; an off-grid coordinate is refused with
    /// `OutOfBounds` and also leaves it untouched.
    pub fn brush(&mut self, x: usize, y: usize, color: RGB) -> (r: Result<(), CanvasError>)
        requires
            old(self).wf(),
        ensures
            final(self).wf(),
            final(self)@ == old(self)@.painted(x as int, y as int, color),
            r is Ok <==> old(self)@.current().in_bounds(x as int, y as int),
            r is Err ==> r == Err::<(), CanvasError>(CanvasError::OutOfBounds),
    {
        let current = self.undo_queue.current();
        proof {
            assert(current@ == self@.current());
        }
        let outcome = current.brush(x, y, color);
        match outcome {
            Err(e) => Err(e),
            Ok(None) => Ok(()),
            Ok(Some(img)) => {
                proof {
                    lemma_views_of_take_push(
                        self.undo_queue.entries(),
                        self.undo_queue.cursor() + 1,
                        img,
                    );
                    lemma_paint_preserves_wf(self@, x as int, y as int, color);
                }
                self.undo_queue.push(img);
                proof {
                    assert(self@ =~= old(self)@.painted(x as int, y as int, color));
                }
                Ok(())
            },
        }
    }

    /// Steps back to the previous snapshot; on the seed entry it is a
    /// no-op.
    pub fn undo(&mut self)
        requires
            old(self).wf(),
        ensures
            final(self).wf(),
            final(self)@ == old(self)@.undone(),
    {
        self.undo_queue.undo();
        proof {
            assert(self@ =~= old(self)@.undone());
        }
    }

    /// Steps forward to the next snapshot; on the newest entry it is a
    /// no-op.
    pub fn redo(&mut self)
        requires
            old(self).wf(),
        ensures
            final(self).wf(),
            final(self)@ == old(self)@.redone(),
    {
        self.undo_queue.redo();
        proof {
            assert(self@ =~= old(self)@.redone());
        }
    }

    /// Commits a blank canvas of the current dimensions as a new, undoable
    /// entry; it does not wipe the log.
    pub fn clear(&mut self)
        requires
            old(self).wf(),
        ensures
            final(self).wf(),
            final(self)@ == old(self)@.cleared(),
    {
        let current = self.undo_queue.current();
        proof {
            assert(current@ == self@.current());
        }
        let width: usize = current.width();
        let height: usize = current.height();
        let blank = match Image::new(width, height) {
            Ok(img) => img,
            Err(_) => {
                proof {
                    assert(false);
                }
                return ;
            },
        };
        proof {
            lemma_views_of_take_push(self.undo_queue.entries(), self.undo_queue.cursor() + 1, blank);
        }
        self.undo_queue.clear(blank);
        proof {
            assert(self@ =~= old(self)@.cleared());
        }
    }
}

/// Law: painting preserves well-formedness; in particular every reachable
/// snapshot keeps `cells.len() == width * height`, and a paint never
/// changes a snapshot's dimensions.
pub proof fn lemma_paint_preserves_wf(h: HistoryV, x: int, y: int, c: RGB)
    requires
        h.wf(),
    ensures
        h.painted(x, y, c).wf(),
        h.painted(x, y, c).current().width == h.current().width,
        h.painted(x, y, c).current().height == h.current().height,
{
    if h.current().in_bounds(x, y) && h.current().cell(x, y) != c {
        lemma_grid_index(h.current().width as int, h.current().height as int, x, y);
        let after = h.painted(x, y, c);
        assert(forall|i: int|
            0 <= i < after.entries.len() - 1 ==> after.entries[i] == h.entries[i]);
        assert(after.entries.last() == h.current().painted(x, y, c));
        assert(after.entries.last().wf());
    }
}

/// Law: repainting the same cell with the same color right after a paint
/// changes nothing more; the second paint commits no entry and leaves the
/// cursor where it is.
pub proof fn lemma_repaint_idempotent(h: HistoryV, x: int, y: int, c: RGB)
    requires
        h.wf(),
    ensures
        h.painted(x, y, c).painted(x, y, c) == h.painted(x, y, c),
{
    if h.current().in_bounds(x, y) && h.current().cell(x, y) != c {
        lemma_grid_index(h.current().width as int, h.current().height as int, x, y);
        let after = h.painted(x, y, c);
        assert(after.current() == h.current().painted(x, y, c));
        assert(after.current().cell(x, y) == c);
    }
}

/// Law: on a history whose cursor sits on the newest entry -- as it does
/// after any sequence of paints from a fresh session -- one `undo`
/// followed by one `redo` restores the history exactly.
pub proof fn lemma_undo_redo_inverse(h: HistoryV)
    requires
        h.wf(),
        h.cursor == h.entries.len() - 1,
    ensures
        h.undone().redone() == h,
{
    assert(h.undone().redone() =~= h);
}

/// Law: painting keeps the cursor on the newest entry, so the premise of
/// the undo/redo inverse law holds along any sequence of paints.
pub proof fn lemma_paint_keeps_cursor_last(h: HistoryV, x: int, y: int, c: RGB)
    requires
        h.wf(),
        h.cursor == h.entries.len() - 1,
    ensures
        h.painted(x, y, c).cursor == h.painted(x, y, c).entries.len() - 1,
{
}

/// Law: a real paint destroys the redo branch: after it, `redo` is a
/// no-op, so a future undone before the paint is unreachable.
pub proof fn lemma_paint_destroys_redo(h: HistoryV, x: int, y: int, c: RGB)
    requires
        h.wf(),
        h.current().in_bounds(x, y),
        h.current().cell(x, y) != c,
    ensures
        h.painted(x, y, c).redone() == h.painted(x, y, c),
{
}

/// Law: at the boundaries the cursor clamps: `undo` on the seed entry and
/// `redo` on the newest entry are no-ops.
pub proof fn lemma_boundary_clamp(h: HistoryV)
    requires
        h.wf(),
    ensures
        h.cursor == 0 ==> h.undone() == h,
        h.cursor == h.entries.len() - 1 ==> h.redone() == h,
{
}

} // verus!
