//! The shape store: the committed sequence (z-order, later is on top) and
//! the redo buffer (a stack of shapes removed by undo or delete).
//!
//! Every shape-creating action clears the redo buffer, so a branching
//! history is discarded, never merged; undo moves the last committed shape
//! onto the redo buffer; redo moves it back; delete moves an arbitrary
//! committed shape onto the redo buffer without clearing it.

use vstd::prelude::*;

use crate::geom::event_coord;
use crate::shapes::{spec_resize, Shape, ShapeView};

verus! {

/// Model-level push: append to the committed sequence and discard the redo
/// buffer.
pub open spec fn spec_store_push(c: Seq<ShapeView>, r: Seq<ShapeView>, x: ShapeView) -> (
    Seq<ShapeView>,
    Seq<ShapeView>,
) {
    (c.push(x), Seq::empty())
}

/// Model-level undo: move the last committed shape onto the redo buffer, or
/// do nothing when nothing is committed.
pub open spec fn spec_store_pop_undo(c: Seq<ShapeView>, r: Seq<ShapeView>) -> (
    Seq<ShapeView>,
    Seq<ShapeView>,
) {
    if c.len() == 0 {
        (c, r)
    } else {
        (c.drop_last(), r.push(c.last()))
    }
}

/// Model-level redo: move the top of the redo buffer back to the end of the
/// committed sequence, or do nothing when the buffer is empty.
pub open spec fn spec_store_pop_redo(c: Seq<ShapeView>, r: Seq<ShapeView>) -> (
    Seq<ShapeView>,
    Seq<ShapeView>,
) {
    if r.len() == 0 {
        (c, r)
    } else {
        (c.push(r.last()), r.drop_last())
    }
}

/// Pushing a shape and undoing restores the committed sequence exactly and
/// leaves the pushed shape alone on top of the (cleared) redo buffer; a redo
/// straight after restores the pushed state.
pub proof fn lemma_push_pop_undo_redo(c: Seq<ShapeView>, r: Seq<ShapeView>, x: ShapeView)
    ensures
        ({
            let (c1, r1) = spec_store_push(c, r, x);
            let (c2, r2) = spec_store_pop_undo(c1, r1);
            let (c3, r3) = spec_store_pop_redo(c2, r2);
            &&& c2 == c
            &&& r2 == seq![x]
            &&& c3 == c1
            &&& r3 == r1
        }),
{
    let (c1, r1) = spec_store_push(c, r, x);
    let (c2, r2) = spec_store_pop_undo(c1, r1);
    let (c3, r3) = spec_store_pop_redo(c2, r2);
    assert(c2 =~= c);
    assert(r2 =~= seq![x]);
    assert(c3 =~= c1);
    assert(r3 =~= r1);
}

/// The ordered collection of committed shapes plus the redo buffer.
pub struct ShapeStore {
    pub committed: Vec<Shape>,
    pub redo: Vec<Shape>,
}

pub open spec fn shapes_view(v: Seq<Shape>) -> Seq<ShapeView> {
    v.map_values(|s: Shape| s@)
}

impl ShapeStore {
    /// The committed sequence, in z-order.
    pub open spec fn committed_view(self) -> Seq<ShapeView> {
        shapes_view(self.committed@)
    }

    /// The redo buffer, bottom to top.
    pub open spec fn redo_view(self) -> Seq<ShapeView> {
        shapes_view(self.redo@)
    }

    /// Every held shape is well-formed.
    pub open spec fn wf(self) -> bool {
        &&& forall|i: int| 0 <= i < self.committed_view().len() ==> (#[trigger] self.committed_view()[i]).wf()
        &&& forall|i: int| 0 <= i < self.redo_view().len() ==> (#[trigger] self.redo_view()[i]).wf()
    }

    pub fn new() -> (s: ShapeStore)
        ensures
            s.committed_view() == Seq::<ShapeView>::empty(),
            s.redo_view() == Seq::<ShapeView>::empty(),
            s.wf(),
    {
        let s = ShapeStore { committed: Vec::new(), redo: Vec::new() };
        proof {
            assert(s.committed_view() =~= Seq::<ShapeView>::empty());
            assert(s.redo_view() =~= Seq::<ShapeView>::empty());
        }
        s
    }

    pub fn len(&self) -> (n: usize)
        ensures
            n == self.committed_view().len(),
    {
        self.committed.len()
    }

    pub fn redo_len(&self) -> (n: usize)
        ensures
            n == self.redo_view().len(),
    {
        self.redo.len()
    }

    /// Borrow the committed shape at `index`.
    pub fn shape_at(&self, index: usize) -> (s: &Shape)
        requires
            index < self.committed_view().len(),
        ensures
            s@ == self.committed_view()[index as int],
    {
        &self.committed[index]
    }

    /// Commit a new shape; any redo history is discarded.
    pub fn push(&mut self, shape: Shape)
        requires
            old(self).wf(),
            shape@.wf(),
        ensures
            (final(self).committed_view(), final(self).redo_view()) == spec_store_push(
                old(self).committed_view(),
                old(self).redo_view(),
                shape@,
            ),
            final(self).redo_view().len() == 0,
            final(self).wf(),
    {
        self.committed.push(shape);
        self.redo.clear();
        proof {
            assert(self.committed_view() =~= old(self).committed_view().push(shape@));
            assert(self.redo_view() =~= Seq::<ShapeView>::empty());
        }
    }

    /// Discard the redo history; committed shapes stay as they are.
    pub fn clear_redo(&mut self)
        requires
            old(self).wf(),
        ensures
            final(self).committed_view() == old(self).committed_view(),
            final(self).redo_view() == Seq::<ShapeView>::empty(),
            final(self).wf(),
    {
        self.redo.clear();
        proof {
            assert(self.redo_view() =~= Seq::<ShapeView>::empty());
        }
    }

    /// Move the most recently committed shape onto the redo buffer; without
    /// committed shapes this is silently a no-op.
    pub fn pop_undo(&mut self) -> (moved: bool)
        requires
            old(self).wf(),
        ensures
            (final(self).committed_view(), final(self).redo_view()) == spec_store_pop_undo(
                old(self).committed_view(),
                old(self).redo_view(),
            ),
            moved == (old(self).committed_view().len() > 0),
            final(self).wf(),
    {
        match self.committed.pop() {
            Some(shape) => {
                self.redo.push(shape);
                proof {
                    assert(self.committed_view() =~= old(self).committed_view().drop_last());
                    assert(self.redo_view() =~= old(self).redo_view().push(
                        old(self).committed_view().last(),
                    ));
                }
                true
            },
            None => {
                proof {
                    assert(self.committed_view() =~= old(self).committed_view());
                    assert(self.redo_view() =~= old(self).redo_view());
                }
                false
            },
        }
    }

    /// Move the top of the redo buffer back to the end of the committed
    /// sequence; with an empty buffer this is silently a no-op.
    pub fn pop_redo(&mut self) -> (moved: bool)
        requires
            old(self).wf(),
        ensures
            (final(self).committed_view(), final(self).redo_view()) == spec_store_pop_redo(
                old(self).committed_view(),
                old(self).redo_view(),
            ),
            moved == (old(self).redo_view().len() > 0),
            final(self).wf(),
    {
        match self.redo.pop() {
            Some(shape) => {
                self.committed.push(shape);
                proof {
                    assert(self.redo_view() =~= old(self).redo_view().drop_last());
                    assert(self.committed_view() =~= old(self).committed_view().push(
                        old(self).redo_view().last(),
                    ));
                }
                true
            },
            None => {
                proof {
                    assert(self.committed_view() =~= old(self).committed_view());
                    assert(self.redo_view() =~= old(self).redo_view());
                }
                false
            },
        }
    }

    /// Delete the committed shape at `index`, pushing it onto the redo
    /// buffer without clearing the buffer.
    pub fn remove(&mut self, index: usize)
        requires
            old(self).wf(),
            index < old(self).committed_view().len(),
        ensures
            final(self).committed_view() == old(self).committed_view().remove(index as int),
            final(self).redo_view() == old(self).redo_view().push(
                old(self).committed_view()[index as int],
            ),
            final(self).wf(),
    {
        let shape = self.committed.remove(index);
        self.redo.push(shape);
        proof {
            assert(self.committed_view() =~= old(self).committed_view().remove(index as int));
            assert(self.redo_view() =~= old(self).redo_view().push(
                old(self).committed_view()[index as int],
            ));
        }
    }

    /// Move all committed shapes onto the redo buffer as one batch, keeping
    /// their relative order, and empty the committed sequence.
    pub fn clear(&mut self)
        requires
            old(self).wf(),
        ensures
            final(self).committed_view() == Seq::<ShapeView>::empty(),
            final(self).redo_view() == old(self).redo_view() + old(self).committed_view(),
            final(self).wf(),
    {
        self.redo.append(&mut self.committed);
        proof {
            assert(self.committed_view() =~= Seq::<ShapeView>::empty());
            assert(self.redo_view() =~= old(self).redo_view() + old(self).committed_view());
        }
    }

    /// Translate the committed shape at `index` in place.
    pub fn translate_shape(&mut self, index: usize, dx: i64, dy: i64)
        requires
            old(self).wf(),
            index < old(self).committed_view().len(),
        ensures
            final(self).committed_view() == old(self).committed_view().update(
                index as int,
                crate::shapes::spec_translate(old(self).committed_view()[index as int], dx as int, dy as int),
            ),
            final(self).redo_view() == old(self).redo_view(),
            final(self).wf(),
    {
        let mut shape = self.committed.remove(index);
        shape.translate(dx, dy);
        self.committed.insert(index, shape);
        proof {
            assert(self.committed_view() =~= old(self).committed_view().update(
                index as int,
                crate::shapes::spec_translate(old(self).committed_view()[index as int], dx as int, dy as int),
            ));
            assert(self.redo_view() =~= old(self).redo_view());
        }
    }

    /// Resize the committed shape at `index` in place by dragging a corner.
    pub fn resize_shape(&mut self, index: usize, corner: u8, new_x: i64, new_y: i64)
        requires
            old(self).wf(),
            index < old(self).committed_view().len(),
            event_coord(new_x as int),
            event_coord(new_y as int),
        ensures
            final(self).committed_view() == old(self).committed_view().update(
                index as int,
                spec_resize(old(self).committed_view()[index as int], corner, new_x as int, new_y as int),
            ),
            final(self).redo_view() == old(self).redo_view(),
            final(self).wf(),
    {
        let mut shape = self.committed.remove(index);
        shape.resize_corner(corner, new_x, new_y);
        self.committed.insert(index, shape);
        proof {
            assert(self.committed_view() =~= old(self).committed_view().update(
                index as int,
                spec_resize(old(self).committed_view()[index as int], corner, new_x as int, new_y as int),
            ));
            assert(self.redo_view() =~= old(self).redo_view());
        }
    }

    /// Set the rotation of the committed shape at `index`.
    pub fn rotate_shape(&mut self, index: usize, angle: i64)
        requires
            old(self).wf(),
            index < old(self).committed_view().len(),
        ensures
            final(self).committed_view() == old(self).committed_view().update(
                index as int,
                ShapeView { rotation: angle as int, ..old(self).committed_view()[index as int] },
            ),
            final(self).redo_view() == old(self).redo_view(),
            final(self).wf(),
    {
        let mut shape = self.committed.remove(index);
        shape.set_rotation(angle);
        self.committed.insert(index, shape);
        proof {
            assert(self.committed_view() =~= old(self).committed_view().update(
                index as int,
                ShapeView { rotation: angle as int, ..old(self).committed_view()[index as int] },
            ));
            assert(self.redo_view() =~= old(self).redo_view());
        }
    }
}

} // verus!
