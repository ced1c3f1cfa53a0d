use crate::figures::Figure;
use crate::vertex::Vertex;
use vstd::prelude::*;

verus! {

/// `ix` with `base` added to every entry.
pub open spec fn rebase(ix: Seq<u16>, base: int) -> Seq<u16> {
    Seq::new(ix.len(), |k: int| (ix[k] + base) as u16)
}

/// Every entry of `ix` plus `base` is still a 16-bit index.
pub open spec fn rebase_fits(ix: Seq<u16>, base: int) -> bool {
    forall|k: int| 0 <= k < ix.len() ==> ix[k] + base <= u16::MAX
}

/// Adds `base` to every index of `ix`, or gives `None` where one of them
/// would no longer fit in 16 bits.
pub fn rebase_indices(ix: &[u16], base: usize) -> (r: Option<Vec<u16>>)
    ensures
        r is Some <==> rebase_fits(ix@, base as int),
        r matches Some(v) ==> v@ == rebase(ix@, base as int),
{
    let mut out: Vec<u16> = Vec::with_capacity(ix.len());
    let mut k: usize = 0;
    while k < ix.len()
        invariant
            k <= ix@.len(),
            out@ == rebase(ix@, base as int).take(k as int),
            forall|j: int| 0 <= j < k ==> ix@[j] + base <= u16::MAX,
        decreases ix@.len() - k,
    {
        if base > u16::MAX as usize || ix[k] as usize > u16::MAX as usize - base {
            assert(!(ix@[k as int] + base <= u16::MAX));
            return None;
        }
        out.push(ix[k] + base as u16);
        proof {
            assert(out@ =~= rebase(ix@, base as int).take(k + 1));
        }
        k += 1;
    }
    proof {
        assert(out@ =~= rebase(ix@, base as int));
    }
    Some(out)
}

/// Every entry of `ix` is a position in a vertex list of length `n`.
pub open spec fn indices_below(ix: Seq<u16>, n: int) -> bool {
    forall|k: int| 0 <= k < ix.len() ==> (ix[k] as int) < n
}

/// Shapes merged into one vertex list and one index list, ready to draw.
///
/// Vertices keep the order in which shapes were added, which is the order
/// in which they are painted. Every index refers to a vertex of the scene.
#[derive(Debug)]
pub struct Scene {
    vertices: Vec<Vertex>,
    indices: Vec<u16>,
}

impl Scene {
    pub closed spec fn vertices_view(self) -> Seq<Vertex> {
        self.vertices@
    }

    pub closed spec fn indices_view(self) -> Seq<u16> {
        self.indices@
    }

    /// Every index refers to a vertex of the scene.
    pub open spec fn wf(self) -> bool {
        indices_below(self.indices_view(), self.vertices_view().len() as int)
    }

    /// `after` is what `self.add(figure)` leaves: the figure's vertices
    /// appended, and its indices appended rebased by the vertex count
    /// before the call.
    pub open spec fn added<F: Figure>(self, figure: F, after: Scene) -> bool {
        &&& after.vertices_view() == self.vertices_view() + figure.spec_data()
        &&& after.indices_view() == self.indices_view() + rebase(
            figure.spec_indices(),
            self.vertices_view().len() as int,
        )
    }

    pub fn new() -> (r: Scene)
        ensures
            r.vertices_view() == Seq::<Vertex>::empty(),
            r.indices_view() == Seq::<u16>::empty(),
            r.wf(),
    {
        Scene { vertices: Vec::new(), indices: Vec::new() }
    }

    /// Appends `figure` on top of what the scene holds.
    ///
    /// Indices are 16 bits wide, so the scene holds at most 65536 vertices.
    pub fn add<F: Figure>(&mut self, figure: F)
        requires
            old(self).wf(),
            old(self).vertices_view().len() + figure.spec_data().len() <= 0x10000,
        ensures
            old(self).added(figure, *final(self)),
            final(self).wf(),
    {
        let base = self.vertices.len();
        let mut data = figure.data();
        let local = figure.indices();
        proof {
            assert(rebase_fits(local@, base as int));
        }
        match rebase_indices(local.as_slice(), base) {
            Some(mut rebased) => {
                let ghost new_len: int = (self.vertices@.len() + data@.len()) as int;
                proof {
                    assert(indices_below(self.indices@, new_len));
                    assert(indices_below(rebased@, new_len));
                }
                self.vertices.append(&mut data);
                self.indices.append(&mut rebased);
            },
            // Cannot happen: each local index is below the figure's vertex
            // count, so rebased it stays below the 16-bit limit.
            None => {},
        }
    }

    /// The vertices, in paint order.
    pub fn data(&self) -> (r: &[Vertex])
        ensures
            r@ == self.vertices_view(),
    {
        self.vertices.as_slice()
    }

    /// The indices: each one is a position in `data()`.
    pub fn indices(&self) -> (r: &[u16])
        requires
            self.wf(),
        ensures
            r@ == self.indices_view(),
            indices_below(r@, self.vertices_view().len() as int),
    {
        self.indices.as_slice()
    }
}

/// The total vertex count of `figures`.
pub open spec fn total_vertices<F: Figure>(figures: Seq<F>) -> int
    decreases figures.len(),
{
    if figures.len() == 0 {
        0
    } else {
        total_vertices(figures.drop_last()) + figures.last().spec_data().len()
    }
}

/// The total index count of `figures`.
pub open spec fn total_indices<F: Figure>(figures: Seq<F>) -> int
    decreases figures.len(),
{
    if figures.len() == 0 {
        0
    } else {
        total_indices(figures.drop_last()) + figures.last().spec_indices().len()
    }
}

/// Adding figures one after another to an empty scene leaves it with as
/// many vertices as the figures have together, and as many indices.
///
/// `steps[i + 1]` is the scene after `steps[i].add(figures[i])`.
pub proof fn lemma_scene_totals<F: Figure>(steps: Seq<Scene>, figures: Seq<F>)
    requires
        steps.len() == figures.len() + 1,
        steps[0].vertices_view().len() == 0,
        steps[0].indices_view().len() == 0,
        forall|i: int| 0 <= i < figures.len() ==> #[trigger] steps[i].added(figures[i], steps[i + 1]),
    ensures
        steps.last().vertices_view().len() == total_vertices(figures),
        steps.last().indices_view().len() == total_indices(figures),
    decreases figures.len(),
{
    if figures.len() > 0 {
        let n = figures.len() - 1;
        let before = steps.drop_last();
        assert forall|i: int| 0 <= i < figures.drop_last().len() implies #[trigger] before[i].added(
            figures.drop_last()[i],
            before[i + 1],
        ) by {
            assert(steps[i].added(figures[i], steps[i + 1]));
        }
        lemma_scene_totals(before, figures.drop_last());
        assert(steps[n].added(figures[n], steps[n + 1]));
    }
}

} // verus!
