use crate::ratio::Ratio;
use crate::vertex::{Rgb, Vertex};
use vstd::prelude::*;

verus! {

/// Something that can be drawn as indexed triangles.
pub trait Figure {
    /// The vertices, in the order `data` returns them.
    spec fn spec_data(&self) -> Seq<Vertex>;

    /// The local index list, in the order `indices` returns it.
    spec fn spec_indices(&self) -> Seq<u16>;

    fn data(&self) -> (r: Vec<Vertex>)
        ensures
            r@ == self.spec_data(),
    ;

    /// The triangles, as positions in this figure's own vertex list.
    fn indices(&self) -> (r: Vec<u16>)
        ensures
            r@ == self.spec_indices(),
            forall|k: int| 0 <= k < r@.len() ==> (r@[k] as int) < self.spec_data().len(),
    ;
}

/// The numerator of `c + dir * e / 2` over the denominator `edge_den(c, e)`.
pub open spec fn edge_num(c: Ratio, e: Ratio, dir: int) -> int {
    2 * c.num * e.den + dir * e.num * c.den
}

pub open spec fn edge_den(c: Ratio, e: Ratio) -> int {
    2 * c.den * e.den
}

/// `c + dir * e / 2`, exactly: the edge at `dir = -1` or `dir = 1` of a span
/// of length `e` centred on `c`.
pub open spec fn edge(c: Ratio, e: Ratio, dir: int) -> Ratio {
    Ratio::of(edge_num(c, e, dir), edge_den(c, e))
}

/// Both edges of a span of length `e` centred on `c` can be held by a
/// `Ratio`.
pub open spec fn edges_fit(c: Ratio, e: Ratio) -> bool {
    &&& c.wf()
    &&& e.wf()
    &&& edge_den(c, e) <= u64::MAX
    &&& i64::MIN <= edge_num(c, e, -1) <= i64::MAX
    &&& i64::MIN <= edge_num(c, e, 1) <= i64::MAX
}

/// The corners of the rectangle centred on `(x, y)`: bottom-left,
/// bottom-right, top-left, top-right.
pub open spec fn corners(x: Ratio, y: Ratio, height: Ratio, width: Ratio) -> Seq<Vertex> {
    seq![
        Vertex::at(edge(x, width, -1), edge(y, height, -1)),
        Vertex::at(edge(x, width, 1), edge(y, height, -1)),
        Vertex::at(edge(x, width, -1), edge(y, height, 1)),
        Vertex::at(edge(x, width, 1), edge(y, height, 1)),
    ]
}

/// The two triangles of a quad, `p0 p1 p3` and `p0 p3 p2`, split along the
/// `p0`–`p3` diagonal.
pub open spec fn quad_indices() -> Seq<u16> {
    seq![0u16, 1u16, 3u16, 0u16, 3u16, 2u16]
}

/// `vs` with every vertex given the colour `color`.
pub open spec fn tint_all(vs: Seq<Vertex>, color: Rgb) -> Seq<Vertex> {
    vs.map_values(|v: Vertex| v.tinted(color))
}

pub open spec fn green() -> Rgb {
    Rgb { r: Ratio::of(0, 1), g: Ratio::of(1, 1), b: Ratio::of(0, 1) }
}

/// An axis-aligned rectangle, as its four corners.
#[derive(Clone, Copy, Debug, PartialEq)]
pub struct Rectangle {
    p0: Vertex,
    p1: Vertex,
    p2: Vertex,
    p3: Vertex,
}

impl Figure for Rectangle {
    closed spec fn spec_data(&self) -> Seq<Vertex> {
        seq![self.p0, self.p1, self.p2, self.p3]
    }

    closed spec fn spec_indices(&self) -> Seq<u16> {
        quad_indices()
    }

    fn data(&self) -> (r: Vec<Vertex>) {
        let r = vec![self.p0, self.p1, self.p2, self.p3];
        assert(r@ =~= self.spec_data());
        r
    }

    fn indices(&self) -> (r: Vec<u16>) {
        let r: Vec<u16> = vec![0, 1, 3, 0, 3, 2];
        assert(r@ =~= quad_indices());
        r
    }
}

fn edge_of(c: Ratio, e: Ratio, dir: i64) -> (r: Ratio)
    requires
        edges_fit(c, e),
        dir == -1 || dir == 1,
    ensures
        r == edge(c, e, dir as int),
        r.wf(),
{
    proof {
        lemma_edge_terms(c, e);
    }
    let twice_c = 2 * (c.num as i128) * (e.den as i128);
    let half_e = (dir as i128) * (e.num as i128) * (c.den as i128);
    let num = twice_c + half_e;
    let den = 2 * (c.den as u128) * (e.den as u128);
    Ratio::new(num as i64, den as u64)
}

/// With both denominators positive and their doubled product in 64 bits,
/// each term of `edge_num` stays well inside `i128`.
proof fn lemma_edge_terms(c: Ratio, e: Ratio)
    requires
        edges_fit(c, e),
    ensures
        -0x7fff_ffff_ffff_ffff_ffff_ffff_ffff_ffff <= 2 * c.num * e.den
            <= 0x7fff_ffff_ffff_ffff_ffff_ffff_ffff_ffff,
        -0x4000_0000_0000_0000_0000_0000_0000_0000 <= e.num * c.den
            <= 0x4000_0000_0000_0000_0000_0000_0000_0000,
        edge_den(c, e) >= 2,
{
    let cn = c.num as int;
    let cd = c.den as int;
    let en = e.num as int;
    let ed = e.den as int;
    assert(ed <= 0x7fff_ffff_ffff_ffff && cd <= 0x7fff_ffff_ffff_ffff && 2 * cd * ed >= 2)
        by (nonlinear_arith)
        requires
            cd >= 1,
            ed >= 1,
            2 * cd * ed <= 0xffff_ffff_ffff_ffff,
    ;
    assert(-0x7fff_ffff_ffff_ffff_ffff_ffff_ffff_ffff <= 2 * cn * ed
        <= 0x7fff_ffff_ffff_ffff_ffff_ffff_ffff_ffff) by (nonlinear_arith)
        requires
            -0x8000_0000_0000_0000 <= cn <= 0x7fff_ffff_ffff_ffff,
            1 <= ed <= 0x7fff_ffff_ffff_ffff,
    ;
    assert(-0x4000_0000_0000_0000_0000_0000_0000_0000 <= en * cd
        <= 0x4000_0000_0000_0000_0000_0000_0000_0000) by (nonlinear_arith)
        requires
            -0x8000_0000_0000_0000 <= en <= 0x7fff_ffff_ffff_ffff,
            1 <= cd <= 0x7fff_ffff_ffff_ffff,
    ;
}

impl Rectangle {
    /// The rectangle centred on `(x, y)` that is `height` tall and `width`
    /// wide, its corners in the default colour.
    pub fn new(x: Ratio, y: Ratio, height: Ratio, width: Ratio) -> (r: Rectangle)
        requires
            edges_fit(x, width),
            edges_fit(y, height),
        ensures
            r.spec_data() == corners(x, y, height, width),
            r.spec_indices() == quad_indices(),
            forall|k: int| 0 <= k < 4 ==> r.spec_data()[k].x.wf() && r.spec_data()[k].y.wf(),
    {
        let x1 = edge_of(x, width, -1);
        let x2 = edge_of(x, width, 1);
        let y1 = edge_of(y, height, -1);
        let y2 = edge_of(y, height, 1);
        let r = Rectangle {
            p0: Vertex::new(x1, y1),
            p1: Vertex::new(x2, y1),
            p2: Vertex::new(x1, y2),
            p3: Vertex::new(x2, y2),
        };
        assert(r.spec_data() =~= corners(x, y, height, width));
        r
    }

    /// The square centred on `(x, y)` with sides of length `side`.
    pub fn square(x: Ratio, y: Ratio, side: Ratio) -> (r: Rectangle)
        requires
            edges_fit(x, side),
            edges_fit(y, side),
        ensures
            r.spec_data() == corners(x, y, side, side),
            r.spec_indices() == quad_indices(),
    {
        Rectangle::new(x, y, side, side)
    }

    /// This rectangle with all four corners coloured green.
    pub fn green(self) -> (r: Rectangle)
        ensures
            r.spec_data() == tint_all(self.spec_data(), green()),
            r.spec_indices() == self.spec_indices(),
    {
        let g = Ratio::integer(0);
        let one = Ratio::integer(1);
        let r = Rectangle {
            p0: self.p0.color(g, one, g),
            p1: self.p1.color(g, one, g),
            p2: self.p2.color(g, one, g),
            p3: self.p3.color(g, one, g),
        };
        assert(r.spec_data() =~= tint_all(self.spec_data(), green()));
        r
    }
}

} // verus!
