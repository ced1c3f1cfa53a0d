use crate::figures::{corners, green, quad_indices, tint_all, Figure, Rectangle};
use crate::ratio::Ratio;
use crate::scene::{rebase, Scene};
use crate::vertex::Vertex;
use vstd::prelude::*;

verus! {

/// The size of the drawable area in pixels, each side at least one.
#[derive(Clone, Copy, Debug)]
pub struct WindowDimensions {
    width: u32,
    height: u32,
}

impl WindowDimensions {
    #[verifier::type_invariant]
    spec fn inv(self) -> bool {
        self.width >= 1 && self.height >= 1
    }

    pub closed spec fn spec_width(self) -> int {
        self.width as int
    }

    pub closed spec fn spec_height(self) -> int {
        self.height as int
    }

    /// The dimensions of a drawable area reported as `width` by `height`;
    /// a side of zero is taken as one, so that every division stays defined.
    pub fn new(width: u32, height: u32) -> (r: WindowDimensions)
        ensures
            r.spec_width() == if width == 0 { 1 } else { width as int },
            r.spec_height() == if height == 0 { 1 } else { height as int },
    {
        WindowDimensions {
            width: if width == 0 { 1 } else { width },
            height: if height == 0 { 1 } else { height },
        }
    }

    pub fn width(&self) -> (r: u32)
        ensures
            r == self.spec_width(),
            r >= 1,
    {
        proof {
            use_type_invariant(self);
        }
        self.width
    }

    pub fn height(&self) -> (r: u32)
        ensures
            r == self.spec_height(),
            r >= 1,
    {
        proof {
            use_type_invariant(self);
        }
        self.height
    }
}

/// Where to place a point: at a pixel, or against an edge of the window.
#[derive(Clone, Copy, Debug)]
pub enum Position {
    Pixel { x: u32, y: u32 },
    End { y: u32 },
    Start { y: u32 },
    Top { x: u32 },
    Bottom { x: u32 },
}

/// The device coordinate of pixel `v` on an axis `extent` pixels long,
/// measured from the top-left corner, with `mid = extent / 2`:
/// `-v / mid` below the midpoint and `(v - mid) / mid` from it on.
///
/// Both branches are kept as they are: the map is piecewise, with
/// `0 ↦ 0`, `mid ↦ 0` and `extent ↦ 1`.
pub open spec fn map_axis(v: int, extent: int) -> Ratio {
    if 2 * v < extent {
        Ratio::of(-2 * v, extent)
    } else {
        Ratio::of(2 * v - extent, extent)
    }
}

/// The vertex that `position` maps to on a window of `dims`, or `None` for
/// the anchors that have no mapping yet (`Start`, `Top`, `Bottom`).
pub open spec fn placed(position: Position, dims: WindowDimensions) -> Option<Vertex> {
    match position {
        Position::Pixel { x, y } => Some(
            Vertex::at(map_axis(x as int, dims.spec_width()), map_axis(y as int, dims.spec_height())),
        ),
        Position::End { y } => Some(Vertex::at(Ratio::of(1, 1), map_axis(y as int, dims.spec_height()))),
        _ => None,
    }
}

fn axis(v: u32, extent: u32) -> (r: Ratio)
    requires
        extent >= 1,
    ensures
        r == map_axis(v as int, extent as int),
        r.wf(),
{
    let v = v as i64;
    let extent = extent as i64;
    if 2 * v < extent {
        Ratio::new(0 - 2 * v, extent as u64)
    } else {
        Ratio::new(2 * v - extent, extent as u64)
    }
}

impl Position {
    /// Maps this position to normalized device coordinates on a window of
    /// `config`: `Pixel` on both axes, `End` pinned to the right edge.
    /// The other anchors are not supported and give `None`.
    pub fn to_gl(&self, config: WindowDimensions) -> (r: Option<Vertex>)
        ensures
            r == placed(*self, config),
            r is Some <==> (*self is Pixel || *self is End),
            r matches Some(v) ==> v.x.wf() && v.y.wf(),
    {
        let w = config.width();
        let h = config.height();
        match self {
            Position::Pixel { x, y } => Some(Vertex::new(axis(*x, w), axis(*y, h))),
            Position::End { y } => Some(Vertex::new(Ratio::integer(1), axis(*y, h))),
            _ => None,
        }
    }
}

/// Builds the scene that each frame draws.
#[derive(Clone, Copy, Debug)]
pub struct Compositor {}

/// The yellow panel on the right.
pub open spec fn panel() -> Seq<Vertex> {
    corners(Ratio::of(1, 2), Ratio::of(-134, 1000), Ratio::of(1, 2), Ratio::of(1, 5))
}

/// The green bar on the left.
pub open spec fn bar() -> Seq<Vertex> {
    tint_all(corners(Ratio::of(-1, 2), Ratio::of(0, 1), Ratio::of(1, 5), Ratio::of(1, 2)), green())
}

impl Compositor {
    /// The frame's scene: the yellow panel, then the green bar over it.
    pub fn scene(&self) -> (r: Scene)
        ensures
            r.wf(),
            r.vertices_view() == panel() + bar(),
            r.indices_view() == quad_indices() + rebase(quad_indices(), 4),
    {
        let mut scene = Scene::new();
        let panel = Rectangle::new(
            Ratio::new(1, 2),
            Ratio::new(-134, 1000),
            Ratio::new(1, 2),
            Ratio::new(1, 5),
        );
        scene.add(panel);
        proof {
            assert(quad_indices() =~= rebase(quad_indices(), 0));
            assert(scene.indices_view() =~= quad_indices());
            assert(scene.vertices_view().len() == 4);
        }
        let bar = Rectangle::new(
            Ratio::new(-1, 2),
            Ratio::integer(0),
            Ratio::new(1, 5),
            Ratio::new(1, 2),
        ).green();
        scene.add(bar);
        scene
    }
}

} // verus!
