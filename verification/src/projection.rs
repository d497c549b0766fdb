use vstd::prelude::*;

verus! {

/// Half the height of the visible volume: it spans `-VERTICAL_BOUND ..= VERTICAL_BOUND`.
pub const VERTICAL_BOUND: u32 = 1;

/// Depth of the near clipping plane.
pub const NEAR_PLANE: i64 = -1;

/// Depth of the far clipping plane.
pub const FAR_PLANE: i64 = 8;

/// The exact fraction `num / den`.  The library never divides: a host that needs
/// the value in another number format divides `num` by `den` itself.
#[derive(Clone, Copy, Debug, PartialEq, Eq, Structural)]
pub struct Ratio {
    pub num: i64,
    pub den: u32,
}

impl Ratio {
    /// A fraction is well formed when it has a value: its denominator is not zero.
    pub open spec fn wf(self) -> bool {
        self.den > 0
    }

    /// The whole number `n`.
    pub open spec fn whole(n: int) -> Ratio {
        Ratio { num: n as i64, den: 1 }
    }

    /// The fraction with the opposite sign.
    pub open spec fn negated(self) -> Ratio {
        Ratio { num: (-self.num) as i64, den: self.den }
    }

    /// `self` has the value `n / d`.
    pub open spec fn has_value(self, n: int, d: int) -> bool {
        self.num * d == n * self.den
    }

    /// `self` has the value of `factor` times `other`.
    pub open spec fn is_product(self, factor: Ratio, other: Ratio) -> bool {
        self.num * (factor.den * other.den) == (factor.num * other.num) * self.den
    }
}

/// The six planes of an orthographic viewing volume.
#[derive(Clone, Copy, Debug, PartialEq, Eq, Structural)]
pub struct Projection {
    pub left: Ratio,
    pub right: Ratio,
    pub bottom: Ratio,
    pub top: Ratio,
    pub near: Ratio,
    pub far: Ratio,
}

impl Projection {
    /// The volume for a viewport `width / height` times as wide as it is high: the
    /// horizontal planes sit at that ratio times the vertical bound, the others are fixed.
    pub open spec fn with_aspect(width: u32, height: u32) -> Projection {
        Projection {
            left: Ratio { num: (-(width * VERTICAL_BOUND)) as i64, den: height },
            right: Ratio { num: (width * VERTICAL_BOUND) as i64, den: height },
            bottom: Ratio::whole(-VERTICAL_BOUND),
            top: Ratio::whole(VERTICAL_BOUND as int),
            near: Ratio::whole(NEAR_PLANE as int),
            far: Ratio::whole(FAR_PLANE as int),
        }
    }

    /// The volume in use before the first resize: as wide as it is high.
    pub open spec fn spec_initial() -> Projection {
        Projection::with_aspect(1, 1)
    }

    /// The volume for a window of the given size; a window without height has none.
    pub open spec fn spec_for_size(width: u32, height: u32) -> Option<Projection> {
        if height == 0 {
            None
        } else {
            Some(Projection::with_aspect(width, height))
        }
    }

    /// Every plane has a value, the vertical and depth planes are the fixed ones, and
    /// the horizontal planes mirror each other.
    pub open spec fn wf(self) -> bool {
        &&& self.left.wf()
        &&& self.right.wf()
        &&& self.left == self.right.negated()
        &&& self.bottom == Ratio::whole(-VERTICAL_BOUND)
        &&& self.top == Ratio::whole(VERTICAL_BOUND as int)
        &&& self.near == Ratio::whole(NEAR_PLANE as int)
        &&& self.far == Ratio::whole(FAR_PLANE as int)
    }

    #[verifier::when_used_as_spec(spec_initial)]
    pub fn initial() -> (projection: Projection)
        ensures
            projection == Projection::initial(),
            projection.wf(),
    {
        Projection::build(1, 1)
    }

    /// Recomputes the volume after a resize.  A height of zero gives no aspect ratio,
    /// so no volume is returned and nothing is divided.
    #[verifier::when_used_as_spec(spec_for_size)]
    pub fn for_size(width: u32, height: u32) -> (projection: Option<Projection>)
        ensures
            projection == Projection::for_size(width, height),
            projection is Some <==> height > 0,
            projection matches Some(p) ==> p.wf(),
    {
        if height == 0 {
            None
        } else {
            Some(Projection::build(width, height))
        }
    }

    fn build(width: u32, height: u32) -> (projection: Projection)
        requires
            height > 0,
        ensures
            projection == Projection::with_aspect(width, height),
            projection.wf(),
    {
        assert(width * VERTICAL_BOUND == width) by (nonlinear_arith)
            requires
                VERTICAL_BOUND == 1,
        ;
        let reach: i64 = (width as i64) * (VERTICAL_BOUND as i64);
        Projection {
            left: Ratio { num: -reach, den: height },
            right: Ratio { num: reach, den: height },
            bottom: Ratio { num: -(VERTICAL_BOUND as i64), den: 1 },
            top: Ratio { num: VERTICAL_BOUND as i64, den: 1 },
            near: Ratio { num: NEAR_PLANE, den: 1 },
            far: Ratio { num: FAR_PLANE, den: 1 },
        }
    }
}

/// After a resize to a window with height, the right plane sits at exactly
/// `width / height` times the top plane, the left plane mirrors it, and the
/// vertical and depth planes keep their fixed places.
pub proof fn lemma_resize_scales_horizontal_bound(width: u32, height: u32)
    requires
        height > 0,
    ensures
        Projection::for_size(width, height) is Some,
        ({
            let p = Projection::for_size(width, height).unwrap();
            &&& p.wf()
            &&& p.right.is_product(Ratio { num: width as i64, den: height }, p.top)
            &&& p.right.has_value(width * VERTICAL_BOUND, height as int)
            &&& p.left.has_value(-(width * VERTICAL_BOUND), height as int)
            &&& p.bottom.has_value(-VERTICAL_BOUND, 1)
            &&& p.top.has_value(VERTICAL_BOUND as int, 1)
            &&& p.near.has_value(NEAR_PLANE as int, 1)
            &&& p.far.has_value(FAR_PLANE as int, 1)
        }),
{
    let p = Projection::for_size(width, height).unwrap();
    assert(p.right.num == width);
    assert(p.right.num * (height * 1) == (width * 1) * p.right.den) by (nonlinear_arith)
        requires
            p.right.num == width,
            p.right.den == height,
    ;
}

/// A resize to a window without height yields no projection at all.
pub proof fn lemma_zero_height_has_no_projection(width: u32)
    ensures
        Projection::for_size(width, 0) is None,
{
}

} // verus!
