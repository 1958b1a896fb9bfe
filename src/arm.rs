use vstd::prelude::*;

use crate::geometry::{Heading, Point, Rgba, SUBPIXELS};

verus! {

/// Added to an arm's width, in pixels, for each arm between it and the end.
pub const WIDTH_MULTIPLY: i64 = 2;

/// Width of the outermost arm, in pixels.
pub const WIDTH_MINIMUM: i64 = 4;

/// Added to an arm's length, in pixels, for each arm between it and the end.
pub const LENGTH_MULTIPLY: i64 = 20;

/// Length of the outermost arm, in pixels.
pub const LENGTH_MINIMUM: i64 = 10;

/// The largest number of arms a chain may hold.
pub const MAX_ARMS: usize = 1048576;

/// The largest width or length of an arm, in pixels.
pub const MAX_EXTENT: i64 = 33554432;

/// The largest distance of a chain's origin from zero on either axis, in
/// sub-pixel units.
pub const MAX_COORD: i64 = 1099511627776;

/// The largest displacement one arm can add on either axis, in sub-pixel
/// units: `MAX_EXTENT * SUBPIXELS`.
pub const ARM_REACH: i64 = 137438953472;

/// The fixed description of one arm of the chain.
#[derive(Clone, Copy, Debug, PartialEq, Eq, Structural)]
pub struct ArmSpec {
    pub color: Rgba,
    /// Stroke width in pixels.
    pub width: i64,
    /// Distance from base to tip in pixels.
    pub length: i64,
    /// Position in the chain counted from one; the arm turns at a rate
    /// that grows with this weight.
    pub speed_weight: u64,
}

impl ArmSpec {
    pub open spec fn is_valid(self) -> bool {
        0 <= self.width <= MAX_EXTENT && 0 <= self.length <= MAX_EXTENT
    }
}

/// Where one arm lies in a frame.
#[derive(Clone, Copy, Debug, PartialEq, Eq, Structural)]
pub struct ArmPose {
    pub base: Point,
    pub tip: Point,
    /// Stroke width in pixels.
    pub width: i64,
    pub color: Rgba,
}

/// The description of arm `i` in a chain with one arm per colour: its
/// ancestor weight is the number of arms from it to the end, and its speed
/// weight its position counted from one.
pub open spec fn spec_for(colors: Seq<Rgba>, i: int) -> ArmSpec {
    let ancestor = colors.len() - i;
    ArmSpec {
        color: colors[i],
        width: (ancestor * WIDTH_MULTIPLY + WIDTH_MINIMUM) as i64,
        length: (ancestor * LENGTH_MULTIPLY + LENGTH_MINIMUM) as i64,
        speed_weight: (i + 1) as u64,
    }
}

/// The colours of the arms, from the centre outwards.
pub open spec fn arm_colors() -> Seq<Rgba> {
    seq![
        Rgba { r: 255, g: 0, b: 0, a: 255 },
        Rgba { r: 0, g: 255, b: 0, a: 255 },
        Rgba { r: 0, g: 0, b: 255, a: 255 },
        Rgba { r: 0, g: 255, b: 255, a: 255 },
        Rgba { r: 255, g: 255, b: 0, a: 255 },
        Rgba { r: 255, g: 0, b: 255, a: 255 },
    ]
}

/// The colours of the arms, from the centre outwards: red, green, blue,
/// cyan, yellow and magenta.
pub fn palette() -> (r: Vec<Rgba>)
    ensures
        r@ == arm_colors(),
{
    vec![
        Rgba { r: 255, g: 0, b: 0, a: 255 },
        Rgba { r: 0, g: 255, b: 0, a: 255 },
        Rgba { r: 0, g: 0, b: 255, a: 255 },
        Rgba { r: 0, g: 255, b: 255, a: 255 },
        Rgba { r: 255, g: 255, b: 0, a: 255 },
        Rgba { r: 255, g: 0, b: 255, a: 255 },
    ]
}

/// One arm per colour, in order: widths and lengths shrink and speed
/// weights grow towards the end of the chain.
pub fn arm_specs(colors: &Vec<Rgba>) -> (r: Vec<ArmSpec>)
    requires
        colors.len() <= MAX_ARMS,
    ensures
        r.len() == colors.len(),
        forall|i: int| 0 <= i < r.len() ==> r[i] == spec_for(colors@, i),
        forall|i: int| 0 <= i < r.len() ==> (#[trigger] r[i]).is_valid(),
{
    let k = colors.len();
    let mut specs: Vec<ArmSpec> = Vec::new();
    let mut i: usize = 0;
    while i < k
        invariant
            k == colors.len(),
            k <= MAX_ARMS,
            i <= k,
            specs.len() == i,
            forall|j: int| 0 <= j < i ==> specs[j] == spec_for(colors@, j),
            forall|j: int| 0 <= j < i ==> (#[trigger] specs[j]).is_valid(),
        decreases k - i,
    {
        let ancestor = (k - i) as i64;
        specs.push(
            ArmSpec {
                color: colors[i],
                width: ancestor * WIDTH_MULTIPLY + WIDTH_MINIMUM,
                length: ancestor * LENGTH_MULTIPLY + LENGTH_MINIMUM,
                speed_weight: (i + 1) as u64,
            },
        );
        i = i + 1;
    }
    specs
}

/// Where an arm of the given description ends when it starts at `base` and
/// points along `h`.
pub open spec fn step(base: Point, spec: ArmSpec, h: Heading) -> Point {
    Point {
        x: (base.x + spec.length * h.dx) as i64,
        y: (base.y + spec.length * h.dy) as i64,
    }
}

/// The `i`-th joint of the chain: the origin, then the tip of each arm in
/// turn, each arm starting where the one before it ends.
pub open spec fn joint(origin: Point, specs: Seq<ArmSpec>, hs: Seq<Heading>, i: nat) -> Point
    decreases i,
{
    if i == 0 {
        origin
    } else {
        step(joint(origin, specs, hs, (i - 1) as nat), specs[i - 1], hs[i - 1])
    }
}

/// Arm `i` of the chain: it runs from joint `i` to joint `i + 1`.
pub open spec fn pose(origin: Point, specs: Seq<ArmSpec>, hs: Seq<Heading>, i: int) -> ArmPose {
    ArmPose {
        base: joint(origin, specs, hs, i as nat),
        tip: joint(origin, specs, hs, (i + 1) as nat),
        width: specs[i].width,
        color: specs[i].color,
    }
}

/// The poses of all arms of the chain, in order.
pub open spec fn chain(origin: Point, specs: Seq<ArmSpec>, hs: Seq<Heading>) -> Seq<ArmPose> {
    Seq::new(specs.len(), |i: int| pose(origin, specs, hs, i))
}

/// What `compute_chain` needs of its inputs so that no coordinate leaves
/// the range of `i64`.
pub open spec fn chain_inputs_ok(origin: Point, specs: Seq<ArmSpec>, hs: Seq<Heading>) -> bool {
    &&& specs.len() == hs.len()
    &&& specs.len() <= MAX_ARMS
    &&& -MAX_COORD <= origin.x <= MAX_COORD
    &&& -MAX_COORD <= origin.y <= MAX_COORD
    &&& forall|i: int| 0 <= i < specs.len() ==> (#[trigger] specs[i]).is_valid()
    &&& forall|i: int| 0 <= i < hs.len() ==> (#[trigger] hs[i]).is_bounded()
}

/// One arm moves its tip at most `ARM_REACH` from its base on either axis.
proof fn lemma_arm_reach(spec: ArmSpec, h: Heading)
    requires
        spec.is_valid(),
        h.is_bounded(),
    ensures
        -ARM_REACH <= spec.length * h.dx <= ARM_REACH,
        -ARM_REACH <= spec.length * h.dy <= ARM_REACH,
{
    assert(-ARM_REACH <= spec.length * h.dx <= ARM_REACH) by (nonlinear_arith)
        requires
            0 <= spec.length <= MAX_EXTENT,
            -SUBPIXELS <= h.dx <= SUBPIXELS,
    ;
    assert(-ARM_REACH <= spec.length * h.dy <= ARM_REACH) by (nonlinear_arith)
        requires
            0 <= spec.length <= MAX_EXTENT,
            -SUBPIXELS <= h.dy <= SUBPIXELS,
    ;
}

/// Joint `i` lies within `i` arm reaches of the origin, and each arm adds
/// exactly its length times its heading to its base.
proof fn lemma_joint_bounded(origin: Point, specs: Seq<ArmSpec>, hs: Seq<Heading>, i: nat)
    requires
        chain_inputs_ok(origin, specs, hs),
        i <= specs.len(),
    ensures
        -MAX_COORD - i * ARM_REACH <= joint(origin, specs, hs, i).x <= MAX_COORD + i * ARM_REACH,
        -MAX_COORD - i * ARM_REACH <= joint(origin, specs, hs, i).y <= MAX_COORD + i * ARM_REACH,
        i < specs.len() ==> joint(origin, specs, hs, i + 1).x == joint(origin, specs, hs, i).x
            + specs[i as int].length * hs[i as int].dx,
        i < specs.len() ==> joint(origin, specs, hs, i + 1).y == joint(origin, specs, hs, i).y
            + specs[i as int].length * hs[i as int].dy,
    decreases i,
{
    if i > 0 {
        lemma_joint_bounded(origin, specs, hs, (i - 1) as nat);
        lemma_arm_reach(specs[i - 1], hs[i - 1]);
    }
    if i < specs.len() {
        lemma_arm_reach(specs[i as int], hs[i as int]);
    }
}

/// The poses of a chain of arms that starts at `origin`, arm `i` pointing
/// along `headings[i]`: each arm's base is the previous arm's tip (the
/// first arm's is the origin), and its tip lies `length` pixels along its
/// heading from its base.
pub fn compute_chain(origin: Point, specs: &Vec<ArmSpec>, headings: &Vec<Heading>) -> (r: Vec<ArmPose>)
    requires
        chain_inputs_ok(origin, specs@, headings@),
    ensures
        r@ == chain(origin, specs@, headings@),
{
    let mut poses: Vec<ArmPose> = Vec::new();
    let mut base = origin;
    let mut i: usize = 0;
    while i < specs.len()
        invariant
            chain_inputs_ok(origin, specs@, headings@),
            i <= specs.len(),
            poses.len() == i,
            base == joint(origin, specs@, headings@, i as nat),
            forall|j: int| 0 <= j < i ==> poses[j] == pose(origin, specs@, headings@, j),
        decreases specs.len() - i,
    {
        let spec = specs[i];
        let h = headings[i];
        proof {
            lemma_joint_bounded(origin, specs@, headings@, i as nat);
            lemma_arm_reach(spec, h);
        }
        let tip = Point { x: base.x + spec.length * h.dx, y: base.y + spec.length * h.dy };
        poses.push(ArmPose { base, tip, width: spec.width, color: spec.color });
        base = tip;
        i = i + 1;
    }
    assert(poses@ =~= chain(origin, specs@, headings@));
    poses
}

/// A chain holds one pose per arm, and every arm after the first starts
/// exactly where the one before it ends.
pub proof fn lemma_chain_continuity(origin: Point, specs: Seq<ArmSpec>, hs: Seq<Heading>)
    ensures
        chain(origin, specs, hs).len() == specs.len(),
        forall|i: int|
            0 < i < specs.len() ==> (#[trigger] chain(origin, specs, hs)[i]).base == chain(
                origin,
                specs,
                hs,
            )[i - 1].tip,
{
}

/// When every arm is at rotation zero, each tip lies the arm's length
/// straight along the x axis from its base.
pub proof fn lemma_level_chain(origin: Point, specs: Seq<ArmSpec>, hs: Seq<Heading>)
    requires
        chain_inputs_ok(origin, specs, hs),
        forall|i: int| 0 <= i < hs.len() ==> (#[trigger] hs[i]).is_level(),
    ensures
        forall|i: int|
            0 <= i < specs.len() ==> (#[trigger] chain(origin, specs, hs)[i]).tip.x == chain(
                origin,
                specs,
                hs,
            )[i].base.x + specs[i].length * SUBPIXELS && chain(origin, specs, hs)[i].tip.y == chain(
                origin,
                specs,
                hs,
            )[i].base.y,
{
    assert forall|i: int| 0 <= i < specs.len() implies (#[trigger] chain(origin, specs, hs)[i]).tip.x
        == chain(origin, specs, hs)[i].base.x + specs[i].length * SUBPIXELS && chain(
        origin,
        specs,
        hs,
    )[i].tip.y == chain(origin, specs, hs)[i].base.y by {
        lemma_joint_bounded(origin, specs, hs, i as nat);
        assert(hs[i].is_level());
    }
}

/// The chain depends on its inputs alone: two computations from the same
/// origin, descriptions and headings give the same poses.
pub proof fn lemma_chain_deterministic(
    origin: Point,
    specs: Seq<ArmSpec>,
    hs: Seq<Heading>,
    first: Seq<ArmPose>,
    second: Seq<ArmPose>,
)
    requires
        first == chain(origin, specs, hs),
        second == chain(origin, specs, hs),
    ensures
        first == second,
{
}

} // verus!
