use rotating_arms::arm::{arm_specs, compute_chain, palette, ArmPose, ArmSpec};
use rotating_arms::geometry::{Heading, Point, Rgba, SUBPIXELS};

const LEVEL: Heading = Heading { dx: SUBPIXELS, dy: 0 };

fn spec(width: i64, length: i64, speed_weight: u64) -> ArmSpec {
    ArmSpec { color: Rgba { r: 1, g: 2, b: 3, a: 4 }, width, length, speed_weight }
}

fn px(x: i64, y: i64) -> Point {
    Point { x: x * SUBPIXELS, y: y * SUBPIXELS }
}

#[test]
fn two_arm_chain_at_rest() {
    let specs = vec![spec(6, 30, 1), spec(4, 10, 2)];
    let poses = compute_chain(px(0, 0), &specs, &vec![LEVEL, LEVEL]);
    assert_eq!(poses.len(), 2);
    assert_eq!(poses[0].base, px(0, 0));
    assert_eq!(poses[0].tip, px(30, 0));
    assert_eq!(poses[1].base, px(30, 0));
    assert_eq!(poses[1].tip, px(40, 0));
    assert_eq!(poses[0].width, 6);
    assert_eq!(poses[1].width, 4);
}

#[test]
fn chain_is_continuous() {
    let specs = arm_specs(&palette());
    let headings = vec![
        Heading { dx: 0, dy: SUBPIXELS },
        Heading { dx: -SUBPIXELS, dy: 0 },
        Heading { dx: 2896, dy: 2896 },
        Heading { dx: 0, dy: -SUBPIXELS },
        Heading { dx: -2896, dy: 2896 },
        Heading { dx: SUBPIXELS, dy: 0 },
    ];
    let poses = compute_chain(px(400, 300), &specs, &headings);
    assert_eq!(poses.len(), 6);
    assert_eq!(poses[0].base, px(400, 300));
    for i in 1..poses.len() {
        assert_eq!(poses[i].base, poses[i - 1].tip);
    }
    // the first arm is 130 px long and points straight down
    assert_eq!(poses[0].tip, px(400, 430));
    // the second is 110 px long and points left
    assert_eq!(poses[1].tip, px(290, 430));
    // the third is 90 px long on a diagonal
    assert_eq!(poses[2].tip, Point { x: 290 * SUBPIXELS + 90 * 2896, y: 430 * SUBPIXELS + 90 * 2896 });
}

#[test]
fn chain_of_one_arm() {
    let poses = compute_chain(px(-5, 7), &vec![spec(2, 3, 1)], &vec![Heading { dx: 0, dy: -SUBPIXELS }]);
    assert_eq!(poses, vec![ArmPose { base: px(-5, 7), tip: px(-5, 4), width: 2, color: Rgba { r: 1, g: 2, b: 3, a: 4 } }]);
}

#[test]
fn empty_chain() {
    let poses = compute_chain(px(1, 1), &vec![], &vec![]);
    assert!(poses.is_empty());
}

#[test]
fn level_headings_point_along_x() {
    let specs = arm_specs(&palette());
    let poses = compute_chain(px(10, 20), &specs, &vec![LEVEL; 6]);
    for (p, s) in poses.iter().zip(specs.iter()) {
        assert_eq!(p.tip.x, p.base.x + s.length * SUBPIXELS);
        assert_eq!(p.tip.y, p.base.y);
    }
    assert_eq!(poses[5].tip, px(10 + 130 + 110 + 90 + 70 + 50 + 30, 20));
}

#[test]
fn chain_is_deterministic() {
    let specs = arm_specs(&palette());
    let headings = vec![
        Heading { dx: 100, dy: -4000 },
        Heading { dx: 2000, dy: 3000 },
        Heading { dx: -4096, dy: 0 },
        Heading { dx: 1, dy: 2 },
        Heading { dx: -3, dy: 4 },
        Heading { dx: 5, dy: -6 },
    ];
    let a = compute_chain(px(3, 4), &specs, &headings);
    let b = compute_chain(px(3, 4), &specs, &headings);
    assert_eq!(a, b);
}

#[test]
fn arm_specs_follow_their_weights() {
    let specs = arm_specs(&palette());
    assert_eq!(specs.len(), 6);
    assert_eq!(specs[0], ArmSpec { color: Rgba { r: 255, g: 0, b: 0, a: 255 }, width: 16, length: 130, speed_weight: 1 });
    assert_eq!(specs[1].width, 14);
    assert_eq!(specs[1].length, 110);
    assert_eq!(specs[5], ArmSpec { color: Rgba { r: 255, g: 0, b: 255, a: 255 }, width: 6, length: 30, speed_weight: 6 });
    let two = arm_specs(&vec![Rgba { r: 0, g: 0, b: 0, a: 0 }; 2]);
    assert_eq!((two[0].width, two[0].length, two[0].speed_weight), (8, 50, 1));
    assert_eq!((two[1].width, two[1].length, two[1].speed_weight), (6, 30, 2));
    assert!(arm_specs(&vec![]).is_empty());
}
