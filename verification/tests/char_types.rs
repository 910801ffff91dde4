use procgen_types::char_types::{DiscreteMirror, DiscreteRotation};

#[test]
fn quarter_turns_of_a_three_by_two_raster() {
    // width 3, height 2
    assert_eq!(DiscreteRotation::Deg0.translate_coord(2, 1, 3, 2), (2, 1));
    assert_eq!(DiscreteRotation::Deg90.translate_coord(0, 0, 3, 2), (1, 0));
    assert_eq!(DiscreteRotation::Deg90.translate_coord(2, 1, 3, 2), (0, 2));
    assert_eq!(DiscreteRotation::Deg180.translate_coord(0, 0, 3, 2), (2, 1));
    assert_eq!(DiscreteRotation::Deg270.translate_coord(0, 0, 3, 2), (0, 2));
    assert_eq!(DiscreteRotation::Deg270.translate_coord(2, 1, 3, 2), (1, 0));
}

#[test]
fn a_rotation_and_its_inverse_cancel() {
    let all = [
        DiscreteRotation::Deg0,
        DiscreteRotation::Deg90,
        DiscreteRotation::Deg180,
        DiscreteRotation::Deg270,
    ];
    for r in all.iter() {
        for x in 0..3 {
            for y in 0..2 {
                let (tx, ty) = r.translate_coord(x, y, 3, 2);
                let swapped = *r == DiscreteRotation::Deg90 || *r == DiscreteRotation::Deg270;
                let (w, h) = if swapped { (2, 3) } else { (3, 2) };
                assert_eq!(r.inverse().translate_coord(tx, ty, w, h), (x, y));
            }
        }
    }
}

#[test]
fn mirrors_reflect_along_one_axis() {
    assert_eq!(DiscreteMirror::X.translate_coord(0, 1, 3, 2), (2, 1));
    assert_eq!(DiscreteMirror::Y.translate_coord(0, 1, 3, 2), (0, 0));
    let (x, y) = DiscreteMirror::X.translate_coord(1, 0, 4, 4);
    assert_eq!(DiscreteMirror::X.translate_coord(x, y, 4, 4), (1, 0));
}
