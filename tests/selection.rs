use raytracer::material::EmmittingMaterial;
use raytracer::select::first_index;

struct Disc {
    cx: f64,
    cy: f64,
    size: f64,
    color: (u8, u8, u8),
}

impl Disc {
    fn contains(&self, x: f64, y: f64) -> bool {
        (x - self.cx) * (x - self.cx) + (y - self.cy) * (y - self.cy)
            <= self.size / 2.0 * self.size / 2.0
    }
}

fn color_at(discs: &Vec<Disc>, x: f64, y: f64) -> (u8, u8, u8) {
    match first_index(discs, |d: &Disc| d.contains(x, y)) {
        Some(i) => discs[i].color,
        None => (0, 0, 0),
    }
}

fn two_overlapping() -> Vec<Disc> {
    vec![
        Disc { cx: 10.0, cy: 10.0, size: 10.0, color: (200, 0, 0) },
        Disc { cx: 13.0, cy: 10.0, size: 10.0, color: (0, 0, 200) },
    ]
}

#[test]
fn overlap_goes_to_first_constructed_disc() {
    let discs = two_overlapping();
    assert!(discs[0].contains(11.5, 10.0) && discs[1].contains(11.5, 10.0));
    assert_eq!(color_at(&discs, 11.5, 10.0), (200, 0, 0));
}

#[test]
fn overlap_order_reversed() {
    let mut discs = two_overlapping();
    discs.reverse();
    assert_eq!(color_at(&discs, 11.5, 10.0), (0, 0, 200));
}

#[test]
fn point_only_in_second_disc() {
    let discs = two_overlapping();
    assert_eq!(color_at(&discs, 17.0, 10.0), (0, 0, 200));
}

#[test]
fn point_outside_every_disc_is_black() {
    let discs = two_overlapping();
    assert_eq!(color_at(&discs, 40.0, 40.0), (0, 0, 0));
    assert_eq!(color_at(&Vec::new(), 0.0, 0.0), (0, 0, 0));
}

#[test]
fn first_index_picks_earliest_match() {
    let v = vec![3, 8, 5, 8, 10];
    assert_eq!(first_index(&v, |x: &i32| *x > 4), Some(1));
    assert_eq!(first_index(&v, |x: &i32| *x == 10), Some(4));
    assert_eq!(first_index(&v, |x: &i32| *x > 10), None);
}

#[test]
fn emmitting_material_gives_off_its_color_only() {
    let m = EmmittingMaterial::new((0.25f64, 0.5f64, 1.0f64));
    assert_eq!(m.get_emmission(), Some((0.25, 0.5, 1.0)));
    assert_eq!(m.get_albedo(), None);
    assert!(m.get_secondary_ray::<u8>().is_none());
}
