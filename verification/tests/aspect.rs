use astro_aski::aspect::{aspect_pairs, aspects_in_order, Aspect};

#[test]
fn aspects_tested_in_order() {
    assert_eq!(
        aspects_in_order(),
        vec![
            Aspect::Conjunction,
            Aspect::Sextile,
            Aspect::Square,
            Aspect::Trine,
            Aspect::Opposition
        ]
    );
}

#[test]
fn exact_degrees_of_aspects() {
    let exact: Vec<u16> = aspects_in_order().iter().map(|a| a.exact_degrees()).collect();
    assert_eq!(exact, vec![0, 60, 90, 120, 180]);
}

#[test]
fn orbs_of_aspects() {
    let orbs: Vec<u16> = aspects_in_order().iter().map(|a| a.orb()).collect();
    assert_eq!(orbs, vec![8, 6, 7, 8, 8]);
}

#[test]
fn orbs_never_overlap() {
    for d in -10i32..=190 {
        let hits = aspects_in_order()
            .iter()
            .filter(|a| {
                let exact = a.exact_degrees() as i32;
                let orb = a.orb() as i32;
                exact - orb <= d && d <= exact + orb
            })
            .count();
        assert!(hits <= 1, "separation {} within {} orbs", d, hits);
    }
}

#[test]
fn aspect_pairs_of_small_charts() {
    assert_eq!(aspect_pairs(0), vec![]);
    assert_eq!(aspect_pairs(1), vec![]);
    assert_eq!(aspect_pairs(2), vec![(0, 1)]);
    assert_eq!(aspect_pairs(3), vec![(0, 1), (0, 2), (1, 2)]);
}

#[test]
fn aspect_pairs_of_seven_planets() {
    let pairs = aspect_pairs(7);
    assert_eq!(pairs.len(), 21);
    assert_eq!(pairs[0], (0, 1));
    assert_eq!(pairs[5], (0, 6));
    assert_eq!(pairs[6], (1, 2));
    assert_eq!(pairs[20], (5, 6));
    for a in 0..7 {
        for b in 0..7 {
            assert_eq!(pairs.contains(&(a, b)), a < b);
        }
    }
}
