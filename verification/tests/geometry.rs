use image_normalizer::geometry::target_dimensions;

#[test]
fn landscape_is_clamped_to_the_maximum() {
    assert_eq!(target_dimensions(3000, 2000, 1536), (1536, 1024));
}

#[test]
fn image_within_the_maximum_is_unchanged() {
    assert_eq!(target_dimensions(800, 600, 1536), (800, 600));
}

#[test]
fn portrait_is_clamped_on_its_height() {
    assert_eq!(target_dimensions(2000, 3000, 1536), (1024, 1536));
}

#[test]
fn smaller_maximum_of_1024() {
    assert_eq!(target_dimensions(3000, 2000, 1024), (1024, 682));
    assert_eq!(target_dimensions(2000, 3000, 1024), (682, 1024));
}

#[test]
fn square_becomes_a_square_of_the_maximum() {
    assert_eq!(target_dimensions(2000, 2000, 1536), (1536, 1536));
    assert_eq!(target_dimensions(1000, 1000, 1536), (1000, 1000));
}

#[test]
fn long_side_equal_to_the_maximum_is_unchanged() {
    assert_eq!(target_dimensions(1536, 1000, 1536), (1536, 1000));
    assert_eq!(target_dimensions(1000, 1536, 1536), (1000, 1536));
    assert_eq!(target_dimensions(1537, 1000, 1536), (1536, 999));
}

#[test]
fn short_side_is_rounded_down() {
    assert_eq!(target_dimensions(1000, 333, 100), (100, 33));
    assert_eq!(target_dimensions(1000, 999, 100), (100, 99));
    assert_eq!(target_dimensions(999, 1000, 100), (99, 100));
    assert_eq!(target_dimensions(3, 2, 2), (2, 1));
}

#[test]
fn thin_image_can_lose_its_short_side() {
    assert_eq!(target_dimensions(10000, 1, 1536), (1536, 0));
    assert_eq!(target_dimensions(1, 10000, 1536), (0, 1536));
}

#[test]
fn empty_image_is_unchanged() {
    assert_eq!(target_dimensions(0, 0, 1536), (0, 0));
    assert_eq!(target_dimensions(0, 0, 0), (0, 0));
}

#[test]
fn maximum_of_zero_empties_the_image() {
    assert_eq!(target_dimensions(5, 5, 0), (0, 0));
    assert_eq!(target_dimensions(5, 3, 0), (0, 0));
}

#[test]
fn largest_dimensions_do_not_overflow() {
    assert_eq!(target_dimensions(u32::MAX, u32::MAX, 1024), (1024, 1024));
    assert_eq!(target_dimensions(u32::MAX, u32::MAX - 1, 1024), (1024, 1023));
    assert_eq!(target_dimensions(u32::MAX, u32::MAX, u32::MAX), (u32::MAX, u32::MAX));
    assert_eq!(
        target_dimensions(u32::MAX, u32::MAX - 1, u32::MAX - 1),
        (u32::MAX - 1, u32::MAX - 2)
    );
}

#[test]
fn output_never_exceeds_the_maximum_or_the_input() {
    let sizes: [(u32, u32); 6] = [(1, 1), (640, 480), (4032, 3024), (3024, 4032), (7, 9000), (5000, 5000)];
    let maxima: [u32; 4] = [1, 100, 1024, 1536];
    for (w, h) in sizes {
        for m in maxima {
            let (tw, th) = target_dimensions(w, h, m);
            assert!(tw.max(th) <= m);
            assert!(tw <= w && th <= h);
            if w.max(h) > m {
                assert_eq!(tw.max(th), m);
                let exact = (w.min(h) as u64) * (m as u64) / (w.max(h) as u64);
                assert_eq!(tw.min(th) as u64, exact);
            } else {
                assert_eq!((tw, th), (w, h));
            }
        }
    }
}

#[test]
fn geometry_of_an_output_is_a_fixed_point() {
    let sizes: [(u32, u32); 4] = [(3000, 2000), (2000, 3000), (800, 600), (10000, 1)];
    for (w, h) in sizes {
        let (tw, th) = target_dimensions(w, h, 1536);
        assert_eq!(target_dimensions(tw, th, 1536), (tw, th));
    }
}
