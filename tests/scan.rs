use raytracer::scan::scanline_order;

#[test]
fn top_row_comes_first() {
    let order = scanline_order(3, 2);
    assert_eq!(order, vec![(0, 1), (1, 1), (2, 1), (0, 0), (1, 0), (2, 0)]);
}

#[test]
fn single_pixel_image() {
    assert_eq!(scanline_order(1, 1), vec![(0, 0)]);
}

#[test]
fn empty_image_has_no_pixels() {
    assert!(scanline_order(0, 4).is_empty());
    assert!(scanline_order(4, 0).is_empty());
}

#[test]
fn every_pixel_once() {
    let (w, h) = (16u16, 9u16);
    let order = scanline_order(w, h);
    assert_eq!(order.len(), 144);
    let mut seen = vec![false; 144];
    for (i, j) in order {
        let k = j as usize * w as usize + i as usize;
        assert!(!seen[k]);
        seen[k] = true;
    }
    assert!(seen.into_iter().all(|s| s));
}
