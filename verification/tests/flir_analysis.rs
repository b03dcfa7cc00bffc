use gcs_afv::flir_analysis::{analyze_frame, locate_centroids, threshold, RgbImage};

fn grid(width: u32, height: u32) -> Vec<(u32, u32)> {
    let mut v = vec![];
    for y in 0..height {
        for x in 0..width {
            v.push((x, y));
        }
    }
    v
}

#[test]
fn centroids_of_full_grid() {
    let p = grid(4, 3);
    let c = locate_centroids(&p, 4, 2).unwrap();
    assert_eq!(c.lower, (1, 0));
    assert_eq!(c.upper, (2, 2));
    let c = locate_centroids(&p, 4, 1).unwrap();
    assert_eq!(c.upper, (2, 2));
    let c = locate_centroids(&p, 4, 0).unwrap();
    assert_eq!(c.lower, (1, 0));
    assert_eq!(c.upper, (0, 0));
}

#[test]
fn weak_signature_gives_nothing() {
    let p: Vec<(u32, u32)> = grid(5, 2);
    assert_eq!(p.len(), 10);
    assert!(locate_centroids(&p, 5, 2).is_none());
    let p: Vec<(u32, u32)> = grid(11, 1);
    assert!(locate_centroids(&p, 11, 2).is_some());
}

#[test]
fn centroid_columns_are_medians() {
    // A column of pixels at x = 7 on rows 0..12.
    let p: Vec<(u32, u32)> = (0..12).map(|y| (7, y)).collect();
    let c = locate_centroids(&p, 8, 3).unwrap();
    // lower half rows 0..6, middle row 3; upper narrows 6.. -> 9.. -> 11..
    assert_eq!(c.lower, (7, 3));
    assert_eq!(c.upper, (7, 11));
}

#[test]
fn threshold_keeps_hot_pixels() {
    // 2 x 2 image: red values 250, 10 / 201, 200
    let data = vec![250, 1, 2, 10, 3, 4, 201, 5, 6, 200, 7, 8];
    let img = RgbImage { width: 2, height: 2, data };
    let (pixels, filtered) = threshold(&img, 200);
    assert_eq!(pixels, vec![(0, 0), (0, 1)]);
    assert_eq!(filtered.width, 2);
    assert_eq!(filtered.height, 2);
    assert_eq!(filtered.data, vec![250, 1, 2, 0, 0, 0, 201, 5, 6, 0, 0, 0]);
}

#[test]
fn analyze_hot_frame() {
    let img = RgbImage { width: 4, height: 3, data: vec![255; 36] };
    let (c, filtered) = analyze_frame(&img, 200, 2);
    let c = c.unwrap();
    assert_eq!(c.lower, (1, 0));
    assert_eq!(c.upper, (2, 2));
    assert_eq!(filtered.data, vec![255; 36]);
    let (c, filtered) = analyze_frame(&img, 255, 2);
    assert!(c.is_none());
    assert_eq!(filtered.data, vec![0; 36]);
}

#[test]
fn black_image_is_black() {
    let img = RgbImage::black(3, 2);
    assert_eq!(img.data, vec![0; 18]);
}

#[test]
fn upper_centroid_is_not_above_lower() {
    // A 5 x 6 frame whose fire is a triangle widening towards the bottom.
    let (w, h) = (5u32, 6u32);
    let mut data = vec![0u8; (w * h * 3) as usize];
    for y in 0..h {
        for x in 0..w {
            if x <= y {
                data[((y * w + x) * 3) as usize] = 255;
            }
        }
    }
    let img = RgbImage { width: w, height: h, data };
    for iterations in 1..5 {
        let (c, _) = analyze_frame(&img, 100, iterations);
        let c = c.unwrap();
        assert!(c.lower.1 <= c.upper.1);
    }
    let (c, _) = analyze_frame(&img, 100, 1);
    // 20 signature pixels: rows 0..3 hold the first 10, whose middle one
    // lies in row 2; rows 4..5 hold the rest.
    assert_eq!(c.unwrap().lower, (1, 2));
    assert_eq!(c.unwrap().upper, (2, 5));
}
