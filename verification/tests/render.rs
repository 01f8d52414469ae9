use wirecube::color::{pack_rgb565, COLOR_BLACK, COLOR_RED, COLOR_WHITE};
use wirecube::render::{cube_edges, highlights, segments, segments_checked};

fn eight_vertices() -> Vec<(i32, i32)> {
    (0..8).map(|i| (10 * i, 20 * i + 1)).collect()
}

#[test]
fn twelve_segments_for_a_cube() {
    let v = eight_vertices();
    let s = segments(&v);
    assert_eq!(s.len(), 12);
}

#[test]
fn edge_pairs_cover_the_cube() {
    let mut pairs = cube_edges();
    let mut expected: Vec<(usize, usize)> = vec![
        (0, 1), (1, 2), (2, 3), (3, 0),
        (4, 5), (5, 6), (6, 7), (7, 4),
        (0, 4), (1, 5), (2, 6), (3, 7),
    ];
    pairs.sort();
    expected.sort();
    assert_eq!(pairs, expected);
}

#[test]
fn segments_join_the_right_vertices() {
    let v = eight_vertices();
    let s = segments(&v);
    // Corner 0 emits its front-face edge, back-face edge and connecting
    // edge first, in that order.
    assert_eq!(s[0].start, v[0]);
    assert_eq!(s[0].end, v[1]);
    assert_eq!(s[1].start, v[4]);
    assert_eq!(s[1].end, v[5]);
    assert_eq!(s[2].start, v[0]);
    assert_eq!(s[2].end, v[4]);
    // The last corner wraps around to vertex 0 on the front face.
    assert_eq!(s[9].start, v[3]);
    assert_eq!(s[9].end, v[0]);
    assert_eq!(s[10].start, v[7]);
    assert_eq!(s[10].end, v[4]);
    assert_eq!(s[11].start, v[3]);
    assert_eq!(s[11].end, v[7]);
}

#[test]
fn short_vertex_sequence_is_rejected() {
    let short: Vec<(i32, i32)> = (0..7).map(|i| (i, i)).collect();
    assert!(segments_checked(&short).is_none());
    let full = eight_vertices();
    let s = segments_checked(&full);
    assert!(s.is_some());
    assert_eq!(s.unwrap().len(), 12);
}

#[test]
fn one_highlight_per_vertex() {
    let v = eight_vertices();
    let h = highlights(&v);
    assert_eq!(h.len(), 8);
    for i in 0..8 {
        assert_eq!(h[i].0, v[i]);
        assert_eq!(h[i].1, COLOR_WHITE);
    }
}

#[test]
fn color_packing_is_5_6_5() {
    assert_eq!(pack_rgb565(0, 0, 0), COLOR_BLACK);
    assert_eq!(pack_rgb565(31, 0, 0), COLOR_RED);
    assert_eq!(pack_rgb565(31, 63, 31), COLOR_WHITE);
    assert_eq!(pack_rgb565(1, 1, 1), 0x0821);
    assert_eq!(pack_rgb565(0, 63, 0), 0x07E0);
    assert_eq!(pack_rgb565(0, 0, 31), 0x001F);
}
