use blockmesh::scene_renderer::{sort_draw_order, DrawKey};

fn dist(from: [f32; 3], to: [f32; 3]) -> u32 {
    let dx = to[0] - from[0];
    let dy = to[1] - from[1];
    let dz = to[2] - from[2];
    (dx * dx + dy * dy + dz * dz).sqrt().to_bits()
}

#[test]
fn opaque_first_then_translucent_back_to_front() {
    let camera = [0.0, 0.0, 20.0];
    // opaque at the origin, glass at z=5 (far) and z=10 (near)
    let opaque = DrawKey { translucent: false, distance_bits: dist(camera, [0.0, 0.0, 0.0]), index: 0 };
    let glass_far = DrawKey { translucent: true, distance_bits: dist(camera, [0.0, 0.0, 5.0]), index: 1 };
    let glass_near = DrawKey { translucent: true, distance_bits: dist(camera, [0.0, 0.0, 10.0]), index: 2 };
    let sorted = sort_draw_order(vec![glass_near, opaque, glass_far]);
    assert_eq!(
        sorted.iter().map(|k| k.index).collect::<Vec<_>>(),
        vec![0, 1, 2]
    );
    assert!(!sorted[0].translucent);
    assert!(sorted[1].translucent && sorted[1].distance_bits == 15.0f32.to_bits());
    assert!(sorted[2].translucent && sorted[2].distance_bits == 10.0f32.to_bits());
}

#[test]
fn equal_keys_keep_their_order() {
    let a = DrawKey { translucent: true, distance_bits: 3.0f32.to_bits(), index: 4 };
    let b = DrawKey { translucent: true, distance_bits: 3.0f32.to_bits(), index: 9 };
    let sorted = sort_draw_order(vec![b, a]);
    assert_eq!(sorted[0].index, 4);
    assert_eq!(sorted[1].index, 9);
}

#[test]
fn farther_translucent_comes_first() {
    let near = DrawKey { translucent: true, distance_bits: 1.5f32.to_bits(), index: 0 };
    let far = DrawKey { translucent: true, distance_bits: 80.0f32.to_bits(), index: 1 };
    let sorted = sort_draw_order(vec![near, far]);
    assert_eq!(sorted[0].index, 1);
    assert_eq!(sorted[1].index, 0);
}

#[test]
fn nan_distance_is_drawn_before_numbers() {
    let nan = DrawKey { translucent: true, distance_bits: f32::NAN.to_bits(), index: 0 };
    let far = DrawKey { translucent: true, distance_bits: 1.0e9f32.to_bits(), index: 1 };
    let sorted = sort_draw_order(vec![far, nan]);
    assert_eq!(sorted[0].index, 0); // NaN bits exceed every numeric pattern
}

#[test]
fn result_is_a_permutation() {
    let keys: Vec<DrawKey> = (0..8)
        .map(|i| DrawKey {
            translucent: i % 2 == 0,
            distance_bits: ((i * 37) % 5) as u32,
            index: i,
        })
        .collect();
    let sorted = sort_draw_order(keys.clone());
    assert_eq!(sorted.len(), keys.len());
    let mut seen: Vec<usize> = sorted.iter().map(|k| k.index).collect();
    seen.sort();
    assert_eq!(seen, (0..8).collect::<Vec<_>>());
}
