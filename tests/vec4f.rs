use vcl_rust::Vec4f;

fn vf(a: f32, b: f32, c: f32, d: f32) -> Vec4f {
    Vec4f::new(a.to_bits(), b.to_bits(), c.to_bits(), d.to_bits())
}

fn bits(values: [f32; 4]) -> [u32; 4] {
    [values[0].to_bits(), values[1].to_bits(), values[2].to_bits(), values[3].to_bits()]
}

fn select_aligned(buffer: &mut [u32; 7]) -> (&mut [u32], usize) {
    let diff = (buffer.as_ptr() as usize % 16) / 4;
    let start = if diff == 0 { 0 } else { 4 - diff };
    let slice = &mut buffer[start..start + 4];
    let address = slice.as_ptr() as usize;
    assert_eq!(address % 16, 0);
    (slice, address)
}

#[test]
fn test_bitwise() {
    let mut a = vf(2.0, 4.0, 12.0, -1.0);
    a &= vf(3.0, 6.0, 8.0, 3.0);
    assert_eq!(a, bits([2.0, 4.0, 8.0, 0.0]));

    assert_eq!(
        (vf(2.0, 4.0, 12.0, -1.0) & vf(3.0, 6.0, 8.0, 3.0)),
        bits([2.0, 4.0, 8.0, 0.0])
    );

    a = vf(2.0, 4.0, 8.0, 3.0);
    a |= vf(3.0, 2.0, 4.0, 2.0);
    assert_eq!(a, bits([3.0, 4.0, 16.0, 3.0]));

    assert_eq!(
        (vf(2.0, 4.0, 8.0, 3.0) | vf(3.0, 2.0, 4.0, 2.0)),
        bits([3.0, 4.0, 16.0, 3.0])
    );

    a = vf(2.0, 5.0, 7.0, -2.0);
    a ^= vf(2.0, 5.0, 7.0, -2.0);
    assert_eq!(a, bits([0.0, 0.0, 0.0, 0.0]));

    assert_eq!(
        (vf(2.0, 4.0, 8.0, 3.0) ^ vf(2.0, 4.0, 8.0, 3.0)),
        bits([0.0, 0.0, 0.0, 0.0])
    );
}

#[test]
fn test_insert_get() {
    let mut a = Vec4f::default();
    a = a.insert(0, 6.0f32.to_bits());
    a = a.insert(1, 7.0f32.to_bits());
    a = a.insert(2, (-2.0f32).to_bits());
    a = a.insert(3, 23.0f32.to_bits());
    assert_eq!(a, bits([6.0, 7.0, -2.0, 23.0]));
    a = a.insert(2, 5.0f32.to_bits());
    assert_eq!(a, bits([6.0, 7.0, 5.0, 23.0]));

    assert_eq!(f32::from_bits(*a.get(0).unwrap()), 6.0);
    assert_eq!(f32::from_bits(*a.get(1).unwrap()), 7.0);
    assert_eq!(f32::from_bits(*a.get(2).unwrap()), 5.0);
    assert_eq!(f32::from_bits(*a.get(3).unwrap()), 23.0);
    assert_eq!(f32::from_bits(*a.get_unchecked(2)), 5.0);
    assert!(a.get(4).is_none());

    assert_eq!(f32::from_bits(a[0]), 6.0);
    assert_eq!(f32::from_bits(a[1]), 7.0);
    assert_eq!(f32::from_bits(a[2]), 5.0);
    assert_eq!(f32::from_bits(a[3]), 23.0);
}

#[test]
fn test_load_store() {
    let arr = bits([-2.0, 1.0, 4.0, 5.0]);
    let mut a = Vec4f::default();
    a.load(&arr);
    assert_eq!(a, bits([-2.0, 1.0, 4.0, 5.0]));

    let some_array = bits([-1.0, 2.0, 3.0, -2.0]);

    let mut unaligned = [0u32; 7];
    let (aligned, address) = select_aligned(&mut unaligned);
    aligned.copy_from_slice(&some_array);

    let mut b = Vec4f::default();
    b.load_aligned(aligned, address);
    assert_eq!(b, some_array);

    b.store_aligned(aligned, address);
    assert_eq!(aligned, some_array);

    b.store_aligned_nocache(aligned, address);
    assert_eq!(aligned, some_array);

    let mut buffer = [0u32; 4];
    b.store_partial(&mut buffer[..1]);
    assert_eq!(buffer, bits([-1.0, 0.0, 0.0, 0.0]));
    b.store_partial(&mut buffer[..2]);
    assert_eq!(buffer, bits([-1.0, 2.0, 0.0, 0.0]));
    b.store_partial(&mut buffer[..3]);
    assert_eq!(buffer, bits([-1.0, 2.0, 3.0, 0.0]));
    b.store_partial(&mut buffer);
    assert_eq!(buffer, bits([-1.0, 2.0, 3.0, -2.0]));

    let another_arr = bits([-10.0, 3.0, -2.0, 7.0]);
    let mut c = Vec4f::default();

    c.load_partial(&another_arr[0..0]);
    assert_eq!(c, bits([0.0, 0.0, 0.0, 0.0]));
    c.load_partial(&another_arr[..1]);
    assert_eq!(c, bits([-10.0, 0.0, 0.0, 0.0]));
    c.load_partial(&another_arr[..2]);
    assert_eq!(c, bits([-10.0, 3.0, 0.0, 0.0]));
    c.load_partial(&another_arr[..3]);
    assert_eq!(c, bits([-10.0, 3.0, -2.0, 0.0]));
    c.load_partial(&another_arr);
    assert_eq!(c, bits([-10.0, 3.0, -2.0, 7.0]));

    let too_large_array = [0u32; 5];

    let mut d = vf(-3.0, 2.0, 1.0, 11.0);
    d.load_partial(&too_large_array);
    assert_eq!(d, [0u32; 4]);

    let e = vf(-3.0, 2.0, 1.0, 11.0);
    assert_eq!(e.cutoff(3), bits([-3.0, 2.0, 1.0, 0.0]));
    assert_eq!(e.cutoff(2), bits([-3.0, 2.0, 0.0, 0.0]));
    assert_eq!(e.cutoff(1), bits([-3.0, 0.0, 0.0, 0.0]));
    assert_eq!(e.cutoff(0), bits([0.0, 0.0, 0.0, 0.0]));
}
