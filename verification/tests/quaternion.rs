use cgmath::array::Array1;
use cgmath::quaternion::Quaternion;
use cgmath::vector::Vector3;

const QUATERNION: Quaternion<f32> = Quaternion { s: 1.0, v: Vector3 { x: 2.0, y: 3.0, z: 4.0 } };

#[test]
fn quaternion_test_into() {
    let v = QUATERNION;
    {
        let v: [f32; 4] = v.into();
        assert_eq!(v, [1.0, 2.0, 3.0, 4.0]);
    }
    {
        let v: (f32, f32, f32, f32) = v.into();
        assert_eq!(v, (1.0, 2.0, 3.0, 4.0));
    }
}

#[test]
fn quaternion_test_from() {
    assert_eq!(Quaternion::from([1.0, 2.0, 3.0, 4.0]), QUATERNION);
    {
        let v = &[1.0, 2.0, 3.0, 4.0];
        let v: Quaternion<_> = From::from(*v);
        assert_eq!(&v, &QUATERNION);
    }
    {
        let v = &mut [1.0, 2.0, 3.0, 4.0];
        let v: Quaternion<_> = From::from(*v);
        assert_eq!(&v, &QUATERNION);
    }
    assert_eq!(Quaternion::from((1.0, 2.0, 3.0, 4.0)), QUATERNION);
    {
        let v = &(1.0, 2.0, 3.0, 4.0);
        let v: Quaternion<_> = From::from(*v);
        assert_eq!(&v, &QUATERNION);
    }
    {
        let v = &mut (1.0, 2.0, 3.0, 4.0);
        let v: Quaternion<_> = From::from(*v);
        assert_eq!(&v, &QUATERNION);
    }
}

#[test]
fn quaternion_index_reads_scalar_part_first() {
    assert_eq!(QUATERNION[0], 1.0);
    assert_eq!(QUATERNION[1], 2.0);
    assert_eq!(QUATERNION[2], 3.0);
    assert_eq!(QUATERNION[3], 4.0);
    let mut q = QUATERNION;
    *q.get_mut(3) = 9.0;
    assert_eq!(q, Quaternion::from([1.0, 2.0, 3.0, 9.0]));
    assert_eq!(q.replace_elem(0, 5.0), 1.0);
    q.swap_elems(0, 1);
    assert_eq!(q.range(0, 4), vec![2.0, 5.0, 3.0, 9.0]);
}
