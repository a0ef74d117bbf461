use cgmath::array::Array1;
use cgmath::point::Point2;

const POINT2: Point2<i32> = Point2 { x: 1, y: 2 };

#[test]
fn point_test_index() {
    assert_eq!(POINT2[0], POINT2.x);
    assert_eq!(POINT2[1], POINT2.y);
}

#[test]
fn point_test_index_mut() {
    let mut p = POINT2;
    *p.get_mut(0) = 0;
    assert_eq!(p, [0, 2].into());
}

#[test]
fn point_test_index_range() {
    let empty: [i32; 0] = [];
    assert_eq!(&POINT2.range(0, 0)[..], &empty);
    assert_eq!(&POINT2.range(0, 1)[..], &[1]);
    assert_eq!(POINT2.range(0, 0).len(), 0);
    assert_eq!(POINT2.range(0, 1).len(), 1);
    assert_eq!(&POINT2.range(2, 2)[..], &empty);
    assert_eq!(&POINT2.range(1, 2)[..], &[2]);
    assert_eq!(POINT2.range(2, 2).len(), 0);
    assert_eq!(POINT2.range(1, 2).len(), 1);
    assert_eq!(&POINT2.range(0, 2)[..], &[1, 2]);
    assert_eq!(POINT2.range(0, 2).len(), 2);
}

#[test]
fn point_test_into() {
    let p = POINT2;
    {
        let p: [i32; 2] = p.into();
        assert_eq!(p, [1, 2]);
    }
    {
        let p: (i32, i32) = p.into();
        assert_eq!(p, (1, 2));
    }
}

#[test]
fn point_test_from() {
    assert_eq!(Point2::from([1, 2]), POINT2);
    {
        let p = &[1, 2];
        let p: Point2<_> = From::from(*p);
        assert_eq!(&p, &POINT2);
    }
    {
        let p = &mut [1, 2];
        let p: Point2<_> = From::from(*p);
        assert_eq!(&p, &POINT2);
    }
    assert_eq!(Point2::from((1, 2)), POINT2);
    {
        let p = &(1, 2);
        let p: Point2<_> = From::from(*p);
        assert_eq!(&p, &POINT2);
    }
    {
        let p = &mut (1, 2);
        let p: Point2<_> = From::from(*p);
        assert_eq!(&p, &POINT2);
    }
}

#[test]
#[should_panic]
fn point_test_index_out_of_bounds() {
    POINT2[2];
}
