use point_nd::PointND;

#[test]
fn can_iter() {
    let arr = [0, 1, 2, 3];

    let p = PointND::<u8, 4>::from_slice(&arr);
    for (i, item) in p.iter().enumerate() {
        assert_eq!(arr[i], *item);
    }

    let mut p = PointND::<u8, 4>::from_slice(&arr);
    for item in p.iter_mut() {
        *item = 10;
    }

    for i in p.into_iter() {
        assert_eq!(i, 10u8);
    }
}

#[test]
fn from_slice_works() {
    let arr = [0.0, 0.1, 0.2];
    let p = PointND::<f64, 3>::from_slice(&arr);
    for i in 0..p.dims() {
        assert_eq!(arr[i], p[i]);
    }
}

#[test]
fn fill_works() {
    let fill_val = 21u8;
    let p = PointND::<u8, 5>::fill(fill_val);
    for i in p.into_iter() {
        assert_eq!(i, fill_val);
    }
}

#[test]
fn can_apply() {
    let arr = [0, 1, 2, 3];

    let p = PointND::<u8, 4>::from(arr).apply(|a| a * 2);

    assert_eq!(p.into_arr(), [0, 2, 4, 6]);
}

#[test]
fn can_apply_dims() {
    let p = PointND::from([-2, -1, 0, 1, 2]).apply_dims(&[0, 3], |item| item - 10);
    assert_eq!(p.into_arr(), [-12, -1, 0, -9, 2]);
}

#[test]
fn can_apply_vals() {
    let p = PointND::from([0, 1, 2]).apply_vals([Some(10), None, Some(20)], |a, b| {
        if let Some(i) = b {
            a + i
        } else {
            a
        }
    });
    assert_eq!(p.into_arr(), [10, 1, 22]);
}

#[test]
fn can_apply_point() {
    let left = PointND::from([0, 1, 2, 3]);
    let right = PointND::from([0, -1, -2, -3]);
    let result = left.apply_point(right, |a, b| a - b);
    assert_eq!(result.into_arr(), [0, 2, 4, 6]);
}

#[test]
fn can_apply_noclone_items() {
    #[derive(Debug, Eq, PartialEq)]
    enum X {
        A,
        B,
        C,
    }

    let p = PointND::from([X::A, X::B, X::C]).apply(|x| match x {
        X::A => X::B,
        X::B => X::C,
        X::C => X::A,
    });

    assert_eq!(p.into_arr(), [X::B, X::C, X::A]);
}

#[test]
fn can_extend() {
    let zero = PointND::<i32, 0>::from([]);
    assert_eq!(zero.dims(), 0);

    let one = zero.clone().extend([0]);
    assert_eq!(one.dims(), 1);
    assert_eq!(one.into_arr(), [0]);

    let two = zero.clone().extend([0, 1]);
    assert_eq!(two.dims(), 2);
    assert_eq!(two.into_arr(), [0, 1]);

    let five = PointND::from([0, 1, 2]).extend([3, 4]);
    assert_eq!(five.dims(), 5);
    assert_eq!(five.clone().into_arr(), [0, 1, 2, 3, 4]);

    let sum = five.apply_point(PointND::from([0, 1, 2, 3, 4]), |a, b| a + b);
    assert_eq!(sum.into_arr(), [0, 2, 4, 6, 8]);
}

#[test]
fn can_extend_nothing() {
    let arr: [i32; 0] = [];
    let zero = PointND::from(arr).extend::<0, 0>(arr);
    assert_eq!(zero.dims(), 0);
}

#[test]
fn can_contract_to() {
    let p = PointND::from([0, 1, 2, 3]).contract(3);

    assert_eq!(p.dims(), 3);
    assert_eq!(p.into_arr(), [0, 1, 2]);
}

#[test]
fn can_contract_to_zero() {
    let p = PointND::from([0, 1, 2, 3]).contract(0);

    assert_eq!(p.dims(), 0);
    assert_eq!(p.into_arr(), []);
}

#[test]
fn can_contract_to_same() {
    let p = PointND::from([0, 1, 2, 3]).contract(4);

    assert_eq!(p.dims(), 4);
    assert_eq!(p.into_arr(), [0, 1, 2, 3]);
}

#[test]
fn can_get_slice_by_range_index() {
    let p = PointND::from([0, 1, 2, 3, 4]);
    let slice = &p[0..3];
    assert_eq!(slice, [0, 1, 2]);
}

#[test]
#[should_panic]
fn cannot_get_out_of_bounds_index() {
    let p = PointND::from([0, 1, 2]);
    let _x = p[p.dims() + 1];
}

#[test]
fn getter_for_1d_points_work() {
    let arr = [0];
    let p = PointND::from(arr);
    assert_eq!(*p.x(), arr[0]);
}

#[test]
fn getters_for_2d_points_work() {
    let arr = [0, 1];
    let p = PointND::from(arr);

    assert_eq!(*p.x(), arr[0]);
    assert_eq!(*p.y(), arr[1]);
}

#[test]
fn getters_for_3d_points_work() {
    let arr = [0, 1, 2];
    let p = PointND::from(arr);

    assert_eq!(*p.x(), arr[0]);
    assert_eq!(*p.y(), arr[1]);
    assert_eq!(*p.z(), arr[2]);
}

#[test]
fn getters_for_4d_points_work() {
    let arr = [0, 1, 2, 3];
    let p = PointND::from(arr);

    assert_eq!(*p.x(), arr[0]);
    assert_eq!(*p.y(), arr[1]);
    assert_eq!(*p.z(), arr[2]);
    assert_eq!(*p.w(), arr[3]);
}

#[test]
fn can_set_value_by_index() {
    let mut p = PointND::from([0, 1, 2]);

    let new_val = 9999;
    p[1] = new_val;

    assert_eq!(p.into_arr(), [0, new_val, 2]);
}

#[test]
fn setter_for_1d_points_work() {
    let old_vals = [0];
    let new_val = 4;
    let mut p = PointND::from(old_vals);

    p.set_x(new_val);
    assert_eq!(*p.x(), new_val);
}

#[test]
fn setters_for_2d_points_work() {
    let old_vals = [0, 1];
    let new_vals = [4, 5];
    let mut p = PointND::from(old_vals);

    p.set_x(new_vals[0]);
    p.set_y(new_vals[1]);

    assert_eq!(*p.x(), new_vals[0]);
    assert_eq!(*p.y(), new_vals[1]);
}

#[test]
fn setters_for_3d_points_work() {
    let old_vals = [0, 1, 2];
    let new_vals = [4, 5, 6];
    let mut p = PointND::from(old_vals);

    p.set_x(new_vals[0]);
    p.set_y(new_vals[1]);
    p.set_z(new_vals[2]);

    assert_eq!(*p.x(), new_vals[0]);
    assert_eq!(*p.y(), new_vals[1]);
    assert_eq!(*p.z(), new_vals[2]);
}

#[test]
fn setters_for_4d_points_work() {
    let old_vals = [0, 1, 2, 3];
    let new_vals = [4, 5, 6, 7];
    let mut p = PointND::from(old_vals);

    p.set_x(new_vals[0]);
    p.set_y(new_vals[1]);
    p.set_z(new_vals[2]);
    p.set_w(new_vals[3]);

    assert_eq!(*p.x(), new_vals[0]);
    assert_eq!(*p.y(), new_vals[1]);
    assert_eq!(*p.z(), new_vals[2]);
    assert_eq!(*p.w(), new_vals[3]);
}

#[test]
fn can_shift_1d_points() {
    let mut p = PointND::from([0.1]);
    p.shift_x(1.23);

    assert_eq!(p.into_arr(), [1.33]);
}

#[test]
fn can_shift_2d_points() {
    let mut p = PointND::from([12, 345]);
    p.shift_x(-22);
    p.shift_y(-345);

    assert_eq!(p.into_arr(), [-10, 0]);
}

#[test]
fn can_shift_3d_points() {
    let mut p = PointND::from([42.4, 2.85, 75.01]);
    p.shift_x(40.6);
    p.shift_y(-2.85);
    p.shift_z(24.99);

    assert_eq!(p.into_arr(), [83.0, 0.0, 100.0]);
}

#[test]
fn can_shift_4d_points() {
    let mut p = PointND::from([0, 1, 2, 3]);
    p.shift_x(10);
    p.shift_y(-2);
    p.shift_z(5);
    p.shift_w(0);

    assert_eq!(p.into_arr(), [10, -1, 7, 3]);
}

#[test]
fn from_array_works() {
    let p = PointND::from([0, 1, 2]);
    assert_eq!(p.dims(), 3);

    let p: PointND<i32, 4> = [22; 4].into();
    let p = p.apply(|i| i / 2);
    assert_eq!(p.into_arr(), [11; 4]);
}

#[test]
fn into_array_works() {
    let arr: [i32; 3] = PointND::fill(10).into();
    assert_eq!(arr, [10, 10, 10]);
}

#[test]
fn can_try_from_array() {
    let arr = [0, 1, 2, 3, 4, 5];
    let p: Result<PointND<_, 6>, _> = arr.try_into();
    assert!(p.is_ok());
}

#[test]
#[allow(unused_variables)]
fn can_try_from_slice_of_same_len() {
    let slice = &[0, 1, 2, 3, 4][..];
    let p: Result<PointND<_, 5>, _> = slice.try_into();
    assert!(p.is_ok());
}

#[test]
fn cannot_try_from_slice_of_different_length() {
    let slice = &[0, 1, 2, 3, 4][..];
    let p: Result<PointND<_, 10921>, _> = slice.try_into();
    assert!(p.is_err());
}

#[test]
fn can_eq() {
    let arr = [0, -1, 2, -3];
    let left = PointND::from(arr);
    let right = PointND::from(arr);

    assert_eq!(left, right);
}

#[test]
fn can_ne() {
    let left = PointND::from([0, -1, 2, -3]);
    let right = PointND::from([0, 1, 2, 3]);

    assert_ne!(left, right);
}
