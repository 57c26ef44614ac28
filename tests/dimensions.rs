use nine_slice::{Dimensions, Rect, ValidDimensions};

#[test]
fn dims_int_test() {
    let mut slice = Dimensions { outer: [0..10, 0..100].into(), inner: [1..8, 10..80].into() };

    assert_eq!(slice.validate().unwrap().borders(), Rect { left: 1, right: 2, top: 10, bottom: 20 });
    assert_eq!(*slice.validate().unwrap().outer(), Rect::from([0..10, 0..100]));
    assert_eq!(*slice.validate().unwrap().inner(), Rect::from([1..8, 10..80]));

    assert!(slice.validate().is_ok());
    std::mem::swap(&mut slice.outer, &mut slice.inner);
    assert!(slice.validate().is_err());
    std::mem::swap(&mut slice.outer, &mut slice.inner);
    assert!(slice.validate().is_ok());
}

fn sample() -> Dimensions<i32> {
    Dimensions {
        outer: Rect { left: 0, right: 10, top: 0, bottom: 100 },
        inner: Rect { left: 1, right: 8, top: 10, bottom: 80 },
    }
}

#[test]
fn dims_validate_names_each_inequality() {
    let cases: [(fn(&mut Dimensions<i32>), &str); 6] = [
        (|d| d.outer.left = 2, "Expected outer.left ≤ inner.left"),
        (|d| d.inner.right = 0, "Expected inner.left ≤ inner.right"),
        (|d| d.outer.right = 7, "Expected inner.right ≤ outer.right"),
        (|d| d.outer.top = 11, "Expected outer.top ≤ inner.top"),
        (|d| d.inner.bottom = 9, "Expected inner.top ≤ inner.bottom"),
        (|d| d.outer.bottom = 79, "Expected inner.bottom ≤ outer.bottom"),
    ];
    for (change, message) in cases {
        let mut d = sample();
        change(&mut d);
        assert_eq!(d.validate().unwrap_err().message(), message);
    }
}

#[test]
fn dims_degenerate_is_valid() {
    let r = Rect { left: 3, right: 3, top: 4, bottom: 4 };
    let d = Dimensions { outer: r, inner: r };
    let v = d.validate().unwrap();
    assert_eq!(v.borders(), Rect { left: 0, right: 0, top: 0, bottom: 0 });
    let swapped = Dimensions { outer: d.inner, inner: d.outer };
    assert!(swapped.validate().is_ok());
}

#[test]
fn dims_round_trip() {
    let v = sample().validate().unwrap();
    let raw: Dimensions<i32> = Dimensions::from(v);
    assert_eq!(raw, sample());
    assert_eq!(raw.validate().unwrap(), v);
}

#[test]
fn dims_with_outer() {
    let v = sample().validate().unwrap();
    let outer = Rect { left: 100, right: 120, top: 0, bottom: 40 }.validate().unwrap();
    let moved = v.with_outer(outer).unwrap();
    assert_eq!(*moved.outer(), Rect { left: 100, right: 120, top: 0, bottom: 40 });
    assert_eq!(*moved.inner(), Rect { left: 101, right: 118, top: 10, bottom: 20 });
    assert_eq!(moved.borders(), v.borders());

    let narrow = Rect { left: 0, right: 2, top: 0, bottom: 100 }.validate().unwrap();
    assert_eq!(
        v.with_outer(narrow).unwrap_err().message(),
        "Resulting dimensions would have a negative center width"
    );
    let short = Rect { left: 0, right: 10, top: 0, bottom: 29 }.validate().unwrap();
    assert_eq!(
        v.with_outer(short).unwrap_err().message(),
        "Resulting dimensions would have a negative center height"
    );
    let exact = Rect { left: 0, right: 3, top: 0, bottom: 30 }.validate().unwrap();
    let tight = v.with_outer(exact).unwrap();
    assert_eq!(*tight.inner(), Rect { left: 1, right: 1, top: 10, bottom: 10 });
}

#[test]
fn dims_with_inner() {
    let v = sample().validate().unwrap();
    let inner = Rect { left: 50, right: 60, top: 50, bottom: 55 }.validate().unwrap();
    let moved = v.with_inner(inner);
    assert_eq!(*moved.inner(), Rect { left: 50, right: 60, top: 50, bottom: 55 });
    assert_eq!(*moved.outer(), Rect { left: 49, right: 62, top: 40, bottom: 75 });
}

#[test]
fn dims_with_outer_then_with_inner_restores() {
    let v: ValidDimensions<i32> = sample().validate().unwrap();
    let outer = Rect::xywh(-20, 7, 33, 44).validate().unwrap();
    let moved = v.with_outer(outer).unwrap();
    let back = moved.with_inner(v.inner());
    assert_eq!(back, v);
    assert_eq!(back.dimensions(), sample());
}

#[test]
fn dims_swap_breaks_nesting() {
    let d = sample();
    let swapped = Dimensions { outer: d.inner, inner: d.outer };
    assert!(swapped.validate().is_err());
}

#[test]
fn dims_borders_non_negative() {
    let d = Dimensions {
        outer: Rect { left: -5i64, right: 5, top: -5, bottom: 5 },
        inner: Rect { left: -5, right: 0, top: 2, bottom: 5 },
    };
    let b = d.validate().unwrap().borders();
    assert_eq!(b, Rect { left: 0, right: 5, top: 7, bottom: 0 });
}

