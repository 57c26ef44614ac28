use nine_slice::{Dimensions, Layout, Rect, Scale, Style};

fn scenario(style: Style) -> Layout<Dimensions<i32>, Dimensions<i32>> {
    Layout {
        src: Dimensions { outer: Rect::xywh(0, 0, 3, 3), inner: Rect::xywh(1, 1, 1, 1) },
        dst: Dimensions { outer: Rect::xywh(0, 0, 5, 4), inner: Rect::xywh(1, 1, 3, 2) },
        style,
    }
}

#[test]
fn layout_basic_z_test() {
    let layout = scenario(Style::default());
    let rects = layout.validate().unwrap().collect_dst_src_vec().unwrap();

    assert_eq!(*rects[0].0, Rect::xywh(0, 0, 1, 1));
    assert_eq!(*rects[1].0, Rect::xywh(1, 0, 3, 1));
    assert_eq!(*rects[2].0, Rect::xywh(4, 0, 1, 1));
    assert_eq!(*rects[3].0, Rect::xywh(0, 1, 1, 2));
    assert_eq!(*rects[4].0, Rect::xywh(1, 1, 3, 2));
    assert_eq!(*rects[5].0, Rect::xywh(4, 1, 1, 2));
    assert_eq!(*rects[6].0, Rect::xywh(0, 3, 1, 1));
    assert_eq!(*rects[7].0, Rect::xywh(1, 3, 3, 1));
    assert_eq!(*rects[8].0, Rect::xywh(4, 3, 1, 1));

    assert_eq!(*rects[0].1, Rect::xywh(0, 0, 1, 1));
    assert_eq!(*rects[1].1, Rect::xywh(1, 0, 1, 1));
    assert_eq!(*rects[2].1, Rect::xywh(2, 0, 1, 1));
    assert_eq!(*rects[3].1, Rect::xywh(0, 1, 1, 1));
    assert_eq!(*rects[4].1, Rect::xywh(1, 1, 1, 1));
    assert_eq!(*rects[5].1, Rect::xywh(2, 1, 1, 1));
    assert_eq!(*rects[6].1, Rect::xywh(0, 2, 1, 1));
    assert_eq!(*rects[7].1, Rect::xywh(1, 2, 1, 1));
    assert_eq!(*rects[8].1, Rect::xywh(2, 2, 1, 1));
}

#[test]
fn layout_each_appends_after_existing_pairs() {
    let layout = scenario(Style::new(Scale::Stretch)).validate().unwrap();
    let mut out = Vec::new();
    layout.each_dst_src(&mut out).unwrap();
    layout.each_dst_src(&mut out).unwrap();
    assert_eq!(out.len(), 18);
    assert_eq!(out[9], out[0]);
    assert_eq!(*out[13].0, Rect::xywh(1, 1, 3, 2));
    assert_eq!(*out[13].1, Rect::xywh(1, 1, 1, 1));
}

#[test]
fn layout_non_stretch_fails_without_pairs() {
    for scale in [Scale::Repeat, Scale::Round, Scale::Space] {
        let styles = [
            Style::new(scale),
            Style::new_horizontal_vertical(scale, Scale::Stretch),
            Style::new_horizontal_vertical(Scale::Stretch, scale),
        ];
        for style in styles {
            let layout = scenario(style).validate().unwrap();
            let mut out = Vec::new();
            let e = layout.each_dst_src(&mut out).unwrap_err();
            assert_eq!(e.message(), "Non-default scale not yet implemented");
            assert!(out.is_empty());
            assert!(layout.collect_dst_src_vec().is_err());
        }
    }
    let mut style = Style::default();
    style.border.bottom = Scale::Round;
    let layout = scenario(style).validate().unwrap();
    assert!(layout.collect_dst_src_vec().is_err());
}

#[test]
fn layout_validate_reports_dst_first() {
    let mut layout = scenario(Style::default());
    layout.dst.inner.left = 9;
    layout.src.inner.top = 9;
    assert_eq!(layout.validate().err().unwrap().message(), "Expected inner.left ≤ inner.right");
    layout.dst.inner.left = 1;
    assert_eq!(layout.validate().err().unwrap().message(), "Expected inner.top ≤ inner.bottom");
    layout.src.inner.top = 1;
    assert!(layout.validate().is_ok());
}

#[test]
fn layout_degenerate_cells() {
    let r = Rect::xywh(2, 2, 0, 0);
    let layout = Layout {
        dst: Dimensions { outer: r, inner: r },
        src: Dimensions { outer: Rect::xywh(0, 0, 3, 3), inner: Rect::xywh(1, 1, 1, 1) },
        style: Style::default(),
    };
    let rects = layout.validate().unwrap().collect_dst_src_vec().unwrap();
    assert_eq!(rects.len(), 9);
    for (d, _) in &rects {
        assert_eq!(d.size(), [0, 0]);
    }
}

#[test]
fn style_constructors() {
    let s = Style::new_horizontal_vertical(Scale::Repeat, Scale::Space);
    assert_eq!(s.border, Rect { left: Scale::Space, right: Scale::Space, top: Scale::Repeat, bottom: Scale::Repeat });
    assert_eq!(s.center.horizontal, Scale::Repeat);
    assert_eq!(s.center.vertical, Scale::Space);
    assert_eq!(Style::new(Scale::Round), Style::new_horizontal_vertical(Scale::Round, Scale::Round));
    assert_eq!(Style::default(), Style::new(Scale::Stretch));
    assert_eq!(Scale::default(), Scale::Stretch);
    assert!(Scale::Stretch.is_stretch());
    assert!(!Scale::Space.is_stretch());
}
