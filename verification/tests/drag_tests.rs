use imgui::context::ImGui;
use imgui::drag::{
    DragFloat, DragFloat2, DragFloat3, DragFloat4, DragFloatRange2, DragInt, DragInt2, DragInt3,
    DragInt4, DragIntRange2,
};

fn float_bits(x: f32) -> u32 {
    x.to_bits()
}

#[test]
fn drag_float_defaults() {
    let mut ctx = ImGui::init();
    let ui = ctx.frame((1, 1), (1, 1), 0);
    let mut v = float_bits(2.5);
    let d = DragFloat::new(&ui, "x", &mut v).build();
    assert_eq!(d.label, "x");
    assert_eq!(f32::from_bits(*d.value), 2.5);
    assert_eq!(f32::from_bits(d.speed), 1.0);
    assert_eq!(f32::from_bits(d.min), 0.0);
    assert_eq!(f32::from_bits(d.max), 0.0);
    assert_eq!(d.display_format, "%.3f");
    assert_eq!(f32::from_bits(d.power), 1.0);
}

#[test]
fn drag_float_setters() {
    let mut ctx = ImGui::init();
    let ui = ctx.frame((1, 1), (1, 1), 0);
    let mut v = float_bits(0.0);
    let d = DragFloat::new(&ui, "x", &mut v)
        .display_format("%.1f")
        .min(float_bits(-5.0))
        .max(float_bits(5.0))
        .speed(float_bits(0.1))
        .power(float_bits(2.0))
        .build();
    assert_eq!(d.display_format, "%.1f");
    assert_eq!(f32::from_bits(d.min), -5.0);
    assert_eq!(f32::from_bits(d.max), 5.0);
    assert_eq!(f32::from_bits(d.speed), 0.1);
    assert_eq!(f32::from_bits(d.power), 2.0);
    assert_eq!(d.label, "x");
    *d.value = float_bits(4.0);
    assert_eq!(f32::from_bits(v), 4.0);
}

#[test]
fn drag_float_setters_touch_one_field_each() {
    let mut ctx = ImGui::init();
    let ui = ctx.frame((1, 1), (1, 1), 0);
    let mut v = float_bits(1.5);
    let d = DragFloat::new(&ui, "x", &mut v).min(float_bits(-5.0)).build();
    assert_eq!(
        (d.label, *d.value, d.speed, d.min, d.max, d.display_format, d.power),
        ("x", float_bits(1.5), float_bits(1.0), float_bits(-5.0), float_bits(0.0), "%.3f", float_bits(1.0))
    );
    let d = DragFloat::new(&ui, "x", &mut v).max(float_bits(7.0)).build();
    assert_eq!(
        (d.label, *d.value, d.speed, d.min, d.max, d.display_format, d.power),
        ("x", float_bits(1.5), float_bits(1.0), float_bits(0.0), float_bits(7.0), "%.3f", float_bits(1.0))
    );
    let d = DragFloat::new(&ui, "x", &mut v).speed(float_bits(3.0)).build();
    assert_eq!(
        (d.label, *d.value, d.speed, d.min, d.max, d.display_format, d.power),
        ("x", float_bits(1.5), float_bits(3.0), float_bits(0.0), float_bits(0.0), "%.3f", float_bits(1.0))
    );
    let d = DragFloat::new(&ui, "x", &mut v).power(float_bits(2.0)).build();
    assert_eq!(
        (d.label, *d.value, d.speed, d.min, d.max, d.display_format, d.power),
        ("x", float_bits(1.5), float_bits(1.0), float_bits(0.0), float_bits(0.0), "%.3f", float_bits(2.0))
    );
    let d = DragFloat::new(&ui, "x", &mut v).display_format("%f").build();
    assert_eq!(
        (d.label, *d.value, d.speed, d.min, d.max, d.display_format, d.power),
        ("x", float_bits(1.5), float_bits(1.0), float_bits(0.0), float_bits(0.0), "%f", float_bits(1.0))
    );
}

#[test]
fn drag_float_n_defaults_and_setters() {
    let mut ctx = ImGui::init();
    let ui = ctx.frame((1, 1), (1, 1), 0);
    let mut v2 = [float_bits(1.0), float_bits(2.0)];
    let mut v3 = [float_bits(1.0), float_bits(2.0), float_bits(3.0)];
    let mut v4 = [float_bits(1.0), float_bits(2.0), float_bits(3.0), float_bits(4.0)];
    let d2 = DragFloat2::new(&ui, "a", &mut v2).build();
    assert_eq!(d2.label, "a");
    assert_eq!(d2.value.len(), 2);
    assert_eq!(f32::from_bits(d2.speed), 1.0);
    assert_eq!((f32::from_bits(d2.min), f32::from_bits(d2.max)), (0.0, 0.0));
    assert_eq!(d2.display_format, "%.3f");
    assert_eq!(f32::from_bits(d2.power), 1.0);
    let d3 = DragFloat3::new(&ui, "b", &mut v3).min(float_bits(1.0)).max(float_bits(9.0)).build();
    assert_eq!(d3.value.len(), 3);
    assert_eq!((f32::from_bits(d3.min), f32::from_bits(d3.max)), (1.0, 9.0));
    assert_eq!(f32::from_bits(d3.speed), 1.0);
    let d4 = DragFloat4::new(&ui, "c", &mut v4)
        .speed(float_bits(3.0))
        .power(float_bits(0.5))
        .display_format("%f")
        .build();
    assert_eq!(f32::from_bits(d4.value[3]), 4.0);
    assert_eq!(f32::from_bits(d4.speed), 3.0);
    assert_eq!(f32::from_bits(d4.power), 0.5);
    assert_eq!(d4.display_format, "%f");
    d4.value[0] = float_bits(8.0);
    assert_eq!(f32::from_bits(v4[0]), 8.0);
}

#[test]
fn drag_float_range_defaults_and_setters() {
    let mut ctx = ImGui::init();
    let ui = ctx.frame((1, 1), (1, 1), 0);
    let mut lo = float_bits(1.0);
    let mut hi = float_bits(2.0);
    {
        let d = DragFloatRange2::new(&ui, "r", &mut lo, &mut hi).build();
        assert_eq!(d.label, "r");
        assert_eq!(f32::from_bits(*d.current_min), 1.0);
        assert_eq!(f32::from_bits(*d.current_max), 2.0);
        assert_eq!(f32::from_bits(d.speed), 1.0);
        assert_eq!(f32::from_bits(d.min), 0.0);
        assert_eq!(f32::from_bits(d.max), 0.0);
        assert_eq!(d.display_format, "%.3f");
        assert_eq!(d.display_format_max, None);
        assert_eq!(f32::from_bits(d.power), 1.0);
    }
    {
        let d = DragFloatRange2::new(&ui, "r", &mut lo, &mut hi)
            .display_format_max(Some("%.2f"))
            .display_format("%.4f")
            .min(float_bits(-1.0))
            .max(float_bits(1.0))
            .speed(float_bits(0.5))
            .power(float_bits(3.0))
            .build();
        assert_eq!(d.display_format_max, Some("%.2f"));
        assert_eq!(d.display_format, "%.4f");
        assert_eq!(f32::from_bits(d.min), -1.0);
        assert_eq!(f32::from_bits(d.max), 1.0);
        assert_eq!(f32::from_bits(d.speed), 0.5);
        assert_eq!(f32::from_bits(d.power), 3.0);
        *d.current_min = float_bits(0.25);
        *d.current_max = float_bits(0.75);
    }
    assert_eq!((f32::from_bits(lo), f32::from_bits(hi)), (0.25, 0.75));
    let d = DragFloatRange2::new(&ui, "r", &mut lo, &mut hi)
        .display_format_max(Some("%.2f"))
        .display_format_max(None)
        .build();
    assert_eq!(d.display_format_max, None);
}

#[test]
fn drag_int_defaults_and_setters() {
    let mut ctx = ImGui::init();
    let ui = ctx.frame((1, 1), (1, 1), 0);
    let mut v = 7;
    {
        let d = DragInt::new(&ui, "i", &mut v).build();
        assert_eq!(d.label, "i");
        assert_eq!(*d.value, 7);
        assert_eq!(f32::from_bits(d.speed), 1.0);
        assert_eq!((d.min, d.max), (0, 0));
        assert_eq!(d.display_format, "%.0f");
    }
    {
        let d = DragInt::new(&ui, "i", &mut v)
            .min(-3)
            .max(40)
            .speed(float_bits(2.0))
            .display_format("%d")
            .build();
        assert_eq!((d.min, d.max), (-3, 40));
        assert_eq!(f32::from_bits(d.speed), 2.0);
        assert_eq!(d.display_format, "%d");
        assert_eq!(d.label, "i");
        *d.value = 9;
    }
    assert_eq!(v, 9);
}

#[test]
fn drag_int_n_defaults_and_setters() {
    let mut ctx = ImGui::init();
    let ui = ctx.frame((1, 1), (1, 1), 0);
    let mut v2 = [1, 2];
    let mut v3 = [1, 2, 3];
    let mut v4 = [1, 2, 3, 4];
    let d2 = DragInt2::new(&ui, "a", &mut v2).build();
    assert_eq!(d2.label, "a");
    assert_eq!(*d2.value, [1, 2]);
    assert_eq!(d2.display_format, "%.0f");
    assert_eq!(f32::from_bits(d2.speed), 1.0);
    assert_eq!((d2.min, d2.max), (0, 0));
    let d3 = DragInt3::new(&ui, "b", &mut v3).min(i32::MIN).max(i32::MAX).build();
    assert_eq!((d3.min, d3.max), (i32::MIN, i32::MAX));
    assert_eq!(*d3.value, [1, 2, 3]);
    let d4 = DragInt4::new(&ui, "c", &mut v4).speed(float_bits(4.0)).display_format("%i").build();
    assert_eq!(f32::from_bits(d4.speed), 4.0);
    assert_eq!(d4.display_format, "%i");
    d4.value[2] = 30;
    assert_eq!(v4, [1, 2, 30, 4]);
}

#[test]
fn drag_int_range_defaults_and_setters() {
    let mut ctx = ImGui::init();
    let ui = ctx.frame((1, 1), (1, 1), 0);
    let mut lo = 1;
    let mut hi = 2;
    {
        let d = DragIntRange2::new(&ui, "r", &mut lo, &mut hi).build();
        assert_eq!(d.label, "r");
        assert_eq!((*d.current_min, *d.current_max), (1, 2));
        assert_eq!(f32::from_bits(d.speed), 1.0);
        assert_eq!((d.min, d.max), (0, 0));
        assert_eq!(d.display_format, "%.0f");
        assert_eq!(d.display_format_max, None);
    }
    {
        let d = DragIntRange2::new(&ui, "r", &mut lo, &mut hi)
            .display_format_max(Some("max %d"))
            .display_format("min %d")
            .min(-10)
            .max(10)
            .speed(float_bits(0.25))
            .build();
        assert_eq!(d.display_format_max, Some("max %d"));
        assert_eq!(d.display_format, "min %d");
        assert_eq!((d.min, d.max), (-10, 10));
        assert_eq!(f32::from_bits(d.speed), 0.25);
        *d.current_min = -4;
        *d.current_max = 4;
    }
    assert_eq!((lo, hi), (-4, 4));
}
