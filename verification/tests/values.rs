use step_tween::ani_utils::{add_val, lerp_val, sub_color, sub_val};
use step_tween::fixed::{clamp, cycles, lerp, scale, CYCLE, ENDLESS, ONE};
use step_tween::values::{Color, Quat, Val, Vec2, Vec3};

const PX: i64 = 1_000_000;

#[test]
fn add_val_combines_same_unit() {
    assert_eq!(add_val(Val::Px(3 * PX), Val::Px(4 * PX)), Val::Px(7 * PX));
    assert_eq!(add_val(Val::Percent(10), Val::Percent(-25)), Val::Percent(-15));
    assert_eq!(add_val(Val::Vw(1), Val::Vw(2)), Val::Vw(3));
    assert_eq!(add_val(Val::Vh(1), Val::Vh(2)), Val::Vh(3));
    assert_eq!(add_val(Val::VMin(1), Val::VMin(2)), Val::VMin(3));
    assert_eq!(add_val(Val::VMax(1), Val::VMax(2)), Val::VMax(3));
}

#[test]
fn sub_val_combines_same_unit() {
    assert_eq!(sub_val(Val::Px(3 * PX), Val::Px(4 * PX)), Val::Px(-PX));
    assert_eq!(sub_val(Val::Percent(10), Val::Percent(-25)), Val::Percent(35));
    assert_eq!(sub_val(Val::Vw(5), Val::Vw(2)), Val::Vw(3));
    assert_eq!(sub_val(Val::Vh(5), Val::Vh(2)), Val::Vh(3));
    assert_eq!(sub_val(Val::VMin(5), Val::VMin(2)), Val::VMin(3));
    assert_eq!(sub_val(Val::VMax(5), Val::VMax(2)), Val::VMax(3));
}

#[test]
fn add_then_sub_is_identity_on_same_unit() {
    let samples = [0, 1, -1, 7 * PX, -120 * PX, i64::MAX, i64::MIN];
    for a in samples {
        for b in samples {
            assert_eq!(sub_val(add_val(Val::Px(a), Val::Px(b)), Val::Px(b)), Val::Px(a));
            assert_eq!(add_val(sub_val(Val::Vh(a), Val::Vh(b)), Val::Vh(b)), Val::Vh(a));
        }
    }
}

#[test]
fn mismatched_units_return_left_operand() {
    let a = Val::Px(5 * PX);
    for b in [Val::Auto, Val::Percent(1), Val::Vw(1), Val::Vh(1), Val::VMin(1), Val::VMax(1)] {
        assert_eq!(add_val(a, b), a);
        assert_eq!(sub_val(a, b), a);
        assert_eq!(lerp_val(a, b, ONE), a);
    }
    assert_eq!(add_val(Val::Auto, Val::Px(1)), Val::Auto);
    assert_eq!(sub_val(Val::Auto, Val::Px(1)), Val::Auto);
    assert_eq!(add_val(Val::Auto, Val::Auto), Val::Auto);
    assert_eq!(sub_val(Val::Auto, Val::Auto), Val::Auto);
    assert_eq!(lerp_val(Val::Auto, Val::Px(9), ONE / 2), Val::Auto);
}

#[test]
fn sums_wrap_at_the_ends_of_the_range() {
    assert_eq!(add_val(Val::Px(i64::MAX), Val::Px(1)), Val::Px(i64::MIN));
    assert_eq!(sub_val(Val::Px(i64::MIN), Val::Px(1)), Val::Px(i64::MAX));
}

#[test]
fn lerp_val_interpolates_same_unit() {
    assert_eq!(lerp_val(Val::Px(0), Val::Px(120 * PX), ONE / 2), Val::Px(60 * PX));
    assert_eq!(lerp_val(Val::Percent(10 * PX), Val::Percent(-10 * PX), ONE / 4), Val::Percent(7_500_000));
    assert_eq!(lerp_val(Val::Vw(PX), Val::Vw(PX), 0), Val::Vw(PX));
    assert_eq!(lerp_val(Val::Vh(PX), Val::Vh(PX), ONE), Val::Vh(2 * PX));
    assert_eq!(lerp_val(Val::VMin(PX), Val::VMin(PX), 2 * ONE), Val::VMin(3 * PX));
    assert_eq!(lerp_val(Val::VMax(PX), Val::VMax(PX), -ONE), Val::VMax(0));
}

#[test]
fn sub_color_subtracts_every_channel() {
    let a = Color::rgba(10, 20, 30, 40);
    let b = Color::rgba(1, 2, 3, 4);
    assert_eq!(sub_color(a, b), Color::rgba(9, 18, 27, 36));
    assert_eq!(sub_color(a, Color::none()), a);
    assert_eq!(sub_color(a.add(b), b), a);
    assert_eq!(sub_color(Color::rgba(i64::MIN, 0, 0, 0), Color::rgba(1, 0, 0, 0)).r, i64::MAX);
}

#[test]
fn color_none_is_all_zero() {
    assert_eq!(Color::none(), Color { r: 0, g: 0, b: 0, a: 0 });
}

#[test]
fn color_add_and_scale() {
    let a = Color::rgba(PX, PX / 2, 0, PX);
    assert_eq!(a.add(Color::rgba(1, 2, 3, 4)), Color::rgba(PX + 1, PX / 2 + 2, 3, PX + 4));
    assert_eq!(a.scale(ONE / 2), Color::rgba(PX / 2, PX / 4, 0, PX / 2));
    assert_eq!(a.scale(0), Color::none());
    assert_eq!(a.scale(ONE), a);
}

#[test]
fn vec3_algebra() {
    let a = Vec3::new(1, 2, 3);
    let b = Vec3::new(10, 20, 30);
    assert_eq!(a.add(b), Vec3::new(11, 22, 33));
    assert_eq!(a.sub(b), Vec3::new(-9, -18, -27));
    assert_eq!(a.add(b).sub(b), a);
    assert_eq!(Vec3::new(2 * PX, -4 * PX, 0).scale(ONE / 2), Vec3::new(PX, -2 * PX, 0));
    assert_eq!(Vec3::zero(), Vec3 { x: 0, y: 0, z: 0 });
    assert_eq!(Vec2::new(3, 4), Vec2 { x: 3, y: 4 });
}

#[test]
fn quat_algebra() {
    let a = Quat::from_xyzw(1, 2, 3, 4);
    let b = Quat::from_xyzw(10, 20, 30, 40);
    assert_eq!(a.add(b), Quat::from_xyzw(11, 22, 33, 44));
    assert_eq!(a.sub(b), Quat::from_xyzw(-9, -18, -27, -36));
    assert_eq!(a.sub(b).add(b), a);
    assert_eq!(Quat::zero(), Quat { x: 0, y: 0, z: 0, w: 0 });
}

#[test]
fn scale_multiplies_in_millionths() {
    assert_eq!(scale(120 * PX, ONE / 2), 60 * PX);
    assert_eq!(scale(120 * PX, ONE), 120 * PX);
    assert_eq!(scale(120 * PX, 0), 0);
    assert_eq!(scale(0, 123_456), 0);
    assert_eq!(scale(3 * PX, 2 * ONE), 6 * PX);
    assert_eq!(scale(-3 * PX, ONE / 3), -999_999);
    assert_eq!(scale(3 * PX, -ONE / 3), -999_999);
    assert_eq!(scale(-3 * PX, -ONE / 3), 999_999);
}

#[test]
fn scale_rounds_toward_zero() {
    assert_eq!(scale(1, ONE / 2), 0);
    assert_eq!(scale(-1, ONE / 2), 0);
    assert_eq!(scale(3, ONE / 2), 1);
    assert_eq!(scale(-3, ONE / 2), -1);
    assert_eq!(scale(1_999_999, 1), 1);
    assert_eq!(scale(-1_999_999, 1), -1);
}

#[test]
fn scale_stays_within_range() {
    assert_eq!(scale(i64::MAX, 2 * ONE), i64::MAX);
    assert_eq!(scale(i64::MIN, 2 * ONE), i64::MIN);
    assert_eq!(scale(i64::MAX, -2 * ONE), i64::MIN);
    assert_eq!(scale(i64::MIN, -ONE), i64::MAX);
    assert_eq!(scale(i64::MIN, ONE), i64::MIN);
    assert_eq!(scale(i64::MAX, i64::MAX), i64::MAX);
    assert_eq!(scale(i64::MIN, i64::MIN), i64::MAX);
}

#[test]
fn clamp_brings_into_range() {
    assert_eq!(clamp(0), 0);
    assert_eq!(clamp(-5), -5);
    assert_eq!(clamp(i64::MAX as i128 + 1), i64::MAX);
    assert_eq!(clamp(i64::MIN as i128 - 1), i64::MIN);
    assert_eq!(clamp(i128::MAX), i64::MAX);
    assert_eq!(clamp(i128::MIN), i64::MIN);
}

#[test]
fn lerp_adds_scaled_delta() {
    assert_eq!(lerp(0, 120 * PX, ONE / 2), 60 * PX);
    assert_eq!(lerp(100 * PX, 50 * PX, 0), 100 * PX);
    assert_eq!(lerp(100 * PX, 50 * PX, ONE), 150 * PX);
    assert_eq!(lerp(100 * PX, -50 * PX, ONE / 2), 75 * PX);
    assert_eq!(lerp(i64::MAX, 1, ONE), i64::MIN);
}

#[test]
fn cycles_divides_elapsed_by_cycle_length() {
    assert_eq!(cycles(500_000_000, 1_000_000_000), CYCLE / 2);
    assert_eq!(cycles(1_000_000_000, 1_000_000_000), CYCLE);
    assert_eq!(cycles(3_000_000_000, 1_000_000_000), 3 * CYCLE);
    assert_eq!(cycles(1_500_000_000, 1_000_000_000), 1_500_000);
    assert_eq!(cycles(0, 1_000_000_000), 0);
    assert_eq!(cycles(16_666_667, 1_000_000_000), 16_666);
    assert_eq!(cycles(1, 3), 333_333);
}

#[test]
fn cycles_of_zero_length() {
    assert_eq!(cycles(0, 0), 0);
    assert_eq!(cycles(1, 0), ENDLESS);
    assert_eq!(cycles(u64::MAX, 0), ENDLESS);
}

#[test]
fn cycles_stay_within_range() {
    assert_eq!(cycles(u64::MAX, 1), ENDLESS);
    assert_eq!(cycles(u64::MAX, 1_000_000), u64::MAX);
    assert_eq!(cycles(u64::MAX, 999_999), ENDLESS);
    assert_eq!(cycles(u64::MAX, u64::MAX), CYCLE);
}
