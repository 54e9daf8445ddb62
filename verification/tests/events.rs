use osb::event::{
    Additive, Color, Event, Fade, HFlip, Move, MoveX, MoveY, Rotate, Scale, ScaleVec, VFlip,
};
use osb::utils::{Number, Vec2};
use osb::{utils, Easing};

/// The number that a script shows for `value`.
fn float(value: f32) -> Number {
    Number::Float(value.to_string())
}

#[test]
fn additive_to_line() {
    let additive_event: Additive = (0, 1000).into();
    assert_eq!(additive_event.to_line(), " P,0,0,1000,A");

    let mut additive_event_depth: Additive = (Easing::QuadOut, 0, 1000).into();
    additive_event_depth.set_depth(2);
    assert_eq!(additive_event_depth.to_line(), "   P,4,0,1000,A");
}

#[test]
fn color_to_line_static() {
    let mut color_event_depth: Color = (100, 0, 0, 0).into();
    color_event_depth.set_depth(2);
    assert_eq!(color_event_depth.to_line(), "   C,0,100,,0,0,0");
}

#[test]
fn color_to_line_dynamic() {
    let color_event: Color = (0, 1000, 0, 0, 0, 255, 255, 255).into();
    assert_eq!(color_event.to_line(), " C,0,0,1000,0,0,0,255,255,255");

    let color_event_easing: Color = (Easing::QuadOut, 0, 1000, 0, 0, 0, 255, 255, 255).into();
    assert_eq!(
        color_event_easing.to_line(),
        " C,4,0,1000,0,0,0,255,255,255"
    );
}

#[test]
fn fade_to_line_static() {
    let fade_event: Fade = (0, 1).into();
    assert_eq!(fade_event.to_line(), " F,0,0,,1");

    let mut fade_event_depth: Fade = (0, 1).into();
    fade_event_depth.set_depth(2);
    assert_eq!(fade_event_depth.to_line(), "   F,0,0,,1");
}

#[test]
fn fade_to_line_dynamic() {
    let fade_event: Fade = (0, 1000, 0, 1).into();
    assert_eq!(fade_event.to_line(), " F,0,0,1000,0,1");

    let fade_event_easing: Fade = (Easing::QuadOut, 0, 1000, 0, 1).into();
    assert_eq!(fade_event_easing.to_line(), " F,4,0,1000,0,1");
}

#[test]
fn fade_to_line_dynamic_float() {
    let fade_event: Fade = (0, 1000, float(0.25), float(0.75)).into();
    assert_eq!(fade_event.to_line(), " F,0,0,1000,0.25,0.75");

    let fade_event_easing: Fade = (Easing::QuadOut, 0, 1000, float(0.25), float(0.75)).into();
    assert_eq!(fade_event_easing.to_line(), " F,4,0,1000,0.25,0.75");
}

#[test]
fn hflip_to_line() {
    let hflip_event: HFlip = (0, 1000).into();
    assert_eq!(hflip_event.to_line(), " P,0,0,1000,H");

    let mut hflip_event_depth: HFlip = (Easing::QuadOut, 0, 1000).into();
    hflip_event_depth.set_depth(2);
    assert_eq!(hflip_event_depth.to_line(), "   P,4,0,1000,H");
}

#[test]
fn move_to_line_static() {
    let move_event_neg: Move = (-100, -320, -240).into();
    assert_eq!(move_event_neg.to_line(), " M,0,-100,,-320,-240");

    let mut move_event_depth: Move = (100, 0, 0).into();
    move_event_depth.set_depth(2);
    assert_eq!(move_event_depth.to_line(), "   M,0,100,,0,0");

    let move_event_vec2: Move = (0, 1000, Vec2::new(), Vec2::new()).into();
    assert_eq!(move_event_vec2.to_line(), " M,0,0,1000,0,0,0,0");
}

#[test]
fn move_to_line_dynamic() {
    let move_event: Move = (0, 1000, 0, 0, 320, 240).into();
    assert_eq!(move_event.to_line(), " M,0,0,1000,0,0,320,240");

    let move_event_easing: Move = (Easing::QuadOut, 0, 1000, 0, 0, 320, 240).into();
    assert_eq!(move_event_easing.to_line(), " M,4,0,1000,0,0,320,240");
}

#[test]
fn movex_to_line_static() {
    let movex_event: MoveX = (0, 320).into();
    assert_eq!(movex_event.to_line(), " MX,0,0,,320");

    let mut movex_event_depth: MoveX = (0, 320).into();
    movex_event_depth.set_depth(2);
    assert_eq!(movex_event_depth.to_line(), "   MX,0,0,,320");
}

#[test]
fn movex_to_line_dynamic() {
    let movex_event: MoveX = (0, 1000, 0, 320).into();
    assert_eq!(movex_event.to_line(), " MX,0,0,1000,0,320");

    let movex_event_easing: MoveX = (Easing::QuadOut, 0, 1000, 0, 320).into();
    assert_eq!(movex_event_easing.to_line(), " MX,4,0,1000,0,320");
}

#[test]
fn movex_to_line_dynamic_float() {
    let movex_event: MoveX = (0, 1000, float(0.25), float(320.75)).into();
    assert_eq!(movex_event.to_line(), " MX,0,0,1000,0.25,320.75");

    let movex_event_easing: MoveX =
        (Easing::QuadOut, 0, 1000, float(0.25), float(320.75)).into();
    assert_eq!(movex_event_easing.to_line(), " MX,4,0,1000,0.25,320.75");
}

#[test]
fn movey_to_line_static() {
    let movey_event: MoveY = (0, 240).into();
    assert_eq!(movey_event.to_line(), " MY,0,0,,240");

    let mut movey_event_depth: MoveY = (0, 240).into();
    movey_event_depth.set_depth(2);
    assert_eq!(movey_event_depth.to_line(), "   MY,0,0,,240");
}

#[test]
fn movey_to_line_dynamic() {
    let movey_event: MoveY = (0, 1000, 0, 240).into();
    assert_eq!(movey_event.to_line(), " MY,0,0,1000,0,240");

    let movey_event_easing: MoveY = (Easing::QuadOut, 0, 1000, 0, 240).into();
    assert_eq!(movey_event_easing.to_line(), " MY,4,0,1000,0,240");
}

#[test]
fn movey_to_line_dynamic_float() {
    let movey_event: MoveY = (0, 1000, float(0.25), float(240.75)).into();
    assert_eq!(movey_event.to_line(), " MY,0,0,1000,0.25,240.75");

    let movey_event_easing: MoveY =
        (Easing::QuadOut, 0, 1000, float(0.25), float(240.75)).into();
    assert_eq!(movey_event_easing.to_line(), " MY,4,0,1000,0.25,240.75");
}

#[test]
fn rotate_to_line_static() {
    let rotate_event_neg: Rotate = (0, -1).into();
    assert_eq!(rotate_event_neg.to_line(), " R,0,0,,-1");

    let mut rotate_event_depth: Rotate = (0, 1).into();
    rotate_event_depth.set_depth(2);
    assert_eq!(rotate_event_depth.to_line(), "   R,0,0,,1");
}

#[test]
fn rotate_to_line_dynamic() {
    let rotate_event: Rotate = (0, 1000, 0, 1).into();
    assert_eq!(rotate_event.to_line(), " R,0,0,1000,0,1");

    let rotate_event_easing: Rotate = (Easing::QuadOut, 0, 1000, 0, 1).into();
    assert_eq!(rotate_event_easing.to_line(), " R,4,0,1000,0,1");
}

#[test]
fn rotate_to_line_dynamic_float() {
    let rotate_event: Rotate = (0, 1000, float(0.25), float(0.75)).into();
    assert_eq!(rotate_event.to_line(), " R,0,0,1000,0.25,0.75");

    let rotate_event_easing: Rotate =
        (Easing::QuadOut, 0, 1000, float(0.25), float(0.75)).into();
    assert_eq!(rotate_event_easing.to_line(), " R,4,0,1000,0.25,0.75");
}

#[test]
fn scale_to_line_static() {
    let scale_event_neg: Scale = (0, -1).into();
    assert_eq!(scale_event_neg.to_line(), " S,0,0,,-1");

    let mut scale_event_depth: Scale = (0, 1).into();
    scale_event_depth.set_depth(2);
    assert_eq!(scale_event_depth.to_line(), "   S,0,0,,1");
}

#[test]
fn scale_to_line_dynamic() {
    let scale_event: Scale = (0, 1000, 0, 1).into();
    assert_eq!(scale_event.to_line(), " S,0,0,1000,0,1");

    let scale_event_easing: Scale = (Easing::QuadOut, 0, 1000, 0, 1).into();
    assert_eq!(scale_event_easing.to_line(), " S,4,0,1000,0,1");
}

#[test]
fn scale_to_line_dynamic_float() {
    let scale_event: Scale = (0, 1000, float(0.25), float(0.75)).into();
    assert_eq!(scale_event.to_line(), " S,0,0,1000,0.25,0.75");

    let scale_event_easing: Scale = (Easing::QuadOut, 0, 1000, float(0.25), float(0.75)).into();
    assert_eq!(scale_event_easing.to_line(), " S,4,0,1000,0.25,0.75");
}

#[test]
fn scalevec_to_line_static() {
    let scalevec_event_neg: ScaleVec = (-100, -1, -1).into();
    assert_eq!(scalevec_event_neg.to_line(), " V,0,-100,,-1,-1");

    let mut scalevec_event_depth: ScaleVec = (100, 1, float(0.5)).into();
    scalevec_event_depth.set_depth(2);
    assert_eq!(scalevec_event_depth.to_line(), "   V,0,100,,1,0.5");

    let scalevec_event_vec2: ScaleVec = (0, 1000, Vec2::new(), Vec2::from(1, 0)).into();
    assert_eq!(scalevec_event_vec2.to_line(), " V,0,0,1000,0,0,1,0");
}

#[test]
fn scalevec_to_line_dynamic() {
    let scalevec_event: ScaleVec = (0, 1000, 1, 1, 1, 0).into();
    assert_eq!(scalevec_event.to_line(), " V,0,0,1000,1,1,1,0");

    let scalevec_event_easing: ScaleVec = (Easing::QuadOut, 0, 1000, 1, 0, 1, 1).into();
    assert_eq!(scalevec_event_easing.to_line(), " V,4,0,1000,1,0,1,1");
}

#[test]
fn vflip_to_line() {
    let vflip_event: VFlip = (0, 1000).into();
    assert_eq!(vflip_event.to_line(), " P,0,0,1000,V");

    let mut vflip_event_depth: VFlip = (Easing::QuadOut, 0, 1000).into();
    vflip_event_depth.set_depth(2);
    assert_eq!(vflip_event_depth.to_line(), "   P,4,0,1000,V");
}

#[test]
fn a_static_fade_at_depth_zero_has_one_space_and_an_empty_end() {
    let fade = Fade::Static(0, 0, Number::Int(1));
    assert_eq!(fade.to_line(), " F,0,0,,1");
}

#[test]
fn a_dynamic_move_at_depth_two_has_three_spaces_and_its_easing() {
    let mut event: Move = (Easing::QuadOut, 0, 1000, 0, 0, 320, 240).into();
    event.set_depth(2);
    assert_eq!(event.to_line(), "   M,4,0,1000,0,0,320,240");
    assert!(event.to_line().starts_with("   M,4,"));
}

#[test]
fn equal_easings_keep_their_own_number_in_a_line() {
    let out: Fade = (Easing::Out, 0, 1000, 0, 1).into();
    let quad_out: Fade = (Easing::QuadOut, 0, 1000, 0, 1).into();
    assert_eq!(out.to_line(), " F,1,0,1000,0,1");
    assert_eq!(quad_out.to_line(), " F,4,0,1000,0,1");
    let last: Fade = (Easing::BounceInOut, 0, 1000, 0, 1).into();
    assert_eq!(last.to_line(), " F,34,0,1000,0,1");
}

#[test]
fn set_depth_changes_the_indent_and_nothing_else() {
    let mut event: Rotate = (Easing::SineIn, -5, 70, 1, float(1.5)).into();
    for depth in 0..6usize {
        event.set_depth(depth);
        assert_eq!(
            event.to_line(),
            format!("{} R,15,-5,70,1,1.5", " ".repeat(depth))
        );
        assert_eq!(event.get_start_time(), -5);
        assert_eq!(event.get_end_time(), 70);
    }
}

#[test]
fn times_of_static_and_dynamic_commands() {
    let fixed: MoveX = (42, 1).into();
    assert_eq!(fixed.get_start_time(), 42);
    assert_eq!(fixed.get_end_time(), 42);
    let moving: MoveX = (7, 9, 0, 1).into();
    assert_eq!(moving.get_start_time(), 7);
    assert_eq!(moving.get_end_time(), 9);
    let flip: HFlip = (Easing::Linear, -3, 3).into();
    assert_eq!(flip.get_start_time(), -3);
    assert_eq!(flip.get_end_time(), 3);
    let tint: Color = (5, utils::Color::red()).into();
    assert_eq!(tint.get_start_time(), 5);
    assert_eq!(tint.get_end_time(), 5);
}

#[test]
fn extreme_times_are_written_in_full() {
    let event: Fade = (i32::MIN, i32::MAX, 0, 1).into();
    assert_eq!(event.to_line(), " F,0,-2147483648,2147483647,0,1");
}

#[test]
fn a_color_command_from_colors() {
    let fixed: Color = (3000, utils::Color::green()).into();
    assert_eq!(fixed.to_line(), " C,0,3000,,0,255,0");
    let fading: Color = (0, 1000, utils::Color::white(), utils::Color::red()).into();
    assert_eq!(fading.to_line(), " C,0,0,1000,255,255,255,255,0,0");
    let eased: Color = (Easing::Out, 0, 1000, utils::Color::blue(), utils::Color::black()).into();
    assert_eq!(eased.to_line(), " C,1,0,1000,0,0,255,0,0,0");
}

#[test]
fn a_color_command_clamps_its_channels() {
    let event: Color = (0, 10, -1, 300, 42, 256, -200, 255).into();
    assert_eq!(event.to_line(), " C,0,0,10,0,255,42,255,0,255");
}

#[test]
fn move_and_scalevec_from_pairs() {
    let fixed: Move = (3000, Vec2::from(320, 240)).into();
    assert_eq!(fixed.to_line(), " M,0,3000,,320,240");
    let eased: Move = (Easing::Out, 0, 1000, Vec2::from(0, 0), Vec2::from(320, 240)).into();
    assert_eq!(eased.to_line(), " M,1,0,1000,0,0,320,240");
    let scale: ScaleVec = (3000, Vec2::from(1, float(0.5))).into();
    assert_eq!(scale.to_line(), " V,0,3000,,1,0.5");
    let eased: ScaleVec = (Easing::Out, 0, 1000, Vec2::from(1, 0), Vec2::from(1, 1)).into();
    assert_eq!(eased.to_line(), " V,1,0,1000,1,0,1,1");
}
