use osb::event::{Fade, Move};
use osb::utils::{IntervalMap, Number, Vec2};
use osb::{
    events_to_str, Easing, EventCollection, Layer, LoopType, Module, Origin, Sprite, Storyboard,
};

#[test]
fn layer_origin() {
    assert_eq!(Layer::Background.to_string(), "Background");
    assert_eq!(Layer::Fail.to_string(), "Fail");
    assert_eq!(Layer::Pass.to_string(), "Pass");
    assert_eq!(Layer::Foreground.to_string(), "Foreground");
    assert_eq!(Layer::Overlay.to_string(), "Overlay");
}

#[test]
fn origin_origin() {
    assert_eq!(Origin::TopLeft.to_string(), "TopLeft");
    assert_eq!(Origin::TopCentre.to_string(), "TopCentre");
    assert_eq!(Origin::TopRight.to_string(), "TopRight");
    assert_eq!(Origin::CentreLeft.to_string(), "CentreLeft");
    assert_eq!(Origin::Centre.to_string(), "Centre");
    assert_eq!(Origin::CentreRight.to_string(), "CentreRight");
    assert_eq!(Origin::BottomLeft.to_string(), "BottomLeft");
    assert_eq!(Origin::BottomCentre.to_string(), "BottomCentre");
    assert_eq!(Origin::BottomRight.to_string(), "BottomRight");
}

#[test]
fn animation() {
    let sprite = Sprite::new(("sb/sprite.jpg", 10, 10, LoopType::LoopOnce));
    assert_eq!(
        "Animation,Background,Centre,\"sb/sprite.jpg\",320,240,10,10,LoopOnce\n",
        sprite.to_str()
    );
}

#[test]
fn modules() {
    let mut sb = Storyboard::new();
    let fail_module = Module::new(Layer::Fail);
    let pass_module = Module::new(Layer::Pass);
    let foreground_module = Module::new(Layer::Foreground);
    sb.push(fail_module);
    sb.push(pass_module);
    sb.push(foreground_module);
}

#[test]
fn an_animation_that_loops_forever_has_no_suffix() {
    let sprite = Sprite::new(("sb/sprite.jpg", 20, 100, LoopType::LoopForever));
    assert_eq!(
        sprite.to_str(),
        "Animation,Background,Centre,\"sb/sprite.jpg\",320,240,20,100\n"
    );
}

#[test]
fn the_header_of_a_sprite() {
    assert_eq!(
        Sprite::new("res/sprite.png").to_str(),
        "Sprite,Background,Centre,\"res/sprite.png\",320,240\n"
    );
    assert_eq!(
        Sprite::new(String::from("res/sprite.png")).to_str(),
        "Sprite,Background,Centre,\"res/sprite.png\",320,240\n"
    );
    assert_eq!(
        Sprite::new((Origin::TopLeft, "a.png")).to_str(),
        "Sprite,Background,TopLeft,\"a.png\",320,240\n"
    );
    assert_eq!(
        Sprite::new((Origin::BottomRight, String::from("a.png"))).to_str(),
        "Sprite,Background,BottomRight,\"a.png\",320,240\n"
    );
    assert_eq!(
        Sprite::new(("a.png", Vec2::from(1, 2))).to_str(),
        "Sprite,Background,Centre,\"a.png\",1,2\n"
    );
    assert_eq!(
        Sprite::new((String::from("a.png"), Vec2::from(1, 2))).to_str(),
        "Sprite,Background,Centre,\"a.png\",1,2\n"
    );
    assert_eq!(
        Sprite::new(("a.png", -3, 4)).to_str(),
        "Sprite,Background,Centre,\"a.png\",-3,4\n"
    );
    assert_eq!(
        Sprite::new((String::from("a.png"), -3, 4)).to_str(),
        "Sprite,Background,Centre,\"a.png\",-3,4\n"
    );
    assert_eq!(
        Sprite::new((Origin::TopCentre, "a.png", Vec2::from(5, 6))).to_str(),
        "Sprite,Background,TopCentre,\"a.png\",5,6\n"
    );
    assert_eq!(
        Sprite::new((Origin::TopCentre, String::from("a.png"), Vec2::from(5, 6))).to_str(),
        "Sprite,Background,TopCentre,\"a.png\",5,6\n"
    );
    assert_eq!(
        Sprite::new((Origin::CentreLeft, "a.png", 7, Number::Float(8.5f32.to_string()))).to_str(),
        "Sprite,Background,CentreLeft,\"a.png\",7,8.5\n"
    );
    assert_eq!(
        Sprite::new((Origin::CentreRight, String::from("a.png"), 7, 8)).to_str(),
        "Sprite,Background,CentreRight,\"a.png\",7,8\n"
    );
}

#[test]
fn the_header_of_an_animation() {
    assert_eq!(
        Sprite::new((String::from("a.png"), 2, 3, LoopType::LoopOnce)).to_str(),
        "Animation,Background,Centre,\"a.png\",320,240,2,3,LoopOnce\n"
    );
    assert_eq!(
        Sprite::new((Origin::TopRight, "a.png", 2, 3, LoopType::LoopForever)).to_str(),
        "Animation,Background,TopRight,\"a.png\",320,240,2,3\n"
    );
    assert_eq!(
        Sprite::new((
            Origin::TopRight,
            String::from("a.png"),
            2,
            3,
            LoopType::LoopOnce
        ))
        .to_str(),
        "Animation,Background,TopRight,\"a.png\",320,240,2,3,LoopOnce\n"
    );
    assert_eq!(
        Sprite::new(("a.png", Vec2::from(10, 20), 2, 3, LoopType::LoopOnce)).to_str(),
        "Animation,Background,Centre,\"a.png\",10,20,2,3,LoopOnce\n"
    );
    assert_eq!(
        Sprite::new((
            String::from("a.png"),
            Vec2::from(10, 20),
            2,
            3,
            LoopType::LoopOnce
        ))
        .to_str(),
        "Animation,Background,Centre,\"a.png\",10,20,2,3,LoopOnce\n"
    );
    assert_eq!(
        Sprite::new(("a.png", 10, 20, 2, 3, LoopType::LoopForever)).to_str(),
        "Animation,Background,Centre,\"a.png\",10,20,2,3\n"
    );
    assert_eq!(
        Sprite::new((String::from("a.png"), 10, 20, 2, 3, LoopType::LoopForever)).to_str(),
        "Animation,Background,Centre,\"a.png\",10,20,2,3\n"
    );
    assert_eq!(
        Sprite::new((
            Origin::BottomLeft,
            "a.png",
            Vec2::from(10, 20),
            u32::MAX,
            0,
            LoopType::LoopOnce
        ))
        .to_str(),
        "Animation,Background,BottomLeft,\"a.png\",10,20,4294967295,0,LoopOnce\n"
    );
    assert_eq!(
        Sprite::new((
            Origin::BottomLeft,
            String::from("a.png"),
            Vec2::from(10, 20),
            2,
            3,
            LoopType::LoopOnce
        ))
        .to_str(),
        "Animation,Background,BottomLeft,\"a.png\",10,20,2,3,LoopOnce\n"
    );
    assert_eq!(
        Sprite::new((Origin::BottomCentre, "a.png", 10, 20, 2, 3, LoopType::LoopOnce)).to_str(),
        "Animation,Background,BottomCentre,\"a.png\",10,20,2,3,LoopOnce\n"
    );
    assert_eq!(
        Sprite::new((
            Origin::BottomCentre,
            String::from("a.png"),
            10,
            20,
            2,
            3,
            LoopType::LoopOnce
        ))
        .to_str(),
        "Animation,Background,BottomCentre,\"a.png\",10,20,2,3,LoopOnce\n"
    );
}

#[test]
fn the_position_of_a_sprite_is_the_one_it_was_made_with() {
    let mut sprite = Sprite::new("res/sprite.png");
    sprite.move_((0, 1000, 100, 100, 0, 0));
    assert_eq!(sprite.get_x(), Number::Int(320));
    assert_eq!(sprite.get_y(), Number::Int(240));
}

#[test]
fn the_span_of_a_sprite_holds_all_its_commands() {
    let mut sprite = Sprite::new("res/sprite.png");
    assert_eq!(sprite.start_time(), None);
    assert_eq!(sprite.end_time(), None);

    sprite.move_((100, 200, 0, 0, 320, 240));
    assert_eq!(sprite.start_time(), Some(100));
    assert_eq!(sprite.end_time(), Some(200));

    sprite.fade_((0, 100, 0, 1));
    assert_eq!(sprite.start_time(), Some(0));
    assert_eq!(sprite.end_time(), Some(200));

    sprite.fade_((100, 300, 1, 0));
    assert_eq!(sprite.start_time(), Some(0));
    assert_eq!(sprite.end_time(), Some(300));

    sprite.rotate_((-50, 1));
    assert_eq!(sprite.start_time(), Some(-50));
    assert_eq!(sprite.end_time(), Some(300));

    sprite.scale_((150, 250, 1, 2));
    assert_eq!(sprite.start_time(), Some(-50));
    assert_eq!(sprite.end_time(), Some(300));
}

#[test]
fn commands_are_written_kind_after_kind() {
    let mut sprite = Sprite::new("res/sprite.png");
    sprite.additive_((0, 11));
    sprite.vflip_((0, 10));
    sprite.hflip_((0, 9));
    sprite.color_((0, 8, 0, 0, 0, 255, 255, 255));
    sprite.scalevec_((0, 7, 1, 1, 2, 2));
    sprite.scale_((0, 6, 1, 2));
    sprite.rotate_((0, 5, 0, 1));
    sprite.fade_((0, 4, 0, 1));
    sprite.movey_((0, 3, 0, 240));
    sprite.movex_((0, 2, 0, 320));
    sprite.move_((Easing::QuadOut, 0, 1, 0, 0, 320, 240));
    assert_eq!(
        sprite.to_str(),
        "Sprite,Background,Centre,\"res/sprite.png\",320,240\n \
         M,4,0,1,0,0,320,240\n MX,0,0,2,0,320\n MY,0,0,3,0,240\n F,0,0,4,0,1\n R,0,0,5,0,1\n \
         S,0,0,6,1,2\n V,0,0,7,1,1,2,2\n C,0,0,8,0,0,0,255,255,255\n P,0,0,9,H\n P,0,0,10,V\n \
         P,0,0,11,A\n"
    );
}

#[test]
fn commands_of_one_kind_are_written_once_each() {
    let mut sprite = Sprite::new("res/sprite.png");
    sprite.fade_((0, 1000, 0, 1));
    sprite.fade_((500, 1500, 1, 0));
    sprite.fade_((0, 1000, 0, 1));
    assert_eq!(
        sprite.to_str(),
        "Sprite,Background,Centre,\"res/sprite.png\",320,240\n F,0,0,1000,0,1\n F,0,500,1500,1,0\n"
    );
}

#[test]
fn commands_with_one_text_apart_in_time_are_written_once() {
    let mut map = IntervalMap::new();
    map.push(0..10, Fade::Dynamic(0, Easing::Linear, 0, 10, Number::Int(0), Number::Int(1)));
    map.push(20..30, Fade::Dynamic(0, Easing::Linear, 0, 10, Number::Int(0), Number::Int(1)));
    map.push(5..25, Fade::Dynamic(1, Easing::Linear, 0, 10, Number::Int(0), Number::Int(1)));
    assert_eq!(events_to_str(&map), " F,0,0,10,0,1\n  F,0,0,10,0,1\n");
}

#[test]
fn a_static_command_is_on_no_breakpoint_and_written_all_the_same() {
    let mut map = IntervalMap::new();
    map.push(7..7, Move::Static(0, 7, Vec2::from(1, 2)));
    assert_eq!(map.count(), 1);
    assert_eq!(map.len(), 1);
    assert!(map.values_at(0).is_empty());
    assert!(map.get(&7).is_empty());
    assert_eq!(events_to_str(&map), " M,0,7,,1,2\n");

    let mut sprite = Sprite::new("res/sprite.png");
    sprite.move_((0, 320, 240));
    assert_eq!(sprite.start_time(), Some(0));
    assert_eq!(sprite.end_time(), Some(0));
    assert_eq!(
        sprite.to_str(),
        "Sprite,Background,Centre,\"res/sprite.png\",320,240\n M,0,0,,320,240\n"
    );
}

#[test]
fn static_and_dynamic_commands_of_one_sprite() {
    let mut sprite = Sprite::new((Origin::TopLeft, "res/sprite.png", 0, 0));
    sprite.fade_((0, 1));
    sprite.fade_((0, 1000, 1, 0));
    sprite.fade_((0, 1));
    sprite.scale_((500, Number::Float(0.5f32.to_string())));
    sprite.move_((Easing::QuadInOut, 1000, 2000, 320, 240, 100, 100));
    sprite.move_((3000, Vec2::from(320, 240)));
    assert_eq!(sprite.start_time(), Some(0));
    assert_eq!(sprite.end_time(), Some(3000));
    assert_eq!(
        sprite.to_str(),
        "Sprite,Background,TopLeft,\"res/sprite.png\",0,0\n M,5,1000,2000,320,240,100,100\n \
         M,0,3000,,320,240\n F,0,0,,1\n F,0,0,1000,1,0\n S,0,500,,0.5\n"
    );
}

#[test]
fn writing_a_sprite_twice_gives_the_same_text() {
    let mut sprite = Sprite::new(("sb/sprite.jpg", 10, 10, LoopType::LoopOnce));
    sprite.move_((0, 1000, 0, 0, 320, 240));
    sprite.move_((500, 1500, 320, 240, 0, 0));
    sprite.move_((100, 200, 1, 1, 2, 2));
    sprite.fade_((0, 1000, 0, Number::Float(0.5f32.to_string())));
    sprite.color_((0, 1000, 0, 0, 0, 255, 255, 255));
    let first = sprite.to_str();
    let second = sprite.to_str();
    assert_eq!(first, second);
    assert_eq!(
        first,
        "Animation,Background,Centre,\"sb/sprite.jpg\",320,240,10,10,LoopOnce\n \
         M,0,0,1000,0,0,320,240\n M,0,500,1500,320,240,0,0\n M,0,100,200,1,1,2,2\n \
         F,0,0,1000,0,0.5\n C,0,0,1000,0,0,0,255,255,255\n"
    );
}

#[test]
fn an_empty_collection_has_no_text() {
    assert_eq!(EventCollection::new().to_str(), "");
}

#[test]
fn a_module_puts_its_sprites_on_its_layer() {
    let mut module = Module::new(Layer::Foreground);
    assert_eq!(module.layer(), Layer::Foreground);
    assert_eq!(module.output(), "");
    let mut first = Sprite::new("a.png");
    first.fade_((0, 10, 0, 1));
    module.push(first);
    module.push(Sprite::new((Origin::TopLeft, "b.png")));
    assert_eq!(
        module.output(),
        "Sprite,Foreground,Centre,\"a.png\",320,240\n F,0,0,10,0,1\n\
         Sprite,Foreground,TopLeft,\"b.png\",320,240\n"
    );
    assert_eq!(module.layer(), Layer::Foreground);
}

#[test]
fn set_layer_changes_the_layer_of_the_header() {
    let mut sprite = Sprite::new("a.png");
    sprite.set_layer(Layer::Overlay);
    assert_eq!(sprite.to_str(), "Sprite,Overlay,Centre,\"a.png\",320,240\n");
}

#[test]
fn an_empty_storyboard() {
    let storyboard = Storyboard::new();
    assert_eq!(
        storyboard.output(),
        "[Events]\n//Background and Video events\n//Storyboard Layer 0 (Background)\n\
         //Storyboard Layer 1 (Fail)\n//Storyboard Layer 2 (Pass)\n\
         //Storyboard Layer 3 (Foreground)\n//Storyboard Layer 4 (Overlay)\n\
         //Storyboard Sound Samples\n"
    );
    assert_eq!(
        storyboard.to_string(),
        "[Events]\n//Background and Video events\n//Storyboard Layer 0 (Background)\n\n\
         //Storyboard Layer 1 (Fail)\n\n//Storyboard Layer 2 (Pass)\n\n\
         //Storyboard Layer 3 (Foreground)\n\n//Storyboard Layer 4 (Overlay)\n\
         //Storyboard Sound Samples\n"
    );
}

#[test]
fn a_storyboard_writes_its_modules_layer_by_layer() {
    let mut storyboard = Storyboard::new();
    for (layer, path) in [
        (Layer::Overlay, "o.png"),
        (Layer::Foreground, "g.png"),
        (Layer::Pass, "p.png"),
        (Layer::Fail, "f.png"),
        (Layer::Background, "b.png"),
        (Layer::Background, "c.png"),
    ] {
        let mut module = Module::new(layer);
        module.push(Sprite::new(path));
        storyboard.push(module);
    }
    assert_eq!(
        storyboard.output(),
        "[Events]\n//Background and Video events\n//Storyboard Layer 0 (Background)\n\
         Sprite,Background,Centre,\"b.png\",320,240\n\
         Sprite,Background,Centre,\"c.png\",320,240\n\
         //Storyboard Layer 1 (Fail)\n\
         Sprite,Fail,Centre,\"f.png\",320,240\n\
         //Storyboard Layer 2 (Pass)\n\
         Sprite,Pass,Centre,\"p.png\",320,240\n\
         //Storyboard Layer 3 (Foreground)\n\
         Sprite,Foreground,Centre,\"g.png\",320,240\n\
         //Storyboard Layer 4 (Overlay)\n\
         Sprite,Overlay,Centre,\"o.png\",320,240\n\
         //Storyboard Sound Samples\n"
    );
}
