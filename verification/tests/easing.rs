use osb::{progress, Curve, Easing, EasingParsingError, Shape};

const NAMES: [Easing; 35] = [
    Easing::Linear,
    Easing::Out,
    Easing::In,
    Easing::QuadIn,
    Easing::QuadOut,
    Easing::QuadInOut,
    Easing::CubicIn,
    Easing::CubicOut,
    Easing::CubicInOut,
    Easing::QuartIn,
    Easing::QuartOut,
    Easing::QuartInOut,
    Easing::QuintIn,
    Easing::QuintOut,
    Easing::QuintInOut,
    Easing::SineIn,
    Easing::SineOut,
    Easing::SineInOut,
    Easing::ExpoIn,
    Easing::ExpoOut,
    Easing::ExpoInOut,
    Easing::CircIn,
    Easing::CircOut,
    Easing::CircInOut,
    Easing::ElasticIn,
    Easing::ElasticOut,
    Easing::ElasticHalfOut,
    Easing::ElasticQuarterOut,
    Easing::ElasticInOut,
    Easing::BackIn,
    Easing::BackOut,
    Easing::BackInOut,
    Easing::BounceIn,
    Easing::BounceOut,
    Easing::BounceInOut,
];

/// The number of the curve that an easing draws: the names of one curve share it.
fn curve(easing: Easing) -> u8 {
    match easing {
        Easing::Out => 4,
        Easing::In => 3,
        Easing::ElasticHalfOut | Easing::ElasticQuarterOut => 25,
        other => other.id(),
    }
}

#[test]
fn get_easing() {
    assert_eq!(Easing::get_easing(1), Ok(Easing::QuadOut));
    assert_eq!(Easing::get_easing(2), Ok(Easing::QuadIn));
    assert_eq!(Easing::get_easing(3), Ok(Easing::QuadIn));
    assert_eq!(Easing::get_easing(4), Ok(Easing::QuadOut));
    assert_eq!(Easing::get_easing(5), Ok(Easing::QuadInOut));
    assert_eq!(Easing::get_easing(6), Ok(Easing::CubicIn));
    assert_eq!(Easing::get_easing(7), Ok(Easing::CubicOut));
    assert_eq!(Easing::get_easing(8), Ok(Easing::CubicInOut));
    assert_eq!(Easing::get_easing(9), Ok(Easing::QuartIn));
    assert_eq!(Easing::get_easing(10), Ok(Easing::QuartOut));
    assert_eq!(Easing::get_easing(11), Ok(Easing::QuartInOut));
    assert_eq!(Easing::get_easing(12), Ok(Easing::QuintIn));
    assert_eq!(Easing::get_easing(13), Ok(Easing::QuintOut));
    assert_eq!(Easing::get_easing(14), Ok(Easing::QuintInOut));
    assert_eq!(Easing::get_easing(15), Ok(Easing::SineIn));
    assert_eq!(Easing::get_easing(16), Ok(Easing::SineOut));
    assert_eq!(Easing::get_easing(17), Ok(Easing::SineInOut));
    assert_eq!(Easing::get_easing(18), Ok(Easing::ExpoIn));
    assert_eq!(Easing::get_easing(19), Ok(Easing::ExpoOut));
    assert_eq!(Easing::get_easing(20), Ok(Easing::ExpoInOut));
    assert_eq!(Easing::get_easing(21), Ok(Easing::CircIn));
    assert_eq!(Easing::get_easing(22), Ok(Easing::CircOut));
    assert_eq!(Easing::get_easing(23), Ok(Easing::CircInOut));
    assert_eq!(Easing::get_easing(24), Ok(Easing::ElasticIn));
    assert_eq!(Easing::get_easing(25), Ok(Easing::ElasticOut));
    assert_eq!(Easing::get_easing(26), Ok(Easing::ElasticOut));
    assert_eq!(Easing::get_easing(27), Ok(Easing::ElasticOut));
    assert_eq!(Easing::get_easing(28), Ok(Easing::ElasticInOut));
    assert_eq!(Easing::get_easing(29), Ok(Easing::BackIn));
    assert_eq!(Easing::get_easing(30), Ok(Easing::BackOut));
    assert_eq!(Easing::get_easing(31), Ok(Easing::BackInOut));
    assert_eq!(Easing::get_easing(32), Ok(Easing::BounceIn));
    assert_eq!(Easing::get_easing(33), Ok(Easing::BounceOut));
    assert_eq!(Easing::get_easing(34), Ok(Easing::BounceInOut));
}

#[test]
fn easing_eq() {
    assert_eq!(Easing::Out, Easing::QuadOut);
    assert_eq!(Easing::QuadOut, Easing::Out);
    assert_eq!(Easing::In, Easing::QuadIn);
    assert_eq!(Easing::QuadIn, Easing::In);
    assert_eq!(Easing::ElasticOut, Easing::ElasticHalfOut);
    assert_eq!(Easing::ElasticHalfOut, Easing::ElasticOut);
    assert_eq!(Easing::ElasticOut, Easing::ElasticQuarterOut);
    assert_eq!(Easing::ElasticQuarterOut, Easing::ElasticOut);
    assert_eq!(Easing::ElasticHalfOut, Easing::ElasticQuarterOut);
    assert_eq!(Easing::ElasticQuarterOut, Easing::ElasticHalfOut);
}

#[test]
fn get_easing_of_zero_is_linear() {
    assert_eq!(Easing::get_easing(0), Ok(Easing::Linear));
    assert_eq!(Easing::Linear.id(), 0);
}

#[test]
fn get_easing_succeeds_up_to_34_only() {
    for id in 0..=34u8 {
        assert!(Easing::get_easing(id).is_ok(), "{}", id);
    }
    for id in 35..=255u8 {
        assert_eq!(Easing::get_easing(id), Err(EasingParsingError::IncorrectID));
    }
    assert_eq!(Easing::get_easing(42), Err(EasingParsingError::IncorrectID));
}

#[test]
fn id_is_the_position_of_the_name() {
    for (position, easing) in NAMES.iter().enumerate() {
        assert_eq!(easing.id() as usize, position);
    }
    assert_eq!(Easing::Out.id(), 1);
    assert_eq!(Easing::QuadOut.id(), 4);
    assert_eq!(Easing::ElasticQuarterOut.id(), 27);
    assert_eq!(Easing::BounceInOut.id(), 34);
}

#[test]
fn names_are_equal_exactly_when_they_draw_one_curve() {
    for a in NAMES.iter() {
        for b in NAMES.iter() {
            assert_eq!(*a == *b, curve(*a) == curve(*b), "{:?} {:?}", a, b);
        }
    }
    assert_ne!(Easing::Out, Easing::In);
    assert_ne!(Easing::QuadIn, Easing::QuadOut);
    assert_ne!(Easing::ElasticIn, Easing::ElasticOut);
    assert_ne!(Easing::Linear, Easing::QuadInOut);
}

#[test]
fn the_number_of_a_name_is_read_as_an_equal_name() {
    for easing in NAMES.iter() {
        assert_eq!(Easing::get_easing(easing.id()), Ok(*easing));
    }
    assert_eq!(Easing::get_easing(Easing::Out.id()).map(|easing| easing.id()), Ok(4));
    assert_eq!(Easing::get_easing(Easing::In.id()).map(|easing| easing.id()), Ok(3));
    assert_eq!(
        Easing::get_easing(Easing::ElasticQuarterOut.id()).map(|easing| easing.id()),
        Ok(25)
    );
}

#[test]
fn the_error_says_what_went_wrong() {
    assert_eq!(
        EasingParsingError::IncorrectID.to_string(),
        "Given easing ID does not correspond to any existing easing"
    );
}

/// The curve that an easing reaches, and the easings passed on the way.
fn follow(easing: Easing) -> (Curve, usize) {
    let mut current = easing;
    let mut steps = 0;
    loop {
        match current.shape() {
            Shape::Base(curve) => return (curve, steps),
            Shape::Reverse(other) | Shape::InOut(other) => {
                current = other;
                steps += 1;
            }
        }
        assert!(steps <= 2, "{:?}", easing);
    }
}

#[test]
fn every_easing_reaches_a_curve_within_two_steps() {
    for easing in NAMES.iter() {
        let (_, steps) = follow(*easing);
        assert!(steps <= 2);
    }
    assert_eq!(follow(Easing::Linear), (Curve::Linear, 0));
    assert_eq!(follow(Easing::QuadIn), (Curve::Quad, 0));
    assert_eq!(follow(Easing::Out), (Curve::Quad, 1));
    assert_eq!(follow(Easing::QuadInOut), (Curve::Quad, 1));
    assert_eq!(follow(Easing::CircInOut), (Curve::Circ, 1));
    assert_eq!(follow(Easing::ElasticQuarterOut), (Curve::Elastic, 0));
    assert_eq!(follow(Easing::ElasticIn), (Curve::Elastic, 1));
    assert_eq!(follow(Easing::ElasticInOut), (Curve::Elastic, 2));
    assert_eq!(follow(Easing::BounceOut), (Curve::Bounce, 0));
    assert_eq!(follow(Easing::BounceIn), (Curve::Bounce, 1));
    assert_eq!(follow(Easing::BounceInOut), (Curve::Bounce, 2));
    assert_eq!(follow(Easing::BackInOut), (Curve::Back, 1));
}

#[test]
fn the_shapes_of_the_easings() {
    assert_eq!(format!("{:?}", Easing::Linear.shape()), "Base(Linear)");
    assert_eq!(format!("{:?}", Easing::In.shape()), "Base(Quad)");
    assert_eq!(format!("{:?}", Easing::QuadOut.shape()), "Reverse(In)");
    assert_eq!(format!("{:?}", Easing::CubicOut.shape()), "Reverse(CubicIn)");
    assert_eq!(format!("{:?}", Easing::QuintInOut.shape()), "InOut(QuintIn)");
    assert_eq!(format!("{:?}", Easing::SineIn.shape()), "Base(Sine)");
    assert_eq!(format!("{:?}", Easing::ExpoOut.shape()), "Reverse(ExpoIn)");
    assert_eq!(format!("{:?}", Easing::CircInOut.shape()), "InOut(CircIn)");
    assert_eq!(format!("{:?}", Easing::ElasticIn.shape()), "Reverse(ElasticOut)");
    assert_eq!(format!("{:?}", Easing::ElasticInOut.shape()), "InOut(ElasticIn)");
    assert_eq!(format!("{:?}", Easing::BackOut.shape()), "Reverse(BackIn)");
    assert_eq!(format!("{:?}", Easing::BounceIn.shape()), "Reverse(BounceOut)");
    assert_eq!(format!("{:?}", Easing::BounceInOut.shape()), "InOut(BounceIn)");
}

#[test]
fn equal_names_have_the_same_shape() {
    for a in NAMES.iter() {
        for b in NAMES.iter() {
            if a == b {
                assert_eq!(format!("{:?}", a.shape()), format!("{:?}", b.shape()));
            }
        }
    }
}

#[test]
fn progress_inside_and_outside_the_span() {
    assert_eq!(progress(5, 0, 4), None);
    assert_eq!(progress(-1, 0, 4), None);
    assert_eq!(progress(0, 0, 4), Some((0, 4)));
    assert_eq!(progress(2, 0, 4), Some((2, 4)));
    assert_eq!(progress(4, 0, 4), Some((4, 4)));
    assert_eq!(progress(1, 0, 2), Some((1, 2)));
    assert_eq!(progress(1000, 0, 2000), Some((1000, 2000)));
    assert_eq!(progress(7, 7, 7), Some((0, 0)));
    assert_eq!(progress(3, 4, 2), None);
}

#[test]
fn progress_over_the_widest_span() {
    assert_eq!(
        progress(i32::MAX, i32::MIN, i32::MAX),
        Some((4294967295, 4294967295))
    );
    assert_eq!(progress(0, i32::MIN, i32::MAX), Some((2147483648, 4294967295)));
    assert_eq!(progress(i32::MIN, i32::MIN, i32::MAX), Some((0, 4294967295)));
}
