use osb::text::{push_decimal, push_spaces};
use osb::utils::{Color, IntervalMap, Number, Vec2};

#[test]
fn out_of_range() {
    assert_eq!(Color::from(-1, -200, -42), Color::black());
    assert_eq!(Color::from(300, 300, 300), Color::white());
}

#[test]
fn basic() {
    let mut interval_map = IntervalMap::new();

    interval_map.push(10..50, 1);
    interval_map.push(30..55, 2);

    assert_eq!(interval_map.get(&0).iter().next(), None);
    assert_eq!(interval_map.get(&100).iter().next(), None);

    let values = interval_map.get(&20);
    let mut result = values.iter();
    assert_eq!(result.next(), Some(&&1));
    assert_eq!(result.next(), None);

    let values = interval_map.get(&53);
    let mut result = values.iter();
    assert_eq!(result.next(), Some(&&2));
    assert_eq!(result.next(), None);

    let values = interval_map.get(&40);
    let mut result = values.iter();
    assert_eq!(result.next(), Some(&&1));
    assert_eq!(result.next(), Some(&&2));
    assert_eq!(result.next(), None);
}

/// The keys of the breakpoints of a map.
fn keys_of<V>(map: &IntervalMap<V>) -> Vec<i32> {
    (0..map.len()).map(|index| map.key_at(index)).collect()
}

/// The values that a brute-force reading of the pushes finds active at `key`.
fn expected(pushes: &[(i32, i32, u32)], key: i32) -> Vec<u32> {
    pushes
        .iter()
        .filter(|(start, end, _)| *start <= key && key < *end)
        .map(|(_, _, value)| *value)
        .collect()
}

#[test]
fn a_new_map_has_no_breakpoint() {
    let map: IntervalMap<u8> = IntervalMap::new();
    assert_eq!(map.len(), 0);
    assert_eq!(map.count(), 0);
    assert!(map.get(&0).is_empty());
    assert!(map.get(&i32::MIN).is_empty());
    assert!(map.get(&i32::MAX).is_empty());
}

#[test]
fn the_default_map_is_a_new_map() {
    let map: IntervalMap<u8> = IntervalMap::default();
    assert_eq!(map.len(), 0);
    assert_eq!(map.count(), 0);
    assert!(map.get(&10).is_empty());
}

#[test]
fn one_push_is_active_from_its_start_up_to_its_end() {
    let mut map = IntervalMap::new();
    map.push(10..50, 'a');
    assert_eq!(keys_of(&map), vec![10, 50]);
    assert!(map.get(&9).is_empty());
    assert_eq!(map.get(&10), vec![&'a']);
    assert_eq!(map.get(&49), vec![&'a']);
    assert!(map.get(&50).is_empty());
    assert_eq!(map.values_at(0), vec![&'a']);
    assert!(map.values_at(1).is_empty());
}

#[test]
fn two_overlapping_pushes() {
    let mut map = IntervalMap::new();
    map.push(10..50, 1);
    map.push(30..55, 2);
    assert_eq!(keys_of(&map), vec![10, 30, 50, 55]);
    assert_eq!(map.get(&20), vec![&1]);
    assert_eq!(map.get(&40), vec![&1, &2]);
    assert_eq!(map.get(&53), vec![&2]);
    assert!(map.get(&0).is_empty());
    assert!(map.get(&100).is_empty());
}

#[test]
fn a_push_that_ends_where_another_ends_adds_no_breakpoint() {
    let mut map = IntervalMap::new();
    map.push(10..50, 1);
    map.push(30..50, 42);
    assert_eq!(keys_of(&map), vec![10, 30, 50]);
    assert_eq!(map.get(&20), vec![&1]);
    assert_eq!(map.get(&40), vec![&1, &42]);
    assert!(map.get(&50).is_empty());
}

#[test]
fn a_push_inside_another_leaves_the_outer_one_active_behind_it() {
    let mut map = IntervalMap::new();
    map.push(10..50, 1);
    map.push(20..30, 2);
    assert_eq!(keys_of(&map), vec![10, 20, 30, 50]);
    assert_eq!(map.get(&15), vec![&1]);
    assert_eq!(map.get(&25), vec![&1, &2]);
    assert_eq!(map.get(&30), vec![&1]);
    assert_eq!(map.get(&35), vec![&1]);
    assert!(map.get(&50).is_empty());
}

#[test]
fn a_push_before_all_others() {
    let mut map = IntervalMap::new();
    map.push(10..50, 1);
    map.push(0..5, 2);
    assert_eq!(keys_of(&map), vec![0, 5, 10, 50]);
    assert_eq!(map.get(&3), vec![&2]);
    assert!(map.get(&7).is_empty());
    assert_eq!(map.get(&10), vec![&1]);
}

#[test]
fn an_empty_range_is_active_nowhere() {
    let mut map = IntervalMap::new();
    map.push(10..50, 1);
    map.push(20..20, 2);
    assert_eq!(keys_of(&map), vec![10, 20, 50]);
    assert_eq!(map.get(&19), vec![&1]);
    assert_eq!(map.get(&20), vec![&1]);
    assert_eq!(map.get(&21), vec![&1]);
    map.push(40..30, 3);
    assert_eq!(keys_of(&map), vec![10, 20, 40, 50]);
    assert_eq!(map.get(&35), vec![&1]);
    assert_eq!(map.get(&40), vec![&1]);
}

#[test]
fn the_pushes_are_kept_in_their_order() {
    let mut map = IntervalMap::new();
    map.push(10..50, 'a');
    map.push(20..20, 'b');
    map.push(40..30, 'c');
    map.push(0..60, 'a');
    assert_eq!(map.count(), 4);
    assert_eq!(map.range_of(0), 10..50);
    assert_eq!(map.range_of(1), 20..20);
    assert_eq!(map.range_of(2), 40..30);
    assert_eq!(map.range_of(3), 0..60);
    assert_eq!(*map.value_of(0), 'a');
    assert_eq!(*map.value_of(1), 'b');
    assert_eq!(*map.value_of(2), 'c');
    assert_eq!(*map.value_of(3), 'a');
    assert_eq!(keys_of(&map), vec![0, 10, 20, 40, 50, 60]);
    assert_eq!(map.get(&45), vec![&'a', &'a']);
}

#[test]
fn a_breakpoint_holds_the_values_that_are_active_at_its_key() {
    let mut map = IntervalMap::new();
    map.push(10..50, 1);
    map.push(30..55, 2);
    map.push(20..40, 3);
    for index in 0..map.len() {
        assert_eq!(map.values_at(index), map.get(&map.key_at(index)));
    }
    assert_eq!(map.values_at(2), vec![&1, &2, &3]);
    assert!(map.values_at(map.len() - 1).is_empty());
}

#[test]
fn the_same_value_pushed_twice_is_active_twice() {
    let mut map = IntervalMap::new();
    map.push(0..10, 7);
    map.push(5..15, 7);
    assert_eq!(map.get(&2), vec![&7]);
    assert_eq!(map.get(&7), vec![&7, &7]);
    assert_eq!(map.get(&12), vec![&7]);
}

#[test]
fn the_ends_of_the_key_range() {
    let mut map = IntervalMap::new();
    map.push(i32::MIN..i32::MAX, 1);
    assert_eq!(map.get(&i32::MIN), vec![&1]);
    assert_eq!(map.get(&0), vec![&1]);
    assert_eq!(map.get(&(i32::MAX - 1)), vec![&1]);
    assert!(map.get(&i32::MAX).is_empty());
}

#[test]
fn every_key_sees_the_pushes_that_hold_it_in_their_order() {
    let pushes: [(i32, i32, u32); 9] = [
        (10, 50, 1),
        (30, 55, 2),
        (0, 5, 3),
        (5, 10, 4),
        (20, 20, 5),
        (-10, 70, 6),
        (30, 31, 7),
        (60, 40, 8),
        (49, 51, 9),
    ];
    let mut map = IntervalMap::new();
    for (done, (start, end, value)) in pushes.iter().enumerate() {
        map.push(*start..*end, *value);
        for key in -15..80 {
            let found: Vec<u32> = map.get(&key).into_iter().copied().collect();
            assert_eq!(found, expected(&pushes[..=done], key), "key {}", key);
        }
        let keys = keys_of(&map);
        assert!(keys.windows(2).all(|pair| pair[0] < pair[1]));
    }
    assert_eq!(
        keys_of(&map),
        vec![-10, 0, 5, 10, 20, 30, 31, 49, 50, 51, 55, 60, 70]
    );
}

#[test]
fn color_channels() {
    assert_eq!(Color::red().r(), 255);
    assert_eq!(Color::green().g(), 255);
    assert_eq!(Color::blue().b(), 255);
    assert_eq!(Color::black(), Color::from(0, 0, 0));
    assert_eq!(Color::red(), Color::from(255, 0, 0));
    assert_eq!(Color::green(), Color::from(0, 255, 0));
    assert_eq!(Color::blue(), Color::from(0, 0, 255));
    assert_eq!(Color::white(), Color::from(255, 255, 255));
    let color = Color::from(42, 43, 44);
    assert_eq!((color.r(), color.g(), color.b()), (42, 43, 44));
}

#[test]
fn color_bounds() {
    let color = Color::from(0, 255, 256);
    assert_eq!((color.r(), color.g(), color.b()), (0, 255, 255));
    let color = Color::from(-1, 1, 254);
    assert_eq!((color.r(), color.g(), color.b()), (0, 1, 254));
    let color = Color::from(i32::MIN, i32::MAX, 128);
    assert_eq!((color.r(), color.g(), color.b()), (0, 255, 128));
    let color: Color = (300, -5, 7).into();
    assert_eq!(color, Color::from(255, 0, 7));
}

#[test]
fn numbers_as_a_script_shows_them() {
    assert_eq!(Number::Int(0).to_string(), "0");
    assert_eq!(Number::Int(42).to_string(), "42");
    assert_eq!(Number::Int(-1).to_string(), "-1");
    assert_eq!(Number::Int(i32::MAX).to_string(), "2147483647");
    assert_eq!(Number::Int(i32::MIN).to_string(), "-2147483648");
    assert_eq!(Number::Float(0.42f32.to_string()).to_string(), "0.42");
    assert_eq!(Number::Float((-1.5f32).to_string()).to_string(), "-1.5");
    assert_eq!(Number::from(7), Number::Int(7));
    let number: Number = (-7).into();
    assert_eq!(number, Number::Int(-7));
    assert_eq!(number.clone(), number);
}

#[test]
fn decimal_notation() {
    for value in [
        0i64,
        1,
        9,
        10,
        11,
        99,
        100,
        101,
        255,
        1000,
        4294967295,
        -1,
        -9,
        -10,
        -2147483648,
        i64::MAX,
        i64::MIN,
    ] {
        let mut text = String::from("x");
        push_decimal(&mut text, value);
        assert_eq!(text, format!("x{}", value));
    }
}

#[test]
fn indentation() {
    for count in 0..5usize {
        let mut text = String::from("x");
        push_spaces(&mut text, count);
        assert_eq!(text, format!("x{}", " ".repeat(count)));
    }
}

#[test]
fn pairs_of_numbers() {
    assert_eq!(
        Vec2::new(),
        Vec2 {
            x: Number::Int(0),
            y: Number::Int(0)
        }
    );
    assert_eq!(
        Vec2::from(20, 30),
        Vec2 {
            x: Number::Int(20),
            y: Number::Int(30)
        }
    );
    let pair = Vec2::from(1, Number::Float(0.5f32.to_string()));
    assert_eq!(pair.x, Number::Int(1));
    assert_eq!(pair.y, Number::Float(String::from("0.5")));
    assert_eq!(pair.clone(), pair);
}
