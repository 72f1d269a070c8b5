use std::collections::HashSet;

use window_managers::capability::{
    plan_resize, plan_tear_out, CapabilityFault, CapabilitySupport, ComposedOperation,
    DirectionalCapability, WindowManagerCapabilities,
};
use window_managers::error::WmError;
use window_managers::ids::{are_disjoint, copy_set, set_of};
use window_managers::macos::types::{
    native_bounds_from_outer, native_direction_from_outer, outer_direction_from_native,
    rect_from_native,
};
use window_managers::process::ProcessId;
use window_managers::select::{first_least_key, last_greatest_key, stable_order_of_keys, Key};
use window_managers::session::{step_size_of, ResizeIntent, ResizeKind};
use window_managers::text::{
    contains_char, contains_space, is_space_char, joined, lines_of, non_blank_of, parse_i32,
    parse_u32, parse_unsigned, same_text, stripped, trimmed, without_prefix, words_of,
    write_number,
};
use window_managers::topology::{reach_towards, Direction, Rect};

const DIRECTIONS: [Direction; 4] = [
    Direction::West,
    Direction::East,
    Direction::North,
    Direction::South,
];

#[test]
fn going_back_leads_home() {
    for direction in DIRECTIONS {
        assert_eq!(direction.opposite().opposite(), direction);
        assert_ne!(direction.opposite(), direction);
        assert_eq!(
            outer_direction_from_native(native_direction_from_outer(direction)),
            direction
        );
    }
    assert_eq!(Direction::North.opposite(), Direction::South);
    assert_eq!(Direction::North.name(), "north");
}

#[test]
fn frames_keep_their_place() {
    let rect = Rect {
        x: -5,
        y: 7,
        w: 30,
        h: 40,
    };
    assert_eq!(rect_from_native(native_bounds_from_outer(rect)), rect);
    assert_eq!(reach_towards(Direction::West, rect), 5);
    assert_eq!(reach_towards(Direction::East, rect), 25);
    assert_eq!(reach_towards(Direction::North, rect), -7);
    assert_eq!(reach_towards(Direction::South, rect), 47);
    let far = Rect {
        x: i32::MAX,
        y: 0,
        w: i32::MAX,
        h: 0,
    };
    assert_eq!(reach_towards(Direction::East, far), 2 * i32::MAX as i64);
}

#[test]
fn processes_are_known_by_positive_numbers() {
    assert_eq!(ProcessId::new(0), None);
    assert_eq!(ProcessId::new(7).unwrap().get(), 7);
    assert_eq!(ProcessId::new(7), ProcessId::from_optional(Some(7)));
    assert_ne!(ProcessId::new(7), ProcessId::new(8));
    assert_eq!(ProcessId::from_optional(None), None);
    assert_eq!(ProcessId::from_optional(Some(0)), None);
}

#[test]
fn steps_are_at_least_one() {
    assert_eq!(step_size_of(0), 1);
    assert_eq!(step_size_of(-40), 40);
    assert_eq!(step_size_of(40), 40);
    assert!(ResizeIntent::new(Direction::West, ResizeKind::Grow, 1).grow());
    assert!(!ResizeIntent::new(Direction::West, ResizeKind::Shrink, 1).grow());
}

#[test]
fn plans_never_promise_more_than_was_declared() {
    for declared in [
        CapabilitySupport::Native,
        CapabilitySupport::Composed,
        CapabilitySupport::Unsupported,
    ] {
        let mut capabilities = WindowManagerCapabilities::none();
        capabilities.tear_out = DirectionalCapability::uniform(declared);
        capabilities.resize = DirectionalCapability::uniform(declared);
        let lacking = if declared == CapabilitySupport::Composed {
            CapabilitySupport::Unsupported
        } else {
            declared
        };
        for direction in DIRECTIONS {
            assert_eq!(plan_tear_out(capabilities, direction), lacking);
            assert_eq!(plan_resize(capabilities, direction), lacking);
        }
        assert_eq!(
            capabilities.validate().is_ok(),
            declared != CapabilitySupport::Composed
        );
        capabilities.primitives.tear_out_right = true;
        capabilities.primitives.move_column = true;
        capabilities.primitives.consume_into_column_and_move = true;
        capabilities.primitives.set_window_width = true;
        capabilities.primitives.set_window_height = true;
        assert!(capabilities.validate().is_ok());
        for direction in DIRECTIONS {
            assert_eq!(plan_tear_out(capabilities, direction), declared);
            assert_eq!(plan_resize(capabilities, direction), declared);
        }
    }
}

#[test]
fn the_first_fault_is_reported() {
    let mut capabilities = WindowManagerCapabilities::none();
    capabilities.resize.west = CapabilitySupport::Composed;
    capabilities.tear_out.north = CapabilitySupport::Composed;
    let fault = capabilities.validate().unwrap_err();
    assert_eq!(
        fault,
        CapabilityFault {
            operation: ComposedOperation::Resize,
            direction: Direction::West,
        }
    );
    assert_eq!(
        fault.message(),
        "invalid capability declaration: resize.west is composed but required primitives are missing"
    );
    let error = WmError::InvalidCapabilities {
        adapter: "fake",
        fault,
    };
    assert_eq!(error.message(), "invalid capabilities for adapter 'fake'");
    assert_eq!(error.cause(), Some(fault.message()));
}

fn key(first: i128, second: i128) -> Key {
    Key {
        first,
        second,
        third: 0,
        fourth: 0,
    }
}

#[test]
fn ties_are_broken_by_position() {
    let keys = vec![
        None,
        Some(key(2, 0)),
        Some(key(1, 5)),
        Some(key(1, 5)),
        Some(key(2, 0)),
        Some(key(1, 6)),
    ];
    assert_eq!(first_least_key(&keys), Some(2));
    assert_eq!(last_greatest_key(&keys), Some(4));
    assert_eq!(first_least_key(&vec![None, None]), None);
    assert_eq!(last_greatest_key(&Vec::new()), None);
    assert_eq!(
        stable_order_of_keys(&vec![key(2, 0), key(1, 0), key(2, 0), key(0, 9)]),
        vec![3, 1, 0, 2]
    );
    assert!(key(0, 9).precedes(&key(1, 0)));
    assert!(!key(1, 0).precedes(&key(1, 0)));
}

#[test]
fn sets_of_identifiers_are_compared() {
    let ids = set_of(&vec![3, 1, 3]);
    assert_eq!(ids, HashSet::from([1, 3]));
    assert_eq!(copy_set(&ids), ids);
    assert!(are_disjoint(&ids, &HashSet::from([2])));
    assert!(!are_disjoint(&ids, &HashSet::from([2, 3])));
    assert!(are_disjoint(&ids, &HashSet::new()));
}

#[test]
fn white_space_is_what_unicode_says() {
    for number in 0..=0x10_FFFFu32 {
        if let Some(c) = char::from_u32(number) {
            assert_eq!(is_space_char(c), c.is_whitespace(), "{number:x}");
        }
    }
}

const SAMPLES: [&str; 12] = [
    "",
    " ",
    "one",
    " one two\tthree \u{3000}four ",
    "a\nb\n",
    "a\r\nb\r\n\nc",
    "\n",
    "\r",
    "a\rb\r",
    "\u{a0}padded\u{85}",
    "x\n\ny",
    "\u{1f600} smile",
];

#[test]
fn text_is_taken_apart_as_usual() {
    for sample in SAMPLES {
        assert_eq!(trimmed(sample), sample.trim());
        assert_eq!(lines_of(sample), sample.lines().collect::<Vec<_>>());
        assert_eq!(
            words_of(sample),
            sample.split_whitespace().collect::<Vec<_>>()
        );
        assert_eq!(contains_char(sample, 'a'), sample.contains('a'));
        assert_eq!(
            contains_space(sample),
            sample.chars().any(char::is_whitespace)
        );
        for other in SAMPLES {
            assert_eq!(same_text(sample, other), sample == other);
            assert_eq!(
                without_prefix(sample, other).as_deref(),
                sample.strip_prefix(other)
            );
        }
        let words: Vec<String> = words_of(sample);
        assert_eq!(joined(&words, " "), words.join(" "));
    }
    assert_eq!(stripped("\"\"quoted\"", '"'), "quoted");
    assert_eq!(stripped("\"\"\"", '"'), "");
    assert_eq!(non_blank_of(&Some("  ".to_string())), None);
    assert_eq!(
        non_blank_of(&Some(" x ".to_string())).as_deref(),
        Some("x")
    );
    assert_eq!(non_blank_of(&None), None);
}

#[test]
fn numbers_are_read_and_written_as_usual() {
    let samples = [
        "", "+", "-", "0", "-0", "+7", "007", "4294967295", "4294967296", "2147483647",
        "2147483648", "-2147483648", "-2147483649", " 1", "1 ", "1_0", "0x1", "a", "ff", "FF",
        "--1", "18446744073709551615", "18446744073709551616",
    ];
    for sample in samples {
        assert_eq!(parse_u32(sample), sample.parse::<u32>().ok(), "{sample}");
        assert_eq!(parse_i32(sample), sample.parse::<i32>().ok(), "{sample}");
        for radix in [10, 16] {
            assert_eq!(
                parse_unsigned(sample, radix, u64::MAX),
                u64::from_str_radix(sample, radix as u32).ok(),
                "{sample}"
            );
        }
    }
    for number in [0, 1, 9, 10, 255, 4096, u64::MAX] {
        assert_eq!(write_number(number, 10), format!("{number}"));
        assert_eq!(write_number(number, 16), format!("{number:x}"));
    }
}
