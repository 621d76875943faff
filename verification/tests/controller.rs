use autopilot::command::command;
use autopilot::fields::{same_text, spells, split_fields};
use autopilot::level1;
use autopilot::level2;
use autopilot::level4;
use autopilot::level5;
use autopilot::reader::LineReader;
use autopilot::traffic::is_stop_light;

fn chars(s: &str) -> Vec<char> {
    s.chars().collect()
}

fn texts(fields: &Vec<Vec<char>>) -> Vec<String> {
    fields.iter().map(|f| f.iter().collect()).collect()
}

#[test]
fn split_keeps_empty_fields() {
    assert_eq!(texts(&split_fields(&chars("speedlimit 50 120 30"))), vec!["speedlimit", "50", "120", "30"]);
    assert_eq!(texts(&split_fields(&chars("a  b"))), vec!["a", "", "b"]);
    assert_eq!(texts(&split_fields(&chars(""))), vec![""]);
    assert_eq!(texts(&split_fields(&chars("speed "))), vec!["speed", ""]);
    assert_eq!(texts(&split_fields(&chars(" "))), vec!["", ""]);
}

#[test]
fn split_agrees_with_str_split() {
    for line in ["speed 12.5", "x y z", "  lead", "trail  ", "update", "trafficlight 40 Red 3"] {
        let expected: Vec<String> = line.split(' ').map(|s| s.to_string()).collect();
        assert_eq!(texts(&split_fields(&chars(line))), expected);
    }
}

#[test]
fn split_then_join_gives_back_the_line() {
    let line = "trafficlight 40.5 RedYellow  2";
    assert_eq!(texts(&split_fields(&chars(line))).join(" "), line);
}

#[test]
fn spelling_and_text_comparison() {
    assert!(spells(&chars("update"), "update"));
    assert!(!spells(&chars("update "), "update"));
    assert!(!spells(&chars("updatf"), "update"));
    assert!(same_text("Red", "Red"));
    assert!(!same_text("Red", "red"));
    assert!(!same_text("Red", "RedYellow"));
}

#[test]
fn reader_hands_out_lines_at_newline() {
    let mut reader = LineReader::new();
    let mut lines: Vec<String> = Vec::new();
    for b in "speed 3\nupdate\nspe".bytes() {
        if let Some(line) = reader.receive(b) {
            lines.push(line.iter().collect());
        }
    }
    assert_eq!(lines, vec!["speed 3".to_string(), "update".to_string()]);
    let rest: String = reader.receive(10).unwrap().iter().collect();
    assert_eq!(rest, "spe");
}

#[test]
fn reader_empty_line() {
    let mut reader = LineReader::new();
    assert_eq!(reader.receive(10), Some(Vec::new()));
    assert_eq!(reader.receive(b'a'), None);
    assert_eq!(reader.receive(0xe9), None);
    assert_eq!(reader.receive(10), Some(vec!['a', '\u{e9}']));
}

#[test]
fn command_texts() {
    assert_eq!(command(100, 0), "throttle 100\nbrake 0\n");
    assert_eq!(command(0, 100), "throttle 0\nbrake 100\n");
    assert_eq!(command(0, 0), "throttle 0\nbrake 0\n");
    assert_eq!(command(30, 0), "throttle 30\nbrake 0\n");
    assert_eq!(command(4294967295, 9), "throttle 4294967295\nbrake 9\n");
}

#[test]
fn stop_lights() {
    assert!(is_stop_light("Red"));
    assert!(is_stop_light("Yellow"));
    assert!(is_stop_light("RedYellow"));
    assert!(!is_stop_light("Green"));
    assert!(!is_stop_light("none"));
    assert!(!is_stop_light("red"));
    assert!(!is_stop_light(""));
}

#[test]
fn level1_parse_lines() {
    let r = level1::parse_line(&chars("update"));
    assert_eq!(r.data, level1::TelemetryData::Update);
    assert!(r.fields.is_empty());

    let r = level1::parse_line(&chars("speed 12.5"));
    assert_eq!(r.data, level1::TelemetryData::Speed);
    assert_eq!(texts(&r.fields), vec!["speed", "12.5"]);

    assert_eq!(level1::parse_line(&chars("time 3")).data, level1::TelemetryData::Time);
    assert_eq!(level1::parse_line(&chars("distance 400")).data, level1::TelemetryData::Distance);

    let r = level1::parse_line(&chars("gear 2"));
    assert_eq!(r.data, level1::TelemetryData::Update);
    assert_eq!(texts(&r.fields), vec!["gear", "2"]);

    let r = level1::parse_line(&chars("update 1"));
    assert_eq!(r.data, level1::TelemetryData::Update);
    assert_eq!(r.fields.len(), 2);
}

#[test]
fn level1_actions() {
    let obs = |short, past| level1::Observations { short_of_target: short, past_target: past };
    assert_eq!(level1::execute_action(&obs(true, false)), level1::Action::Accelerate);
    assert_eq!(level1::execute_action(&obs(false, true)), level1::Action::Brake);
    assert_eq!(level1::execute_action(&obs(false, false)), level1::Action::NoCommand);
    assert_eq!(level1::execute_action(&obs(true, true)), level1::Action::Brake);
    assert_eq!(level1::command_for(level1::Action::Accelerate).unwrap(), "throttle 100\nbrake 0\n");
    assert_eq!(level1::command_for(level1::Action::Brake).unwrap(), "throttle 0\nbrake 100\n");
    assert_eq!(level1::command_for(level1::Action::NoCommand), None);
}

fn level2_obs() -> level2::Observations {
    level2::Observations {
        short_of_target: true,
        past_target: false,
        near_speed_limit: false,
        within_braking_distance: false,
        faster_than_next_limit: false,
        slower_than_next_limit: false,
        next_limit_known: true,
    }
}

#[test]
fn level2_parse_lines() {
    let r = level2::parse_line(&chars("speedlimit 50 120 30"));
    assert_eq!(r.data, level2::TelemetryData::SpeedLimit);
    assert_eq!(texts(&r.fields), vec!["speedlimit", "50", "120", "30"]);
    assert_eq!(level2::parse_line(&chars("speed 1")).data, level2::TelemetryData::Speed);
    assert_eq!(level2::parse_line(&chars("trafficlight 1 Red 2")).data, level2::TelemetryData::Update);
    assert_eq!(level2::parse_line(&chars("update")).fields.len(), 0);
}

#[test]
fn level2_actions() {
    let o = level2_obs();
    assert_eq!(level2::execute_action(&o), level2::Action::Accelerate);
    let o2 = level2::Observations { near_speed_limit: true, ..level2_obs() };
    assert_eq!(level2::execute_action(&o2), level2::Action::Cruise);
    let o3 = level2::Observations {
        near_speed_limit: true,
        within_braking_distance: true,
        faster_than_next_limit: true,
        ..level2_obs()
    };
    assert_eq!(level2::execute_action(&o3), level2::Action::Brake);
    let o4 = level2::Observations { next_limit_known: false, ..o3 };
    assert_eq!(level2::execute_action(&o4), level2::Action::Cruise);
    let o5 = level2::Observations {
        within_braking_distance: true,
        slower_than_next_limit: true,
        ..level2_obs()
    };
    assert_eq!(level2::execute_action(&o5), level2::Action::Cruise);
    let o6 = level2::Observations { short_of_target: false, past_target: true, ..o5 };
    assert_eq!(level2::execute_action(&o6), level2::Action::Brake);
    let o7 = level2::Observations { short_of_target: false, past_target: false, ..o5 };
    assert_eq!(level2::execute_action(&o7), level2::Action::NoCommand);
    assert_eq!(level2::command_for(level2::Action::Cruise).unwrap(), "throttle 0\nbrake 0\n");
    assert_eq!(level2::command_for(level2::Action::AccelerateTempered).unwrap(), "throttle 30\nbrake 0\n");
}

fn level4_obs() -> level4::Observations {
    level4::Observations {
        short_of_target: true,
        past_target: false,
        far_below_speed_limit: false,
        near_speed_limit: false,
        within_braking_distance: false,
        faster_than_next_limit: false,
        slower_than_next_limit: false,
        next_limit_known: true,
        light_within_braking_distance: false,
        light_within_ten: false,
    }
}

#[test]
fn level4_parse_lines() {
    let r = level4::parse_line(&chars("trafficlight 40 Red 3"));
    assert_eq!(r.data, level4::TelemetryData::TrafficLight);
    assert_eq!(texts(&r.fields), vec!["trafficlight", "40", "Red", "3"]);
}

#[test]
fn level4_actions() {
    assert_eq!(level4::execute_action(&level4_obs(), "none"), level4::Action::Accelerate);
    let far = level4::Observations { far_below_speed_limit: true, ..level4_obs() };
    assert_eq!(level4::execute_action(&far, "Green"), level4::Action::AccelerateTempered);
    let near = level4::Observations { near_speed_limit: true, ..far };
    assert_eq!(level4::execute_action(&near, "Green"), level4::Action::Cruise);
    let light = level4::Observations { light_within_ten: true, ..far };
    assert_eq!(level4::execute_action(&light, "Green"), level4::Action::AccelerateTempered);
    assert_eq!(level4::execute_action(&light, "Yellow"), level4::Action::Brake);
    let done = level4::Observations {
        short_of_target: false,
        light_within_braking_distance: true,
        ..level4_obs()
    };
    assert_eq!(level4::execute_action(&done, "Green"), level4::Action::NoCommand);
    assert_eq!(level4::execute_action(&done, "RedYellow"), level4::Action::Brake);
}

#[test]
fn level4_tempered_throttle_steps() {
    let mut t = level4::TemperedThrottle::new();
    let mut seen = Vec::new();
    for _ in 0..14 {
        seen.push(t.value());
        let _ = t.command();
    }
    assert_eq!(seen, vec![21, 26, 31, 36, 41, 46, 51, 56, 61, 66, 71, 76, 76, 76]);
    assert_eq!(t.command(), "throttle 76\nbrake 0\n");
}

#[test]
fn level4_commands() {
    let mut t = level4::TemperedThrottle::new();
    assert_eq!(level4::command_for(level4::Action::AccelerateTempered, &mut t).unwrap(), "throttle 21\nbrake 0\n");
    assert_eq!(t.value(), 26);
    assert_eq!(level4::command_for(level4::Action::Brake, &mut t).unwrap(), "throttle 0\nbrake 100\n");
    assert_eq!(t.value(), 26);
    assert_eq!(level4::command_for(level4::Action::NoCommand, &mut t), None);
}

#[test]
fn level5_parse_lines() {
    let r = level5::parse_line(&chars("update"));
    assert!(r.update);
    assert!(r.fields.is_empty());
    let r = level5::parse_line(&chars("update 2"));
    assert!(!r.update);
    assert_eq!(r.reading, level5::Reading::Other);
    let r = level5::parse_line(&chars("trafficlight 12 Red 4.5"));
    assert!(!r.update);
    assert_eq!(r.reading, level5::Reading::TrafficLight);
    assert_eq!(texts(&r.fields), vec!["trafficlight", "12", "Red", "4.5"]);
    assert_eq!(level5::parse_line(&chars("time 5")).reading, level5::Reading::Other);
    assert_eq!(level5::parse_line(&chars("speedlimit 1 2 3")).reading, level5::Reading::SpeedLimit);
    assert_eq!(level5::parse_line(&chars("distance 9")).reading, level5::Reading::Distance);
    assert_eq!(level5::parse_line(&chars("speed 9")).reading, level5::Reading::Speed);
}

#[test]
fn level5_update() {
    let mut c = level5::Controls::new();
    assert_eq!(c.command(), "throttle 0\nbrake 0\n");
    level5::update(&mut c, "none", true);
    assert_eq!((c.throttle, c.brake), (100, 0));
    level5::update(&mut c, "Red", false);
    assert_eq!((c.throttle, c.brake), (100, 0));
    level5::update(&mut c, "Red", true);
    assert_eq!((c.throttle, c.brake), (0, 100));
    assert_eq!(c.command(), "throttle 0\nbrake 100\n");
    level5::update(&mut c, "Green", true);
    assert_eq!(c.command(), "throttle 100\nbrake 0\n");
}

#[test]
fn answers_owed_per_level() {
    assert!(level1::answer_owed(&level1::parse_line(&chars("update"))));
    assert!(level1::answer_owed(&level1::parse_line(&chars("gear 3"))));
    assert!(!level1::answer_owed(&level1::parse_line(&chars("speed 3"))));
    assert!(level2::answer_owed(&level2::parse_line(&chars("trafficlight 1 Red 2"))));
    assert!(!level2::answer_owed(&level2::parse_line(&chars("speedlimit 1 2 3"))));
    assert!(!level4::answer_owed(&level4::parse_line(&chars("trafficlight 1 Red 2"))));
    assert!(level4::answer_owed(&level4::parse_line(&chars("update"))));
    assert!(level5::answer_owed(&level5::parse_line(&chars("update"))));
    assert!(!level5::answer_owed(&level5::parse_line(&chars("update "))));
    assert!(!level5::answer_owed(&level5::parse_line(&chars("gear 3"))));
}

#[test]
fn level5_one_answer_per_update_line() {
    let mut reader = LineReader::new();
    let mut answers = 0;
    for b in "update\nspeed 3\nupdate\r\n update\nupdate\nupd".bytes() {
        if let Some(line) = reader.receive(b) {
            if level5::answer_owed(&level5::parse_line(&line)) {
                answers += 1;
            }
        }
    }
    assert_eq!(answers, 2);
}

#[test]
fn level4_tempered_commands_are_allowed_steps() {
    let mut t = level4::TemperedThrottle::new();
    for k in 0..20u32 {
        let v = t.value();
        assert_eq!(v % 5, 1);
        assert_eq!(v as u32, std::cmp::min(21 + 5 * k, 76));
        let text = level4::command_for(level4::Action::AccelerateTempered, &mut t).unwrap();
        assert_eq!(text, format!("throttle {}\nbrake 0\n", v));
    }
}
