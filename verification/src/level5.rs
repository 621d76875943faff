//! The fifth controller: full throttle, except in front of a traffic light
//! that calls for a stop and will not change in time.
use vstd::prelude::*;
use crate::command::{command, command_text};
use crate::fields::{fields_of, spells, split_fields, views};
use crate::reader::{count_where, feed, lemma_count_where_agrees};
use crate::traffic::{calls_for_stop, is_stop_light};

verus! {

/// The throttle with the pedal fully down, in percent.
pub const MAX_SPEED_VALUE: u32 = 100;

/// The brake fully applied, in percent.
pub const MAX_BRAKE_VALUE: u32 = 100;

/// The throttle released.
pub const MIN_SPEED_VALUE: u32 = 0;

/// The brake released.
pub const MIN_BRAKE_VALUE: u32 = 0;

/// What a received line sets.
#[derive(Clone, Copy, Debug, PartialEq, Eq, Structural)]
pub enum Reading {
    Speed,
    Distance,
    SpeedLimit,
    TrafficLight,
    Other,
}

/// A received line, taken apart: whether it asks for an update, what it
/// sets, and its space-separated fields.
pub struct ParsedLine {
    pub update: bool,
    pub reading: Reading,
    pub fields: Vec<Vec<char>>,
}

/// What a line whose first field is `name` sets.
pub open spec fn reading_named(name: Seq<char>) -> Reading {
    if name == "speed"@ {
        Reading::Speed
    } else if name == "distance"@ {
        Reading::Distance
    } else if name == "speedlimit"@ {
        Reading::SpeedLimit
    } else if name == "trafficlight"@ {
        Reading::TrafficLight
    } else {
        Reading::Other
    }
}

/// Whether `line` asks for an update, what it sets, and its fields: only
/// the line `update` asks for an update, and it carries no fields; any other
/// line is split at its spaces.
pub open spec fn parsed(line: Seq<char>) -> (bool, Reading, Seq<Seq<char>>) {
    if line == "update"@ {
        (true, Reading::Other, Seq::<Seq<char>>::empty())
    } else {
        (false, reading_named(fields_of(line)[0]), fields_of(line))
    }
}

/// Only the line `update` asks for an update, and it carries no fields; any
/// other line keeps all its space-separated fields, and each reading name
/// sets its own reading, any other first field nothing.
pub proof fn lemma_reading_names(line: Seq<char>)
    ensures
        line == "update"@ ==> parsed(line).0 && parsed(line).2.len() == 0,
        line != "update"@ ==> !parsed(line).0 && parsed(line).2 == fields_of(line),
        line != "update"@ && fields_of(line)[0] == "speed"@ ==> parsed(line).1 == Reading::Speed,
        line != "update"@ && fields_of(line)[0] == "distance"@ ==> parsed(line).1 == Reading::Distance,
        line != "update"@ && fields_of(line)[0] == "speedlimit"@ ==> parsed(line).1 == Reading::SpeedLimit,
        line != "update"@ && fields_of(line)[0] == "trafficlight"@ ==> parsed(line).1 == Reading::TrafficLight,
        line != "update"@ && fields_of(line)[0] != "speed"@ && fields_of(line)[0] != "distance"@ && fields_of(line)[0] != "speedlimit"@ && fields_of(line)[0] != "trafficlight"@ ==> parsed(line).1 == Reading::Other,
{
    reveal_strlit("update");
    reveal_strlit("speed");
    reveal_strlit("distance");
    reveal_strlit("speedlimit");
    reveal_strlit("trafficlight");
    crate::fields::lemma_field_count(line);
    assert("speed"@.len() == 5);
    assert("distance"@.len() == 8);
    assert("speedlimit"@.len() == 10);
    assert("trafficlight"@.len() == 12);
}

/// Takes a received line apart. A reading's values are the fields after the
/// first: the speed; the distance; the current limit, the distance to the
/// next limit and the next limit; the distance to the light, its state and
/// the time left in that state.
pub fn parse_line(input: &Vec<char>) -> (r: ParsedLine)
    ensures
        (r.update, r.reading, views(r.fields@)) == parsed(input@),
        input@ == "update"@ ==> r.update && r.fields@.len() == 0,
        input@ != "update"@ ==> !r.update && views(r.fields@) == fields_of(input@),
        input@ != "update"@ && fields_of(input@)[0] == "speed"@ ==> r.reading == Reading::Speed,
        input@ != "update"@ && fields_of(input@)[0] == "distance"@ ==> r.reading == Reading::Distance,
        input@ != "update"@ && fields_of(input@)[0] == "speedlimit"@ ==> r.reading == Reading::SpeedLimit,
        input@ != "update"@ && fields_of(input@)[0] == "trafficlight"@ ==> r.reading == Reading::TrafficLight,
        input@ != "update"@ && fields_of(input@)[0] != "speed"@ && fields_of(input@)[0] != "distance"@ && fields_of(input@)[0] != "speedlimit"@ && fields_of(input@)[0] != "trafficlight"@ ==> r.reading == Reading::Other,
{
    proof {
        lemma_reading_names(input@);
    }
    if spells(input, "update") {
        return ParsedLine { update: true, reading: Reading::Other, fields: Vec::new() };
    }
    let fields = split_fields(input);
    proof {
        crate::fields::lemma_field_count(input@);
    }
    let name = &fields[0];
    assert(name@ == views(fields@)[0]);
    proof {
        reveal_strlit("speed");
        reveal_strlit("distance");
        reveal_strlit("speedlimit");
        reveal_strlit("trafficlight");
    }
    let reading = if spells(name, "speed") {
        Reading::Speed
    } else if spells(name, "distance") {
        Reading::Distance
    } else if spells(name, "speedlimit") {
        Reading::SpeedLimit
    } else if spells(name, "trafficlight") {
        Reading::TrafficLight
    } else {
        Reading::Other
    };
    ParsedLine { update: false, reading, fields }
}

/// Whether `line` is answered with a command: only the line `update` is.
pub open spec fn owes_answer(line: Seq<char>) -> bool {
    parsed(line).0
}

/// Whether a received line, taken apart as `parsed`, is answered with a command.
pub fn answer_owed(parsed: &ParsedLine) -> (r: bool)
    ensures
        r == parsed.update,
{
    parsed.update
}

/// Over any stream of bytes, the lines answered are exactly the complete
/// lines that read `update`: one command for each of them, none for any
/// other line.
pub proof fn lemma_one_answer_per_update_line(bytes: Seq<u8>)
    ensures
        count_where(feed(Seq::<char>::empty(), bytes).0, |l: Seq<char>| owes_answer(l))
            == count_where(feed(Seq::<char>::empty(), bytes).0, |l: Seq<char>| l == "update"@),
{
    lemma_count_where_agrees(
        feed(Seq::<char>::empty(), bytes).0,
        |l: Seq<char>| owes_answer(l),
        |l: Seq<char>| l == "update"@,
    );
}

/// The throttle and the brake the controller asks for, each in percent.
#[derive(Clone, Copy, Debug, PartialEq, Eq, Structural)]
pub struct Controls {
    pub throttle: u32,
    pub brake: u32,
}

impl Controls {
    /// Both pedals released, as before the first update.
    pub fn new() -> (r: Controls)
        ensures
            r.throttle == 0,
            r.brake == 0,
    {
        Controls { throttle: 0, brake: 0 }
    }

    /// Sets the throttle and the brake.
    pub fn set_motion(&mut self, throttle: u32, brake: u32)
        ensures
            final(self).throttle == throttle,
            final(self).brake == brake,
    {
        self.throttle = throttle;
        self.brake = brake;
    }

    /// The command that sends these controls to the car.
    pub fn command(&self) -> (s: String)
        ensures
            s@ == command_text(self.throttle as nat, self.brake as nat),
    {
        command(self.throttle, self.brake)
    }
}

/// Whether the car must stop for the light: it calls for a stop and the
/// time left in its state is shorter than the time the car needs to brake.
pub open spec fn must_stop(light_state: Seq<char>, light_time_short: bool) -> bool {
    calls_for_stop(light_state) && light_time_short
}

/// The throttle and the brake an update sets: full brake when the car must
/// stop for the light, full throttle otherwise.
pub open spec fn controls_after_update(light_state: Seq<char>, light_time_short: bool) -> (
    nat,
    nat,
) {
    if must_stop(light_state, light_time_short) {
        (MIN_SPEED_VALUE as nat, MAX_BRAKE_VALUE as nat)
    } else {
        (MAX_SPEED_VALUE as nat, MIN_BRAKE_VALUE as nat)
    }
}

/// A red, yellow, or red and yellow light whose time left is too short
/// makes the update brake fully with the throttle released; any other light,
/// or enough time left, makes it drive on at full throttle with the brake
/// released.
pub proof fn lemma_update_table(light_state: Seq<char>, light_time_short: bool)
    ensures
        (light_state == "Red"@ || light_state == "Yellow"@ || light_state == "RedYellow"@) && light_time_short ==> controls_after_update(light_state, light_time_short)
            == (0nat, 100nat),
        !((light_state == "Red"@ || light_state == "Yellow"@ || light_state == "RedYellow"@) && light_time_short) ==> controls_after_update(
            light_state,
            light_time_short,
        ) == (100nat, 0nat),
{
}

/// Sets the controls on an update: full throttle, unless the light calls for
/// a stop and `light_time_short` says its time left is shorter than the time
/// the car needs to brake, in which case full brake.
pub fn update(input: &mut Controls, light_state: &str, light_time_short: bool)
    ensures
        (final(input).throttle as nat, final(input).brake as nat) == controls_after_update(
            light_state@,
            light_time_short,
        ),
        (light_state@ == "Red"@ || light_state@ == "Yellow"@ || light_state@ == "RedYellow"@) && light_time_short ==> final(input).throttle == 0 && final(input).brake == 100,
        !((light_state@ == "Red"@ || light_state@ == "Yellow"@ || light_state@ == "RedYellow"@) && light_time_short) ==> final(input).throttle == 100 && final(input).brake
            == 0,
{
    input.set_motion(MAX_SPEED_VALUE, MIN_BRAKE_VALUE);
    if is_stop_light(light_state) {
        if light_time_short {
            input.set_motion(MIN_SPEED_VALUE, MAX_BRAKE_VALUE);
        }
    }
}

/// An update tells the car either full throttle with the brake released or
/// full brake with the throttle released, never anything else.
pub proof fn lemma_update_is_all_or_nothing(light_state: Seq<char>, light_time_short: bool)
    ensures
        controls_after_update(light_state, light_time_short) == (100nat, 0nat)
            || controls_after_update(light_state, light_time_short) == (0nat, 100nat),
{
}

/// A light that does not call for a stop never makes the car brake.
pub proof fn lemma_other_lights_keep_going(light_state: Seq<char>, light_time_short: bool)
    requires
        !calls_for_stop(light_state),
    ensures
        controls_after_update(light_state, light_time_short) == (100nat, 0nat),
{
}

} // verus!
