//! The second controller: also keeps to the speed limits along the way.
use vstd::prelude::*;
use crate::command::{command, command_text};
use crate::fields::{fields_of, spells, split_fields, views};

verus! {

/// What a received line reported.
#[derive(Clone, Copy, Debug, PartialEq, Eq, Structural)]
pub enum TelemetryData {
    Speed,
    Distance,
    Time,
    Update,
    SpeedLimit,
}

/// What the controller tells the car to do.
#[derive(Clone, Copy, Debug, PartialEq, Eq, Structural)]
pub enum Action {
    Accelerate,
    AccelerateTempered,
    Brake,
    Cruise,
    NoCommand,
}

/// A received line, taken apart: what it reports and its space-separated fields.
pub struct ParsedLine {
    pub data: TelemetryData,
    pub fields: Vec<Vec<char>>,
}

/// What a line whose first field is `name` reports; a name the controller
/// does not know counts as an update.
pub open spec fn data_named(name: Seq<char>) -> TelemetryData {
    if name == "speed"@ {
        TelemetryData::Speed
    } else if name == "time"@ {
        TelemetryData::Time
    } else if name == "distance"@ {
        TelemetryData::Distance
    } else if name == "speedlimit"@ {
        TelemetryData::SpeedLimit
    } else {
        TelemetryData::Update
    }
}

/// What `line` reports, and its fields: the line `update` carries no fields;
/// any other line is split at its spaces.
pub open spec fn parsed(line: Seq<char>) -> (TelemetryData, Seq<Seq<char>>) {
    if line == "update"@ {
        (TelemetryData::Update, Seq::<Seq<char>>::empty())
    } else {
        (data_named(fields_of(line)[0]), fields_of(line))
    }
}

/// Each reading name is reported as its own reading, any other first field
/// as an update; the line `update` is an update with no fields, and any other
/// line keeps all its space-separated fields.
pub proof fn lemma_reading_names(line: Seq<char>)
    ensures
        line == "update"@ ==> parsed(line).0 == TelemetryData::Update && parsed(line).1.len() == 0,
        line != "update"@ ==> parsed(line).1 == fields_of(line),
        line != "update"@ && fields_of(line)[0] == "speed"@ ==> parsed(line).0 == TelemetryData::Speed,
        line != "update"@ && fields_of(line)[0] == "time"@ ==> parsed(line).0 == TelemetryData::Time,
        line != "update"@ && fields_of(line)[0] == "distance"@ ==> parsed(line).0 == TelemetryData::Distance,
        line != "update"@ && fields_of(line)[0] == "speedlimit"@ ==> parsed(line).0 == TelemetryData::SpeedLimit,
        line != "update"@ && fields_of(line)[0] != "speed"@ && fields_of(line)[0] != "time"@ && fields_of(line)[0] != "distance"@ && fields_of(line)[0] != "speedlimit"@ ==> parsed(line).0 == TelemetryData::Update,
{
    reveal_strlit("update");
    reveal_strlit("speed");
    reveal_strlit("time");
    reveal_strlit("distance");
    reveal_strlit("speedlimit");
    crate::fields::lemma_field_count(line);
    assert("speed"@.len() == 5);
    assert("time"@.len() == 4);
    assert("distance"@.len() == 8);
    assert("speedlimit"@.len() == 10);
}

/// Takes a received line apart. A reading's values are the fields after the
/// first: one for speed, time and distance; the current limit, the distance
/// to the next limit and the next limit for a speed limit.
pub fn parse_line(input: &Vec<char>) -> (r: ParsedLine)
    ensures
        (r.data, views(r.fields@)) == parsed(input@),
        input@ == "update"@ ==> r.data == TelemetryData::Update && r.fields@.len() == 0,
        input@ != "update"@ ==> views(r.fields@) == fields_of(input@),
        input@ != "update"@ && fields_of(input@)[0] == "speed"@ ==> r.data == TelemetryData::Speed,
        input@ != "update"@ && fields_of(input@)[0] == "time"@ ==> r.data == TelemetryData::Time,
        input@ != "update"@ && fields_of(input@)[0] == "distance"@ ==> r.data == TelemetryData::Distance,
        input@ != "update"@ && fields_of(input@)[0] == "speedlimit"@ ==> r.data == TelemetryData::SpeedLimit,
        input@ != "update"@ && fields_of(input@)[0] != "speed"@ && fields_of(input@)[0] != "time"@ && fields_of(input@)[0] != "distance"@ && fields_of(input@)[0] != "speedlimit"@ ==> r.data == TelemetryData::Update,
{
    proof {
        lemma_reading_names(input@);
    }
    if spells(input, "update") {
        return ParsedLine { data: TelemetryData::Update, fields: Vec::new() };
    }
    let fields = split_fields(input);
    proof {
        crate::fields::lemma_field_count(input@);
    }
    let name = &fields[0];
    assert(name@ == views(fields@)[0]);
    proof {
        reveal_strlit("speed");
        reveal_strlit("time");
        reveal_strlit("distance");
        reveal_strlit("speedlimit");
    }
    let mut data = TelemetryData::Update;
    if spells(name, "speed") {
        data = TelemetryData::Speed;
    }
    if spells(name, "time") {
        data = TelemetryData::Time;
    }
    if spells(name, "distance") {
        data = TelemetryData::Distance;
    }
    if spells(name, "speedlimit") {
        data = TelemetryData::SpeedLimit;
    }
    ParsedLine { data, fields }
}

/// Whether `line` is answered with a command: it reports an update, which
/// the line `update` does, and so does any line whose first field names no
/// reading the controller knows.
pub open spec fn owes_answer(line: Seq<char>) -> bool {
    parsed(line).0 == TelemetryData::Update
}

/// Whether a received line, taken apart as `parsed`, is answered with a command.
pub fn answer_owed(parsed: &ParsedLine) -> (r: bool)
    ensures
        r == (parsed.data == TelemetryData::Update),
{
    parsed.data == TelemetryData::Update
}

/// The lines answered are the line `update` and the lines whose first field
/// is no known reading; a reading is never answered.
pub proof fn lemma_answered_lines(line: Seq<char>)
    ensures
        owes_answer(line) <==> (line == "update"@ || !({
            let name = fields_of(line)[0];
            name == "speed"@ || name == "time"@ || name == "distance"@ || name == "speedlimit"@
        })),
{
}

/// How the car's readings compare with the thresholds the controller uses.
pub struct Observations {
    /// The distance is below the target of 1500.
    pub short_of_target: bool,
    /// The distance is above the target of 1500.
    pub past_target: bool,
    /// The speed is above the current limit less 2.
    pub near_speed_limit: bool,
    /// The distance to the next limit is below one and a half times the
    /// difference between the current and the next limit.
    pub within_braking_distance: bool,
    /// The speed is above the next limit.
    pub faster_than_next_limit: bool,
    /// The speed is below the next limit.
    pub slower_than_next_limit: bool,
    /// The next limit is not zero.
    pub next_limit_known: bool,
}

/// The action for what was observed. Short of the target: brake for a lower
/// next limit close ahead, cruise for a higher one close ahead or near the
/// current limit, and accelerate otherwise. Past the target: brake. At the
/// target: send nothing.
pub open spec fn action_for(o: Observations) -> Action {
    if o.short_of_target {
        if o.within_braking_distance && o.faster_than_next_limit && o.next_limit_known {
            Action::Brake
        } else if o.within_braking_distance && o.slower_than_next_limit {
            Action::Cruise
        } else if o.near_speed_limit {
            Action::Cruise
        } else {
            Action::Accelerate
        }
    } else if o.past_target {
        Action::Brake
    } else {
        Action::NoCommand
    }
}

/// The decision, case by case. Past the target the car brakes, and at it
/// nothing is sent. Short of the target it brakes exactly when a lower,
/// non-zero next limit lies within braking distance; it cruises near the
/// current limit or for a higher next limit within braking distance; it
/// accelerates otherwise, whatever the next limit is; and it never asks for
/// tempered acceleration.
pub proof fn lemma_decision_table(o: Observations)
    ensures
        !o.short_of_target && o.past_target ==> action_for(o) == Action::Brake,
        !o.short_of_target && !o.past_target ==> action_for(o) == Action::NoCommand,
        o.short_of_target ==> (action_for(o) == Action::Brake <==> (o.within_braking_distance && o.faster_than_next_limit && o.next_limit_known)),
        o.short_of_target && !o.within_braking_distance && o.near_speed_limit ==> action_for(o) == Action::Cruise,
        o.short_of_target && !o.within_braking_distance && !o.near_speed_limit ==> action_for(o) == Action::Accelerate,
        o.short_of_target && o.within_braking_distance && !(o.faster_than_next_limit && o.next_limit_known) && o.slower_than_next_limit ==> action_for(o) == Action::Cruise,
        o.short_of_target && o.within_braking_distance && !(o.faster_than_next_limit && o.next_limit_known) && !o.slower_than_next_limit && o.near_speed_limit ==> action_for(o) == Action::Cruise,
        o.short_of_target && o.within_braking_distance && !(o.faster_than_next_limit && o.next_limit_known) && !o.slower_than_next_limit && !o.near_speed_limit ==> action_for(o) == Action::Accelerate,
        action_for(o) != Action::AccelerateTempered,
{
}

/// Decides what to tell the car on an update.
pub fn execute_action(input: &Observations) -> (r: Action)
    ensures
        r == action_for(*input),
        !input.short_of_target && input.past_target ==> r == Action::Brake,
        !input.short_of_target && !input.past_target ==> r == Action::NoCommand,
        input.short_of_target ==> (r == Action::Brake <==> (input.within_braking_distance && input.faster_than_next_limit && input.next_limit_known)),
        input.short_of_target && !input.within_braking_distance && input.near_speed_limit ==> r == Action::Cruise,
        input.short_of_target && !input.within_braking_distance && !input.near_speed_limit ==> r == Action::Accelerate,
        input.short_of_target && input.within_braking_distance && !(input.faster_than_next_limit && input.next_limit_known) && input.slower_than_next_limit ==> r == Action::Cruise,
        input.short_of_target && input.within_braking_distance && !(input.faster_than_next_limit && input.next_limit_known) && !input.slower_than_next_limit && input.near_speed_limit ==> r == Action::Cruise,
        input.short_of_target && input.within_braking_distance && !(input.faster_than_next_limit && input.next_limit_known) && !input.slower_than_next_limit && !input.near_speed_limit ==> r == Action::Accelerate,
        r != Action::AccelerateTempered,
{
    let mut action = Action::NoCommand;
    if input.past_target {
        action = Action::Brake;
    }
    if input.short_of_target {
        action = Action::Accelerate;
        if input.near_speed_limit {
            action = Action::Cruise;
        }
        if input.within_braking_distance && input.faster_than_next_limit
            && input.next_limit_known {
            action = Action::Brake;
        } else if input.within_braking_distance && input.slower_than_next_limit {
            action = Action::Cruise;
        }
    }
    action
}

/// The command text sent for an action, if any.
pub open spec fn command_of(action: Action) -> Option<Seq<char>> {
    match action {
        Action::Accelerate => Some(command_text(100, 0)),
        Action::AccelerateTempered => Some(command_text(30, 0)),
        Action::Brake => Some(command_text(0, 100)),
        Action::Cruise => Some(command_text(0, 0)),
        Action::NoCommand => None,
    }
}

/// The text sent for each action, written out.
pub proof fn lemma_command_table(action: Action)
    ensures
        command_of(Action::Accelerate) == Some("throttle 100\nbrake 0\n"@),
        command_of(Action::AccelerateTempered) == Some("throttle 30\nbrake 0\n"@),
        command_of(Action::Brake) == Some("throttle 0\nbrake 100\n"@),
        command_of(Action::Cruise) == Some("throttle 0\nbrake 0\n"@),
        command_of(Action::NoCommand) is None,
{
    crate::command::lemma_fixed_command_texts();
}

/// The command text to send for `action`; nothing is sent for `NoCommand`.
pub fn command_for(action: Action) -> (r: Option<String>)
    ensures
        match r {
            Some(s) => command_of(action) == Some(s@),
            None => command_of(action) is None,
        },
        action == Action::Accelerate ==> (r matches Some(s) && s@ == "throttle 100\nbrake 0\n"@),
        action == Action::AccelerateTempered ==> (r matches Some(s) && s@ == "throttle 30\nbrake 0\n"@),
        action == Action::Brake ==> (r matches Some(s) && s@ == "throttle 0\nbrake 100\n"@),
        action == Action::Cruise ==> (r matches Some(s) && s@ == "throttle 0\nbrake 0\n"@),
        action == Action::NoCommand ==> r is None,
{
    proof {
        crate::command::lemma_fixed_command_texts();
    }
    match action {
        Action::Accelerate => Some(command(100, 0)),
        Action::AccelerateTempered => Some(command(30, 0)),
        Action::Brake => Some(command(0, 100)),
        Action::Cruise => Some(command(0, 0)),
        Action::NoCommand => None,
    }
}

/// Short of the target, a lower non-zero limit within braking distance makes
/// the car brake, whatever else was observed.
pub proof fn lemma_lower_limit_ahead_brakes(o: Observations)
    requires
        o.short_of_target,
        o.within_braking_distance,
        o.faster_than_next_limit,
        o.next_limit_known,
    ensures
        action_for(o) == Action::Brake,
{
}

/// The controller never asks for tempered acceleration.
pub proof fn lemma_never_tempered(o: Observations)
    ensures
        action_for(o) != Action::AccelerateTempered,
{
}

} // verus!
