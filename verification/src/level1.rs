//! The first controller: drives until the car reaches its target distance.
use vstd::prelude::*;
use crate::command::{command, command_text};
use crate::fields::{fields_of, spells, split_fields, views};

verus! {

/// What a received line reported.
#[derive(Clone, Copy, Debug, PartialEq, Eq, Structural)]
pub enum TelemetryData {
    Speed,
    Distance,
    Time,
    Update,
}

/// What the controller tells the car to do.
#[derive(Clone, Copy, Debug, PartialEq, Eq, Structural)]
pub enum Action {
    Accelerate,
    Brake,
    NoCommand,
}

/// A received line, taken apart: what it reports and its space-separated fields.
pub struct ParsedLine {
    pub data: TelemetryData,
    pub fields: Vec<Vec<char>>,
}

/// What a line whose first field is `name` reports; a name the controller
/// does not know counts as an update.
pub open spec fn data_named(name: Seq<char>) -> TelemetryData {
    if name == "speed"@ {
        TelemetryData::Speed
    } else if name == "time"@ {
        TelemetryData::Time
    } else if name == "distance"@ {
        TelemetryData::Distance
    } else {
        TelemetryData::Update
    }
}

/// What `line` reports, and the fields the reported value is read from: the
/// line `update` carries no fields; any other line is split at its spaces.
pub open spec fn parsed(line: Seq<char>) -> (TelemetryData, Seq<Seq<char>>) {
    if line == "update"@ {
        (TelemetryData::Update, Seq::<Seq<char>>::empty())
    } else {
        (data_named(fields_of(line)[0]), fields_of(line))
    }
}

/// Each reading name is reported as its own reading, any other first field
/// as an update; the line `update` is an update with no fields, and any other
/// line keeps all its space-separated fields.
pub proof fn lemma_reading_names(line: Seq<char>)
    ensures
        line == "update"@ ==> parsed(line).0 == TelemetryData::Update && parsed(line).1.len() == 0,
        line != "update"@ ==> parsed(line).1 == fields_of(line),
        line != "update"@ && fields_of(line)[0] == "speed"@ ==> parsed(line).0 == TelemetryData::Speed,
        line != "update"@ && fields_of(line)[0] == "time"@ ==> parsed(line).0 == TelemetryData::Time,
        line != "update"@ && fields_of(line)[0] == "distance"@ ==> parsed(line).0 == TelemetryData::Distance,
        line != "update"@ && fields_of(line)[0] != "speed"@ && fields_of(line)[0] != "time"@ && fields_of(line)[0] != "distance"@ ==> parsed(line).0 == TelemetryData::Update,
{
    reveal_strlit("update");
    reveal_strlit("speed");
    reveal_strlit("time");
    reveal_strlit("distance");
    crate::fields::lemma_field_count(line);
    assert("speed"@.len() == 5);
    assert("time"@.len() == 4);
    assert("distance"@.len() == 8);
}

/// Takes a received line apart. The value of a reading is the second field;
/// a line other than `update` always has its second field read as a number.
pub fn parse_line(input: &Vec<char>) -> (r: ParsedLine)
    ensures
        (r.data, views(r.fields@)) == parsed(input@),
        input@ == "update"@ ==> r.data == TelemetryData::Update && r.fields@.len() == 0,
        input@ != "update"@ ==> views(r.fields@) == fields_of(input@),
        input@ != "update"@ && fields_of(input@)[0] == "speed"@ ==> r.data == TelemetryData::Speed,
        input@ != "update"@ && fields_of(input@)[0] == "time"@ ==> r.data == TelemetryData::Time,
        input@ != "update"@ && fields_of(input@)[0] == "distance"@ ==> r.data == TelemetryData::Distance,
        input@ != "update"@ && fields_of(input@)[0] != "speed"@ && fields_of(input@)[0] != "time"@ && fields_of(input@)[0] != "distance"@ ==> r.data == TelemetryData::Update,
{
    proof {
        lemma_reading_names(input@);
    }
    if spells(input, "update") {
        return ParsedLine { data: TelemetryData::Update, fields: Vec::new() };
    }
    let fields = split_fields(input);
    proof {
        crate::fields::lemma_field_count(input@);
    }
    let name = &fields[0];
    assert(name@ == views(fields@)[0]);
    proof {
        reveal_strlit("speed");
        reveal_strlit("time");
        reveal_strlit("distance");
    }
    let mut data = TelemetryData::Update;
    if spells(name, "speed") {
        data = TelemetryData::Speed;
    }
    if spells(name, "time") {
        data = TelemetryData::Time;
    }
    if spells(name, "distance") {
        data = TelemetryData::Distance;
    }
    ParsedLine { data, fields }
}

/// Whether `line` is answered with a command: it reports an update, which
/// the line `update` does, and so does any line whose first field names no
/// reading the controller knows.
pub open spec fn owes_answer(line: Seq<char>) -> bool {
    parsed(line).0 == TelemetryData::Update
}

/// Whether a received line, taken apart as `parsed`, is answered with a command.
pub fn answer_owed(parsed: &ParsedLine) -> (r: bool)
    ensures
        r == (parsed.data == TelemetryData::Update),
{
    parsed.data == TelemetryData::Update
}

/// The lines answered are the line `update` and the lines whose first field
/// is no known reading; a reading is never answered.
pub proof fn lemma_answered_lines(line: Seq<char>)
    ensures
        owes_answer(line) <==> (line == "update"@ || !({
            let name = fields_of(line)[0];
            name == "speed"@ || name == "time"@ || name == "distance"@
        })),
{
}

/// How the car's distance compares with the target distance of 500.
pub struct Observations {
    /// The distance is below the target.
    pub short_of_target: bool,
    /// The distance is above the target.
    pub past_target: bool,
}

/// The action for what was observed: brake past the target, accelerate short
/// of it, and otherwise send nothing.
pub open spec fn action_for(o: Observations) -> Action {
    if o.past_target {
        Action::Brake
    } else if o.short_of_target {
        Action::Accelerate
    } else {
        Action::NoCommand
    }
}

/// The decision, case by case: past the target the car brakes; otherwise,
/// short of it, it accelerates; at the target nothing is sent.
pub proof fn lemma_decision_table(o: Observations)
    ensures
        o.past_target ==> action_for(o) == Action::Brake,
        !o.past_target && o.short_of_target ==> action_for(o) == Action::Accelerate,
        !o.past_target && !o.short_of_target ==> action_for(o) == Action::NoCommand,
{
}

/// Decides what to tell the car on an update.
pub fn execute_action(input: &Observations) -> (r: Action)
    ensures
        r == action_for(*input),
        input.past_target ==> r == Action::Brake,
        !input.past_target && input.short_of_target ==> r == Action::Accelerate,
        !input.past_target && !input.short_of_target ==> r == Action::NoCommand,
{
    let mut action = Action::NoCommand;
    if input.short_of_target {
        action = Action::Accelerate;
    }
    if input.past_target {
        action = Action::Brake;
    }
    action
}

/// The command text sent for an action, if any: full throttle to accelerate,
/// full brake to brake.
pub open spec fn command_of(action: Action) -> Option<Seq<char>> {
    match action {
        Action::Accelerate => Some(command_text(100, 0)),
        Action::Brake => Some(command_text(0, 100)),
        Action::NoCommand => None,
    }
}

/// The text sent for each action, written out.
pub proof fn lemma_command_table(action: Action)
    ensures
        command_of(Action::Accelerate) == Some("throttle 100\nbrake 0\n"@),
        command_of(Action::Brake) == Some("throttle 0\nbrake 100\n"@),
        command_of(Action::NoCommand) is None,
{
    crate::command::lemma_fixed_command_texts();
}

/// The command text to send for `action`; nothing is sent for `NoCommand`.
pub fn command_for(action: Action) -> (r: Option<String>)
    ensures
        match r {
            Some(s) => command_of(action) == Some(s@),
            None => command_of(action) is None,
        },
        action == Action::Accelerate ==> (r matches Some(s) && s@ == "throttle 100\nbrake 0\n"@),
        action == Action::Brake ==> (r matches Some(s) && s@ == "throttle 0\nbrake 100\n"@),
        action == Action::NoCommand ==> r is None,
{
    proof {
        crate::command::lemma_fixed_command_texts();
    }
    match action {
        Action::Accelerate => Some(command(100, 0)),
        Action::Brake => Some(command(0, 100)),
        Action::NoCommand => None,
    }
}

/// A car past its target is told to brake, whatever else was observed.
pub proof fn lemma_past_target_brakes(o: Observations)
    requires
        o.past_target,
    ensures
        action_for(o) == Action::Brake,
        command_of(action_for(o)) == Some(command_text(0, 100)),
{
}

} // verus!
