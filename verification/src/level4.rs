//! The fourth controller: keeps to the speed limits, eases into acceleration
//! far below the limit, and stops for traffic lights.
use vstd::prelude::*;
use crate::command::{command, command_text};
use crate::fields::{fields_of, spells, split_fields, views};
use crate::traffic::{calls_for_stop, is_stop_light};

verus! {

/// What a received line reported.
#[derive(Clone, Copy, Debug, PartialEq, Eq, Structural)]
pub enum TelemetryData {
    Speed,
    Distance,
    Time,
    Update,
    SpeedLimit,
    TrafficLight,
}

/// What the controller tells the car to do.
#[derive(Clone, Copy, Debug, PartialEq, Eq, Structural)]
pub enum Action {
    Accelerate,
    AccelerateTempered,
    Brake,
    Cruise,
    NoCommand,
}

/// A received line, taken apart: what it reports and its space-separated fields.
pub struct ParsedLine {
    pub data: TelemetryData,
    pub fields: Vec<Vec<char>>,
}

/// What a line whose first field is `name` reports; a name the controller
/// does not know counts as an update.
pub open spec fn data_named(name: Seq<char>) -> TelemetryData {
    if name == "speed"@ {
        TelemetryData::Speed
    } else if name == "time"@ {
        TelemetryData::Time
    } else if name == "distance"@ {
        TelemetryData::Distance
    } else if name == "speedlimit"@ {
        TelemetryData::SpeedLimit
    } else if name == "trafficlight"@ {
        TelemetryData::TrafficLight
    } else {
        TelemetryData::Update
    }
}

/// What `line` reports, and its fields: the line `update` carries no fields;
/// any other line is split at its spaces.
pub open spec fn parsed(line: Seq<char>) -> (TelemetryData, Seq<Seq<char>>) {
    if line == "update"@ {
        (TelemetryData::Update, Seq::<Seq<char>>::empty())
    } else {
        (data_named(fields_of(line)[0]), fields_of(line))
    }
}

/// Each reading name is reported as its own reading, any other first field
/// as an update; the line `update` is an update with no fields, and any other
/// line keeps all its space-separated fields.
pub proof fn lemma_reading_names(line: Seq<char>)
    ensures
        line == "update"@ ==> parsed(line).0 == TelemetryData::Update && parsed(line).1.len() == 0,
        line != "update"@ ==> parsed(line).1 == fields_of(line),
        line != "update"@ && fields_of(line)[0] == "speed"@ ==> parsed(line).0 == TelemetryData::Speed,
        line != "update"@ && fields_of(line)[0] == "time"@ ==> parsed(line).0 == TelemetryData::Time,
        line != "update"@ && fields_of(line)[0] == "distance"@ ==> parsed(line).0 == TelemetryData::Distance,
        line != "update"@ && fields_of(line)[0] == "speedlimit"@ ==> parsed(line).0 == TelemetryData::SpeedLimit,
        line != "update"@ && fields_of(line)[0] == "trafficlight"@ ==> parsed(line).0 == TelemetryData::TrafficLight,
        line != "update"@ && fields_of(line)[0] != "speed"@ && fields_of(line)[0] != "time"@ && fields_of(line)[0] != "distance"@ && fields_of(line)[0] != "speedlimit"@ && fields_of(line)[0] != "trafficlight"@ ==> parsed(line).0 == TelemetryData::Update,
{
    reveal_strlit("update");
    reveal_strlit("speed");
    reveal_strlit("time");
    reveal_strlit("distance");
    reveal_strlit("speedlimit");
    reveal_strlit("trafficlight");
    crate::fields::lemma_field_count(line);
    assert("speed"@.len() == 5);
    assert("time"@.len() == 4);
    assert("distance"@.len() == 8);
    assert("speedlimit"@.len() == 10);
    assert("trafficlight"@.len() == 12);
}

/// Takes a received line apart. A reading's values are the fields after the
/// first; a traffic light line gives the distance to the light, its state and
/// the time left in that state.
pub fn parse_line(input: &Vec<char>) -> (r: ParsedLine)
    ensures
        (r.data, views(r.fields@)) == parsed(input@),
        input@ == "update"@ ==> r.data == TelemetryData::Update && r.fields@.len() == 0,
        input@ != "update"@ ==> views(r.fields@) == fields_of(input@),
        input@ != "update"@ && fields_of(input@)[0] == "speed"@ ==> r.data == TelemetryData::Speed,
        input@ != "update"@ && fields_of(input@)[0] == "time"@ ==> r.data == TelemetryData::Time,
        input@ != "update"@ && fields_of(input@)[0] == "distance"@ ==> r.data == TelemetryData::Distance,
        input@ != "update"@ && fields_of(input@)[0] == "speedlimit"@ ==> r.data == TelemetryData::SpeedLimit,
        input@ != "update"@ && fields_of(input@)[0] == "trafficlight"@ ==> r.data == TelemetryData::TrafficLight,
        input@ != "update"@ && fields_of(input@)[0] != "speed"@ && fields_of(input@)[0] != "time"@ && fields_of(input@)[0] != "distance"@ && fields_of(input@)[0] != "speedlimit"@ && fields_of(input@)[0] != "trafficlight"@ ==> r.data == TelemetryData::Update,
{
    proof {
        lemma_reading_names(input@);
    }
    if spells(input, "update") {
        return ParsedLine { data: TelemetryData::Update, fields: Vec::new() };
    }
    let fields = split_fields(input);
    proof {
        crate::fields::lemma_field_count(input@);
    }
    let name = &fields[0];
    assert(name@ == views(fields@)[0]);
    proof {
        reveal_strlit("speed");
        reveal_strlit("time");
        reveal_strlit("distance");
        reveal_strlit("speedlimit");
        reveal_strlit("trafficlight");
    }
    let mut data = TelemetryData::Update;
    if spells(name, "speed") {
        data = TelemetryData::Speed;
    }
    if spells(name, "time") {
        data = TelemetryData::Time;
    }
    if spells(name, "distance") {
        data = TelemetryData::Distance;
    }
    if spells(name, "speedlimit") {
        data = TelemetryData::SpeedLimit;
    }
    if spells(name, "trafficlight") {
        data = TelemetryData::TrafficLight;
    }
    ParsedLine { data, fields }
}

/// Whether `line` is answered with a command: it reports an update, which
/// the line `update` does, and so does any line whose first field names no
/// reading the controller knows.
pub open spec fn owes_answer(line: Seq<char>) -> bool {
    parsed(line).0 == TelemetryData::Update
}

/// Whether a received line, taken apart as `parsed`, is answered with a command.
pub fn answer_owed(parsed: &ParsedLine) -> (r: bool)
    ensures
        r == (parsed.data == TelemetryData::Update),
{
    parsed.data == TelemetryData::Update
}

/// The lines answered are the line `update` and the lines whose first field
/// is no known reading; a reading is never answered.
pub proof fn lemma_answered_lines(line: Seq<char>)
    ensures
        owes_answer(line) <==> (line == "update"@ || !({
            let name = fields_of(line)[0];
            name == "speed"@ || name == "time"@ || name == "distance"@ || name == "speedlimit"@ || name == "trafficlight"@
        })),
{
}

/// How the car's readings compare with the thresholds the controller uses.
pub struct Observations {
    /// The distance is below the target of 1500.
    pub short_of_target: bool,
    /// The distance is above the target of 1500.
    pub past_target: bool,
    /// The current limit exceeds the speed by more than 30.
    pub far_below_speed_limit: bool,
    /// The speed is above the current limit less 2.
    pub near_speed_limit: bool,
    /// The distance to the next limit is below one and a half times the
    /// difference between the current and the next limit.
    pub within_braking_distance: bool,
    /// The speed is above the next limit.
    pub faster_than_next_limit: bool,
    /// The speed is below the next limit.
    pub slower_than_next_limit: bool,
    /// The next limit is not zero.
    pub next_limit_known: bool,
    /// The traffic light is closer than twice the speed divided by 3.6.
    pub light_within_braking_distance: bool,
    /// The traffic light is closer than 10.
    pub light_within_ten: bool,
}

/// The action from the distance and the speed limits alone. Short of the
/// target: brake for a lower next limit close ahead, cruise for a higher one
/// close ahead or near the current limit, ease in far below the current
/// limit, and accelerate otherwise. Past the target: brake. At the target:
/// send nothing.
pub open spec fn limit_action(o: Observations) -> Action {
    if o.short_of_target {
        if o.within_braking_distance && o.faster_than_next_limit && o.next_limit_known {
            Action::Brake
        } else if o.within_braking_distance && o.slower_than_next_limit {
            Action::Cruise
        } else if o.near_speed_limit {
            Action::Cruise
        } else if o.far_below_speed_limit {
            Action::AccelerateTempered
        } else {
            Action::Accelerate
        }
    } else if o.past_target {
        Action::Brake
    } else {
        Action::NoCommand
    }
}

/// The action for what was observed: brake for a close light that calls for
/// a stop, and otherwise follow the distance and the speed limits.
pub open spec fn action_for(o: Observations, light_state: Seq<char>) -> Action {
    if (o.light_within_braking_distance || o.light_within_ten) && calls_for_stop(light_state) {
        Action::Brake
    } else {
        limit_action(o)
    }
}

/// The decision, case by case. A close light that is red, yellow, or red and
/// yellow makes the car brake. Otherwise: past the target it brakes, at it
/// nothing is sent; short of it, it brakes exactly when a lower, non-zero next
/// limit lies within braking distance, cruises near the current limit or for
/// a higher next limit within braking distance, eases in far below the
/// current limit, and accelerates otherwise.
pub proof fn lemma_decision_table(o: Observations, light_state: Seq<char>)
    ensures
        ((o.light_within_braking_distance || o.light_within_ten) && (light_state == "Red"@ || light_state == "Yellow"@ || light_state == "RedYellow"@)) ==> action_for(o, light_state) == Action::Brake,
        !((o.light_within_braking_distance || o.light_within_ten) && (light_state == "Red"@ || light_state == "Yellow"@ || light_state == "RedYellow"@)) && !o.short_of_target && o.past_target ==> action_for(o, light_state) == Action::Brake,
        !((o.light_within_braking_distance || o.light_within_ten) && (light_state == "Red"@ || light_state == "Yellow"@ || light_state == "RedYellow"@)) && !o.short_of_target && !o.past_target ==> action_for(o, light_state) == Action::NoCommand,
        !((o.light_within_braking_distance || o.light_within_ten) && (light_state == "Red"@ || light_state == "Yellow"@ || light_state == "RedYellow"@)) && o.short_of_target ==> (action_for(o, light_state) == Action::Brake <==> (o.within_braking_distance && o.faster_than_next_limit && o.next_limit_known)),
        !((o.light_within_braking_distance || o.light_within_ten) && (light_state == "Red"@ || light_state == "Yellow"@ || light_state == "RedYellow"@)) && o.short_of_target && !o.within_braking_distance && o.near_speed_limit ==> action_for(o, light_state) == Action::Cruise,
        !((o.light_within_braking_distance || o.light_within_ten) && (light_state == "Red"@ || light_state == "Yellow"@ || light_state == "RedYellow"@)) && o.short_of_target && !o.within_braking_distance && !o.near_speed_limit && o.far_below_speed_limit ==> action_for(o, light_state) == Action::AccelerateTempered,
        !((o.light_within_braking_distance || o.light_within_ten) && (light_state == "Red"@ || light_state == "Yellow"@ || light_state == "RedYellow"@)) && o.short_of_target && !o.within_braking_distance && !o.near_speed_limit && !o.far_below_speed_limit ==> action_for(o, light_state) == Action::Accelerate,
        !((o.light_within_braking_distance || o.light_within_ten) && (light_state == "Red"@ || light_state == "Yellow"@ || light_state == "RedYellow"@)) && o.short_of_target && o.within_braking_distance && !(o.faster_than_next_limit && o.next_limit_known) && o.slower_than_next_limit ==> action_for(o, light_state) == Action::Cruise,
        !((o.light_within_braking_distance || o.light_within_ten) && (light_state == "Red"@ || light_state == "Yellow"@ || light_state == "RedYellow"@)) && o.short_of_target && o.within_braking_distance && !(o.faster_than_next_limit && o.next_limit_known) && !o.slower_than_next_limit && o.near_speed_limit ==> action_for(o, light_state) == Action::Cruise,
        !((o.light_within_braking_distance || o.light_within_ten) && (light_state == "Red"@ || light_state == "Yellow"@ || light_state == "RedYellow"@)) && o.short_of_target && o.within_braking_distance && !(o.faster_than_next_limit && o.next_limit_known) && !o.slower_than_next_limit && !o.near_speed_limit && o.far_below_speed_limit ==> action_for(o, light_state) == Action::AccelerateTempered,
        !((o.light_within_braking_distance || o.light_within_ten) && (light_state == "Red"@ || light_state == "Yellow"@ || light_state == "RedYellow"@)) && o.short_of_target && o.within_braking_distance && !(o.faster_than_next_limit && o.next_limit_known) && !o.slower_than_next_limit && !o.near_speed_limit && !o.far_below_speed_limit ==> action_for(o, light_state) == Action::Accelerate,
{
}

/// Decides what to tell the car on an update, with `light_state` the last
/// state reported for the traffic light ahead.
pub fn execute_action(input: &Observations, light_state: &str) -> (r: Action)
    ensures
        r == action_for(*input, light_state@),
        ((input.light_within_braking_distance || input.light_within_ten) && (light_state@ == "Red"@ || light_state@ == "Yellow"@ || light_state@ == "RedYellow"@)) ==> r == Action::Brake,
        !((input.light_within_braking_distance || input.light_within_ten) && (light_state@ == "Red"@ || light_state@ == "Yellow"@ || light_state@ == "RedYellow"@)) && !input.short_of_target && input.past_target ==> r == Action::Brake,
        !((input.light_within_braking_distance || input.light_within_ten) && (light_state@ == "Red"@ || light_state@ == "Yellow"@ || light_state@ == "RedYellow"@)) && !input.short_of_target && !input.past_target ==> r == Action::NoCommand,
        !((input.light_within_braking_distance || input.light_within_ten) && (light_state@ == "Red"@ || light_state@ == "Yellow"@ || light_state@ == "RedYellow"@)) && input.short_of_target ==> (r == Action::Brake <==> (input.within_braking_distance && input.faster_than_next_limit && input.next_limit_known)),
        !((input.light_within_braking_distance || input.light_within_ten) && (light_state@ == "Red"@ || light_state@ == "Yellow"@ || light_state@ == "RedYellow"@)) && input.short_of_target && !input.within_braking_distance && input.near_speed_limit ==> r == Action::Cruise,
        !((input.light_within_braking_distance || input.light_within_ten) && (light_state@ == "Red"@ || light_state@ == "Yellow"@ || light_state@ == "RedYellow"@)) && input.short_of_target && !input.within_braking_distance && !input.near_speed_limit && input.far_below_speed_limit ==> r == Action::AccelerateTempered,
        !((input.light_within_braking_distance || input.light_within_ten) && (light_state@ == "Red"@ || light_state@ == "Yellow"@ || light_state@ == "RedYellow"@)) && input.short_of_target && !input.within_braking_distance && !input.near_speed_limit && !input.far_below_speed_limit ==> r == Action::Accelerate,
        !((input.light_within_braking_distance || input.light_within_ten) && (light_state@ == "Red"@ || light_state@ == "Yellow"@ || light_state@ == "RedYellow"@)) && input.short_of_target && input.within_braking_distance && !(input.faster_than_next_limit && input.next_limit_known) && input.slower_than_next_limit ==> r == Action::Cruise,
        !((input.light_within_braking_distance || input.light_within_ten) && (light_state@ == "Red"@ || light_state@ == "Yellow"@ || light_state@ == "RedYellow"@)) && input.short_of_target && input.within_braking_distance && !(input.faster_than_next_limit && input.next_limit_known) && !input.slower_than_next_limit && input.near_speed_limit ==> r == Action::Cruise,
        !((input.light_within_braking_distance || input.light_within_ten) && (light_state@ == "Red"@ || light_state@ == "Yellow"@ || light_state@ == "RedYellow"@)) && input.short_of_target && input.within_braking_distance && !(input.faster_than_next_limit && input.next_limit_known) && !input.slower_than_next_limit && !input.near_speed_limit && input.far_below_speed_limit ==> r == Action::AccelerateTempered,
        !((input.light_within_braking_distance || input.light_within_ten) && (light_state@ == "Red"@ || light_state@ == "Yellow"@ || light_state@ == "RedYellow"@)) && input.short_of_target && input.within_braking_distance && !(input.faster_than_next_limit && input.next_limit_known) && !input.slower_than_next_limit && !input.near_speed_limit && !input.far_below_speed_limit ==> r == Action::Accelerate,
{
    let mut action = Action::NoCommand;
    if input.past_target {
        action = Action::Brake;
    }
    if input.short_of_target {
        action = Action::Accelerate;
        if input.far_below_speed_limit {
            action = Action::AccelerateTempered;
        }
        if input.near_speed_limit {
            action = Action::Cruise;
        }
        if input.within_braking_distance && input.faster_than_next_limit
            && input.next_limit_known {
            action = Action::Brake;
        } else if input.within_braking_distance && input.slower_than_next_limit {
            action = Action::Cruise;
        }
    }
    if (input.light_within_braking_distance || input.light_within_ten) && is_stop_light(
        light_state,
    ) {
        action = Action::Brake;
    }
    action
}

/// The throttle that tempered acceleration uses next, after `v` was used:
/// above 75 it drops by 5, and then, below 75, it rises by 5.
pub open spec fn next_throttle(v: int) -> int {
    let lowered: int = if v > 75 { v - 5 } else { v };
    if lowered < 75 { lowered + 5 } else { lowered }
}

/// The throttle for tempered acceleration after `k` tempered commands.
pub open spec fn throttle_after(k: nat) -> int
    decreases k,
{
    if k == 0 {
        21
    } else {
        next_throttle(throttle_after((k - 1) as nat))
    }
}

/// The throttle used for tempered acceleration, which starts at 21 and
/// steps towards 75 with every tempered command.
pub struct TemperedThrottle {
    accel_value: i32,
    uses: Ghost<nat>,
}

impl View for TemperedThrottle {
    type V = int;

    /// The throttle the next tempered command uses.
    closed spec fn view(&self) -> int {
        self.accel_value as int
    }
}

impl TemperedThrottle {
    #[verifier::type_invariant]
    spec fn follows_steps(self) -> bool {
        self.accel_value == throttle_after(self.uses@)
    }

    /// The number of tempered commands given so far.
    pub closed spec fn uses(&self) -> nat {
        self.uses@
    }

    /// The throttle before any tempered command.
    pub fn new() -> (r: TemperedThrottle)
        ensures
            r@ == 21,
            r.uses() == 0,
    {
        TemperedThrottle { accel_value: 21, uses: Ghost(0) }
    }

    /// The throttle the next tempered command uses: the step reached after
    /// the tempered commands given so far, one of 21, 26, ..., 76.
    pub fn value(&self) -> (r: i32)
        ensures
            r == self@,
            r == throttle_after(self.uses()),
            21 <= r <= 76,
            r % 5 == 1,
    {
        proof {
            use_type_invariant(self);
            lemma_throttle_after(self.uses@);
        }
        self.accel_value
    }

    /// The next tempered command, `throttle <v>\nbrake 0\n` with `v` the step
    /// reached after the tempered commands given so far; the throttle then
    /// moves on to its next step.
    pub fn command(&mut self) -> (s: String)
        ensures
            s@ == command_text(old(self)@ as nat, 0),
            old(self)@ == throttle_after(old(self).uses()),
            final(self)@ == next_throttle(old(self)@),
            final(self).uses() == old(self).uses() + 1,
    {
        proof {
            use_type_invariant(&*self);
            lemma_throttle_after(self.uses@);
        }
        let s = command(self.accel_value as u32, 0);
        let mut v: i32 = self.accel_value;
        if v > 75 {
            v = v - 5;
        }
        if v < 75 {
            v = v + 5;
        }
        let ghost k: nat = self.uses@;
        assert(v == throttle_after(k + 1));
        *self = TemperedThrottle { accel_value: v, uses: Ghost(k + 1) };
        s
    }
}

/// The throttle and brake settings a level-four command may carry: full
/// throttle, full brake, both released, or a tempered throttle step of 21,
/// 26, ..., 76 with the brake released.
pub open spec fn allowed_setting(throttle: nat, brake: nat) -> bool {
    ||| throttle == 100 && brake == 0
    ||| throttle == 0 && brake == 100
    ||| throttle == 0 && brake == 0
    ||| brake == 0 && 21 <= throttle <= 76 && throttle % 5 == 1
}

/// Whether `s` is the text of a command with an allowed setting.
pub open spec fn allowed_command(s: Seq<char>) -> bool {
    exists|throttle: nat, brake: nat|
        allowed_setting(throttle, brake) && s == #[trigger] command_text(throttle, brake)
}

/// The command text sent for an action other than tempered acceleration.
pub open spec fn command_of(action: Action, throttle: int) -> Option<Seq<char>> {
    match action {
        Action::Accelerate => Some(command_text(100, 0)),
        Action::AccelerateTempered => Some(command_text(throttle as nat, 0)),
        Action::Brake => Some(command_text(0, 100)),
        Action::Cruise => Some(command_text(0, 0)),
        Action::NoCommand => None,
    }
}

/// The text sent for each action, written out.
pub proof fn lemma_command_table(action: Action, throttle: int)
    ensures
        command_of(Action::Accelerate, throttle) == Some("throttle 100\nbrake 0\n"@),
        command_of(Action::Brake, throttle) == Some("throttle 0\nbrake 100\n"@),
        command_of(Action::Cruise, throttle) == Some("throttle 0\nbrake 0\n"@),
        command_of(Action::NoCommand, throttle) is None,
        0 <= throttle ==> command_of(Action::AccelerateTempered, throttle) == Some(
            command_text(throttle as nat, 0),
        ),
{
    crate::command::lemma_fixed_command_texts();
}

/// The command text to send for `action`; nothing is sent for `NoCommand`.
/// Tempered acceleration uses the tempered throttle and moves it on.
pub fn command_for(action: Action, throttle: &mut TemperedThrottle) -> (r: Option<String>)
    ensures
        match r {
            Some(s) => command_of(action, old(throttle)@) == Some(s@),
            None => command_of(action, old(throttle)@) is None,
        },
        final(throttle)@ == if action == Action::AccelerateTempered {
            next_throttle(old(throttle)@)
        } else {
            old(throttle)@
        },
        final(throttle).uses() == if action == Action::AccelerateTempered {
            old(throttle).uses() + 1
        } else {
            old(throttle).uses()
        },
        r matches Some(s) ==> allowed_command(s@),
        action == Action::Accelerate ==> (r matches Some(s) && s@ == "throttle 100\nbrake 0\n"@),
        action == Action::Brake ==> (r matches Some(s) && s@ == "throttle 0\nbrake 100\n"@),
        action == Action::Cruise ==> (r matches Some(s) && s@ == "throttle 0\nbrake 0\n"@),
        action == Action::NoCommand ==> r is None,
        action == Action::AccelerateTempered ==> (r matches Some(s) && s@ == command_text(
            old(throttle)@ as nat,
            0,
        )),
{
    proof {
        crate::command::lemma_fixed_command_texts();
    }
    match action {
        Action::Accelerate => {
            let s = command(100, 0);
            assert(allowed_setting(100, 0) && s@ == command_text(100, 0));
            Some(s)
        },
        Action::AccelerateTempered => {
            let t = throttle.value();
            let s = throttle.command();
            assert(allowed_setting(t as nat, 0) && s@ == command_text(t as nat, 0));
            Some(s)
        },
        Action::Brake => {
            let s = command(0, 100);
            assert(allowed_setting(0, 100) && s@ == command_text(0, 100));
            Some(s)
        },
        Action::Cruise => {
            let s = command(0, 0);
            assert(allowed_setting(0, 0) && s@ == command_text(0, 0));
            Some(s)
        },
        Action::NoCommand => None,
    }
}

/// A close light that calls for a stop makes the car brake, whatever else
/// was observed.
pub proof fn lemma_stop_light_brakes(o: Observations, light_state: Seq<char>)
    requires
        o.light_within_braking_distance || o.light_within_ten,
        calls_for_stop(light_state),
    ensures
        action_for(o, light_state) == Action::Brake,
{
}

/// Tempered acceleration climbs by 5 from 21 and then holds at 76: after `k`
/// tempered commands the throttle is the smaller of 21 + 5k and 76.
pub proof fn lemma_throttle_after(k: nat)
    ensures
        throttle_after(k) == if 21 + 5 * k <= 76 { 21 + 5 * k } else { 76 },
    decreases k,
{
    if k > 0 {
        lemma_throttle_after((k - 1) as nat);
    }
}

/// The k-th tempered command (counting from 0) sets the throttle to the
/// smaller of 21 + 5k and 76, with the brake released.
pub proof fn lemma_kth_tempered_command(k: nat)
    ensures
        command_text(throttle_after(k) as nat, 0) == command_text(
            (if 21 + 5 * k <= 76 { 21 + 5 * k } else { 76 }) as nat,
            0,
        ),
        allowed_setting(throttle_after(k) as nat, 0),
{
    lemma_throttle_after(k);
}

/// An allowed setting never asks for throttle and brake together, keeps the
/// throttle at most 100, and the brake either released or full.
pub proof fn lemma_allowed_setting_bounds(throttle: nat, brake: nat)
    requires
        allowed_setting(throttle, brake),
    ensures
        throttle <= 100,
        brake == 0 || brake == 100,
        !(throttle > 0 && brake > 0),
{
}

/// Once at 76, tempered acceleration stays at 76.
pub proof fn lemma_throttle_holds_at_top()
    ensures
        next_throttle(76) == 76,
{
}

} // verus!
