//! The text of the commands sent back to the car.
use vstd::prelude::*;
use vstd::string::StringExecFns;

verus! {

/// The character of the decimal digit `d`.
pub open spec fn digit_char(d: nat) -> char {
    (48 + d) as char
}

/// The decimal notation of `n`, without leading zeros.
pub open spec fn decimal(n: nat) -> Seq<char>
    decreases n,
{
    if n < 10 {
        seq![digit_char(n)]
    } else {
        decimal(n / 10).push(digit_char(n % 10))
    }
}

/// The command that sets the throttle and the brake, each in percent.
pub open spec fn command_text(throttle: nat, brake: nat) -> Seq<char> {
    "throttle "@ + decimal(throttle) + "\nbrake "@ + decimal(brake) + "\n"@
}

fn digit_str(d: u32) -> (s: &'static str)
    requires
        d < 10,
    ensures
        s@ == seq![digit_char(d as nat)],
{
    match d {
        0 => {
            proof { reveal_strlit("0"); }
            "0"
        },
        1 => {
            proof { reveal_strlit("1"); }
            "1"
        },
        2 => {
            proof { reveal_strlit("2"); }
            "2"
        },
        3 => {
            proof { reveal_strlit("3"); }
            "3"
        },
        4 => {
            proof { reveal_strlit("4"); }
            "4"
        },
        5 => {
            proof { reveal_strlit("5"); }
            "5"
        },
        6 => {
            proof { reveal_strlit("6"); }
            "6"
        },
        7 => {
            proof { reveal_strlit("7"); }
            "7"
        },
        8 => {
            proof { reveal_strlit("8"); }
            "8"
        },
        _ => {
            proof { reveal_strlit("9"); }
            "9"
        },
    }
}

/// Appends the decimal notation of `n` to `out`.
pub fn append_decimal(out: &mut String, n: u32)
    ensures
        final(out)@ == old(out)@ + decimal(n as nat),
    decreases n,
{
    if n >= 10 {
        append_decimal(out, n / 10);
    }
    let d = digit_str(n % 10);
    out.append(d);
    assert(decimal(n as nat) =~= if n < 10 {
        seq![digit_char(n as nat)]
    } else {
        decimal((n / 10) as nat).push(digit_char((n % 10) as nat))
    });
}

/// The fixed commands, written out: full throttle, full brake, both pedals
/// released, and the gentle throttle of 30.
pub proof fn lemma_fixed_command_texts()
    ensures
        command_text(100, 0) == "throttle 100\nbrake 0\n"@,
        command_text(0, 100) == "throttle 0\nbrake 100\n"@,
        command_text(0, 0) == "throttle 0\nbrake 0\n"@,
        command_text(30, 0) == "throttle 30\nbrake 0\n"@,
{
    reveal_with_fuel(decimal, 4);
    reveal_strlit("throttle ");
    reveal_strlit("\nbrake ");
    reveal_strlit("\n");
    reveal_strlit("throttle 100\nbrake 0\n");
    reveal_strlit("throttle 0\nbrake 100\n");
    reveal_strlit("throttle 0\nbrake 0\n");
    reveal_strlit("throttle 30\nbrake 0\n");
    assert(decimal(100) =~= seq!['1', '0', '0']);
    assert(decimal(30) =~= seq!['3', '0']);
    assert(decimal(0) =~= seq!['0']);
    assert(command_text(100, 0) =~= "throttle 100\nbrake 0\n"@);
    assert(command_text(0, 100) =~= "throttle 0\nbrake 100\n"@);
    assert(command_text(0, 0) =~= "throttle 0\nbrake 0\n"@);
    assert(command_text(30, 0) =~= "throttle 30\nbrake 0\n"@);
}

/// The command text that sets the throttle to `throttle` and the brake to
/// `brake` percent: `throttle <t>\nbrake <b>\n`.
pub fn command(throttle: u32, brake: u32) -> (s: String)
    ensures
        s@ == command_text(throttle as nat, brake as nat),
{
    let mut s = String::from_str("throttle ");
    append_decimal(&mut s, throttle);
    s.append("\nbrake ");
    append_decimal(&mut s, brake);
    s.append("\n");
    s
}

} // verus!
