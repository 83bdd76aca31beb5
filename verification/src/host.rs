//! The name under which a worker presents itself.

use crate::encoding::decode_strict;
use crate::text::{blank, law_only_the_margins_are_trimmed, trim, trimmed, white_space};
use vstd::prelude::*;
use vstd::utf8::{
    decode_utf8, encode_utf8, encode_utf8_decode_utf8, encode_utf8_valid_utf8, valid_utf8,
};

verus! {

/// The name that the environment gives, the first of the two variables before the second.
pub open spec fn environment_name(
    computer_name: Option<String>,
    host_name: Option<String>,
) -> Option<String> {
    match computer_name {
        Some(name) => Some(name),
        None => host_name,
    }
}

/// The name that the `hostname` command prints, without the white space around it, if it
/// could be run and printed valid UTF-8.
pub open spec fn command_name(output: Option<Seq<u8>>) -> Seq<char> {
    match output {
        Some(bytes) => if valid_utf8(bytes) {
            trimmed(decode_utf8(bytes))
        } else {
            "Unknown-Worker"@
        },
        None => "Unknown-Worker"@,
    }
}

/// The name that the environment gives, from `COMPUTERNAME` and `HOSTNAME`.
pub fn name_from_environment(
    computer_name: Option<String>,
    host_name: Option<String>,
) -> (name: Option<String>)
    ensures
        name == environment_name(computer_name, host_name),
{
    match computer_name {
        Some(name) => Some(name),
        None => host_name,
    }
}

/// The name for a worker whose environment gives none, from what the `hostname` command
/// printed, or nothing if it could not be run.
pub fn name_from_command(output: Option<Vec<u8>>) -> (name: String)
    ensures
        name@ == command_name(
            match output {
                Some(bytes) => Some(bytes@),
                None => None,
            },
        ),
{
    match output {
        Some(bytes) => match decode_strict(bytes) {
            Some(text) => trim(text.as_str()),
            None => "Unknown-Worker".to_string(),
        },
        None => "Unknown-Worker".to_string(),
    }
}

/// A variable that is set names the worker, be it empty or not; the second is asked only where
/// the first is not set.
pub proof fn law_first_variable_counts(name: String, other: Option<String>)
    ensures
        environment_name(Some(name), other) == Some(name),
        environment_name(None, other) == other,
{
}

/// The `hostname` command names the worker by what it prints, without the white space around it.
/// What is not UTF-8 names nobody, and neither does a command that cannot be run.
pub proof fn law_command_names_the_worker(
    before: Seq<char>,
    name: Seq<char>,
    behind: Seq<char>,
    bytes: Seq<u8>,
)
    requires
        blank(before),
        blank(behind),
        name.len() > 0 ==> !white_space(name[0]) && !white_space(name.last()),
        !valid_utf8(bytes),
    ensures
        command_name(Some(encode_utf8(before + name + behind))) == name,
        command_name(Some(bytes)) == "Unknown-Worker"@,
        command_name(None) == "Unknown-Worker"@,
{
    encode_utf8_valid_utf8(before + name + behind);
    encode_utf8_decode_utf8(before + name + behind);
    law_only_the_margins_are_trimmed(before, name, behind);
}

/// A worker is named by the environment where that names it, and else by the command.
pub proof fn law_names_are_taken_as_given(
    computer_name: Option<String>,
    host_name: Option<String>,
    given: Option<String>,
    output: Vec<u8>,
    name: Seq<char>,
    printed_name: String,
)
    requires
        call_ensures(name_from_environment, (computer_name, host_name), given),
        call_ensures(name_from_command, (Some(output),), printed_name),
        name.len() > 0 ==> !white_space(name[0]) && !white_space(name.last()),
        output@ == encode_utf8(name + seq!['\n']),
    ensures
        computer_name is Some ==> given == computer_name,
        computer_name is None ==> given == host_name,
        printed_name@ == name,
{
    let line = name + seq!['\n'];
    encode_utf8_valid_utf8(line);
    encode_utf8_decode_utf8(line);
    law_only_the_margins_are_trimmed(Seq::empty(), name, seq!['\n']);
    assert(Seq::<char>::empty() + name + seq!['\n'] =~= line);
}

} // verus!
