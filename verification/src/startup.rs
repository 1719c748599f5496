//! The decisions of startup: which port to listen on, and what to do when
//! it cannot be bound.
//!
//! The caller binds, asks the operator and reads the answer; each function
//! here says what is to be done next.

use crate::text::{chars_of, decimal_string, decimal_text};
use vstd::prelude::*;
use vstd::string::*;

verus! {

/// The largest port number there is.
pub const MAX_PORT: usize = 65535;

/// What the operator can choose when the port cannot be bound.
#[derive(Clone, Copy, Debug, PartialEq, Eq, Structural)]
pub enum BindChoice {
    /// Give up.
    Quit,
    /// Try the same port again.
    Retry,
    /// Enter another port.
    ChangePort,
}

/// The port that is being tried, and whether it is another one than the
/// service was configured with.
#[derive(Clone, Copy, Debug, PartialEq, Eq, Structural)]
pub struct Listener {
    pub port: u16,
    pub changed: bool,
}

/// What startup does next.
#[derive(Clone, Copy, Debug, PartialEq, Eq, Structural)]
pub enum StartupStep {
    /// Bind the listener's port on the loopback address.
    Bind { listener: Listener },
    /// Tell the operator that the port could not be bound and offer the
    /// three choices.
    Choose { listener: Listener },
    /// Ask the operator for a new port number.
    AskPort { listener: Listener },
    /// The port is bound: serve, after recording a changed port.
    Serve { listener: Listener },
    /// Startup failed for good: end the process with a failure status.
    Exit,
}

/// The value of a decimal digit, or `None` for any other character.
pub open spec fn digit_value(c: char) -> Option<nat> {
    if c == '0' {
        Some(0)
    } else if c == '1' {
        Some(1)
    } else if c == '2' {
        Some(2)
    } else if c == '3' {
        Some(3)
    } else if c == '4' {
        Some(4)
    } else if c == '5' {
        Some(5)
    } else if c == '6' {
        Some(6)
    } else if c == '7' {
        Some(7)
    } else if c == '8' {
        Some(8)
    } else if c == '9' {
        Some(9)
    } else {
        None
    }
}

/// Every character of `s` is a decimal digit.
pub open spec fn all_digits(s: Seq<char>) -> bool {
    forall|i: int| 0 <= i < s.len() ==> (#[trigger] digit_value(s[i])) is Some
}

/// The number that a run of decimal digits writes.
pub open spec fn digits_value(s: Seq<char>) -> nat
    decreases s.len(),
{
    if s.len() == 0 {
        0
    } else {
        digits_value(s.drop_last()) * 10 + match digit_value(s.last()) {
            Some(d) => d,
            None => 0,
        }
    }
}

/// The digits of a number as the operator may type it: what follows an
/// optional `+`.
pub open spec fn unsigned_digits(text: Seq<char>) -> Seq<char> {
    if text.len() > 0 && text[0] == '+' {
        text.skip(1)
    } else {
        text
    }
}

/// The number that `text` writes, if it writes one that a `usize` holds:
/// an optional `+`, then at least one decimal digit and nothing else.
pub open spec fn parsed_number(text: Seq<char>) -> Option<nat> {
    let digits = unsigned_digits(text);
    if digits.len() > 0 && all_digits(digits) && digits_value(digits) <= usize::MAX {
        Some(digits_value(digits))
    } else {
        None
    }
}

/// A run of digits writes at least what any of its prefixes writes.
pub proof fn lemma_digits_value_grows(s: Seq<char>, k: int)
    requires
        0 <= k <= s.len(),
    ensures
        digits_value(s.take(k)) <= digits_value(s),
    decreases s.len() - k,
{
    if k == s.len() {
        assert(s.take(k) =~= s);
    } else {
        lemma_digits_value_grows(s.drop_last(), k);
        assert(s.drop_last().take(k) =~= s.take(k));
    }
}

fn digit_of_char(c: char) -> (r: Option<usize>)
    ensures
        match r {
            Some(d) => digit_value(c) == Some(d as nat) && d < 10,
            None => digit_value(c) is None,
        },
{
    if c == '0' {
        Some(0)
    } else if c == '1' {
        Some(1)
    } else if c == '2' {
        Some(2)
    } else if c == '3' {
        Some(3)
    } else if c == '4' {
        Some(4)
    } else if c == '5' {
        Some(5)
    } else if c == '6' {
        Some(6)
    } else if c == '7' {
        Some(7)
    } else if c == '8' {
        Some(8)
    } else if c == '9' {
        Some(9)
    } else {
        None
    }
}

/// Reads a number as the operator typed it.
pub fn parse_number(text: &str) -> (r: Option<usize>)
    ensures
        match r {
            Some(n) => parsed_number(text@) == Some(n as nat),
            None => parsed_number(text@) is None,
        },
{
    let v = chars_of(text);
    let start: usize = if v.len() > 0 && v[0] == '+' {
        1
    } else {
        0
    };
    let ghost digits = unsigned_digits(text@);
    assert(digits =~= v@.skip(start as int));
    if start >= v.len() {
        return None;
    }
    let mut value: usize = 0;
    let mut i: usize = start;
    assert(digits.take(0) =~= Seq::<char>::empty());
    while i < v.len()
        invariant
            start <= i <= v.len(),
            digits == v@.skip(start as int),
            digits == unsigned_digits(text@),
            all_digits(digits.take(i - start)),
            value == digits_value(digits.take(i - start)),
        decreases v.len() - i,
    {
        let ghost done = digits.take(i - start);
        let ghost next = digits.take(i - start + 1);
        assert(next.drop_last() =~= done);
        assert(next.last() == v@[i as int]);
        match digit_of_char(v[i]) {
            None => {
                assert(digits[i - start] == v@[i as int]);
                assert(digit_value(digits[i - start]) is None);
                assert(!all_digits(digits));
                return None;
            },
            Some(d) => {
                assert(digits_value(next) == value * 10 + d);
                proof {
                    lemma_digits_value_grows(digits, i - start + 1);
                }
                if value > (usize::MAX - d) / 10 {
                    assert(value * 10 + d > usize::MAX);
                    assert(digits_value(digits) > usize::MAX);
                    return None;
                }
                value = value * 10 + d;
                assert forall|j: int| 0 <= j < next.len() implies (#[trigger] digit_value(
                    next[j],
                )) is Some by {
                    if j < done.len() {
                        assert(next[j] == done[j]);
                    }
                }
            },
        }
        i = i + 1;
    }
    assert(digits.take(v.len() - start) =~= digits);
    Some(value)
}

/// The address to listen on: the loopback address and the port.
pub open spec fn listen_address_text(port: nat) -> Seq<char> {
    "127.0.0.1:"@ + decimal_text(port)
}

/// The address to listen on: the loopback address and the port.
pub fn listen_address(port: u16) -> (r: String)
    ensures
        r@ == listen_address_text(port as nat),
{
    let mut out = String::from_str("127.0.0.1:");
    let digits = decimal_string(port as u64);
    out.append(digits.as_str());
    out
}

/// The first step: bind the configured port, if it is a port number at
/// all.
pub open spec fn first_step(port: nat) -> StartupStep {
    if port <= MAX_PORT {
        StartupStep::Bind { listener: Listener { port: port as u16, changed: false } }
    } else {
        StartupStep::Exit
    }
}

/// The step after a try to bind: serve if the port is bound, and else let
/// the operator choose.
pub open spec fn step_after_bind(listener: Listener, bound: bool) -> StartupStep {
    if bound {
        StartupStep::Serve { listener }
    } else {
        StartupStep::Choose { listener }
    }
}

/// The step after the operator was offered the choices; `None` stands for
/// an operator who could not be asked.
pub open spec fn step_after_choice(listener: Listener, choice: Option<BindChoice>) -> StartupStep {
    match choice {
        Some(BindChoice::Retry) => StartupStep::Bind { listener },
        Some(BindChoice::ChangePort) => StartupStep::AskPort { listener },
        Some(BindChoice::Quit) => StartupStep::Exit,
        None => StartupStep::Exit,
    }
}

/// The step after the operator was asked for a port; `None` stands for an
/// operator who could not be asked. A line that writes no number is asked
/// for again; a number that is no port number ends startup; a port number
/// is tried and marked as changed.
pub open spec fn step_after_port_line(listener: Listener, line: Option<Seq<char>>) -> StartupStep {
    match line {
        Some(text) => match parsed_number(text) {
            Some(port) => if port <= MAX_PORT {
                StartupStep::Bind { listener: Listener { port: port as u16, changed: true } }
            } else {
                StartupStep::Exit
            },
            None => StartupStep::AskPort { listener },
        },
        None => StartupStep::Exit,
    }
}

/// The first step of startup for the configured port.
pub fn begin_startup(port: usize) -> (step: StartupStep)
    ensures
        step == first_step(port as nat),
{
    if port <= MAX_PORT {
        StartupStep::Bind { listener: Listener { port: port as u16, changed: false } }
    } else {
        StartupStep::Exit
    }
}

/// The step after a try to bind.
pub fn after_bind(listener: Listener, bound: bool) -> (step: StartupStep)
    ensures
        step == step_after_bind(listener, bound),
{
    if bound {
        StartupStep::Serve { listener }
    } else {
        StartupStep::Choose { listener }
    }
}

/// The step after the operator chose.
pub fn after_choice(listener: Listener, choice: Option<BindChoice>) -> (step: StartupStep)
    ensures
        step == step_after_choice(listener, choice),
{
    match choice {
        Some(BindChoice::Retry) => StartupStep::Bind { listener },
        Some(BindChoice::ChangePort) => StartupStep::AskPort { listener },
        Some(BindChoice::Quit) => StartupStep::Exit,
        None => StartupStep::Exit,
    }
}

/// The step after the operator entered a line for the new port.
pub fn after_port_line(listener: Listener, line: Option<&str>) -> (step: StartupStep)
    ensures
        step == step_after_port_line(
            listener,
            match line {
                Some(text) => Some(text@),
                None => None,
            },
        ),
{
    match line {
        Some(text) => match parse_number(text) {
            Some(port) => {
                if port <= MAX_PORT {
                    StartupStep::Bind { listener: Listener { port: port as u16, changed: true } }
                } else {
                    StartupStep::Exit
                }
            },
            None => StartupStep::AskPort { listener },
        },
        None => StartupStep::Exit,
    }
}

/// What is written down about the port once it is bound: the port number,
/// if it is another one than the service was configured with.
pub open spec fn port_record_text(listener: Listener) -> Option<Seq<char>> {
    if listener.changed {
        Some(decimal_text(listener.port as nat))
    } else {
        None
    }
}

/// What is to be written down about the port once it is bound.
pub fn port_record(listener: Listener) -> (r: Option<String>)
    ensures
        r.deep_view() == port_record_text(listener),
{
    if listener.changed {
        Some(decimal_string(listener.port as u64))
    } else {
        None
    }
}

/// The name under which a choice is offered to the operator.
pub open spec fn choice_label_text(choice: BindChoice) -> Seq<char> {
    match choice {
        BindChoice::Quit => "Quit"@,
        BindChoice::Retry => "Retry"@,
        BindChoice::ChangePort => "ChangePort"@,
    }
}

/// The name under which a choice is offered to the operator.
pub fn choice_label(choice: BindChoice) -> (r: String)
    ensures
        r@ == choice_label_text(choice),
{
    match choice {
        BindChoice::Quit => String::from_str("Quit"),
        BindChoice::Retry => String::from_str("Retry"),
        BindChoice::ChangePort => String::from_str("ChangePort"),
    }
}

/// The choice that a label names, if it names one.
pub fn choice_from_label(label: &str) -> (r: Option<BindChoice>)
    ensures
        match r {
            Some(choice) => label@ == choice_label_text(choice),
            None => forall|choice: BindChoice| label@ != choice_label_text(choice),
        },
{
    if crate::text::text_equal(label, "Quit") {
        Some(BindChoice::Quit)
    } else if crate::text::text_equal(label, "Retry") {
        Some(BindChoice::Retry)
    } else if crate::text::text_equal(label, "ChangePort") {
        Some(BindChoice::ChangePort)
    } else {
        None
    }
}

} // verus!
