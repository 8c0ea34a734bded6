//! The order of work of one command.
//!
//! A command is a short dialogue with the probe. The library decides what is
//! to be done next; the caller does it (looks a chip up, attaches, reads
//! memory, prints, stages, commits) and reports how it went. `start` gives the first action,
//! `step` takes the outcome of the pending action and gives the next one,
//! until it asks to exit.

use vstd::prelude::*;
use crate::chip_option::{option_read_from, read_option_byte, ChipOption, Mode};
use crate::error::CommandError;
use crate::bits::with_bit;
use crate::registers::{
    ndbank_of, optcr1_address, optcr_address, FlashCr, OptionRegister, FLASH_OPTCR_NDBANK_BIT,
};
use crate::report::Message;
use crate::word::{u32_from_le_bytes, word_of_bytes};

verus! {

/// Which target a session is attached to.
#[derive(Debug)]
pub enum TargetChoice {
    /// Let the probe library find out what is connected.
    Auto,
    /// Attach to this target, as the lookup by name found it.
    Specified(probe_rs::Target),
}

/// What the caller is asked to do.
#[derive(Debug)]
pub enum Action {
    /// Look the chip up in the target database, by this exact name.
    Lookup { name: String },
    /// Open a session on the chosen target, with default permissions.
    Attach { target: TargetChoice },
    /// Read four bytes at `address` through the first core.
    ReadWord { address: u64 },
    /// Print the message on standard output.
    Print { message: Message },
    /// Stage the two registers in a fresh flash loader of the session's target.
    Stage { regs: FlashCr },
    /// Commit the staged loader with default download options.
    Commit,
    /// Stop; this is the command's result.
    Exit { result: Result<(), CommandError> },
}

/// How the pending action went.
#[derive(Debug)]
pub enum Event {
    /// The action succeeded and has nothing to show.
    Done,
    /// The lookup succeeded with this target.
    Found { target: probe_rs::Target },
    /// The memory read succeeded with these bytes.
    Word { bytes: [u8; 4] },
    /// The action failed.
    Failed { error: CommandError },
}

/// Where a command stands: which action is pending, and what is kept for
/// the ones to come.
#[derive(Clone, Copy, Debug, PartialEq, Eq)]
pub enum State {
    /// Waiting for the named chip to be looked up.
    LookingUp { option: ChipOption },
    /// Waiting for the session to be attached.
    Attaching { option: ChipOption },
    /// Waiting for the bytes of OPTCR.
    ReadingOptcr { option: ChipOption },
    /// Waiting for the OPTCR dump of a query to be printed.
    DumpingOptcr { option: ChipOption, optcr: u32 },
    /// Waiting for the answer to a query to be printed.
    Reporting,
    /// Waiting for the bytes of OPTCR1; `value` is what NDBANK is to become.
    ReadingOptcr1 { optcr: u32, value: bool },
    /// Waiting for the registers to be staged.
    Staging,
    /// Waiting for the commit.
    Committing,
    /// Exit was asked for; nothing is pending.
    Finished,
}

/// The state and the first action of a command: a named chip is looked up
/// first; without a name the session is attached to whatever is found.
pub open spec fn initial(chip_name: Option<String>, option: ChipOption) -> (State, Action) {
    match chip_name {
        Some(name) => (State::LookingUp { option }, Action::Lookup { name }),
        None => (State::Attaching { option }, Action::Attach { target: TargetChoice::Auto }),
    }
}

/// What follows when `event` answers the action pending in `state`: the next
/// state and the next action, or `None` when the event is no answer to it.
///
/// A failure ends the command at once with that error. Otherwise: attach,
/// to the target that a lookup found if there was one, and read OPTCR; then
/// a query prints the raw value and the bit that was read and exits, while a
/// write reads OPTCR1, stages both registers with NDBANK changed, commits
/// and exits.
pub open spec fn next(state: State, event: Event) -> Option<(State, Action)> {
    match (state, event) {
        (State::Finished, _) => None,
        (_, Event::Failed { error }) => Some(
            (State::Finished, Action::Exit { result: Err(error) }),
        ),
        (State::LookingUp { option }, Event::Found { target }) => Some(
            (
                State::Attaching { option },
                Action::Attach { target: TargetChoice::Specified(target) },
            ),
        ),
        (State::Attaching { option }, Event::Done) => Some(
            (State::ReadingOptcr { option }, Action::ReadWord { address: optcr_address() }),
        ),
        (State::ReadingOptcr { option }, Event::Word { bytes }) => {
            let optcr = word_of_bytes(bytes@);
            match option.spec_mode() {
                Mode::Read => Some(
                    (
                        State::DumpingOptcr { option, optcr },
                        Action::Print { message: Message::RegisterDump { optcr } },
                    ),
                ),
                Mode::Write(value) => Some(
                    (
                        State::ReadingOptcr1 { optcr, value },
                        Action::ReadWord { address: optcr1_address() },
                    ),
                ),
            }
        },
        (State::DumpingOptcr { option, optcr }, Event::Done) => Some(
            (
                State::Reporting,
                Action::Print {
                    message: Message::Report { option: option_read_from(option, optcr) },
                },
            ),
        ),
        (State::Reporting, Event::Done) => Some(
            (State::Finished, Action::Exit { result: Ok(()) }),
        ),
        (State::ReadingOptcr1 { optcr, value }, Event::Word { bytes }) => {
            let regs = FlashCr { optcr, optcr1: word_of_bytes(bytes@) };
            Some((State::Staging, Action::Stage { regs: regs.spec_with_ndbank(value) }))
        },
        (State::Staging, Event::Done) => Some((State::Committing, Action::Commit)),
        (State::Committing, Event::Done) => Some(
            (State::Finished, Action::Exit { result: Ok(()) }),
        ),
        _ => None,
    }
}

/// Begins a command: a named chip is to be looked up, and without a name
/// the session is to be attached to whatever is found.
pub fn start(chip_name: Option<String>, option: ChipOption) -> (first: (State, Action))
    ensures
        first == initial(chip_name, option),
{
    match chip_name {
        Some(name) => (State::LookingUp { option }, Action::Lookup { name }),
        None => (State::Attaching { option }, Action::Attach { target: TargetChoice::Auto }),
    }
}

/// Takes the outcome of the pending action and decides what comes next.
/// Returns `None` when `event` is not an outcome that the pending action can
/// have, and whenever the command has already finished. A message that is
/// to be printed can always be rendered.
pub fn step(state: State, event: Event) -> (following: Option<(State, Action)>)
    ensures
        following == next(state, event),
        following matches Some((_, Action::Print { message })) ==> message.printable(),
{
    match (state, event) {
        (State::Finished, _) => None,
        (_, Event::Failed { error }) => Some(
            (State::Finished, Action::Exit { result: Err(error) }),
        ),
        (State::LookingUp { option }, Event::Found { target }) => Some(
            (
                State::Attaching { option },
                Action::Attach { target: TargetChoice::Specified(target) },
            ),
        ),
        (State::Attaching { option }, Event::Done) => Some(
            (
                State::ReadingOptcr { option },
                Action::ReadWord { address: OptionRegister::Optcr.address() },
            ),
        ),
        (State::ReadingOptcr { option }, Event::Word { bytes }) => {
            let optcr = u32_from_le_bytes(bytes);
            match option.mode() {
                Mode::Read => Some(
                    (
                        State::DumpingOptcr { option, optcr },
                        Action::Print { message: Message::RegisterDump { optcr } },
                    ),
                ),
                Mode::Write(value) => Some(
                    (
                        State::ReadingOptcr1 { optcr, value },
                        Action::ReadWord { address: OptionRegister::Optcr1.address() },
                    ),
                ),
            }
        },
        (State::DumpingOptcr { option, optcr }, Event::Done) => Some(
            (
                State::Reporting,
                Action::Print {
                    message: Message::Report { option: read_option_byte(option, optcr) },
                },
            ),
        ),
        (State::Reporting, Event::Done) => Some(
            (State::Finished, Action::Exit { result: Ok(()) }),
        ),
        (State::ReadingOptcr1 { optcr, value }, Event::Word { bytes }) => {
            let regs = FlashCr { optcr, optcr1: u32_from_le_bytes(bytes) };
            Some((State::Staging, Action::Stage { regs: regs.with_ndbank(value) }))
        },
        (State::Staging, Event::Done) => Some((State::Committing, Action::Commit)),
        (State::Committing, Event::Done) => Some(
            (State::Finished, Action::Exit { result: Ok(()) }),
        ),
        _ => None,
    }
}

/// The actions asked for, in order, when `events` come in one after another
/// from `state` on. The run ends with the events, or at the first event that
/// is no answer to what is pending.
pub open spec fn run(state: State, events: Seq<Event>) -> Seq<Action>
    decreases events.len(),
{
    if events.len() == 0 {
        Seq::empty()
    } else {
        match next(state, events[0]) {
            None => Seq::empty(),
            Some((following, action)) => seq![action] + run(following, events.drop_first()),
        }
    }
}

/// How many actions have been answered when `state` is reached, counted
/// from the attach; the lookup of a named chip comes one before it. A query
/// and a write part ways after OPTCR was read.
pub open spec fn progress(state: State) -> int {
    match state {
        State::LookingUp { .. } => -1,
        State::Attaching { .. } => 0,
        State::ReadingOptcr { .. } => 1,
        State::DumpingOptcr { .. } => 2,
        State::Reporting => 3,
        State::ReadingOptcr1 { .. } => 2,
        State::Staging => 3,
        State::Committing => 4,
        State::Finished => 5,
    }
}

/// Whether the action changes what the device will hold.
pub open spec fn writes(action: Action) -> bool {
    action is Stage || action is Commit
}

/// After a failure nothing more is asked but to exit with that very error.
pub proof fn lemma_failure_ends_run(state: State, events: Seq<Event>, k: int)
    requires
        0 <= k < events.len(),
        events[k] is Failed,
    ensures
        run(state, events).len() <= k + 1,
        run(state, events).len() == k + 1 ==> run(state, events)[k] == (Action::Exit {
            result: Err(events[k]->error),
        }),
    decreases k,
{
    match next(state, events[0]) {
        None => {},
        Some((following, action)) => {
            let rest = events.drop_first();
            if k == 0 {
                assert(run(following, rest).len() == 0);
            } else {
                assert(rest[k - 1] == events[k]);
                lemma_failure_ends_run(following, rest, k - 1);
            }
        },
    }
}

/// Staging is asked for only as the answer to the third event of a command
/// and commit only as the answer to the fourth, counted from the attach.
pub proof fn lemma_writes_have_fixed_places(state: State, events: Seq<Event>, i: int)
    requires
        0 <= i < run(state, events).len(),
    ensures
        run(state, events)[i] is Stage ==> progress(state) + i == 2,
        run(state, events)[i] is Commit ==> progress(state) + i == 3,
    decreases events.len(),
{
    match next(state, events[0]) {
        None => {},
        Some((following, action)) => {
            if i > 0 {
                let rest = events.drop_first();
                lemma_writes_have_fixed_places(following, rest, i - 1);
            }
        },
    }
}

/// In any run, staging and commit are each asked for at most once, and
/// commit directly after staging.
pub proof fn lemma_stage_and_commit_once(state: State, events: Seq<Event>, i: int, j: int)
    requires
        0 <= i < run(state, events).len(),
        0 <= j < run(state, events).len(),
    ensures
        run(state, events)[i] is Stage && run(state, events)[j] is Stage ==> i == j,
        run(state, events)[i] is Commit && run(state, events)[j] is Commit ==> i == j,
        run(state, events)[i] is Stage && run(state, events)[j] is Commit ==> j == i + 1,
{
    lemma_writes_have_fixed_places(state, events, i);
    lemma_writes_have_fixed_places(state, events, j);
}

/// A failure while the session is set up, that is while looking the chip
/// up, attaching or reading either register, keeps the command from ever
/// asking to stage or to commit. A failure of the staging still keeps it
/// from asking to commit.
pub proof fn lemma_failed_setup_prevents_write(
    chip_name: Option<String>,
    option: ChipOption,
    events: Seq<Event>,
    k: int,
)
    requires
        0 <= k < events.len(),
        events[k] is Failed,
    ensures
        !writes(initial(chip_name, option).1),
        progress(initial(chip_name, option).0) + k <= 2 ==> forall|i: int|
            0 <= i < run(initial(chip_name, option).0, events).len() ==> !(#[trigger] run(
                initial(chip_name, option).0,
                events,
            )[i] is Stage),
        progress(initial(chip_name, option).0) + k <= 3 ==> forall|i: int|
            0 <= i < run(initial(chip_name, option).0, events).len() ==> !(#[trigger] run(
                initial(chip_name, option).0,
                events,
            )[i] is Commit),
{
    let state = initial(chip_name, option).0;
    lemma_failure_ends_run(state, events, k);
    assert forall|i: int| 0 <= i < run(state, events).len() implies (progress(state) + k <= 2
        ==> !(#[trigger] run(state, events)[i] is Stage)) && (progress(state) + k <= 3 ==> !(run(
        state,
        events,
    )[i] is Commit)) by {
        lemma_writes_have_fixed_places(state, events, i);
    }
}

/// When the lookup of a named chip fails, the command exits with that error
/// and asks for nothing else: no attach, no read, no staging, no commit.
pub proof fn lemma_failed_lookup_prevents_attach(
    name: String,
    option: ChipOption,
    events: Seq<Event>,
)
    requires
        events.len() > 0,
        events[0] is Failed,
    ensures
        initial(Some(name), option).1 == (Action::Lookup { name }),
        run(initial(Some(name), option).0, events) == seq![
            Action::Exit { result: Err(events[0]->error) },
        ],
{
    let state = initial(Some(name), option).0;
    lemma_failure_ends_run(state, events, 0);
    assert(run(state, events) =~= seq![Action::Exit { result: Err(events[0]->error) }]);
}

/// A command with a named chip that is found goes on as one without a name
/// does after its first action, but attached to the target that was found.
pub proof fn lemma_found_chip_is_attached(
    name: String,
    option: ChipOption,
    target: probe_rs::Target,
    events: Seq<Event>,
)
    ensures
        run(initial(Some(name), option).0, seq![Event::Found { target }] + events) == seq![
            Action::Attach { target: TargetChoice::Specified(target) },
        ] + run(initial(None, option).0, events),
{
    let all = seq![Event::Found { target }] + events;
    assert(all.drop_first() =~= events);
}

/// Whether `state` belongs to a query: one of the states that a command in
/// read mode passes through.
pub open spec fn querying(state: State) -> bool {
    match state {
        State::LookingUp { option } => option.spec_mode() == Mode::Read,
        State::Attaching { option } => option.spec_mode() == Mode::Read,
        State::ReadingOptcr { option } => option.spec_mode() == Mode::Read,
        State::DumpingOptcr { option, .. } => option.spec_mode() == Mode::Read,
        State::Reporting => true,
        State::Finished => true,
        _ => false,
    }
}

/// A query leaves the device as it is: whatever the events, it never asks
/// to stage or to commit.
pub proof fn lemma_query_never_writes(state: State, events: Seq<Event>, i: int)
    requires
        querying(state),
        0 <= i < run(state, events).len(),
    ensures
        !writes(run(state, events)[i]),
    decreases events.len(),
{
    match next(state, events[0]) {
        None => {},
        Some((following, action)) => {
            if i > 0 {
                lemma_query_never_writes(following, events.drop_first(), i - 1);
            }
        },
    }
}

/// The events of a query in which everything succeeds.
pub open spec fn successful_query(optcr_bytes: [u8; 4]) -> Seq<Event> {
    seq![Event::Done, Event::Word { bytes: optcr_bytes }, Event::Done, Event::Done]
}

/// The events of a write in which everything succeeds.
pub open spec fn successful_write(optcr_bytes: [u8; 4], optcr1_bytes: [u8; 4]) -> Seq<Event> {
    seq![
        Event::Done,
        Event::Word { bytes: optcr_bytes },
        Event::Word { bytes: optcr1_bytes },
        Event::Done,
        Event::Done,
    ]
}

/// A query in which everything succeeds reads OPTCR, prints the raw value,
/// prints NDBANK as the device holds it, and exits.
pub proof fn lemma_successful_query(optcr_bytes: [u8; 4])
    ensures
        run(
            State::Attaching { option: ChipOption::NDBANK { value: None } },
            successful_query(optcr_bytes),
        ) == seq![
            Action::ReadWord { address: optcr_address() },
            Action::Print { message: Message::RegisterDump { optcr: word_of_bytes(optcr_bytes@) } },
            Action::Print {
                message: Message::Report {
                    option: ChipOption::NDBANK { value: Some(ndbank_of(word_of_bytes(optcr_bytes@))) },
                },
            },
            Action::Exit { result: Ok(()) },
        ],
{
    let option = ChipOption::NDBANK { value: None };
    let optcr = word_of_bytes(optcr_bytes@);
    let e0 = successful_query(optcr_bytes);
    let e1 = e0.drop_first();
    let e2 = e1.drop_first();
    let e3 = e2.drop_first();
    let e4 = e3.drop_first();
    assert(run(State::Finished, e4) =~= Seq::empty());
    assert(run(State::Reporting, e3) =~= seq![Action::Exit { result: Ok(()) }]);
    assert(run(State::DumpingOptcr { option, optcr }, e2) =~= seq![
        Action::Print { message: Message::Report { option: option_read_from(option, optcr) } },
    ] + run(State::Reporting, e3));
    assert(run(State::ReadingOptcr { option }, e1) =~= seq![
        Action::Print { message: Message::RegisterDump { optcr } },
    ] + run(State::DumpingOptcr { option, optcr }, e2));
    assert(run(State::Attaching { option }, e0) =~= seq![
        Action::ReadWord { address: optcr_address() },
    ] + run(State::ReadingOptcr { option }, e1));
}

/// A write in which everything succeeds reads both registers, stages OPTCR
/// with NDBANK changed to the requested value beside OPTCR1 as it was read,
/// commits once, and exits.
pub proof fn lemma_successful_write(value: bool, optcr_bytes: [u8; 4], optcr1_bytes: [u8; 4])
    ensures
        run(
            State::Attaching { option: ChipOption::NDBANK { value: Some(value) } },
            successful_write(optcr_bytes, optcr1_bytes),
        ) == seq![
            Action::ReadWord { address: optcr_address() },
            Action::ReadWord { address: optcr1_address() },
            Action::Stage {
                regs: FlashCr {
                    optcr: with_bit(word_of_bytes(optcr_bytes@), FLASH_OPTCR_NDBANK_BIT, value),
                    optcr1: word_of_bytes(optcr1_bytes@),
                },
            },
            Action::Commit,
            Action::Exit { result: Ok(()) },
        ],
{
    let option = ChipOption::NDBANK { value: Some(value) };
    let optcr = word_of_bytes(optcr_bytes@);
    let optcr1 = word_of_bytes(optcr1_bytes@);
    let regs = FlashCr { optcr, optcr1 };
    let e0 = successful_write(optcr_bytes, optcr1_bytes);
    let e1 = e0.drop_first();
    let e2 = e1.drop_first();
    let e3 = e2.drop_first();
    let e4 = e3.drop_first();
    let e5 = e4.drop_first();
    assert(run(State::Finished, e5) =~= Seq::empty());
    assert(run(State::Committing, e4) =~= seq![Action::Exit { result: Ok(()) }]);
    assert(run(State::Staging, e3) =~= seq![Action::Commit] + run(State::Committing, e4));
    assert(run(State::ReadingOptcr1 { optcr, value }, e2) =~= seq![
        Action::Stage { regs: regs.spec_with_ndbank(value) },
    ] + run(State::Staging, e3));
    assert(run(State::ReadingOptcr { option }, e1) =~= seq![
        Action::ReadWord { address: optcr1_address() },
    ] + run(State::ReadingOptcr1 { optcr, value }, e2));
    assert(run(State::Attaching { option }, e0) =~= seq![
        Action::ReadWord { address: optcr_address() },
    ] + run(State::ReadingOptcr { option }, e1));
}

} // verus!
