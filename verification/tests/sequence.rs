use ndbank::chip_option::ChipOption;
use ndbank::error::CommandError;
use ndbank::registers::FlashCr;
use ndbank::report::Message;
use ndbank::sequence::{start, step, Action, Event, State, TargetChoice};
use probe_rs::config::{Registry, RegistryError};
use probe_rs::flashing::FlashError;

const OPTCR: u64 = 0x4002_3C14;
const OPTCR1: u64 = 0x4002_3C18;

fn write(value: bool) -> ChipOption {
    ChipOption::NDBANK { value: Some(value) }
}

fn query() -> ChipOption {
    ChipOption::NDBANK { value: None }
}

fn probe_failure() -> Event {
    Event::Failed { error: CommandError::ProbeRsError(probe_rs::Error::Timeout) }
}

/// Feeds the events one by one and collects the actions asked for in reply.
fn replies(option: ChipOption, events: Vec<Event>) -> (State, Vec<Action>) {
    let (mut state, first) = start(None, option);
    assert!(matches!(first, Action::Attach { target: TargetChoice::Auto }));
    let mut actions = Vec::new();
    for event in events {
        match step(state, event) {
            Some((following, action)) => {
                state = following;
                actions.push(action);
            }
            None => break,
        }
    }
    (state, actions)
}

fn count_writes(actions: &[Action]) -> (usize, usize) {
    let stages = actions.iter().filter(|a| matches!(a, Action::Stage { .. })).count();
    let commits = actions.iter().filter(|a| matches!(a, Action::Commit)).count();
    (stages, commits)
}

#[test]
fn without_a_name_the_target_is_detected() {
    let (state, first) = start(None, query());
    assert_eq!(state, State::Attaching { option: query() });
    assert!(matches!(first, Action::Attach { target: TargetChoice::Auto }));
}

#[test]
fn a_named_chip_is_looked_up_before_the_attach() {
    let (state, first) = start(Some(String::from("STM32F767ZITx")), write(true));
    assert_eq!(state, State::LookingUp { option: write(true) });
    assert!(matches!(first, Action::Lookup { name } if name == "STM32F767ZITx"));

    let target = Registry::from_builtin_families()
        .get_target_by_name("STM32F767ZITx")
        .expect("a built-in target");
    let (state, action) = step(state, Event::Found { target }).expect("a lookup can succeed");
    assert_eq!(state, State::Attaching { option: write(true) });
    assert!(matches!(
        action,
        Action::Attach { target: TargetChoice::Specified(found) } if found.name == "STM32F767ZITx"
    ));

    let (state, action) = step(state, Event::Done).expect("an attach can succeed");
    assert_eq!(state, State::ReadingOptcr { option: write(true) });
    assert!(matches!(action, Action::ReadWord { address: OPTCR }));
}

#[test]
fn a_failed_lookup_ends_the_command_before_any_attach() {
    let (state, _) = start(Some(String::from("no such chip")), write(true));
    let not_found = Registry::from_builtin_families()
        .get_target_by_name("no such chip")
        .expect_err("the name is unknown");
    assert!(matches!(not_found, RegistryError::ChipNotFound(_)));
    let error = CommandError::from(probe_rs::Error::from(not_found));
    let (state, action) = step(state, Event::Failed { error }).expect("a lookup can fail");
    assert_eq!(state, State::Finished);
    assert!(matches!(
        action,
        Action::Exit {
            result: Err(CommandError::ProbeRsError(probe_rs::Error::ChipNotFound(
                RegistryError::ChipNotFound(name)
            )))
        } if name == "no such chip"
    ));
    assert!(step(state, Event::Done).is_none());
}

#[test]
fn a_lookup_is_answered_by_a_target_or_a_failure_only() {
    let looking = State::LookingUp { option: query() };
    assert!(step(looking, Event::Done).is_none());
    assert!(step(looking, Event::Word { bytes: [0; 4] }).is_none());
    let target = Registry::from_builtin_families()
        .get_target_by_name("STM32F767ZITx")
        .expect("a built-in target");
    assert!(step(State::Attaching { option: query() }, Event::Found { target }).is_none());
}

#[test]
fn writing_true_over_a_zero_optcr_stages_bit_29_and_commits_once() {
    let (state, actions) = replies(
        write(true),
        vec![
            Event::Done,
            Event::Word { bytes: [0, 0, 0, 0] },
            Event::Word { bytes: [0x0f, 0x7f, 0xff, 0x0f] },
            Event::Done,
            Event::Done,
        ],
    );
    assert_eq!(state, State::Finished);
    assert_eq!(actions.len(), 5);
    assert!(matches!(actions[0], Action::ReadWord { address: OPTCR }));
    assert!(matches!(actions[1], Action::ReadWord { address: OPTCR1 }));
    assert!(matches!(
        actions[2],
        Action::Stage { regs: FlashCr { optcr: 0x2000_0000, optcr1: 0x0fff_7f0f } }
    ));
    assert!(matches!(actions[3], Action::Commit));
    assert!(matches!(actions[4], Action::Exit { result: Ok(()) }));
    assert_eq!(count_writes(&actions), (1, 1));
}

#[test]
fn a_write_prints_nothing() {
    let (_, actions) = replies(
        write(true),
        vec![
            Event::Done,
            Event::Word { bytes: [0, 0, 0, 0] },
            Event::Word { bytes: [0, 0, 0, 0] },
            Event::Done,
            Event::Done,
        ],
    );
    assert_eq!(actions.iter().filter(|a| matches!(a, Action::Print { .. })).count(), 0);
}

#[test]
fn writing_false_clears_bit_29_and_keeps_the_rest() {
    let (_, actions) = replies(
        write(false),
        vec![
            Event::Done,
            Event::Word { bytes: [0xff, 0xff, 0xff, 0xff] },
            Event::Word { bytes: [0x78, 0x56, 0x34, 0x12] },
        ],
    );
    assert_eq!(actions.len(), 3);
    assert!(matches!(
        actions[2],
        Action::Stage { regs: FlashCr { optcr: 0xdfff_ffff, optcr1: 0x1234_5678 } }
    ));
}

#[test]
fn a_query_prints_the_dump_and_the_bit_and_never_writes() {
    let (state, actions) = replies(
        query(),
        vec![Event::Done, Event::Word { bytes: [0, 0, 0, 0x20] }, Event::Done, Event::Done],
    );
    assert_eq!(state, State::Finished);
    assert_eq!(actions.len(), 4);
    assert!(matches!(actions[0], Action::ReadWord { address: OPTCR }));
    assert!(matches!(
        actions[1],
        Action::Print { message: Message::RegisterDump { optcr: 0x2000_0000 } }
    ));
    assert!(matches!(
        actions[2],
        Action::Print {
            message: Message::Report { option: ChipOption::NDBANK { value: Some(true) } }
        }
    ));
    assert!(matches!(actions[3], Action::Exit { result: Ok(()) }));
    assert_eq!(count_writes(&actions), (0, 0));
}

#[test]
fn a_query_reports_false_when_bit_29_is_clear() {
    let (_, actions) = replies(
        query(),
        vec![Event::Done, Event::Word { bytes: [0xff, 0xff, 0xff, 0xdf] }, Event::Done],
    );
    assert!(matches!(
        actions[2],
        Action::Print {
            message: Message::Report { option: ChipOption::NDBANK { value: Some(false) } }
        }
    ));
}

#[test]
fn a_failed_attach_ends_the_command_before_anything_is_read() {
    let (state, actions) = replies(
        write(true),
        vec![probe_failure(), Event::Word { bytes: [0, 0, 0, 0] }, Event::Done],
    );
    assert_eq!(state, State::Finished);
    assert_eq!(actions.len(), 1);
    assert!(matches!(
        actions[0],
        Action::Exit { result: Err(CommandError::ProbeRsError(probe_rs::Error::Timeout)) }
    ));
}

#[test]
fn a_failed_read_prevents_staging_and_commit() {
    let first_read_fails = vec![Event::Done, probe_failure(), Event::Done, Event::Done];
    let (state, actions) = replies(write(true), first_read_fails);
    assert_eq!(state, State::Finished);
    assert_eq!(actions.len(), 2);
    assert!(matches!(
        actions[1],
        Action::Exit { result: Err(CommandError::ProbeRsError(probe_rs::Error::Timeout)) }
    ));
    assert_eq!(count_writes(&actions), (0, 0));

    let second_read_fails = vec![
        Event::Done,
        Event::Word { bytes: [0, 0, 0, 0] },
        probe_failure(),
        Event::Done,
        Event::Done,
    ];
    let (state, actions) = replies(write(true), second_read_fails);
    assert_eq!(state, State::Finished);
    assert_eq!(actions.len(), 3);
    assert!(matches!(
        actions[2],
        Action::Exit { result: Err(CommandError::ProbeRsError(probe_rs::Error::Timeout)) }
    ));
    assert_eq!(count_writes(&actions), (0, 0));
}

#[test]
fn a_failed_staging_prevents_the_commit() {
    let (state, actions) = replies(
        write(false),
        vec![
            Event::Done,
            Event::Word { bytes: [0, 0, 0, 0x20] },
            Event::Word { bytes: [0, 0, 0, 0] },
            Event::Failed { error: CommandError::ProbeRsFlashError(FlashError::Verify) },
            Event::Done,
        ],
    );
    assert_eq!(state, State::Finished);
    assert_eq!(actions.len(), 4);
    assert!(matches!(
        actions[3],
        Action::Exit { result: Err(CommandError::ProbeRsFlashError(FlashError::Verify)) }
    ));
    assert_eq!(count_writes(&actions), (1, 0));
}

#[test]
fn a_failed_commit_is_the_result_of_the_command() {
    let (state, actions) = replies(
        write(true),
        vec![
            Event::Done,
            Event::Word { bytes: [0, 0, 0, 0] },
            Event::Word { bytes: [0, 0, 0, 0] },
            Event::Done,
            Event::Failed { error: CommandError::ProbeRsFlashError(FlashError::Verify) },
        ],
    );
    assert_eq!(state, State::Finished);
    assert!(matches!(
        actions[4],
        Action::Exit { result: Err(CommandError::ProbeRsFlashError(FlashError::Verify)) }
    ));
    assert_eq!(count_writes(&actions), (1, 1));
}

#[test]
fn an_event_that_answers_nothing_pending_is_refused() {
    assert!(step(State::Attaching { option: query() }, Event::Word { bytes: [0; 4] }).is_none());
    assert!(step(State::ReadingOptcr { option: query() }, Event::Done).is_none());
    assert!(step(State::DumpingOptcr { option: query(), optcr: 0 }, Event::Word { bytes: [0; 4] })
        .is_none());
    assert!(step(State::Reporting, Event::Word { bytes: [0; 4] }).is_none());
    assert!(step(State::ReadingOptcr1 { optcr: 0, value: true }, Event::Done).is_none());
    assert!(step(State::Staging, Event::Word { bytes: [0; 4] }).is_none());
    assert!(step(State::Committing, Event::Word { bytes: [0; 4] }).is_none());
}

#[test]
fn a_finished_command_takes_no_more_events() {
    assert!(step(State::Finished, Event::Done).is_none());
    assert!(step(State::Finished, Event::Word { bytes: [0; 4] }).is_none());
    assert!(step(State::Finished, probe_failure()).is_none());
}
