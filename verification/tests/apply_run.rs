use dpedit::apply::{ApplyRun, Failure, Outcome};
use dpedit::command::{parse_requests, PositionRequest};
use dpedit::device::{DisplayDevice, StateFlags};
use dpedit::mode::DisplayMode;
use dpedit::system::{Query, Reply};

fn wide(text: &str) -> Vec<u16> {
    text.encode_utf16().collect()
}

fn request(display: u32, x: i32, y: i32) -> PositionRequest {
    PositionRequest::new(display, x, y).unwrap()
}

fn device(name: &str) -> DisplayDevice {
    DisplayDevice {
        name: wide(name),
        description: wide("Monitor"),
        flags: StateFlags::from_bits(0x1),
    }
}

fn mode(width: u32, height: u32, x: i32, y: i32) -> DisplayMode {
    DisplayMode { width, height, x, y, fields: 0x1C_0000, opaque: vec![9, 8, 7, 6] }
}

/// A display system that lives in memory and keeps a record of what it is asked.
struct Desk {
    displays: Vec<(DisplayDevice, Option<DisplayMode>)>,
    refusing: Vec<Vec<u16>>,
    refusal: i32,
    asked: Vec<Query>,
}

impl Desk {
    fn new(displays: Vec<(DisplayDevice, Option<DisplayMode>)>) -> Desk {
        Desk { displays, refusing: vec![], refusal: -1, asked: vec![] }
    }

    fn answer(&mut self, query: Query) -> Reply {
        self.asked.push(query.clone());
        match query {
            Query::Enumerate { index, .. } => {
                Reply::Device(self.displays.get(index as usize).map(|d| d.0.clone()))
            }
            Query::ReadMode { device, .. } => Reply::Mode(
                self.displays.iter().find(|d| d.0.name == device).and_then(|d| d.1.clone()),
            ),
            Query::WriteMode { device, mode, .. } => {
                if self.refusing.contains(&device) {
                    return Reply::Written { code: self.refusal };
                }
                match self.displays.iter_mut().find(|d| d.0.name == device) {
                    Some(display) => {
                        let stored = display.1.as_mut().unwrap();
                        assert_eq!(mode.fields, 0x20);
                        stored.x = mode.x;
                        stored.y = mode.y;
                        Reply::Written { code: 0 }
                    }
                    None => Reply::Written { code: -5 },
                }
            }
        }
    }

    fn enumerated(&self) -> Vec<u32> {
        self.asked
            .iter()
            .filter_map(|q| match q {
                Query::Enumerate { index, .. } => Some(*index),
                _ => None,
            })
            .collect()
    }
}

fn carry_out(desk: &mut Desk, requests: Vec<PositionRequest>) -> Vec<Outcome> {
    let mut run = ApplyRun::new(requests);
    let mut outcomes = vec![];
    while let Some(query) = run.pending() {
        let reply = desk.answer(query);
        let (next, outcome) = run.step(reply);
        run = next;
        outcomes.extend(outcome);
    }
    assert!(run.is_finished());
    assert_eq!(run.current(), None);
    outcomes
}

fn two_displays() -> Desk {
    Desk::new(vec![
        (device("\\\\.\\DISPLAY1"), Some(mode(2560, 1440, 0, 0))),
        (device("\\\\.\\DISPLAY2"), Some(mode(1920, 1080, 2560, 0))),
    ])
}

#[test]
fn a_run_without_requests_asks_nothing() {
    let run = ApplyRun::new(vec![]);
    assert!(run.is_finished());
    assert_eq!(run.pending(), None);
    assert_eq!(run.current(), None);
    let (run, outcome) = run.step(Reply::Device(None));
    assert_eq!(outcome, None);
    assert!(run.is_finished());
}

#[test]
fn a_request_asks_three_questions_in_order() {
    let run = ApplyRun::new(vec![request(2, -1920, 21)]);
    assert_eq!(run.current(), Some(request(2, -1920, 21)));
    assert_eq!(run.pending(), Some(Query::Enumerate { index: 1, flags: 1 }));

    let (run, outcome) = run.step(Reply::Device(Some(device("\\\\.\\DISPLAY2"))));
    assert_eq!(outcome, None);
    assert_eq!(
        run.pending(),
        Some(Query::ReadMode {
            device: wide("\\\\.\\DISPLAY2"),
            selector: 0xFFFF_FFFF,
            flags: 2
        })
    );

    let (run, outcome) = run.step(Reply::Mode(Some(mode(1920, 1080, 2560, 0))));
    assert_eq!(outcome, None);
    assert_eq!(
        run.pending(),
        Some(Query::WriteMode {
            device: wide("\\\\.\\DISPLAY2"),
            mode: DisplayMode {
                width: 1920,
                height: 1080,
                x: -1920,
                y: 21,
                fields: 0x20,
                opaque: vec![9, 8, 7, 6],
            },
            flags: 9,
        })
    );

    let (run, outcome) = run.step(Reply::Written { code: 0 });
    assert_eq!(outcome, Some(Outcome { request: request(2, -1920, 21), failure: None }));
    assert!(run.is_finished());
    assert_eq!(run.pending(), None);
}

#[test]
fn each_display_number_is_resolved_once_at_the_place_before_it() {
    let mut desk = two_displays();
    let outcomes = carry_out(&mut desk, vec![request(1, 0, 0), request(2, -1920, 21)]);
    assert_eq!(desk.enumerated(), vec![0, 1]);
    assert_eq!(desk.asked.len(), 6);
    assert_eq!(
        outcomes,
        vec![
            Outcome { request: request(1, 0, 0), failure: None },
            Outcome { request: request(2, -1920, 21), failure: None },
        ]
    );
}

#[test]
fn display_numbers_need_not_be_in_order() {
    let mut desk = two_displays();
    let outcomes =
        carry_out(&mut desk, vec![request(2, 5, 5), request(1, 6, 6), request(2, 7, 7)]);
    assert_eq!(desk.enumerated(), vec![1, 0, 1]);
    assert!(outcomes.iter().all(|o| o.failure.is_none()));
    assert_eq!(desk.displays[0].1.as_ref().unwrap().placement().x, 6);
    assert_eq!(desk.displays[1].1.as_ref().unwrap().placement().x, 7);
}

#[test]
fn the_largest_display_number_is_resolved_at_the_place_before_it() {
    let run = ApplyRun::new(vec![request(u32::MAX, 0, 0)]);
    assert_eq!(run.pending(), Some(Query::enumerate(u32::MAX - 1)));
}

#[test]
fn reading_again_after_a_move_shows_the_new_position_and_the_old_resolution() {
    let mut desk = two_displays();
    let before = desk.displays[1].1.clone().unwrap();
    carry_out(&mut desk, vec![request(2, -1920, 21)]);
    let after = match desk.answer(Query::read_mode(wide("\\\\.\\DISPLAY2"))) {
        Reply::Mode(Some(mode)) => mode,
        other => panic!("{:?}", other),
    };
    assert_eq!((after.x, after.y), (-1920, 21));
    assert_eq!((after.width, after.height), (before.width, before.height));
    assert_eq!(after.opaque, before.opaque);
    assert_eq!(desk.displays[0].1, Some(mode(2560, 1440, 0, 0)));
}

#[test]
fn the_mode_written_is_the_mode_read_but_for_position_and_selector() {
    let mut desk = two_displays();
    carry_out(&mut desk, vec![request(1, 300, -400)]);
    match &desk.asked[2] {
        Query::WriteMode { device, mode: written, flags } => {
            assert_eq!(device, &wide("\\\\.\\DISPLAY1"));
            assert_eq!(*flags, 9);
            assert_eq!(written, &mode(2560, 1440, 0, 0).reposition(300, -400));
            assert_eq!((written.width, written.height), (2560, 1440));
            assert_eq!(written.opaque, vec![9, 8, 7, 6]);
            assert_eq!(written.fields, 0x20);
        }
        other => panic!("{:?}", other),
    }
}

#[test]
fn a_display_that_is_not_there_is_skipped() {
    let mut desk = two_displays();
    let outcomes = carry_out(&mut desk, vec![request(3, 1, 1), request(1, 2, 2)]);
    assert_eq!(
        outcomes,
        vec![
            Outcome { request: request(3, 1, 1), failure: Some(Failure::Resolve) },
            Outcome { request: request(1, 2, 2), failure: None },
        ]
    );
    assert_eq!(desk.asked.len(), 4);
    assert_eq!(desk.enumerated(), vec![2, 0]);
}

#[test]
fn a_display_without_a_mode_is_skipped() {
    let mut desk = Desk::new(vec![
        (device("\\\\.\\DISPLAY1"), None),
        (device("\\\\.\\DISPLAY2"), Some(mode(800, 600, 0, 0))),
    ]);
    let outcomes = carry_out(&mut desk, vec![request(1, 1, 1), request(2, 2, 2)]);
    assert_eq!(
        outcomes,
        vec![
            Outcome { request: request(1, 1, 1), failure: Some(Failure::Read) },
            Outcome { request: request(2, 2, 2), failure: None },
        ]
    );
    assert_eq!(desk.asked.len(), 5);
    assert!(!desk.asked.iter().any(|q| matches!(q, Query::WriteMode { device, .. } if device == &wide("\\\\.\\DISPLAY1"))));
}

#[test]
fn a_failed_write_does_not_stop_the_requests_after_it() {
    let mut desk = Desk::new(vec![
        (device("\\\\.\\DISPLAY1"), Some(mode(2560, 1440, 0, 0))),
        (device("\\\\.\\DISPLAY2"), Some(mode(1920, 1080, 2560, 0))),
        (device("\\\\.\\DISPLAY3"), Some(mode(1280, 1024, 4480, 0))),
    ]);
    desk.refusing = vec![wide("\\\\.\\DISPLAY2")];
    let outcomes =
        carry_out(&mut desk, vec![request(1, 10, 10), request(2, 20, 20), request(3, 30, 30)]);
    assert_eq!(
        outcomes,
        vec![
            Outcome { request: request(1, 10, 10), failure: None },
            Outcome { request: request(2, 20, 20), failure: Some(Failure::Write) },
            Outcome { request: request(3, 30, 30), failure: None },
        ]
    );
    assert_eq!(desk.enumerated(), vec![0, 1, 2]);
    assert_eq!(desk.asked.len(), 9);
    assert_eq!(desk.displays[0].1.as_ref().unwrap().placement().x, 10);
    assert_eq!(desk.displays[1].1.as_ref().unwrap().placement().x, 2560);
    assert_eq!(desk.displays[2].1.as_ref().unwrap().placement().x, 30);
}

#[test]
fn nothing_is_undone_when_a_later_request_fails() {
    let mut desk = two_displays();
    desk.refusing = vec![wide("\\\\.\\DISPLAY2")];
    carry_out(&mut desk, vec![request(1, -50, -60), request(2, 1, 1)]);
    let first = desk.displays[0].1.as_ref().unwrap();
    assert_eq!((first.x, first.y), (-50, -60));
}

#[test]
fn every_return_code_but_zero_is_a_failed_write() {
    for code in [1, -1, -2, -3, -4, -5, -6, 2, i32::MIN, i32::MAX] {
        let mut desk = two_displays();
        desk.refusing = vec![wide("\\\\.\\DISPLAY1")];
        desk.refusal = code;
        let outcomes = carry_out(&mut desk, vec![request(1, 0, 0)]);
        assert_eq!(
            outcomes,
            vec![Outcome { request: request(1, 0, 0), failure: Some(Failure::Write) }],
            "{}",
            code
        );
    }
}

#[test]
fn a_reply_that_answers_another_question_changes_nothing() {
    let run = ApplyRun::new(vec![request(1, 0, 0)]);
    let (run, outcome) = run.step(Reply::Written { code: 0 });
    assert_eq!(outcome, None);
    let (run, outcome) = run.step(Reply::Mode(None));
    assert_eq!(outcome, None);
    assert_eq!(run.pending(), Some(Query::enumerate(0)));

    let (run, _) = run.step(Reply::Device(Some(device("D"))));
    let (run, outcome) = run.step(Reply::Device(None));
    assert_eq!(outcome, None);
    let (run, outcome) = run.step(Reply::Written { code: -1 });
    assert_eq!(outcome, None);
    assert_eq!(run.pending(), Some(Query::read_mode(wide("D"))));

    let (run, _) = run.step(Reply::Mode(Some(mode(1, 1, 1, 1))));
    let (run, outcome) = run.step(Reply::Mode(None));
    assert_eq!(outcome, None);
    let (run, outcome) = run.step(Reply::Device(None));
    assert_eq!(outcome, None);
    assert_eq!(run.pending(), Some(Query::write_mode(wide("D"), mode(1, 1, 1, 1).reposition(0, 0))));
    assert_eq!(run.current(), Some(request(1, 0, 0)));
}

#[test]
fn requests_read_from_arguments_are_carried_out_in_order() {
    let args: Vec<String> =
        ["1", "0", "0", "2", "-1920", "21"].iter().map(|w| w.to_string()).collect();
    let mut desk = two_displays();
    let outcomes = carry_out(&mut desk, parse_requests(&args).unwrap());
    assert_eq!(outcomes.len(), 2);
    assert_eq!(desk.displays[0].1.as_ref().unwrap().placement().x, 0);
    let second = desk.displays[1].1.as_ref().unwrap().placement();
    assert_eq!((second.x, second.y, second.width, second.height), (-1920, 21, 1920, 1080));
}

#[test]
fn failures_are_told_in_words() {
    assert_eq!(Failure::Resolve.message(), "Operation failed! Unable to connect to display.");
    assert_eq!(Failure::Read.message(), "Operation failed! Unable to read display settings.");
    assert_eq!(
        Failure::Write.message(),
        "Operation failed! Unable to write to display settings."
    );
}
