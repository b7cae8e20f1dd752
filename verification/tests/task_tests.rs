use visual_check::batch::Batch;
use visual_check::failure::{Failure, Outcome};
use visual_check::task::{Action, CheckTask, Event, Stage};

const TARGET: &str = "http://localhost:3000";

/// A stand-in for the driver, its session and the clock.
struct Double {
    port: Option<u16>,
    spawns: bool,
    listening_from: Option<u64>,
    opens: bool,
    navigates: bool,
    url: Option<&'static str>,
    picture: Option<Vec<u8>>,
    dies: bool,
}

fn obliging() -> Double {
    Double {
        port: Some(4444),
        spawns: true,
        listening_from: Some(1_000),
        opens: true,
        navigates: true,
        url: Some(TARGET),
        picture: Some(vec![1, 2, 3]),
        dies: true,
    }
}

fn done(ok: bool) -> Event {
    if ok {
        Event::Completed
    } else {
        Event::Failed
    }
}

/// Performs what the task asks for until it reports, and gives the outcome
/// with every action that was asked for.
fn drive(task: &mut CheckTask, double: &Double) -> (Outcome, Vec<Action>) {
    let mut now: u64 = 0;
    let mut asked = Vec::new();
    let mut action = task.action();
    loop {
        asked.push(action);
        let event = match action {
            Action::AllocatePort => match double.port {
                Some(port) => Event::Port(port),
                None => Event::Failed,
            },
            Action::SpawnDriver { .. } => done(double.spawns),
            Action::ReadClock => Event::Clock(now),
            Action::Probe { .. } => done(matches!(double.listening_from, Some(t) if now >= t)),
            Action::Sleep { millis } => {
                now += millis;
                Event::Completed
            }
            Action::OpenSession { .. } => done(double.opens),
            Action::Navigate => done(double.navigates),
            Action::QueryUrl => match double.url {
                Some(url) => Event::Url(url.to_string()),
                None => Event::Failed,
            },
            Action::Screenshot => match &double.picture {
                Some(bytes) => Event::Picture(bytes.clone()),
                None => Event::Failed,
            },
            Action::KillDriver => done(double.dies),
            Action::Report { outcome } => return (outcome, asked),
        };
        action = task.step(event);
    }
}

fn count(asked: &[Action], wanted: Action) -> usize {
    asked.iter().filter(|a| **a == wanted).count()
}

fn check(double: &Double) -> (Outcome, Vec<Action>) {
    let mut task = CheckTask::new(TARGET.to_string(), TARGET.to_string());
    drive(&mut task, double)
}

#[test]
fn fresh_task_asks_for_a_port() {
    let task = CheckTask::new(TARGET.to_string(), "http://localhost:3000/".to_string());
    assert_eq!(task.action(), Action::AllocatePort);
    assert_eq!(task.stage(), Stage::Port);
    assert_eq!(task.endpoint(), TARGET);
    assert_eq!(task.expected(), "http://localhost:3000/");
    assert_eq!(task.outcome(), None);
    assert!(task.candidate().is_none());
}

#[test]
fn pipeline_runs_in_order() {
    let (outcome, asked) = check(&obliging());
    assert_eq!(outcome, Outcome::Success);
    assert_eq!(
        asked,
        vec![
            Action::AllocatePort,
            Action::SpawnDriver { port: 4444 },
            Action::ReadClock,
            Action::Probe { port: 4444 },
            Action::Sleep { millis: 500 },
            Action::ReadClock,
            Action::Probe { port: 4444 },
            Action::Sleep { millis: 500 },
            Action::ReadClock,
            Action::Probe { port: 4444 },
            Action::OpenSession { port: 4444 },
            Action::Navigate,
            Action::QueryUrl,
            Action::Screenshot,
            Action::KillDriver,
            Action::Report { outcome: Outcome::Success },
        ]
    );
}

#[test]
fn batch_of_three_succeeds_and_kills_each_driver_once() {
    let mut batch = Batch::new(3);
    for _ in 0..3 {
        let (outcome, asked) = check(&obliging());
        assert_eq!(count(&asked, Action::KillDriver), 1);
        assert!(batch.record(Some(outcome)));
    }
    assert!(batch.is_complete());
    assert_eq!(batch.outcomes(), &vec![Outcome::Success; 3]);
}

#[test]
fn wrong_url_fails_one_task_and_spares_its_siblings() {
    let mut batch = Batch::new(3);
    for i in 0..3 {
        let mut double = obliging();
        if i == 1 {
            double.url = Some("http://localhost:9999");
        }
        let (outcome, asked) = check(&double);
        assert_eq!(count(&asked, Action::KillDriver), 1);
        if i == 1 {
            assert_eq!(count(&asked, Action::Screenshot), 0);
        }
        batch.record(Some(outcome));
    }
    assert_eq!(
        batch.outcomes(),
        &vec![Outcome::Success, Outcome::Failed(Failure::Mismatch), Outcome::Success]
    );
}

#[test]
fn url_is_compared_byte_for_byte() {
    for url in ["http://localhost:3000/", "HTTP://localhost:3000", "http://localhost:300", ""] {
        let mut double = obliging();
        double.url = Some(url);
        assert_eq!(check(&double).0, Outcome::Failed(Failure::Mismatch));
    }
}

#[test]
fn expected_url_may_differ_from_the_endpoint() {
    let mut task = CheckTask::new(TARGET.to_string(), "http://localhost:3000/home".to_string());
    let mut double = obliging();
    assert_eq!(drive(&mut task, &double).0, Outcome::Failed(Failure::Mismatch));
    let mut task = CheckTask::new(TARGET.to_string(), "http://localhost:3000/home".to_string());
    double.url = Some("http://localhost:3000/home");
    assert_eq!(drive(&mut task, &double).0, Outcome::Success);
}

#[test]
fn unready_driver_times_out_without_a_session() {
    let mut double = obliging();
    double.listening_from = None;
    let (outcome, asked) = check(&double);
    assert_eq!(outcome, Outcome::Failed(Failure::Timeout));
    assert_eq!(count(&asked, Action::Probe { port: 4444 }), 60);
    assert_eq!(count(&asked, Action::OpenSession { port: 4444 }), 0);
    assert_eq!(count(&asked, Action::KillDriver), 1);
    assert_eq!(asked[asked.len() - 2], Action::KillDriver);
}

#[test]
fn driver_ready_just_before_the_deadline_is_used() {
    let mut double = obliging();
    double.listening_from = Some(29_500);
    assert_eq!(check(&double).0, Outcome::Success);
    double.listening_from = Some(30_000);
    assert_eq!(check(&double).0, Outcome::Failed(Failure::Timeout));
}

#[test]
fn no_port_means_no_driver_to_kill() {
    let mut double = obliging();
    double.port = None;
    let (outcome, asked) = check(&double);
    assert_eq!(outcome, Outcome::Failed(Failure::Process));
    assert_eq!(asked, vec![Action::AllocatePort, Action::Report { outcome }]);
}

#[test]
fn failed_spawn_means_no_driver_to_kill() {
    let mut double = obliging();
    double.spawns = false;
    let (outcome, asked) = check(&double);
    assert_eq!(outcome, Outcome::Failed(Failure::Process));
    assert_eq!(count(&asked, Action::KillDriver), 0);
    assert_eq!(asked.len(), 3);
}

#[test]
fn session_failures_are_protocol_failures_and_kill_once() {
    let mut a = obliging();
    a.opens = false;
    let mut b = obliging();
    b.navigates = false;
    let mut c = obliging();
    c.url = None;
    let mut d = obliging();
    d.picture = None;
    for (double, last) in [
        (a, Action::OpenSession { port: 4444 }),
        (b, Action::Navigate),
        (c, Action::QueryUrl),
        (d, Action::Screenshot),
    ] {
        let (outcome, asked) = check(&double);
        assert_eq!(outcome, Outcome::Failed(Failure::Protocol));
        assert_eq!(count(&asked, Action::KillDriver), 1);
        assert_eq!(asked[asked.len() - 3], last);
    }
}

#[test]
fn failed_kill_is_a_process_failure() {
    let mut double = obliging();
    double.dies = false;
    let (outcome, asked) = check(&double);
    assert_eq!(outcome, Outcome::Failed(Failure::Process));
    assert_eq!(count(&asked, Action::KillDriver), 1);
    double.url = Some("http://localhost:9999");
    assert_eq!(check(&double).0, Outcome::Failed(Failure::Process));
}

#[test]
fn screenshot_is_held_as_the_candidate() {
    let mut task = CheckTask::new(TARGET.to_string(), TARGET.to_string());
    let (outcome, _) = drive(&mut task, &obliging());
    assert_eq!(outcome, Outcome::Success);
    assert_eq!(task.candidate(), Some(&vec![1, 2, 3]));
    assert_eq!(task.outcome(), Some(Outcome::Success));
    assert_eq!(task.stage(), Stage::Finished);
}

#[test]
fn event_out_of_turn_is_a_fault() {
    let mut task = CheckTask::new(TARGET.to_string(), TARGET.to_string());
    assert_eq!(
        task.step(Event::Completed),
        Action::Report { outcome: Outcome::Failed(Failure::Fault) }
    );
    let mut task = CheckTask::new(TARGET.to_string(), TARGET.to_string());
    task.step(Event::Port(7000));
    assert_eq!(task.step(Event::Completed), Action::ReadClock);
    assert_eq!(task.step(Event::Url(TARGET.to_string())), Action::KillDriver);
    assert_eq!(
        task.step(Event::Completed),
        Action::Report { outcome: Outcome::Failed(Failure::Fault) }
    );
}

#[test]
fn finished_task_stays_finished() {
    let mut task = CheckTask::new(TARGET.to_string(), TARGET.to_string());
    let (outcome, _) = drive(&mut task, &obliging());
    for event in [Event::Failed, Event::Port(1), Event::Clock(9), Event::Picture(vec![9])] {
        assert_eq!(task.step(event), Action::Report { outcome });
    }
    assert_eq!(task.candidate(), Some(&vec![1, 2, 3]));
}
