use std::collections::HashMap;
use std::sync::Mutex;

use nebo_sdk::relay::Outbound;
use nebo_sdk::schedule::delete_response;
use nebo_sdk::schedule::history_response;
use nebo_sdk::schedule::list_response;
use nebo_sdk::schedule::schedule_response;
use nebo_sdk::schedule::trigger_response;
use nebo_sdk::schedule::CreateScheduleRequest;
use nebo_sdk::schedule::Schedule;
use nebo_sdk::schedule::ScheduleBridge;
use nebo_sdk::schedule::ScheduleHandler;
use nebo_sdk::schedule::ScheduleHistoryEntry;
use nebo_sdk::schedule::ScheduleTrigger;
use nebo_sdk::schedule::UpdateScheduleRequest;
use nebo_sdk::schedule::TRIGGER_QUEUE;
use nebo_sdk::wire::schedule::ListSchedulesRequest;
use nebo_sdk::wire::schedule::ScheduleHistoryRequest;
use nebo_sdk::AppEnv;
use nebo_sdk::NeboApp;
use nebo_sdk::NeboError;
use nebo_sdk::TransportFault;
use tokio::sync::mpsc;
use tokio::sync::mpsc::Receiver;

fn env() -> AppEnv {
    AppEnv {
        dir: String::new(),
        sock_path: "/run/cron.sock".to_string(),
        id: String::new(),
        name: "cron".to_string(),
        version: "2.0.0".to_string(),
        data_dir: String::new(),
    }
}

fn schedule(name: &str, enabled: bool) -> Schedule {
    Schedule {
        id: format!("s-{name}"),
        name: name.to_string(),
        expression: "0 * * * *".to_string(),
        task_type: "shell".to_string(),
        command: "true".to_string(),
        message: String::new(),
        enabled,
        last_run: String::new(),
        next_run: "soon".to_string(),
        run_count: 0,
        created_at: "now".to_string(),
    }
}

struct Store {
    schedules: Mutex<Vec<Schedule>>,
}

impl Store {
    fn new() -> Self {
        Store { schedules: Mutex::new(vec![schedule("nightly", true)]) }
    }

    fn unknown(name: &str) -> NeboError {
        NeboError::Execution(format!("no schedule named {name}"))
    }
}

impl ScheduleHandler for Store {
    fn create(&self, request: CreateScheduleRequest) -> Result<Schedule, NeboError> {
        let mut schedules = self.schedules.lock().unwrap();
        if schedules.iter().any(|s| s.name == request.name) {
            return Err(NeboError::Execution(format!("{} exists", request.name)));
        }
        let mut created = schedule(&request.name, request.enabled);
        created.expression = request.expression;
        schedules.push(created.clone());
        Ok(created)
    }

    fn get(&self, name: &str) -> Result<Schedule, NeboError> {
        let schedules = self.schedules.lock().unwrap();
        schedules.iter().find(|s| s.name == name).cloned().ok_or_else(|| Store::unknown(name))
    }

    fn list(&self, limit: i32, offset: i32, enabled_only: bool) -> Result<(Vec<Schedule>, i64), NeboError> {
        if limit < 0 {
            return Err(NeboError::Execution("negative limit".to_string()));
        }
        let schedules = self.schedules.lock().unwrap();
        let all: Vec<Schedule> =
            schedules.iter().filter(|s| s.enabled || !enabled_only).cloned().collect();
        let total = all.len() as i64;
        Ok((all.into_iter().skip(offset as usize).take(limit as usize).collect(), total))
    }

    fn update(&self, request: UpdateScheduleRequest) -> Result<Schedule, NeboError> {
        let mut schedules = self.schedules.lock().unwrap();
        match schedules.iter_mut().find(|s| s.name == request.name) {
            Some(found) => {
                found.expression = request.expression;
                Ok(found.clone())
            }
            None => Err(Store::unknown(&request.name)),
        }
    }

    fn delete(&self, name: &str) -> Result<(), NeboError> {
        let mut schedules = self.schedules.lock().unwrap();
        let before = schedules.len();
        schedules.retain(|s| s.name != name);
        if schedules.len() < before {
            Ok(())
        } else {
            Err(Store::unknown(name))
        }
    }

    fn enable(&self, name: &str) -> Result<Schedule, NeboError> {
        let mut schedules = self.schedules.lock().unwrap();
        match schedules.iter_mut().find(|s| s.name == name) {
            Some(found) => {
                found.enabled = true;
                Ok(found.clone())
            }
            None => Err(Store::unknown(name)),
        }
    }

    fn disable(&self, name: &str) -> Result<Schedule, NeboError> {
        let mut schedules = self.schedules.lock().unwrap();
        match schedules.iter_mut().find(|s| s.name == name) {
            Some(found) => {
                found.enabled = false;
                Ok(found.clone())
            }
            None => Err(Store::unknown(name)),
        }
    }

    fn trigger(&self, name: &str) -> Result<(bool, String), NeboError> {
        self.get(name).map(|s| (s.enabled, format!("ran {}", s.command)))
    }

    fn history(&self, name: &str, _limit: i32, _offset: i32) -> Result<(Vec<ScheduleHistoryEntry>, i64), NeboError> {
        self.get(name).map(|s| {
            (
                vec![ScheduleHistoryEntry {
                    id: "h-1".to_string(),
                    schedule_name: s.name,
                    started_at: "t0".to_string(),
                    finished_at: "t1".to_string(),
                    success: true,
                    output: "done".to_string(),
                    error: String::new(),
                }],
                7,
            )
        })
    }

    fn triggers(&self) -> Result<Receiver<ScheduleTrigger>, NeboError> {
        let (_tx, rx) = mpsc::channel(1);
        Ok(rx)
    }
}

#[test]
fn deleting_an_unknown_schedule_is_reported_in_the_answer() {
    let app = NeboApp::new(env()).unwrap().register_schedule(Store::new());
    let bridge = app.schedule().unwrap();
    let response = bridge.delete("weekly");
    assert!(!response.success);
    assert!(!response.error.is_empty());
    assert_eq!(response.error, "execution error: no schedule named weekly");
}

#[test]
fn deleting_a_known_schedule_succeeds() {
    let env = env();
    let store = Store::new();
    let bridge = ScheduleBridge::new(&store, &env);
    let response = bridge.delete("nightly");
    assert!(response.success);
    assert_eq!(response.error, "");
    assert!(!bridge.delete("nightly").success);
}

#[test]
fn requests_that_yield_a_schedule() {
    let env = env();
    let store = Store::new();
    let bridge = ScheduleBridge::new(&store, &env);

    let found = bridge.get("nightly");
    assert_eq!(found.schedule, Some(schedule("nightly", true)));
    assert_eq!(found.error, "");

    let missing = bridge.get("weekly");
    assert_eq!(missing.schedule, None);
    assert_eq!(missing.error, "execution error: no schedule named weekly");

    let created = bridge.create(CreateScheduleRequest {
        name: "weekly".to_string(),
        expression: "0 0 * * 0".to_string(),
        task_type: "shell".to_string(),
        command: "true".to_string(),
        message: String::new(),
        enabled: false,
    });
    assert_eq!(created.schedule.unwrap().expression, "0 0 * * 0");
    assert_eq!(created.error, "");

    let updated = bridge.update(UpdateScheduleRequest {
        name: "nightly".to_string(),
        expression: "5 0 * * *".to_string(),
        task_type: String::new(),
        command: String::new(),
        message: String::new(),
        enabled: true,
    });
    assert_eq!(updated.schedule.unwrap().expression, "5 0 * * *");

    assert!(!bridge.disable("nightly").schedule.unwrap().enabled);
    assert!(bridge.enable("nightly").schedule.unwrap().enabled);
    assert_eq!(bridge.enable("monthly").error, "execution error: no schedule named monthly");
    assert_eq!(bridge.disable("monthly").schedule, None);
}

#[test]
fn listing_and_history_answer_with_an_empty_page_on_failure() {
    let env = env();
    let store = Store::new();
    let bridge = ScheduleBridge::new(&store, &env);

    let page = bridge.list(&ListSchedulesRequest { limit: 10, offset: 0, enabled_only: true });
    assert_eq!(page.schedules, vec![schedule("nightly", true)]);
    assert_eq!(page.total, 1);

    let failed = bridge.list(&ListSchedulesRequest { limit: -1, offset: 0, enabled_only: false });
    assert!(failed.schedules.is_empty());
    assert_eq!(failed.total, 0);

    let runs = bridge.history(&ScheduleHistoryRequest {
        name: "nightly".to_string(),
        limit: 5,
        offset: 0,
    });
    assert_eq!(runs.entries.len(), 1);
    assert_eq!(runs.entries[0].output, "done");
    assert_eq!(runs.total, 7);

    let none = bridge.history(&ScheduleHistoryRequest {
        name: "weekly".to_string(),
        limit: 5,
        offset: 0,
    });
    assert!(none.entries.is_empty());
    assert_eq!(none.total, 0);
}

#[test]
fn firing_a_schedule_now() {
    let env = env();
    let store = Store::new();
    let bridge = ScheduleBridge::new(&store, &env);
    let fired = bridge.trigger("nightly");
    assert!(fired.success);
    assert_eq!(fired.output, "ran true");
    assert_eq!(fired.error, "");
    let failed = bridge.trigger("weekly");
    assert!(!failed.success);
    assert_eq!(failed.output, "");
    assert_eq!(failed.error, "execution error: no schedule named weekly");
}

#[test]
fn the_outcomes_of_schedule_requests_are_encoded() {
    let failure = || NeboError::Other("gone".to_string());
    assert_eq!(schedule_response(Err(failure())).error, "gone");
    assert_eq!(schedule_response(Ok(schedule("a", false))).schedule, Some(schedule("a", false)));
    assert_eq!(delete_response(Ok(())).error, "");
    assert!(delete_response(Ok(())).success);
    assert_eq!(trigger_response(Ok((false, "out".to_string()))).output, "out");
    assert!(!trigger_response(Ok((false, "out".to_string()))).success);
    assert_eq!(list_response(Ok((vec![schedule("a", true)], 3))).total, 3);
    assert_eq!(list_response(Err(failure())).total, 0);
    assert_eq!(history_response(Ok((vec![], 9))).total, 9);
    assert_eq!(history_response(Err(failure())).total, 0);
}

#[test]
fn notices_go_on_the_wire_as_they_are() {
    let notice = ScheduleTrigger {
        schedule_id: "s-1".to_string(),
        name: "nightly".to_string(),
        task_type: "shell".to_string(),
        command: "true".to_string(),
        message: String::new(),
        fired_at: "t".to_string(),
    };
    assert_eq!(notice.clone().into_wire(), notice);
}

#[test]
fn the_stream_of_notices_is_opened_with_its_bound() {
    let env = env();
    let store = Store::new();
    let bridge = ScheduleBridge::new(&store, &env);
    let stream: Result<_, TransportFault> = bridge.triggers();
    assert_eq!(stream.unwrap().capacity, 100);
    assert_eq!(TRIGGER_QUEUE, 100);
    assert_eq!(bridge.health_check().name, "cron");
    bridge.configure(HashMap::new());
}
