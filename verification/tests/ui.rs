use std::collections::HashMap;
use std::sync::Mutex;

use nebo_sdk::relay::Outbound;
use nebo_sdk::relay::Relay;
use nebo_sdk::relay::RelayAction;
use nebo_sdk::relay::RelaySignal;
use nebo_sdk::ui::decode_event;
use nebo_sdk::ui::event_response;
use nebo_sdk::ui::open_update_stream;
use nebo_sdk::ui::view_response;
use nebo_sdk::ui::view_to_proto;
use nebo_sdk::ui::SelectOption;
use nebo_sdk::ui::UiBlock;
use nebo_sdk::ui::UiBridge;
use nebo_sdk::ui::UiEvent;
use nebo_sdk::ui::UiEventResult;
use nebo_sdk::ui::UiHandler;
use nebo_sdk::ui::UiHandlerWithStreaming;
use nebo_sdk::ui::View;
use nebo_sdk::ui::IDLE_QUEUE;
use nebo_sdk::ui::UPDATE_QUEUE;
use nebo_sdk::wire;
use nebo_sdk::AppEnv;
use nebo_sdk::NeboApp;
use nebo_sdk::NeboError;
use nebo_sdk::TransportFault;
use tokio::sync::mpsc::Receiver;

fn env() -> AppEnv {
    AppEnv {
        dir: String::new(),
        sock_path: "/run/panel.sock".to_string(),
        id: String::new(),
        name: "panel".to_string(),
        version: "1.0.0".to_string(),
        data_dir: String::new(),
    }
}

fn block(id: &str, options: Vec<SelectOption>) -> UiBlock {
    UiBlock {
        block_id: id.to_string(),
        kind: "select".to_string(),
        text: "Pick".to_string(),
        value: "a".to_string(),
        placeholder: "one".to_string(),
        hint: "any".to_string(),
        variant: "primary".to_string(),
        src: "s".to_string(),
        alt: "t".to_string(),
        disabled: true,
        options,
        style: "wide".to_string(),
    }
}

fn wire_block(id: &str, options: Vec<wire::ui::SelectOption>) -> wire::ui::UiBlock {
    wire::ui::UiBlock {
        block_id: id.to_string(),
        kind: "select".to_string(),
        text: "Pick".to_string(),
        value: "a".to_string(),
        placeholder: "one".to_string(),
        hint: "any".to_string(),
        variant: "primary".to_string(),
        src: "s".to_string(),
        alt: "t".to_string(),
        disabled: true,
        options,
        style: "wide".to_string(),
    }
}

fn view() -> View {
    View {
        view_id: "main".to_string(),
        title: "Main".to_string(),
        blocks: vec![
            block("b1", vec![
                SelectOption { label: "A".to_string(), value: "a".to_string() },
                SelectOption { label: "B".to_string(), value: "b".to_string() },
            ]),
            block("b2", vec![]),
        ],
    }
}

fn wire_view() -> wire::ui::UiView {
    wire::ui::UiView {
        view_id: "main".to_string(),
        title: "Main".to_string(),
        blocks: vec![
            wire_block("b1", vec![
                wire::ui::SelectOption { label: "A".to_string(), value: "a".to_string() },
                wire::ui::SelectOption { label: "B".to_string(), value: "b".to_string() },
            ]),
            wire_block("b2", vec![]),
        ],
    }
}

struct Panel {
    events: Mutex<Vec<UiEvent>>,
}

impl UiHandler for Panel {
    fn get_view(&self, context: &str) -> Result<View, NeboError> {
        if context == "main" {
            Ok(view())
        } else {
            Err(NeboError::Execution(format!("no view for {context}")))
        }
    }

    fn on_event(&self, event: UiEvent) -> Result<UiEventResult, NeboError> {
        if event.action == "crash" {
            return Err(NeboError::Execution("handler crashed".to_string()));
        }
        let changed = event.action == "refresh";
        self.events.lock().unwrap().push(event);
        Ok(UiEventResult {
            view: if changed { Some(view()) } else { None },
            error: if changed { String::new() } else { "unknown action".to_string() },
            toast: "seen".to_string(),
        })
    }
}

impl UiHandlerWithStreaming for Panel {
    fn stream_updates(&self) -> Result<Receiver<View>, NeboError> {
        if self.events.lock().unwrap().is_empty() {
            return Err(NeboError::Execution("nothing to push".to_string()));
        }
        let (tx, rx) = tokio::sync::mpsc::channel(2);
        tx.try_send(view()).unwrap();
        Ok(rx)
    }
}

fn event(action: &str) -> wire::ui::UiEvent {
    wire::ui::UiEvent {
        view_id: "main".to_string(),
        block_id: "b1".to_string(),
        action: action.to_string(),
        value: "v".to_string(),
    }
}

#[test]
fn a_view_is_translated_with_every_block_and_option() {
    assert_eq!(view_to_proto(&view()), wire_view());
    assert_eq!(view().into_wire(), wire_view());
    let empty = View { view_id: String::new(), title: String::new(), blocks: vec![] };
    assert!(view_to_proto(&empty).blocks.is_empty());
}

fn blank_view() -> wire::ui::UiView {
    wire::ui::UiView { view_id: String::new(), title: String::new(), blocks: vec![] }
}

#[test]
fn a_view_that_cannot_be_had_is_answered_with_the_blank_view() {
    let env = env();
    let panel = Panel { events: Mutex::new(Vec::new()) };
    let bridge = UiBridge::new(&panel, &env);
    assert_eq!(bridge.get_view("main"), wire_view());
    assert_eq!(bridge.get_view("other"), blank_view());
    assert_eq!(view_response(Ok(view())), wire_view());
    assert_eq!(view_response(Err(NeboError::NoHandlers)), blank_view());
    assert_eq!(view_response(Err(NeboError::Other(String::new()))), blank_view());
}

#[test]
fn an_event_is_decoded_and_its_result_encoded() {
    let env = env();
    let panel = Panel { events: Mutex::new(Vec::new()) };
    let bridge = UiBridge::new(&panel, &env);

    let refreshed = bridge.send_event(event("refresh"));
    assert_eq!(refreshed.view, Some(wire_view()));
    assert_eq!(refreshed.error, "");
    assert_eq!(refreshed.toast, "seen");

    let unknown = bridge.send_event(event("dance"));
    assert_eq!(unknown.view, None);
    assert_eq!(unknown.error, "unknown action");
    assert_eq!(unknown.toast, "seen");

    assert_eq!(panel.events.lock().unwrap()[0], UiEvent {
        view_id: "main".to_string(),
        block_id: "b1".to_string(),
        action: "refresh".to_string(),
        value: "v".to_string(),
    });
    assert_eq!(decode_event(event("x")).action, "x");
}

#[test]
fn a_failed_event_is_reported_in_the_answer() {
    let env = env();
    let panel = Panel { events: Mutex::new(Vec::new()) };
    let bridge = UiBridge::new(&panel, &env);
    let failed = bridge.send_event(event("crash"));
    assert_eq!(failed.view, None);
    assert_eq!(failed.error, "execution error: handler crashed");
    assert_eq!(failed.toast, "");
    let encoded = event_response(Err(NeboError::Other("x".to_string())));
    assert_eq!(encoded.error, "x");
    assert_eq!(encoded.view, None);
}

#[test]
fn a_handler_that_pushes_no_views_gets_a_stream_that_stays_empty() {
    let env = env();
    let panel = Panel { events: Mutex::new(Vec::new()) };
    let bridge = UiBridge::new(&panel, &env);
    let stream = bridge.stream_updates().unwrap();
    assert!(stream.source.is_none());
    assert_eq!(stream.capacity, 1);
    assert_eq!(IDLE_QUEUE, 1);
}

#[test]
fn a_handler_that_pushes_views_opens_its_stream() {
    let panel = Panel { events: Mutex::new(Vec::new()) };
    match open_update_stream(&panel) {
        Err(fault) => assert_eq!(
            fault,
            TransportFault::Internal("execution error: nothing to push".to_string())
        ),
        Ok(_) => panic!("the handler has nothing to push"),
    }
    panel.events.lock().unwrap().push(decode_event(event("refresh")));
    let stream = open_update_stream(&panel).unwrap();
    assert_eq!(stream.capacity, 100);
    assert_eq!(UPDATE_QUEUE, 100);
    let mut source = stream.source;
    assert_eq!(source.try_recv().unwrap(), view());
}

#[test]
fn the_ui_bridge_answers_health_checks_from_the_environment() {
    let env = env();
    let panel = Panel { events: Mutex::new(Vec::new()) };
    let bridge = UiBridge::new(&panel, &env);
    let health = bridge.health_check();
    assert!(health.healthy);
    assert_eq!(health.name, "panel");
    assert_eq!(health.version, "1.0.0");
    bridge.configure(HashMap::new());
}

struct Ticker {
    views: Mutex<Option<Receiver<View>>>,
    opened: Mutex<u32>,
}

impl Ticker {
    fn with(views: Vec<View>) -> Self {
        let (tx, rx) = tokio::sync::mpsc::channel(8);
        for view in views {
            tx.try_send(view).unwrap();
        }
        Ticker { views: Mutex::new(Some(rx)), opened: Mutex::new(0) }
    }
}

impl UiHandlerWithStreaming for Ticker {
    fn stream_updates(&self) -> Result<Receiver<View>, NeboError> {
        *self.opened.lock().unwrap() += 1;
        match self.views.lock().unwrap().take() {
            Some(views) => Ok(views),
            None => Err(NeboError::Execution("already streaming".to_string())),
        }
    }
}

fn titled(title: &str) -> View {
    View { view_id: "main".to_string(), title: title.to_string(), blocks: vec![block("b", vec![])] }
}

fn drain(mut source: Receiver<View>) -> (Vec<wire::ui::UiView>, Relay) {
    let mut relay = Relay::new();
    let mut forwarded = Vec::new();
    while !relay.is_over() {
        let signal = match source.try_recv() {
            Ok(view) => RelaySignal::Produced(view),
            Err(_) => RelaySignal::SourceClosed,
        };
        if let RelayAction::Forward(view) = relay.step(signal) {
            forwarded.push(view);
        }
    }
    (forwarded, relay)
}

#[test]
fn the_bridge_opens_the_stream_of_a_handler_that_pushes_views() {
    let env = env();
    let panel = Panel { events: Mutex::new(Vec::new()) };
    let ticker = Ticker::with(vec![titled("one"), titled("two"), titled("three")]);
    let bridge = UiBridge::with_updates(&panel, &ticker, &env);
    let stream = bridge.stream_updates().unwrap();
    assert_eq!(stream.capacity, 100);
    assert_eq!(*ticker.opened.lock().unwrap(), 1);
    let (forwarded, relay) = drain(stream.source.unwrap());
    assert_eq!(forwarded, vec![
        view_to_proto(&titled("one")),
        view_to_proto(&titled("two")),
        view_to_proto(&titled("three")),
    ]);
    assert_eq!(relay, Relay::Drained);
    assert_eq!(
        bridge.stream_updates().unwrap_err(),
        TransportFault::Internal("execution error: already streaming".to_string())
    );
}

#[test]
fn the_application_hands_the_pushing_handler_to_the_ui_bridge() {
    let app = NeboApp::new(env())
        .unwrap()
        .register_ui(Panel { events: Mutex::new(Vec::new()) })
        .register_ui_updates(Ticker::with(vec![titled("one"), titled("two")]));
    let stream = app.ui().unwrap().stream_updates().unwrap();
    assert_eq!(stream.capacity, 100);
    let (forwarded, relay) = drain(stream.source.unwrap());
    assert_eq!(forwarded, vec![view_to_proto(&titled("one")), view_to_proto(&titled("two"))]);
    assert_eq!(relay, Relay::Drained);

    let plain = NeboApp::new(env()).unwrap().register_ui(Panel { events: Mutex::new(Vec::new()) });
    assert!(plain.ui().unwrap().stream_updates().unwrap().source.is_none());

    let alone = NeboApp::new(env()).unwrap().register_ui_updates(Ticker::with(vec![]));
    assert!(alone.ui().is_none());
    assert!(alone.installed().is_empty());
}
