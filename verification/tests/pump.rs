use std::cell::RefCell;
use std::rc::Rc;
use std::sync::mpsc::{channel, RecvError, RecvTimeoutError, Sender};
use std::time::{Duration, Instant};
use systray::{Application, Callback, SystrayError, SystrayEvent, Window};

type Log = Rc<RefCell<Vec<String>>>;

/// A window that accepts every request. It keeps the producer end it was given, if any.
struct QuietWindow {
    _event_tx: Option<Sender<SystrayEvent>>,
}

impl Window for QuietWindow {
    fn new(event_tx: Sender<SystrayEvent>) -> Result<Self, SystrayError> {
        Ok(QuietWindow { _event_tx: Some(event_tx) })
    }

    fn add_menu_entry(&self, _item_idx: u32, _item_name: &String) -> Result<(), SystrayError> {
        Ok(())
    }

    fn add_menu_separator(&self, _item_idx: u32) -> Result<(), SystrayError> {
        Ok(())
    }

    fn set_icon_from_file(&self, _file: &String) -> Result<(), SystrayError> {
        Ok(())
    }

    fn set_icon_from_resource(&self, _resource: &String) -> Result<(), SystrayError> {
        Ok(())
    }

    fn set_tooltip(&self, _tooltip: &String) -> Result<(), SystrayError> {
        Ok(())
    }

    fn quit(&self) {}

    fn shutdown(&self) -> Result<(), SystrayError> {
        Ok(())
    }
}

/// A window whose user has already clicked: on creation it reports the entries 2, 1 and
/// 99 as activated, in this order, and then lets go of the producer end.
struct ClickedWindow;

impl Window for ClickedWindow {
    fn new(event_tx: Sender<SystrayEvent>) -> Result<Self, SystrayError> {
        for menu_index in [2, 1, 99] {
            event_tx.send(SystrayEvent { menu_index }).unwrap();
        }
        Ok(ClickedWindow)
    }

    fn add_menu_entry(&self, _item_idx: u32, _item_name: &String) -> Result<(), SystrayError> {
        Ok(())
    }

    fn add_menu_separator(&self, _item_idx: u32) -> Result<(), SystrayError> {
        Ok(())
    }

    fn set_icon_from_file(&self, _file: &String) -> Result<(), SystrayError> {
        Ok(())
    }

    fn set_icon_from_resource(&self, _resource: &String) -> Result<(), SystrayError> {
        Ok(())
    }

    fn set_tooltip(&self, _tooltip: &String) -> Result<(), SystrayError> {
        Ok(())
    }

    fn quit(&self) {}

    fn shutdown(&self) -> Result<(), SystrayError> {
        Ok(())
    }
}

/// What a menu entry of these tests does.
enum Action {
    /// Writes the name down.
    Note(&'static str, Log),
    /// Writes the name down and adds an entry "More" to the menu.
    Grow(&'static str, Log),
    /// Writes the name down and pumps once more, for at most 50 ms.
    PumpAgain(&'static str, Log),
}

impl<W: Window> Callback<W> for Action {
    fn invoke(&self, app: &mut Application<W, Self>) {
        match self {
            Action::Note(name, log) => log.borrow_mut().push(name.to_string()),
            Action::Grow(name, log) => {
                log.borrow_mut().push(name.to_string());
                let id = app.add_menu_item(&"More".to_string(), Action::Note("more", log.clone()));
                log.borrow_mut().push(format!("added {}", id.unwrap()));
            }
            Action::PumpAgain(name, log) => {
                log.borrow_mut().push(name.to_string());
                let inner = app.wait_for_message_timeout(Duration::from_millis(50));
                log.borrow_mut().push(format!("inner pump ok: {}", inner.is_ok()));
            }
        }
    }
}

fn application() -> (Application<QuietWindow, Action>, Sender<SystrayEvent>, Log) {
    let (event_tx, event_rx) = channel();
    let app = match Application::from_window(Ok(QuietWindow { _event_tx: None }), event_rx) {
        Ok(app) => app,
        Err(e) => panic!("a window was given, yet: {}", e.message()),
    };
    (app, event_tx, Rc::new(RefCell::new(Vec::new())))
}

fn click(event_tx: &Sender<SystrayEvent>, menu_index: u32) {
    event_tx.send(SystrayEvent { menu_index }).unwrap();
}

#[test]
fn scenario_quit_separator_about() {
    let (mut app, event_tx, runs) = application();
    assert_eq!(
        app.add_menu_item(&"Quit".to_string(), Action::Note("quit", runs.clone())).unwrap(),
        0
    );
    assert_eq!(app.add_menu_separator().unwrap(), 1);
    assert_eq!(
        app.add_menu_item(&"About".to_string(), Action::Note("about", runs.clone())).unwrap(),
        2
    );

    click(&event_tx, 2);
    assert!(app.wait_for_message().is_ok());
    assert_eq!(*runs.borrow(), vec!["about"]);

    click(&event_tx, 1);
    assert!(app.wait_for_message().is_ok());
    assert_eq!(*runs.borrow(), vec!["about"]);
}

#[test]
fn scenario_with_the_timed_pump() {
    let (mut app, event_tx, runs) = application();
    app.add_menu_item(&"Quit".to_string(), Action::Note("quit", runs.clone())).unwrap();
    app.add_menu_separator().unwrap();
    app.add_menu_item(&"About".to_string(), Action::Note("about", runs.clone())).unwrap();

    click(&event_tx, 2);
    assert!(app.wait_for_message_timeout(Duration::from_secs(5)).is_ok());
    assert_eq!(*runs.borrow(), vec!["about"]);

    click(&event_tx, 1);
    assert!(app.wait_for_message_timeout(Duration::from_secs(5)).is_ok());
    assert_eq!(*runs.borrow(), vec!["about"]);

    click(&event_tx, 0);
    assert!(app.wait_for_message_timeout(Duration::from_secs(5)).is_ok());
    assert_eq!(*runs.borrow(), vec!["about", "quit"]);
}

#[test]
fn unknown_id_is_discarded() {
    let (mut app, event_tx, runs) = application();
    app.add_menu_item(&"Quit".to_string(), Action::Note("quit", runs.clone())).unwrap();
    click(&event_tx, 99);
    assert!(app.wait_for_message().is_ok());
    assert!(runs.borrow().is_empty());
    assert_eq!(app.next_id(), 1);
    // The entry that is there still works.
    click(&event_tx, 0);
    assert!(app.wait_for_message().is_ok());
    assert_eq!(*runs.borrow(), vec!["quit"]);
}

#[test]
fn unknown_id_is_discarded_on_an_empty_application() {
    let (mut app, event_tx, _runs) = application();
    click(&event_tx, 0);
    assert!(app.wait_for_message().is_ok());
    click(&event_tx, u32::MAX);
    assert!(app.wait_for_message_timeout(Duration::from_secs(5)).is_ok());
    assert_eq!(app.next_id(), 0);
}

#[test]
fn wait_for_message_after_producer_dropped() {
    let (mut app, event_tx, _runs) = application();
    drop(event_tx);
    assert!(matches!(app.wait_for_message(), Err(SystrayError::Disconnected)));
}

#[test]
fn both_pumps_report_a_lost_producer() {
    let (mut app, event_tx, runs) = application();
    app.add_menu_item(&"Quit".to_string(), Action::Note("quit", runs.clone())).unwrap();
    drop(event_tx);
    assert!(matches!(app.wait_for_message(), Err(SystrayError::Disconnected)));
    assert!(matches!(
        app.wait_for_message_timeout(Duration::from_secs(5)),
        Err(SystrayError::Disconnected)
    ));
    // And again: the channel stays closed.
    assert!(matches!(app.wait_for_message(), Err(SystrayError::Disconnected)));
    assert!(matches!(
        app.wait_for_message_timeout(Duration::from_millis(0)),
        Err(SystrayError::Disconnected)
    ));
    assert!(runs.borrow().is_empty());
    assert_eq!(app.next_id(), 1);
}

#[test]
fn pending_activations_come_before_the_disconnect() {
    let (mut app, event_tx, runs) = application();
    app.add_menu_item(&"Quit".to_string(), Action::Note("quit", runs.clone())).unwrap();
    click(&event_tx, 0);
    click(&event_tx, 0);
    drop(event_tx);
    assert!(app.wait_for_message().is_ok());
    assert!(app.wait_for_message_timeout(Duration::from_secs(5)).is_ok());
    assert_eq!(*runs.borrow(), vec!["quit", "quit"]);
    assert!(matches!(app.wait_for_message(), Err(SystrayError::Disconnected)));
    assert!(matches!(
        app.wait_for_message_timeout(Duration::from_secs(5)),
        Err(SystrayError::Disconnected)
    ));
}

#[test]
fn timeout_without_event_is_success() {
    let (mut app, _event_tx, runs) = application();
    app.add_menu_item(&"Quit".to_string(), Action::Note("quit", runs.clone())).unwrap();
    let started = Instant::now();
    assert!(app.wait_for_message_timeout(Duration::from_millis(50)).is_ok());
    let waited = started.elapsed();
    assert!(waited >= Duration::from_millis(40));
    assert!(waited < Duration::from_secs(5));
    assert!(runs.borrow().is_empty());
    assert_eq!(app.next_id(), 1);
}

#[test]
fn timeout_of_zero_returns_at_once() {
    let (mut app, _event_tx, runs) = application();
    app.add_menu_item(&"Quit".to_string(), Action::Note("quit", runs.clone())).unwrap();
    assert!(app.wait_for_message_timeout(Duration::from_millis(0)).is_ok());
    assert!(runs.borrow().is_empty());
}

#[test]
fn new_connects_the_window_to_the_pump() {
    let runs: Log = Rc::new(RefCell::new(Vec::new()));
    let mut app = Application::<ClickedWindow, Action>::new().unwrap();
    assert_eq!(
        app.add_menu_item(&"Quit".to_string(), Action::Note("quit", runs.clone())).unwrap(),
        0
    );
    assert_eq!(app.add_menu_separator().unwrap(), 1);
    assert_eq!(
        app.add_menu_item(&"About".to_string(), Action::Note("about", runs.clone())).unwrap(),
        2
    );
    // The window reported 2, 1 and 99 before it let go of the channel.
    assert!(app.wait_for_message().is_ok());
    assert_eq!(*runs.borrow(), vec!["about"]);
    assert!(app.wait_for_message().is_ok());
    assert!(app.wait_for_message().is_ok());
    assert_eq!(*runs.borrow(), vec!["about"]);
    assert!(matches!(app.wait_for_message(), Err(SystrayError::Disconnected)));
}

#[test]
fn new_keeps_the_channel_open_while_the_window_lives() {
    let mut app = Application::<QuietWindow, Action>::new().unwrap();
    // The window holds the producer end: no activation, but no disconnect either.
    assert!(app.wait_for_message_timeout(Duration::from_millis(20)).is_ok());
}

#[test]
fn activations_are_dispatched_in_order() {
    let (mut app, event_tx, runs) = application();
    app.add_menu_item(&"A".to_string(), Action::Note("a", runs.clone())).unwrap();
    app.add_menu_item(&"B".to_string(), Action::Note("b", runs.clone())).unwrap();
    app.add_menu_item(&"C".to_string(), Action::Note("c", runs.clone())).unwrap();
    for menu_index in [2, 0, 1, 0] {
        click(&event_tx, menu_index);
    }
    for _ in 0..4 {
        assert!(app.wait_for_message().is_ok());
    }
    assert_eq!(*runs.borrow(), vec!["c", "a", "b", "a"]);
}

#[test]
fn dispatch_runs_the_callback_once_and_keeps_it() {
    let (mut app, _event_tx, runs) = application();
    app.add_menu_item(&"Quit".to_string(), Action::Note("quit", runs.clone())).unwrap();
    app.dispatch(SystrayEvent { menu_index: 0 });
    assert_eq!(*runs.borrow(), vec!["quit"]);
    app.dispatch(SystrayEvent { menu_index: 0 });
    assert_eq!(*runs.borrow(), vec!["quit", "quit"]);
    app.dispatch(SystrayEvent { menu_index: 0 });
    assert_eq!(runs.borrow().len(), 3);
}

#[test]
fn dispatch_of_a_separator_runs_nothing() {
    let (mut app, _event_tx, runs) = application();
    app.add_menu_item(&"Quit".to_string(), Action::Note("quit", runs.clone())).unwrap();
    app.add_menu_separator().unwrap();
    app.dispatch(SystrayEvent { menu_index: 1 });
    app.dispatch(SystrayEvent { menu_index: 2 });
    assert!(runs.borrow().is_empty());
    assert_eq!(app.next_id(), 2);
}

#[test]
fn callback_may_add_entries() {
    let (mut app, event_tx, runs) = application();
    assert_eq!(
        app.add_menu_item(&"Grow".to_string(), Action::Grow("grow", runs.clone())).unwrap(),
        0
    );
    click(&event_tx, 0);
    assert!(app.wait_for_message().is_ok());
    assert_eq!(*runs.borrow(), vec!["grow", "added 1"]);
    assert_eq!(app.next_id(), 2);

    // The entry that the callback added is there, and so is the callback itself.
    click(&event_tx, 1);
    assert!(app.wait_for_message().is_ok());
    click(&event_tx, 0);
    assert!(app.wait_for_message().is_ok());
    assert_eq!(*runs.borrow(), vec!["grow", "added 1", "more", "grow", "added 2"]);
    assert_eq!(app.next_id(), 3);
}

#[test]
fn dispatch_keeps_the_other_registrations() {
    let (mut app, event_tx, runs) = application();
    app.add_menu_item(&"Quit".to_string(), Action::Note("quit", runs.clone())).unwrap();
    app.add_menu_separator().unwrap();
    app.add_menu_item(&"Grow".to_string(), Action::Grow("grow", runs.clone())).unwrap();
    app.add_menu_item(&"About".to_string(), Action::Note("about", runs.clone())).unwrap();

    click(&event_tx, 2);
    assert!(app.wait_for_message().is_ok());
    assert_eq!(*runs.borrow(), vec!["grow", "added 4"]);

    // Every entry that was there is there still, and the separator has no callback.
    runs.borrow_mut().clear();
    for menu_index in [0, 1, 3, 4] {
        click(&event_tx, menu_index);
        assert!(app.wait_for_message_timeout(Duration::from_secs(5)).is_ok());
    }
    assert_eq!(*runs.borrow(), vec!["quit", "about", "more"]);
    assert_eq!(app.next_id(), 5);
}

#[test]
fn callback_is_out_of_the_registry_while_it_runs() {
    let (mut app, event_tx, runs) = application();
    app.add_menu_item(&"Again".to_string(), Action::PumpAgain("again", runs.clone())).unwrap();
    app.add_menu_item(&"Quit".to_string(), Action::Note("quit", runs.clone())).unwrap();

    // The inner pump finds the entry's own activation, and no callback for it.
    click(&event_tx, 0);
    click(&event_tx, 0);
    assert!(app.wait_for_message().is_ok());
    assert_eq!(*runs.borrow(), vec!["again", "inner pump ok: true"]);

    // Another entry's activation is dispatched by the inner pump.
    runs.borrow_mut().clear();
    click(&event_tx, 0);
    click(&event_tx, 1);
    assert!(app.wait_for_message().is_ok());
    assert_eq!(*runs.borrow(), vec!["again", "quit", "inner pump ok: true"]);

    // The callback is back in the registry afterwards.
    runs.borrow_mut().clear();
    click(&event_tx, 0);
    assert!(app.wait_for_message().is_ok());
    assert_eq!(*runs.borrow(), vec!["again", "inner pump ok: true"]);
}

#[test]
fn handle_recv_dispatches_an_activation() {
    let (mut app, _event_tx, runs) = application();
    app.add_menu_item(&"Quit".to_string(), Action::Note("quit", runs.clone())).unwrap();
    assert!(app.handle_recv(Ok(SystrayEvent { menu_index: 0 })).is_ok());
    assert_eq!(*runs.borrow(), vec!["quit"]);
    assert!(app.handle_recv(Ok(SystrayEvent { menu_index: 7 })).is_ok());
    assert_eq!(*runs.borrow(), vec!["quit"]);
}

#[test]
fn handle_recv_reports_a_failed_receive_as_disconnected() {
    let (mut app, _event_tx, runs) = application();
    app.add_menu_item(&"Quit".to_string(), Action::Note("quit", runs.clone())).unwrap();
    assert!(matches!(app.handle_recv(Err(RecvError)), Err(SystrayError::Disconnected)));
    assert!(runs.borrow().is_empty());
    assert_eq!(app.next_id(), 1);
}

#[test]
fn handle_recv_timeout_covers_each_outcome() {
    let (mut app, _event_tx, runs) = application();
    app.add_menu_item(&"Quit".to_string(), Action::Note("quit", runs.clone())).unwrap();

    assert!(app.handle_recv_timeout(Err(RecvTimeoutError::Timeout)).is_ok());
    assert!(runs.borrow().is_empty());

    assert!(matches!(
        app.handle_recv_timeout(Err(RecvTimeoutError::Disconnected)),
        Err(SystrayError::Disconnected)
    ));
    assert!(runs.borrow().is_empty());

    assert!(app.handle_recv_timeout(Ok(SystrayEvent { menu_index: 0 })).is_ok());
    assert_eq!(*runs.borrow(), vec!["quit"]);

    assert!(app.handle_recv_timeout(Ok(SystrayEvent { menu_index: 5 })).is_ok());
    assert_eq!(*runs.borrow(), vec!["quit"]);
    assert_eq!(app.next_id(), 1);
}
