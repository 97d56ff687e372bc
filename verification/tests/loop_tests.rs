use rustd3d::message_loop::{classify_pulled, pump, LoopStep};
use rustd3d::messages::{WindowMessage, CLOSE_NOTICE, CREATE_NOTICE, TERMINATION_SIGNAL};
use rustd3d::router::{MessageRouter, RouteAction};
use rustd3d::window::{handler_result, BasicWindow, HandlerAction};

fn msg(window: usize, code: u32) -> WindowMessage {
    WindowMessage { window, code, wparam: 0, lparam: 0 }
}

#[test]
fn ordinary_messages_are_dispatched() {
    let step = classify_pulled(msg(1, 0x000f));
    assert_eq!(step, LoopStep::Dispatch { message: msg(1, 0x000f) });
}

#[test]
fn termination_signal_stops_the_loop() {
    let step = classify_pulled(msg(0, TERMINATION_SIGNAL));
    assert_eq!(step, LoopStep::Stop);
}

#[test]
fn pump_dispatches_everything_before_the_termination_signal() {
    let queue = vec![
        msg(1, 0x000f),
        msg(1, 0x0005),
        msg(0, TERMINATION_SIGNAL),
        msg(1, 0x000f),
    ];
    let (dispatched, terminated) = pump(&queue);
    assert!(terminated);
    assert_eq!(dispatched, vec![msg(1, 0x000f), msg(1, 0x0005)]);
}

#[test]
fn pump_without_termination_dispatches_everything() {
    let queue = vec![msg(1, 0x000f), msg(1, 0x0005)];
    let (dispatched, terminated) = pump(&queue);
    assert!(!terminated);
    assert_eq!(dispatched, queue);
}

#[test]
fn pump_of_empty_queue_dispatches_nothing() {
    let (dispatched, terminated) = pump(&Vec::new());
    assert!(!terminated);
    assert!(dispatched.is_empty());
}

// A whole session: create the window, let ordinary traffic flow, close it.
// The close notice is the only thing that posts the termination signal, and
// pulling that signal is the only thing that ends the loop.
#[test]
fn close_notice_is_the_only_way_out_of_the_loop() {
    let mut router = MessageRouter::new();
    let host = BasicWindow::new(500, 600, "rustd3d.MainWindow", "rustd3d");
    let window: usize = 0x51a0;
    let lent_addr: usize = 0x7f00_dead_0001;
    router.route(msg_with(window, CREATE_NOTICE, 0, lent_addr));

    let queue = vec![
        msg(window, 0x000f),
        msg(window, 0x0005),
        msg(window, CLOSE_NOTICE),
    ];
    let mut termination_posts = 0;
    let mut pulled: Vec<WindowMessage> = Vec::new();
    for m in &queue {
        pulled.push(*m);
        if let RouteAction::Deliver { code, wparam, lparam, .. } = router.route(*m) {
            match host.message_handler(code, wparam, lparam) {
                HandlerAction::PostTermination => {
                    termination_posts += 1;
                    pulled.push(msg(0, TERMINATION_SIGNAL));
                    assert_eq!(handler_result(HandlerAction::PostTermination, 99), 0);
                }
                HandlerAction::ForwardDefault { .. } => {}
            }
        }
    }
    assert_eq!(termination_posts, 1);
    let (dispatched, terminated) = pump(&pulled);
    assert!(terminated);
    // everything up to the posted signal was dispatched; the signal itself was not
    assert_eq!(dispatched, queue);
}

fn msg_with(window: usize, code: u32, wparam: usize, lparam: usize) -> WindowMessage {
    WindowMessage { window, code, wparam, lparam }
}

#[test]
fn run_message_loop_dispatches_and_stops_at_termination() {
    let mut router = MessageRouter::new();
    let window: usize = 0x51a0;
    let lent_addr: usize = 0x7f00_dead_0001;
    router.route(msg_with(window, CREATE_NOTICE, 0, lent_addr));

    let queue = vec![
        msg(window, 0x000f),
        msg(window, CLOSE_NOTICE),
        msg(0, TERMINATION_SIGNAL),
        msg(window, 0x000f), // never reached: the loop has ended
    ];
    let (acts, terminated) = rustd3d::protocol::run_message_loop(&mut router, &queue);
    assert!(terminated);
    assert_eq!(
        acts,
        vec![
            RouteAction::Deliver { host_addr: lent_addr, code: 0x000f, wparam: 0, lparam: 0 },
            RouteAction::Deliver { host_addr: lent_addr, code: CLOSE_NOTICE, wparam: 0, lparam: 0 },
        ]
    );
}
