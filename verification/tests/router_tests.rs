use rustd3d::messages::{WindowMessage, CLOSE_NOTICE, CREATE_NOTICE};
use rustd3d::router::{MessageRouter, RouteAction};

fn msg(window: usize, code: u32, wparam: usize, lparam: usize) -> WindowMessage {
    WindowMessage { window, code, wparam, lparam }
}

#[test]
fn creation_notice_binds_the_lent_address() {
    let mut router = MessageRouter::new();
    let window: usize = 0x51a0;
    let addr: usize = 0x7f00_dead_0001;
    assert!(!router.is_bound(window));
    let act = router.route(msg(window, CREATE_NOTICE, 0, addr));
    assert_eq!(act, RouteAction::Bind { host_addr: addr });
    assert!(router.is_bound(window));
}

#[test]
fn every_delivery_recovers_the_creation_address() {
    let mut router = MessageRouter::new();
    let window: usize = 0x51a0;
    let addr: usize = 0x7f00_dead_0001;
    router.route(msg(window, CREATE_NOTICE, 0, addr));

    // a spread of later messages, interleaved with traffic for other windows
    let other: usize = 0x6000;
    router.route(msg(other, CREATE_NOTICE, 0, 0x7f00_beef_0002));
    for (code, w, l) in [(0x000fu32, 1usize, 2usize), (0x0005, 800, 600), (CLOSE_NOTICE, 0, 0)] {
        let act = router.route(msg(window, code, w, l));
        assert_eq!(
            act,
            RouteAction::Deliver { host_addr: addr, code, wparam: w, lparam: l }
        );
    }
    // and the other window recovers its own address, not ours
    let act = router.route(msg(other, 0x000f, 3, 4));
    assert_eq!(
        act,
        RouteAction::Deliver { host_addr: 0x7f00_beef_0002, code: 0x000f, wparam: 3, lparam: 4 }
    );
}

#[test]
fn early_messages_before_the_bind_fall_through_to_default() {
    let mut router = MessageRouter::new();
    let window: usize = 0x51a0;
    let act = router.route(msg(window, 0x0024, 5, 6));
    assert_eq!(act, RouteAction::DefaultOnly { code: 0x0024, wparam: 5, lparam: 6 });
    assert!(!router.is_bound(window));
}

#[test]
fn bindings_are_per_window() {
    let mut router = MessageRouter::new();
    router.route(msg(1, CREATE_NOTICE, 0, 100));
    router.route(msg(2, CREATE_NOTICE, 0, 200));
    router.route(msg(3, CREATE_NOTICE, 0, 300));
    for (window, addr) in [(1usize, 100usize), (2, 200), (3, 300)] {
        let act = router.route(msg(window, 0x000f, 0, 0));
        assert_eq!(
            act,
            RouteAction::Deliver { host_addr: addr, code: 0x000f, wparam: 0, lparam: 0 }
        );
    }
    // a window never created stays on the default path
    let act = router.route(msg(4, 0x000f, 0, 0));
    assert_eq!(act, RouteAction::DefaultOnly { code: 0x000f, wparam: 0, lparam: 0 });
}

#[test]
fn route_all_reports_one_decision_per_message_in_order() {
    let mut router = MessageRouter::new();
    let msgs = vec![
        msg(9, 0x000f, 1, 2),                     // before the bind: default only
        msg(9, CREATE_NOTICE, 0, 0x7f00_aaaa),    // the bind
        msg(9, 0x0005, 640, 480),                 // delivered to the bound address
        msg(9, CLOSE_NOTICE, 0, 0),               // still the same address
    ];
    let acts = router.route_all(&msgs);
    assert_eq!(
        acts,
        vec![
            RouteAction::DefaultOnly { code: 0x000f, wparam: 1, lparam: 2 },
            RouteAction::Bind { host_addr: 0x7f00_aaaa },
            RouteAction::Deliver { host_addr: 0x7f00_aaaa, code: 0x0005, wparam: 640, lparam: 480 },
            RouteAction::Deliver { host_addr: 0x7f00_aaaa, code: CLOSE_NOTICE, wparam: 0, lparam: 0 },
        ]
    );
    assert!(router.is_bound(9));
}
