use brpc_rs::{CancelToken, Server, ServerOptions, ServiceOwnership, ServiceStub};

#[test]
fn server_options_new() {
    let opt = ServerOptions::new();
    assert_eq!(opt.idle_timeout_ms, -1);
}

#[test]
fn server_options_set_idle_timeout_ms() {
    let mut opt = ServerOptions::new();
    opt.set_idle_timeout_ms(0);
}

#[test]
fn server_new() {
    let server = Server::new();
    assert!(server.services.is_empty());
}

#[test]
fn server_add_null_service() {
    let service = ServiceStub { id: 0 };
    let mut server = Server::new();
    let ret = server.add_service(&service, ServiceOwnership::ServerDoesntOwnService);
    assert_eq!(false, ret.is_ok()); // a null service must fail to add
}

#[test]
fn server_start_null_service() {
    let service = ServiceStub { id: 0 };
    let mut server = Server::new();
    let _ = server.add_service(&service, ServiceOwnership::ServerDoesntOwnService);

    let opt = ServerOptions::new();
    let ret = server.start(50000, &opt);
    assert_eq!(true, ret.is_ok());
}

#[test]
fn add_service_records_registration() {
    let mut server = Server::new();
    let ret = server.add_service(&ServiceStub { id: 7 }, ServiceOwnership::ServerOwnsService);
    assert!(ret.is_ok());
    assert_eq!(server.services.len(), 1);
    assert_eq!(server.services[0].id, 7);
    assert_eq!(server.services[0].ownership, ServiceOwnership::ServerOwnsService);
}

#[test]
fn start_twice_fails() {
    let mut server = Server::new();
    let opt = ServerOptions::new();
    assert!(server.start(50000, &opt).is_ok());
    assert_eq!(server.port, Some(50000));
    let again = server.start(50001, &opt);
    assert!(again.is_err());
    assert_eq!(server.port, Some(50000));
}

#[test]
fn teardown_destroys_only_callee_owned_services() {
    let mut server = Server::new();
    server
        .add_service(&ServiceStub { id: 1 }, ServiceOwnership::ServerOwnsService)
        .unwrap();
    server
        .add_service(&ServiceStub { id: 2 }, ServiceOwnership::ServerDoesntOwnService)
        .unwrap();
    server
        .add_service(&ServiceStub { id: 3 }, ServiceOwnership::ServerOwnsService)
        .unwrap();

    // liveness flags for the three services, indexed by id - 1
    let mut alive = [true, true, true];
    let destroyed = server.destroy();
    for id in &destroyed {
        alive[(*id - 1) as usize] = false;
    }
    assert!(!alive[0]); // callee-owned: destroyed at teardown
    assert!(alive[1]); // caller-owned: left alive and untouched
    assert!(!alive[2]);
    assert_eq!(destroyed, vec![1, 3]);
}

#[test]
fn independent_handles_destroyed_in_any_order() {
    let mut a = Server::new();
    let mut b = Server::new();
    let mut c = Server::new();
    a.add_service(&ServiceStub { id: 10 }, ServiceOwnership::ServerOwnsService)
        .unwrap();
    b.add_service(&ServiceStub { id: 20 }, ServiceOwnership::ServerOwnsService)
        .unwrap();
    c.add_service(&ServiceStub { id: 30 }, ServiceOwnership::ServerDoesntOwnService)
        .unwrap();

    // destroy in an order unrelated to creation; each teardown only ever
    // touches that server's own services
    assert_eq!(b.destroy(), vec![20]);
    assert_eq!(c.destroy(), Vec::<u64>::new());
    assert_eq!(a.destroy(), vec![10]);
}

#[test]
fn run_returns_once_cancellation_is_observed() {
    let server = Server::new();
    let mut token = CancelToken::new();
    assert!(!server.run_step(&token));
    token.trigger();
    assert!(server.run_step(&token));
}

#[test]
fn pre_triggered_token_stops_immediately() {
    let mut server = Server::new();
    let opt = ServerOptions::new();
    server.start(50000, &opt).unwrap();
    let mut token = CancelToken::new();
    token.trigger();
    assert!(server.run_step(&token));
}
