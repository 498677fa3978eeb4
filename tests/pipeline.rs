use std::sync::{Arc, Mutex};

use web::execution::ExecError;
use web::{
    default_fallback, leave, mount, respond, Action, App, AppBuilder, HttpError, MountEntry,
    MountMiddleware, Next, Outcome, Request, Response, Step, Uri,
};

type Handler = Box<dyn Fn(Request, Response, (), Next) -> Outcome<()>>;

/// A middleware of these tests: a handler and an optional after-hook.
struct Unit {
    handle: Handler,
    after: Option<Box<dyn Fn()>>,
}

fn unit<F>(f: F) -> Unit
where
    F: Fn(Request, Response, (), Next) -> Outcome<()> + 'static,
{
    Unit { handle: Box::new(f), after: None }
}

fn unit_with_after<F, A>(f: F, a: A) -> Unit
where
    F: Fn(Request, Response, (), Next) -> Outcome<()> + 'static,
    A: Fn() + 'static,
{
    Unit { handle: Box::new(f), after: Some(Box::new(a)) }
}

fn mounted(m: MountMiddleware<Handler>) -> Unit {
    unit(move |req, res, state, next| match m.enter(req) {
        MountEntry::Bypass(req) => next.call(req, res, state),
        MountEntry::Enter(inner, original) => {
            leave(original, (m.middleware())(inner, res, state, Next::new()))
        }
    })
}

fn get(uri: &str) -> Request {
    let (scheme, rest) = uri.split_at(uri.find("://").unwrap());
    let rest = &rest[3..];
    let (authority, path_query) = match rest.find('/') {
        Some(i) => rest.split_at(i),
        None => (rest, "/"),
    };
    let (path, query) = match path_query.find('?') {
        Some(i) => (&path_query[..i], Some(&path_query[i + 1..])),
        None => (path_query, None),
    };
    Request::new("GET", Uri::absolute(scheme, authority, path, query))
}

/// Drives one request through `app` with the default fallback; returns the
/// response and the actions handed out.
fn run(app: &App<Unit>, req: Request) -> (Response, Vec<Action>) {
    let mut ex = app.execute(req, Response::new(), ());
    let mut actions = Vec::new();
    loop {
        match ex.next_action() {
            Step::Invoke(i, q, s, c) => {
                actions.push(Action::Invoke(i));
                let o = (app.middleware(i).handle)(q, s, c, Next::new());
                ex.settle(o).unwrap();
            }
            Step::Fallback(q, s, c) => {
                actions.push(Action::Fallback);
                ex.settle(default_fallback(q, s, c)).unwrap();
            }
            Step::After(i) => {
                actions.push(Action::After(i));
                if let Some(after) = &app.middleware(i).after {
                    after();
                }
            }
            Step::Wait => panic!("an invocation was left pending"),
            Step::Finish(o) => {
                actions.push(Action::Finish);
                assert!(ex.is_finished());
                return (respond(o), actions);
            }
            Step::Done => panic!("the outcome was handed out twice"),
        }
    }
}

fn ends_with_body(body: &'static str) -> Unit {
    unit(move |_, res: Response, _, _| Outcome::Terminate(res.body(body)))
}

#[test]
fn closure_middleware() {
    let mut app = App::new();
    app.add(unit(|_req, res: Response, _state: (), _next| Outcome::Terminate(res.body("Hello World!"))));
    let (res, _) = run(&app.build(), get("http://localhost/"));
    assert_eq!(res.body, "Hello World!");
}

#[test]
fn middleware() {
    let mut app: AppBuilder<Unit> = App::new();
    app.add(unit(|_req, res, _state, _next| Outcome::Terminate(res)));
    let (res, _) = run(&app.build(), get("http://localhost/"));
    assert_eq!(res.status, 200);
}

fn handle(_req: Request, res: Response, _state: (), _next: Next) -> Outcome<()> {
    Outcome::Terminate(res.body("Hello World!"))
}

#[test]
fn fn_middleware() {
    let mut app = App::new();
    app.add(unit(handle));
    let (res, _) = run(&app.build(), get("http://localhost/"));
    assert_eq!(res.body, "Hello World!");
}

#[test]
fn end_with_done() {
    let mut app = App::<Unit>::new();
    app.add(unit(|_, res, _, _| Outcome::Terminate(res)));
    app.add(unit(|_, res: Response, _, _| Outcome::Terminate(res.text("Hello World"))));
    let (res, actions) = run(&app.build(), get("http://localhost/"));
    assert_eq!(res.body, "");
    assert_eq!(actions, vec![Action::Invoke(0), Action::After(0), Action::Finish]);
}

#[test]
fn end_with_next() {
    let mut app = App::new();
    app.add(unit(|req, res, state, next: Next| next.call(req, res, state)));
    let (res, _) = run(&app.build(), get("http://localhost/"));
    assert_eq!(res.status, 404);
}

#[test]
fn chain_middleware() {
    let mut app1 = App::<Unit>::new();
    let app2: AppBuilder<Unit> = App::new();
    let inner = app2.build();
    assert_eq!(inner.len(), 0);
    app1.add(unit(move |req, res, state, next| {
        let (res, _) = run(&inner, req.clone());
        if res.status == 404 {
            next.call(req, res, state)
        } else {
            Outcome::Terminate(res)
        }
    }));
    let (res, _) = run(&app1.build(), get("http://localhost/"));
    assert_eq!(res.status, 404);
}

#[test]
fn after_next() {
    let order = Arc::new(Mutex::new(Vec::new()));
    let order1 = order.clone();
    let order2 = order.clone();

    let mut app = App::new();
    app.add(unit_with_after(
        |req, res, state, next: Next| next.call(req, res, state),
        move || order1.lock().unwrap().push(2),
    ));
    app.add(unit(move |_, res, _, _| {
        order2.lock().unwrap().push(1);
        Outcome::Terminate(res)
    }));

    run(&app.build(), get("http://localhost"));

    assert_eq!(*order.lock().unwrap(), vec![1, 2]);
}

#[test]
fn return_response_builder() {
    fn handle(_req: Request, res: Response, _state: (), _next: Next) -> Outcome<()> {
        Outcome::Terminate(res)
    }

    let mut app = App::new();
    app.add(unit(handle));
    let (res, _) = run(&app.build(), get("http://localhost/"));
    assert_eq!(res, Response::new());
}

#[test]
fn return_impl_into_response() {
    fn handle(_req: Request, _res: Response, _state: (), _next: Next) -> Outcome<()> {
        Outcome::Failed(HttpError::Status(404))
    }

    let mut app = App::new();
    app.add(unit(handle));
    let (res, _) = run(&app.build(), get("http://localhost/"));
    assert_eq!(res.status, 404);
    assert_eq!(res.body, "Not Found");
}

#[test]
fn mount_middleware_called() {
    let called = Arc::new(Mutex::new(false));

    let app = {
        let mut app = App::new();
        let called = called.clone();
        let inner: Handler = Box::new(move |_, res, _, _| {
            *called.lock().unwrap() = true;
            Outcome::Terminate(res)
        });
        app.add(mounted(mount("/foo", inner)));
        app
    };

    run(&app.build(), get("http://localhost/foo"));

    assert_eq!(*called.lock().unwrap(), true);
}

#[test]
fn mount_middleware_not_called() {
    let called = Arc::new(Mutex::new(false));

    let app = {
        let mut app = App::new();
        let called = called.clone();
        let inner: Handler = Box::new(move |_, res, _, _| {
            *called.lock().unwrap() = true;
            Outcome::Terminate(res)
        });
        app.add(mounted(mount("/foo", inner)));
        app
    };

    run(&app.build(), get("http://localhost/bar"));

    assert_eq!(*called.lock().unwrap(), false);
}

#[test]
fn nothing_terminates_gives_one_fallback() {
    let mut app = App::new();
    for _ in 0..3 {
        app.add(unit(|req, res, state, next: Next| next.call(req, res, state)));
    }
    let (res, actions) = run(&app.build(), get("http://localhost/x"));
    assert_eq!(res.status, 404);
    assert_eq!(res.body, "");
    assert_eq!(actions.iter().filter(|a| **a == Action::Fallback).count(), 1);
    assert_eq!(
        actions,
        vec![
            Action::Invoke(0),
            Action::Invoke(1),
            Action::Invoke(2),
            Action::Fallback,
            Action::After(2),
            Action::After(1),
            Action::After(0),
            Action::Finish,
        ]
    );
}

#[test]
fn empty_pipeline_goes_straight_to_fallback() {
    let app: AppBuilder<Unit> = App::new();
    let (res, actions) = run(&app.build(), get("http://localhost/"));
    assert_eq!(res.status, 404);
    assert_eq!(actions, vec![Action::Fallback, Action::Finish]);
}

#[test]
fn after_hooks_run_in_reverse_and_only_for_entered() {
    let order = Arc::new(Mutex::new(Vec::new()));
    let mut app = App::new();
    for i in 0..4 {
        let o = order.clone();
        if i < 2 {
            app.add(unit_with_after(
                |req, res, state, next: Next| next.call(req, res, state),
                move || o.lock().unwrap().push(i),
            ));
        } else {
            app.add(unit_with_after(
                |_, res: Response, _, _| Outcome::Terminate(res.body("stop")),
                move || o.lock().unwrap().push(i),
            ));
        }
    }
    let (res, actions) = run(&app.build(), get("http://localhost/"));
    assert_eq!(res.body, "stop");
    assert_eq!(*order.lock().unwrap(), vec![2, 1, 0]);
    assert_eq!(
        actions,
        vec![
            Action::Invoke(0),
            Action::Invoke(1),
            Action::Invoke(2),
            Action::After(2),
            Action::After(1),
            Action::After(0),
            Action::Finish,
        ]
    );
}

#[test]
fn after_hooks_run_on_failure_too() {
    let order = Arc::new(Mutex::new(Vec::new()));
    let o1 = order.clone();
    let o2 = order.clone();
    let mut app = App::new();
    app.add(unit_with_after(|req, res, state, next: Next| next.call(req, res, state), move || {
        o1.lock().unwrap().push("first")
    }));
    app.add(unit_with_after(
        |_, _, _, _| Outcome::Failed(HttpError::StatusAndReason(418, "teapot".to_string())),
        move || o2.lock().unwrap().push("second"),
    ));
    let (res, _) = run(&app.build(), get("http://localhost/"));
    assert_eq!(res.status, 418);
    assert_eq!(res.body, "teapot");
    assert_eq!(*order.lock().unwrap(), vec!["second", "first"]);
}

#[test]
fn scenario_hello_world() {
    let mut app = App::new();
    app.add(ends_with_body("Hello World!"));
    let (res, _) = run(&app.build(), get("http://localhost/"));
    assert_eq!(res.body, "Hello World!");
    assert_eq!(res.status, 200);
}

#[test]
fn scenario_pass_through_then_terminate() {
    let order = Arc::new(Mutex::new(Vec::new()));
    let o1 = order.clone();
    let o2 = order.clone();
    let mut app = App::new();
    app.add(unit_with_after(|req, res, state, next: Next| next.call(req, res, state), move || {
        o1.lock().unwrap().push(1)
    }));
    app.add(unit_with_after(
        |_, res: Response, _, _| Outcome::Terminate(res.body("X")),
        move || o2.lock().unwrap().push(2),
    ));
    let (res, _) = run(&app.build(), get("http://localhost/"));
    assert_eq!(res.body, "X");
    assert_eq!(*order.lock().unwrap(), vec![2, 1]);
}

#[test]
fn scenario_mount_api() {
    let seen = Arc::new(Mutex::new(Vec::new()));
    let s1 = seen.clone();
    let s2 = seen.clone();
    let inner: Handler = Box::new(move |req: Request, res, state, next: Next| {
        s1.lock().unwrap().push(format!("inner {}", req.uri.path));
        next.call(req, res, state)
    });
    let mut app = App::new();
    app.add(mounted(mount("/api", inner)));
    app.add(unit(move |req: Request, res: Response, _, _| {
        s2.lock().unwrap().push(format!("outer {}", req.uri.path));
        Outcome::Terminate(res.body("done"))
    }));
    let (res, _) = run(&app.build(), get("http://localhost/api/users?x=1"));
    assert_eq!(res.body, "done");
    assert_eq!(
        *seen.lock().unwrap(),
        vec!["inner /users".to_string(), "outer /api/users".to_string()]
    );
}

#[test]
fn settle_without_pending_is_refused() {
    let app: AppBuilder<Unit> = App::new();
    let app = app.build();
    let mut ex = app.execute(get("http://localhost/"), Response::new(), ());
    let answer = || -> Outcome<()> { Outcome::Terminate(Response::new().body("fallback")) };
    assert_eq!(ex.settle(answer()), Err(ExecError::NothingPending));
    match ex.next_action() {
        Step::Fallback(req, _, _) => assert_eq!(req.uri.path, "/"),
        _ => panic!("an empty pipeline goes to the fallback"),
    }
    assert!(matches!(ex.next_action(), Step::Wait));
    assert_eq!(ex.settle(answer()), Ok(()));
    assert_eq!(ex.settle(answer()), Err(ExecError::NothingPending));
    match ex.next_action() {
        Step::Finish(Outcome::Terminate(res)) => assert_eq!(res.body, "fallback"),
        _ => panic!("the first report is the one kept"),
    }
    assert!(ex.is_finished());
    assert!(matches!(ex.next_action(), Step::Done));
}

#[test]
fn shared_app_sees_same_middleware() {
    let mut b = App::new();
    b.add(ends_with_body("a"));
    b.add(ends_with_body("b"));
    let app = b.build();
    let other = app.clone();
    assert_eq!(other.len(), 2);
    let (res, _) = run(&other, get("http://localhost/"));
    assert_eq!(res.body, "a");
}
