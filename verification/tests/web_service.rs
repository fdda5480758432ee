use lambda::rt::Response;
use lambda::web::config::{Id, Route, RoutePath};
use lambda::web::service::modules::{Action, Event, Handling, InstancePool, Phase};
use lambda::web::service::workers::{generate_route_handlers, RouteError};
use lambda::web::service::{request_handler, Outcome, Reply};
use std::collections::VecDeque;

fn id(text: &str) -> Id {
    Id::parse(String::from(text)).unwrap()
}

fn route(path: &str, module: &str) -> Route {
    Route { path: RoutePath::parse(String::from(path)).unwrap(), module: id(module) }
}

#[test]
fn every_route_finds_its_module() {
    let modules = vec![id("echo"), id("panic"), id("sum")];
    let routes = vec![route("sum", "sum"), route("echo", "echo"), route("again", "echo")];
    assert_eq!(generate_route_handlers(&routes, &modules), Ok(vec![2, 0, 0]));
    assert_eq!(generate_route_handlers(&vec![], &modules), Ok(vec![]));
    assert_eq!(generate_route_handlers(&vec![], &vec![]), Ok(vec![]));
}

#[test]
fn a_route_to_an_unknown_module_is_refused() {
    let modules = vec![id("echo")];
    let routes = vec![route("echo", "echo"), route("sum", "sum")];
    assert_eq!(
        generate_route_handlers(&routes, &modules),
        Err(RouteError::UnknownModule { route: 1 })
    );
    assert_eq!(
        generate_route_handlers(&routes, &vec![]),
        Err(RouteError::UnknownModule { route: 0 })
    );
    assert_eq!(
        generate_route_handlers(&vec![route("e", "Echo")], &modules),
        Err(RouteError::UnknownModule { route: 0 })
    );
}

#[test]
fn a_duplicate_route_path_is_refused() {
    let modules = vec![id("echo"), id("sum")];
    let routes = vec![route("a", "echo"), route("b", "sum"), route("a", "sum")];
    assert_eq!(
        generate_route_handlers(&routes, &modules),
        Err(RouteError::DuplicatePath { route: 2 })
    );
    let routes = vec![route("a", "echo"), route("a", "echo")];
    assert_eq!(
        generate_route_handlers(&routes, &modules),
        Err(RouteError::DuplicatePath { route: 1 })
    );
}

#[test]
fn the_first_faulty_route_decides_and_the_module_is_looked_up_first() {
    let modules = vec![id("echo")];
    let routes = vec![route("a", "echo"), route("a", "none"), route("a", "echo")];
    assert_eq!(
        generate_route_handlers(&routes, &modules),
        Err(RouteError::UnknownModule { route: 1 })
    );
    let routes = vec![route("a", "echo"), route("a", "echo"), route("b", "none")];
    assert_eq!(
        generate_route_handlers(&routes, &modules),
        Err(RouteError::DuplicatePath { route: 1 })
    );
}

#[test]
fn of_modules_with_the_same_id_the_last_serves() {
    let modules = vec![id("echo"), id("sum"), id("echo")];
    assert_eq!(generate_route_handlers(&vec![route("e", "echo")], &modules), Ok(vec![2]));
}

#[test]
fn instances_leave_the_pool_in_the_order_they_came() {
    let mut pool: InstancePool<u8> = InstancePool::new(VecDeque::from(vec![1, 2]), 4);
    assert_eq!(pool.len(), 2);
    assert_eq!(pool.give_back(3), None);
    assert_eq!(pool.take(), Some(1));
    assert_eq!(pool.take(), Some(2));
    assert_eq!(pool.take(), Some(3));
    assert_eq!(pool.take(), None);
    assert_eq!(pool.take(), None);
    assert_eq!(pool.len(), 0);
    assert_eq!(pool.max_idle, 4);
}

#[test]
fn a_full_pool_hands_the_instance_back() {
    let mut pool: InstancePool<u8> = InstancePool::new(VecDeque::new(), 2);
    assert_eq!(pool.give_back(1), None);
    assert_eq!(pool.give_back(2), None);
    assert_eq!(pool.give_back(3), Some(3));
    assert_eq!(pool.len(), 2);
    assert_eq!(pool.idle, VecDeque::from(vec![1, 2]));
    let mut none: InstancePool<u8> = InstancePool::new(VecDeque::new(), 0);
    assert_eq!(none.give_back(1), Some(1));
    assert_eq!(none.len(), 0);
}

#[test]
fn after_a_burst_the_pool_holds_the_maximum_idle_size() {
    // A pool of two warm instances that may keep four, and ten requests at once.
    let mut pool: InstancePool<u32> = InstancePool::new(VecDeque::from(vec![0, 1]), 4);
    let mut next_instance = 2;
    let mut running = Vec::new();
    for _ in 0..10 {
        running.push(match pool.take() {
            Some(instance) => instance,
            None => {
                next_instance += 1;
                next_instance - 1
            },
        });
    }
    assert_eq!(pool.len(), 0);
    assert_eq!(next_instance, 10);
    let mut dropped = 0;
    for instance in running {
        if pool.give_back(instance).is_some() {
            dropped += 1;
        }
    }
    assert_eq!(pool.len(), 4);
    assert_eq!(dropped, 6);
    assert_eq!(pool.idle, VecDeque::from(vec![0, 1, 2, 3]));
}

#[test]
fn after_a_small_burst_the_pool_holds_what_came_back() {
    let mut pool: InstancePool<u32> = InstancePool::new(VecDeque::from(vec![0, 1]), 4);
    let first = pool.take().unwrap();
    let second = pool.take().unwrap();
    assert_eq!(pool.give_back(second), None);
    assert_eq!(pool.give_back(first), None);
    assert_eq!(pool.give_back(7), None);
    assert_eq!(pool.len(), 3);
}

#[test]
fn an_answer_is_a_200_and_a_guest_error_a_422() {
    assert_eq!(
        request_handler(Outcome::Replied(Response::Success(vec![1, 2, 3]))),
        Reply { status: 200, body: vec![1, 2, 3] }
    );
    assert_eq!(
        request_handler(Outcome::Replied(Response::Error(b"boom".to_vec()))),
        Reply { status: 422, body: b"boom".to_vec() }
    );
    assert_eq!(
        request_handler(Outcome::Replied(Response::Success(vec![]))),
        Reply { status: 200, body: vec![] }
    );
}

#[test]
fn a_failure_of_the_host_is_a_500() {
    assert_eq!(
        request_handler(Outcome::Failed(b"Error occurred!".to_vec())),
        Reply { status: 500, body: b"Error occurred!".to_vec() }
    );
    assert_eq!(
        request_handler(Outcome::NoReply),
        Reply { status: 500, body: b"Failed to receive response from handler!".to_vec() }
    );
    assert_eq!(
        request_handler(Outcome::WorkerGone),
        Reply {
            status: 500,
            body: b"Failed to send request to handler! Channel closed!".to_vec()
        }
    );
}

/// Drives a handler with the events given and returns what it did, in order.
fn course(from_outside: bool, events: &[Event]) -> (Vec<Action>, Handling) {
    let mut handling = Handling::start(from_outside);
    let mut actions = vec![handling.action()];
    for event in events {
        assert!(handling.expects(*event));
        handling.step(*event);
        actions.push(handling.action());
    }
    (actions, handling)
}

#[test]
fn a_request_from_outside_runs_under_a_permit_that_is_released_last() {
    let (actions, end) = course(
        true,
        &[
            Event::PermitAcquired,
            Event::InstanceTaken,
            Event::Executed,
            Event::ReplySent,
            Event::InstanceGone,
            Event::PermitReleased,
        ],
    );
    assert_eq!(
        actions,
        vec![
            Action::AcquirePermit,
            Action::TakeInstance,
            Action::Execute,
            Action::Reply,
            Action::ReturnInstance,
            Action::ReleasePermit,
            Action::Finish,
        ]
    );
    assert_eq!(
        end,
        Handling { from_outside: true, phase: Phase::Done, permit: false, instance: false }
    );
}

#[test]
fn a_request_from_inside_needs_no_permit() {
    let (actions, end) = course(
        false,
        &[Event::PoolEmpty, Event::InstanceCreated, Event::Executed, Event::ReplySent, Event::InstanceGone],
    );
    assert_eq!(
        actions,
        vec![
            Action::TakeInstance,
            Action::CreateInstance,
            Action::Execute,
            Action::Reply,
            Action::ReturnInstance,
            Action::Finish,
        ]
    );
    assert!(!end.permit && !end.instance);
}

#[test]
fn an_instance_whose_reply_nobody_takes_is_dropped() {
    let (actions, _) = course(
        true,
        &[
            Event::PermitAcquired,
            Event::PoolEmpty,
            Event::InstanceCreated,
            Event::Executed,
            Event::ReplyRefused,
            Event::InstanceGone,
            Event::PermitReleased,
        ],
    );
    assert_eq!(
        actions[4..],
        [Action::Reply, Action::DropInstance, Action::ReleasePermit, Action::Finish]
    );
}

#[test]
fn a_handler_that_gets_no_permit_or_no_instance_winds_up() {
    let (actions, end) = course(true, &[Event::PermitRefused]);
    assert_eq!(actions, vec![Action::AcquirePermit, Action::Finish]);
    assert_eq!(end.phase, Phase::Done);
    let (actions, _) =
        course(true, &[Event::PermitAcquired, Event::PoolEmpty, Event::CreationFailed, Event::PermitReleased]);
    assert_eq!(actions[2..], [Action::CreateInstance, Action::ReleasePermit, Action::Finish]);
    let (actions, _) = course(false, &[Event::PoolEmpty, Event::CreationFailed]);
    assert_eq!(actions, vec![Action::TakeInstance, Action::CreateInstance, Action::Finish]);
}

#[test]
fn a_handler_expects_only_what_can_come_of_its_action() {
    let start = Handling::start(true);
    assert!(start.expects(Event::PermitAcquired));
    assert!(start.expects(Event::PermitRefused));
    assert!(!start.expects(Event::InstanceTaken));
    assert!(!start.expects(Event::Executed));
    let (_, done) = course(false, &[Event::PoolEmpty, Event::CreationFailed]);
    for event in [
        Event::PermitAcquired,
        Event::PermitRefused,
        Event::InstanceTaken,
        Event::PoolEmpty,
        Event::InstanceCreated,
        Event::CreationFailed,
        Event::Executed,
        Event::ReplySent,
        Event::ReplyRefused,
        Event::InstanceGone,
        Event::PermitReleased,
    ] {
        assert!(!done.expects(event));
    }
}
