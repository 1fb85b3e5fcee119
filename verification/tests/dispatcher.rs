use breathalyzer_firmware::dispatcher::{
    Dispatcher, Event, LockError, PostError, TaskConfig, DEFAULT_CAPACITY,
};

fn task(priority: usize, capacity: usize, resources: &[usize]) -> TaskConfig {
    TaskConfig { priority, capacity, resources: resources.to_vec() }
}

/// Task 0: priority 1, shares resource 0 with task 1.  Task 1: priority 2.
/// Task 2: priority 3, alone on resource 2.  Task 3: priority 2, like task 1.
fn dispatcher() -> Dispatcher<u32> {
    let tasks = vec![task(1, 4, &[0]), task(2, 4, &[0, 1]), task(3, 1, &[2]), task(2, 2, &[1])];
    Dispatcher::new(tasks, 4).unwrap()
}

fn event(task: usize, payload: u32) -> Event<u32> {
    Event { task, payload }
}

#[test]
fn new_refuses_priority_outside_the_levels() {
    assert!(Dispatcher::<u32>::new(vec![task(4, 1, &[])], 4).is_none());
    assert!(Dispatcher::<u32>::new(vec![task(0, 1, &[]), task(1, 1, &[])], 1).is_none());
    assert!(Dispatcher::<u32>::new(vec![task(3, 1, &[])], 4).is_some());
    assert!(Dispatcher::<u32>::new(vec![], 0).is_some());
}

#[test]
fn new_dispatcher_is_idle_and_empty() {
    let mut d = dispatcher();
    assert_eq!(d.current(), None);
    assert_eq!(d.level(), None);
    assert_eq!(d.pending(0), 0);
    assert_eq!(d.dispatch(), None);
    assert_eq!(d.complete(), None);
}

#[test]
fn post_to_unknown_task_is_refused() {
    let mut d = dispatcher();
    assert_eq!(d.post(4, 0), Err(PostError::UnknownTask));
    assert_eq!(d.pending(4), 0);
    assert_eq!(d.dispatch(), None);
}

#[test]
fn highest_priority_is_started_first() {
    let mut d = dispatcher();
    assert_eq!(d.post(0, 10), Ok(()));
    assert_eq!(d.post(2, 30), Ok(()));
    assert_eq!(d.post(1, 20), Ok(()));
    assert_eq!(d.dispatch(), Some(event(2, 30)));
    assert_eq!(d.complete(), Some(event(2, 30)));
    assert_eq!(d.dispatch(), Some(event(1, 20)));
    assert_eq!(d.complete(), Some(event(1, 20)));
    assert_eq!(d.dispatch(), Some(event(0, 10)));
    assert_eq!(d.complete(), Some(event(0, 10)));
    assert_eq!(d.dispatch(), None);
}

#[test]
fn equal_priority_is_first_in_first_out() {
    let mut d = dispatcher();
    d.post(1, 1).unwrap();
    d.post(3, 2).unwrap();
    d.post(1, 3).unwrap();
    d.post(3, 4).unwrap();
    let mut order = Vec::new();
    while let Some(e) = d.dispatch() {
        order.push(e);
        d.complete();
    }
    assert_eq!(order, vec![event(1, 1), event(3, 2), event(1, 3), event(3, 4)]);
}

#[test]
fn post_beyond_capacity_is_queue_full() {
    let mut d = dispatcher();
    d.post(3, 100).unwrap();
    for i in 0..4 {
        assert_eq!(d.post(1, i), Ok(()));
    }
    assert_eq!(d.pending(1), 4);
    assert_eq!(d.post(1, 4), Err(PostError::QueueFull));
    assert_eq!(d.post(1, 5), Err(PostError::QueueFull));
    assert_eq!(d.pending(1), 4);
    assert_eq!(d.pending(3), 1);
    assert_eq!(d.post(3, 101), Ok(()));
    assert_eq!(d.post(3, 102), Err(PostError::QueueFull));
    let mut order = Vec::new();
    while let Some(e) = d.dispatch() {
        order.push(e);
        d.complete();
    }
    assert_eq!(
        order,
        vec![event(3, 100), event(1, 0), event(1, 1), event(1, 2), event(1, 3), event(3, 101)]
    );
}

#[test]
fn capacity_counts_waiting_events_only() {
    let mut d = dispatcher();
    assert_eq!(d.post(2, 1), Ok(()));
    assert_eq!(d.post(2, 2), Err(PostError::QueueFull));
    assert_eq!(d.dispatch(), Some(event(2, 1)));
    assert_eq!(d.pending(2), 0);
    assert_eq!(d.post(2, 3), Ok(()));
    assert_eq!(d.pending(2), 1);
}

#[test]
fn higher_priority_preempts_and_completes_before_the_lower_resumes() {
    let mut d = dispatcher();
    d.post(0, 1).unwrap();
    assert_eq!(d.dispatch(), Some(event(0, 1)));
    // Task 0 is running; task 1 (higher) and task 0 are made ready.
    d.post(1, 2).unwrap();
    d.post(0, 3).unwrap();
    assert_eq!(d.dispatch(), Some(event(1, 2)));
    assert_eq!(d.current(), Some(event(1, 2)));
    assert_eq!(d.level(), Some(2));
    assert_eq!(d.dispatch(), None);
    assert_eq!(d.complete(), Some(event(1, 2)));
    // Task 0 runs again; its own new event waits until it has completed.
    assert_eq!(d.current(), Some(event(0, 1)));
    assert_eq!(d.dispatch(), None);
    assert_eq!(d.pending(0), 1);
    assert_eq!(d.complete(), Some(event(0, 1)));
    assert_eq!(d.dispatch(), Some(event(0, 3)));
}

#[test]
fn preemption_does_not_depend_on_the_order_of_posting() {
    let mut d = dispatcher();
    d.post(0, 1).unwrap();
    d.dispatch();
    d.post(0, 3).unwrap();
    d.post(1, 2).unwrap();
    assert_eq!(d.dispatch(), Some(event(1, 2)));
    assert_eq!(d.dispatch(), None);
    assert_eq!(d.complete(), Some(event(1, 2)));
    assert_eq!(d.dispatch(), None);
}

#[test]
fn lower_and_equal_priority_do_not_preempt() {
    let mut d = dispatcher();
    d.post(1, 1).unwrap();
    assert_eq!(d.dispatch(), Some(event(1, 1)));
    d.post(0, 2).unwrap();
    d.post(3, 3).unwrap();
    assert_eq!(d.dispatch(), None);
    assert_eq!(d.complete(), Some(event(1, 1)));
    assert_eq!(d.dispatch(), Some(event(3, 3)));
}

#[test]
fn nested_preemption_unwinds_in_order() {
    let mut d = dispatcher();
    d.post(0, 1).unwrap();
    d.dispatch();
    d.post(1, 2).unwrap();
    d.dispatch();
    d.post(2, 3).unwrap();
    assert_eq!(d.dispatch(), Some(event(2, 3)));
    assert_eq!(d.level(), Some(3));
    assert_eq!(d.complete(), Some(event(2, 3)));
    assert_eq!(d.level(), Some(2));
    assert_eq!(d.complete(), Some(event(1, 2)));
    assert_eq!(d.level(), Some(1));
    assert_eq!(d.complete(), Some(event(0, 1)));
    assert_eq!(d.level(), None);
}

#[test]
fn ceiling_is_highest_priority_of_the_tasks_that_declare() {
    let d = dispatcher();
    assert_eq!(d.ceiling(0), Some(2));
    assert_eq!(d.ceiling(1), Some(2));
    assert_eq!(d.ceiling(2), Some(3));
    assert_eq!(d.ceiling(3), None);
}

#[test]
fn held_resource_keeps_its_sharers_from_starting() {
    let mut d = dispatcher();
    d.post(0, 1).unwrap();
    d.dispatch();
    assert_eq!(d.lock(0), Ok(()));
    assert_eq!(d.level(), Some(2));
    // Task 1 shares resource 0: it waits although its priority is higher.
    d.post(1, 2).unwrap();
    assert_eq!(d.dispatch(), None);
    // Task 2 shares nothing with task 0 and is above the ceiling: it runs.
    d.post(2, 3).unwrap();
    assert_eq!(d.dispatch(), Some(event(2, 3)));
    assert_eq!(d.complete(), Some(event(2, 3)));
    assert_eq!(d.dispatch(), None);
    assert_eq!(d.unlock(), Some(0));
    assert_eq!(d.level(), Some(1));
    assert_eq!(d.dispatch(), Some(event(1, 2)));
}

#[test]
fn lock_needs_a_running_task_that_declared_the_resource() {
    let mut d = dispatcher();
    assert_eq!(d.lock(0), Err(LockError::Idle));
    d.post(0, 1).unwrap();
    d.dispatch();
    assert_eq!(d.lock(1), Err(LockError::NotDeclared));
    assert_eq!(d.lock(9), Err(LockError::NotDeclared));
    assert_eq!(d.level(), Some(1));
    assert_eq!(d.unlock(), None);
}

#[test]
fn unlock_gives_back_the_latest_lock_first() {
    let mut d = dispatcher();
    d.post(1, 1).unwrap();
    d.dispatch();
    d.lock(0).unwrap();
    d.lock(1).unwrap();
    assert_eq!(d.unlock(), Some(1));
    assert_eq!(d.unlock(), Some(0));
    assert_eq!(d.unlock(), None);
    assert_eq!(d.level(), Some(2));
}

#[test]
fn complete_drops_the_locks_of_the_task() {
    let mut d = dispatcher();
    d.post(0, 1).unwrap();
    d.dispatch();
    d.lock(0).unwrap();
    d.post(1, 2).unwrap();
    assert_eq!(d.dispatch(), None);
    assert_eq!(d.complete(), Some(event(0, 1)));
    assert_eq!(d.level(), None);
    assert_eq!(d.dispatch(), Some(event(1, 2)));
}

#[test]
fn row_without_a_capacity_gets_the_default() {
    let row = TaskConfig::new(2, vec![1, 3]);
    assert_eq!(DEFAULT_CAPACITY, 4);
    assert_eq!(row, TaskConfig { priority: 2, capacity: 4, resources: vec![1, 3] });
    let mut d = Dispatcher::<u8>::new(vec![row], 3).unwrap();
    for i in 0..4 {
        assert_eq!(d.post(0, i), Ok(()));
    }
    assert_eq!(d.post(0, 4), Err(PostError::QueueFull));
}
