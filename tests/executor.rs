use tiny_runtime::executor::{step_of_poll, Executor, SpawnError, Step, TaskStatus};
use tiny_runtime::hello::{run_hello_demo, Hello, HelloState};
use tiny_runtime::ready_queue::ReadyQueue;

#[test]
fn hello_demo_emits_three_lines() {
    assert_eq!(run_hello_demo(), vec!["Hello", "World", "FIN"]);
}

#[test]
fn hello_steps() {
    let mut h = Hello::new();
    let mut out = Vec::new();
    assert_eq!(h.resume(&mut out), Step::Yield);
    assert_eq!(h.state, HelloState::World);
    assert_eq!(h.resume(&mut out), Step::Yield);
    assert_eq!(h.resume(&mut out), Step::Done);
    assert_eq!(out, vec!["Hello", "World", "FIN"]);
}

#[test]
fn tasks_run_in_spawn_order() {
    let mut exec = Executor::new(8);
    let a = exec.spawn().unwrap();
    let b = exec.spawn().unwrap();
    assert_eq!((a, b), (0, 1));
    assert_eq!(exec.next(), Some(a));
    exec.complete(a, Step::Done);
    assert_eq!(exec.next(), Some(b));
    exec.complete(b, Step::Done);
    assert_eq!(exec.next(), None);
}

#[test]
fn spawn_beyond_capacity_fails() {
    let mut exec = Executor::new(3);
    for i in 0..3 {
        assert_eq!(exec.spawn(), Ok(i));
    }
    assert_eq!(exec.spawn(), Err(SpawnError::QueueFull));
    assert_eq!(exec.num_tasks(), 3);
    assert_eq!(exec.num_ready(), 3);
    // once a task has been taken off the queue there is room again
    assert_eq!(exec.next(), Some(0));
    assert_eq!(exec.spawn(), Ok(3));
}

#[test]
fn yield_goes_to_the_back_even_when_full() {
    let mut exec = Executor::new(2);
    let a = exec.spawn().unwrap();
    let b = exec.spawn().unwrap();
    assert_eq!(exec.next(), Some(a));
    let c = exec.spawn().unwrap();
    exec.complete(a, Step::Yield);
    assert_eq!(exec.num_ready(), 3);
    assert_eq!(exec.next(), Some(b));
    assert_eq!(exec.next(), Some(c));
    assert_eq!(exec.next(), Some(a));
}

#[test]
fn every_task_is_accounted_for() {
    let mut exec = Executor::new(8);
    let a = exec.spawn().unwrap();
    let b = exec.spawn().unwrap();
    let c = exec.spawn().unwrap();
    assert_eq!(exec.next(), Some(a));
    exec.complete(a, Step::Wait);
    assert_eq!(exec.next(), Some(b));
    exec.complete(b, Step::Done);
    assert_eq!(exec.status(a), Some(TaskStatus::Waiting));
    assert_eq!(exec.status(b), Some(TaskStatus::Terminal));
    assert_eq!(exec.status(c), Some(TaskStatus::Queued));
    assert!(!exec.wake(b));
    assert!(exec.wake(a));
    assert_eq!(exec.next(), Some(c));
    assert_eq!(exec.next(), Some(a));
    assert_eq!(exec.status(9), None);
}

#[test]
fn ready_queue_is_fifo_and_bounded() {
    let mut q = ReadyQueue::new(2);
    assert!(q.is_empty());
    assert!(q.push(1u32).is_ok());
    assert!(q.push(2).is_ok());
    assert!(q.is_full());
    match q.push(3) {
        Err(e) => assert_eq!(e.item, 3),
        Ok(()) => panic!("queue should be full"),
    }
    q.push_unbounded(4);
    assert_eq!(q.len(), 3);
    assert_eq!(q.capacity(), 2);
    assert_eq!(q.pop(), Some(1));
    assert_eq!(q.pop(), Some(2));
    assert_eq!(q.pop(), Some(4));
    assert_eq!(q.pop(), None);
}

#[test]
fn poll_results_map_to_steps() {
    assert_eq!(step_of_poll(true, true), Step::Done);
    assert_eq!(step_of_poll(true, false), Step::Done);
    assert_eq!(step_of_poll(false, true), Step::Yield);
    assert_eq!(step_of_poll(false, false), Step::Wait);
}
