use nix::errno::Errno;
use nix::sys::epoll::{
    epoll_create1, epoll_ctl, epoll_wait, EpollCreateFlags, EpollEvent, EpollFlags, EpollOp,
};
use nix::sys::eventfd::{eventfd, EfdFlags};
use nix::unistd::close;
use tiny_runtime::executor::{Executor, Step, TaskStatus};
use tiny_runtime::reactor::{AddOutcome, EventAction, Reactor, RegisterPath};

fn add_outcome(r: nix::Result<()>) -> AddOutcome {
    match r {
        Ok(()) => AddOutcome::Added,
        Err(Errno::EEXIST) => AddOutcome::AlreadyExists,
        Err(e) => AddOutcome::Failed(e as i32),
    }
}

#[test]
fn external_write_wakes_the_waiting_task_once() {
    let epfd = epoll_create1(EpollCreateFlags::empty()).unwrap();
    let notify = eventfd(0, EfdFlags::empty()).unwrap();
    let fd = eventfd(0, EfdFlags::empty()).unwrap();

    let mut exec = Executor::new(16);
    let mut reactor: Reactor<usize> = Reactor::new();
    let id = exec.spawn().unwrap();
    assert_eq!(exec.next(), Some(id));

    let mut ev = EpollEvent::new(EpollFlags::EPOLLIN | EpollFlags::EPOLLONESHOT, fd as u64);
    let outcome = add_outcome(epoll_ctl(epfd, EpollOp::EpollCtlAdd, fd, &mut ev));
    assert_eq!(reactor.register(fd, id, outcome), Ok(RegisterPath::Added));
    exec.complete(id, Step::Wait);
    assert_eq!(exec.status(id), Some(TaskStatus::Waiting));

    nix::unistd::write(fd, &1u64.to_ne_bytes()).unwrap();

    let mut events = vec![EpollEvent::empty(); 8];
    let n = epoll_wait(epfd, &mut events, 1000).unwrap();
    assert_eq!(n, 1);
    let mut wakes = 0;
    for e in &events[..n] {
        if let EventAction::Wake(t) = reactor.on_event(e.data() as i32, notify) {
            assert!(exec.wake(t));
            wakes += 1;
        }
    }
    assert_eq!(wakes, 1);
    assert_eq!(exec.num_ready(), 1);
    assert_eq!(exec.status(id), Some(TaskStatus::Queued));

    // still readable, but the one-shot registration is spent
    assert_eq!(epoll_wait(epfd, &mut events, 50).unwrap(), 0);
    assert!(matches!(reactor.on_event(fd, notify), EventAction::Ignore));

    // re-arming goes through the modify fallback
    let outcome = add_outcome(epoll_ctl(epfd, EpollOp::EpollCtlAdd, fd, &mut ev));
    assert_eq!(reactor.register(fd, id, outcome), Ok(RegisterPath::Modify));
    epoll_ctl(epfd, EpollOp::EpollCtlMod, fd, &mut ev).unwrap();
    assert_eq!(epoll_wait(epfd, &mut events, 1000).unwrap(), 1);

    close(fd).unwrap();
    close(notify).unwrap();
    close(epfd).unwrap();
}
