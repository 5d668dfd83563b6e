use std::collections::HashMap;
use std::collections::VecDeque;
use vstd::prelude::*;

verus! {

broadcast use vstd::std_specs::hash::group_hash_axioms;

/// A raw file descriptor number.
pub type Fd = i32;

/// What the kernel answered to a request that adds a descriptor to the
/// readiness set.
pub enum AddOutcome {
    Added,
    AlreadyExists,
    Failed(i32),
}

/// How a registration goes on after the add request was answered.
#[derive(PartialEq, Eq, Structural, Debug, Clone, Copy)]
pub enum RegisterPath {
    /// The descriptor was added and is armed.
    Added,
    /// The descriptor was already in the set: it must now be re-armed with a
    /// modify request.
    Modify,
}

#[derive(PartialEq, Eq, Structural, Debug, Clone, Copy)]
pub enum ReactorError {
    /// The kernel refused the registration for a reason other than "already
    /// exists"; the event set can no longer be trusted.
    Fatal(i32),
    /// The descriptor was removed while it was not registered.
    NotRegistered(Fd),
}

/// A request handed to the reactor's background loop.
pub enum Command<W> {
    Register(u32, Fd, W),
    Unregister(Fd),
}

/// What the background loop does with one readiness event.
pub enum EventAction<W> {
    /// The notification descriptor fired: drain the command queue.
    DrainCommands,
    /// Invoke this wake callback, which has now been consumed.
    Wake(W),
    /// Nothing is armed on that descriptor.
    Ignore,
}

/// The state of one descriptor.
pub enum FdState<W> {
    Unregistered,
    Armed(W),
    Fired,
}

/// The descriptors in the kernel's readiness set, each mapped to its armed
/// wake callback (`Some`) or to `None` once its one-shot event has fired.
pub type InterestMap<W> = Map<Fd, Option<W>>;

pub open spec fn fd_state<W>(m: InterestMap<W>, fd: Fd) -> FdState<W> {
    if !m.contains_key(fd) {
        FdState::Unregistered
    } else {
        match m[fd] {
            Some(w) => FdState::Armed(w),
            None => FdState::Fired,
        }
    }
}

/// Registering stores the callback, overwriting any earlier one.
pub open spec fn register_spec<W>(m: InterestMap<W>, fd: Fd, w: W) -> InterestMap<W> {
    m.insert(fd, Some(w))
}

pub open spec fn unregister_spec<W>(m: InterestMap<W>, fd: Fd) -> InterestMap<W> {
    m.remove(fd)
}

/// The callback that a readiness event on `fd` invokes.
pub open spec fn fired_callback<W>(m: InterestMap<W>, fd: Fd) -> Option<W> {
    if m.contains_key(fd) {
        m[fd]
    } else {
        None
    }
}

/// The map after a readiness event on `fd`: an armed descriptor is disarmed.
pub open spec fn fire_spec<W>(m: InterestMap<W>, fd: Fd) -> InterestMap<W> {
    if m.contains_key(fd) {
        m.insert(fd, None)
    } else {
        m
    }
}

/// The answer a coherent kernel gives to an add request for `fd`.
pub open spec fn expected_add_path<W>(m: InterestMap<W>, fd: Fd) -> RegisterPath {
    if m.contains_key(fd) {
        RegisterPath::Modify
    } else {
        RegisterPath::Added
    }
}

/// Registering the same descriptor twice in a row keeps only the second
/// callback: the next readiness event invokes it, and nothing is left armed
/// for the first one to be invoked later.
pub proof fn lemma_reregister_overwrites<W>(m: InterestMap<W>, fd: Fd, w1: W, w2: W)
    ensures
        fired_callback(register_spec(register_spec(m, fd, w1), fd, w2), fd) == Some(w2),
        fired_callback(fire_spec(register_spec(register_spec(m, fd, w1), fd, w2), fd), fd)
            is None,
{
}

/// Registering a fresh descriptor and then removing it gives back the state
/// from before, so a second registration again takes the add path.
pub proof fn lemma_register_unregister_round_trip<W>(m: InterestMap<W>, fd: Fd, w: W)
    requires
        !m.contains_key(fd),
    ensures
        unregister_spec(register_spec(m, fd, w), fd) == m,
        expected_add_path(unregister_spec(register_spec(m, fd, w), fd), fd) == RegisterPath::Added,
{
    assert(unregister_spec(register_spec(m, fd, w), fd) =~= m);
}

/// One readiness event invokes an armed callback exactly once: a further
/// event on the same descriptor invokes nothing until it is registered again.
pub proof fn lemma_fire_is_one_shot<W>(m: InterestMap<W>, fd: Fd, other: Fd)
    ensures
        fired_callback(fire_spec(m, fd), fd) is None,
        m.contains_key(fd) ==> fd_state(fire_spec(m, fd), fd) is Fired,
        other != fd ==> fire_spec(m, fd).contains_key(other) == m.contains_key(other)
            && fired_callback(fire_spec(m, fd), other) == fired_callback(m, other),
{
}

/// Per-descriptor wake callbacks and the queue of pending commands.
pub struct Reactor<W> {
    interest: HashMap<Fd, Option<W>>,
    commands: VecDeque<Command<W>>,
}

impl<W> Reactor<W> {
    pub closed spec fn interest(&self) -> InterestMap<W> {
        self.interest@
    }

    pub closed spec fn commands(&self) -> Seq<Command<W>> {
        self.commands@
    }

    pub fn new() -> (r: Self)
        ensures
            r.interest() == Map::<Fd, Option<W>>::empty(),
            r.commands() == Seq::<Command<W>>::empty(),
    {
        Reactor { interest: HashMap::new(), commands: VecDeque::new() }
    }

    /// Queues a command for the background loop, behind those already queued.
    pub fn submit(&mut self, cmd: Command<W>)
        ensures
            final(self).commands() == old(self).commands().push(cmd),
            final(self).interest() == old(self).interest(),
    {
        self.commands.push_back(cmd);
    }

    /// Takes the oldest queued command.
    pub fn next_command(&mut self) -> (r: Option<Command<W>>)
        ensures
            final(self).interest() == old(self).interest(),
            old(self).commands().len() == 0 ==> r is None && final(self).commands() == old(self).commands(),
            old(self).commands().len() > 0 ==> r == Some(old(self).commands()[0])
                && final(self).commands() == old(self).commands().drop_first(),
    {
        self.commands.pop_front()
    }

    /// Whether `fd` is in the readiness set, that is, whether an add request
    /// for it will be answered with "already exists".
    pub fn is_registered(&self, fd: Fd) -> (r: bool)
        ensures
            r == self.interest().contains_key(fd),
            r == (expected_add_path(self.interest(), fd) == RegisterPath::Modify),
    {
        self.interest.contains_key(&fd)
    }

    /// Completes a registration of `w` on `fd` once the kernel has answered
    /// the add request: "already exists" means the descriptor must be
    /// re-armed with a modify request; any other failure is fatal.
    pub fn register(&mut self, fd: Fd, w: W, add: AddOutcome) -> (r: Result<RegisterPath, ReactorError>)
        ensures
            final(self).commands() == old(self).commands(),
            match add {
                AddOutcome::Added => r == Ok::<RegisterPath, ReactorError>(RegisterPath::Added)
                    && final(self).interest() == register_spec(old(self).interest(), fd, w),
                AddOutcome::AlreadyExists => r == Ok::<RegisterPath, ReactorError>(RegisterPath::Modify)
                    && final(self).interest() == register_spec(old(self).interest(), fd, w),
                AddOutcome::Failed(e) => r == Err::<RegisterPath, ReactorError>(ReactorError::Fatal(e))
                    && final(self).interest() == old(self).interest(),
            },
    {
        match add {
            AddOutcome::Added => {
                self.interest.insert(fd, Some(w));
                Ok(RegisterPath::Added)
            },
            AddOutcome::AlreadyExists => {
                self.interest.insert(fd, Some(w));
                Ok(RegisterPath::Modify)
            },
            AddOutcome::Failed(e) => Err(ReactorError::Fatal(e)),
        }
    }

    /// Removes `fd` and drops its pending callback; removing a descriptor that
    /// is not registered is an error.
    pub fn unregister(&mut self, fd: Fd) -> (r: Result<(), ReactorError>)
        ensures
            final(self).commands() == old(self).commands(),
            old(self).interest().contains_key(fd) ==> r is Ok
                && final(self).interest() == unregister_spec(old(self).interest(), fd),
            !old(self).interest().contains_key(fd) ==> r == Err::<(), ReactorError>(ReactorError::NotRegistered(fd))
                && final(self).interest() == old(self).interest(),
    {
        if self.interest.contains_key(&fd) {
            self.interest.remove(&fd);
            Ok(())
        } else {
            Err(ReactorError::NotRegistered(fd))
        }
    }

    /// Handles a readiness event on `fd`: hands out the armed callback, at most
    /// once, and leaves the descriptor disarmed until it is registered again.
    pub fn fire(&mut self, fd: Fd) -> (r: Option<W>)
        ensures
            final(self).commands() == old(self).commands(),
            r == fired_callback(old(self).interest(), fd),
            final(self).interest() == fire_spec(old(self).interest(), fd),
    {
        if self.interest.contains_key(&fd) {
            match self.interest.insert(fd, None) {
                Some(prev) => prev,
                None => None,
            }
        } else {
            None
        }
    }

    /// Decides what one event reported by the kernel's wait call leads to.
    pub fn on_event(&mut self, fd: Fd, notify_fd: Fd) -> (r: EventAction<W>)
        ensures
            final(self).commands() == old(self).commands(),
            fd == notify_fd ==> r is DrainCommands && final(self).interest() == old(self).interest(),
            fd != notify_fd ==> final(self).interest() == fire_spec(old(self).interest(), fd)
                && match fired_callback(old(self).interest(), fd) {
                    Some(w) => r == EventAction::Wake(w),
                    None => r is Ignore,
                },
    {
        if fd == notify_fd {
            EventAction::DrainCommands
        } else {
            match self.fire(fd) {
                Some(w) => EventAction::Wake(w),
                None => EventAction::Ignore,
            }
        }
    }
}

} // verus!
