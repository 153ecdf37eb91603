//! The state of a request whose answer comes later: nothing asked yet, waiting for
//! the answer, or the answer at hand.
use vstd::prelude::*;
use poll_promise::Promise;

verus! {

/// poll-promise's `Promise`, a value that a task delivers later, carried as an opaque value.
#[verifier::external_type_specification]
#[verifier::external_body]
#[verifier::reject_recursive_types(T)]
pub struct ExPromise<T: Send + 'static>(Promise<T>);

/// The state after `answer` comes to `state`: the answer where it was awaited and
/// has come, `state` as it was otherwise.
pub open spec fn received<T: Clone + Send + 'static>(state: State<T>, answer: Option<T>) -> State<T> {
    match answer {
        Some(result) => if state is Pending {
            State::Ready(result)
        } else {
            state
        },
        None => state,
    }
}

/// The state of a request.
#[verifier::reject_recursive_types(T)]
pub enum State<T> where T: Clone + Send + 'static {
    Ready(T),
    Pending(Promise<T>),
    Empty,
}

impl<T> Default for State<T> where T: Clone + Send + 'static {
    /// Nothing asked yet.
    fn default() -> (state: Self)
        ensures
            state is Empty,
    {
        State::Empty
    }
}

impl<T> State<T> where T: Clone + Send + 'static {
    /// Whether nothing has been asked.
    pub fn is_empty(&self) -> (b: bool)
        ensures
            b == (*self is Empty),
    {
        match self {
            State::Empty => true,
            _ => false,
        }
    }

    /// Whether the answer is awaited.
    pub fn is_pending(&self) -> (b: bool)
        ensures
            b == (*self is Pending),
    {
        match self {
            State::Pending(_) => true,
            _ => false,
        }
    }

    /// Whether the answer is at hand.
    pub fn is_ready(&self) -> (b: bool)
        ensures
            b == (*self is Ready),
    {
        match self {
            State::Ready(_) => true,
            _ => false,
        }
    }

    /// Forgets the request and its answer.
    pub fn clear(&mut self)
        ensures
            *final(self) is Empty,
    {
        *self = State::Empty
    }

    /// Takes (a clone of) the answer where it is at hand, and forgets it; otherwise
    /// gives `None` and leaves the state as it is.
    pub fn take_and_clear(&mut self) -> (answer: Option<T>)
        ensures
            *old(self) is Ready ==> {
                &&& answer is Some
                &&& cloned(old(self)->Ready_0, answer->Some_0)
                &&& *final(self) is Empty
            },
            !(*old(self) is Ready) ==> answer is None && *final(self) == *old(self),
    {
        let answer = match &*self {
            State::Ready(result) => Some(result.clone()),
            _ => None,
        };
        if answer.is_some() {
            *self = State::Empty;
        }
        answer
    }

    /// Starts a request where none is under way or answered: `spawn` is called, and the
    /// promise it gives is awaited. Returns whether it was started; otherwise `spawn`
    /// is not called and the state stays.
    pub fn use_future<F: FnOnce() -> Promise<T>>(&mut self, spawn: F) -> (started: bool)
        requires
            *old(self) is Empty ==> call_requires(spawn, ()),
        ensures
            started == (*old(self) is Empty),
            started ==> *final(self) is Pending && call_ensures(spawn, (), final(self)->Pending_0),
            !started ==> *final(self) == *old(self),
    {
        match self {
            State::Empty => {
                let promise = spawn();
                *self = State::Pending(promise);
                true
            },
            _ => false,
        }
    }

    /// Keeps `answer` where the answer is awaited and has come (`answer` is `Some`);
    /// otherwise the state stays.
    pub fn receive(&mut self, answer: Option<T>)
        ensures
            *final(self) == received(*old(self), answer),
    {
        match answer {
            Some(result) => {
                if self.is_pending() {
                    *self = State::Ready(result);
                }
            },
            None => {},
        }
    }
}

} // verus!
