//! A state machine whose soundness the type checker enforces: the
//! machine's type parameter is its current state, so only the
//! transition out of that state exists at all. The contracts add what
//! the types cannot say — exactly which text each transition appends.
use core::marker::PhantomData;
use vstd::prelude::*;
use vstd::string::StringExecFns;

verus! {

/// A state the machine can be in. Each state carries the text written
/// so far.
pub trait State {
    /// The text carried in this state.
    spec fn text(&self) -> Seq<char>;

    /// Reads the carried text.
    fn read(&self) -> (t: &String)
        ensures
            t@ == self.text(),
    ;
}

/// The first state; the cycle runs A, B, C and back to A.
pub struct A(String);

/// The second state.
pub struct B(String);

/// The third state.
pub struct C(String);

impl State for A {
    closed spec fn text(&self) -> Seq<char> {
        self.0@
    }

    fn read(&self) -> (t: &String) {
        &self.0
    }
}

impl State for B {
    closed spec fn text(&self) -> Seq<char> {
        self.0@
    }

    fn read(&self) -> (t: &String) {
        &self.0
    }
}

impl State for C {
    closed spec fn text(&self) -> Seq<char> {
        self.0@
    }

    fn read(&self) -> (t: &String) {
        &self.0
    }
}

/// A machine typed by its current state.
pub struct Machine<S: State> {
    state: S,
    _marker: PhantomData<S>,
}

impl<S: State> Machine<S> {
    /// The text the machine has written so far.
    pub closed spec fn text(&self) -> Seq<char> {
        self.state.text()
    }

    /// A fresh machine, in the first state, having written `"a"`.
    pub fn new() -> (m: Machine<A>)
        ensures
            m.text() == "a"@,
    {
        Machine { state: A(String::from_str("a")), _marker: PhantomData }
    }

    /// Reads the text written so far.
    pub fn state_text(&self) -> (t: &String)
        ensures
            t@ == self.text(),
    {
        self.state.read()
    }
}

impl Machine<A> {
    /// Steps from the first state to the second, appending `"b"`.
    pub fn next(self) -> (m: Machine<B>)
        ensures
            m.text() == self.text() + "b"@,
    {
        let b = B(self.state.0.concat("b"));
        Machine { state: b, _marker: PhantomData }
    }
}

impl Machine<B> {
    /// Steps from the second state to the third, appending `"c"`.
    pub fn next(self) -> (m: Machine<C>)
        ensures
            m.text() == self.text() + "c"@,
    {
        let c = C(self.state.0.concat("c"));
        Machine { state: c, _marker: PhantomData }
    }
}

impl Machine<C> {
    /// Steps from the third state back to the first, appending `"a"`.
    pub fn next(self) -> (m: Machine<A>)
        ensures
            m.text() == self.text() + "a"@,
    {
        let a = A(self.state.0.concat("a"));
        Machine { state: a, _marker: PhantomData }
    }
}

} // verus!
