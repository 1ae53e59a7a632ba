//! The guest module's instance and its two entrypoints.

use vstd::prelude::*;
use crate::decimal::{decimal, decimal_string};

verus! {

/// The two states of an instance.
pub enum Phase {
    /// The standard entrypoint has not run: `GLOBAL` is 0.
    Uninitialized,
    /// The standard entrypoint has run: `GLOBAL` is 2. No call leaves this
    /// state.
    Initialized,
}

/// A call that the host makes on an instance.
pub enum Call {
    /// The standard entrypoint, [`Instance::start`].
    Start,
    /// The exported callback, [`onBlockchainInit`].
    BlockchainInit,
}

impl Call {
    /// `GLOBAL` after this call, made while `GLOBAL` was `global`: the
    /// standard entrypoint stores 2, the callback only reads.
    pub open spec fn global_after(self, global: int) -> int {
        match self {
            Call::Start => 2,
            Call::BlockchainInit => global,
        }
    }

    /// The line that this call emits, made while `GLOBAL` was `global`.
    pub open spec fn line(self, global: int) -> Seq<char> {
        match self {
            Call::Start => "Hello, world!"@,
            Call::BlockchainInit => "Hello, world blockchain! "@ + decimal(global),
        }
    }
}

/// One instance of the guest module: the owner of `GLOBAL`.
///
/// Each instance has its own `GLOBAL`, so two instances never share state.
/// The field is private: only the standard entrypoint writes it.
pub struct Instance {
    global: i32,
}

impl View for Instance {
    type V = int;

    /// The value of `GLOBAL`.
    closed spec fn view(&self) -> int {
        self.global as int
    }
}

impl Instance {
    /// `GLOBAL` is 0 or 2, whatever calls the host has made.
    #[verifier::type_invariant]
    pub open spec fn wf(&self) -> bool {
        self@ == 0 || self@ == 2
    }

    /// The state that the instance is in.
    pub open spec fn phase(&self) -> Phase {
        if self@ == 2 {
            Phase::Initialized
        } else {
            Phase::Uninitialized
        }
    }

    /// Instantiates the module: `GLOBAL` starts at 0.
    pub fn new() -> (instance: Instance)
        ensures
            instance@ == 0,
            instance.phase() == Phase::Uninitialized,
    {
        Instance { global: 0 }
    }

    /// Reads `GLOBAL`.
    pub fn global(&self) -> (value: i32)
        ensures
            value == self@,
            self.wf(),
    {
        proof {
            use_type_invariant(self);
        }
        self.global
    }

    /// The standard entrypoint: stores 2 in `GLOBAL` and returns the
    /// greeting to print, `Hello, world!`. It may run in either state, and
    /// always leaves the instance initialized.
    pub fn start(&mut self) -> (line: String)
        ensures
            final(self)@ == Call::Start.global_after(old(self)@),
            final(self).phase() == Phase::Initialized,
            line@ == Call::Start.line(old(self)@),
    {
        self.global = 2;
        String::from_str("Hello, world!")
    }
}

/// The exported callback: returns the greeting to print, which is
/// `Hello, world blockchain! ` and the decimal text of `GLOBAL`. It only
/// reads the instance, so it may run any number of times, before or after
/// the standard entrypoint.
#[allow(non_snake_case)]
pub fn onBlockchainInit(instance: &Instance) -> (line: String)
    ensures
        line@ == Call::BlockchainInit.line(instance@),
        instance.phase() == Phase::Uninitialized ==> line@ == "Hello, world blockchain! 0"@,
        instance.phase() == Phase::Initialized ==> line@ == "Hello, world blockchain! 2"@,
{
    proof {
        use_type_invariant(instance);
        reveal_strlit("Hello, world blockchain! ");
        reveal_strlit("Hello, world blockchain! 0");
        reveal_strlit("Hello, world blockchain! 2");
    }
    let mut line = String::from_str("Hello, world blockchain! ");
    let value = decimal_string(instance.global);
    line.append(value.as_str());
    line
}

} // verus!
