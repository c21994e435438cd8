//! A small pi-calculus: processes that send a name on a channel, receive a
//! name into a variable, or run side by side, and one step of evaluation in
//! which a send meets a receive on the same channel.
use vstd::prelude::*;

verus! {

/// A name: a channel, or what is sent on one.
#[derive(Clone, Copy, Debug, PartialEq, Eq, Structural)]
pub struct Chan(pub u64);

/// Something that is a name.
pub trait Name {
    spec fn id_spec(&self) -> u64;

    fn id(&self) -> (r: u64)
        ensures
            r == self.id_spec(),
    ;
}

/// Names that can be compared with names of type `T`.
pub trait Same<T: Name>: Name {
    fn same(&self, other: &T) -> (r: bool)
        ensures
            r == (self.id_spec() == other.id_spec()),
    ;
}

impl Name for Chan {
    open spec fn id_spec(&self) -> u64 {
        self.0
    }

    fn id(&self) -> (r: u64) {
        self.0
    }
}

impl Same<Chan> for Chan {
    fn same(&self, other: &Chan) -> (r: bool) {
        self.0 == other.0
    }
}

/// Sends `msg` on `chan`.
#[derive(Clone, Copy, Debug, PartialEq, Eq, Structural)]
pub struct Send {
    pub chan: Chan,
    pub msg: Chan,
}

/// Receives a name on `chan` into `var`, then runs `body`.
#[derive(Debug)]
pub struct Recv {
    pub chan: Chan,
    pub var: Chan,
    pub body: Box<Process>,
}

/// `left` and `right` side by side.
#[derive(Debug)]
pub struct Comm {
    pub left: Box<Process>,
    pub right: Box<Process>,
}

/// A process.
#[derive(Debug)]
pub enum Process {
    Nil,
    Send(Send),
    Recv(Recv),
    Comm(Comm),
}

/// `body` with the name `var` replaced by `value`.
#[derive(Debug)]
pub struct Bind {
    pub value: Chan,
    pub var: Chan,
    pub body: Process,
}

/// `c`, or `value` where `c` is `var`.
pub open spec fn rename(c: Chan, var: Chan, value: Chan) -> Chan {
    if c == var {
        value
    } else {
        c
    }
}

/// `p` with every occurrence of the name `var` replaced by `value`.
pub open spec fn subst(p: Process, var: Chan, value: Chan) -> Process
    decreases p,
{
    match p {
        Process::Nil => Process::Nil,
        Process::Send(s) => Process::Send(
            Send { chan: rename(s.chan, var, value), msg: rename(s.msg, var, value) },
        ),
        Process::Recv(r) => Process::Recv(
            Recv {
                chan: rename(r.chan, var, value),
                var: rename(r.var, var, value),
                body: Box::new(subst(*r.body, var, value)),
            },
        ),
        Process::Comm(c) => Process::Comm(
            Comm {
                left: Box::new(subst(*c.left, var, value)),
                right: Box::new(subst(*c.right, var, value)),
            },
        ),
    }
}

/// `Comm` of `l` and `r`.
pub open spec fn comm(l: Process, r: Process) -> Process {
    Process::Comm(Comm { left: Box::new(l), right: Box::new(r) })
}

/// One step of `s` side by side with `x`: with the empty process, the send
/// stands for itself and fails; with a receive on the same channel, the
/// receiver's body with the sent name bound; with a pair, a step with the
/// first of the pair that the send can step with, the other one kept beside
/// the result.
pub open spec fn send_with(s: Send, x: Process) -> (bool, Process)
    decreases x,
{
    match x {
        Process::Nil => (false, Process::Send(s)),
        Process::Recv(rv) => if s.chan == rv.chan {
            (true, subst(*rv.body, rv.var, s.msg))
        } else {
            (false, comm(Process::Send(s), x))
        },
        Process::Comm(inner) => {
            let first = send_with(s, *inner.left);
            if first.0 {
                (true, comm(first.1, *inner.right))
            } else {
                let second = send_with(s, *inner.right);
                if second.0 {
                    (true, comm(second.1, *inner.left))
                } else {
                    (false, comm(Process::Send(s), x))
                }
            }
        },
        Process::Send(_) => (false, comm(Process::Send(s), x)),
    }
}

/// One step of evaluation: whether it succeeded, and the process after it.
/// The empty process succeeds as itself; a lone send or receive fails. Side
/// by side with the empty process, a process stands for itself and succeeds
/// where it would. A send beside something steps as `send_with` says, and so
/// does a receive beside a send; any other pair fails and stays as it is.
pub open spec fn reduce(p: Process) -> (bool, Process)
    decreases p,
{
    match p {
        Process::Nil => (true, Process::Nil),
        Process::Send(_) => (false, p),
        Process::Recv(_) => (false, p),
        Process::Comm(c) => {
            let l = *c.left;
            let r = *c.right;
            if r is Nil {
                (reduce(l).0, l)
            } else {
                match l {
                    Process::Send(s) => send_with(s, r),
                    Process::Recv(rv) => match r {
                        Process::Send(s) => if s.chan == rv.chan {
                            (true, subst(*rv.body, rv.var, s.msg))
                        } else {
                            (false, p)
                        },
                        _ => (false, p),
                    },
                    _ => (false, p),
                }
            }
        },
    }
}

/// `p` with `var` replaced by `value`.
pub fn subst_exec(p: Process, var: Chan, value: Chan) -> (r: Process)
    ensures
        r == subst(p, var, value),
    decreases p,
{
    match p {
        Process::Nil => Process::Nil,
        Process::Send(s) => {
            let chan = if s.chan == var {
                value
            } else {
                s.chan
            };
            let msg = if s.msg == var {
                value
            } else {
                s.msg
            };
            Process::Send(Send { chan, msg })
        },
        Process::Recv(r) => {
            let chan = if r.chan == var {
                value
            } else {
                r.chan
            };
            let v = if r.var == var {
                value
            } else {
                r.var
            };
            let body = subst_exec(*r.body, var, value);
            Process::Recv(Recv { chan, var: v, body: Box::new(body) })
        },
        Process::Comm(c) => {
            let left = subst_exec(*c.left, var, value);
            let right = subst_exec(*c.right, var, value);
            Process::Comm(Comm { left: Box::new(left), right: Box::new(right) })
        },
    }
}

/// One step of `s` side by side with `x`.
pub fn send_with_exec(s: Send, x: Process) -> (r: (bool, Process))
    ensures
        r == send_with(s, x),
    decreases x,
{
    match x {
        Process::Nil => (false, Process::Send(s)),
        Process::Recv(rv) => {
            if s.chan == rv.chan {
                (true, subst_exec(*rv.body, rv.var, s.msg))
            } else {
                (false, Process::Comm(Comm { left: Box::new(Process::Send(s)), right: Box::new(Process::Recv(rv)) }))
            }
        },
        Process::Comm(inner) => {
            let ghost x0 = Process::Comm(inner);
            let il = *inner.left;
            let ir = *inner.right;
            let ghost il0 = il;
            let ghost ir0 = ir;
            let first = send_with_exec(s, il);
            if first.0 {
                (true, Process::Comm(Comm { left: Box::new(first.1), right: Box::new(ir) }))
            } else {
                let il = match first.1 {
                    Process::Comm(c2) => *c2.right,
                    _ => Process::Nil,
                };
                assert(il == il0);
                let second = send_with_exec(s, ir);
                if second.0 {
                    (true, Process::Comm(Comm { left: Box::new(second.1), right: Box::new(il) }))
                } else {
                    let ir = match second.1 {
                        Process::Comm(c2) => *c2.right,
                        _ => Process::Nil,
                    };
                    assert(ir == ir0);
                    let back = Process::Comm(Comm { left: Box::new(il), right: Box::new(ir) });
                    assert(back == x0);
                    (false, Process::Comm(Comm { left: Box::new(Process::Send(s)), right: Box::new(back) }))
                }
            }
        },
        Process::Send(t) => (false, Process::Comm(Comm { left: Box::new(Process::Send(s)), right: Box::new(Process::Send(t)) })),
    }
}

/// Processes that take a step of evaluation.
pub trait Eval: Sized {
    spec fn eval_spec(self) -> (bool, Process);

    fn eval(self) -> (r: (bool, Process))
        ensures
            r == self.eval_spec(),
    ;
}

/// Whether `s` beside `x` takes a step.
pub fn send_steps(s: &Send, x: &Process) -> (r: bool)
    ensures
        r == send_with(*s, *x).0,
    decreases x,
{
    match x {
        Process::Nil => false,
        Process::Recv(rv) => s.chan == rv.chan,
        Process::Comm(inner) => send_steps(s, &inner.left) || send_steps(s, &inner.right),
        Process::Send(_) => false,
    }
}

/// Whether `p` takes a step.
pub fn steps(p: &Process) -> (r: bool)
    ensures
        r == reduce(*p).0,
    decreases p,
{
    match p {
        Process::Nil => true,
        Process::Send(_) => false,
        Process::Recv(_) => false,
        Process::Comm(c) => match &*c.right {
            Process::Nil => steps(&c.left),
            r => match &*c.left {
                Process::Send(s) => send_steps(s, r),
                Process::Recv(rv) => match r {
                    Process::Send(s) => s.chan == rv.chan,
                    _ => false,
                },
                _ => false,
            },
        },
    }
}

/// One step of `p`.
pub fn reduce_exec(p: Process) -> (r: (bool, Process))
    ensures
        r == reduce(p),
    decreases p,
{
    match p {
        Process::Nil => (true, Process::Nil),
        Process::Send(s) => (false, Process::Send(s)),
        Process::Recv(r) => (false, Process::Recv(r)),
        Process::Comm(c) => {
            let l = *c.left;
            let r = *c.right;
            match r {
                Process::Nil => (steps(&l), l),
                _ => match l {
                    Process::Send(s) => send_with_exec(s, r),
                    Process::Recv(rv) => match r {
                        Process::Send(s) => {
                            if s.chan == rv.chan {
                                (true, subst_exec(*rv.body, rv.var, s.msg))
                            } else {
                                (false, Process::Comm(Comm { left: Box::new(Process::Recv(rv)), right: Box::new(Process::Send(s)) }))
                            }
                        },
                        _ => (false, Process::Comm(Comm { left: Box::new(Process::Recv(rv)), right: Box::new(r) })),
                    },
                    _ => (false, Process::Comm(Comm { left: Box::new(l), right: Box::new(r) })),
                },
            }
        },
    }
}

impl Eval for Process {
    open spec fn eval_spec(self) -> (bool, Process) {
        reduce(self)
    }

    fn eval(self) -> (r: (bool, Process)) {
        reduce_exec(self)
    }
}

impl Eval for Send {
    open spec fn eval_spec(self) -> (bool, Process) {
        reduce(Process::Send(self))
    }

    fn eval(self) -> (r: (bool, Process)) {
        (false, Process::Send(self))
    }
}

impl Eval for Comm {
    open spec fn eval_spec(self) -> (bool, Process) {
        reduce(Process::Comm(self))
    }

    fn eval(self) -> (r: (bool, Process)) {
        reduce_exec(Process::Comm(self))
    }
}

impl Eval for Bind {
    open spec fn eval_spec(self) -> (bool, Process) {
        (true, subst(self.body, self.var, self.value))
    }

    fn eval(self) -> (r: (bool, Process)) {
        (true, subst_exec(self.body, self.var, self.value))
    }
}

} // verus!
