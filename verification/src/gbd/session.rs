//! The debugger's command loop: which command runs next.
//!
//! The debugger runs the commands of a program in turn. When the program has
//! none left it prompts the user, and what comes back decides what happens
//! next: a new program is stored, and kept as the one to repeat; empty input
//! repeats the previous program; a request to quit ends the loop; a failed
//! prompt or parse forgets the previous program and makes the run fail.

use vstd::prelude::*;

verus! {

/// What the user's prompt gave.
pub enum Input<C> {
    /// A parsed program.
    Program(Vec<C>),
    /// No input.
    Empty,
    /// A request to quit.
    Quit,
    /// The prompt, or the parse of its input, failed.
    Failed,
}

/// What the debugger does next.
pub enum Next<C> {
    /// Executes the command.
    Exec(C),
    /// Prompts the user for a program.
    Prompt,
    /// Stops debugging: the user asked to quit.
    Quit,
    /// Stops debugging with an error: a command could not be fetched or
    /// parsed.
    Fail,
}

/// Model of a session: the commands left of the current program, and the
/// program to repeat on empty input.
pub struct SessionView<C> {
    /// What is left of the current program, if there is one.
    pub prog: Option<Seq<C>>,
    /// The program to repeat, if there is one.
    pub prev: Option<Seq<C>>,
}

/// Whether `b` is a copy of `a`: command by command, each a clone.
pub open spec fn copied<C: Clone>(a: Seq<C>, b: Seq<C>) -> bool {
    a.len() == b.len() && forall|i: int| 0 <= i < a.len() ==> cloned(a[i], #[trigger] b[i])
}

/// The programs of an interactive debugging session.
pub struct Session<C> {
    prog: Option<Vec<C>>,
    prev: Option<Vec<C>>,
}

impl<C> View for Session<C> {
    type V = SessionView<C>;

    closed spec fn view(&self) -> SessionView<C> {
        SessionView {
            prog: match self.prog {
                Some(p) => Some(p@),
                None => None,
            },
            prev: match self.prev {
                Some(p) => Some(p@),
                None => None,
            },
        }
    }
}

/// A copy of a program.
fn copy_program<C: Clone>(p: &Vec<C>) -> (r: Vec<C>)
    ensures
        copied(p@, r@),
{
    let r = p.clone();
    assert forall|i: int| 0 <= i < p@.len() implies cloned(p@[i], #[trigger] r@[i]) by {
        assert(cloned(p[i], r[i]));
    }
    r
}

impl<C: Clone> Session<C> {
    /// A session without a program.
    pub fn new() -> (r: Self)
        ensures
            r@.prog is None,
            r@.prev is None,
    {
        Session { prog: None, prev: None }
    }

    /// Fetches the next command of the program: takes it from the front.
    pub fn fetch(&mut self) -> (r: Option<C>)
        ensures
            match old(self)@.prog {
                Some(p) => if p.len() > 0 {
                    r == Some(p[0]) && final(self)@ == (SessionView {
                        prog: Some(p.drop_first()),
                        ..old(self)@
                    })
                } else {
                    r is None && final(self)@ == old(self)@
                },
                None => r is None && final(self)@ == old(self)@,
            },
    {
        match self.prog.take() {
            Some(mut p) => {
                if p.len() > 0 {
                    let c = p.remove(0);
                    proof {
                        assert(p@ =~= old(self)@.prog->Some_0.drop_first());
                    }
                    self.prog = Some(p);
                    Some(c)
                } else {
                    self.prog = Some(p);
                    None
                }
            },
            None => None,
        }
    }

    /// Takes what the prompt gave, and decides what comes next.
    ///
    /// A program with commands becomes the current program, a copy of it is
    /// kept to repeat, and its first command runs. Empty input, or a program
    /// without commands, makes a copy of the previous program current and
    /// runs its first command, or prompts again where there is none. A
    /// request to quit, or a failure, forgets the previous program; the
    /// first stops the run, the second makes it fail.
    pub fn input(&mut self, i: Input<C>) -> (r: Next<C>)
        ensures
            match i {
                Input::Program(p) if p@.len() > 0 => r == Next::Exec(p@[0]) && final(self)@.prog
                    == Some(p@.drop_first()) && (final(self)@.prev matches Some(q) && copied(p@, q)),
                Input::Quit => r is Quit && final(self)@ == (SessionView {
                    prev: None,
                    ..old(self)@
                }),
                Input::Failed => r is Fail && final(self)@ == (SessionView {
                    prev: None,
                    ..old(self)@
                }),
                _ => final(self)@.prev == old(self)@.prev && match old(self)@.prev {
                    Some(q) => if q.len() > 0 {
                        (r matches Next::Exec(c) && cloned(q[0], c)) && (final(self)@.prog matches Some(
                            t,
                        ) && copied(q.drop_first(), t))
                    } else {
                        r is Prompt && (final(self)@.prog matches Some(t) && t.len() == 0)
                    },
                    None => r is Prompt && final(self)@.prog is None,
                },
            },
    {
        match i {
            Input::Program(p) if p.len() > 0 => {
                let q = copy_program(&p);
                self.prev = Some(q);
                self.prog = Some(p);
                match self.fetch() {
                    Some(c) => Next::Exec(c),
                    None => Next::Prompt,
                }
            },
            Input::Quit => {
                self.prev = None;
                Next::Quit
            },
            Input::Failed => {
                self.prev = None;
                Next::Fail
            },
            _ => {
                self.prog = match &self.prev {
                    Some(q) => Some(copy_program(q)),
                    None => None,
                };
                let ghost copy = self@.prog;
                let r = match self.fetch() {
                    Some(c) => Next::Exec(c),
                    None => Next::Prompt,
                };
                proof {
                    if let Some(q) = old(self)@.prev {
                        if q.len() > 0 {
                            let t = copy->Some_0;
                            assert(cloned(q[0], t[0]));
                            assert forall|k: int| 0 <= k < q.len() - 1 implies cloned(
                                q.drop_first()[k],
                                #[trigger] t.drop_first()[k],
                            ) by {
                                assert(cloned(q[k + 1], t[k + 1]));
                            }
                        }
                    }
                }
                r
            },
        }
    }
}

} // verus!
