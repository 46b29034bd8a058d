//! Human-readable rendering of terms, with parentheses around every
//! compound sub-term. Error descriptors carry terms rendered this way.

use vstd::prelude::*;
use vstd::string::StringExecFns;

use crate::{Exp, ExpV};

verus! {

/// The decimal digit character for `d`.
pub open spec fn spec_digit(d: nat) -> char {
    if d == 0 {
        '0'
    } else if d == 1 {
        '1'
    } else if d == 2 {
        '2'
    } else if d == 3 {
        '3'
    } else if d == 4 {
        '4'
    } else if d == 5 {
        '5'
    } else if d == 6 {
        '6'
    } else if d == 7 {
        '7'
    } else if d == 8 {
        '8'
    } else {
        '9'
    }
}

/// The decimal digit sequence of `n`, most significant digit first.
pub open spec fn spec_nat_digits(n: nat) -> Seq<char>
    decreases n,
{
    if n < 10 {
        seq![spec_digit(n)]
    } else {
        spec_nat_digits(n / 10).push(spec_digit(n % 10))
    }
}

fn digit_str(d: u32) -> (r: &'static str)
    requires
        d < 10,
    ensures
        r@ == seq![spec_digit(d as nat)],
{
    proof {
        reveal_strlit("0");
        reveal_strlit("1");
        reveal_strlit("2");
        reveal_strlit("3");
        reveal_strlit("4");
        reveal_strlit("5");
        reveal_strlit("6");
        reveal_strlit("7");
        reveal_strlit("8");
        reveal_strlit("9");
    }
    let r = match d {
        0 => "0",
        1 => "1",
        2 => "2",
        3 => "3",
        4 => "4",
        5 => "5",
        6 => "6",
        7 => "7",
        8 => "8",
        _ => "9",
    };
    proof {
        assert(r@ =~= seq![spec_digit(d as nat)]);
    }
    r
}

/// The decimal rendering of `n`.
pub fn render_nat(n: u32) -> (r: String)
    ensures
        r@ == spec_nat_digits(n as nat),
    decreases n,
{
    if n < 10 {
        digit_str(n).to_owned()
    } else {
        let mut s = render_nat(n / 10);
        s.append(digit_str(n % 10));
        proof {
            assert(s@ =~= spec_nat_digits(n as nat));
        }
        s
    }
}

/// The rendering of a term: identifiers stand for variables; every compound
/// sub-term is parenthesised.
pub open spec fn spec_render(e: ExpV) -> Seq<char>
    decreases e,
{
    match e {
        ExpV::Var(v) => v,
        ExpV::Lambda(a, _, b) => "λ"@ + a + ". "@ + spec_render(*b),
        ExpV::App(t1, t2) => "("@ + spec_render(*t1) + ") ("@ + spec_render(*t2) + ")"@,
        ExpV::Cond(c, t, f) => "if ("@ + spec_render(*c) + ") then ("@ + spec_render(*t)
            + ") else ("@ + spec_render(*f) + ")"@,
        ExpV::True => "true"@,
        ExpV::False => "false"@,
        ExpV::Nat(n) => spec_nat_digits(n),
        ExpV::IsZero(e1) => "is_zero ("@ + spec_render(*e1) + ")"@,
        ExpV::Incr(e1) => "incr ("@ + spec_render(*e1) + ")"@,
        ExpV::Decr(e1) => "decr ("@ + spec_render(*e1) + ")"@,
        ExpV::Add(t1, t2) => "("@ + spec_render(*t1) + ") + ("@ + spec_render(*t2) + ")"@,
    }
}

impl Exp {
    /// This term rendered as human-readable syntax.
    pub fn render(&self) -> (r: String)
        ensures
            r@ == spec_render(self@),
        decreases self,
    {
        match self {
            Exp::Var(v) => v.clone(),
            Exp::Lambda(l) => {
                let mut s = "λ".to_owned();
                s.append(l.arg.as_str());
                s.append(". ");
                let b = l.exp.render();
                s.append(b.as_str());
                proof {
                    assert(s@ =~= spec_render(self@));
                }
                s
            },
            Exp::App(a) => {
                let mut s = "(".to_owned();
                let r1 = a.t1.render();
                s.append(r1.as_str());
                s.append(") (");
                let r2 = a.t2.render();
                s.append(r2.as_str());
                s.append(")");
                proof {
                    assert(s@ =~= spec_render(self@));
                }
                s
            },
            Exp::Cond(c) => {
                let mut s = "if (".to_owned();
                let rc = c.guard.render();
                s.append(rc.as_str());
                s.append(") then (");
                let rt = c.thn.render();
                s.append(rt.as_str());
                s.append(") else (");
                let rf = c.els.render();
                s.append(rf.as_str());
                s.append(")");
                proof {
                    assert(s@ =~= spec_render(self@));
                }
                s
            },
            Exp::True => "true".to_owned(),
            Exp::False => "false".to_owned(),
            Exp::Nat(n) => render_nat(*n),
            Exp::IsZero(e1) => {
                let mut s = "is_zero (".to_owned();
                let r1 = e1.render();
                s.append(r1.as_str());
                s.append(")");
                proof {
                    assert(s@ =~= spec_render(self@));
                }
                s
            },
            Exp::Incr(e1) => {
                let mut s = "incr (".to_owned();
                let r1 = e1.render();
                s.append(r1.as_str());
                s.append(")");
                proof {
                    assert(s@ =~= spec_render(self@));
                }
                s
            },
            Exp::Decr(e1) => {
                let mut s = "decr (".to_owned();
                let r1 = e1.render();
                s.append(r1.as_str());
                s.append(")");
                proof {
                    assert(s@ =~= spec_render(self@));
                }
                s
            },
            Exp::Add(a) => {
                let mut s = "(".to_owned();
                let r1 = a.t1.render();
                s.append(r1.as_str());
                s.append(") + (");
                let r2 = a.t2.render();
                s.append(r2.as_str());
                s.append(")");
                proof {
                    assert(s@ =~= spec_render(self@));
                }
                s
            },
        }
    }
}

} // verus!
