//! The declarative grammar consumed by the parser.
//!
//! A grammar is data, not control flow: an ordered list of named rules,
//! each a parsing-expression over bytes.  The parser interprets this rule
//! set; swapping the rule set changes the accepted language without
//! touching the parser.
//!
//! Expressions follow PEG semantics: ordered choice (the first matching
//! alternative wins, order is significant), greedy repetition, and no
//! backtracking across a committed sequence.  A rule reference `Call(i)`
//! must point to a rule defined *after* the referring rule (a stratified
//! rule set); repetition is expressed through `Star`.  That discipline
//! keeps every match terminating on every input.

use vstd::prelude::*;

verus! {

/// A parsing expression over bytes.
pub enum Expr {
    /// Matches the empty string.
    Empty,
    /// Matches exactly the byte `b`.
    Byte(u8),
    /// Matches one byte in the inclusive range `lo ..= hi`.
    Range(u8, u8),
    /// Matches the first expression, then the second on the rest.
    Then(Box<Expr>, Box<Expr>),
    /// Ordered choice: the second alternative is tried only where the
    /// first fails.
    Or(Box<Expr>, Box<Expr>),
    /// Greedy repetition, zero or more times; never fails.
    Star(Box<Expr>),
    /// Reference to the rule at index `i`; a match produces a tree node
    /// unless that rule is silent.
    Call(usize),
    /// Matches only at the end of the input.
    Eoi,
}

/// One named rule of a grammar.
pub struct Rule {
    /// The rule's stable name, used in diagnostics.
    pub name: String,
    /// The expression the rule matches.
    pub expr: Expr,
    /// A silent rule contributes no node of its own to the syntax tree;
    /// its children are spliced into the parent (used for whitespace).
    pub silent: bool,
}

/// The matching-relevant part of a rule, as contracts see it.
pub struct SpecRule {
    pub expr: Expr,
    pub silent: bool,
}

/// A declarative rule set with a distinguished start rule.
pub struct Grammar {
    /// The rules, in definition order.
    pub rules: Vec<Rule>,
    /// Index of the entry rule.
    pub start: usize,
}

impl View for Grammar {
    type V = Seq<SpecRule>;

    /// The grammar as contracts see it: the rules' expressions and
    /// silence flags, in definition order.
    open spec fn view(&self) -> Seq<SpecRule> {
        Seq::new(
            self.rules@.len(),
            |i: int| SpecRule { expr: self.rules@[i].expr, silent: self.rules@[i].silent },
        )
    }
}

/// Whether every rule reference in `e` points past index `j` and into the
/// rule set of length `n`.  Matching the body of rule `j` then only ever
/// enters rules of strictly larger index, which bounds the call depth.
pub open spec fn calls_above(e: Expr, j: int, n: int) -> bool
    decreases e,
{
    match e {
        Expr::Empty => true,
        Expr::Byte(_) => true,
        Expr::Range(_, _) => true,
        Expr::Then(a, b) => calls_above(*a, j, n) && calls_above(*b, j, n),
        Expr::Or(a, b) => calls_above(*a, j, n) && calls_above(*b, j, n),
        Expr::Star(a) => calls_above(*a, j, n),
        Expr::Call(i) => j < i < n,
        Expr::Eoi => true,
    }
}

/// Well-formedness of a rule set: each rule only references rules defined
/// after it (the stratification that makes matching terminate).
pub open spec fn wf_rules(rules: Seq<SpecRule>) -> bool {
    forall|k: int|
        0 <= k < rules.len() ==> calls_above(#[trigger] rules[k].expr, k, rules.len() as int)
}

impl Grammar {
    /// Well-formedness: a stratified rule set with a valid start rule.
    pub open spec fn wf(&self) -> bool {
        &&& wf_rules(self@)
        &&& self.start < self.rules@.len()
    }
}

/// Index of the Vortex `file` rule.
pub open spec fn file_rule() -> int {
    0
}

/// Index of the Vortex `ident` rule.
pub open spec fn ident_rule() -> int {
    1
}

/// Index of the Vortex `ws` rule.
pub open spec fn ws_rule() -> int {
    2
}

/// A letter or an underscore.
pub open spec fn spec_alpha() -> Expr {
    Expr::Or(
        Box::new(Expr::Range(97, 122)),
        Box::new(Expr::Or(Box::new(Expr::Range(65, 90)), Box::new(Expr::Byte(95)))),
    )
}

/// A letter, an underscore, or a decimal digit.
pub open spec fn spec_alnum() -> Expr {
    Expr::Or(Box::new(spec_alpha()), Box::new(Expr::Range(48, 57)))
}

/// `ident`: a letter or underscore, then letters, underscores or digits.
pub open spec fn spec_ident_expr() -> Expr {
    Expr::Then(Box::new(spec_alpha()), Box::new(Expr::Star(Box::new(spec_alnum()))))
}

/// `ws`: any run of blanks, tabs, carriage returns and newlines.
pub open spec fn spec_ws_expr() -> Expr {
    Expr::Star(
        Box::new(
            Expr::Or(
                Box::new(Expr::Byte(32)),
                Box::new(
                    Expr::Or(
                        Box::new(Expr::Byte(9)),
                        Box::new(Expr::Or(Box::new(Expr::Byte(13)), Box::new(Expr::Byte(10)))),
                    ),
                ),
            ),
        ),
    )
}

/// `file`: leading whitespace, then identifiers separated by whitespace,
/// up to the end of the input.
pub open spec fn spec_file_expr() -> Expr {
    Expr::Then(
        Box::new(Expr::Call(ws_rule() as usize)),
        Box::new(
            Expr::Then(
                Box::new(
                    Expr::Star(
                        Box::new(
                            Expr::Then(
                                Box::new(Expr::Call(ident_rule() as usize)),
                                Box::new(Expr::Call(ws_rule() as usize)),
                            ),
                        ),
                    ),
                ),
                Box::new(Expr::Eoi),
            ),
        ),
    )
}

/// The bundled Vortex rule set, as contracts see it.
pub open spec fn spec_vortex_rules() -> Seq<SpecRule> {
    seq![
        SpecRule { expr: spec_file_expr(), silent: false },
        SpecRule { expr: spec_ident_expr(), silent: false },
        SpecRule { expr: spec_ws_expr(), silent: true },
    ]
}

/// Builds the letter-or-underscore expression.
fn alpha_expr() -> (e: Expr)
    ensures
        e == spec_alpha(),
{
    Expr::Or(
        Box::new(Expr::Range(97, 122)),
        Box::new(Expr::Or(Box::new(Expr::Range(65, 90)), Box::new(Expr::Byte(95)))),
    )
}

/// Builds the bundled Vortex grammar: `file` is the entry rule, `ident`
/// names one token, `ws` is silent whitespace.
pub fn vortex_grammar() -> (g: Grammar)
    ensures
        g@ =~= spec_vortex_rules(),
        g.start == file_rule(),
        g.wf(),
{
    let file = Expr::Then(
        Box::new(Expr::Call(2)),
        Box::new(
            Expr::Then(
                Box::new(
                    Expr::Star(
                        Box::new(Expr::Then(Box::new(Expr::Call(1)), Box::new(Expr::Call(2)))),
                    ),
                ),
                Box::new(Expr::Eoi),
            ),
        ),
    );
    let ident = Expr::Then(
        Box::new(alpha_expr()),
        Box::new(
            Expr::Star(Box::new(Expr::Or(Box::new(alpha_expr()), Box::new(Expr::Range(48, 57))))),
        ),
    );
    let ws = Expr::Star(
        Box::new(
            Expr::Or(
                Box::new(Expr::Byte(32)),
                Box::new(
                    Expr::Or(
                        Box::new(Expr::Byte(9)),
                        Box::new(Expr::Or(Box::new(Expr::Byte(13)), Box::new(Expr::Byte(10)))),
                    ),
                ),
            ),
        ),
    );
    let mut rules: Vec<Rule> = Vec::new();
    rules.push(Rule { name: "file".to_owned(), expr: file, silent: false });
    rules.push(Rule { name: "ident".to_owned(), expr: ident, silent: false });
    rules.push(Rule { name: "ws".to_owned(), expr: ws, silent: true });
    let g = Grammar { rules, start: 0 };
    proof {
        assert(g@ =~= spec_vortex_rules());
        assert forall|k: int| 0 <= k < g@.len() implies calls_above(
            #[trigger] g@[k].expr,
            k,
            g@.len() as int,
        ) by {
            reveal_with_fuel(calls_above, 12);
            assert(calls_above(spec_file_expr(), 0, 3));
            assert(calls_above(spec_ident_expr(), 1, 3));
            assert(calls_above(spec_ws_expr(), 2, 3));
        }
    }
    g
}

} // verus!
