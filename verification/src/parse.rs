//! The grammar-driven parser.
//!
//! `parse` matches source text against the bundled Vortex grammar's `file`
//! rule and materializes a syntax tree: one node per matched (non-silent)
//! grammar rule, with child nodes for matched sub-rules, in source order.
//! On a mismatch it returns a `ParseError` value carrying the first point
//! of failure (byte, line, column) and the terminal alternatives that were
//! expected there.  Parsing is a pure function of the input text and the
//! grammar; failure is a routine outcome, never a process abort.

use crate::grammar::calls_above;
use crate::grammar::file_rule;
use crate::grammar::vortex_grammar;
use crate::grammar::wf_rules;
use crate::grammar::Expr;
use crate::grammar::Grammar;
use crate::grammar::SpecRule;
use crate::decimal::spec_decimal;
use crate::decimal::u64_decimal;
use crate::decimal::u128_decimal;
use vstd::string::StringExecFns;
use vstd::prelude::*;

verus! {

broadcast use vstd::std_specs::vec::axiom_vec_index_decreases, vstd::seq::group_seq_axioms;

/// The structured output of a successful parse: a tagged node carrying the
/// index of the grammar rule it was produced by, and the nodes of the
/// sub-rules matched inside it, in source order.
#[derive(Debug)]
pub enum SyntaxTree {
    Node(usize, Vec<SyntaxTree>),
}

/// The mathematical shape of a syntax tree: a rule tag and the ordered
/// child shapes.
#[verifier::ext_equal]
pub struct SpecTree {
    pub kind: nat,
    pub children: Seq<SpecTree>,
}

/// The mathematical shape of a syntax tree node: its rule tag, and the
/// shapes of its children, in order.
pub open spec fn tree_view(t: SyntaxTree) -> SpecTree
    decreases t,
{
    match t {
        SyntaxTree::Node(kind, children) => SpecTree {
            kind: kind as nat,
            children: Seq::new(
                children@.len(),
                |i: int|
                    if 0 <= i < children@.len() {
                        tree_view(children[i])
                    } else {
                        SpecTree { kind: 0, children: Seq::empty() }
                    },
            ),
        },
    }
}

/// The shapes of a sequence of trees, in order.
pub open spec fn trees_view(ts: Seq<SyntaxTree>) -> Seq<SpecTree> {
    Seq::new(ts.len(), |i: int| tree_view(ts[i]))
}

impl View for SyntaxTree {
    type V = SpecTree;

    open spec fn view(&self) -> SpecTree {
        tree_view(*self)
    }
}

impl SyntaxTree {
    /// The index of the grammar rule this node was produced by.
    pub fn kind(&self) -> (k: usize)
        ensures
            k as nat == self@.kind,
    {
        match self {
            SyntaxTree::Node(kind, _) => *kind,
        }
    }

    /// The ordered child nodes.
    pub fn children(&self) -> (c: &Vec<SyntaxTree>)
        ensures
            c@.len() == self@.children.len(),
            forall|i: int| 0 <= i < c@.len() ==> (#[trigger] c@[i])@ == self@.children[i],
    {
        match self {
            SyntaxTree::Node(_, children) => children,
        }
    }
}

/// One terminal alternative the matcher would have accepted at the point
/// of failure.
#[derive(Clone, Copy, PartialEq, Eq, Structural, Debug)]
pub enum Expected {
    /// Exactly this byte.
    Byte(u8),
    /// A byte in this inclusive range.
    Range(u8, u8),
    /// The end of the input.
    EndOfInput,
}

/// A failure candidate: the furthest position at which some alternative
/// was tried and refused, and the terminals acceptable there.
#[verifier::ext_equal]
pub struct Fail {
    pub at: nat,
    pub expected: Seq<Expected>,
}

/// The failure that lies further along wins; on a tie the expected sets
/// are joined, in the order the alternatives were tried.
pub open spec fn spec_merge(f1: Fail, f2: Fail) -> Fail {
    if f1.at > f2.at {
        f1
    } else if f2.at > f1.at {
        f2
    } else {
        Fail { at: f1.at, expected: f1.expected + f2.expected }
    }
}

/// Merge of two optional failure candidates.
pub open spec fn spec_merge_far(a: Option<Fail>, b: Option<Fail>) -> Option<Fail> {
    match (a, b) {
        (Option::None, Option::None) => Option::None,
        (Option::Some(f1), Option::None) => Option::Some(f1),
        (Option::None, Option::Some(f2)) => Option::Some(f2),
        (Option::Some(f1), Option::Some(f2)) => Option::Some(spec_merge(f1, f2)),
    }
}

/// Merge of a definite failure with an earlier optional candidate.
pub open spec fn spec_merge_fail(far: Option<Fail>, f: Fail) -> Fail {
    match far {
        Option::None => f,
        Option::Some(f1) => spec_merge(f1, f),
    }
}

/// The outcome of matching one expression at one position, as contracts
/// see it.  A match carries the position after it, the tree nodes it
/// produced, and the furthest failure candidate seen on the way (the
/// greedy attempt that ended a repetition, or a rejected alternative);
/// a failure carries the furthest failure candidate itself.
#[verifier::ext_equal]
pub enum MatchOut {
    Matched { end: nat, trees: Seq<SpecTree>, far: Option<Fail> },
    Failed { fail: Fail },
}

/// An executable failure candidate.
#[derive(Debug)]
pub struct FailInfo {
    /// Furthest position tried and refused.
    pub at: usize,
    /// The terminals acceptable there.
    pub expected: Vec<Expected>,
}

/// A `FailInfo` as contracts see it.
pub open spec fn fail_view(f: FailInfo) -> Fail {
    Fail { at: f.at as nat, expected: f.expected@ }
}

/// An optional `FailInfo` as contracts see it.
pub open spec fn far_view(o: Option<FailInfo>) -> Option<Fail> {
    match o {
        Option::None => Option::None,
        Option::Some(f) => Option::Some(fail_view(f)),
    }
}

/// The outcome of matching one expression at one position.
pub enum MatchResult {
    /// Position after the match, the tree nodes produced, and the
    /// furthest failure candidate seen on the way.
    Matched(usize, Vec<SyntaxTree>, Option<FailInfo>),
    /// The furthest failure candidate.
    Failed(FailInfo),
}

/// A `MatchResult` as contracts see it.
pub open spec fn result_view(r: MatchResult) -> MatchOut {
    match r {
        MatchResult::Matched(end, ts, far) => MatchOut::Matched {
            end: end as nat,
            trees: trees_view(ts@),
            far: far_view(far),
        },
        MatchResult::Failed(f) => MatchOut::Failed { fail: fail_view(f) },
    }
}

/// Merges two executable failure candidates, as `spec_merge` describes.
fn merge_fail(f1: FailInfo, f2: FailInfo) -> (r: FailInfo)
    ensures
        fail_view(r) == spec_merge(fail_view(f1), fail_view(f2)),
{
    if f1.at > f2.at {
        f1
    } else if f2.at > f1.at {
        f2
    } else {
        let mut joined = f1;
        let mut rest = f2;
        joined.expected.append(&mut rest.expected);
        joined
    }
}

/// Merges two optional candidates, as `spec_merge_far` describes.
fn merge_far(a: Option<FailInfo>, b: Option<FailInfo>) -> (r: Option<FailInfo>)
    ensures
        far_view(r) == spec_merge_far(far_view(a), far_view(b)),
{
    match (a, b) {
        (None, None) => None,
        (Some(f1), None) => Some(f1),
        (None, Some(f2)) => Some(f2),
        (Some(f1), Some(f2)) => Some(merge_fail(f1, f2)),
    }
}

/// Merges a definite failure with an earlier optional candidate, as
/// `spec_merge_fail` describes.
fn merge_fail_after(far: Option<FailInfo>, f: FailInfo) -> (r: FailInfo)
    ensures
        fail_view(r) == spec_merge_fail(far_view(far), fail_view(f)),
{
    match far {
        None => f,
        Some(f1) => merge_fail(f1, f),
    }
}

/// PEG matching of the expression `e` (a sub-expression of the rule at
/// index `j`; `-1` stands for the caller of the start rule) against
/// `input` at `pos`.  Ordered choice takes the first alternative that
/// matches; repetition is greedy and stops as soon as an iteration
/// consumes nothing; a non-silent rule match wraps its sub-trees in one
/// new node.  Every outcome carries the furthest failure candidate seen
/// on the way, merged by `spec_merge`, so a diagnostic can name every
/// alternative refused at the first point the matcher could not get
/// past; a silent rule contributes neither nodes nor expectations.
pub open spec fn spec_match(
    rules: Seq<SpecRule>,
    j: int,
    e: Expr,
    input: Seq<u8>,
    pos: nat,
) -> MatchOut
    decreases input.len() - pos, rules.len() - j, e,
    when pos <= input.len() && wf_rules(rules) && calls_above(e, j, rules.len() as int)
{
    match e {
        Expr::Empty => MatchOut::Matched { end: pos, trees: seq![], far: None },
        Expr::Byte(b) => if pos < input.len() && input[pos as int] == b {
            MatchOut::Matched { end: pos + 1, trees: seq![], far: None }
        } else {
            MatchOut::Failed { fail: Fail { at: pos, expected: seq![Expected::Byte(b)] } }
        },
        Expr::Range(lo, hi) => if pos < input.len() && lo <= input[pos as int] && input[pos as int]
            <= hi {
            MatchOut::Matched { end: pos + 1, trees: seq![], far: None }
        } else {
            MatchOut::Failed { fail: Fail { at: pos, expected: seq![Expected::Range(lo, hi)] } }
        },
        Expr::Eoi => if pos == input.len() {
            MatchOut::Matched { end: pos, trees: seq![], far: None }
        } else {
            MatchOut::Failed { fail: Fail { at: pos, expected: seq![Expected::EndOfInput] } }
        },
        Expr::Then(a, b) => match spec_match(rules, j, *a, input, pos) {
            MatchOut::Failed { fail } => MatchOut::Failed { fail },
            MatchOut::Matched { end: p1, trees: t1, far: far1 } => {
                if pos <= p1 <= input.len() {
                    match spec_match(rules, j, *b, input, p1) {
                        MatchOut::Failed { fail } => MatchOut::Failed {
                            fail: spec_merge_fail(far1, fail),
                        },
                        MatchOut::Matched { end: p2, trees: t2, far: far2 } => MatchOut::Matched {
                            end: p2,
                            trees: t1 + t2,
                            far: spec_merge_far(far1, far2),
                        },
                    }
                } else {
                    MatchOut::Failed { fail: Fail { at: pos, expected: seq![] } }
                }
            },
        },
        Expr::Or(a, b) => match spec_match(rules, j, *a, input, pos) {
            MatchOut::Matched { end, trees, far } => MatchOut::Matched { end, trees, far },
            MatchOut::Failed { fail: f1 } => {
                match spec_match(rules, j, *b, input, pos) {
                    MatchOut::Matched { end, trees, far } => MatchOut::Matched {
                        end,
                        trees,
                        far: spec_merge_far(Some(f1), far),
                    },
                    MatchOut::Failed { fail: f2 } => MatchOut::Failed {
                        fail: spec_merge(f1, f2),
                    },
                }
            },
        },
        Expr::Star(a) => match spec_match(rules, j, *a, input, pos) {
            MatchOut::Failed { fail } => MatchOut::Matched {
                end: pos,
                trees: seq![],
                far: Some(fail),
            },
            MatchOut::Matched { end: p1, trees: t1, far: far1 } => {
                if pos < p1 <= input.len() {
                    match spec_match(rules, j, Expr::Star(a), input, p1) {
                        MatchOut::Matched { end: p2, trees: t2, far: far2 } => MatchOut::Matched {
                            end: p2,
                            trees: t1 + t2,
                            far: spec_merge_far(far1, far2),
                        },
                        MatchOut::Failed { .. } => MatchOut::Matched {
                            end: p1,
                            trees: t1,
                            far: far1,
                        },
                    }
                } else {
                    MatchOut::Matched { end: pos, trees: t1, far: far1 }
                }
            },
        },
        Expr::Call(i) => match spec_match(rules, i as int, rules[i as int].expr, input, pos) {
            MatchOut::Failed { fail } => MatchOut::Failed { fail },
            MatchOut::Matched { end, trees, far } => {
                if rules[i as int].silent {
                    MatchOut::Matched { end, trees, far: None }
                } else {
                    MatchOut::Matched {
                        end,
                        trees: seq![SpecTree { kind: i as nat, children: trees }],
                        far,
                    }
                }
            },
        },
    }
}

/// Matching never leaves the input: a match's end, its failure
/// candidate, and a definite failure all lie between the starting
/// position and the end of the input.
pub proof fn lemma_match_bounds(rules: Seq<SpecRule>, j: int, e: Expr, input: Seq<u8>, pos: nat)
    requires
        pos <= input.len(),
        wf_rules(rules),
        calls_above(e, j, rules.len() as int),
    ensures
        match spec_match(rules, j, e, input, pos) {
            MatchOut::Matched { end, far, .. } => pos <= end <= input.len() && match far {
                Option::None => true,
                Option::Some(f) => pos <= f.at <= input.len(),
            },
            MatchOut::Failed { fail } => pos <= fail.at <= input.len(),
        },
    decreases input.len() - pos, rules.len() - j, e,
{
    match e {
        Expr::Empty => {},
        Expr::Byte(_) => {},
        Expr::Range(_, _) => {},
        Expr::Eoi => {},
        Expr::Then(a, b) => {
            lemma_match_bounds(rules, j, *a, input, pos);
            match spec_match(rules, j, *a, input, pos) {
                MatchOut::Matched { end: p1, .. } => {
                    lemma_match_bounds(rules, j, *b, input, p1);
                },
                MatchOut::Failed { .. } => {},
            }
        },
        Expr::Or(a, b) => {
            lemma_match_bounds(rules, j, *a, input, pos);
            lemma_match_bounds(rules, j, *b, input, pos);
        },
        Expr::Star(a) => {
            lemma_match_bounds(rules, j, *a, input, pos);
            match spec_match(rules, j, *a, input, pos) {
                MatchOut::Matched { end: p1, .. } => {
                    if pos < p1 <= input.len() {
                        lemma_match_bounds(rules, j, Expr::Star(a), input, p1);
                    }
                },
                MatchOut::Failed { .. } => {},
            }
        },
        Expr::Call(i) => {
            lemma_match_bounds(rules, i as int, rules[i as int].expr, input, pos);
        },
    }
}

/// The shapes of concatenated tree sequences are the concatenated shapes.
proof fn lemma_trees_view_concat(a: Seq<SyntaxTree>, b: Seq<SyntaxTree>)
    ensures
        trees_view(a + b) == trees_view(a) + trees_view(b),
{
    assert(trees_view(a + b) =~= trees_view(a) + trees_view(b));
}

/// Interprets the expression `e` of the grammar `g` on `input` at `pos`,
/// exactly as `spec_match` describes.
pub fn match_expr(
    g: &Grammar,
    e: &Expr,
    input: &Vec<u8>,
    pos: usize,
    Ghost(j): Ghost<int>,
) -> (r: MatchResult)
    requires
        g.wf(),
        pos <= input@.len(),
        calls_above(*e, j, g@.len() as int),
    ensures
        result_view(r) == spec_match(g@, j, *e, input@, pos as nat),
    decreases input@.len() - pos, g@.len() - j, *e,
{
    let ghost out = spec_match(g@, j, *e, input@, pos as nat);
    match e {
        Expr::Empty => {
            let r = MatchResult::Matched(pos, Vec::new(), None);
            proof {
                assert(result_view(r) =~= out);
            }
            r
        },
        Expr::Byte(b) => {
            if pos < input.len() && input[pos] == *b {
                let r = MatchResult::Matched(pos + 1, Vec::new(), None);
                proof {
                    assert(result_view(r) =~= out);
                }
                r
            } else {
                let mut xs: Vec<Expected> = Vec::new();
                xs.push(Expected::Byte(*b));
                let r = MatchResult::Failed(FailInfo { at: pos, expected: xs });
                proof {
                    assert(result_view(r) =~= out);
                }
                r
            }
        },
        Expr::Range(lo, hi) => {
            if pos < input.len() && *lo <= input[pos] && input[pos] <= *hi {
                let r = MatchResult::Matched(pos + 1, Vec::new(), None);
                proof {
                    assert(result_view(r) =~= out);
                }
                r
            } else {
                let mut xs: Vec<Expected> = Vec::new();
                xs.push(Expected::Range(*lo, *hi));
                let r = MatchResult::Failed(FailInfo { at: pos, expected: xs });
                proof {
                    assert(result_view(r) =~= out);
                }
                r
            }
        },
        Expr::Eoi => {
            if pos == input.len() {
                let r = MatchResult::Matched(pos, Vec::new(), None);
                proof {
                    assert(result_view(r) =~= out);
                }
                r
            } else {
                let mut xs: Vec<Expected> = Vec::new();
                xs.push(Expected::EndOfInput);
                let r = MatchResult::Failed(FailInfo { at: pos, expected: xs });
                proof {
                    assert(result_view(r) =~= out);
                }
                r
            }
        },
        Expr::Then(a, b) => {
            let ra = match_expr(g, &**a, input, pos, Ghost(j));
            proof {
                lemma_match_bounds(g@, j, **a, input@, pos as nat);
            }
            match ra {
                MatchResult::Failed(f) => MatchResult::Failed(f),
                MatchResult::Matched(p1, mut t1, far1) => {
                    let rb = match_expr(g, &**b, input, p1, Ghost(j));
                    match rb {
                        MatchResult::Failed(f) => MatchResult::Failed(
                            merge_fail_after(far1, f),
                        ),
                        MatchResult::Matched(p2, mut t2, far2) => {
                            proof {
                                lemma_trees_view_concat(t1@, t2@);
                            }
                            t1.append(&mut t2);
                            let r = MatchResult::Matched(p2, t1, merge_far(far1, far2));
                            proof {
                                assert(result_view(r) =~= out);
                            }
                            r
                        },
                    }
                },
            }
        },
        Expr::Or(a, b) => {
            let ra = match_expr(g, &**a, input, pos, Ghost(j));
            match ra {
                MatchResult::Matched(end, ts, far) => MatchResult::Matched(end, ts, far),
                MatchResult::Failed(f1) => {
                    let rb = match_expr(g, &**b, input, pos, Ghost(j));
                    match rb {
                        MatchResult::Matched(end, ts, far) => MatchResult::Matched(
                            end,
                            ts,
                            merge_far(Some(f1), far),
                        ),
                        MatchResult::Failed(f2) => MatchResult::Failed(merge_fail(f1, f2)),
                    }
                },
            }
        },
        Expr::Star(a) => {
            let ra = match_expr(g, &**a, input, pos, Ghost(j));
            proof {
                lemma_match_bounds(g@, j, **a, input@, pos as nat);
            }
            match ra {
                MatchResult::Failed(f) => {
                    let r = MatchResult::Matched(pos, Vec::new(), Some(f));
                    proof {
                        assert(result_view(r) =~= out);
                    }
                    r
                },
                MatchResult::Matched(p1, mut t1, far1) => {
                    if p1 > pos {
                        let rest = match_expr(g, e, input, p1, Ghost(j));
                        match rest {
                            MatchResult::Matched(p2, mut t2, far2) => {
                                proof {
                                    lemma_trees_view_concat(t1@, t2@);
                                }
                                t1.append(&mut t2);
                                let r = MatchResult::Matched(p2, t1, merge_far(far1, far2));
                                proof {
                                    assert(result_view(r) =~= out);
                                }
                                r
                            },
                            MatchResult::Failed(_) => MatchResult::Matched(p1, t1, far1),
                        }
                    } else {
                        let r = MatchResult::Matched(pos, t1, far1);
                        proof {
                            assert(result_view(r) =~= out);
                        }
                        r
                    }
                },
            }
        },
        Expr::Call(i) => {
            let idx = *i;
            proof {
                assert(calls_above(Expr::Call(idx), j, g@.len() as int));
                assert(g@[idx as int].expr == g.rules@[idx as int].expr);
            }
            let ri = match_expr(g, &g.rules[idx].expr, input, pos, Ghost(idx as int));
            match ri {
                MatchResult::Failed(f) => MatchResult::Failed(f),
                MatchResult::Matched(end, ts, far) => {
                    if g.rules[idx].silent {
                        MatchResult::Matched(end, ts, None)
                    } else {
                        let node = SyntaxTree::Node(idx, ts);
                        let ghost gnode = node;
                        let mut one: Vec<SyntaxTree> = Vec::new();
                        one.push(node);
                        let r = MatchResult::Matched(end, one, far);
                        proof {
                            match gnode {
                                SyntaxTree::Node(_, cs) => {
                                    assert(tree_view(gnode).children =~= trees_view(cs@));
                                },
                            }
                            assert(result_view(r) =~= out);
                        }
                        r
                    }
                },
            }
        },
    }
}

/// The 1-based line number of the byte offset `i`: one more than the
/// number of newline bytes before it.
pub open spec fn spec_line(input: Seq<u8>, i: int) -> nat
    decreases i,
{
    if i <= 0 {
        1
    } else if input[i - 1] == 10 {
        spec_line(input, i - 1) + 1
    } else {
        spec_line(input, i - 1)
    }
}

/// The 1-based column of the byte offset `i`: how many bytes it lies
/// after the last newline before it.
pub open spec fn spec_column(input: Seq<u8>, i: int) -> nat
    decreases i,
{
    if i <= 0 {
        1
    } else if input[i - 1] == 10 {
        1
    } else {
        spec_column(input, i - 1) + 1
    }
}

/// Computes the 1-based line and column of the byte offset `upto`.
fn line_col(input: &Vec<u8>, upto: usize) -> (lc: (u128, u128))
    requires
        upto <= input@.len(),
    ensures
        lc.0 == spec_line(input@, upto as int),
        lc.1 == spec_column(input@, upto as int),
{
    let mut line: u128 = 1;
    let mut col: u128 = 1;
    let mut k: usize = 0;
    while k < upto
        invariant
            upto <= input@.len(),
            k <= upto,
            line == spec_line(input@, k as int),
            col == spec_column(input@, k as int),
            line <= k + 1,
            col <= k + 1,
        decreases upto - k,
    {
        if input[k] == 10 {
            line = line + 1;
            col = 1;
        } else {
            col = col + 1;
        }
        k = k + 1;
    }
    (line, col)
}

/// A structured parse failure: the first point the matcher could not get
/// past, and the terminal alternatives it would have accepted there.
#[derive(Clone, Debug)]
pub struct ParseError {
    /// Byte offset of the failure, within the bounds of the input.
    pub byte: usize,
    /// 1-based line of the failure.
    pub line: u128,
    /// 1-based column of the failure.
    pub column: u128,
    /// The terminal alternatives expected at the failure.
    pub expected: Vec<Expected>,
}

impl ParseError {
    /// The human-readable diagnostic: the failure's line and column, and
    /// the expected alternatives.
    pub open spec fn spec_message(self) -> Seq<char> {
        "parse error at line "@ + spec_decimal(self.line as nat) + ", column "@ + spec_decimal(
            self.column as nat,
        ) + ": expected "@ + spec_expected_list(self.expected@)
    }

    /// Renders the human-readable diagnostic.
    pub fn message(&self) -> (s: String)
        ensures
            s@ == self.spec_message(),
    {
        let mut s = "parse error at line ".to_owned();
        s.append(u128_decimal(self.line).as_str());
        s.append(", column ");
        s.append(u128_decimal(self.column).as_str());
        s.append(": expected ");
        s.append(expected_list(&self.expected, 0).as_str());
        proof {
            assert(self.expected@.skip(0) =~= self.expected@);
        }
        s
    }
}

/// The textual form of one expected terminal.
pub open spec fn spec_expected_text(x: Expected) -> Seq<char> {
    match x {
        Expected::Byte(b) => "byte "@ + spec_decimal(b as nat),
        Expected::Range(lo, hi) => "byte "@ + spec_decimal(lo as nat) + "..="@ + spec_decimal(
            hi as nat,
        ),
        Expected::EndOfInput => "end of input"@,
    }
}

/// The textual forms of the expected terminals, joined by `" | "`.
pub open spec fn spec_expected_list(xs: Seq<Expected>) -> Seq<char>
    decreases xs.len(),
{
    if xs.len() == 0 {
        Seq::empty()
    } else if xs.len() == 1 {
        spec_expected_text(xs[0])
    } else {
        spec_expected_text(xs[0]) + " | "@ + spec_expected_list(xs.drop_first())
    }
}

/// The textual form of one expected terminal.
fn expected_text(x: &Expected) -> (s: String)
    ensures
        s@ == spec_expected_text(*x),
{
    match x {
        Expected::Byte(b) => {
            let mut s = "byte ".to_owned();
            s.append(u64_decimal(*b as u64).as_str());
            s
        },
        Expected::Range(lo, hi) => {
            let mut s = "byte ".to_owned();
            s.append(u64_decimal(*lo as u64).as_str());
            s.append("..=");
            s.append(u64_decimal(*hi as u64).as_str());
            s
        },
        Expected::EndOfInput => "end of input".to_owned(),
    }
}

/// The textual forms of the expected terminals from index `i` on, joined
/// by `" | "`.
fn expected_list(xs: &Vec<Expected>, i: usize) -> (s: String)
    requires
        i <= xs@.len(),
    ensures
        s@ == spec_expected_list(xs@.skip(i as int)),
    decreases xs@.len() - i,
{
    proof {
        assert(xs@.skip(i as int).len() == xs@.len() - i);
    }
    if i == xs.len() {
        String::new()
    } else if i + 1 == xs.len() {
        proof {
            assert(xs@.skip(i as int)[0] == xs@[i as int]);
        }
        expected_text(&xs[i])
    } else {
        let mut s = expected_text(&xs[i]);
        s.append(" | ");
        s.append(expected_list(xs, i + 1).as_str());
        proof {
            assert(xs@.skip(i as int)[0] == xs@[i as int]);
            assert(xs@.skip(i as int).drop_first() =~= xs@.skip(i as int + 1));
        }
        s
    }
}

/// What `parse` returns on the byte sequence `input`: the outcome of
/// matching the Vortex `file` rule at the start of the input.
pub open spec fn spec_parse(input: Seq<u8>) -> MatchOut {
    spec_match(
        crate::grammar::spec_vortex_rules(),
        -1,
        Expr::Call(file_rule() as usize),
        input,
        0,
    )
}

/// Whether the Vortex grammar's `file` rule accepts the byte sequence.
pub open spec fn accepted(input: Seq<u8>) -> bool {
    spec_parse(input) is Matched
}

/// The expected terminals with later repetitions of an alternative
/// removed; the first occurrences keep their order.
pub open spec fn spec_dedup(xs: Seq<Expected>) -> Seq<Expected>
    decreases xs.len(),
{
    if xs.len() == 0 {
        Seq::empty()
    } else {
        let rest = spec_dedup(xs.drop_last());
        if rest.contains(xs.last()) {
            rest
        } else {
            rest.push(xs.last())
        }
    }
}

/// Whether `x` occurs in `xs`.
fn contains_expected(xs: &Vec<Expected>, x: Expected) -> (r: bool)
    ensures
        r == xs@.contains(x),
{
    let mut k: usize = 0;
    while k < xs.len()
        invariant
            k <= xs@.len(),
            forall|m: int| 0 <= m < k ==> xs@[m] != x,
        decreases xs@.len() - k,
    {
        if xs[k] == x {
            return true;
        }
        k = k + 1;
    }
    false
}

/// Removes later repetitions of an alternative, as `spec_dedup`
/// describes.
fn dedup_expected(xs: Vec<Expected>) -> (r: Vec<Expected>)
    ensures
        r@ == spec_dedup(xs@),
{
    let mut out: Vec<Expected> = Vec::new();
    let mut k: usize = 0;
    while k < xs.len()
        invariant
            k <= xs@.len(),
            out@ == spec_dedup(xs@.take(k as int)),
        decreases xs@.len() - k,
    {
        proof {
            assert(xs@.take(k as int + 1).drop_last() =~= xs@.take(k as int));
            assert(xs@.take(k as int + 1).last() == xs@[k as int]);
        }
        if !contains_expected(&out, xs[k]) {
            out.push(xs[k]);
        }
        k = k + 1;
    }
    proof {
        assert(xs@.take(xs@.len() as int) =~= xs@);
    }
    out
}

/// Parses Vortex source text.
///
/// Returns the syntax tree of the match of the grammar's `file` rule when
/// the text is accepted, and otherwise a `ParseError` whose position lies
/// within the bounds of the text (in bytes of its UTF-8 form) and carries
/// the expected terminal alternatives at that position, each named once.
pub fn parse(program: &String) -> (r: Result<SyntaxTree, ParseError>)
    ensures
        r is Ok <==> accepted(vstd::utf8::encode_utf8(program@)),
        ({
            let input = vstd::utf8::encode_utf8(program@);
            match (r, spec_parse(input)) {
                (Ok(t), MatchOut::Matched { end, trees, far }) => trees.len() == 1 && t@
                    == trees[0],
                (Err(e), MatchOut::Failed { fail }) => {
                    &&& e.byte as nat == fail.at
                    &&& fail.at <= input.len()
                    &&& e.line == spec_line(input, e.byte as int)
                    &&& e.column == spec_column(input, e.byte as int)
                    &&& e.expected@ == spec_dedup(fail.expected)
                },
                _ => false,
            }
        }),
{
    let g = vortex_grammar();
    let bytes: Vec<u8> = vstd::slice::slice_to_vec(program.as_str().as_bytes());
    let top = Expr::Call(g.start);
    proof {
        assert(calls_above(top, -1, g@.len() as int));
    }
    let r = match_expr(&g, &top, &bytes, 0, Ghost(-1));
    proof {
        assert(g@ == crate::grammar::spec_vortex_rules());
        assert(bytes@ == vstd::utf8::encode_utf8(program@));
        assert(result_view(r) == spec_parse(bytes@));
    }
    match r {
        MatchResult::Matched(_, mut ts, _) => {
            proof {
                assert(crate::grammar::spec_vortex_rules()[0].silent == false);
                assert(trees_view(ts@).len() == 1);
                assert(ts@.len() == 1);
            }
            let node = ts.pop().unwrap();
            Ok(node)
        },
        MatchResult::Failed(f) => {
            proof {
                lemma_match_bounds(g@, -1, top, bytes@, 0);
            }
            let (line, column) = line_col(&bytes, f.at);
            let expected = dedup_expected(f.expected);
            Err(ParseError { byte: f.at, line, column, expected })
        },
    }
}

} // verus!
