//! The contract between a lint rule and the driver that walks the tree.
//!
//! A rule names the shape of node it wants to see (its query). For every
//! node of the tree the driver asks three questions in turn: does the node
//! have that shape, does the rule signal on it, and does the rule, on a
//! closer look, want to report the signal. [`visit`] asks them for one node
//! and says how far the node got. Nothing is kept from one node to the next.
use vstd::prelude::*;
use crate::nodes::JsIdentifierBinding;
use crate::syntax::SyntaxNode;
use crate::text::TextRange;

verus! {

/// A finding, as specifications see it.
pub struct DiagnosticModel {
    pub category: Seq<char>,
    pub range: TextRange,
    pub message: Seq<char>,
    pub notes: Seq<Seq<char>>,
}

/// A finding of a rule: where it is, what it is, and what else there is to say.
#[derive(Debug)]
pub struct RuleDiagnostic {
    category: &'static str,
    range: TextRange,
    message: String,
    notes: Vec<String>,
}

impl View for RuleDiagnostic {
    type V = DiagnosticModel;

    closed spec fn view(&self) -> DiagnosticModel {
        DiagnosticModel {
            category: self.category@,
            range: self.range,
            message: self.message@,
            notes: Seq::new(self.notes.len() as nat, |i: int| self.notes[i]@),
        }
    }
}

impl RuleDiagnostic {
    /// A finding of the category `category` at `range` with the message `title` and no notes.
    pub fn new(category: &'static str, range: TextRange, title: &str) -> (r: RuleDiagnostic)
        ensures
            r@ == (DiagnosticModel { category: category@, range, message: title@, notes: Seq::empty() }),
    {
        let r = RuleDiagnostic { category, range, message: title.to_owned(), notes: Vec::new() };
        assert(r@.notes =~= Seq::empty());
        r
    }

    /// The finding with `message` added after the notes it has.
    pub fn note(self, message: &str) -> (r: RuleDiagnostic)
        ensures
            r@ == (DiagnosticModel { notes: self@.notes.push(message@), ..self@ }),
    {
        let mut notes = self.notes;
        notes.push(message.to_owned());
        let r = RuleDiagnostic { category: self.category, range: self.range, message: self.message, notes };
        assert(r@.notes =~= self@.notes.push(message@));
        r
    }

    /// The category of the finding, such as `lint/nursery/useObjectSpread`.
    pub fn category(&self) -> (r: &'static str)
        ensures
            r@ == self@.category,
    {
        self.category
    }

    /// Where in the source the finding is.
    pub fn range(&self) -> (r: TextRange)
        ensures
            r == self@.range,
    {
        self.range
    }

    /// The primary text of the finding.
    pub fn message(&self) -> (r: &str)
        ensures
            r@ == self@.message,
    {
        self.message.as_str()
    }

    /// The number of notes.
    pub fn note_count(&self) -> (r: usize)
        ensures
            r == self@.notes.len(),
    {
        self.notes.len()
    }

    /// The note at position `i`, or nothing where there are fewer notes.
    pub fn note_at(&self, i: usize) -> (r: Option<&str>)
        ensures
            r is Some <==> i < self@.notes.len(),
            r matches Some(note) ==> note@ == self@.notes[i as int],
    {
        if i < self.notes.len() {
            Some(self.notes[i].as_str())
        } else {
            None
        }
    }
}

/// The rule of another tool that a rule goes back to.
#[derive(Clone, Copy, Debug)]
pub enum RuleSource {
    /// A lint of Clippy.
    Clippy(&'static str),
    /// A rule of ESLint.
    Eslint(&'static str),
    /// A rule of the ESLint plugin for JSX accessibility.
    EslintJsxA11y(&'static str),
}

/// How closely a rule follows the rule it goes back to.
#[derive(Clone, Copy, PartialEq, Eq, Debug, Structural)]
pub enum RuleSourceKind {
    /// The rule does what its source does.
    SameLogic,
    /// The rule departs from what its source does.
    Inspired,
}

/// What a rule declares about itself. The registry reads it; nothing here computes with it.
#[derive(Debug)]
pub struct RuleMetadata {
    /// The release in which the rule appeared.
    pub version: &'static str,
    /// The name of the rule, as its findings show it.
    pub name: &'static str,
    /// The language whose sources the rule checks.
    pub language: &'static str,
    /// The rules of other tools that the rule goes back to.
    pub sources: Vec<RuleSource>,
    /// How closely the rule follows them.
    pub source_kind: Option<RuleSourceKind>,
    /// Whether the rule is switched on by default.
    pub recommended: bool,
}

/// The shape of node a rule asks for.
pub trait Queryable<'a>: Sized {
    /// The typed view of `syntax`, where it has the shape.
    spec fn spec_query(syntax: SyntaxNode<'a>) -> Option<Self>;

    /// The typed view of `syntax`, where it has the shape.
    fn query(syntax: SyntaxNode<'a>) -> (r: Option<Self>)
        ensures
            r == Self::spec_query(syntax),
    ;
}

impl<'a> Queryable<'a> for JsIdentifierBinding<'a> {
    open spec fn spec_query(syntax: SyntaxNode<'a>) -> Option<Self> {
        JsIdentifierBinding::cast(syntax)
    }

    fn query(syntax: SyntaxNode<'a>) -> (r: Option<Self>) {
        JsIdentifierBinding::cast(syntax)
    }
}

/// What a rule gets to see of one visit: the node that matched its query, and its options.
pub struct RuleContext<Q, O> {
    pub query: Q,
    pub options: O,
}

impl<Q, O> RuleContext<Q, O> {
    pub open spec fn spec_query(&self) -> &Q {
        &self.query
    }

    pub open spec fn spec_options(&self) -> &O {
        &self.options
    }

    /// The context of a visit to `query` under `options`.
    pub fn new(query: Q, options: O) -> (r: Self)
        ensures
            r == (RuleContext { query, options }),
    {
        RuleContext { query, options }
    }

    /// The node that matched the query.
    #[verifier::when_used_as_spec(spec_query)]
    pub fn query(&self) -> (r: &Q)
        ensures
            r == self.spec_query(),
    {
        &self.query
    }

    /// The options the rule runs under.
    #[verifier::when_used_as_spec(spec_options)]
    pub fn options(&self) -> (r: &O)
        ensures
            r == self.spec_options(),
    {
        &self.options
    }
}

/// A lint rule.
///
/// `run` is asked once for every node that matches the query and answers with
/// at most one signal. `diagnostic` is asked once for every signal and either
/// makes a finding of it or declines. Both are functions of the context alone.
pub trait Rule<'a> {
    /// The shape of node the rule visits.
    type Query: Queryable<'a>;

    /// What a signal carries from `run` to `diagnostic`.
    type State;

    /// The configuration of the rule.
    type Options;

    /// The signal the rule gives on a node.
    spec fn spec_run(ctx: &RuleContext<Self::Query, Self::Options>) -> Option<Self::State>;

    /// The finding the rule makes of a signal.
    spec fn spec_diagnostic(
        ctx: &RuleContext<Self::Query, Self::Options>,
        state: &Self::State,
    ) -> Option<DiagnosticModel>;

    /// What the rule declares about itself.
    fn metadata() -> RuleMetadata;

    /// The signal the rule gives on the node of `ctx`, if any.
    fn run(ctx: &RuleContext<Self::Query, Self::Options>) -> (r: Option<Self::State>)
        ensures
            r == Self::spec_run(ctx),
    ;

    /// The finding the rule makes of the signal `state`, unless it declines.
    fn diagnostic(ctx: &RuleContext<Self::Query, Self::Options>, state: &Self::State) -> (r: Option<
        RuleDiagnostic,
    >)
        ensures
            r is Some <==> Self::spec_diagnostic(ctx, state) is Some,
            r matches Some(found) ==> Some(found@) == Self::spec_diagnostic(ctx, state),
    ;
}

/// How far a node got with a rule.
#[derive(Debug)]
pub enum RuleOutcome {
    /// The node does not have the shape the rule asks for.
    Unmatched,
    /// The node has the shape, and the rule gave no signal on it.
    Silent,
    /// The rule gave a signal and then declined to report it.
    Suppressed,
    /// The rule gave a signal and reported it.
    Reported(RuleDiagnostic),
}

/// Takes the node `syntax` through the rule `R`: the query first, then `run`
/// where the query matched, then `diagnostic` where `run` gave a signal.
pub fn visit<'a, R: Rule<'a>>(syntax: SyntaxNode<'a>, options: R::Options) -> (r: RuleOutcome)
    ensures
        r is Unmatched <==> R::Query::spec_query(syntax) is None,
        R::Query::spec_query(syntax) matches Some(query) ==> {
            let ctx = RuleContext::<R::Query, R::Options> { query, options };
            &&& r is Silent <==> R::spec_run(&ctx) is None
            &&& R::spec_run(&ctx) matches Some(state) ==> {
                &&& r is Suppressed <==> R::spec_diagnostic(&ctx, &state) is None
                &&& r matches RuleOutcome::Reported(found) ==> R::spec_diagnostic(&ctx, &state) == Some(
                    found@,
                )
            }
        },
{
    match R::Query::query(syntax) {
        None => RuleOutcome::Unmatched,
        Some(query) => {
            let ctx = RuleContext::new(query, options);
            match R::run(&ctx) {
                None => RuleOutcome::Silent,
                Some(state) => match R::diagnostic(&ctx, &state) {
                    None => RuleOutcome::Suppressed,
                    Some(found) => RuleOutcome::Reported(found),
                },
            }
        },
    }
}

/// Prefers the object spread over `Object.assign` with an object literal as
/// its first argument.
///
/// The rule is a sketch: it visits every identifier binding, signals on each,
/// and reports each signal at the place of the binding.
pub struct UseObjectSpread;

impl<'a> Rule<'a> for UseObjectSpread {
    type Query = JsIdentifierBinding<'a>;

    type State = ();

    type Options = ();

    open spec fn spec_run(ctx: &RuleContext<JsIdentifierBinding<'a>, ()>) -> Option<()> {
        Some(())
    }

    open spec fn spec_diagnostic(ctx: &RuleContext<JsIdentifierBinding<'a>, ()>, state: &()) -> Option<
        DiagnosticModel,
    > {
        Some(
            DiagnosticModel {
                category: "lint/nursery/useObjectSpread"@,
                range: ctx.query().syntax().range(),
                message: "Variable is read here."@,
                notes: seq!["This note will give you more information."@],
            },
        )
    }

    fn metadata() -> (r: RuleMetadata)
        ensures
            r.version@ == "next"@,
            r.name@ == "useObjectSpread"@,
            r.language@ == "js"@,
            r.sources@.len() == 1,
            r.sources@[0] matches RuleSource::Eslint(name) && name@ == "prefer-object-spread"@,
            r.source_kind == Some(RuleSourceKind::Inspired),
            !r.recommended,
    {
        RuleMetadata {
            version: "next",
            name: "useObjectSpread",
            language: "js",
            sources: vec![RuleSource::Eslint("prefer-object-spread")],
            source_kind: Some(RuleSourceKind::Inspired),
            recommended: false,
        }
    }

    fn run(ctx: &RuleContext<JsIdentifierBinding<'a>, ()>) -> (r: Option<()>) {
        let _binding = ctx.query();
        Some(())
    }

    fn diagnostic(ctx: &RuleContext<JsIdentifierBinding<'a>, ()>, _state: &()) -> (r: Option<RuleDiagnostic>) {
        let node = ctx.query();
        let found = RuleDiagnostic::new(
            "lint/nursery/useObjectSpread",
            node.syntax().range(),
            "Variable is read here.",
        ).note("This note will give you more information.");
        assert(found@.notes =~= seq!["This note will give you more information."@]);
        Some(found)
    }
}

} // verus!
