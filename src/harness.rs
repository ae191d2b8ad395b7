use vstd::prelude::*;
use vstd::string::StringExecFns;
use crate::compare::{compare_documents, compare_documents_spec, CompareError, Comparison, ComparisonView};
use crate::config::{native_parser_enabled, resolve_native_parser, ConfigFile};

verus! {

/// Why a test case failed.
#[derive(Clone, Debug)]
pub enum Failure {
    /// The parser returned an error with this message.
    ParseError(String),
    /// The parser terminated abnormally; the fault's message.
    ParserFault(String),
    /// The generated snapshot could not be written.
    SnapshotWrite(String),
    /// The expected snapshot is absent or unreadable.
    ExpectedSnapshotMissing(String),
    /// The snapshots could not be compared.
    Compare(CompareError),
    /// The canonical snapshots differ.
    Mismatch(Comparison),
    /// The generated snapshot could not be promoted to the expected one.
    Promotion(String),
}

/// The terminal status of one test case.
#[derive(Clone, Debug)]
pub enum Outcome {
    Passed,
    Failed(Failure),
    Skipped,
}

/// The three kinds of outcome.
#[derive(Clone, Copy, Debug, PartialEq, Eq, Structural)]
pub enum OutcomeKind {
    Passed,
    Failed,
    Skipped,
}

/// The kind of an outcome.
pub open spec fn kind_of(o: Outcome) -> OutcomeKind {
    match o {
        Outcome::Passed => OutcomeKind::Passed,
        Outcome::Failed(_) => OutcomeKind::Failed,
        Outcome::Skipped => OutcomeKind::Skipped,
    }
}

impl Outcome {
    /// The kind of this outcome.
    pub fn kind(&self) -> (r: OutcomeKind)
        ensures
            r == kind_of(*self),
    {
        match self {
            Outcome::Passed => OutcomeKind::Passed,
            Outcome::Failed(_) => OutcomeKind::Failed,
            Outcome::Skipped => OutcomeKind::Skipped,
        }
    }
}

/// What the parser did with a test input.
#[derive(Clone, Debug)]
pub enum ParseResult {
    /// It produced a model, serialised as this JSON text.
    Model(String),
    /// It returned an error with this message.
    Error(String),
    /// It terminated abnormally, with this message if the fault carried text.
    Fault(Option<String>),
}

/// Where one test case stands, and so what the caller has to do next.
#[derive(Clone, Debug)]
pub enum CaseState {
    /// Read the configuration of the case's directory.
    ReadConfig,
    /// Run the parser on the input, containing any abnormal termination.
    RunParser,
    /// Write this text to the generated snapshot.
    WriteGenerated(String),
    /// Read the expected snapshot; the generated text is kept for comparison.
    ReadExpected(String),
    /// Copy the generated snapshot onto the expected one.
    Promote,
    /// The case is finished.
    Done(Outcome),
}

/// What the caller reports back after doing what a [`CaseState`] asked.
#[derive(Debug)]
pub enum CaseEvent {
    Config(ConfigFile),
    Parsed(ParseResult),
    Written(Result<(), String>),
    ExpectedRead(Result<String, String>),
    Promoted(Result<(), String>),
}

/// The diagnostic of an abnormal termination: its text, or a placeholder
/// when it carried none.
pub open spec fn fault_text(payload: Option<String>) -> Seq<char> {
    match payload {
        Some(s) => s@,
        None => "Parser panicked: non-string payload"@,
    }
}

/// Whether `r` is a case that failed with a parser fault whose message is `m`.
pub open spec fn is_fault_with(r: CaseState, m: Seq<char>) -> bool {
    &&& r is Done
    &&& r->Done_0 is Failed
    &&& r->Done_0->Failed_0 is ParserFault
    &&& r->Done_0->Failed_0->ParserFault_0@ == m
}

/// The state after comparing the generated text with the expected one: equal
/// passes, a mismatch is promoted in accept mode and fails otherwise, and
/// documents that cannot be compared fail.
pub open spec fn after_comparison(generated: Seq<char>, expected: Seq<char>, accept: bool, r: CaseState) -> bool {
    match compare_documents_spec(generated, expected, accept) {
        Err(e) => r == CaseState::Done(Outcome::Failed(Failure::Compare(e))),
        Ok(ComparisonView::Equal) => r == CaseState::Done(Outcome::Passed),
        Ok(c) => if accept {
            r == CaseState::Promote
        } else {
            &&& r is Done
            &&& r->Done_0 is Failed
            &&& r->Done_0->Failed_0 is Mismatch
            &&& r->Done_0->Failed_0->Mismatch_0@ == c
        },
    }
}

/// One step of a test case: `r` is the state that follows `state` once
/// `event` is reported. An event that does not answer the state leaves it
/// unchanged.
pub open spec fn case_step(state: CaseState, accept: bool, event: CaseEvent, r: CaseState) -> bool {
    match (state, event) {
        (CaseState::ReadConfig, CaseEvent::Config(cfg)) => if native_parser_enabled(cfg) {
            r == CaseState::RunParser
        } else {
            r == CaseState::Done(Outcome::Skipped)
        },
        (CaseState::RunParser, CaseEvent::Parsed(p)) => match p {
            ParseResult::Model(t) => r == CaseState::WriteGenerated(t),
            ParseResult::Error(m) => r == CaseState::Done(Outcome::Failed(Failure::ParseError(m))),
            ParseResult::Fault(payload) => is_fault_with(r, fault_text(payload)),
        },
        (CaseState::WriteGenerated(g), CaseEvent::Written(w)) => match w {
            Ok(_) => r == CaseState::ReadExpected(g),
            Err(e) => r == CaseState::Done(Outcome::Failed(Failure::SnapshotWrite(e))),
        },
        (CaseState::ReadExpected(g), CaseEvent::ExpectedRead(x)) => match x {
            Ok(e) => after_comparison(g@, e@, accept, r),
            Err(e) => if accept {
                r == CaseState::Promote
            } else {
                r == CaseState::Done(Outcome::Failed(Failure::ExpectedSnapshotMissing(e)))
            },
        },
        (CaseState::Promote, CaseEvent::Promoted(p)) => match p {
            Ok(_) => r == CaseState::Done(Outcome::Passed),
            Err(e) => r == CaseState::Done(Outcome::Failed(Failure::Promotion(e))),
        },
        _ => r == state,
    }
}

/// The diagnostic of an abnormal termination of the parser.
pub fn fault_message(payload: Option<String>) -> (r: String)
    ensures
        r@ == fault_text(payload),
{
    match payload {
        Some(s) => s,
        None => String::from_str("Parser panicked: non-string payload"),
    }
}

/// Decides what follows a comparison of the generated and expected snapshots.
fn decide_comparison(generated: &String, expected: &String, accept: bool) -> (r: CaseState)
    ensures
        after_comparison(generated@, expected@, accept, r),
{
    match compare_documents(generated.as_str(), expected.as_str(), accept) {
        Err(e) => CaseState::Done(Outcome::Failed(Failure::Compare(e))),
        Ok(c) => {
            if c.is_equal() {
                CaseState::Done(Outcome::Passed)
            } else if accept {
                CaseState::Promote
            } else {
                CaseState::Done(Outcome::Failed(Failure::Mismatch(c)))
            }
        },
    }
}

/// Advances a test case by one step, given what the caller did.
pub fn advance(state: CaseState, accept: bool, event: CaseEvent) -> (r: CaseState)
    ensures
        case_step(state, accept, event, r),
{
    match state {
        CaseState::ReadConfig => match event {
            CaseEvent::Config(cfg) => {
                if resolve_native_parser(cfg) {
                    CaseState::RunParser
                } else {
                    CaseState::Done(Outcome::Skipped)
                }
            },
            _ => CaseState::ReadConfig,
        },
        CaseState::RunParser => match event {
            CaseEvent::Parsed(p) => match p {
                ParseResult::Model(t) => CaseState::WriteGenerated(t),
                ParseResult::Error(m) => CaseState::Done(Outcome::Failed(Failure::ParseError(m))),
                ParseResult::Fault(payload) => {
                    let m = fault_message(payload);
                    CaseState::Done(Outcome::Failed(Failure::ParserFault(m)))
                },
            },
            _ => CaseState::RunParser,
        },
        CaseState::WriteGenerated(g) => match event {
            CaseEvent::Written(w) => match w {
                Ok(_) => CaseState::ReadExpected(g),
                Err(e) => CaseState::Done(Outcome::Failed(Failure::SnapshotWrite(e))),
            },
            _ => CaseState::WriteGenerated(g),
        },
        CaseState::ReadExpected(g) => match event {
            CaseEvent::ExpectedRead(x) => match x {
                Ok(e) => decide_comparison(&g, &e, accept),
                Err(e) => {
                    if accept {
                        CaseState::Promote
                    } else {
                        CaseState::Done(Outcome::Failed(Failure::ExpectedSnapshotMissing(e)))
                    }
                },
            },
            _ => CaseState::ReadExpected(g),
        },
        CaseState::Promote => match event {
            CaseEvent::Promoted(p) => match p {
                Ok(_) => CaseState::Done(Outcome::Passed),
                Err(e) => CaseState::Done(Outcome::Failed(Failure::Promotion(e))),
            },
            _ => CaseState::Promote,
        },
        CaseState::Done(o) => CaseState::Done(o),
    }
}

/// Fault containment: a parser that terminates abnormally ends its case, and
/// only its case, with one failure: a parser fault carrying the fault's text.
pub proof fn lemma_fault_contained(accept: bool, payload: Option<String>, r: CaseState)
    requires
        case_step(
            CaseState::RunParser,
            accept,
            CaseEvent::Parsed(ParseResult::Fault(payload)),
            r,
        ),
    ensures
        r is Done,
        kind_of(r->Done_0) == OutcomeKind::Failed,
        is_fault_with(r, fault_text(payload)),
{
}

/// Promotion converges: when a case mismatched in accept mode and its
/// generated snapshot was promoted, the promotion passes the case, and a later
/// run in verify mode that generates the same text again passes it too.
pub proof fn lemma_promotion_converges(
    generated: String,
    old_expected: String,
    r1: CaseState,
    r2: CaseState,
    generated_again: String,
    promoted: String,
    r3: CaseState,
)
    requires
        case_step(
            CaseState::ReadExpected(generated),
            true,
            CaseEvent::ExpectedRead(Ok(old_expected)),
            r1,
        ),
        r1 == CaseState::Promote,
        case_step(CaseState::Promote, true, CaseEvent::Promoted(Ok(())), r2),
        generated_again@ == generated@,
        promoted@ == generated@,
        case_step(
            CaseState::ReadExpected(generated_again),
            false,
            CaseEvent::ExpectedRead(Ok(promoted)),
            r3,
        ),
    ensures
        r2 == CaseState::Done(Outcome::Passed),
        r3 == CaseState::Done(Outcome::Passed),
{
}

} // verus!
