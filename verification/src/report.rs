//! The lines that the tool prints.

use vstd::prelude::*;

use crate::failure::Failure;
use crate::text::{around_number, decimal};

verus! {

/// How a line looks.
#[derive(Clone, Copy, Debug, PartialEq, Eq, Structural)]
pub enum Style {
    /// White and bold.
    Heading,
    /// Blue and italic.
    Elapsed,
    /// Blue.
    Note,
    /// Red.
    Error,
    /// Green.
    Success,
    /// Yellow.
    Warning,
    /// As it is.
    Plain,
}

/// A line to print.
pub struct Line {
    pub text: String,
    pub style: Style,
}

impl View for Line {
    type V = (Seq<char>, Style);

    open spec fn view(&self) -> (Seq<char>, Style) {
        (self.text@, self.style)
    }
}

/// Lines by their texts and styles.
pub open spec fn line_views(lines: Seq<Line>) -> Seq<(Seq<char>, Style)> {
    lines.map_values(|line: Line| line@)
}

/// A line with this text and style.
pub(crate) fn line(text: &str, style: Style) -> (line: Line)
    ensures
        line@ == (text@, style),
{
    Line { text: text.to_owned(), style }
}

/// The line that says how long a step took.
pub fn elapsed_line(seconds: u64) -> (line: Line)
    ensures
        line@ == ("Took "@ + decimal(seconds as nat) + " seconds"@, Style::Elapsed),
{
    Line { text: around_number("Took ", seconds, " seconds"), style: Style::Elapsed }
}

/// What came of a run of the mock prover.
pub enum MockResult {
    /// Every constraint holds.
    Satisfied,
    /// These constraints do not hold.
    Unsatisfied { errors: Vec<String> },
    /// The prover could not run.
    Failed,
}

impl MockResult {
    /// What is printed of the run.
    pub open spec fn report(self) -> Seq<(Seq<char>, Style)> {
        match self {
            MockResult::Satisfied => Seq::empty(),
            MockResult::Unsatisfied { errors } => seq![
                ("Mock prover failed with errors:"@, Style::Error),
            ] + errors@.map_values(|error: String| (error@, Style::Error)),
            MockResult::Failed => seq![(Failure::MockProver.text(), Style::Error)],
        }
    }

    /// The lines to print of the run.
    pub fn lines(&self) -> (lines: Vec<Line>)
        ensures
            line_views(lines@) == self.report(),
    {
        let mut lines: Vec<Line> = Vec::new();
        match self {
            MockResult::Satisfied => {},
            MockResult::Unsatisfied { errors } => {
                lines.push(line("Mock prover failed with errors:", Style::Error));
                let ghost all = self.report();
                assert(line_views(lines@) =~= all.take(1));
                let mut i: usize = 0;
                while i < errors.len()
                    invariant
                        i <= errors@.len(),
                        all == seq![("Mock prover failed with errors:"@, Style::Error)]
                            + errors@.map_values(|error: String| (error@, Style::Error)),
                        line_views(lines@) == all.take(i + 1),
                    decreases errors.len() - i,
                {
                    let ghost before = line_views(lines@);
                    let next = line(errors[i].as_str(), Style::Error);
                    let ghost added = next@;
                    lines.push(next);
                    assert(line_views(lines@) =~= before.push(added));
                    i += 1;
                    assert(all.take(i + 1) =~= before.push(all[i as int]));
                }
                assert(all.take(i + 1) =~= all);
            },
            MockResult::Failed => {
                lines.push(
                    Line { text: Failure::MockProver.message(), style: Style::Error },
                );
            },
        }
        assert(line_views(lines@) =~= self.report());
        lines
    }
}

/// A line is seen by its text and its style.
pub proof fn line_is_seen_whole(line: Line)
    ensures
        line@.0 == line.text@,
        line@.1 == line.style,
{
}

/// Lines are seen in their order.
pub proof fn lines_match(lines: Seq<Line>)
    ensures
        line_views(lines).len() == lines.len(),
        forall|i: int| 0 <= i < lines.len() ==> #[trigger] line_views(lines)[i] == lines[i]@,
{
}

/// A run of the mock prover in which every constraint holds is passed over. Of others
/// every constraint that does not hold is printed, in order, behind a line that says
/// so.
pub proof fn every_error_is_printed(errors: Vec<String>, i: int)
    ensures
        MockResult::Satisfied.report().len() == 0,
        MockResult::Failed.report() == seq![("Mock prover failed"@, Style::Error)],
        (MockResult::Unsatisfied { errors }).report().len() == errors@.len() + 1,
        (MockResult::Unsatisfied { errors }).report()[0] == (
            "Mock prover failed with errors:"@,
            Style::Error,
        ),
        0 <= i < errors@.len() ==> (MockResult::Unsatisfied { errors }).report()[i + 1] == (
            errors@[i]@,
            Style::Error,
        ),
{
}

} // verus!
