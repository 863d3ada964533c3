//! A whole run, seen from outside: what it asks for and what it writes, as a
//! function of the line it read and of the way its fetch ended.

use crate::error::{FetchError, FetchErrorView};
use crate::input::{has_clean_edges, is_blank, lemma_trim_strips_padding, trimmed};
use crate::output::{closing_of, greeting_text, line_of, temperature_text, OutputView};
use crate::request::query_url;
use crate::status::is_success_status;
use vstd::prelude::*;

verus! {

/// Everything a run writes, from the line that was read and the way the fetch
/// ended: the greeting, then what `closing_of` gives for the trimmed line.
pub open spec fn run_output(line: Seq<char>, outcome: Result<Seq<char>, FetchErrorView>) -> OutputView {
    let closing = closing_of(trimmed(line), outcome);
    OutputView { stdout: line_of(greeting_text()) + closing.stdout, stderr: closing.stderr }
}

/// A run that gets a temperature writes the greeting and the temperature
/// line, naming the city as trimmed, and nothing to standard error.
pub proof fn lemma_success_output(line: Seq<char>, reading: Seq<char>)
    ensures
        run_output(line, Ok(reading)).stdout == line_of(greeting_text()) + line_of(
            temperature_text(trimmed(line), reading),
        ),
        run_output(line, Ok(reading)).stderr == Seq::<char>::empty(),
{
}

/// A status outside the 2xx class ends the run the same way whatever it is:
/// `verdict`, which stands for what `check_status` returns for it, is the API
/// error; standard output gets the greeting and the fixed diagnostic, and
/// standard error the fixed error line.
pub proof fn lemma_refused_status_output(
    line: Seq<char>,
    status: u16,
    verdict: Result<(), FetchError>,
)
    requires
        !is_success_status(status),
        verdict is Ok <==> is_success_status(status),
        verdict matches Err(error) ==> error@ == FetchErrorView::Api,
    ensures
        verdict is Err,
        run_output(line, Err(verdict->Err_0@)).stdout == line_of(greeting_text()) + line_of(
            "error in the api"@,
        ),
        run_output(line, Err(verdict->Err_0@)).stderr == line_of("Error: Error in the API"@),
{
    reveal_strlit("Error: Error in the API");
    reveal_strlit("Error: ");
    reveal_strlit("Error in the API");
}

/// A body that does not decode ends the run with the decoder's message on
/// standard error; standard output holds the greeting alone, so neither a
/// temperature line nor the diagnostic.
pub proof fn lemma_parse_failure_output(line: Seq<char>, message: Seq<char>)
    ensures
        run_output(line, Err(FetchErrorView::Parse(message))).stdout == line_of(greeting_text()),
        run_output(line, Err(FetchErrorView::Parse(message))).stderr == line_of(
            "Error: "@ + message,
        ),
{
}

/// A transport failure ends the run with the transport's message on standard
/// error; standard output holds the greeting alone, so neither a temperature
/// line nor the diagnostic.
pub proof fn lemma_transport_failure_output(line: Seq<char>, message: Seq<char>)
    ensures
        run_output(line, Err(FetchErrorView::Transport(message))).stdout == line_of(
            greeting_text(),
        ),
        run_output(line, Err(FetchErrorView::Transport(message))).stderr == line_of(
            "Error: "@ + message,
        ),
{
}

/// A run ends in a temperature or in an error message, never both and never
/// neither: standard error stays empty exactly when the fetch succeeded, and
/// only then does standard output have more than the greeting and the
/// diagnostic.
pub proof fn lemma_one_ending(line: Seq<char>, outcome: Result<Seq<char>, FetchErrorView>)
    ensures
        run_output(line, outcome).stderr.len() == 0 <==> outcome is Ok,
        outcome is Err ==> run_output(line, outcome).stdout == line_of(greeting_text())
            || run_output(line, outcome).stdout == line_of(greeting_text()) + line_of(
            "error in the api"@,
        ),
{
}

/// What a run writes is settled by the line it read and the way its fetch
/// ended: two runs that agree on both agree on the address they ask and on
/// every character they write.
pub proof fn lemma_runs_agree(
    line: Seq<char>,
    outcome: Result<Seq<char>, FetchErrorView>,
    first_city: Seq<char>,
    second_city: Seq<char>,
    first: OutputView,
    second: OutputView,
)
    requires
        first_city == trimmed(line),
        second_city == trimmed(line),
        first == closing_of(first_city, outcome),
        second == closing_of(second_city, outcome),
    ensures
        query_url(first_city) == query_url(second_city),
        first.stdout == second.stdout,
        first.stderr == second.stderr,
        line_of(greeting_text()) + first.stdout == run_output(line, outcome).stdout,
        first.stderr == run_output(line, outcome).stderr,
{
}

/// Whitespace around the city changes nothing: a line that is a city with
/// clean edges between blank texts asks the address that the bare city asks,
/// and the run writes what it writes for the bare city.
pub proof fn lemma_padding_is_ignored(
    before: Seq<char>,
    city: Seq<char>,
    after: Seq<char>,
    outcome: Result<Seq<char>, FetchErrorView>,
)
    requires
        is_blank(before),
        is_blank(after),
        has_clean_edges(city),
    ensures
        query_url(trimmed(before + city + after)) == query_url(city),
        query_url(trimmed(before + city + after)) == query_url(trimmed(city)),
        run_output(before + city + after, outcome) == run_output(city, outcome),
{
    lemma_trim_strips_padding(before, city, after);
    lemma_trim_strips_padding(Seq::empty(), city, Seq::empty());
}

} // verus!
