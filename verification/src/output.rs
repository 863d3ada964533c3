//! What a run writes to standard output and to standard error.

use crate::error::{error_message, FetchError, FetchErrorView};
use vstd::prelude::*;
use vstd::string::*;

verus! {

/// Text for the two output streams.
#[derive(Debug)]
pub struct Output {
    /// What goes to standard output.
    pub stdout: String,
    /// What goes to standard error.
    pub stderr: String,
}

/// An `Output` with its texts as character sequences.
pub ghost struct OutputView {
    pub stdout: Seq<char>,
    pub stderr: Seq<char>,
}

impl View for Output {
    type V = OutputView;

    open spec fn view(&self) -> OutputView {
        OutputView { stdout: self.stdout@, stderr: self.stderr@ }
    }
}

/// How a fetch ended, with its texts as character sequences: the temperature
/// as it is to be shown, or the error.
pub open spec fn outcome_view(outcome: Result<String, FetchError>) -> Result<
    Seq<char>,
    FetchErrorView,
> {
    match outcome {
        Ok(reading) => Ok(reading@),
        Err(error) => Err(error@),
    }
}

/// The text followed by a line feed.
pub open spec fn line_of(text: Seq<char>) -> Seq<char> {
    text + seq!['\n']
}

/// The words that greet the user.
pub open spec fn greeting_text() -> Seq<char> {
    "Hello user, choose a city to know the weather"@
}

/// The words that report a temperature: the city as it was asked for, then
/// the reading in degrees Celsius.
pub open spec fn temperature_text(city: Seq<char>, reading: Seq<char>) -> Seq<char> {
    "Temperature in "@ + city + " : "@ + reading + "\u{b0}C"@
}

/// The words that report a failure.
pub open spec fn error_text(message: Seq<char>) -> Seq<char> {
    "Error: "@ + message
}

/// The words that standard output gets when the service refuses the query.
pub open spec fn api_diagnostic_text() -> Seq<char> {
    "error in the api"@
}

/// What a run writes once the fetch for `city` has ended in `outcome`.
///
/// A temperature gives one line on standard output and nothing on standard
/// error. An error gives one line on standard error; standard output gets the
/// fixed diagnostic where the service refused the query, and nothing
/// otherwise.
pub open spec fn closing_of(city: Seq<char>, outcome: Result<Seq<char>, FetchErrorView>) -> OutputView {
    match outcome {
        Ok(reading) => OutputView {
            stdout: line_of(temperature_text(city, reading)),
            stderr: Seq::empty(),
        },
        Err(error) => OutputView {
            stdout: if error is Api {
                line_of(api_diagnostic_text())
            } else {
                Seq::empty()
            },
            stderr: line_of(error_text(error_message(error))),
        },
    }
}

/// The greeting, as a line for standard output.
pub fn greeting_line() -> (line: String)
    ensures
        line@ == line_of(greeting_text()),
{
    proof {
        reveal_strlit("\n");
    }
    let mut line = String::from_str("Hello user, choose a city to know the weather");
    line.append("\n");
    line
}

/// Composes what a run writes once the fetch for `city` has ended in
/// `outcome`, where `Ok` holds the temperature as it is to be shown.
pub fn closing_output(city: &str, outcome: &Result<String, FetchError>) -> (output: Output)
    ensures
        output@ == closing_of(city@, outcome_view(*outcome)),
{
    proof {
        reveal_strlit("\n");
        assert("\n"@ =~= seq!['\n']);
    }
    match outcome {
        Ok(reading) => {
            let mut stdout = String::from_str("Temperature in ");
            stdout.append(city);
            stdout.append(" : ");
            stdout.append(reading.as_str());
            stdout.append("\u{b0}C");
            stdout.append("\n");
            Output { stdout, stderr: String::new() }
        },
        Err(error) => {
            let mut stdout = String::new();
            if let FetchError::Api = error {
                stdout.append("error in the api");
                stdout.append("\n");
            }
            let message = error.message();
            let mut stderr = String::from_str("Error: ");
            stderr.append(message.as_str());
            stderr.append("\n");
            Output { stdout, stderr }
        },
    }
}

} // verus!
