use weather_query::error::FetchError;
use weather_query::input::trim_input;
use weather_query::output::{closing_output, greeting_line};
use weather_query::status::check_status;

fn whole_run(line: &str, outcome: &Result<String, FetchError>) -> (String, String) {
    let city = trim_input(line);
    let closing = closing_output(&city, outcome);
    (format!("{}{}", greeting_line(), closing.stdout), closing.stderr)
}

#[test]
fn greeting_is_one_fixed_line() {
    assert_eq!(greeting_line(), "Hello user, choose a city to know the weather\n");
}

#[test]
fn temperature_line_names_city_and_reading() {
    let output = closing_output("Paris", &Ok("21.5".to_string()));
    assert_eq!(output.stdout, "Temperature in Paris : 21.5\u{b0}C\n");
    assert_eq!(output.stderr, "");
}

#[test]
fn temperature_line_ends_in_degree_sign_and_c() {
    let output = closing_output("Oslo", &Ok("-3".to_string()));
    assert_eq!(output.stdout.as_bytes(), b"Temperature in Oslo : -3\xc2\xb0C\n");
}

#[test]
fn temperature_line_for_any_city() {
    let reading: f32 = 21.5;
    for city in ["Paris", "New York", "", "S\u{e3}o Paulo", "a&b", "\u{6771}\u{4eac}"] {
        let output = closing_output(city, &Ok(reading.to_string()));
        assert_eq!(output.stdout, format!("Temperature in {} : 21.5\u{b0}C\n", city));
        assert_eq!(output.stderr, "");
    }
}

#[test]
fn readings_are_shown_as_given() {
    for reading in [0.0f32, -12.25, 7.0, 40.1, 1e10] {
        let output = closing_output("Rome", &Ok(reading.to_string()));
        assert_eq!(output.stdout, format!("Temperature in Rome : {}\u{b0}C\n", reading));
    }
}

#[test]
fn api_error_writes_to_both_streams() {
    let output = closing_output("Paris", &Err(FetchError::Api));
    assert_eq!(output.stdout, "error in the api\n");
    assert_eq!(output.stderr, "Error: Error in the API\n");
}

#[test]
fn transport_error_writes_to_standard_error_only() {
    let failure = FetchError::Transport("error sending request: connection refused".to_string());
    let output = closing_output("Paris", &Err(failure));
    assert_eq!(output.stdout, "");
    assert_eq!(output.stderr, "Error: error sending request: connection refused\n");
}

#[test]
fn parse_error_writes_to_standard_error_only() {
    let failure = FetchError::Parse("missing field `current` at line 1 column 2".to_string());
    let output = closing_output("Paris", &Err(failure));
    assert_eq!(output.stdout, "");
    assert_eq!(output.stderr, "Error: missing field `current` at line 1 column 2\n");
}

#[test]
fn messages_of_the_three_errors() {
    assert_eq!(FetchError::Api.message(), "Error in the API");
    assert_eq!(FetchError::Transport("timed out".to_string()).message(), "timed out");
    assert_eq!(FetchError::Parse("EOF while parsing".to_string()).message(), "EOF while parsing");
    assert_eq!(FetchError::Transport(String::new()).message(), "");
}

#[test]
fn run_with_a_temperature() {
    let reading: f32 = 21.5;
    let (stdout, stderr) = whole_run("Paris\n", &Ok(reading.to_string()));
    assert_eq!(
        stdout,
        "Hello user, choose a city to know the weather\nTemperature in Paris : 21.5\u{b0}C\n"
    );
    assert_eq!(stderr, "");
}

#[test]
fn run_with_a_refused_query() {
    for status in [401u16, 404, 500] {
        let error = check_status(status).unwrap_err();
        let (stdout, stderr) = whole_run("Paris\n", &Err(error));
        assert_eq!(stdout, "Hello user, choose a city to know the weather\nerror in the api\n");
        assert_eq!(stderr, "Error: Error in the API\n");
    }
}

#[test]
fn run_where_the_service_rejects_the_key() {
    let error = check_status(403).unwrap_err();
    let (stdout, stderr) = whole_run("  Berlin \n", &Err(error));
    assert_eq!(stdout, "Hello user, choose a city to know the weather\nerror in the api\n");
    assert_eq!(stderr, "Error: Error in the API\n");
}

#[test]
fn run_with_a_body_that_does_not_decode() {
    let broken = serde_json::from_str::<serde_json::Value>("{\"current\": ").unwrap_err();
    let message = broken.to_string();
    let (stdout, stderr) = whole_run("Paris\n", &Err(FetchError::Parse(message.clone())));
    assert_eq!(stdout, "Hello user, choose a city to know the weather\n");
    assert_eq!(stderr, format!("Error: {}\n", message));
    assert!(!stdout.contains("Temperature"));
}

#[test]
fn run_with_a_body_that_lacks_the_field() {
    let message = "missing field `current` at line 1 column 2";
    let (stdout, stderr) = whole_run("Paris\n", &Err(FetchError::Parse(message.to_string())));
    assert_eq!(stdout, "Hello user, choose a city to know the weather\n");
    assert_eq!(stderr, "Error: missing field `current` at line 1 column 2\n");
}

#[test]
fn run_with_a_transport_failure() {
    let failure = FetchError::Transport("connection refused".to_string());
    let (stdout, stderr) = whole_run("Paris\n", &Err(failure));
    assert_eq!(stdout, "Hello user, choose a city to know the weather\n");
    assert_eq!(stderr, "Error: connection refused\n");
    assert!(!stdout.contains("Temperature"));
    assert!(!stdout.contains("error in the api"));
}

#[test]
fn two_runs_write_the_same_bytes() {
    let outcomes = [
        Ok("21.5".to_string()),
        Err(FetchError::Api),
        Err(FetchError::Transport("timed out".to_string())),
        Err(FetchError::Parse("expected value at line 1 column 1".to_string())),
    ];
    for outcome in &outcomes {
        let first = whole_run("  Paris\n", outcome);
        let second = whole_run("  Paris\n", outcome);
        assert_eq!(first.0.as_bytes(), second.0.as_bytes());
        assert_eq!(first.1.as_bytes(), second.1.as_bytes());
    }
}

#[test]
fn padded_input_writes_what_the_bare_city_writes() {
    let outcome = Ok("21.5".to_string());
    assert_eq!(whole_run("  Paris\n", &outcome), whole_run("Paris", &outcome));
    assert_eq!(
        whole_run("  Paris\n", &outcome).0,
        "Hello user, choose a city to know the weather\nTemperature in Paris : 21.5\u{b0}C\n"
    );
}

#[test]
fn exactly_one_stream_reports_the_ending() {
    let good = closing_output("Paris", &Ok("1".to_string()));
    assert!(!good.stdout.is_empty() && good.stderr.is_empty());
    let refused = closing_output("Paris", &Err(FetchError::Api));
    assert!(!refused.stderr.is_empty());
    let dropped = closing_output("Paris", &Err(FetchError::Transport("x".to_string())));
    assert!(dropped.stdout.is_empty() && !dropped.stderr.is_empty());
}
