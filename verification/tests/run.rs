use csv::{ReaderBuilder, StringRecord, WriterBuilder};
use series_extract::numeric::{numeric_text, NumericError};
use series_extract::resolve::{Columns, MatchError, ResolveError};
use series_extract::row::{
    select_cells, RowCells, EVENT_COUNT_DIGITS, MEASUREMENT_DIGITS, MIN_DATA_CELLS,
    TEMPERATURE_DIGITS, WAVELENGTH_DIGITS,
};
use series_extract::transcode::{start, step, Event, HeaderRow, Query, RunError, State, Step};

#[derive(Debug, PartialEq)]
enum Failure {
    Run(RunError),
    Numeric(NumericError),
}

struct Outcome {
    output: String,
    rows_read: usize,
    columns: Option<Columns>,
    result: Result<(), Failure>,
}

fn query(series: &str, r_kind: &str) -> Query {
    Query { series: series.to_string(), r_kind: r_kind.to_string() }
}

fn row(cells: &[&str]) -> StringRecord {
    StringRecord::from(cells.to_vec())
}

fn fixed(cell: &str, digits: usize) -> Result<String, NumericError> {
    let text = numeric_text(cell)?;
    match text.decimal.parse::<f64>() {
        Ok(value) => Ok(format!("{:.*}", digits, value)),
        Err(_) => Err(text.malformed()),
    }
}

fn output_row(cells: &RowCells) -> Result<[String; 4], NumericError> {
    let wavelength = fixed(&cells.wavelength, WAVELENGTH_DIGITS)?;
    let event_count = fixed(&cells.event_count, EVENT_COUNT_DIGITS)?;
    let temperature = fixed(&cells.temperature, TEMPERATURE_DIGITS)?;
    let measurement = fixed(&cells.measurement, MEASUREMENT_DIGITS)?;
    Ok([event_count, wavelength, temperature, measurement])
}

fn run(input: &str, series: &str, r_kind: &str) -> Outcome {
    let query = query(series, r_kind);
    let mut reader = ReaderBuilder::new()
        .delimiter(b';')
        .has_headers(false)
        .flexible(true)
        .from_reader(input.as_bytes());
    let mut writer = WriterBuilder::new().delimiter(b'\t').has_headers(false).from_writer(vec![]);
    let mut state = start();
    let mut rows_read = 0;
    let mut columns = None;
    let result = loop {
        let mut record = StringRecord::new();
        let event = if reader.read_record(&mut record).unwrap() {
            rows_read += 1;
            Event::Row(record)
        } else {
            Event::End
        };
        state = match step(&query, state, event) {
            Step::Header { next } => next,
            Step::Resolved { next, columns: resolved } => {
                columns = Some(resolved);
                next
            }
            Step::Skipped { next } => next,
            Step::Cells { next, cells } => match output_row(&cells) {
                Ok(fields) => {
                    writer.write_record(&fields).unwrap();
                    next
                }
                Err(e) => break Err(Failure::Numeric(e)),
            },
            Step::Finished => break Ok(()),
            Step::Failed(e) => break Err(Failure::Run(e)),
        };
    };
    let output = String::from_utf8(writer.into_inner().unwrap()).unwrap();
    Outcome { output, rows_read, columns, result }
}

const HEADER: &str = "Nm;Ev;T;R-T;R-N\nnm;eV;K;;\n;;SampleA;SampleA;SampleB\n";

#[test]
fn one_data_row_is_written_with_fixed_digits() {
    let input = format!("{}1.50;2.30;300,5;0,987\n", HEADER);
    let outcome = run(&input, "SampleA", "R-T");
    assert_eq!(outcome.result, Ok(()));
    assert_eq!(outcome.columns, Some(Columns { temperature: 2, measurement: 3 }));
    assert_eq!(outcome.output, "2.300000\t1.500\t300.50000000\t0.98700000\n");
}

#[test]
fn rows_are_written_in_the_order_read() {
    let input = format!("{}1;2;3;4;5\n10;20;30;40;50\n", HEADER);
    let outcome = run(&input, "sampleb", "R-N");
    assert_eq!(
        outcome.result,
        Err(Failure::Run(RunError::Column(ResolveError {
            wanted_type: "T".to_string(),
            series_query: "sampleb".to_string(),
            cause: MatchError::NotFound,
        })))
    );
    let outcome = run(&input, "samplea", "R-T");
    assert_eq!(outcome.result, Ok(()));
    assert_eq!(
        outcome.output,
        "2.000000\t1.000\t3.00000000\t4.00000000\n20.000000\t10.000\t30.00000000\t40.00000000\n"
    );
}

#[test]
fn short_rows_are_skipped_without_output_or_error() {
    let input = format!("{}1;2;3;4\n\n7\n5;6;7;8\n9\n", HEADER);
    let outcome = run(&input, "SampleA", "R-T");
    assert_eq!(outcome.result, Ok(()));
    assert_eq!(
        outcome.output,
        "2.000000\t1.000\t3.00000000\t4.00000000\n6.000000\t5.000\t7.00000000\t8.00000000\n"
    );
}

#[test]
fn short_row_leaves_the_state_as_it_is() {
    let columns = Columns { temperature: 2, measurement: 3 };
    let query = query("SampleA", "R-T");
    assert_eq!(MIN_DATA_CELLS, 2);
    assert_eq!(
        step(&query, State::Data { columns }, Event::Row(row(&[]))),
        Step::Skipped { next: State::Data { columns } }
    );
    assert_eq!(
        step(&query, State::Data { columns }, Event::Row(row(&["1,5"]))),
        Step::Skipped { next: State::Data { columns } }
    );
    assert_eq!(select_cells(&row(&["1,5"]), &columns), None);
    assert_eq!(select_cells(&row(&[]), &columns), None);
}

#[test]
fn data_row_hands_out_the_cells_at_the_resolved_columns() {
    let columns = Columns { temperature: 4, measurement: 2 };
    let query = query("SampleA", "R-T");
    let cells = RowCells {
        wavelength: "a".to_string(),
        event_count: "b".to_string(),
        temperature: "e".to_string(),
        measurement: "c".to_string(),
    };
    assert_eq!(
        step(&query, State::Data { columns }, Event::Row(row(&["a", "b", "c", "d", "e"]))),
        Step::Cells { next: State::Data { columns }, cells }
    );
}

#[test]
fn row_of_two_cells_lacks_the_resolved_cells() {
    let columns = Columns { temperature: 2, measurement: 3 };
    let cells = select_cells(&row(&["1", "2"]), &columns).unwrap();
    assert_eq!(
        cells,
        RowCells {
            wavelength: "1".to_string(),
            event_count: "2".to_string(),
            temperature: String::new(),
            measurement: String::new(),
        }
    );
    let input = format!("{}1;2;3;4\n5;6\n7;8;9;10\n", HEADER);
    let outcome = run(&input, "SampleA", "R-T");
    assert_eq!(outcome.result, Err(Failure::Numeric(NumericError::Empty)));
    assert_eq!(outcome.output, "2.000000\t1.000\t3.00000000\t4.00000000\n");
    assert_eq!(outcome.rows_read, 5);
}

#[test]
fn malformed_cell_stops_the_run_and_keeps_earlier_rows() {
    let input = format!("{}1;2;3;4\n1; x2 ;3;\n5;6;7;8\n", HEADER);
    let outcome = run(&input, "SampleA", "R-T");
    assert_eq!(
        outcome.result,
        Err(Failure::Numeric(NumericError::Malformed { text: "x2".to_string() }))
    );
    assert_eq!(outcome.output, "2.000000\t1.000\t3.00000000\t4.00000000\n");
}

#[test]
fn first_failing_cell_is_reported() {
    let input = format!("{}abc;;3;4\n", HEADER);
    let outcome = run(&input, "SampleA", "R-T");
    assert_eq!(
        outcome.result,
        Err(Failure::Numeric(NumericError::Malformed { text: "abc".to_string() }))
    );
    let input = format!("{}1;;3;zzz\n", HEADER);
    let outcome = run(&input, "SampleA", "R-T");
    assert_eq!(outcome.result, Err(Failure::Numeric(NumericError::Empty)));
}

#[test]
fn ambiguous_series_fails_before_any_output() {
    let input = "Nm;Ev;T;R-T;T;R-T\n;;;;;\n;;SampleA;SampleA;SampleA2;SampleA2\n1;2;3;4;5;6\n";
    let outcome = run(input, "SampleA", "R-T");
    assert_eq!(
        outcome.result,
        Err(Failure::Run(RunError::Column(ResolveError {
            wanted_type: "T".to_string(),
            series_query: "SampleA".to_string(),
            cause: MatchError::Ambiguous { indices: vec![2, 4] },
        })))
    );
    assert_eq!(outcome.output, "");
    assert_eq!(outcome.columns, None);
    assert_eq!(outcome.rows_read, 3);
}

#[test]
fn unknown_kind_fails_before_any_data_row_is_read() {
    let input = format!("{}1.50;2.30;300,5;0,987\n", HEADER);
    let outcome = run(&input, "SampleA", "R-X");
    assert_eq!(
        outcome.result,
        Err(Failure::Run(RunError::Column(ResolveError {
            wanted_type: "R-X".to_string(),
            series_query: "SampleA".to_string(),
            cause: MatchError::NotFound,
        })))
    );
    assert_eq!(outcome.rows_read, 3);
    assert_eq!(outcome.output, "");
}

#[test]
fn table_without_rows_lacks_the_first_header_row() {
    let outcome = run("", "SampleA", "R-T");
    assert_eq!(outcome.result, Err(Failure::Run(RunError::MissingHeader(HeaderRow::Types))));
    assert_eq!(outcome.rows_read, 0);
}

#[test]
fn table_of_one_row_lacks_the_second_header_row() {
    let outcome = run("Nm;Ev;T;R-T\n", "SampleA", "R-T");
    assert_eq!(
        outcome.result,
        Err(Failure::Run(RunError::MissingHeader(HeaderRow::Description)))
    );
}

#[test]
fn table_of_two_rows_lacks_the_third_header_row() {
    let outcome = run("Nm;Ev;T;R-T\nnm;eV;K;\n", "SampleA", "R-T");
    assert_eq!(outcome.result, Err(Failure::Run(RunError::MissingHeader(HeaderRow::Series))));
}

#[test]
fn header_alone_gives_an_empty_output() {
    let outcome = run(HEADER, "SampleA", "R-T");
    assert_eq!(outcome.result, Ok(()));
    assert_eq!(outcome.columns, Some(Columns { temperature: 2, measurement: 3 }));
    assert_eq!(outcome.output, "");
}

#[test]
fn header_rows_are_taken_in_turn() {
    let query = query("SampleA", "R-T");
    let types = row(&["Nm", "Ev", "T", "R-T"]);
    let state = start();
    assert_eq!(state, State::AwaitTypes);
    assert_eq!(state.awaited_header(), Some(HeaderRow::Types));
    let state = match step(&query, state, Event::Row(types.clone())) {
        Step::Header { next } => next,
        other => panic!("{:?}", other),
    };
    assert_eq!(state, State::AwaitDescription { types: types.clone() });
    assert_eq!(state.awaited_header(), Some(HeaderRow::Description));
    let state = match step(&query, state, Event::Row(row(&["T", "T", "T", "T"]))) {
        Step::Header { next } => next,
        other => panic!("{:?}", other),
    };
    assert_eq!(state, State::AwaitSeries { types });
    assert_eq!(state.awaited_header(), Some(HeaderRow::Series));
    let columns = Columns { temperature: 2, measurement: 3 };
    let state = match step(&query, state, Event::Row(row(&["", "", "SampleA", "SampleA"]))) {
        Step::Resolved { next, columns: resolved } => {
            assert_eq!(resolved, columns);
            next
        }
        other => panic!("{:?}", other),
    };
    assert_eq!(state, State::Data { columns });
    assert_eq!(state.awaited_header(), None);
    assert_eq!(step(&query, state, Event::End), Step::Finished);
}

#[test]
fn descriptive_row_is_not_searched() {
    let input = "Nm;Ev;T;R-T\nT;T;SampleA;SampleA\n;;SampleA;SampleA\n1;2;3;4\n";
    let outcome = run(input, "SampleA", "R-T");
    assert_eq!(outcome.result, Ok(()));
    assert_eq!(outcome.columns, Some(Columns { temperature: 2, measurement: 3 }));
}

#[test]
fn large_and_negative_values_keep_plain_notation() {
    let input = format!("{}1e3;-2,5;1e-9;123456789,123456789\n", HEADER);
    let outcome = run(&input, "SampleA", "R-T");
    assert_eq!(outcome.result, Ok(()));
    assert_eq!(outcome.output, "-2.500000\t1000.000\t0.00000000\t123456789.12345679\n");
}
