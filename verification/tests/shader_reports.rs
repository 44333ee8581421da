use flycam::shader::{
    brief_failure_report, brief_failure_report_bytes, failed, failure_report, failure_report_bytes, Query,
    Stage, STATUS_OK,
};

const RULE: &str = " -- --------------------------------------------------- -- ";

#[test]
fn the_stages_have_their_labels() {
    assert_eq!(Stage::Vertex.label(), "VERTEX");
    assert_eq!(Stage::Fragment.label(), "FRAGMENT");
    assert_eq!(Stage::Geometry.label(), "GEOMETRY");
    assert_eq!(Stage::Program.label(), "PROGRAM");
}

#[test]
fn only_the_program_is_asked_for_its_link_status() {
    assert_eq!(Stage::Vertex.query(), Query::CompileStatus);
    assert_eq!(Stage::Fragment.query(), Query::CompileStatus);
    assert_eq!(Stage::Geometry.query(), Query::CompileStatus);
    assert_eq!(Stage::Program.query(), Query::LinkStatus);
}

#[test]
fn success_is_the_value_one() {
    assert_eq!(STATUS_OK, 1);
}

#[test]
fn success_yields_no_report() {
    for stage in [Stage::Vertex, Stage::Fragment, Stage::Geometry, Stage::Program] {
        assert_eq!(failure_report(stage, 1, "whatever"), None);
        assert_eq!(brief_failure_report(stage, 1, "whatever"), None);
    }
}

#[test]
fn a_failed_shader_is_reported_as_a_compilation_error() {
    let log = "0:3(1): error: syntax error";
    assert_eq!(
        failure_report(Stage::Vertex, 0, log),
        Some(format!("ERROR::SHADER_COMPILATION_ERROR of type: VERTEX\n{}\n{}", log, RULE))
    );
    assert_eq!(
        failure_report(Stage::Fragment, 0, log),
        Some(format!("ERROR::SHADER_COMPILATION_ERROR of type: FRAGMENT\n{}\n{}", log, RULE))
    );
    assert_eq!(
        failure_report(Stage::Geometry, 0, log),
        Some(format!("ERROR::SHADER_COMPILATION_ERROR of type: GEOMETRY\n{}\n{}", log, RULE))
    );
}

#[test]
fn a_failed_program_is_reported_as_a_linking_error() {
    let log = "error: linking with uncompiled shader";
    assert_eq!(
        failure_report(Stage::Program, 0, log),
        Some(format!("ERROR::PROGRAM_LINKING_ERROR of type: PROGRAM\n{}\n{}", log, RULE))
    );
}

#[test]
fn the_exact_text_of_a_report() {
    assert_eq!(
        failure_report(Stage::Vertex, 0, "bad").unwrap(),
        "ERROR::SHADER_COMPILATION_ERROR of type: VERTEX\nbad\n -- --------------------------------------------------- -- "
    );
}

#[test]
fn any_status_but_one_is_a_failure() {
    for status in [0, -1, 2, 255, i32::MAX, i32::MIN] {
        assert!(failure_report(Stage::Vertex, status, "").is_some(), "{}", status);
        assert!(brief_failure_report(Stage::Program, status, "").is_some(), "{}", status);
    }
}

#[test]
fn an_empty_log_leaves_an_empty_line() {
    assert_eq!(
        failure_report(Stage::Program, 0, "").unwrap(),
        format!("ERROR::PROGRAM_LINKING_ERROR of type: PROGRAM\n\n{}", RULE)
    );
}

#[test]
fn a_log_with_other_than_ascii_goes_through_unchanged() {
    let log = "Fehler: unzul\u{e4}ssig \u{2014} \0\0";
    assert_eq!(
        failure_report(Stage::Fragment, 0, log).unwrap(),
        format!("ERROR::SHADER_COMPILATION_ERROR of type: FRAGMENT\n{}\n{}", log, RULE)
    );
}

#[test]
fn the_brief_reports() {
    assert_eq!(
        brief_failure_report(Stage::Vertex, 0, "log text").unwrap(),
        "ERROR::SHADER::VERTEX::COMPILATION_FAILED\nlog text"
    );
    assert_eq!(
        brief_failure_report(Stage::Fragment, 0, "log text").unwrap(),
        "ERROR::SHADER::FRAGMENT::COMPILATION_FAILED\nlog text"
    );
    assert_eq!(
        brief_failure_report(Stage::Program, 0, "log text").unwrap(),
        "ERROR::SHADER::PROGRAM::COMPILATION_FAILED\nlog text"
    );
    assert_eq!(
        brief_failure_report(Stage::Geometry, 0, "").unwrap(),
        "ERROR::SHADER::GEOMETRY::COMPILATION_FAILED\n"
    );
}

#[test]
fn only_the_value_one_is_no_failure() {
    assert!(!failed(1));
    for status in [0, -1, 2, 255, i32::MAX, i32::MIN] {
        assert!(failed(status), "{}", status);
    }
}

#[test]
fn success_yields_no_report_in_bytes() {
    for stage in [Stage::Vertex, Stage::Fragment, Stage::Geometry, Stage::Program] {
        assert_eq!(failure_report_bytes(stage, 1, b"whatever"), None);
        assert_eq!(brief_failure_report_bytes(stage, 1, &[0xff, 0xfe]), None);
    }
}

#[test]
fn a_report_in_bytes_is_the_text_report_where_the_log_is_text() {
    let logs = ["", "0:3(1): error: syntax error", "Fehler: unzul\u{e4}ssig \u{2014} \0\0"];
    for stage in [Stage::Vertex, Stage::Fragment, Stage::Geometry, Stage::Program] {
        for log in logs {
            assert_eq!(
                failure_report_bytes(stage, 0, log.as_bytes()),
                failure_report(stage, 0, log).map(String::into_bytes)
            );
            assert_eq!(
                brief_failure_report_bytes(stage, 0, log.as_bytes()),
                brief_failure_report(stage, 0, log).map(String::into_bytes)
            );
        }
    }
}

#[test]
fn a_log_that_is_no_text_goes_into_the_report_byte_for_byte() {
    let log: [u8; 6] = [0xff, 0xfe, 0x00, 0xc3, 0x28, 0x80];
    let mut expected: Vec<u8> = Vec::new();
    expected.extend_from_slice(b"ERROR::SHADER_COMPILATION_ERROR of type: FRAGMENT\n");
    expected.extend_from_slice(&log);
    expected.extend_from_slice(b"\n -- --------------------------------------------------- -- ");
    assert_eq!(failure_report_bytes(Stage::Fragment, 0, &log), Some(expected));

    let mut brief: Vec<u8> = Vec::new();
    brief.extend_from_slice(b"ERROR::SHADER::PROGRAM::COMPILATION_FAILED\n");
    brief.extend_from_slice(&log);
    assert_eq!(brief_failure_report_bytes(Stage::Program, 0, &log), Some(brief));
}

#[test]
fn a_log_cut_inside_a_character_is_reported_all_the_same() {
    let text = "unzul\u{e4}ssig";
    let cut = &text.as_bytes()[..6];
    assert!(std::str::from_utf8(cut).is_err());
    let report = failure_report_bytes(Stage::Program, 0, cut).unwrap();
    let mut expected: Vec<u8> = Vec::new();
    expected.extend_from_slice(b"ERROR::PROGRAM_LINKING_ERROR of type: PROGRAM\n");
    expected.extend_from_slice(cut);
    expected.extend_from_slice(b"\n -- --------------------------------------------------- -- ");
    assert_eq!(report, expected);
}

#[test]
fn a_full_buffer_of_log_is_reported_whole() {
    let log = vec![b'x'; 1023];
    let report = failure_report_bytes(Stage::Vertex, 0, &log).unwrap();
    assert_eq!(
        report.len(),
        "ERROR::SHADER_COMPILATION_ERROR of type: VERTEX\n".len() + 1023 + "\n".len() + RULE.len()
    );
    assert_eq!(&report[48..48 + 1023], &log[..]);
    assert!(report.ends_with(b" -- "));
}
