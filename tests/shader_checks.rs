use learn_gl::shader::{
    error_report, info_log_len, succeeded, ShaderType, StatusQuery, INFO_LOG_CAPACITY,
    STATUS_TRUE,
};

#[test]
fn labels_name_each_kind() {
    assert_eq!(ShaderType::Vertex.label(), "VERTEX");
    assert_eq!(ShaderType::Fragment.label(), "FRAGMENT");
    assert_eq!(ShaderType::Program.label(), "PROGRAM");
}

#[test]
fn stages_are_checked_by_compile_status_and_programs_by_link_status() {
    assert_eq!(ShaderType::Vertex.status_query(), StatusQuery::Compile);
    assert_eq!(ShaderType::Fragment.status_query(), StatusQuery::Compile);
    assert_eq!(ShaderType::Program.status_query(), StatusQuery::Link);
}

#[test]
fn only_the_true_flag_is_success() {
    assert!(succeeded(STATUS_TRUE));
    assert!(succeeded(1));
    assert!(!succeeded(0));
    assert!(!succeeded(2));
    assert!(!succeeded(-1));
}

#[test]
fn compile_report_text() {
    let r = error_report(ShaderType::Vertex, "0:3(1): error: syntax error");
    assert_eq!(
        r,
        "ERROR::SHADER_COMPILATION_ERROR of type: VERTEX\n0:3(1): error: syntax error\n -- --------------------------------------------------- -- "
    );
}

#[test]
fn fragment_report_names_fragment() {
    let r = error_report(ShaderType::Fragment, "x");
    assert!(r.starts_with("ERROR::SHADER_COMPILATION_ERROR of type: FRAGMENT\nx\n"));
}

#[test]
fn link_report_text() {
    let r = error_report(ShaderType::Program, "");
    assert_eq!(
        r,
        "ERROR::PROGRAM_LINKING_ERROR of type: PROGRAM\n\n -- --------------------------------------------------- -- "
    );
}

#[test]
fn log_ends_at_first_zero_byte() {
    let mut buf = vec![0u8; INFO_LOG_CAPACITY];
    buf[..5].copy_from_slice(b"error");
    assert_eq!(info_log_len(&buf), 5);
}

#[test]
fn log_without_terminator_takes_whole_buffer() {
    assert_eq!(info_log_len(b"abc"), 3);
}

#[test]
fn empty_log_buffer() {
    assert_eq!(info_log_len(&[]), 0);
    assert_eq!(info_log_len(&[0u8, 65, 66]), 0);
}
