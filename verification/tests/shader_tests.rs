use realms::shader::{info_log_message, Shader, ShaderProgram, ShaderType};

#[test]
fn info_log_message_stops_at_first_nul() {
    let log = b"0:1: error: syntax error\0leftover buffer bytes\0";
    let msg = info_log_message(log).expect("log holds a NUL");
    assert_eq!(msg, b"0:1: error: syntax error".to_vec());
}

#[test]
fn info_log_message_of_empty_message() {
    let log = [0u8; 16];
    let msg = info_log_message(&log).expect("log holds a NUL");
    assert_eq!(msg, Vec::<u8>::new());
}

#[test]
fn info_log_message_without_nul_is_malformed() {
    let log = b"a message that never ends";
    assert!(info_log_message(log).is_none());
    assert!(info_log_message(&[]).is_none());
}

#[test]
fn shader_ids_are_kept() {
    let shader = Shader { gl_id: 11 };
    let program = ShaderProgram { gl_id: 12 };
    assert_eq!(shader.gl_id, 11);
    assert_eq!(program.gl_id, 12);
    assert!(matches!(ShaderType::Vertex, ShaderType::Vertex));
    assert!(matches!(ShaderType::Fragment, ShaderType::Fragment));
}
