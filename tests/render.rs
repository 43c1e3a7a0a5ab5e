use dev_core::{AppError, AppErrorCode};

fn err(message: &str, code: i32) -> AppError {
    AppError { message: message.to_string(), code: AppErrorCode(code) }
}

#[test]
fn not_found_renders_404_with_body() {
    let e = err("x", 4001);
    assert_eq!(e.status_code(), 404);
    assert_eq!(e.response_body(), "{\"message\":\"x\",\"code\":4001}");
}

#[test]
fn permission_denied_falls_back_to_500() {
    assert_eq!(err("x", 9001).status_code(), 500);
}

#[test]
fn status_table() {
    assert_eq!(err("x", 2001).status_code(), 400);
    assert_eq!(err("x", 3001).status_code(), 401);
    assert_eq!(err("x", 3002).status_code(), 401);
    assert_eq!(err("x", 5001).status_code(), 500);
    assert_eq!(err("x", 1001).status_code(), 500);
    assert_eq!(err("x", 8001).status_code(), 500);
    assert_eq!(err("x", -7).status_code(), 500);
}

#[test]
fn body_escapes_message_and_writes_negative_code() {
    let e = err("say \"hi\"\n", -42);
    assert_eq!(e.response_body(), "{\"message\":\"say \\\"hi\\\"\\n\",\"code\":-42}");
    let e = err("", 0);
    assert_eq!(e.response_body(), "{\"message\":\"\",\"code\":0}");
}
