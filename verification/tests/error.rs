use ava::error::Error;

#[test]
fn error_messages() {
    assert_eq!(Error::Database("locked".into()).message(), "database error: locked");
    assert_eq!(Error::Http("refused".into()).message(), "http error: refused");
    assert_eq!(Error::Io("not found".into()).message(), "io error: not found");
    assert_eq!(Error::MissingApiKey("K".into()).message(), "missing api key: K");
    assert_eq!(Error::MissingEnvVar("V".into()).message(), "missing env var: V");
    assert_eq!(Error::Provider("overloaded".into()).message(), "provider error: overloaded");
    assert_eq!(Error::Telegram("flood".into()).message(), "telegram error: flood");
    assert_eq!(Error::ExecTimeout(30).message(), "command timed out after 30s");
    assert_eq!(Error::ExecDenied.message(), "command denied by user");
    assert_eq!(Error::ApprovalTimeout.message(), "approval timed out");
}
