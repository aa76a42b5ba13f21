use notion_tasks::error::{Error, ErrorKind, SchemaProblem};

#[test]
fn notion_error_message() {
    let error = Error::Notion { message: "API Error".to_string() };
    assert_eq!(error.message(), "Notion error: API Error");
    assert_eq!(error.kind(), ErrorKind::RemoteStore);
}

#[test]
fn environment_error_message() {
    let error = Error::Environment { message: "environment variable not found".to_string() };
    assert_eq!(error.message(), "Environment error: environment variable not found");
    assert_eq!(error.kind(), ErrorKind::Configuration);
}

#[test]
fn dotenv_error_message() {
    let error = Error::Dotenv { message: "path not found".to_string() };
    assert_eq!(error.message(), "Dotenv error: path not found");
    assert_eq!(error.kind(), ErrorKind::Configuration);
}

#[test]
fn no_database_message() {
    assert_eq!(Error::NoDatabase.message(), "Schema error: no database found");
    assert_eq!(Error::NoDatabase.kind(), ErrorKind::SchemaMismatch);
}

#[test]
fn schema_mismatch_messages() {
    let text = |problem: SchemaProblem| {
        Error::SchemaMismatch { property: "Due Date".to_string(), problem }.message()
    };
    assert_eq!(text(SchemaProblem::Missing), "Schema error: property Due Date is missing");
    assert_eq!(text(SchemaProblem::WrongKind), "Schema error: property Due Date is of another kind");
    assert_eq!(text(SchemaProblem::Empty), "Schema error: property Due Date has no value");
    assert_eq!(
        text(SchemaProblem::Incomplete),
        "Schema error: property Due Date lacks its id or its name"
    );
    let error = Error::SchemaMismatch { property: "Name".to_string(), problem: SchemaProblem::Missing };
    assert_eq!(error.kind(), ErrorKind::SchemaMismatch);
}

#[test]
fn referential_error_reads_as_a_store_error() {
    let error = Error::Referential {
        reference: "page-9".to_string(),
        message: "object not found".to_string(),
    };
    assert_eq!(error.message(), "Notion error: object not found");
    assert_eq!(error.kind(), ErrorKind::Referential);
}
