use cid::db::postgresql::client::dump_command;
use cid::db::postgresql::client::dump_result;
use cid::db::postgresql::client::restore_command;
use cid::db::postgresql::client::restore_step_outcome;
use cid::db::postgresql::client::DbConnectionConfig;
use cid::db::postgresql::client::DbError;
use cid::db::postgresql::client::DbRestoreStep;
use cid::db::postgresql::client::DbUriParsingStep;
use cid::db::postgresql::client::DumpInput;
use cid::db::postgresql::client::RESTORE_DUMP_PATH;

#[test]
fn it_should_return_valid_db_config_without_password() -> Result<(), DbError> {
    let config = DbConnectionConfig::from("yay@localhost/testdb")?;

    assert_eq!(config.username, "yay");
    assert!(config.password.is_none());
    assert_eq!(config.db_name, "testdb");
    assert_eq!(config.host, "localhost");
    assert!(config.port.is_none());

    return Ok(());
}

#[test]
fn it_should_return_valid_db_config_with_password() -> Result<(), DbError> {
    let config = DbConnectionConfig::from("yay:hidden@localhost/testdb")?;

    assert_eq!(config.username, "yay");
    assert_eq!(config.password.unwrap(), "hidden");
    assert_eq!(config.db_name, "testdb");
    assert_eq!(config.host, "localhost");
    assert!(config.port.is_none());

    return Ok(());
}

#[test]
fn it_should_return_valid_db_config_with_complete_uri() -> Result<(), DbError> {
    let config = DbConnectionConfig::from("yay:hidden@localhost:5544/testdb")?;

    assert_eq!(config.username, "yay");
    assert_eq!(config.password.unwrap(), "hidden");
    assert_eq!(config.db_name, "testdb");
    assert_eq!(config.host, "localhost");
    assert_eq!(config.port.unwrap(), "5544");

    return Ok(());
}

#[test]
fn uri_without_database_name_fails_at_db_name() {
    match DbConnectionConfig::from("yay@localhost") {
        Err(DbError::DbUriParseError { parsing_step, db_uri, message }) => {
            assert_eq!(parsing_step, "DbName");
            assert_eq!(db_uri, "yay@localhost");
            assert!(message.is_none());
        }
        other => panic!("unexpected {:?}", other),
    }
}

#[test]
fn uri_without_host_fails_at_host_and_port() {
    match DbConnectionConfig::from("yay/testdb") {
        Err(DbError::DbUriParseError { parsing_step, db_uri, .. }) => {
            assert_eq!(parsing_step, "HostAndPort");
            assert_eq!(db_uri, "yay/testdb");
        }
        other => panic!("unexpected {:?}", other),
    }
}

#[test]
fn empty_pieces_of_a_uri_are_kept() {
    let config = DbConnectionConfig::from(":@:/").unwrap();
    assert_eq!(config.username, "");
    assert_eq!(config.password.unwrap(), "");
    assert_eq!(config.host, "");
    assert_eq!(config.port.unwrap(), "");
    assert_eq!(config.db_name, "");
}

#[test]
fn extra_separators_are_ignored_past_the_second_piece() {
    let config = DbConnectionConfig::from("u:p:x@h:1:2/db/extra").unwrap();
    assert_eq!(config.username, "u");
    assert_eq!(config.password.unwrap(), "p");
    assert_eq!(config.host, "h");
    assert_eq!(config.port.unwrap(), "1");
    assert_eq!(config.db_name, "db");
}

#[test]
fn step_names_are_the_variant_names() {
    assert_eq!(DbUriParsingStep::CredentialAndHostCandidate.to_string(), "CredentialAndHostCandidate");
    assert_eq!(DbUriParsingStep::CredentialUsername.to_string(), "CredentialUsername");
    assert_eq!(DbRestoreStep::DropDb.to_string(), "DropDb");
    assert_eq!(DbRestoreStep::CreateDb.to_string(), "CreateDb");
    assert_eq!(DbRestoreStep::RestoreDb.to_string(), "RestoreDb");
}

#[test]
fn dump_command_uses_custom_format() {
    let command = dump_command(&DumpInput { db_uri: "u:p@host/db" });
    assert_eq!(command.program, "pg_dump");
    assert!(command.password.is_none());
    assert_eq!(command.args, vec!["postgres://u:p@host/db".to_string(), "-Fc".to_string()]);
}

#[test]
fn dump_fails_when_error_stream_is_not_empty() {
    assert_eq!(dump_result(vec![1, 2, 3], String::new()), Ok(vec![1, 2, 3]));
    assert_eq!(dump_result(vec![1, 2, 3], "warning".to_string()), Err("warning".to_string()));
}

#[test]
fn restore_commands_carry_credentials() {
    let config = DbConnectionConfig::from("yay:hidden@localhost:5544/testdb").unwrap();
    let drop = restore_command(&config, DbRestoreStep::DropDb, RESTORE_DUMP_PATH);
    assert_eq!(drop.program, "dropdb");
    assert_eq!(drop.password, Some("hidden".to_string()));
    assert_eq!(
        drop.args,
        vec!["--username=yay", "--host=localhost", "--port=5544", "testdb"]
    );
    let create = restore_command(&config, DbRestoreStep::CreateDb, RESTORE_DUMP_PATH);
    assert_eq!(create.program, "createdb");
    assert_eq!(create.args, drop.args);
    let restore = restore_command(&config, DbRestoreStep::RestoreDb, RESTORE_DUMP_PATH);
    assert_eq!(restore.program, "pg_restore");
    assert_eq!(
        restore.args,
        vec![
            "--username=yay",
            "--dbname=testdb",
            "--host=localhost",
            "--port=5544",
            "--single-transaction",
            "/tmp/cid.sql"
        ]
    );
}

#[test]
fn restore_without_password_or_port_uses_empty_values() {
    let config = DbConnectionConfig::from("yay@localhost/testdb").unwrap();
    let drop = restore_command(&config, DbRestoreStep::DropDb, RESTORE_DUMP_PATH);
    assert_eq!(drop.password, Some(String::new()));
    assert_eq!(drop.args, vec!["--username=yay", "--host=localhost", "--port=", "testdb"]);
}

#[test]
fn restore_steps_run_in_order_and_stop_on_failure() {
    assert_eq!(
        restore_step_outcome("u@h/d", DbRestoreStep::DropDb, true, "").unwrap(),
        Some(DbRestoreStep::CreateDb)
    );
    assert_eq!(
        restore_step_outcome("u@h/d", DbRestoreStep::CreateDb, true, "").unwrap(),
        Some(DbRestoreStep::RestoreDb)
    );
    assert_eq!(restore_step_outcome("u@h/d", DbRestoreStep::RestoreDb, true, "").unwrap(), None);
    match restore_step_outcome("u@h/d", DbRestoreStep::CreateDb, false, "createdb: error") {
        Err(DbError::DbRestoreError { restore_step, db_uri, message }) => {
            assert_eq!(restore_step, "CreateDb");
            assert_eq!(db_uri, "u@h/d");
            assert_eq!(message, Some("createdb: error".to_string()));
        }
        other => panic!("unexpected {:?}", other),
    }
}

#[test]
fn restore_step_with_error_output_fails_despite_exit_status() {
    match restore_step_outcome("u@h/d", DbRestoreStep::RestoreDb, true, "pg_restore: warning: x\n") {
        Err(DbError::DbRestoreError { restore_step, db_uri, message }) => {
            assert_eq!(restore_step, "RestoreDb");
            assert_eq!(db_uri, "u@h/d");
            assert_eq!(message, Some("pg_restore: warning: x\n".to_string()));
        }
        other => panic!("unexpected {:?}", other),
    }
    match restore_step_outcome("u@h/d", DbRestoreStep::DropDb, false, "") {
        Err(DbError::DbRestoreError { restore_step, message, .. }) => {
            assert_eq!(restore_step, "DropDb");
            assert_eq!(message, Some(String::new()));
        }
        other => panic!("unexpected {:?}", other),
    }
}
