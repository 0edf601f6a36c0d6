//! PostgreSQL connection strings, and the commands that dump a database and
//! restore one from a dump. Running the commands is left to the caller: this
//! module says which command runs, with which arguments, and what its outcome
//! means.
use vstd::prelude::*;

use crate::text::lemma_split_nonempty;
use crate::text::opt_view;
use crate::text::piece;
use crate::text::split_char;
use crate::text::split_seq;
use crate::text::views;

verus! {

pub struct DumpInput<'a> {
    pub db_uri: &'a str,
}

pub struct RestoreInput<'a> {
    pub db_uri: &'a str,
    pub sql: Vec<u8>,
}

/// The parts of a connection string `user[:password]@host[:port]/db_name`.
#[derive(Debug)]
pub struct DbConnectionConfig {
    pub db_name: String,
    pub host: String,
    pub port: Option<String>,
    pub username: String,
    pub password: Option<String>,
}

#[derive(Debug, Clone)]
pub enum DbError {
    DbUriParseError { parsing_step: String, db_uri: String, message: Option<String> },
    DbRestoreError { restore_step: String, db_uri: String, message: Option<String> },
}

/// The part of a connection string that a parse was looking for.
#[derive(Debug, Clone, Copy, PartialEq, Eq)]
pub enum DbUriParsingStep {
    DbName,
    CredentialAndHostCandidate,
    HostAndPort,
    Host,
    Credential,
    CredentialUsername,
}

/// The stages of a restore, in the order in which they run.
#[derive(Debug, Clone, Copy, PartialEq, Eq)]
pub enum DbRestoreStep {
    DropDb,
    CreateDb,
    RestoreDb,
}

/// A program to run, the password to hand it in `PGPASSWORD`, if any, and its
/// arguments.
#[derive(Debug)]
pub struct PgCommand {
    pub program: String,
    pub password: Option<String>,
    pub args: Vec<String>,
}

/// Where a restore puts the dump for `pg_restore` to read.
pub const RESTORE_DUMP_PATH: &'static str = "/tmp/cid.sql";

impl DbUriParsingStep {
    pub open spec fn spec_name(self) -> Seq<char> {
        match self {
            DbUriParsingStep::DbName => "DbName"@,
            DbUriParsingStep::CredentialAndHostCandidate => "CredentialAndHostCandidate"@,
            DbUriParsingStep::HostAndPort => "HostAndPort"@,
            DbUriParsingStep::Host => "Host"@,
            DbUriParsingStep::Credential => "Credential"@,
            DbUriParsingStep::CredentialUsername => "CredentialUsername"@,
        }
    }

    /// The step's name, as it appears in errors.
    pub fn to_string(&self) -> (r: String)
        ensures
            r@ == self.spec_name(),
    {
        match self {
            DbUriParsingStep::DbName => String::from_str("DbName"),
            DbUriParsingStep::CredentialAndHostCandidate => String::from_str(
                "CredentialAndHostCandidate",
            ),
            DbUriParsingStep::HostAndPort => String::from_str("HostAndPort"),
            DbUriParsingStep::Host => String::from_str("Host"),
            DbUriParsingStep::Credential => String::from_str("Credential"),
            DbUriParsingStep::CredentialUsername => String::from_str("CredentialUsername"),
        }
    }
}

impl DbRestoreStep {
    pub open spec fn spec_name(self) -> Seq<char> {
        match self {
            DbRestoreStep::DropDb => "DropDb"@,
            DbRestoreStep::CreateDb => "CreateDb"@,
            DbRestoreStep::RestoreDb => "RestoreDb"@,
        }
    }

    /// The step that follows this one, if any.
    pub open spec fn spec_next(self) -> Option<DbRestoreStep> {
        match self {
            DbRestoreStep::DropDb => Some(DbRestoreStep::CreateDb),
            DbRestoreStep::CreateDb => Some(DbRestoreStep::RestoreDb),
            DbRestoreStep::RestoreDb => None,
        }
    }

    /// The program that the step runs.
    pub open spec fn spec_program(self) -> Seq<char> {
        match self {
            DbRestoreStep::DropDb => "dropdb"@,
            DbRestoreStep::CreateDb => "createdb"@,
            DbRestoreStep::RestoreDb => "pg_restore"@,
        }
    }

    /// The step's name, as it appears in errors.
    pub fn to_string(&self) -> (r: String)
        ensures
            r@ == self.spec_name(),
    {
        match self {
            DbRestoreStep::DropDb => String::from_str("DropDb"),
            DbRestoreStep::CreateDb => String::from_str("CreateDb"),
            DbRestoreStep::RestoreDb => String::from_str("RestoreDb"),
        }
    }
}

/// `e` is the error of a parse of `db_uri` that failed at `step`.
pub open spec fn is_parse_error(e: DbError, db_uri: Seq<char>, step: DbUriParsingStep) -> bool {
    &&& e matches DbError::DbUriParseError { parsing_step, db_uri: u, message }
    &&& parsing_step@ == step.spec_name()
    &&& u@ == db_uri
    &&& message is None
}

/// `e` is the error of a restore of `db_uri` that failed at `step`, carrying
/// what the failed command wrote to its error stream.
pub open spec fn is_restore_error(e: DbError, db_uri: Seq<char>, step: DbRestoreStep, stderr: Seq<char>) -> bool {
    &&& e matches DbError::DbRestoreError { restore_step, db_uri: u, message }
    &&& restore_step@ == step.spec_name()
    &&& u@ == db_uri
    &&& opt_view(message) == Some(stderr)
}

impl DbError {
    fn parse_error(db_uri: &str, step: DbUriParsingStep, message: Option<String>) -> (r: DbError)
        ensures
            r matches DbError::DbUriParseError { parsing_step, db_uri: u, message: m } && parsing_step@
                == step.spec_name() && u@ == db_uri@ && m == message,
    {
        DbError::DbUriParseError {
            db_uri: String::from_str(db_uri),
            parsing_step: step.to_string(),
            message,
        }
    }

    fn restore_error(db_uri: &str, step: DbRestoreStep, message: Option<String>) -> (r: DbError)
        ensures
            r matches DbError::DbRestoreError { restore_step, db_uri: u, message: m } && restore_step@
                == step.spec_name() && u@ == db_uri@ && m == message,
    {
        DbError::DbRestoreError {
            db_uri: String::from_str(db_uri),
            restore_step: step.to_string(),
            message,
        }
    }
}

/// A connection string split at `/`: the target, then the database name.
pub open spec fn uri_pieces(db_uri: Seq<char>) -> Seq<Seq<char>> {
    split_seq(db_uri, '/')
}

/// The target split at `@`: the credential, then host and port.
pub open spec fn target_pieces(db_uri: Seq<char>) -> Seq<Seq<char>> {
    split_seq(uri_pieces(db_uri)[0], '@')
}

/// The credential: user name, then password.
pub open spec fn credential_of(db_uri: Seq<char>) -> Seq<char> {
    target_pieces(db_uri)[0]
}

/// Host and port.
pub open spec fn host_and_port_of(db_uri: Seq<char>) -> Seq<char> {
    target_pieces(db_uri)[1]
}

/// `db_uri` has the parts that a connection needs: a database name after a
/// `/`, and a host after an `@`.
pub open spec fn uri_parses(db_uri: Seq<char>) -> bool {
    uri_pieces(db_uri).len() >= 2 && target_pieces(db_uri).len() >= 2
}

/// The `i`th of `parts`, or the error of the parse of `db_uri` at `step`.
fn part_at<'a>(parts: &'a Vec<String>, i: usize, db_uri: &str, step: DbUriParsingStep) -> (r:
    Result<&'a String, DbError>)
    ensures
        i < parts@.len() ==> (r matches Ok(p) && *p == parts@[i as int]),
        i >= parts@.len() ==> (r matches Err(e) && is_parse_error(e, db_uri@, step)),
{
    if i < parts.len() {
        Ok(&parts[i])
    } else {
        Err(DbError::parse_error(db_uri, step, None))
    }
}

/// The `i`th of `parts`, if there is one.
fn optional_part(parts: &Vec<String>, i: usize) -> (r: Option<String>)
    ensures
        opt_view(r) == (if i < parts@.len() {
            Some(parts@[i as int]@)
        } else {
            None::<Seq<char>>
        }),
{
    if i < parts.len() {
        Some(parts[i].clone())
    } else {
        None
    }
}

impl DbConnectionConfig {
    /// Parses `user[:password]@host[:port]/db_name`.
    pub fn from(db_uri: &str) -> (r: Result<DbConnectionConfig, DbError>)
        ensures
            r is Ok <==> uri_parses(db_uri@),
            uri_pieces(db_uri@).len() < 2 ==> (r matches Err(e) && is_parse_error(
                e,
                db_uri@,
                DbUriParsingStep::DbName,
            )),
            uri_pieces(db_uri@).len() >= 2 && target_pieces(db_uri@).len() < 2 ==> (r matches Err(e)
                && is_parse_error(e, db_uri@, DbUriParsingStep::HostAndPort)),
            r matches Ok(c) ==> {
                &&& c.db_name@ == uri_pieces(db_uri@)[1]
                &&& c.host@ == split_seq(host_and_port_of(db_uri@), ':')[0]
                &&& opt_view(c.port) == piece(host_and_port_of(db_uri@), ':', 1)
                &&& c.username@ == split_seq(credential_of(db_uri@), ':')[0]
                &&& opt_view(c.password) == piece(credential_of(db_uri@), ':', 1)
            },
    {
        let parts = split_char(db_uri, '/');
        proof {
            lemma_split_nonempty(db_uri@, '/');
        }
        let db_name = part_at(&parts, 1, db_uri, DbUriParsingStep::DbName)?;
        let target = part_at(&parts, 0, db_uri, DbUriParsingStep::CredentialAndHostCandidate)?;
        proof {
            assert(parts@[0]@ == views(parts@)[0]);
            assert(parts@[1]@ == views(parts@)[1]);
        }

        let parts = split_char(target.as_str(), '@');
        proof {
            lemma_split_nonempty(target@, '@');
        }
        let credential = part_at(&parts, 0, db_uri, DbUriParsingStep::Credential)?;
        let host_and_port = part_at(&parts, 1, db_uri, DbUriParsingStep::HostAndPort)?;
        proof {
            assert(parts@[0]@ == views(parts@)[0]);
            assert(parts@[1]@ == views(parts@)[1]);
        }

        let host_and_port_parts = split_char(host_and_port.as_str(), ':');
        proof {
            lemma_split_nonempty(host_and_port@, ':');
        }
        let host = part_at(&host_and_port_parts, 0, db_uri, DbUriParsingStep::Host)?;
        let port = optional_part(&host_and_port_parts, 1);
        proof {
            assert(host_and_port_parts@[0]@ == views(host_and_port_parts@)[0]);
            if host_and_port_parts@.len() >= 2 {
                assert(host_and_port_parts@[1]@ == views(host_and_port_parts@)[1]);
            }
        }

        let parts = split_char(credential.as_str(), ':');
        proof {
            lemma_split_nonempty(credential@, ':');
        }
        let username = part_at(&parts, 0, db_uri, DbUriParsingStep::CredentialUsername)?;
        let password = optional_part(&parts, 1);
        proof {
            assert(parts@[0]@ == views(parts@)[0]);
            if parts@.len() >= 2 {
                assert(parts@[1]@ == views(parts@)[1]);
            }
        }

        Ok(
            DbConnectionConfig {
                db_name: db_name.clone(),
                username: username.clone(),
                password,
                host: host.clone(),
                port,
            },
        )
    }
}

/// The text of an optional string, empty where there is none.
pub open spec fn or_empty(o: Option<String>) -> Seq<char> {
    match o {
        Some(x) => x@,
        None => Seq::empty(),
    }
}

/// The arguments of the command that runs `step` of a restore of the
/// database of `c` from the dump at `dump_path`.
pub open spec fn restore_args(c: DbConnectionConfig, step: DbRestoreStep, dump_path: Seq<char>) -> Seq<
    Seq<char>,
> {
    let username = "--username="@ + c.username@;
    let host = "--host="@ + c.host@;
    let port = "--port="@ + or_empty(c.port);
    match step {
        DbRestoreStep::RestoreDb => seq![
            username,
            "--dbname="@ + c.db_name@,
            host,
            port,
            "--single-transaction"@,
            dump_path,
        ],
        _ => seq![username, host, port, c.db_name@],
    }
}

/// `prefix` followed by `s`.
fn prefixed(prefix: &str, s: &str) -> (r: String)
    ensures
        r@ == prefix@ + s@,
{
    let mut r = String::from_str(prefix);
    r.append(s);
    r
}

/// The command that dumps the database of `input`, in PostgreSQL's custom
/// archive format.
pub fn dump_command(input: &DumpInput) -> (r: PgCommand)
    ensures
        r.program@ == "pg_dump"@,
        r.password is None,
        views(r.args@) == seq!["postgres://"@ + input.db_uri@, "-Fc"@],
{
    let mut args: Vec<String> = Vec::new();
    args.push(prefixed("postgres://", input.db_uri));
    args.push(String::from_str("-Fc"));
    assert(views(args@) =~= seq!["postgres://"@ + input.db_uri@, "-Fc"@]);
    PgCommand { program: String::from_str("pg_dump"), password: None, args }
}

/// The outcome of a dump from what the command wrote: its output, unless it
/// wrote anything to its error stream, which is then the error.
pub fn dump_result(stdout: Vec<u8>, stderr: String) -> (r: Result<Vec<u8>, String>)
    ensures
        stderr@.len() == 0 ==> r == Ok::<Vec<u8>, String>(stdout),
        stderr@.len() > 0 ==> r == Err::<Vec<u8>, String>(stderr),
{
    if stderr.as_str().unicode_len() > 0 {
        Err(stderr)
    } else {
        Ok(stdout)
    }
}

/// The command that runs `step` of a restore of the database of `config` from
/// the dump at `dump_path`.
pub fn restore_command(config: &DbConnectionConfig, step: DbRestoreStep, dump_path: &str) -> (r:
    PgCommand)
    ensures
        r.program@ == step.spec_program(),
        opt_view(r.password) == Some(or_empty(config.password)),
        views(r.args@) == restore_args(*config, step, dump_path@),
{
    let password = match &config.password {
        Some(p) => p.clone(),
        None => String::new(),
    };
    let port = match &config.port {
        Some(p) => prefixed("--port=", p.as_str()),
        None => String::from_str("--port="),
    };
    proof {
        reveal_strlit("--port=");
        assert("--port="@ + Seq::<char>::empty() =~= "--port="@);
    }
    let mut args: Vec<String> = Vec::new();
    args.push(prefixed("--username=", config.username.as_str()));
    let program = match step {
        DbRestoreStep::DropDb => String::from_str("dropdb"),
        DbRestoreStep::CreateDb => String::from_str("createdb"),
        DbRestoreStep::RestoreDb => String::from_str("pg_restore"),
    };
    match step {
        DbRestoreStep::RestoreDb => {
            args.push(prefixed("--dbname=", config.db_name.as_str()));
            args.push(prefixed("--host=", config.host.as_str()));
            args.push(port);
            args.push(String::from_str("--single-transaction"));
            args.push(String::from_str(dump_path));
        },
        _ => {
            args.push(prefixed("--host=", config.host.as_str()));
            args.push(port);
            args.push(config.db_name.clone());
        },
    }
    assert(views(args@) =~= restore_args(*config, step, dump_path@));
    PgCommand { program, password: Some(password), args }
}

/// What follows `step` of a restore of `db_uri`, given whether its command
/// exited successfully and what it wrote to its error stream: the next step,
/// none once the last has succeeded, or the error that ends the restore. A
/// command that wrote to its error stream failed, whatever its exit status.
pub fn restore_step_outcome(db_uri: &str, step: DbRestoreStep, succeeded: bool, stderr: &str) -> (r:
    Result<Option<DbRestoreStep>, DbError>)
    ensures
        succeeded && stderr@.len() == 0 ==> r == Ok::<Option<DbRestoreStep>, DbError>(
            step.spec_next(),
        ),
        !succeeded || stderr@.len() > 0 ==> (r matches Err(e) && is_restore_error(
            e,
            db_uri@,
            step,
            stderr@,
        )),
{
    if succeeded && stderr.unicode_len() == 0 {
        match step {
            DbRestoreStep::DropDb => Ok(Some(DbRestoreStep::CreateDb)),
            DbRestoreStep::CreateDb => Ok(Some(DbRestoreStep::RestoreDb)),
            DbRestoreStep::RestoreDb => Ok(None),
        }
    } else {
        Err(DbError::restore_error(db_uri, step, Some(String::from_str(stderr))))
    }
}

} // verus!
