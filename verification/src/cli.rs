//! The commands of the shell: their options, the queries they stand for, and
//! the parser of connection strings.

use vstd::prelude::*;
use vstd::string::*;

use crate::text::{
    chars_of, decimal, find_last, last_position, render_decimal, same_text, starts_with,
};

verus! {

/// The number of rows `head` shows where none is asked for.
pub const DEFAULT_HEAD_SIZE: usize = 5;

/// How a file is compressed.
#[derive(Debug, Clone, Copy, PartialEq, Eq, Structural)]
pub enum Compression {
    Gzip,
    Bzip2,
    Xz,
    Zstd,
    Uncompressed,
}

/// The formats a dataset file can have.
#[derive(Debug, Clone, Copy, PartialEq, Eq, Structural)]
pub enum FileKind {
    Csv,
    Json,
    Parquet,
}

/// A dataset file: its name, the extension that tells its format, and its
/// compression.
#[derive(Debug, Clone, PartialEq, Eq)]
pub struct FileOpts {
    pub filename: String,
    pub ext: String,
    pub compression: Compression,
}

/// Where a dataset comes from.
#[derive(Debug, Clone, PartialEq, Eq)]
pub enum DataSetConn {
    Postgres(String),
    Parquet(String),
    Json(FileOpts),
    Csv(FileOpts),
}

/// A dataset file as contracts see it.
pub struct FileOptsView {
    pub filename: Seq<char>,
    pub ext: Seq<char>,
    pub compression: Compression,
}

/// A connection as contracts see it.
pub enum Connection {
    Postgres(Seq<char>),
    Parquet(Seq<char>),
    Json(FileOptsView),
    Csv(FileOptsView),
}

impl View for FileOpts {
    type V = FileOptsView;

    open spec fn view(&self) -> FileOptsView {
        FileOptsView { filename: self.filename@, ext: self.ext@, compression: self.compression }
    }
}

impl View for DataSetConn {
    type V = Connection;

    open spec fn view(&self) -> Connection {
        match self {
            DataSetConn::Postgres(url) => Connection::Postgres(url@),
            DataSetConn::Parquet(filename) => Connection::Parquet(filename@),
            DataSetConn::Json(file) => Connection::Json(file@),
            DataSetConn::Csv(file) => Connection::Csv(file@),
        }
    }
}

impl FileOpts {
    pub fn new(filename: String, ext: String, compression: Compression) -> (file: Self)
        ensures
            file.filename == filename,
            file.ext == ext,
            file.compression == compression,
    {
        Self { filename, ext, compression }
    }
}

/// The lower-case form of a text, as the standard library computes it.
pub uninterp spec fn lowercase_of(text: Seq<char>) -> Seq<char>;

/// Calls `str::to_lowercase`.
#[verifier::external_body]
fn lowercase(text: &str) -> (lowered: String)
    ensures
        lowered@ == lowercase_of(text@),
{
    text.to_lowercase()
}

/// The format that an extension tells.
pub open spec fn kind_of(ext: Seq<char>) -> Option<FileKind> {
    if ext == "csv"@ {
        Some(FileKind::Csv)
    } else if ext == "json"@ || ext == "ndjson"@ || ext == "jsonl"@ {
        Some(FileKind::Json)
    } else if ext == "parquet"@ {
        Some(FileKind::Parquet)
    } else {
        None
    }
}

/// The compression that an extension tells.
pub open spec fn compression_of(ext: Seq<char>) -> Option<Compression> {
    if ext == "gz"@ {
        Some(Compression::Gzip)
    } else if ext == "bz2"@ {
        Some(Compression::Bzip2)
    } else if ext == "xz"@ {
        Some(Compression::Xz)
    } else if ext == "zstd"@ {
        Some(Compression::Zstd)
    } else {
        None
    }
}

/// What stands after the last dot of a text; the whole text where it has no
/// dot.
pub open spec fn extension(text: Seq<char>) -> Seq<char> {
    text.subrange(last_position(text, '.') + 1, text.len() as int)
}

/// What stands before the last dot of a text that has one.
pub open spec fn stem(text: Seq<char>) -> Seq<char> {
    text.take(last_position(text, '.'))
}

/// The connection that a file name with a single extension stands for.
pub open spec fn plain_file(text: Seq<char>, ext: Seq<char>) -> Result<Connection, Seq<char>> {
    let file = FileOptsView { filename: text, ext, compression: Compression::Uncompressed };
    match kind_of(ext) {
        Some(FileKind::Csv) => Ok(Connection::Csv(file)),
        Some(FileKind::Json) => Ok(Connection::Json(file)),
        Some(FileKind::Parquet) => Ok(Connection::Parquet(text)),
        None => Err("Invalid file type: "@ + ext),
    }
}

/// The connection that a file name with a format extension `inner` and a
/// compression extension `outer` stands for. Only text formats can be
/// compressed.
pub open spec fn compressed_file(text: Seq<char>, inner: Seq<char>, outer: Seq<char>) -> Result<
    Connection,
    Seq<char>,
> {
    match compression_of(outer) {
        None => Err("Invalid compression type: "@ + outer),
        Some(compression) => {
            let file = FileOptsView { filename: text, ext: inner, compression };
            match kind_of(inner) {
                Some(FileKind::Csv) => Ok(Connection::Csv(file)),
                Some(FileKind::Json) => Ok(Connection::Json(file)),
                _ => Err("Invalid file type: "@ + inner),
            }
        },
    }
}

/// The connection that a lower-case connection string stands for: a
/// PostgreSQL address, or a file name whose last extension tells the format,
/// or the compression where another extension stands before it.
pub open spec fn connection(text: Seq<char>) -> Result<Connection, Seq<char>> {
    if "postgresql://"@.is_prefix_of(text) {
        Ok(Connection::Postgres(text))
    } else if last_position(text, '.') < 0 {
        Err("failed to parse file type"@)
    } else if last_position(stem(text), '.') < 0 {
        plain_file(text, extension(text))
    } else {
        compressed_file(text, extension(stem(text)), extension(text))
    }
}

/// The view of what a parse returns.
pub open spec fn parsed(result: Result<DataSetConn, String>) -> Result<Connection, Seq<char>> {
    match result {
        Ok(conn) => Ok(conn@),
        Err(message) => Err(message@),
    }
}

/// Tells the format of an extension.
pub fn file_kind(ext: &str) -> (kind: Option<FileKind>)
    ensures
        kind == kind_of(ext@),
{
    if same_text(ext, "csv") {
        Some(FileKind::Csv)
    } else if same_text(ext, "json") || same_text(ext, "ndjson") || same_text(ext, "jsonl") {
        Some(FileKind::Json)
    } else if same_text(ext, "parquet") {
        Some(FileKind::Parquet)
    } else {
        None
    }
}

/// Tells the compression of an extension.
pub fn compression(ext: &str) -> (found: Option<Compression>)
    ensures
        found == compression_of(ext@),
{
    if same_text(ext, "gz") {
        Some(Compression::Gzip)
    } else if same_text(ext, "bz2") {
        Some(Compression::Bzip2)
    } else if same_text(ext, "xz") {
        Some(Compression::Xz)
    } else if same_text(ext, "zstd") {
        Some(Compression::Zstd)
    } else {
        None
    }
}

/// A sentence followed by the text it is about.
fn complaint(sentence: &str, about: &str) -> (message: String)
    ensures
        message@ == sentence@ + about@,
{
    let mut message = String::from_str(sentence);
    message.append(about);
    message
}

/// Parses a connection string that is already in lower case.
pub fn parse_connection(lowered: String) -> (result: Result<DataSetConn, String>)
    ensures
        parsed(result) == connection(lowered@),
{
    let text = lowered.as_str();
    if starts_with(text, "postgresql://") {
        return Ok(DataSetConn::Postgres(lowered));
    }
    let chars = chars_of(text);
    let n = chars.len();
    assert(chars@.take(n as int) =~= chars@);
    let last = match find_last(&chars, n, '.') {
        Some(at) => at,
        None => {
            return Err(String::from_str("failed to parse file type"));
        },
    };
    proof {
        lemma_last_position_bounds(chars@, '.');
        assert(chars@.take(last as int) == stem(text@));
    }
    let outer = text.substring_char(last + 1, n);
    match find_last(&chars, last, '.') {
        None => {
            let ext = String::from_str(outer);
            match file_kind(outer) {
                Some(FileKind::Csv) => {
                    let filename = lowered.clone();
                    Ok(DataSetConn::Csv(FileOpts::new(filename, ext, Compression::Uncompressed)))
                },
                Some(FileKind::Json) => {
                    let filename = lowered.clone();
                    Ok(DataSetConn::Json(FileOpts::new(filename, ext, Compression::Uncompressed)))
                },
                Some(FileKind::Parquet) => Ok(DataSetConn::Parquet(lowered.clone())),
                None => Err(complaint("Invalid file type: ", outer)),
            }
        },
        Some(before) => {
            proof {
                lemma_last_position_bounds(stem(text@), '.');
                assert(stem(text@).subrange(before + 1, last as int) =~= text@.subrange(
                    before + 1,
                    last as int,
                ));
            }
            let inner = text.substring_char(before + 1, last);
            let packed = match compression(outer) {
                Some(packed) => packed,
                None => {
                    return Err(complaint("Invalid compression type: ", outer));
                },
            };
            let ext = String::from_str(inner);
            match file_kind(inner) {
                Some(FileKind::Csv) => {
                    let filename = lowered.clone();
                    Ok(DataSetConn::Csv(FileOpts::new(filename, ext, packed)))
                },
                Some(FileKind::Json) => {
                    let filename = lowered.clone();
                    Ok(DataSetConn::Json(FileOpts::new(filename, ext, packed)))
                },
                _ => Err(complaint("Invalid file type: ", inner)),
            }
        },
    }
}

/// Parses a connection string: it is put in lower case, then read as
/// `parse_connection` reads it.
pub fn conn_parser(s: &str) -> (result: Result<DataSetConn, String>)
    ensures
        parsed(result) == connection(lowercase_of(s@)),
{
    parse_connection(lowercase(s))
}

/// The last position of a character lies inside the text it was looked for
/// in, and the character stands there.
pub proof fn lemma_last_position_bounds(text: Seq<char>, target: char)
    ensures
        -1 <= last_position(text, target) < text.len(),
        last_position(text, target) >= 0 ==> text[last_position(text, target)] == target,
    decreases text.len(),
{
    if text.len() > 0 && text.last() != target {
        lemma_last_position_bounds(text.drop_last(), target);
    }
}

/// Options of the `connect` command.
#[derive(Debug)]
pub struct ConnectOpts {
    /// Connection string, already parsed.
    pub conn: DataSetConn,
    /// Table name, if the dataset is a database table.
    pub table: Option<String>,
    /// Dataset name.
    pub name: String,
}

impl ConnectOpts {
    pub fn new(conn: DataSetConn, table: Option<String>, name: String) -> (opts: Self)
        ensures
            opts.conn == conn,
            opts.table == table,
            opts.name == name,
    {
        Self { conn, table, name }
    }

    /// What the shell answers once the dataset is registered.
    pub fn connected_message(&self) -> (message: String)
        ensures
            message@ == "connected to dataset: "@ + self.name@,
    {
        complaint("connected to dataset: ", self.name.as_str())
    }
}

/// Options of the `describe` command.
#[derive(Debug)]
pub struct DescribeOpts {
    /// Dataset name.
    pub name: String,
}

impl DescribeOpts {
    pub fn new(name: String) -> (opts: Self)
        ensures
            opts.name == name,
    {
        Self { name }
    }

    /// The query that reads the dataset to describe.
    pub fn query(&self) -> (sql: String)
        ensures
            sql@ == "select * from "@ + self.name@,
    {
        complaint("select * from ", self.name.as_str())
    }
}

/// Options of the `head` command.
#[derive(Debug)]
pub struct HeadOpts {
    /// Dataset name.
    pub name: String,
    /// Number of rows.
    pub size: Option<usize>,
}

impl HeadOpts {
    pub fn new(name: String, size: Option<usize>) -> (opts: Self)
        ensures
            opts.name == name,
            opts.size == size,
    {
        Self { name, size }
    }

    /// The number of rows to show: the size asked for, or five.
    pub open spec fn rows(self) -> nat {
        match self.size {
            Some(size) => size as nat,
            None => DEFAULT_HEAD_SIZE as nat,
        }
    }

    /// The query that reads the first rows of the dataset.
    pub fn query(&self) -> (sql: String)
        ensures
            sql@ == "SELECT * FROM "@ + self.name@ + " LIMIT "@ + decimal(self.rows()),
    {
        let size = match self.size {
            Some(size) => size,
            None => DEFAULT_HEAD_SIZE,
        };
        let mut sql = complaint("SELECT * FROM ", self.name.as_str());
        sql.append(" LIMIT ");
        let digits = render_decimal(size);
        sql.append(digits.as_str());
        sql
    }
}

/// Options of the `list` command: it takes none.
#[derive(Debug)]
pub struct ListOpts;

impl ListOpts {
    /// The query that lists the registered datasets.
    pub fn query(&self) -> (sql: String)
        ensures
            sql@
                == "select table_name, table_type from information_schema.tables where table_schema='public'"@,
    {
        String::from_str(
            "select table_name, table_type from information_schema.tables where table_schema='public'",
        )
    }
}

/// Options of the `schema` command.
#[derive(Debug)]
pub struct SchemaOpts {
    /// Dataset name.
    pub name: String,
}

impl SchemaOpts {
    pub fn new(name: String) -> (opts: Self)
        ensures
            opts.name == name,
    {
        Self { name }
    }

    /// The query that shows the schema of the dataset.
    pub fn query(&self) -> (sql: String)
        ensures
            sql@ == "DESCRIBE "@ + self.name@,
    {
        complaint("DESCRIBE ", self.name.as_str())
    }
}

/// Options of the `sql` command.
#[derive(Debug)]
pub struct SqlOpts {
    /// SQL query.
    pub sql: String,
}

impl SqlOpts {
    pub fn new(sql: String) -> (opts: Self)
        ensures
            opts.sql == sql,
    {
        Self { sql }
    }
}

/// A command of the shell.
#[derive(Debug)]
pub enum ReplCommand {
    /// Connect to a dataset and register it.
    Connect(ConnectOpts),
    /// List all registered datasets.
    List(ListOpts),
    /// Get the schema of a dataset.
    Schema(SchemaOpts),
    /// Describe a dataset.
    Describe(DescribeOpts),
    /// Take the first rows of a dataset.
    Head(HeadOpts),
    /// Run a SQL query on a dataset.
    Sql(SqlOpts),
}

} // verus!
