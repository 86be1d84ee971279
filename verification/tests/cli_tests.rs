use data_forge_rs::cli::{
    compression, conn_parser, file_kind, parse_connection, Compression, ConnectOpts, DataSetConn,
    DescribeOpts, FileKind, FileOpts, HeadOpts, ListOpts, ReplCommand, SchemaOpts, SqlOpts,
};

fn file(filename: &str, ext: &str, compression: Compression) -> FileOpts {
    FileOpts::new(filename.to_string(), ext.to_string(), compression)
}

#[test]
fn postgres_address_is_kept_whole() {
    assert_eq!(
        conn_parser("postgresql://user:pw@host.example/db"),
        Ok(DataSetConn::Postgres("postgresql://user:pw@host.example/db".to_string()))
    );
}

#[test]
fn connection_string_is_put_in_lower_case() {
    assert_eq!(
        conn_parser("Data/Sales.CSV"),
        Ok(DataSetConn::Csv(file("data/sales.csv", "csv", Compression::Uncompressed)))
    );
    assert_eq!(
        conn_parser("PostgreSQL://Host/DB"),
        Ok(DataSetConn::Postgres("postgresql://host/db".to_string()))
    );
}

#[test]
fn parse_connection_takes_the_text_as_it_is() {
    assert_eq!(
        parse_connection("Sales.CSV".to_string()),
        Err("Invalid file type: CSV".to_string())
    );
}

#[test]
fn single_extension_tells_the_format() {
    assert_eq!(
        conn_parser("a.csv"),
        Ok(DataSetConn::Csv(file("a.csv", "csv", Compression::Uncompressed)))
    );
    assert_eq!(
        conn_parser("a.json"),
        Ok(DataSetConn::Json(file("a.json", "json", Compression::Uncompressed)))
    );
    assert_eq!(
        conn_parser("a.ndjson"),
        Ok(DataSetConn::Json(file("a.ndjson", "ndjson", Compression::Uncompressed)))
    );
    assert_eq!(
        conn_parser("a.jsonl"),
        Ok(DataSetConn::Json(file("a.jsonl", "jsonl", Compression::Uncompressed)))
    );
    assert_eq!(conn_parser("dir/a.parquet"), Ok(DataSetConn::Parquet("dir/a.parquet".to_string())));
    assert_eq!(
        conn_parser(".csv"),
        Ok(DataSetConn::Csv(file(".csv", "csv", Compression::Uncompressed)))
    );
}

#[test]
fn second_extension_tells_the_compression() {
    assert_eq!(conn_parser("a.csv.gz"), Ok(DataSetConn::Csv(file("a.csv.gz", "csv", Compression::Gzip))));
    assert_eq!(
        conn_parser("a.json.bz2"),
        Ok(DataSetConn::Json(file("a.json.bz2", "json", Compression::Bzip2)))
    );
    assert_eq!(
        conn_parser("a.jsonl.xz"),
        Ok(DataSetConn::Json(file("a.jsonl.xz", "jsonl", Compression::Xz)))
    );
    assert_eq!(
        conn_parser("a.ndjson.zstd"),
        Ok(DataSetConn::Json(file("a.ndjson.zstd", "ndjson", Compression::Zstd)))
    );
    assert_eq!(
        conn_parser("v1.2/a.b.csv.gz"),
        Ok(DataSetConn::Csv(file("v1.2/a.b.csv.gz", "csv", Compression::Gzip)))
    );
}

#[test]
fn unknown_extensions_are_refused() {
    assert_eq!(conn_parser("a.txt"), Err("Invalid file type: txt".to_string()));
    assert_eq!(conn_parser("a.csv.zip"), Err("Invalid compression type: zip".to_string()));
    assert_eq!(conn_parser("a.b.csv"), Err("Invalid compression type: csv".to_string()));
    assert_eq!(conn_parser("a.parquet.gz"), Err("Invalid file type: parquet".to_string()));
    assert_eq!(conn_parser("a.txt.gz"), Err("Invalid file type: txt".to_string()));
    assert_eq!(conn_parser("a.txt.zip"), Err("Invalid compression type: zip".to_string()));
    assert_eq!(conn_parser("csv."), Err("Invalid file type: ".to_string()));
    assert_eq!(conn_parser("a..gz"), Err("Invalid file type: ".to_string()));
}

#[test]
fn name_without_a_dot_is_refused() {
    assert_eq!(conn_parser("sales"), Err("failed to parse file type".to_string()));
    assert_eq!(conn_parser(""), Err("failed to parse file type".to_string()));
    assert_eq!(conn_parser("postgresql:/host"), Err("failed to parse file type".to_string()));
}

#[test]
fn extensions_are_told_apart() {
    assert_eq!(file_kind("csv"), Some(FileKind::Csv));
    assert_eq!(file_kind("json"), Some(FileKind::Json));
    assert_eq!(file_kind("ndjson"), Some(FileKind::Json));
    assert_eq!(file_kind("jsonl"), Some(FileKind::Json));
    assert_eq!(file_kind("parquet"), Some(FileKind::Parquet));
    assert_eq!(file_kind("cs"), None);
    assert_eq!(file_kind("csvx"), None);
    assert_eq!(compression("gz"), Some(Compression::Gzip));
    assert_eq!(compression("bz2"), Some(Compression::Bzip2));
    assert_eq!(compression("xz"), Some(Compression::Xz));
    assert_eq!(compression("zstd"), Some(Compression::Zstd));
    assert_eq!(compression("zst"), None);
    assert_eq!(compression(""), None);
}

#[test]
fn options_keep_what_they_are_given() {
    let conn = DataSetConn::Parquet("a.parquet".to_string());
    let opts = ConnectOpts::new(conn.clone(), Some("t".to_string()), "sales".to_string());
    assert_eq!(opts.conn, conn);
    assert_eq!(opts.table, Some("t".to_string()));
    assert_eq!(opts.name, "sales");
    assert_eq!(opts.connected_message(), "connected to dataset: sales");
    assert_eq!(DescribeOpts::new("sales".to_string()).name, "sales");
    assert_eq!(SchemaOpts::new("sales".to_string()).name, "sales");
    assert_eq!(SqlOpts::new("select 1".to_string()).sql, "select 1");
    let head = HeadOpts::new("sales".to_string(), Some(3));
    assert_eq!(head.name, "sales");
    assert_eq!(head.size, Some(3));
    assert!(matches!(ReplCommand::Head(head), ReplCommand::Head(_)));
    assert!(matches!(ReplCommand::List(ListOpts), ReplCommand::List(_)));
}

#[test]
fn commands_stand_for_queries() {
    assert_eq!(
        ListOpts.query(),
        "select table_name, table_type from information_schema.tables where table_schema='public'"
    );
    assert_eq!(SchemaOpts::new("sales".to_string()).query(), "DESCRIBE sales");
    assert_eq!(DescribeOpts::new("sales".to_string()).query(), "select * from sales");
    assert_eq!(HeadOpts::new("sales".to_string(), None).query(), "SELECT * FROM sales LIMIT 5");
    assert_eq!(HeadOpts::new("sales".to_string(), Some(0)).query(), "SELECT * FROM sales LIMIT 0");
    assert_eq!(
        HeadOpts::new("sales".to_string(), Some(1200)).query(),
        "SELECT * FROM sales LIMIT 1200"
    );
}
