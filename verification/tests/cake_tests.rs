use cake_lib::file::get_filename_from_path;
use cake_lib::file::get_filetype_from_path;
use cake_lib::file::load_data;
use cake_lib::file::load_metadata;
use cake_lib::file::CakeError;
use cake_lib::file::FileObject;
use cake_lib::frame::DataFrame;
use cake_lib::read_csv;
use cake_lib::text::split_on;

fn test_content() -> String {
    "a,b,c\n1,2,3\n4,5,6\n7,8,9".to_string()
}

#[test]
fn test_fake_file() {
    let path = "../testing/test_data.csv".to_string();
    let file = FileObject::new(&path, &test_content()).unwrap();

    let metadata = file.get_metadata();

    assert_eq!(metadata.name, "test_data.csv");
    assert_eq!(metadata.size, 0);
    assert_eq!(metadata.path, path);
    assert!(file.is_valid());
}

#[test]
fn test_dataframe() {
    let data = vec!["a,b,c".to_string()];
    let df = DataFrame::new(&data);

    assert_eq!(df.width, 3);
    assert_eq!(df.len, 0)
}

#[test]
fn test_solution() {
    let path = "../testing/test_data.csv".to_string();
    let df = read_csv(&path, &test_content()).unwrap();

    assert_eq!(df.len, 3);
    assert_eq!(df.width, 3);
}

#[test]
fn filename_and_extension_follow_the_last_separators() {
    let m = load_metadata(&"dir/sub/archive.tar.gz".to_string()).unwrap();
    assert_eq!(m.name, "archive.tar.gz");
    assert_eq!(m.filetype, "gz");
    assert_eq!(m.path, "dir/sub/archive.tar.gz");
    assert_eq!(m.created_date, 0);
    assert_eq!(m.last_modified_date, 0);

    let m = load_metadata(&"data.csv".to_string()).unwrap();
    assert_eq!(m.name, "data.csv");
    assert_eq!(m.filetype, "csv");

    assert_eq!(
        get_filename_from_path(&"a/b/c.txt".to_string()),
        Some("c.txt".to_string())
    );
    assert_eq!(
        get_filetype_from_path(&"a/b/c.txt".to_string()),
        Some("txt".to_string())
    );
    assert_eq!(
        get_filetype_from_path(&"a/b.tar.gz".to_string()),
        Some("gz".to_string())
    );
}

#[test]
fn filename_without_dot_is_an_invalid_filetype() {
    assert_eq!(get_filetype_from_path(&"dir/noext".to_string()), None);
    match load_metadata(&"dir/noext".to_string()) {
        Err(CakeError::InvalidFiletype { path }) => assert_eq!(path, "dir/noext"),
        other => panic!("expected InvalidFiletype, got {:?}", other),
    }
}

#[test]
fn path_without_filename_is_an_invalid_path() {
    assert_eq!(get_filename_from_path(&"".to_string()), None);
    match load_metadata(&"".to_string()) {
        Err(CakeError::InvalidPath { path }) => assert_eq!(path, ""),
        other => panic!("expected InvalidPath, got {:?}", other),
    }
    match load_metadata(&"dir/sub/".to_string()) {
        Err(CakeError::InvalidPath { path }) => assert_eq!(path, "dir/sub/"),
        other => panic!("expected InvalidPath, got {:?}", other),
    }
}

#[test]
fn only_csv_is_a_supported_filetype() {
    let csv = FileObject::new(&"a/b.csv".to_string(), &"x".to_string()).unwrap();
    assert!(csv.is_valid());
    assert!(csv.validate().is_ok());

    let txt = FileObject::new(&"a/b.txt".to_string(), &"x".to_string()).unwrap();
    assert!(!txt.is_valid());
    match txt.validate() {
        Err(CakeError::UnsupportedFiletype { filetype }) => assert_eq!(filetype, "txt"),
        other => panic!("expected UnsupportedFiletype, got {:?}", other),
    }

    let upper = FileObject::new(&"a/b.CSV".to_string(), &"x".to_string()).unwrap();
    assert!(!upper.is_valid());
}

#[test]
fn empty_input_parses_to_an_empty_frame() {
    let data: Vec<String> = vec![];
    let df = DataFrame::new(&data);

    assert_eq!(df.len, 0);
    assert_eq!(df.width, 0);
    assert!(df.get_header().is_empty());
    assert!(df.get_rows().is_empty());
}

#[test]
fn a_single_line_parses_to_a_header_and_no_rows() {
    let data = vec!["a,b,c".to_string()];
    let df = DataFrame::new(&data);

    assert_eq!(
        df.get_header(),
        &vec!["a".to_string(), "b".to_string(), "c".to_string()]
    );
    assert_eq!(df.width, 3);
    assert_eq!(df.len, 0);
    assert!(df.get_rows().is_empty());
}

#[test]
fn lines_after_the_header_parse_to_rows() {
    let data = vec![
        "a,b,c".to_string(),
        "1,2,3".to_string(),
        "4,5,6".to_string(),
    ];
    let df = DataFrame::new(&data);

    assert_eq!(df.len, 2);
    assert_eq!(
        df.get_rows(),
        &vec![
            vec!["1".to_string(), "2".to_string(), "3".to_string()],
            vec!["4".to_string(), "5".to_string(), "6".to_string()],
        ]
    );
}

#[test]
fn ragged_rows_are_kept_as_parsed() {
    let data = vec!["a,b,c".to_string(), "1,2".to_string(), "".to_string()];
    let df = DataFrame::new(&data);

    assert_eq!(df.width, 3);
    assert_eq!(df.len, 2);
    assert_eq!(
        df.get_rows(),
        &vec![
            vec!["1".to_string(), "2".to_string()],
            vec!["".to_string()],
        ]
    );
}

#[test]
fn accessors_are_idempotent() {
    let path = "a/b.csv".to_string();
    let file = FileObject::new(&path, &test_content()).unwrap();
    let first = file.get_metadata();
    let second = file.get_metadata();
    assert_eq!(first.name, second.name);
    assert_eq!(first.path, second.path);
    assert_eq!(first.size, second.size);
    assert_eq!(first.filetype, second.filetype);
    assert_eq!(file.get_data(), file.get_data());

    let df = DataFrame::new(file.get_data());
    assert_eq!(df.get_header(), df.get_header());
    assert_eq!(df.get_rows(), df.get_rows());
}

#[test]
fn a_serialized_table_parses_back_to_itself() {
    let header = vec!["x".to_string(), "y".to_string()];
    let rows = vec![
        vec!["1".to_string(), "2".to_string()],
        vec!["3".to_string(), "4".to_string()],
    ];

    let mut lines = vec![header.join(",")];
    for row in &rows {
        lines.push(row.join(","));
    }
    let df = DataFrame::new(&lines);

    assert_eq!(df.get_header(), &header);
    assert_eq!(df.get_rows(), &rows);
    assert_eq!(df.width, 2);
    assert_eq!(df.len, 2);
}

#[test]
fn content_splits_into_lines_on_newlines() {
    assert_eq!(
        load_data(&"a,b\nc,d".to_string()),
        vec!["a,b".to_string(), "c,d".to_string()]
    );
    assert_eq!(
        load_data(&"x\n".to_string()),
        vec!["x".to_string(), "".to_string()]
    );
    assert_eq!(load_data(&"".to_string()), vec!["".to_string()]);
}

#[test]
fn splitting_keeps_empty_segments() {
    assert_eq!(
        split_on("a,,b", ','),
        vec!["a".to_string(), "".to_string(), "b".to_string()]
    );
    assert_eq!(split_on("", ','), vec!["".to_string()]);
    assert_eq!(
        split_on(",x,", ','),
        vec!["".to_string(), "x".to_string(), "".to_string()]
    );
}

#[test]
fn multi_line_content_reaches_the_frame() {
    let path = "records.csv".to_string();
    let df = read_csv(&path, &"h1,h2\nv1,v2".to_string()).unwrap();
    assert_eq!(df.width, 2);
    assert_eq!(df.len, 1);
    assert_eq!(
        df.get_rows(),
        &vec![vec!["v1".to_string(), "v2".to_string()]]
    );

    match read_csv(&"nodot".to_string(), &"h1,h2".to_string()) {
        Err(CakeError::InvalidFiletype { path }) => assert_eq!(path, "nodot"),
        other => panic!("expected InvalidFiletype, got {:?}", other),
    }
}
