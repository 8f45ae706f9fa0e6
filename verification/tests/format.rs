use query_rs::loader::detect_content;
use query_rs::loader::formats;
use query_rs::loader::load_failure;
use query_rs::loader::loaded;
use query_rs::loader::CsvLoader;
use query_rs::loader::FormatType;
use query_rs::loader::JsonLoader;
use query_rs::loader::Load;
use query_rs::loader::Loader;
use query_rs::CustomError;

#[test]
fn format_tags_are_read_whatever_their_case() {
    assert_eq!(FormatType::try_from("csv"), Ok(FormatType::Csv));
    assert_eq!(FormatType::try_from("CSV"), Ok(FormatType::Csv));
    assert_eq!(FormatType::try_from("cSv"), Ok(FormatType::Csv));
    assert_eq!(FormatType::try_from("json"), Ok(FormatType::Json));
    assert_eq!(FormatType::try_from("JSON"), Ok(FormatType::Json));
    assert_eq!(FormatType::try_from("Json"), Ok(FormatType::Json));
}

#[test]
fn unknown_format_is_a_typed_error() {
    assert_eq!(FormatType::try_from("xml"), Err(CustomError::LoadTypeError("xml".to_string())));
    assert_eq!(FormatType::try_from("XML"), Err(CustomError::LoadTypeError("XML".to_string())));
    assert_eq!(FormatType::try_from(""), Err(CustomError::LoadTypeError(String::new())));
    assert_eq!(FormatType::try_from("csv "), Err(CustomError::LoadTypeError("csv ".to_string())));
    assert_eq!(FormatType::try_from("jsonl"), Err(CustomError::LoadTypeError("jsonl".to_string())));
    assert_eq!(FormatType::try_from("cs"), Err(CustomError::LoadTypeError("cs".to_string())));
}

#[test]
fn format_tags_are_those_that_std_lowers_to_a_format() {
    let tags = [
        "csv", "CSV", "Csv", "json", "JSON", "jSoN", "xml", "", "c", "csvv", "jso", "cſv",
        "\u{212A}", "ＣＳＶ", "JSÖN", "tsv", "parquet",
    ];
    for tag in tags {
        let expected = match tag.to_lowercase().as_str() {
            "csv" => Some(FormatType::Csv),
            "json" => Some(FormatType::Json),
            _ => None,
        };
        assert_eq!(FormatType::try_from(tag).ok(), expected, "{:?}", tag);
    }
}

#[test]
fn content_is_paired_with_its_reader() {
    match detect_content(FormatType::Csv, "a,b\n1,2\n".to_string()) {
        Loader::Csv(CsvLoader(text)) => assert_eq!(text, "a,b\n1,2\n"),
        other => panic!("{:?}", other),
    }
    match detect_content(FormatType::Json, "[]".to_string()) {
        Loader::Json(JsonLoader(text)) => assert_eq!(text, "[]"),
        other => panic!("{:?}", other),
    }
}

#[test]
fn csv_text_loads_into_a_table() {
    let table = detect_content(FormatType::Csv, "a,b,c\n1,2,3\n4,5,6\n".to_string())
        .load()
        .unwrap();
    assert_eq!(table.height(), 2);
    assert_eq!(table.width(), 3);
    let table = CsvLoader("x\n1\n2\n3\n".to_string()).load().unwrap();
    assert_eq!(table.height(), 3);
    assert_eq!(table.width(), 1);
}

#[test]
fn json_text_loads_into_a_table() {
    let text = "[{\"a\":1,\"b\":\"x\"},{\"a\":2,\"b\":\"y\"},{\"a\":3,\"b\":\"z\"}]";
    let table = detect_content(FormatType::Json, text.to_string()).load().unwrap();
    assert_eq!(table.height(), 3);
    assert_eq!(table.width(), 2);
    let table = JsonLoader(text.to_string()).load().unwrap();
    assert_eq!(table.height(), 3);
}

#[test]
fn text_that_does_not_load_is_a_fetch_error_without_url() {
    match detect_content(FormatType::Json, "not json".to_string()).load() {
        Err(CustomError::FetchError { url, error }) => {
            assert_eq!(url, "");
            assert!(!error.is_empty());
        }
        other => panic!("{:?}", other.map(|t| t.height())),
    }
    match detect_content(FormatType::Csv, String::new()).load() {
        Err(CustomError::FetchError { url, error }) => {
            assert_eq!(url, "");
            assert!(!error.is_empty());
        }
        other => panic!("{:?}", other.map(|t| t.height())),
    }
}

#[test]
fn load_failure_carries_the_message() {
    assert_eq!(
        load_failure("no data".to_string()),
        CustomError::FetchError { url: String::new(), error: "no data".to_string() }
    );
}

#[test]
fn formats_of_a_call_default_to_csv() {
    assert_eq!(formats(None, None), Ok((FormatType::Csv, FormatType::Csv)));
    assert_eq!(formats(Some("json"), None), Ok((FormatType::Json, FormatType::Csv)));
    assert_eq!(formats(None, Some("JSON")), Ok((FormatType::Csv, FormatType::Json)));
    assert_eq!(formats(Some("csv"), Some("csv")), Ok((FormatType::Csv, FormatType::Csv)));
}

#[test]
fn unknown_output_is_a_typed_error() {
    assert_eq!(formats(None, Some("xml")), Err(CustomError::LoadTypeError("xml".to_string())));
    assert_eq!(
        formats(Some("csv"), Some("yaml")),
        Err(CustomError::LoadTypeError("yaml".to_string()))
    );
    assert_eq!(
        formats(Some("xml"), Some("yaml")),
        Err(CustomError::LoadTypeError("xml".to_string()))
    );
    assert_eq!(formats(Some(""), None), Err(CustomError::LoadTypeError(String::new())));
}

#[test]
fn what_was_read_is_what_a_load_gives() {
    assert_eq!(
        loaded(Err("no data".to_string())).map(|t| t.height()),
        Err(CustomError::FetchError { url: String::new(), error: "no data".to_string() })
    );
    let table = CsvLoader("a,b\n1,2\n".to_string()).load();
    let table = loaded(table.map_err(|e| e.message())).unwrap();
    assert_eq!(table.height(), 1);
    let names: Vec<String> = table.columns().into_iter().map(|c| c.0).collect();
    assert_eq!(names, vec!["a", "b"]);
}
