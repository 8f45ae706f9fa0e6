use query_rs::dialect::EXAMPLE_SQL;
use query_rs::example_sql;
use query_rs::TyrDialect;
use sqlparser::dialect::Dialect;
use sqlparser::parser::Parser;

#[test]
fn it_works() {
    assert!(Parser::parse_sql(&TyrDialect::default(), &example_sql()).is_ok())
}

#[test]
fn example_sql_is_the_documented_query() {
    let url = "https://raw.githubusercontent.com/ai-aide/query-server/refs/heads/master/resource/owid-covid-latest.csv";
    let sql = format!(
        "SELECT total_deaths, new_deaths as new_deaths_1  FROM {} where new_deaths >= 5 and total_deaths>29.0  ORDER BY total_deaths, new_deaths DESC LIMIT 10 OFFSET 0",
        url
    );
    assert_eq!(example_sql(), sql);
    assert_eq!(example_sql(), EXAMPLE_SQL);
}

#[test]
fn identifier_starts_with_a_letter_or_an_underscore() {
    let dialect = TyrDialect::default();
    for ch in ['a', 'm', 'z', 'A', 'Q', 'Z', '_'] {
        assert!(dialect.is_identifier_start(ch), "{:?}", ch);
    }
    for ch in ['0', '9', ':', '/', '?', '&', '=', '-', '.', ' ', '@', '[', '`', '{', 'é', '>'] {
        assert!(!dialect.is_identifier_start(ch), "{:?}", ch);
    }
}

#[test]
fn identifier_goes_on_with_the_characters_of_a_url() {
    let dialect = TyrDialect::default();
    for ch in ['a', 'z', 'A', 'Z', '0', '5', '9', ':', '/', '?', '&', '=', '-', '_', '.'] {
        assert!(dialect.is_identifier_part(ch), "{:?}", ch);
    }
    for ch in [' ', '>', '<', '*', ',', '(', ')', '\'', '"', '+', '%', '#', '@', 'é', '\n'] {
        assert!(!dialect.is_identifier_part(ch), "{:?}", ch);
    }
}

#[test]
fn identifier_rules_agree_with_the_ranges_of_ascii() {
    let dialect = TyrDialect::default();
    for code in 0u32..0x250 {
        let ch = char::from_u32(code).unwrap();
        let letter = ch.is_ascii_alphabetic();
        assert_eq!(dialect.is_identifier_start(ch), letter || ch == '_');
        assert_eq!(
            dialect.is_identifier_part(ch),
            letter || ch.is_ascii_digit() || ":/?&=-_.".contains(ch)
        );
    }
}

#[test]
fn url_is_lexed_as_one_table_name() {
    let url = "https://host.example/path/to-file_1.csv?a=1&b=2";
    let sql = format!("SELECT a FROM {}", url);
    let statements = Parser::parse_sql(&TyrDialect::default(), &sql).unwrap();
    assert_eq!(statements.len(), 1);
    assert_eq!(statements[0].to_string(), format!("SELECT a FROM {}", url));
}
