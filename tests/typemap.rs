use scrambler::typemap::{get_rust_type, get_rust_type_str, TypeMap};

fn mapped(sql: &str, udt: &str, nullable: bool) -> String {
    match get_rust_type_str(sql.to_string(), udt.to_string(), nullable) {
        Ok(t) => t,
        Err(e) => panic!("unmapped {} {}", e.sql_type, e.udt_name),
    }
}

#[test]
fn bigint_with_int8_tag_is_i64() {
    assert_eq!(mapped("bigint", "int8", false), "i64");
}

#[test]
fn nullable_text_array_is_optional_vec_of_string() {
    assert_eq!(mapped("ARRAY", "_text", true), "Option<Vec<String>>");
}

#[test]
fn boolean_is_bool() {
    assert_eq!(mapped("boolean", "bool", false), "bool");
}

#[test]
fn fixture_table_of_type_mappings() {
    let cases: Vec<(&str, &str, bool, &str)> = vec![
        ("text", "text", false, "String"),
        ("text", "text", true, "Option<String>"),
        ("uuid", "uuid", false, "::uuid::Uuid"),
        ("smallint", "int2", false, "i16"),
        ("smallint", "int2", true, "Option<i16>"),
        ("timestamp with time zone", "timestamptz", false, "DateTime<Utc>"),
        ("ARRAY", "_int4", false, "Vec<i32>"),
        ("ARRAY", "__int8", false, "Vec<i64>"),
        ("ARRAY", "_uuid", false, "Vec<::uuid::Uuid>"),
        ("bytea", "bytea", false, "Vec<u8>"),
        ("jsonb", "jsonb", true, "Option<serde_json::Value>"),
        ("date", "date", false, "chrono::NaiveDate"),
        ("inet", "inet", false, "ipnetwork::IpNetwork"),
        ("macaddr", "macaddr", false, "[u8; 6]"),
        ("daterange", "daterange", false, "(Bound<chrono::NaiveDate>, Bound<chrono::NaiveDate>)"),
    ];
    for (sql, udt, nullable, expected) in cases {
        assert_eq!(mapped(sql, udt, nullable), expected, "{} {}", sql, udt);
    }
}

#[test]
fn unknown_primitive_type_is_reported() {
    let r = get_rust_type_str("geometry".to_string(), "geometry".to_string(), false);
    match r {
        Err(e) => {
            assert_eq!(e.sql_type, "geometry");
            assert_eq!(e.udt_name, "geometry");
        }
        Ok(t) => panic!("guessed {}", t),
    }
}

#[test]
fn unknown_compound_type_is_reported() {
    let r = get_rust_type_str("integer".to_string(), "int4".to_string(), true);
    match r {
        Err(e) => {
            assert_eq!(e.sql_type, "integer");
            assert_eq!(e.udt_name, "int4");
        }
        Ok(t) => panic!("guessed {}", t),
    }
}

#[test]
fn array_of_unknown_element_is_reported() {
    assert!(get_rust_type_str("ARRAY".to_string(), "_geometry".to_string(), false).is_err());
}

#[test]
fn fallback_applies_only_when_given() {
    let strict = TypeMap::standard();
    assert!(strict.map_column_type("geometry", "geometry", false).is_err());
    let lenient = TypeMap::standard().with_fallback("String");
    match lenient.map_column_type("geometry", "geometry", true) {
        Ok(t) => assert_eq!(t, "Option<String>"),
        Err(_) => panic!("fallback ignored"),
    }
    match lenient.map_column_type("ARRAY", "_geometry", false) {
        Ok(t) => assert_eq!(t, "Vec<String>"),
        Err(_) => panic!("fallback ignored"),
    }
    match lenient.map_column_type("int8", "int8", false) {
        Ok(t) => assert_eq!(t, "i64"),
        Err(_) => panic!("known type lost"),
    }
}

#[test]
fn primitive_lookup() {
    assert_eq!(get_rust_type("int8"), Some("i64".to_string()));
    assert_eq!(get_rust_type("double precision"), Some("f64".to_string()));
    assert_eq!(get_rust_type("varchar"), None);
    assert_eq!(get_rust_type(""), None);
}
