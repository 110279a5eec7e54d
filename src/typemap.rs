//! Type mapper: from a column's declared SQL type, its driver-level type tag
//! and its nullability to the Rust type expression of the generated field.
//!
//! Primitive types are looked up in an ordered rule list (the first rule whose
//! SQL name matches wins). A map may carry a default type for names that no
//! rule knows; the standard map carries none, so that an unknown type is
//! reported rather than guessed.
use vstd::prelude::*;
use crate::text::same_text;

verus! {

/// One association of a primitive SQL type name with a Rust type expression.
pub struct TypeRule {
    pub sql_type: String,
    pub rust_type: String,
}

/// An ordered list of type rules and an optional default type.
pub struct TypeMap {
    pub rules: Vec<TypeRule>,
    pub fallback: Option<String>,
}

/// The pair `(declared type, driver type)` that no rule could map.
pub struct TypeMapError {
    pub sql_type: String,
    pub udt_name: String,
}

/// The rules as pairs of character sequences.
pub open spec fn table_view(rules: Seq<TypeRule>) -> Seq<(Seq<char>, Seq<char>)> {
    rules.map_values(|r: TypeRule| (r.sql_type@, r.rust_type@))
}

/// The Rust type of the first rule whose SQL name is `key`.
pub open spec fn lookup(table: Seq<(Seq<char>, Seq<char>)>, key: Seq<char>) -> Option<Seq<char>>
    decreases table.len(),
{
    if table.len() == 0 {
        None
    } else if table[0].0 == key {
        Some(table[0].1)
    } else {
        lookup(table.drop_first(), key)
    }
}

/// The standard association of PostgreSQL type names with Rust types.
pub open spec fn standard_type_table() -> Seq<(Seq<char>, Seq<char>)> {
    seq![
        ("smallint"@, "i16"@),
        ("int2"@, "i16"@),
        ("int"@, "i32"@),
        ("int4"@, "i32"@),
        ("bigint"@, "i64"@),
        ("int8"@, "i64"@),
        ("numeric(p, s)"@, "bigdecimal::BigDecimal"@),
        ("decimal(p, s)"@, "bigdecimal::BigDecimal"@),
        ("real"@, "f32"@),
        ("float4"@, "f32"@),
        ("double precision"@, "f64"@),
        ("float8"@, "f64"@),
        ("smallserial"@, "i16"@),
        ("serial2"@, "i16"@),
        ("serial"@, "i32"@),
        ("serial4"@, "i32"@),
        ("bigserial"@, "i64"@),
        ("serial8"@, "i64"@),
        ("money"@, "Cents"@),
        ("character varying(n)"@, "String"@),
        ("varchar(n)"@, "String"@),
        ("character(n)"@, "String"@),
        ("char(n)"@, "String"@),
        ("text"@, "String"@),
        ("bytea"@, "Vec<u8>"@),
        ("timestamp"@, "chrono::NaiveDateTime"@),
        ("timestamp(p)"@, "chrono::NaiveDateTime"@),
        ("date"@, "chrono::NaiveDate"@),
        ("time"@, "chrono::NaiveTime"@),
        ("time(p)"@, "chrono::NaiveTime"@),
        ("boolean"@, "bool"@),
        ("bool"@, "bool"@),
        ("cidr"@, "ipnetwork::IpNetwork"@),
        ("inet"@, "ipnetwork::IpNetwork"@),
        ("macaddr"@, "[u8; 6]"@),
        ("enum"@, "String"@),
        ("uuid"@, "::uuid::Uuid"@),
        ("json"@, "serde_json::Value"@),
        ("jsonb"@, "serde_json::Value"@),
        ("int4range"@, "(Bound<i32>, Bound<i32>)"@),
        ("int8range"@, "(Bound<i64>, Bound<i64>)"@),
        ("numrange"@, "(Bound<bigdecimal::BigDecimal>,Bound<bigdecimal::BigDecimal>)"@),
        ("tsrange"@, "(Bound<chrono::NaiveDateTime>,Bound<chrono::NaiveDateTime>)"@),
        ("tstzrange"@, "(Bound<chrono::DateTime>, Bound<chrono::DateTime>)"@),
        ("daterange"@, "(Bound<chrono::NaiveDate>, Bound<chrono::NaiveDate>)"@),
    ]
}

/// `s` without its leading underscores (the array marker of a driver type tag).
pub open spec fn strip_array_marker(s: Seq<char>) -> Seq<char>
    decreases s.len(),
{
    if s.len() > 0 && s[0] == '_' {
        strip_array_marker(s.drop_first())
    } else {
        s
    }
}

/// The compound declared types that map directly, whatever the driver type.
pub open spec fn direct_type(declared: Seq<char>) -> Option<Seq<char>> {
    if declared == "bigint"@ {
        Some("i64"@)
    } else if declared == "smallint"@ {
        Some("i16"@)
    } else if declared == "timestamp with time zone"@ {
        Some("DateTime<Utc>"@)
    } else if declared == "boolean"@ {
        Some("bool"@)
    } else {
        None
    }
}

/// `Vec<t>`.
pub open spec fn vec_of(t: Seq<char>) -> Seq<char> {
    "Vec<"@ + t + ">"@
}

/// `Option<t>`.
pub open spec fn option_of(t: Seq<char>) -> Seq<char> {
    "Option<"@ + t + ">"@
}

/// What a primitive type name maps to under the rules `table` and the
/// default type `default`: the first matching rule, else the default.
pub open spec fn resolve_in(table: Seq<(Seq<char>, Seq<char>)>, default: Option<Seq<char>>, key: Seq<char>) -> Option<Seq<char>> {
    match lookup(table, key) {
        Some(t) => Some(t),
        None => default,
    }
}

/// The type of a column before nullability is applied: a primitive type
/// when the declared type and the driver type agree; otherwise a sequence
/// of the element type for `ARRAY`, or one of the direct compound types.
pub open spec fn base_type_in(
    table: Seq<(Seq<char>, Seq<char>)>,
    default: Option<Seq<char>>,
    declared: Seq<char>,
    udt: Seq<char>,
) -> Option<Seq<char>> {
    if declared == udt {
        resolve_in(table, default, declared)
    } else if declared == "ARRAY"@ {
        match resolve_in(table, default, strip_array_marker(udt)) {
            Some(e) => Some(vec_of(e)),
            None => None,
        }
    } else {
        direct_type(declared)
    }
}

/// The Rust type of a column, wrapped in `Option` when it is nullable.
pub open spec fn column_type_in(
    table: Seq<(Seq<char>, Seq<char>)>,
    default: Option<Seq<char>>,
    declared: Seq<char>,
    udt: Seq<char>,
    nullable: bool,
) -> Option<Seq<char>> {
    match base_type_in(table, default, declared, udt) {
        Some(t) => Some(if nullable { option_of(t) } else { t }),
        None => None,
    }
}

impl TypeRule {
    pub fn new(sql_type: &str, rust_type: &str) -> (r: TypeRule)
        ensures
            r.sql_type@ == sql_type@,
            r.rust_type@ == rust_type@,
    {
        TypeRule { sql_type: sql_type.to_owned(), rust_type: rust_type.to_owned() }
    }
}

impl TypeMap {
    /// The rules as pairs of character sequences.
    pub open spec fn table(&self) -> Seq<(Seq<char>, Seq<char>)> {
        table_view(self.rules@)
    }

    /// The default type, if any.
    pub open spec fn default_type(&self) -> Option<Seq<char>> {
        match self.fallback {
            Some(f) => Some(f@),
            None => None,
        }
    }

    /// What a primitive type name maps to: the first matching rule, else the default.
    pub open spec fn resolve_spec(&self, key: Seq<char>) -> Option<Seq<char>> {
        resolve_in(self.table(), self.default_type(), key)
    }

    /// The Rust type of a column under these rules.
    pub open spec fn column_type_spec(&self, declared: Seq<char>, udt: Seq<char>, nullable: bool) -> Option<Seq<char>> {
        column_type_in(self.table(), self.default_type(), declared, udt, nullable)
    }

    /// The same rules with `fallback` as the type of every name they do not know.
    pub fn with_fallback(self, fallback: &str) -> (r: TypeMap)
        ensures
            r.table() == self.table(),
            r.default_type() == Some(fallback@),
    {
        TypeMap { rules: self.rules, fallback: Some(fallback.to_owned()) }
    }

    /// The Rust type of a primitive SQL type name.
    pub fn resolve(&self, key: &str) -> (r: Option<String>)
        ensures
            match r {
                Some(t) => self.resolve_spec(key@) == Some(t@),
                None => self.resolve_spec(key@) is None,
            },
    {
        let n = self.rules.len();
        let mut i: usize = 0;
        assert(self.table().subrange(0, n as int) =~= self.table());
        while i < n
            invariant
                n == self.rules@.len(),
                i <= n,
                lookup(self.table(), key@) == lookup(self.table().subrange(i as int, n as int), key@),
            decreases n - i,
        {
            let rule = &self.rules[i];
            assert(self.table().subrange(i as int, n as int).drop_first() =~= self.table().subrange(
                i + 1,
                n as int,
            ));
            if same_text(rule.sql_type.as_str(), key) {
                return Some(rule.rust_type.clone());
            }
            i = i + 1;
        }
        assert(self.table().subrange(n as int, n as int).len() == 0);
        match &self.fallback {
            Some(f) => Some(f.clone()),
            None => None,
        }
    }

    /// The Rust type of a column with the given declared type, driver type tag
    /// and nullability; the pair of types is reported when no rule maps it.
    pub fn map_column_type(&self, sql_type: &str, udt_name: &str, nullable: bool) -> (r: Result<
        String,
        TypeMapError,
    >)
        ensures
            match r {
                Ok(t) => self.column_type_spec(sql_type@, udt_name@, nullable) == Some(t@),
                Err(e) => self.column_type_spec(sql_type@, udt_name@, nullable) is None
                    && e.sql_type@ == sql_type@ && e.udt_name@ == udt_name@,
            },
    {
        let base = if same_text(sql_type, udt_name) {
            self.resolve(sql_type)
        } else if same_text(sql_type, "ARRAY") {
            let element = strip_leading_underscores(udt_name);
            match self.resolve(element) {
                Some(e) => {
                    let mut t = String::new();
                    t.append("Vec<");
                    t.append(e.as_str());
                    t.append(">");
                    Some(t)
                },
                None => None,
            }
        } else {
            direct_rust_type(sql_type)
        };
        match base {
            Some(t) => {
                if nullable {
                    let mut o = String::new();
                    o.append("Option<");
                    o.append(t.as_str());
                    o.append(">");
                    Ok(o)
                } else {
                    Ok(t)
                }
            },
            None => Err(TypeMapError { sql_type: sql_type.to_owned(), udt_name: udt_name.to_owned() }),
        }
    }

    /// The standard rules, with no default type.
    pub fn standard() -> (r: TypeMap)
        ensures
            r.table() == standard_type_table(),
            r.fallback is None,
    {
        let mut v: Vec<TypeRule> = Vec::new();
        v.push(TypeRule::new("smallint", "i16"));
        v.push(TypeRule::new("int2", "i16"));
        v.push(TypeRule::new("int", "i32"));
        v.push(TypeRule::new("int4", "i32"));
        v.push(TypeRule::new("bigint", "i64"));
        v.push(TypeRule::new("int8", "i64"));
        v.push(TypeRule::new("numeric(p, s)", "bigdecimal::BigDecimal"));
        v.push(TypeRule::new("decimal(p, s)", "bigdecimal::BigDecimal"));
        v.push(TypeRule::new("real", "f32"));
        v.push(TypeRule::new("float4", "f32"));
        v.push(TypeRule::new("double precision", "f64"));
        v.push(TypeRule::new("float8", "f64"));
        v.push(TypeRule::new("smallserial", "i16"));
        v.push(TypeRule::new("serial2", "i16"));
        v.push(TypeRule::new("serial", "i32"));
        v.push(TypeRule::new("serial4", "i32"));
        v.push(TypeRule::new("bigserial", "i64"));
        v.push(TypeRule::new("serial8", "i64"));
        v.push(TypeRule::new("money", "Cents"));
        v.push(TypeRule::new("character varying(n)", "String"));
        v.push(TypeRule::new("varchar(n)", "String"));
        v.push(TypeRule::new("character(n)", "String"));
        v.push(TypeRule::new("char(n)", "String"));
        v.push(TypeRule::new("text", "String"));
        v.push(TypeRule::new("bytea", "Vec<u8>"));
        v.push(TypeRule::new("timestamp", "chrono::NaiveDateTime"));
        v.push(TypeRule::new("timestamp(p)", "chrono::NaiveDateTime"));
        v.push(TypeRule::new("date", "chrono::NaiveDate"));
        v.push(TypeRule::new("time", "chrono::NaiveTime"));
        v.push(TypeRule::new("time(p)", "chrono::NaiveTime"));
        v.push(TypeRule::new("boolean", "bool"));
        v.push(TypeRule::new("bool", "bool"));
        v.push(TypeRule::new("cidr", "ipnetwork::IpNetwork"));
        v.push(TypeRule::new("inet", "ipnetwork::IpNetwork"));
        v.push(TypeRule::new("macaddr", "[u8; 6]"));
        v.push(TypeRule::new("enum", "String"));
        v.push(TypeRule::new("uuid", "::uuid::Uuid"));
        v.push(TypeRule::new("json", "serde_json::Value"));
        v.push(TypeRule::new("jsonb", "serde_json::Value"));
        v.push(TypeRule::new("int4range", "(Bound<i32>, Bound<i32>)"));
        v.push(TypeRule::new("int8range", "(Bound<i64>, Bound<i64>)"));
        v.push(
            TypeRule::new(
                "numrange",
                "(Bound<bigdecimal::BigDecimal>,Bound<bigdecimal::BigDecimal>)",
            ),
        );
        v.push(
            TypeRule::new(
                "tsrange",
                "(Bound<chrono::NaiveDateTime>,Bound<chrono::NaiveDateTime>)",
            ),
        );
        v.push(TypeRule::new("tstzrange", "(Bound<chrono::DateTime>, Bound<chrono::DateTime>)"));
        v.push(TypeRule::new("daterange", "(Bound<chrono::NaiveDate>, Bound<chrono::NaiveDate>)"));
        let r = TypeMap { rules: v, fallback: None };
        assert(r.table() =~= standard_type_table());
        r
    }
}

/// `s` after its leading underscores.
fn strip_leading_underscores(s: &str) -> (r: &str)
    ensures
        r@ == strip_array_marker(s@),
{
    let chars = crate::text::char_vec(s);
    let n = chars.len();
    let mut k: usize = 0;
    assert(s@.subrange(0, n as int) =~= s@);
    while k < n && chars[k] == '_'
        invariant
            chars@ == s@,
            n == s@.len(),
            k <= n,
            strip_array_marker(s@) == strip_array_marker(s@.subrange(k as int, n as int)),
        decreases n - k,
    {
        assert(s@.subrange(k as int, n as int).drop_first() =~= s@.subrange(k + 1, n as int));
        k = k + 1;
    }
    s.substring_char(k, n)
}

/// The type of the compound declared types that map directly.
fn direct_rust_type(sql_type: &str) -> (r: Option<String>)
    ensures
        match r {
            Some(t) => direct_type(sql_type@) == Some(t@),
            None => direct_type(sql_type@) is None,
        },
{
    if same_text(sql_type, "bigint") {
        Some("i64".to_owned())
    } else if same_text(sql_type, "smallint") {
        Some("i16".to_owned())
    } else if same_text(sql_type, "timestamp with time zone") {
        Some("DateTime<Utc>".to_owned())
    } else if same_text(sql_type, "boolean") {
        Some("bool".to_owned())
    } else {
        None
    }
}

/// The Rust type of a primitive SQL type name under the standard rules.
pub fn get_rust_type(sql_type: &str) -> (r: Option<String>)
    ensures
        match r {
            Some(t) => lookup(standard_type_table(), sql_type@) == Some(t@),
            None => lookup(standard_type_table(), sql_type@) is None,
        },
{
    TypeMap::standard().resolve(sql_type)
}

/// The Rust type of a column under the standard rules: `Ok` exactly when a
/// rule maps the pair of types, else the pair is reported.
pub fn get_rust_type_str(sql_type: String, udt_name: String, nullable: bool) -> (r: Result<
    String,
    TypeMapError,
>)
    ensures
        match r {
            Ok(t) => standard_column_type(sql_type@, udt_name@, nullable) == Some(t@),
            Err(e) => standard_column_type(sql_type@, udt_name@, nullable) is None
                && e.sql_type@ == sql_type@ && e.udt_name@ == udt_name@,
        },
{
    TypeMap::standard().map_column_type(sql_type.as_str(), udt_name.as_str(), nullable)
}

/// The Rust type of a column under the standard rules.
pub open spec fn standard_column_type(declared: Seq<char>, udt: Seq<char>, nullable: bool) -> Option<Seq<char>> {
    column_type_in(standard_type_table(), None, declared, udt, nullable)
}

} // verus!
