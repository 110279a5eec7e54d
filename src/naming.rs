//! Name transformer: the singular type name of a table and the case
//! conversions applied to column names.
use vstd::prelude::*;
use crate::text::char_vec;

verus! {

/// What `heck::CamelCase::to_camel_case` returns for a text (upper camel case).
pub uninterp spec fn camel_of(s: Seq<char>) -> Seq<char>;

/// What `heck::SnakeCase::to_snake_case` returns for a text.
pub uninterp spec fn snake_of(s: Seq<char>) -> Seq<char>;

/// What `heck::TitleCase::to_title_case` returns for a text.
pub uninterp spec fn title_of(s: Seq<char>) -> Seq<char>;

/// Relies on heck's `CamelCase::to_camel_case` for `str`: the words of the
/// text, each capitalized, joined without separator.
#[verifier::external_body]
pub(crate) fn camel_case(s: &str) -> (r: String)
    ensures
        r@ == camel_of(s@),
{
    <str as heck::CamelCase>::to_camel_case(s)
}

/// Relies on heck's `SnakeCase::to_snake_case` for `str`: the words of the
/// text, in lower case, joined by underscores.
#[verifier::external_body]
pub(crate) fn snake_case(s: &str) -> (r: String)
    ensures
        r@ == snake_of(s@),
{
    <str as heck::SnakeCase>::to_snake_case(s)
}

/// Relies on heck's `TitleCase::to_title_case` for `str`: the words of the
/// text, each capitalized, joined by spaces.
#[verifier::external_body]
pub(crate) fn title_case(s: &str) -> (r: String)
    ensures
        r@ == title_of(s@),
{
    <str as heck::TitleCase>::to_title_case(s)
}

/// `s` without its last character; the empty text stays empty.
pub open spec fn drop_last_char(s: Seq<char>) -> Seq<char> {
    if s.len() > 0 {
        s.drop_last()
    } else {
        s
    }
}

/// The naive singular rule: a table name ending in `s` loses the last
/// character of its camel-case form; any other keeps its camel-case form.
pub open spec fn singular_name(table: Seq<char>, camel: Seq<char>) -> Seq<char> {
    if table.len() > 0 && table.last() == 's' {
        drop_last_char(camel)
    } else {
        camel
    }
}

/// The type name of the table `table_name`, given `camel`, the camel-case
/// form of that name.
pub fn singular_from_camel(table_name: &str, camel: &str) -> (r: String)
    ensures
        r@ == singular_name(table_name@, camel@),
{
    let t = char_vec(table_name);
    if t.len() > 0 && t[t.len() - 1] == 's' {
        let n = camel.unicode_len();
        if n > 0 {
            let kept = camel.substring_char(0, n - 1);
            assert(kept@ =~= camel@.drop_last());
            kept.to_owned()
        } else {
            camel.to_owned()
        }
    } else {
        camel.to_owned()
    }
}

/// The type name of a table: its camel-case form, less the trailing `s` of
/// a plural (`todos` gives `Todo`, `data` gives `Data`).
pub fn singular_type_name(table_name: String) -> (r: String)
    ensures
        r@ == singular_name(table_name@, camel_of(table_name@)),
{
    let camel = camel_case(table_name.as_str());
    singular_from_camel(table_name.as_str(), camel.as_str())
}

} // verus!
