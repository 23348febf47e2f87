//! The text the extraction writes for a set of design values: a JSON document
//! listing them, and a Rust module with one string constant per value.
//!
//! Each value arrives as plain text: its name, its value, the names of its kind
//! and of its source, and where in the prototype it was found. Names, values
//! and locations are quoted and escaped; kind and source are bare names and go
//! between quotes as they are.

use vstd::prelude::*;
use vstd::string::*;

use crate::gates::{escape, quote};
use crate::text::{chars_of, push_char, to_uppercase, uppercase};

verus! {

/// `s` between double quotes, escaped.
pub open spec fn quoted(s: Seq<char>) -> Seq<char> {
    seq!['"'] + escape(s) + seq!['"']
}

/// One value's line of the JSON document.
pub open spec fn token_row_text(
    name: Seq<char>,
    value: Seq<char>,
    kind: Seq<char>,
    source: Seq<char>,
    location: Seq<char>,
) -> Seq<char> {
    "    { \"name\": "@ + quoted(name) + ", \"value\": "@ + quoted(value) + ", \"kind\": \""@
        + kind + "\", \"source\": \""@ + source + "\", \"source_location\": "@ + quoted(location)
        + " }"@
}

/// The texts of a list of strings.
pub open spec fn texts(v: Seq<String>) -> Seq<Seq<char>> {
    v.map_values(|s: String| s@)
}

/// `rows` with `separator` between each two of them.
pub open spec fn joined(rows: Seq<Seq<char>>, separator: Seq<char>) -> Seq<char>
    decreases rows.len(),
{
    if rows.len() == 0 {
        Seq::empty()
    } else if rows.len() == 1 {
        rows[0]
    } else {
        joined(rows.drop_last(), separator) + separator + rows.last()
    }
}

/// The JSON document: the rows, one per line, as the array `values`.
pub open spec fn tokens_document(rows: Seq<Seq<char>>) -> Seq<char> {
    "{\n  \"values\": [\n"@ + joined(rows, ",\n"@) + "\n  ]\n}"@
}

/// The constant's name for a design value: dashes become underscores, then
/// the name is uppercased.
pub open spec fn underscored(name: Seq<char>) -> Seq<char> {
    name.map_values(|c: char| if c == '-' { '_' } else { c })
}

/// One value's entry in the Rust module: a doc line naming the value and where
/// it was found, then the constant.
pub open spec fn module_entry_text(
    name: Seq<char>,
    location: Seq<char>,
    ident: Seq<char>,
    value: Seq<char>,
) -> Seq<char> {
    "/// `"@ + name + "` from "@ + location + "\npub const "@ + ident + ": &str = "@ + quoted(value)
        + ";\n\n"@
}

/// One value's line of the JSON document.
pub fn token_row(name: &str, value: &str, kind: &str, source: &str, location: &str) -> (r: String)
    ensures
        r@ == token_row_text(name@, value@, kind@, source@, location@),
{
    let mut out = String::new();
    out.append("    { \"name\": ");
    let q = quote(name);
    out.append(q.as_str());
    out.append(", \"value\": ");
    let q = quote(value);
    out.append(q.as_str());
    out.append(", \"kind\": \"");
    out.append(kind);
    out.append("\", \"source\": \"");
    out.append(source);
    out.append("\", \"source_location\": ");
    let q = quote(location);
    out.append(q.as_str());
    out.append(" }");
    out
}

/// The JSON document over the rows `token_row` makes.
pub fn tokens_json(rows: &Vec<String>) -> (r: String)
    ensures
        r@ == tokens_document(texts(rows@)),
{
    let mut out = String::new();
    out.append("{\n  \"values\": [\n");
    let ghost start = out@;
    let mut i: usize = 0;
    while i < rows.len()
        invariant
            i <= rows.len(),
            start == "{\n  \"values\": [\n"@,
            out@ == start + joined(texts(rows@).take(i as int), ",\n"@),
        decreases rows.len() - i,
    {
        let ghost before = texts(rows@).take(i as int);
        let ghost after = texts(rows@).take(i + 1);
        assert(after.drop_last() =~= before);
        assert(after.last() == rows@[i as int]@);
        if i > 0 {
            out.append(",\n");
        } else {
            assert(after =~= seq![rows@[0]@]);
        }
        out.append(rows[i].as_str());
        assert(out@ =~= start + joined(after, ",\n"@));
        i = i + 1;
    }
    assert(texts(rows@).take(rows@.len() as int) =~= texts(rows@));
    out.append("\n  ]\n}");
    out
}

/// `name` with each dash replaced by an underscore.
pub fn underscore_dashes(name: &str) -> (r: String)
    ensures
        r@ == underscored(name@),
{
    let chars = chars_of(name);
    let mut out = String::new();
    let mut i: usize = 0;
    while i < chars.len()
        invariant
            chars@ == name@,
            i <= chars.len(),
            out@ == underscored(chars@.take(i as int)),
        decreases chars.len() - i,
    {
        let c = chars[i];
        push_char(&mut out, if c == '-' { '_' } else { c });
        assert(underscored(chars@.take(i + 1)) =~= underscored(chars@.take(i as int)).push(
            if c == '-' { '_' } else { c },
        ));
        i = i + 1;
    }
    assert(chars@.take(chars@.len() as int) =~= chars@);
    out
}

/// The constant's name for a design value: `name.replace('-', "_").to_uppercase()`.
pub fn constant_name(name: &str) -> (r: String)
    ensures
        r@ == uppercase(underscored(name@)),
{
    let underscored_name = underscore_dashes(name);
    to_uppercase(underscored_name.as_str())
}

/// One value's entry in the module, under the constant name `ident`.
pub fn module_entry(name: &str, location: &str, ident: &str, value: &str) -> (r: String)
    ensures
        r@ == module_entry_text(name@, location@, ident@, value@),
{
    let mut out = String::new();
    out.append("/// `");
    out.append(name);
    out.append("` from ");
    out.append(location);
    out.append("\npub const ");
    out.append(ident);
    out.append(": &str = ");
    let q = quote(value);
    out.append(q.as_str());
    out.append(";\n\n");
    out
}

/// One value's entry in the module, under the constant name its own name gives.
pub fn module_entry_for(name: &str, location: &str, value: &str) -> (r: String)
    ensures
        r@ == module_entry_text(name@, location@, uppercase(underscored(name@)), value@),
{
    let ident = constant_name(name);
    module_entry(name, location, ident.as_str(), value)
}

} // verus!
