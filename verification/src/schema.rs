//! Schema loader: evaluates the server-defined declarative field catalog
//! and materializes each field's default value from its declared type tag.
//!
//! The catalog source is a Lua script whose result holds a `players` array
//! of field descriptors `{name, type, default}`. Evaluation is done by the
//! embedded Lua interpreter; everything after it — the type-tag coercion —
//! is plain logic here. A default of the wrong kind, or a missing one,
//! falls back to the declared type's zero value; an unrecognized type tag
//! yields `null` rather than failing the whole load.

use vstd::prelude::*;

verus! {

use crate::errors::AppError;
use crate::json::json_bool;
use crate::json::json_int;
use crate::json::json_null;
use crate::json::json_of_bool;
use crate::json::json_of_i64;
use crate::json::json_of_str;
use crate::json::json_str;
use crate::json::json_zero_number;
use crate::json::null_value;
use crate::json::zero_number_value;
use crate::normalize::str_eq;

#[verifier::external_type_specification]
#[verifier::external_body]
pub struct ExLua(mlua::Lua);

#[verifier::external_type_specification]
#[verifier::external_body]
pub struct ExLuaTable(mlua::Table);

/// A field descriptor's `default` attribute as the script gave it, moved
/// into plain values; `Absent` also stands for a value of a kind no type
/// tag can use.
pub enum RawDefault {
    /// No usable default was declared.
    Absent,
    /// A Lua integer.
    Int(i64),
    /// A Lua float, carried as its JSON number (`null` when not finite).
    Num(serde_json::Value),
    /// A Lua string.
    Text(String),
    /// A Lua boolean.
    Flag(bool),
}

/// The default value a field materializes to, by its declared type tag.
pub open spec fn default_value_of(tag: Seq<char>, raw: RawDefault) -> serde_json::Value {
    if tag == "int"@ {
        match raw {
            RawDefault::Int(i) => if i32::MIN <= i <= i32::MAX {
                json_int(i as int)
            } else {
                json_int(0)
            },
            _ => json_int(0),
        }
    } else if tag == "bigint"@ {
        match raw {
            RawDefault::Int(i) => json_int(i as int),
            _ => json_int(0),
        }
    } else if tag == "float"@ || tag == "real"@ {
        match raw {
            RawDefault::Num(v) => v,
            _ => json_zero_number(),
        }
    } else if tag == "string"@ {
        match raw {
            RawDefault::Text(s) => json_str(s@),
            _ => json_str(""@),
        }
    } else if tag == "boolean"@ {
        match raw {
            RawDefault::Flag(b) => json_bool(b),
            _ => json_bool(false),
        }
    } else {
        json_null()
    }
}

/// Relies on mlua: evaluates the script in a fresh interpreter and returns
/// the interpreter together with the root table the script produced. The
/// interpreter must outlive the handles into it, so it travels along.
#[verifier::external_body]
fn lua_eval_root(script: &str) -> (r: Result<(mlua::Lua, mlua::Table), ()>) {
    let lua = mlua::Lua::new();
    let root: mlua::Table = lua.load(script).eval().map_err(|_| (()))?;
    Ok((lua, root))
}

/// Relies on mlua's `Table::get` and `Table::pairs`: the integer-keyed,
/// table-valued entries of the root's `players` table, or none when the
/// root has no such table.
#[verifier::external_body]
fn lua_field_rows(root: &mlua::Table) -> (r: Vec<mlua::Table>) {
    match root.get::<mlua::Table>("players") {
        Ok(fields) => fields.pairs::<i64, mlua::Table>().flatten().map(|(_, t)| t).collect(),
        Err(_) => Vec::new(),
    }
}

/// Relies on mlua's `Table::get`: one descriptor's `name`, `type` and
/// `default` attributes, the last moved over variant by variant. A missing
/// or non-string `name` or `type` fails the descriptor.
#[verifier::external_body]
fn lua_field_parts(field: &mlua::Table) -> (r: Result<(String, String, RawDefault), ()>) {
    let name: String = field.get("name").map_err(|_| (()))?;
    let tag: String = field.get("type").map_err(|_| (()))?;
    let default = match field.get::<mlua::Value>("default") {
        Ok(mlua::Value::Integer(i)) => RawDefault::Int(i),
        Ok(mlua::Value::Number(n)) => RawDefault::Num(serde_json::Value::from(n)),
        Ok(mlua::Value::String(s)) => match s.to_str() {
            Ok(v) => RawDefault::Text(v.to_string()),
            Err(_) => RawDefault::Absent,
        },
        Ok(mlua::Value::Boolean(b)) => RawDefault::Flag(b),
        _ => RawDefault::Absent,
    };
    Ok((name, tag, default))
}

/// Materializes one field's default from its declared type tag.
pub fn coerce_default(tag: &str, raw: RawDefault) -> (r: serde_json::Value)
    ensures
        r == default_value_of(tag@, raw),
{
    if str_eq(tag, "int") {
        match raw {
            RawDefault::Int(i) => if -2147483648 <= i && i <= 2147483647 {
                json_of_i64(i)
            } else {
                json_of_i64(0)
            },
            _ => json_of_i64(0),
        }
    } else if str_eq(tag, "bigint") {
        match raw {
            RawDefault::Int(i) => json_of_i64(i),
            _ => json_of_i64(0),
        }
    } else if str_eq(tag, "float") || str_eq(tag, "real") {
        match raw {
            RawDefault::Num(v) => v,
            _ => zero_number_value(),
        }
    } else if str_eq(tag, "string") {
        match raw {
            RawDefault::Text(s) => json_of_str(s.as_str()),
            _ => json_of_str(""),
        }
    } else if str_eq(tag, "boolean") {
        match raw {
            RawDefault::Flag(b) => json_of_bool(b),
            _ => json_of_bool(false),
        }
    } else {
        null_value()
    }
}

/// Loads the field catalog from the schema script's text: evaluates the
/// script, then materializes each descriptor's default by its type tag.
/// Fails with the schema fault when the script does not evaluate or a
/// descriptor lacks its `name` or `type`; a root without a `players` table
/// yields the empty catalog.
pub fn load_data(script: &str) -> (r: Result<Vec<(String, serde_json::Value)>, AppError>)
    ensures
        r matches Err(e) ==> e == AppError::Schema,
{
    let evaluated = match lua_eval_root(script) {
        Ok(pair) => pair,
        Err(()) => {
            return Err(AppError::Schema);
        },
    };
    let rows = lua_field_rows(&evaluated.1);
    let mut catalog: Vec<(String, serde_json::Value)> = Vec::new();
    let mut i: usize = 0;
    while i < rows.len()
        decreases rows@.len() - i,
    {
        match lua_field_parts(&rows[i]) {
            Ok((name, tag, raw)) => {
                let value = coerce_default(tag.as_str(), raw);
                catalog.push((name, value));
            },
            Err(()) => {
                return Err(AppError::Schema);
            },
        }
        i = i + 1;
    }
    Ok(catalog)
}

} // verus!
