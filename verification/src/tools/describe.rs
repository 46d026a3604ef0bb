//! How the type of a field is shown to the model: as a Python type.

use vstd::prelude::*;

use crate::text::{replace_all, replaced};

verus! {

/// The Python spelling of a Rust type: spaces removed, paths dotted, and
/// `Vec`, `Option`, `String`, the integers, the floats, `()` and `HashMap`
/// renamed, with square brackets for the generic arguments; the renamings
/// are applied in that order.
pub open spec fn python_type(ty: Seq<char>) -> Seq<char> {
    let t = replaced(ty, " "@, ""@);
    let t = replaced(t, "::"@, "."@);
    let t = replaced(t, "Vec"@, "list"@);
    let t = replaced(t, "Option"@, "Optional"@);
    let t = replaced(t, "String"@, "str"@);
    let t = replaced(t, "i32"@, "int"@);
    let t = replaced(t, "i64"@, "int"@);
    let t = replaced(t, "f32"@, "float"@);
    let t = replaced(t, "f64"@, "float"@);
    let t = replaced(t, "()"@, "None"@);
    let t = replaced(t, "HashMap"@, "dict"@);
    let t = replaced(t, "<"@, "["@);
    replaced(t, ">"@, "]"@)
}

/// The Python spelling of a Rust type.
pub fn pythonify(ty: &str) -> (r: String)
    ensures
        r@ == python_type(ty@),
{
    proof {
        reveal_strlit(" ");
        reveal_strlit("::");
        reveal_strlit("Vec");
        reveal_strlit("Option");
        reveal_strlit("String");
        reveal_strlit("i32");
        reveal_strlit("i64");
        reveal_strlit("f32");
        reveal_strlit("f64");
        reveal_strlit("()");
        reveal_strlit("HashMap");
        reveal_strlit("<");
        reveal_strlit(">");
    }
    let t = replace_all(ty, " ", "");
    let t = replace_all(t.as_str(), "::", ".");
    let t = replace_all(t.as_str(), "Vec", "list");
    let t = replace_all(t.as_str(), "Option", "Optional");
    let t = replace_all(t.as_str(), "String", "str");
    let t = replace_all(t.as_str(), "i32", "int");
    let t = replace_all(t.as_str(), "i64", "int");
    let t = replace_all(t.as_str(), "f32", "float");
    let t = replace_all(t.as_str(), "f64", "float");
    let t = replace_all(t.as_str(), "()", "None");
    let t = replace_all(t.as_str(), "HashMap", "dict");
    let t = replace_all(t.as_str(), "<", "[");
    replace_all(t.as_str(), ">", "]")
}

} // verus!
