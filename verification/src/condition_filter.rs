//! The condition that a caller may set on the records to show: a
//! JavaScript expression, evaluated with the record as `this`.
use vstd::prelude::*;

verus! {

/// The script that evaluates `condition` on a line: a function that
/// returns the condition, called with the object on the line as `this`.
pub open spec fn script_text(condition: Seq<char>, line: Seq<char>) -> Seq<char> {
    "(function (){return ("@ + condition + ")}).call("@ + line + ")"@
}

/// The script that evaluates `condition` on a line.
pub fn condition_script(condition: &str, line: &str) -> (script: String)
    ensures
        script@ == script_text(condition@, line@),
{
    let mut script = String::from_str("(function (){return (");
    script.append(condition);
    script.append(")}).call(");
    script.append(line);
    script.append(")");
    script
}

} // verus!
