//! Bootstrap steps: the message of a step that failed.
use vstd::prelude::*;
use crate::num::int_text;
use crate::text::{views, join, join_strings, string_from, push_str};

verus! {

/// The error of a step that exited with a non-zero code.
pub open spec fn step_failure_spec(program: Seq<char>, args: Seq<Seq<char>>, code: i32) -> Seq<char> {
    "`"@ + program + " "@ + join(args, " "@) + "` failed with exit code "@ + int_text(code as int)
}

/// A bootstrap step succeeds only when it exits with 0.
pub fn check_step(program: &str, args: &Vec<String>, code: i32) -> (r: Result<(), String>)
    ensures
        match r {
            Ok(_) => code == 0,
            Err(e) => code != 0 && e@ == step_failure_spec(program@, views(args@), code),
        },
{
    if code == 0 {
        return Ok(());
    }
    let mut e = string_from("`");
    push_str(&mut e, program);
    push_str(&mut e, " ");
    let a = join_strings(args, " ");
    push_str(&mut e, a.as_str());
    push_str(&mut e, "` failed with exit code ");
    crate::num::push_i32(&mut e, code);
    Err(e)
}

} // verus!
