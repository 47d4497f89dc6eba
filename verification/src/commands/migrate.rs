//! `luna migrate` and `luna init`: writing `luna.toml` from legacy files.
use vstd::prelude::*;
use crate::text::{string_from, push_str};

verus! {

/// Whether the command only migrates, or also scaffolds a new workspace.
#[derive(Clone, Copy, PartialEq, Eq, Structural, Debug)]
pub enum MigrateMode {
    Migrate,
    Init,
}

/// Refuse to overwrite an existing `luna.toml` without `--force`; `path` is how
/// the file is shown in the error.
pub fn check_overwrite(path: &str, present: bool, force: bool) -> (r: Result<(), String>)
    ensures
        r.is_ok() == (!present || force),
        match r {
            Err(e) => e@ == "luna.toml already exists at "@ + path@ + " — pass --force to overwrite"@,
            Ok(_) => true,
        },
{
    if present && !force {
        let mut e = string_from("luna.toml already exists at ");
        push_str(&mut e, path);
        push_str(&mut e, " — pass --force to overwrite");
        Err(e)
    } else {
        Ok(())
    }
}

/// Whether a `pixi.toml` scaffold is written: only by `init`, and only when the
/// workspace has none.
pub fn needs_pixi_scaffold(mode: MigrateMode, pixi_exists: bool) -> (r: bool)
    ensures
        r == (mode == MigrateMode::Init && !pixi_exists),
{
    match mode {
        MigrateMode::Init => !pixi_exists,
        MigrateMode::Migrate => false,
    }
}

} // verus!
