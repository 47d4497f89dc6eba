//! The moon adapter: task running through moon when `.moon/` exists.
use vstd::prelude::*;
use crate::adapters::AdapterKind;
use crate::config::LunaConfig;
use crate::diagnostics::{DoctorCheck, CheckView, check_views, ok_check, warn_check, ok, warn, push_check};
use crate::text::{string_from, views};

verus! {

/// The moon backend.
pub struct MoonBackend;

/// Whether moon is in use: compatibility enabled and `.moon/` present.
pub open spec fn moon_detect_spec(config: LunaConfig, moon_dir: bool) -> bool {
    config.compat.moon.enabled && moon_dir
}

/// The checks `doctor` reports for moon, given whether `.moon/` exists.
pub open spec fn moon_doctor_spec(config: LunaConfig, moon_dir: bool) -> Seq<CheckView> {
    if !config.compat.moon.enabled {
        seq![ok_check("moon-adapter"@, "Moon compatibility disabled"@)]
    } else if moon_dir {
        seq![ok_check("moon-adapter"@, ".moon/ present"@)]
    } else {
        seq![warn_check("moon-adapter"@, ".moon/ missing"@, Some("Moon task graph unavailable"@))]
    }
}

/// The arguments of a captured moon call: `-q` first when quiet.
pub open spec fn moon_capture_args_spec(args: Seq<Seq<char>>, quiet: bool) -> Seq<Seq<char>> {
    if quiet {
        seq!["-q"@] + args
    } else {
        args
    }
}

impl MoonBackend {
    /// This backend's adapter.
    pub fn kind(&self) -> (r: AdapterKind)
        ensures
            r == AdapterKind::Moon,
    {
        AdapterKind::Moon
    }

    /// Whether moon is in use, given whether `.moon/` exists.
    pub fn detect(&self, config: &LunaConfig, moon_dir: bool) -> (r: bool)
        ensures
            r == moon_detect_spec(*config, moon_dir),
    {
        config.compat.moon.enabled && moon_dir
    }

    /// The checks `doctor` reports, given whether `.moon/` exists.
    pub fn doctor(&self, config: &LunaConfig, moon_dir: bool) -> (r: Vec<DoctorCheck>)
        ensures
            check_views(r@) == moon_doctor_spec(*config, moon_dir),
    {
        let mut checks: Vec<DoctorCheck> = Vec::new();
        if !config.compat.moon.enabled {
            push_check(&mut checks, ok("moon-adapter", string_from("Moon compatibility disabled")));
        } else if moon_dir {
            push_check(&mut checks, ok("moon-adapter", string_from(".moon/ present")));
        } else {
            push_check(
                &mut checks,
                warn("moon-adapter", string_from(".moon/ missing"), string_from("Moon task graph unavailable")),
            );
        }
        assert(check_views(checks@) =~= moon_doctor_spec(*config, moon_dir));
        checks
    }

    /// The full argument list of a captured moon call.
    pub fn capture_args(args: &[&str], quiet: bool) -> (r: Vec<String>)
        ensures
            views(r@) == moon_capture_args_spec(args@.map_values(|a: &str| a@), quiet),
    {
        let mut full: Vec<String> = Vec::new();
        if quiet {
            full.push(string_from("-q"));
        }
        let ghost start = views(full@);
        let ghost av = args@.map_values(|a: &str| a@);
        let mut i: usize = 0;
        while i < args.len()
            invariant
                av == args@.map_values(|a: &str| a@),
                i <= args@.len(),
                start == (if quiet { seq!["-q"@] } else { seq![] }),
                views(full@) == start + av.take(i as int),
            decreases args@.len() - i,
        {
            let ghost before = views(full@);
            full.push(string_from(args[i]));
            proof {
                assert(views(full@) =~= before.push(av[i as int]));
                assert(av.take(i + 1) =~= av.take(i as int).push(av[i as int]));
            }
            i = i + 1;
        }
        proof {
            assert(av.take(args@.len() as int) =~= av);
            assert(start + av =~= moon_capture_args_spec(av, quiet));
        }
        full
    }
}

} // verus!
