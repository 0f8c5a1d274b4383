//! Watch mode: which file changes trigger a rebuild, what is watched and what
//! is rebuilt.

use crate::cli::{BuildTarget, CargoBuildMode, WatchTarget};
use crate::error::RsbuildError;
use crate::text::{
    chars_of, has_infix, has_infix_exec, has_prefix, has_suffix, has_suffix_exec, string_views, text_of,
};
use vstd::prelude::*;

verus! {

/// File patterns to watch for each target type.
pub open spec fn patterns_of(target: WatchTarget) -> Seq<Seq<char>> {
    match target {
        WatchTarget::Wheel => seq![".py"@, "pyproject.toml"@, "setup.py"@, "setup.cfg"@],
        WatchTarget::Docker => seq!["Dockerfile"@, "docker-compose.yml"@, "compose.yml"@, ".dockerfile"@],
        WatchTarget::Cython => seq![".pyx"@, ".pxd"@, ".pxi"@],
        WatchTarget::Cargo => seq![".rs"@, "Cargo.toml"@, "Cargo.lock"@],
    }
}

/// File patterns to watch for each target type.
pub fn file_patterns_for_target(target: WatchTarget) -> (r: Vec<String>)
    ensures
        string_views(r@) == patterns_of(target),
{
    let r = match target {
        WatchTarget::Wheel => vec![text_of(".py"), text_of("pyproject.toml"), text_of("setup.py"), text_of("setup.cfg")],
        WatchTarget::Docker => vec![text_of("Dockerfile"), text_of("docker-compose.yml"), text_of("compose.yml"), text_of(".dockerfile")],
        WatchTarget::Cython => vec![text_of(".pyx"), text_of(".pxd"), text_of(".pxi")],
        WatchTarget::Cargo => vec![text_of(".rs"), text_of("Cargo.toml"), text_of("Cargo.lock")],
    };
    assert(string_views(r@) =~= patterns_of(target));
    r
}

/// Default paths to watch for each target type.
pub open spec fn default_paths_of(target: WatchTarget) -> Seq<Seq<char>> {
    match target {
        WatchTarget::Cargo => seq!["src"@, "Cargo.toml"@],
        _ => seq!["."@],
    }
}

/// Default paths to watch for each target type.
pub fn default_paths_for_target(target: WatchTarget) -> (r: Vec<String>)
    ensures
        string_views(r@) == default_paths_of(target),
{
    let r = match target {
        WatchTarget::Wheel => vec![text_of(".")],
        WatchTarget::Docker => vec![text_of(".")],
        WatchTarget::Cython => vec![text_of(".")],
        WatchTarget::Cargo => vec![text_of("src"), text_of("Cargo.toml")],
    };
    assert(string_views(r@) =~= default_paths_of(target));
    r
}

/// With no paths given, the wheel, Docker and Cython targets watch the whole
/// project (`.`), so that every file matching one of their patterns is seen;
/// the Cargo target watches `src` and `Cargo.toml`.
pub proof fn law_default_watch_paths(target: WatchTarget)
    ensures
        target != WatchTarget::Cargo ==> default_paths_of(target) == seq!["."@],
        target == WatchTarget::Cargo ==> default_paths_of(target) == seq!["src"@, "Cargo.toml"@],
{
}

/// The paths that are watched: the ones given, or the target's defaults when none are.
pub fn watch_paths(additional: Vec<String>, target: WatchTarget) -> (r: Vec<String>)
    ensures
        additional@.len() == 0 ==> string_views(r@) == default_paths_of(target),
        additional@.len() > 0 ==> r@ == additional@,
{
    if additional.len() == 0 {
        default_paths_for_target(target)
    } else {
        additional
    }
}

/// Paths under hidden directories, `__pycache__` or a `target` directory never trigger.
pub open spec fn ignored(path: Seq<char>) -> bool {
    has_infix(path, "/."@) || has_infix(path, "__pycache__"@) || has_infix(path, "/target/"@)
}

/// A pattern that starts with `.` matches the end of the path; any other
/// matches within the file name.
pub open spec fn pattern_matches(pattern: Seq<char>, path: Seq<char>, file_name: Option<Seq<char>>) -> bool {
    if pattern.len() > 0 && pattern[0] == '.' {
        has_suffix(path, pattern)
    } else {
        file_name matches Some(n) && has_infix(n, pattern)
    }
}

/// Whether a change of `path`, whose final component is `file_name`, triggers
/// a rebuild of `target`.
pub open spec fn triggers(path: Seq<char>, file_name: Option<Seq<char>>, target: WatchTarget) -> bool {
    !ignored(path) && exists|i: int|
        0 <= i < patterns_of(target).len() && #[trigger] pattern_matches(patterns_of(target)[i], path, file_name)
}

/// Whether a path ends with one of the target's extension patterns.
pub open spec fn extension_hit(path: Seq<char>, target: WatchTarget) -> bool {
    exists|i: int|
        0 <= i < patterns_of(target).len() && patterns_of(target)[i].len() > 0 && patterns_of(target)[i][0] == '.'
            && #[trigger] has_suffix(path, patterns_of(target)[i])
}

/// Whatever the file name: an ignored path never triggers a rebuild, and a
/// path that is not ignored and ends in one of the target's extensions always
/// does.
pub proof fn law_triggers_without_file_name(path: Seq<char>, file_name: Option<Seq<char>>, target: WatchTarget)
    ensures
        ignored(path) ==> !triggers(path, file_name, target),
        !ignored(path) && extension_hit(path, target) ==> triggers(path, file_name, target),
{
    if !ignored(path) && extension_hit(path, target) {
        let i = choose|i: int|
            0 <= i < patterns_of(target).len() && patterns_of(target)[i].len() > 0 && patterns_of(target)[i][0] == '.'
                && #[trigger] has_suffix(path, patterns_of(target)[i]);
        assert(pattern_matches(patterns_of(target)[i], path, file_name));
    }
}

fn pattern_matches_exec(pattern: &Vec<char>, path: &Vec<char>, file_name: &Option<Vec<char>>) -> (r: bool)
    ensures
        r == pattern_matches(pattern@, path@, opt_chars(*file_name)),
{
    if pattern.len() > 0 && pattern[0] == '.' {
        has_suffix_exec(path, pattern)
    } else {
        match file_name {
            Some(n) => has_infix_exec(n, pattern),
            None => false,
        }
    }
}

/// The text of an optional string.
pub open spec fn opt_view(o: Option<String>) -> Option<Seq<char>> {
    match o {
        Some(s) => Some(s@),
        None => None,
    }
}

/// The characters of an optional character vector.
pub open spec fn opt_chars(o: Option<Vec<char>>) -> Option<Seq<char>> {
    match o {
        Some(s) => Some(s@),
        None => None,
    }
}

/// Check if a file change should trigger a rebuild, given the final component
/// of the changed path.
pub fn trigger_decision(path: &str, file_name: Option<String>, target: WatchTarget) -> (r: bool)
    ensures
        r == triggers(path@, opt_view(file_name), target),
{
    let ghost fname = opt_view(file_name);
    let p = chars_of(path);
    let hidden = chars_of("/.");
    let cache = chars_of("__pycache__");
    let target_dir = chars_of("/target/");
    if has_infix_exec(&p, &hidden) || has_infix_exec(&p, &cache) || has_infix_exec(&p, &target_dir) {
        return false;
    }
    let name: Option<Vec<char>> = match &file_name {
        Some(n) => Some(chars_of(n.as_str())),
        None => None,
    };
    assert(fname == opt_chars(name));
    let patterns = file_patterns_for_target(target);
    assert(string_views(patterns@).len() == patterns@.len());
    for i in 0..patterns.len()
        invariant
            string_views(patterns@) == patterns_of(target),
            patterns@.len() == patterns_of(target).len(),
            p@ == path@,
            !ignored(path@),
            fname == opt_view(file_name),
            fname == opt_chars(name),
            forall|j: int| 0 <= j < i ==> !pattern_matches(#[trigger] patterns_of(target)[j], path@, fname),
    {
        let pat = chars_of(patterns[i].as_str());
        assert(string_views(patterns@)[i as int] == patterns@[i as int]@);
        if pattern_matches_exec(&pat, &p, &name) {
            assert(pattern_matches(patterns_of(target)[i as int], path@, fname));
            return true;
        }
    }
    false
}

/// The position of the last `c` in `s`, or -1 where there is none.
pub open spec fn last_index_of(s: Seq<char>, c: char) -> int
    decreases s.len(),
{
    if s.len() == 0 {
        -1
    } else if s.last() == c {
        s.len() - 1
    } else {
        last_index_of(s.drop_last(), c)
    }
}

/// `last_index_of` is a position of the sequence, or -1.
pub proof fn lemma_last_index_of_bound(s: Seq<char>, c: char)
    ensures
        -1 <= last_index_of(s, c) < s.len(),
    decreases s.len(),
{
    if s.len() > 0 && s.last() != c {
        lemma_last_index_of_bound(s.drop_last(), c);
    }
}

/// A path whose final component every platform reads alike: it holds no `\`
/// and no `:`, and does not begin with `//`.
pub open spec fn portable(path: Seq<char>) -> bool {
    !path.contains('\\') && !path.contains(':') && !has_prefix(path, seq!['/', '/'])
}

/// The final component of a `/`-separated path, as `Path::file_name` gives
/// it: empty and `.` components are skipped; none when the last component is
/// `..` or there is no component.
pub open spec fn last_component(path: Seq<char>) -> Option<Seq<char>>
    decreases path.len(),
{
    let i = last_index_of(path, '/');
    let seg = path.skip(i + 1);
    if seg.len() == 0 || seg == seq!['.'] {
        if i < 0 {
            None
        } else {
            proof {
                lemma_last_index_of_bound(path, '/');
            }
            last_component(path.take(i))
        }
    } else if seg == seq!['.', '.'] {
        None
    } else {
        Some(seg)
    }
}

/// `Path::file_name` of `path`, as text. Claimed for portable paths only: the
/// final component, with empty and `.` components skipped, none for `..`;
/// on others the platform's separators and prefixes decide, and nothing is claimed.
/// The name comes back as an `OsStr` of `std::ffi`, a module this library does
/// not name, so it is turned into text here (`to_string_lossy`, exact for a
/// name cut from text).
#[verifier::external_body]
fn file_name_of(path: &str) -> (r: Option<String>)
    ensures
        portable(path@) ==> opt_view(r) == last_component(path@),
{
    match std::path::Path::new(path).file_name() {
        Some(n) => Some(n.to_string_lossy().into_owned()),
        None => None,
    }
}

/// Check if a file change should trigger a rebuild.
pub fn should_trigger(path: &str, target: WatchTarget) -> (r: bool)
    ensures
        portable(path@) ==> r == triggers(path@, last_component(path@), target),
        exists|f: Option<Seq<char>>| #[trigger] triggers(path@, f, target) == r,
        ignored(path@) ==> !r,
        !ignored(path@) && extension_hit(path@, target) ==> r,
{
    let name = file_name_of(path);
    let ghost f = opt_view(name);
    let r = trigger_decision(path, name, target);
    proof {
        law_triggers_without_file_name(path@, f, target);
    }
    r
}

/// Every path of `paths` is portable.
pub open spec fn all_portable(paths: Seq<Seq<char>>) -> bool {
    forall|i: int| 0 <= i < paths.len() ==> portable(#[trigger] paths[i])
}

/// Whether a change of (portable) `path` concerns `target`.
pub open spec fn concerns(target: WatchTarget) -> spec_fn(Seq<char>) -> bool {
    |p: Seq<char>| triggers(p, last_component(p), target)
}

/// The paths of `paths` whose change triggers a rebuild of `target`, in
/// order, where `names[i]` is the file name of `paths[i]`.
pub open spec fn triggered_paths(paths: Seq<Seq<char>>, names: Seq<Option<Seq<char>>>, target: WatchTarget) -> Seq<Seq<char>>
    decreases paths.len(),
{
    if paths.len() == 0 || names.len() != paths.len() {
        Seq::empty()
    } else {
        triggered_paths(paths.drop_last(), names.drop_last(), target) + if triggers(paths.last(), names.last(), target) {
            seq![paths.last()]
        } else {
            Seq::<Seq<char>>::empty()
        }
    }
}

/// File names for `paths` as `Path::file_name` can give them: on a portable
/// path, its final component (elsewhere the platform decides).
pub open spec fn file_names_for(paths: Seq<Seq<char>>, names: Seq<Option<Seq<char>>>) -> bool {
    &&& names.len() == paths.len()
    &&& forall|i: int| 0 <= i < paths.len() && portable(#[trigger] paths[i]) ==> names[i] == last_component(paths[i])
}

/// The changed paths of an event that concern `target`, in order: each path
/// is kept exactly when `should_trigger` holds of it, that is, when it
/// triggers a rebuild with its file name. So a path that is ignored is never
/// kept, a path that is not ignored and ends in one of the target's
/// extensions is always kept, and a portable path is kept exactly when it
/// triggers with its final component; the result is empty exactly when no
/// path triggers.
pub fn relevant_paths(paths: &Vec<String>, target: WatchTarget) -> (r: Vec<String>)
    ensures
        exists|names: Seq<Option<Seq<char>>>| {
            &&& #[trigger] file_names_for(string_views(paths@), names)
            &&& string_views(r@) == triggered_paths(string_views(paths@), names, target)
            &&& (r@.len() > 0 <==> exists|i: int| 0 <= i < paths@.len()
                && #[trigger] triggers(string_views(paths@)[i], names[i], target))
        },
        all_portable(string_views(paths@)) ==> string_views(r@) == string_views(paths@).filter(concerns(target)),
        forall|i: int| 0 <= i < r@.len() ==> !ignored(#[trigger] r@[i]@),
        r@.len() <= paths@.len(),
{
    let mut r: Vec<String> = Vec::new();
    let ghost all = string_views(paths@);
    let ghost mut names: Seq<Option<Seq<char>>> = Seq::empty();
    for i in 0..paths.len()
        invariant
            all == string_views(paths@),
            all.len() == paths@.len(),
            file_names_for(all.take(i as int), names),
            string_views(r@) == triggered_paths(all.take(i as int), names, target),
            r@.len() > 0 <==> exists|j: int| 0 <= j < i && #[trigger] triggers(all[j], names[j], target),
            all_portable(all) ==> string_views(r@) == all.take(i as int).filter(concerns(target)),
            forall|j: int| 0 <= j < r@.len() ==> !ignored(#[trigger] r@[j]@),
            r@.len() <= i,
    {
        let ghost before = r@;
        let ghost old_names = names;
        assert(all.take(i + 1).drop_last() =~= all.take(i as int));
        assert(all.take(i + 1).last() == paths@[i as int]@);
        assert(all[i as int] == paths@[i as int]@);
        let hit = should_trigger(paths[i].as_str(), target);
        let ghost f: Option<Seq<char>> = if portable(all[i as int]) {
            last_component(all[i as int])
        } else {
            choose|f: Option<Seq<char>>| #[trigger] triggers(all[i as int], f, target) == hit
        };
        proof {
            names = names.push(f);
            assert(names.drop_last() =~= old_names);
            assert(triggers(all[i as int], f, target) == hit);
            assert forall|j: int| 0 <= j < i + 1 && portable(#[trigger] all.take(i + 1)[j]) implies names[j]
                == last_component(all.take(i + 1)[j]) by {
                if j < i {
                    assert(all.take(i + 1)[j] == all.take(i as int)[j]);
                }
            }
        }
        if hit {
            r.push(paths[i].clone());
            assert(string_views(r@) =~= string_views(before).push(paths@[i as int]@));
        }
        proof {
            reveal_with_fuel(Seq::filter, 1);
            if all_portable(all) {
                assert(portable(all[i as int]));
            }
            assert(triggered_paths(all.take(i + 1), names, target) =~= triggered_paths(all.take(i as int), old_names,
                target) + if hit { seq![all[i as int]] } else { Seq::<Seq<char>>::empty() });
            if hit {
                assert(triggers(all[i as int], names[i as int], target));
            } else {
                assert forall|j: int| 0 <= j < i + 1 && #[trigger] triggers(all[j], names[j], target) implies j < i
                    && triggers(all[j], old_names[j], target) by {
                    if j < i {
                        assert(names[j] == old_names[j]);
                    }
                }
            }
            assert forall|j: int| 0 <= j < i && #[trigger] triggers(all[j], old_names[j], target) implies triggers(
                all[j],
                names[j],
                target,
            ) by {
                assert(names[j] == old_names[j]);
            }
        }
    }
    assert(all.take(paths@.len() as int) =~= all);
    r
}

/// A change rebuilds once a relevant path changed and the debounce delay has
/// passed since the last build (both in milliseconds).
pub fn should_rebuild(relevant: usize, elapsed_ms: u128, debounce_ms: u64) -> (r: bool)
    ensures
        r == (relevant > 0 && elapsed_ms >= debounce_ms),
{
    relevant > 0 && elapsed_ms >= debounce_ms as u128
}

/// Where the watch loop stands.
#[derive(Clone, Copy, Debug, PartialEq, Eq, Structural)]
pub enum WatchPhase {
    /// Set up, before the initial build.
    Starting,
    /// Waiting for file changes.
    Watching,
}

/// What the watch loop does next.
#[derive(Clone, Copy, Debug, PartialEq, Eq, Structural)]
pub enum WatchCommand {
    /// Build the target.
    Build,
    /// Wait for the next event.
    Wait,
}

/// The loop's decision: the initial build comes first, whatever the event;
/// afterwards an event rebuilds exactly when `relevant` of its paths concern
/// the target and `elapsed_ms` since the last build reach the debounce delay.
pub open spec fn watch_decision(phase: WatchPhase, relevant: nat, elapsed_ms: nat, debounce_ms: nat) -> (WatchPhase, WatchCommand) {
    match phase {
        WatchPhase::Starting => (WatchPhase::Watching, WatchCommand::Build),
        WatchPhase::Watching => (WatchPhase::Watching, if relevant > 0 && elapsed_ms >= debounce_ms {
            WatchCommand::Build
        } else {
            WatchCommand::Wait
        }),
    }
}

/// The next phase and command of the watch loop.
pub fn watch_next(phase: WatchPhase, relevant: usize, elapsed_ms: u128, debounce_ms: u64) -> (r: (WatchPhase, WatchCommand))
    ensures
        r == watch_decision(phase, relevant as nat, elapsed_ms as nat, debounce_ms as nat),
{
    match phase {
        WatchPhase::Starting => (WatchPhase::Watching, WatchCommand::Build),
        WatchPhase::Watching => {
            let cmd = if should_rebuild(relevant, elapsed_ms, debounce_ms) {
                WatchCommand::Build
            } else {
                WatchCommand::Wait
            };
            (WatchPhase::Watching, cmd)
        },
    }
}

/// The phase after a build: the loop keeps watching whether the build
/// succeeded or failed (a failure is only reported).
pub fn after_build(_succeeded: bool) -> (p: WatchPhase)
    ensures
        p == WatchPhase::Watching,
{
    WatchPhase::Watching
}

/// The watch loop builds first, never stops on a failed build, and rebuilds
/// on an event only when a relevant path changed and the debounce delay passed.
pub proof fn law_watch_loop(phase: WatchPhase, relevant: nat, elapsed_ms: nat, debounce_ms: nat)
    ensures
        watch_decision(WatchPhase::Starting, relevant, elapsed_ms, debounce_ms).1 == WatchCommand::Build,
        watch_decision(phase, relevant, elapsed_ms, debounce_ms).0 == WatchPhase::Watching,
        phase == WatchPhase::Watching ==> (watch_decision(phase, relevant, elapsed_ms, debounce_ms).1
            == WatchCommand::Build <==> (relevant > 0 && elapsed_ms >= debounce_ms)),
{
}

/// What watch mode rebuilds.
pub enum WatchBuild {
    /// A build target of the build command.
    Build(BuildTarget),
    /// The Cython package in the given directory.
    Cython(String),
}

/// Execute the appropriate build command for the target: the Docker target
/// rebuilds the `vanilla` service, Cargo builds in release mode, and Cython
/// compiles `src`, else `lib`, whichever is a directory.
pub fn watch_build(target: WatchTarget, src_is_dir: bool, lib_is_dir: bool) -> (r: Result<WatchBuild, RsbuildError>)
    ensures
        target == WatchTarget::Wheel ==> r matches Ok(WatchBuild::Build(BuildTarget::Wheel)),
        target == WatchTarget::Docker ==> (r matches Ok(WatchBuild::Build(BuildTarget::Docker { service, no_cache }))
            && service@ == "vanilla"@ && !no_cache),
        target == WatchTarget::Cargo ==> r matches Ok(WatchBuild::Build(BuildTarget::Cargo { mode: CargoBuildMode::Release })),
        target == WatchTarget::Cython && src_is_dir ==> (r matches Ok(WatchBuild::Cython(p)) && p@ == "src"@),
        target == WatchTarget::Cython && !src_is_dir && lib_is_dir ==> (r matches Ok(WatchBuild::Cython(p)) && p@ == "lib"@),
        target == WatchTarget::Cython && !src_is_dir && !lib_is_dir ==> (r matches Err(RsbuildError::PathNotFound { path })
            && path@ == "package directory"@),
{
    match target {
        WatchTarget::Wheel => Ok(WatchBuild::Build(BuildTarget::Wheel)),
        WatchTarget::Docker => Ok(WatchBuild::Build(BuildTarget::Docker { service: text_of("vanilla"), no_cache: false })),
        WatchTarget::Cython => {
            if src_is_dir {
                Ok(WatchBuild::Cython(text_of("src")))
            } else if lib_is_dir {
                Ok(WatchBuild::Cython(text_of("lib")))
            } else {
                Err(RsbuildError::PathNotFound { path: text_of("package directory") })
            }
        },
        WatchTarget::Cargo => Ok(WatchBuild::Build(BuildTarget::Cargo { mode: CargoBuildMode::Release })),
    }
}

} // verus!
