//! Laws of the scanning pipeline, stated and proved over the same spec
//! functions the pipeline's contracts use.

use vstd::prelude::*;
use crate::fsview::FsEntry;
use crate::rules::ProjectCleanRule;
use crate::scanner::{
    TargetAction, dir_entry_matches, dir_match_at, is_marker_candidate, spec_dir_targets,
    spec_first_dir_index, spec_first_rule_index, spec_matches, spec_planned_action,
};

verus! {

/// A marker file found anywhere among the walked entries is reported: if an
/// entry is a regular file with a displayable name and a parent directory,
/// and some rule's marker file equals its name, then the scan's matches
/// pair exactly that entry with the first such rule, so its parent is
/// treated as that rule's project root.
pub proof fn lemma_marker_file_is_matched(
    entries: Seq<FsEntry>,
    rules: Seq<ProjectCleanRule>,
    k: int,
)
    requires
        0 <= k < entries.len(),
        is_marker_candidate(entries[k]),
        spec_first_rule_index(rules, entries[k].file_name.unwrap()@) is Some,
    ensures
        exists|x: int|
            0 <= x < spec_matches(entries, rules).len() && #[trigger] spec_matches(
                entries,
                rules,
            )[x] == (k, spec_first_rule_index(rules, entries[k].file_name.unwrap()@).unwrap()),
    decreases entries.len(),
{
    let name = entries[k].file_name.unwrap()@;
    let ri = spec_first_rule_index(rules, name).unwrap();
    let prefix = spec_matches(entries.drop_last(), rules);
    if k == entries.len() - 1 {
        assert(spec_matches(entries, rules)[prefix.len() as int] == (k, ri));
    } else {
        assert(entries.drop_last()[k] == entries[k]);
        lemma_marker_file_is_matched(entries.drop_last(), rules, k);
        let x = choose|x: int|
            0 <= x < prefix.len() && #[trigger] prefix[x] == (
            k,
            spec_first_rule_index(rules, entries.drop_last()[k].file_name.unwrap()@).unwrap(),
            );
        assert(spec_matches(entries, rules)[x] == (k, ri));
    }
}

/// The target `t` (a path and an artifact name) names one of the declared
/// directory names of `dirs`, and its path is the path of a directory
/// entry of that name directly under `root`.
pub open spec fn target_is_declared(
    entries: Seq<FsEntry>,
    root: Seq<char>,
    dirs: Seq<String>,
    t: (Seq<char>, Seq<char>),
) -> bool {
    exists|i: int, j: int|
        0 <= i < dirs.len() && 0 <= j < entries.len() && t.1 == (#[trigger] dirs[i])@
            && dir_entry_matches(#[trigger] entries[j], root, dirs[i]@) && t.0 == entries[j].path@
}

/// Only declared artifact directories that actually exist are planned:
/// every planned target for a project root names one of the rule's
/// declared directory names, and its path is the path of a directory entry
/// of that name directly under that root — never anything else.
pub proof fn lemma_targets_are_declared(entries: Seq<FsEntry>, root: Seq<char>, dirs: Seq<String>)
    ensures
        forall|x: int|
            0 <= x < spec_dir_targets(entries, root, dirs).len() ==> target_is_declared(
                entries,
                root,
                dirs,
                #[trigger] spec_dir_targets(entries, root, dirs)[x],
            ),
    decreases dirs.len(),
{
    if dirs.len() == 0 {
    } else {
        lemma_targets_are_declared(entries, root, dirs.drop_last());
        let prefix = spec_dir_targets(entries, root, dirs.drop_last());
        let full = spec_dir_targets(entries, root, dirs);
        assert forall|x: int| 0 <= x < full.len() implies target_is_declared(
            entries,
            root,
            dirs,
            full[x],
        ) by {
            if x < prefix.len() {
                assert(prefix[x] == full[x]);
                assert(target_is_declared(entries, root, dirs.drop_last(), prefix[x]));
                let (i, j) = choose|i: int, j: int|
                    0 <= i < dirs.drop_last().len() && 0 <= j < entries.len() && prefix[x].1 == (
                    #[trigger] dirs.drop_last()[i])@ && dir_entry_matches(
                        #[trigger] entries[j],
                        root,
                        dirs.drop_last()[i]@,
                    ) && prefix[x].0 == entries[j].path@;
                assert(dirs.drop_last()[i] == dirs[i]);
                assert(0 <= i < dirs.len() && 0 <= j < entries.len() && full[x].1 == dirs[i]@
                    && dir_entry_matches(entries[j], root, dirs[i]@) && full[x].0
                    == entries[j].path@);
            } else {
                let name = dirs.last()@;
                let j = spec_first_dir_index(entries, root, name).unwrap();
                assert(dir_match_at(entries, root, name, j));
                let i = dirs.len() - 1;
                assert(0 <= i < dirs.len() && 0 <= j < entries.len() && full[x].1 == dirs[i]@
                    && dir_entry_matches(entries[j], root, dirs[i]@) && full[x].0
                    == entries[j].path@);
            }
        }
    }
}

/// A project yields a planned target exactly when at least one of the
/// declared artifact directory names exists as a directory under its root;
/// with none of them present, nothing is planned for it.
pub proof fn lemma_target_exists_iff_artifact_dir_exists(
    entries: Seq<FsEntry>,
    root: Seq<char>,
    dirs: Seq<String>,
)
    ensures
        (spec_dir_targets(entries, root, dirs).len() > 0) <==> (exists|i: int|
            0 <= i < dirs.len() && spec_first_dir_index(entries, root, (#[trigger] dirs[i])@)
                is Some),
    decreases dirs.len(),
{
    if dirs.len() == 0 {
    } else {
        lemma_target_exists_iff_artifact_dir_exists(entries, root, dirs.drop_last());
        let prefix = spec_dir_targets(entries, root, dirs.drop_last());
        let full = spec_dir_targets(entries, root, dirs);
        let last_found = spec_first_dir_index(entries, root, dirs.last()@);
        if full.len() > 0 {
            if last_found is Some {
                assert(dirs[dirs.len() - 1] == dirs.last());
                assert(exists|i: int|
                    0 <= i < dirs.len() && spec_first_dir_index(
                        entries,
                        root,
                        (#[trigger] dirs[i])@,
                    ) is Some);
            } else {
                assert(prefix.len() > 0);
                let i = choose|i: int|
                    0 <= i < dirs.drop_last().len() && spec_first_dir_index(
                        entries,
                        root,
                        (#[trigger] dirs.drop_last()[i])@,
                    ) is Some;
                assert(dirs.drop_last()[i] == dirs[i]);
                assert(0 <= i < dirs.len() && spec_first_dir_index(entries, root, dirs[i]@)
                    is Some);
            }
        }
        if exists|i: int|
            0 <= i < dirs.len() && spec_first_dir_index(entries, root, (#[trigger] dirs[i])@)
                is Some {
            let i = choose|i: int|
                0 <= i < dirs.len() && spec_first_dir_index(entries, root, (#[trigger] dirs[i])@)
                    is Some;
            if i == dirs.len() - 1 {
                assert(dirs[i] == dirs.last());
                assert(full.len() == prefix.len() + 1);
            } else {
                assert(dirs.drop_last()[i] == dirs[i]);
                assert(exists|i: int|
                    0 <= i < dirs.drop_last().len() && spec_first_dir_index(
                        entries,
                        root,
                        (#[trigger] dirs.drop_last()[i])@,
                    ) is Some);
                assert(prefix.len() > 0);
                assert(full.len() >= prefix.len());
            }
        }
    }
}

/// Scanning is deterministic in the tree snapshot and the rule list: equal
/// walked entries and equal rules yield equal matches and equal planned
/// targets, so previewing an unchanged tree twice reports the same
/// findings (only the freshly estimated sizes can differ, and only if the
/// underlying data did).
pub proof fn lemma_scan_is_deterministic(
    entries_then: Seq<FsEntry>,
    entries_now: Seq<FsEntry>,
    rules_then: Seq<ProjectCleanRule>,
    rules_now: Seq<ProjectCleanRule>,
)
    requires
        entries_then == entries_now,
        rules_then == rules_now,
    ensures
        spec_matches(entries_then, rules_then) == spec_matches(entries_now, rules_now),
        forall|root: Seq<char>, dirs: Seq<String>|
            #[trigger] spec_dir_targets(entries_then, root, dirs) == spec_dir_targets(
                entries_now,
                root,
                dirs,
            ),
{
}

/// A dry run is non-destructive and silent: whatever the auto-confirm flag
/// says, every planned action in preview mode is `Preview` — never a
/// deletion and never a prompt.
pub proof fn lemma_dry_run_is_nondestructive(auto_confirm: bool)
    ensures
        spec_planned_action(true, auto_confirm) == TargetAction::Preview,
        spec_planned_action(true, auto_confirm) != TargetAction::Delete,
        spec_planned_action(true, auto_confirm) != TargetAction::AskUser,
{
}

/// Apply mode with auto-confirm plans every found target for deletion,
/// without ever asking for confirmation.
pub proof fn lemma_auto_confirm_deletes()
    ensures
        spec_planned_action(false, true) == TargetAction::Delete,
        spec_planned_action(false, true) != TargetAction::AskUser,
{
}

} // verus!
