//! The scan-match-plan pipeline: walking a tree, matching marker files
//! against the rule registry (first match wins), locating the artifact
//! directories declared by the matched rule, and resolving each target to a
//! planned action. Planning is non-destructive; carrying out a planned
//! deletion, and asking the user for confirmation, is the caller's task.

use vstd::prelude::*;
use crate::fsview::{FsEntry, walk_entries};
use crate::laws::{
    lemma_target_exists_iff_artifact_dir_exists, lemma_targets_are_declared, target_is_declared,
};
use crate::rules::ProjectCleanRule;
use crate::size::{calculate_dir_size, format_size, spec_format_size};

verus! {

/// An entry that can identify a project root: a regular file with a
/// displayable name and a parent directory.
pub open spec fn is_marker_candidate(e: FsEntry) -> bool {
    &&& e.is_file
    &&& e.file_name is Some
    &&& e.parent is Some
}

/// `e` is the directory named `name` directly under the directory `root`.
pub open spec fn dir_entry_matches(e: FsEntry, root: Seq<char>, name: Seq<char>) -> bool {
    &&& e.is_dir
    &&& e.parent is Some
    &&& e.parent.unwrap()@ == root
    &&& e.file_name is Some
    &&& e.file_name.unwrap()@ == name
}

/// Rule `i` is the first rule whose marker file equals `name`.
pub open spec fn rule_match_at(rules: Seq<ProjectCleanRule>, name: Seq<char>, i: int) -> bool {
    &&& 0 <= i < rules.len()
    &&& rules[i].identifier_file@ == name
    &&& forall|j: int| 0 <= j < i ==> (#[trigger] rules[j]).identifier_file@ != name
}

/// The index of the first rule whose marker file equals `name`, if any.
pub open spec fn spec_first_rule_index(rules: Seq<ProjectCleanRule>, name: Seq<char>) -> Option<
    int,
> {
    if exists|i: int| rule_match_at(rules, name, i) {
        Some(choose|i: int| rule_match_at(rules, name, i))
    } else {
        None
    }
}

/// Entry `k` is the first entry that is the directory `name` under `root`.
pub open spec fn dir_match_at(
    entries: Seq<FsEntry>,
    root: Seq<char>,
    name: Seq<char>,
    k: int,
) -> bool {
    &&& 0 <= k < entries.len()
    &&& dir_entry_matches(entries[k], root, name)
    &&& forall|j: int| 0 <= j < k ==> !dir_entry_matches(#[trigger] entries[j], root, name)
}

/// The index of the first entry that is the directory `name` under `root`.
pub open spec fn spec_first_dir_index(
    entries: Seq<FsEntry>,
    root: Seq<char>,
    name: Seq<char>,
) -> Option<int> {
    if exists|k: int| dir_match_at(entries, root, name, k) {
        Some(choose|k: int| dir_match_at(entries, root, name, k))
    } else {
        None
    }
}

/// At most one index is the first rule match for a name.
pub proof fn lemma_rule_match_at_unique(
    rules: Seq<ProjectCleanRule>,
    name: Seq<char>,
    i: int,
    j: int,
)
    requires
        rule_match_at(rules, name, i),
        rule_match_at(rules, name, j),
    ensures
        i == j,
{
    if i < j {
        assert(rules[i].identifier_file@ != name);
    } else if j < i {
        assert(rules[j].identifier_file@ != name);
    }
}

/// At most one index is the first directory match for a root and name.
pub proof fn lemma_dir_match_at_unique(
    entries: Seq<FsEntry>,
    root: Seq<char>,
    name: Seq<char>,
    i: int,
    j: int,
)
    requires
        dir_match_at(entries, root, name, i),
        dir_match_at(entries, root, name, j),
    ensures
        i == j,
{
    if i < j {
        assert(!dir_entry_matches(entries[i], root, name));
    } else if j < i {
        assert(!dir_entry_matches(entries[j], root, name));
    }
}

/// Finds the first rule (in registry order) whose marker file equals
/// `file_name`: the first matching rule, and only it, is applied to a file.
pub fn find_matching_rule(file_name: &String, rules: &Vec<ProjectCleanRule>) -> (r: Option<usize>)
    ensures
        match r {
            Some(i) => rule_match_at(rules@, file_name@, i as int),
            None => forall|j: int|
                0 <= j < rules@.len() ==> (#[trigger] rules@[j]).identifier_file@ != file_name@,
        },
{
    let mut i: usize = 0;
    while i < rules.len()
        invariant
            i <= rules@.len(),
            forall|j: int| 0 <= j < i ==> (#[trigger] rules@[j]).identifier_file@ != file_name@,
        decreases rules@.len() - i,
    {
        if rules[i].identifier_file == *file_name {
            return Some(i);
        }
        i = i + 1;
    }
    None
}

/// Finds the path of the first walked entry that is the directory `name`
/// directly under `root`, if one exists.
pub fn find_artifact_dir(entries: &Vec<FsEntry>, root: &String, name: &String) -> (r: Option<
    String,
>)
    ensures
        match r {
            Some(p) => exists|k: int|
                #[trigger] dir_match_at(entries@, root@, name@, k) && p@ == entries@[k].path@,
            None => forall|k: int|
                0 <= k < entries@.len() ==> !dir_entry_matches(
                    #[trigger] entries@[k],
                    root@,
                    name@,
                ),
        },
{
    let mut k: usize = 0;
    while k < entries.len()
        invariant
            k <= entries@.len(),
            forall|j: int|
                0 <= j < k ==> !dir_entry_matches(#[trigger] entries@[j], root@, name@),
        decreases entries@.len() - k,
    {
        if entries[k].is_dir {
            match &entries[k].file_name {
                Some(n) => {
                    match &entries[k].parent {
                        Some(p) => {
                            if *n == *name && *p == *root {
                                let found = entries[k].path.clone();
                                proof {
                                    assert(dir_match_at(entries@, root@, name@, k as int));
                                }
                                return Some(found);
                            }
                        },
                        None => {},
                    }
                },
                None => {},
            }
        }
        k = k + 1;
    }
    None
}

/// What the run will do with one artifact directory: report it (preview
/// mode), delete it without asking (apply mode with auto-confirm), or ask
/// the user first (apply mode without auto-confirm).
#[derive(Clone, Copy, Debug, PartialEq, Eq, Structural)]
pub enum TargetAction {
    Preview,
    Delete,
    AskUser,
}

/// The action a mode pair resolves to, before any prompt is answered.
pub open spec fn spec_planned_action(dry_run: bool, auto_confirm: bool) -> TargetAction {
    if dry_run {
        TargetAction::Preview
    } else if auto_confirm {
        TargetAction::Delete
    } else {
        TargetAction::AskUser
    }
}

/// Resolves the mode flags to a planned action: preview in a dry run,
/// unconditional deletion under auto-confirm, otherwise a prompt.
pub fn planned_action(dry_run: bool, auto_confirm: bool) -> (a: TargetAction)
    ensures
        a == spec_planned_action(dry_run, auto_confirm),
{
    if dry_run {
        TargetAction::Preview
    } else if auto_confirm {
        TargetAction::Delete
    } else {
        TargetAction::AskUser
    }
}

/// Resolves a prompt outcome: only an explicit "yes" grants deletion; a
/// "no", a dismissed prompt, or end of input (`None`) declines it.
pub fn deletion_confirmed(answer: Option<bool>) -> (r: bool)
    ensures
        r == (answer == Some(true)),
{
    match answer {
        Some(true) => true,
        _ => false,
    }
}

/// One existing artifact directory, resolved to a planned action, with its
/// estimated size and that size rendered for reporting.
#[derive(Debug)]
pub struct PlannedTarget {
    pub path: String,
    pub project_type: String,
    pub artifact_name: String,
    pub size: u64,
    pub size_text: String,
    pub action: TargetAction,
}

/// A planned target reports the right project kind, the action the mode
/// flags resolve to, and a size text that renders its size.
pub open spec fn target_well_reported(
    t: PlannedTarget,
    project_type: Seq<char>,
    dry_run: bool,
    auto_confirm: bool,
) -> bool {
    &&& t.project_type@ == project_type
    &&& t.action == spec_planned_action(dry_run, auto_confirm)
    &&& t.size_text@ == spec_format_size(t.size as nat)
}

/// Sizes one artifact directory and resolves what to do with it. The size
/// is a fresh best-effort estimate from the tree under `path`.
pub fn process_target_directory(
    path: &String,
    project_type: &String,
    artifact_name: &String,
    dry_run: bool,
    auto_confirm: bool,
) -> (t: PlannedTarget)
    ensures
        t.path@ == path@,
        t.artifact_name@ == artifact_name@,
        target_well_reported(t, project_type@, dry_run, auto_confirm),
{
    let size = calculate_dir_size(path.as_str());
    let size_text = format_size(size);
    let action = planned_action(dry_run, auto_confirm);
    PlannedTarget {
        path: path.clone(),
        project_type: project_type.clone(),
        artifact_name: artifact_name.clone(),
        size,
        size_text,
        action,
    }
}

/// The `(path, artifact name)` pairs the plan holds for one project root:
/// for each declared artifact directory name, in declared order, the first
/// walked entry that is that directory under the root, if it exists.
pub open spec fn spec_dir_targets(
    entries: Seq<FsEntry>,
    root: Seq<char>,
    dirs: Seq<String>,
) -> Seq<(Seq<char>, Seq<char>)>
    decreases dirs.len(),
{
    if dirs.len() == 0 {
        Seq::empty()
    } else {
        let prefix = spec_dir_targets(entries, root, dirs.drop_last());
        match spec_first_dir_index(entries, root, dirs.last()@) {
            Some(k) => prefix.push((entries[k].path@, dirs.last()@)),
            None => prefix,
        }
    }
}

/// One matched project: where it was found, how it was identified, which
/// artifact directory names were checked, and the targets that exist.
#[derive(Debug)]
pub struct ProjectFinding {
    pub project_root: String,
    pub project_type: String,
    pub marker_file: String,
    pub checked_dirs: Vec<String>,
    pub targets: Vec<PlannedTarget>,
}

/// Copies a list of directory names for reporting.
fn clone_string_vec(v: &Vec<String>) -> (r: Vec<String>)
    ensures
        r@ == v@,
{
    let mut r: Vec<String> = Vec::new();
    let mut i: usize = 0;
    while i < v.len()
        invariant
            i <= v@.len(),
            r@ == v@.take(i as int),
        decreases v@.len() - i,
    {
        r.push(v[i].clone());
        proof {
            assert(r@ =~= v@.take(i + 1 as int));
        }
        i = i + 1;
    }
    proof {
        assert(v@.take(v@.len() as int) =~= v@);
    }
    r
}

/// Processes one identified project root against its matched rule: checks
/// each declared artifact directory, in declared order, and plans a target
/// for every one that exists among the walked entries. At least one target
/// was found exactly when the returned finding's target list is non-empty.
pub fn handle_identified_project(
    entries: &Vec<FsEntry>,
    project_root: &String,
    identifier_file_name: &String,
    rule: &ProjectCleanRule,
    dry_run: bool,
    auto_confirm: bool,
) -> (finding: ProjectFinding)
    ensures
        finding.project_root@ == project_root@,
        finding.marker_file@ == identifier_file_name@,
        finding.project_type@ == rule.project_type@,
        finding.checked_dirs@ == rule.directories_to_clean@,
        finding.targets@.map_values(|t: PlannedTarget| (t.path@, t.artifact_name@))
            == spec_dir_targets(entries@, project_root@, rule.directories_to_clean@),
        forall|j: int|
            0 <= j < finding.targets@.len() ==> target_well_reported(
                #[trigger] finding.targets@[j],
                rule.project_type@,
                dry_run,
                auto_confirm,
            ),
        (finding.targets@.len() > 0) == (exists|i: int|
            0 <= i < rule.directories_to_clean@.len() && spec_first_dir_index(
                entries@,
                project_root@,
                (#[trigger] rule.directories_to_clean@[i])@,
            ) is Some),
{
    let dirs = &rule.directories_to_clean;
    let mut targets: Vec<PlannedTarget> = Vec::new();
    let mut i: usize = 0;
    while i < dirs.len()
        invariant
            i <= dirs@.len(),
            targets@.map_values(|t: PlannedTarget| (t.path@, t.artifact_name@))
                == spec_dir_targets(entries@, project_root@, dirs@.take(i as int)),
            forall|j: int|
                0 <= j < targets@.len() ==> target_well_reported(
                    #[trigger] targets@[j],
                    rule.project_type@,
                    dry_run,
                    auto_confirm,
                ),
        decreases dirs@.len() - i,
    {
        proof {
            assert(dirs@.take(i + 1 as int).drop_last() =~= dirs@.take(i as int));
            assert(dirs@.take(i + 1 as int).last() == dirs@[i as int]);
        }
        match find_artifact_dir(entries, project_root, &dirs[i]) {
            Some(path) => {
                let t = process_target_directory(
                    &path,
                    &rule.project_type,
                    &dirs[i],
                    dry_run,
                    auto_confirm,
                );
                proof {
                    let name_view = dirs@[i as int]@;
                    let k = choose|k: int|
                        #[trigger] dir_match_at(entries@, project_root@, name_view, k)
                            && path@ == entries@[k].path@;
                    assert(spec_first_dir_index(entries@, project_root@, name_view) is Some);
                    let k0 = spec_first_dir_index(entries@, project_root@, name_view).unwrap();
                    lemma_dir_match_at_unique(entries@, project_root@, name_view, k, k0);
                }
                targets.push(t);
                proof {
                    assert(targets@.map_values(|t: PlannedTarget| (t.path@, t.artifact_name@))
                        =~= spec_dir_targets(entries@, project_root@, dirs@.take(i + 1 as int)));
                }
            },
            None => {
                proof {
                    let name_view = dirs@[i as int]@;
                    assert(spec_first_dir_index(entries@, project_root@, name_view) is None) by {
                        if exists|k: int| dir_match_at(entries@, project_root@, name_view, k) {
                            let k = choose|k: int|
                                dir_match_at(entries@, project_root@, name_view, k);
                            assert(!dir_entry_matches(entries@[k], project_root@, name_view));
                        }
                    }
                }
            },
        }
        i = i + 1;
    }
    proof {
        assert(dirs@.take(dirs@.len() as int) =~= dirs@);
        lemma_target_exists_iff_artifact_dir_exists(entries@, project_root@, dirs@);
        assert(targets@.map_values(|t: PlannedTarget| (t.path@, t.artifact_name@)).len()
            == targets@.len());
    }
    ProjectFinding {
        project_root: project_root.clone(),
        project_type: rule.project_type.clone(),
        marker_file: identifier_file_name.clone(),
        checked_dirs: clone_string_vec(dirs),
        targets,
    }
}

/// The `(entry index, rule index)` pairs a scan matches, in entry order:
/// every regular file with a displayable name and a parent, paired with the
/// first rule whose marker file equals its name.
pub open spec fn spec_matches(entries: Seq<FsEntry>, rules: Seq<ProjectCleanRule>) -> Seq<
    (int, int),
>
    decreases entries.len(),
{
    if entries.len() == 0 {
        Seq::empty()
    } else {
        let prefix = spec_matches(entries.drop_last(), rules);
        let e = entries.last();
        if is_marker_candidate(e) {
            match spec_first_rule_index(rules, e.file_name.unwrap()@) {
                Some(ri) => prefix.push((entries.len() - 1, ri)),
                None => prefix,
            }
        } else {
            prefix
        }
    }
}

/// Finding `f` correctly reports the match `m` (an entry index and a rule
/// index): its root is the marker entry's parent, its marker the entry's
/// name, its kind and checked names the rule's, its targets exactly the
/// rule's declared directories that exist under that root, each well
/// reported for the mode flags.
pub open spec fn finding_reported(
    f: ProjectFinding,
    entries: Seq<FsEntry>,
    rules: Seq<ProjectCleanRule>,
    m: (int, int),
    dry_run: bool,
    auto_confirm: bool,
) -> bool {
    &&& 0 <= m.0 < entries.len()
    &&& 0 <= m.1 < rules.len()
    &&& f.project_root@ == entries[m.0].parent.unwrap()@
    &&& f.marker_file@ == entries[m.0].file_name.unwrap()@
    &&& f.project_type@ == rules[m.1].project_type@
    &&& f.checked_dirs@ == rules[m.1].directories_to_clean@
    &&& f.targets@.map_values(|t: PlannedTarget| (t.path@, t.artifact_name@))
        == spec_dir_targets(entries, f.project_root@, rules[m.1].directories_to_clean@)
    &&& forall|j: int|
        0 <= j < f.targets@.len() ==> target_well_reported(
            #[trigger] f.targets@[j],
            rules[m.1].project_type@,
            dry_run,
            auto_confirm,
        )
}

/// Runs the matching pipeline over a walked entry listing: one finding per
/// matched marker file, in traversal order, each processed against the
/// first rule (in registry order) whose marker file equals the file's name.
pub fn scan_entries(
    entries: &Vec<FsEntry>,
    rules: &Vec<ProjectCleanRule>,
    dry_run: bool,
    auto_confirm: bool,
) -> (findings: Vec<ProjectFinding>)
    ensures
        findings@.len() == spec_matches(entries@, rules@).len(),
        forall|x: int|
            0 <= x < findings@.len() ==> finding_reported(
                #[trigger] findings@[x],
                entries@,
                rules@,
                spec_matches(entries@, rules@)[x],
                dry_run,
                auto_confirm,
            ),
{
    let mut findings: Vec<ProjectFinding> = Vec::new();
    let mut i: usize = 0;
    while i < entries.len()
        invariant
            i <= entries@.len(),
            findings@.len() == spec_matches(entries@.take(i as int), rules@).len(),
            forall|x: int|
                0 <= x < findings@.len() ==> finding_reported(
                    #[trigger] findings@[x],
                    entries@,
                    rules@,
                    spec_matches(entries@.take(i as int), rules@)[x],
                    dry_run,
                    auto_confirm,
                ),
        decreases entries@.len() - i,
    {
        proof {
            assert(entries@.take(i + 1 as int).drop_last() =~= entries@.take(i as int));
            assert(entries@.take(i + 1 as int).last() == entries@[i as int]);
        }
        if entries[i].is_file {
            match &entries[i].file_name {
                Some(name) => {
                    match &entries[i].parent {
                        Some(parent) => {
                            match find_matching_rule(name, rules) {
                                Some(ri) => {
                                    proof {
                                        assert(spec_first_rule_index(rules@, name@) is Some);
                                        let r0 = spec_first_rule_index(rules@, name@).unwrap();
                                        lemma_rule_match_at_unique(
                                            rules@,
                                            name@,
                                            ri as int,
                                            r0,
                                        );
                                    }
                                    let finding = handle_identified_project(
                                        entries,
                                        parent,
                                        name,
                                        &rules[ri],
                                        dry_run,
                                        auto_confirm,
                                    );
                                    findings.push(finding);
                                },
                                None => {
                                    proof {
                                        assert(spec_first_rule_index(rules@, name@) is None) by {
                                            if exists|r: int| rule_match_at(rules@, name@, r) {
                                                let r = choose|r: int|
                                                    rule_match_at(rules@, name@, r);
                                                assert(rules@[r].identifier_file@ != name@);
                                            }
                                        }
                                    }
                                },
                            }
                        },
                        None => {},
                    }
                },
                None => {},
            }
        }
        i = i + 1;
    }
    proof {
        assert(entries@.take(entries@.len() as int) =~= entries@);
    }
    findings
}

/// Finding `f` reports a rule of the registry `rules`: its project kind and
/// its checked directory names are some registry rule's.
pub open spec fn finding_from_registry(f: ProjectFinding, rules: Seq<ProjectCleanRule>) -> bool {
    exists|ri: int|
        0 <= ri < rules.len() && f.project_type@ == (#[trigger] rules[ri]).project_type@
            && f.checked_dirs@ == rules[ri].directories_to_clean@
}

/// Every target of finding `f` names one of the directory names the finding
/// reports as checked — never any other directory name.
pub open spec fn targets_name_checked_dirs(f: ProjectFinding) -> bool {
    forall|j: int|
        0 <= j < f.targets@.len() ==> exists|i: int|
            0 <= i < f.checked_dirs@.len() && (#[trigger] f.targets@[j]).artifact_name@ == (
            f.checked_dirs@[i])@
}

/// Whether any finding holds at least one cleanable target.
pub fn any_targets(findings: &Vec<ProjectFinding>) -> (r: bool)
    ensures
        r == exists|x: int|
            0 <= x < findings@.len() && (#[trigger] findings@[x]).targets@.len() > 0,
{
    let mut x: usize = 0;
    while x < findings.len()
        invariant
            x <= findings@.len(),
            forall|y: int| 0 <= y < x ==> (#[trigger] findings@[y]).targets@.len() == 0,
        decreases findings@.len() - x,
    {
        if findings[x].targets.len() > 0 {
            return true;
        }
        x = x + 1;
    }
    false
}

/// Everything one scan over one root path produced: the path scanned, the
/// findings in traversal order, and whether any cleanable target exists
/// (when none does, the caller reports that nothing was found).
#[derive(Debug)]
pub struct ScanPlan {
    pub root: String,
    pub found_any: bool,
    pub findings: Vec<ProjectFinding>,
}

/// Scans one root path for project roots matching the rules and plans what
/// to do with each artifact directory found. The walk is best effort:
/// unreadable entries are skipped, and a path that cannot be walked at all
/// yields an empty plan. Nothing is deleted and nothing is asked here: in a
/// dry run every target is planned as `Preview`; in apply mode targets are
/// planned as `Delete` under auto-confirm and as `AskUser` otherwise.
pub fn scan_path_for_matching_projects(
    scan_path: &String,
    rules: &Vec<ProjectCleanRule>,
    dry_run: bool,
    auto_confirm: bool,
) -> (plan: ScanPlan)
    ensures
        plan.root@ == scan_path@,
        plan.found_any == exists|x: int|
            0 <= x < plan.findings@.len() && (#[trigger] plan.findings@[x]).targets@.len() > 0,
        forall|x: int, j: int|
            0 <= x < plan.findings@.len() && 0 <= j < (
            #[trigger] plan.findings@[x]).targets@.len() ==> target_well_reported(
                #[trigger] plan.findings@[x].targets@[j],
                plan.findings@[x].project_type@,
                dry_run,
                auto_confirm,
            ),
        forall|x: int|
            0 <= x < plan.findings@.len() ==> finding_from_registry(
                #[trigger] plan.findings@[x],
                rules@,
            ),
        forall|x: int|
            0 <= x < plan.findings@.len() ==> targets_name_checked_dirs(
                #[trigger] plan.findings@[x],
            ),
{
    let entries = walk_entries(scan_path.as_str());
    let findings = scan_entries(&entries, rules, dry_run, auto_confirm);
    let found_any = any_targets(&findings);
    let ghost finding_seq = findings@;
    let plan = ScanPlan { root: scan_path.clone(), found_any, findings };
    proof {
        if found_any {
            let x = choose|x: int|
                0 <= x < finding_seq.len() && (#[trigger] finding_seq[x]).targets@.len() > 0;
            assert(plan.findings@[x].targets@.len() > 0);
        } else {
            assert forall|x: int|
                0 <= x < plan.findings@.len() implies (
            #[trigger] plan.findings@[x]).targets@.len() == 0 by {
                assert(finding_seq[x].targets@.len() == 0);
            }
        }
        assert forall|x: int| 0 <= x < plan.findings@.len() implies finding_from_registry(
            #[trigger] plan.findings@[x],
            rules@,
        ) by {
            let m = spec_matches(entries@, rules@)[x];
            assert(finding_reported(finding_seq[x], entries@, rules@, m, dry_run, auto_confirm));
            assert(0 <= m.1 < rules@.len() && plan.findings@[x].project_type@
                == rules@[m.1].project_type@ && plan.findings@[x].checked_dirs@
                == rules@[m.1].directories_to_clean@);
        }
        assert forall|x: int| 0 <= x < plan.findings@.len() implies targets_name_checked_dirs(
            #[trigger] plan.findings@[x],
        ) by {
            let f = plan.findings@[x];
            let m = spec_matches(entries@, rules@)[x];
            assert(finding_reported(finding_seq[x], entries@, rules@, m, dry_run, auto_confirm));
            let dirs = rules@[m.1].directories_to_clean@;
            lemma_targets_are_declared(entries@, f.project_root@, dirs);
            let mapped = f.targets@.map_values(|t: PlannedTarget| (t.path@, t.artifact_name@));
            assert forall|j: int| 0 <= j < f.targets@.len() implies exists|i: int|
                0 <= i < f.checked_dirs@.len() && (#[trigger] f.targets@[j]).artifact_name@ == (
                f.checked_dirs@[i])@ by {
                assert(mapped[j] == (f.targets@[j].path@, f.targets@[j].artifact_name@));
                assert(target_is_declared(entries@, f.project_root@, dirs, mapped[j]));
                let (di, k) = choose|di: int, k: int|
                    0 <= di < dirs.len() && 0 <= k < entries@.len() && mapped[j].1 == (
                    #[trigger] dirs[di])@ && dir_entry_matches(
                        #[trigger] entries@[k],
                        f.project_root@,
                        dirs[di]@,
                    ) && mapped[j].0 == entries@[k].path@;
                assert(0 <= di < f.checked_dirs@.len() && f.targets@[j].artifact_name@ == (
                f.checked_dirs@[di])@);
            }
        }
    }
    plan
}

/// The closed set of failures a cleanup run distinguishes: a supplied root
/// path that does not exist, one that is not a directory (both reported and
/// skipped), and a deletion that failed part-way (fatal for the rest of
/// that root's processing).
#[derive(Clone, Copy, Debug, PartialEq, Eq, Structural)]
pub enum CleanupError {
    PathNotFound,
    NotADirectory,
    DeletionFailed,
}

impl CleanupError {
    /// The reporting text of each failure kind.
    pub open spec fn spec_message(&self) -> Seq<char> {
        match self {
            CleanupError::PathNotFound => "path does not exist"@,
            CleanupError::NotADirectory => "path is not a directory"@,
            CleanupError::DeletionFailed => "failed to delete the target directory"@,
        }
    }

    /// Renders this failure for reporting.
    pub fn message(&self) -> (s: String)
        ensures
            s@ == self.spec_message(),
    {
        match self {
            CleanupError::PathNotFound => "path does not exist".to_owned(),
            CleanupError::NotADirectory => "path is not a directory".to_owned(),
            CleanupError::DeletionFailed => "failed to delete the target directory".to_owned(),
        }
    }
}

} // verus!
