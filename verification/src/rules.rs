//! The rule registry: the fixed, ordered list of cleaning rules. Each rule
//! names a marker file that identifies a project root of some kind, and the
//! artifact directories that may be cleaned under such a root.

use vstd::prelude::*;

verus! {

/// One cleaning rule: a project kind, the file name whose presence marks a
/// project root of that kind, the directory names (relative to the root)
/// that hold disposable artifacts, and a human-readable description.
pub struct ProjectCleanRule {
    pub project_type: String,
    pub identifier_file: String,
    pub directories_to_clean: Vec<String>,
    pub description: String,
}

impl ProjectCleanRule {
    /// A usable rule names a marker file and at least one artifact directory.
    pub open spec fn wf(&self) -> bool {
        &&& self.identifier_file@.len() > 0
        &&& self.directories_to_clean@.len() > 0
    }
}

/// Every rule of a registry is well formed.
pub open spec fn rules_wf(rules: Seq<ProjectCleanRule>) -> bool {
    forall|i: int| 0 <= i < rules.len() ==> (#[trigger] rules[i]).wf()
}

/// The fixed rule registry, in matching order: Rust projects identified by
/// `Cargo.toml` with a `target` directory, then Node.js projects identified
/// by `package.json` with a `node_modules` directory.
pub fn get_clean_rules() -> (rules: Vec<ProjectCleanRule>)
    ensures
        rules@.len() == 2,
        rules@[0].project_type@ == "Rust"@,
        rules@[0].identifier_file@ == "Cargo.toml"@,
        rules@[0].directories_to_clean@.len() == 1,
        rules@[0].directories_to_clean@[0]@ == "target"@,
        rules@[1].project_type@ == "Node.js"@,
        rules@[1].identifier_file@ == "package.json"@,
        rules@[1].directories_to_clean@.len() == 1,
        rules@[1].directories_to_clean@[0]@ == "node_modules"@,
        rules_wf(rules@),
{
    proof {
        reveal_strlit("Cargo.toml");
        reveal_strlit("package.json");
    }
    let rust_rule = ProjectCleanRule {
        project_type: "Rust".to_owned(),
        identifier_file: "Cargo.toml".to_owned(),
        directories_to_clean: vec!["target".to_owned()],
        description: "Rust build artifacts".to_owned(),
    };
    let node_rule = ProjectCleanRule {
        project_type: "Node.js".to_owned(),
        identifier_file: "package.json".to_owned(),
        directories_to_clean: vec!["node_modules".to_owned()],
        description: "Node.js dependency cache".to_owned(),
    };
    let rules = vec![rust_rule, node_rule];
    rules
}

} // verus!
