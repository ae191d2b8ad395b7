use vstd::prelude::*;
use vstd::string::StringExecFns;

verus! {

/// The stage tag of the parser's snapshots.
pub const STAGE: &'static str = "parse";

/// The extension of snapshot files.
pub const SNAPSHOT_EXTENSION: &'static str = "serialised.json";

/// The path of a snapshot: `{dir}/{base}.{role}-{stage}.{extension}`.
pub open spec fn snapshot_path_of(
    dir: Seq<char>,
    base: Seq<char>,
    role: Seq<char>,
    stage: Seq<char>,
    extension: Seq<char>,
) -> Seq<char> {
    dir + "/"@ + base + "."@ + role + "-"@ + stage + "."@ + extension
}

/// Builds the path of the snapshot of a test case in a given role.
pub fn snapshot_path(dir: &str, base: &str, role: &str, stage: &str, extension: &str) -> (r: String)
    ensures
        r@ == snapshot_path_of(dir@, base@, role@, stage@, extension@),
{
    let mut p = String::from_str(dir);
    p.append("/");
    p.append(base);
    p.append(".");
    p.append(role);
    p.append("-");
    p.append(stage);
    p.append(".");
    p.append(extension);
    p
}

/// The path of a test case's generated parse snapshot.
pub fn generated_snapshot_path(dir: &str, base: &str) -> (r: String)
    ensures
        r@ == snapshot_path_of(dir@, base@, "generated"@, STAGE@, SNAPSHOT_EXTENSION@),
{
    snapshot_path(dir, base, "generated", STAGE, SNAPSHOT_EXTENSION)
}

/// The path of a test case's expected parse snapshot.
pub fn expected_snapshot_path(dir: &str, base: &str) -> (r: String)
    ensures
        r@ == snapshot_path_of(dir@, base@, "expected"@, STAGE@, SNAPSHOT_EXTENSION@),
{
    snapshot_path(dir, base, "expected", STAGE, SNAPSHOT_EXTENSION)
}

/// The source and destination of a promotion: the generated snapshot is
/// copied onto the expected one, never the reverse.
pub fn promotion_paths(dir: &str, test_name: &str, stage: &str, extension: &str) -> (r: (
    String,
    String,
))
    ensures
        r.0@ == snapshot_path_of(dir@, test_name@, "generated"@, stage@, extension@),
        r.1@ == snapshot_path_of(dir@, test_name@, "expected"@, stage@, extension@),
{
    (
        snapshot_path(dir, test_name, "generated", stage, extension),
        snapshot_path(dir, test_name, "expected", stage, extension),
    )
}

/// The path of the configuration file of a test directory.
pub fn config_path(dir: &str) -> (r: String)
    ensures
        r@ == dir@ + "/config.toml"@,
{
    let mut p = String::from_str(dir);
    p.append("/config.toml");
    p
}

} // verus!
