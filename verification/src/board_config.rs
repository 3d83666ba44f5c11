//! The `defconfig` step of the build tool: which board configuration file
//! becomes the build configuration, and where an existing build
//! configuration is saved first. The file system work is done by the caller.
use vstd::prelude::*;
use vstd::string::*;

verus! {

/// Path of the build configuration.
pub open spec fn build_config_path_spec() -> Seq<char> {
    ".build.toml"@
}

/// Path of the configuration file of board `board_name`.
pub open spec fn board_config_path_spec(board_name: Seq<char>) -> Seq<char> {
    "configs/board/"@ + board_name + ".toml"@
}

/// Path the build configuration is saved to at `timestamp`.
pub open spec fn backup_path_spec(timestamp: Seq<char>) -> Seq<char> {
    build_config_path_spec() + ".backup_"@ + timestamp
}

/// The error reported for a board without a configuration file.
pub open spec fn missing_board_message_spec(board_name: Seq<char>) -> Seq<char> {
    "Board configuration '"@ + board_name
        + "' not found. Available boards: qemu-aarch64, orangepi-5-plus"@
}

/// Text reported when the backup copy fails.
pub open spec fn backup_failure_spec(timestamp: Seq<char>) -> Seq<char> {
    "Failed to backup "@ + build_config_path_spec() + " to "@ + backup_path_spec(timestamp)
}

/// Text reported when the backup copy is made.
pub open spec fn backup_report_spec(timestamp: Seq<char>) -> Seq<char> {
    "Backed up existing configuration to: "@ + backup_path_spec(timestamp)
}

/// Text reported when copying the board configuration fails.
pub open spec fn install_failure_spec(board_name: Seq<char>) -> Seq<char> {
    "Failed to copy "@ + board_config_path_spec(board_name) + " to "@ + build_config_path_spec()
}

/// Text reported when the board configuration is copied.
pub open spec fn install_report_spec(board_name: Seq<char>) -> Seq<char> {
    "Copied board configuration from: "@ + board_config_path_spec(board_name)
}

/// A file to copy, with the text to report when the copy fails (`failure`)
/// and when it is made (`report`).
pub struct FileCopy {
    pub from: String,
    pub to: String,
    pub failure: String,
    pub report: String,
}

/// The file operations of `defconfig`, in order: save the current build
/// configuration (when there is one), then install the board's.
pub struct DefconfigPlan {
    pub backup: Option<FileCopy>,
    pub install: FileCopy,
}

/// Path of the build configuration.
pub fn build_config_path() -> (path: String)
    ensures
        path@ == build_config_path_spec(),
{
    String::from_str(".build.toml")
}

/// Path of the configuration file of board `board_name`.
pub fn board_config_path(board_name: &str) -> (path: String)
    ensures
        path@ == board_config_path_spec(board_name@),
{
    let mut path = String::from_str("configs/board/");
    path.append(board_name);
    path.append(".toml");
    path
}

/// Path the build configuration is saved to at `timestamp`.
pub fn backup_path(timestamp: &str) -> (path: String)
    ensures
        path@ == backup_path_spec(timestamp@),
{
    let mut path = build_config_path();
    path.append(".backup_");
    path.append(timestamp);
    path
}

/// The error reported for a board without a configuration file.
pub fn missing_board_message(board_name: &str) -> (message: String)
    ensures
        message@ == missing_board_message_spec(board_name@),
{
    let mut message = String::from_str("Board configuration '");
    message.append(board_name);
    message.append("' not found. Available boards: qemu-aarch64, orangepi-5-plus");
    message
}

/// The backup of the build configuration at `timestamp`.
fn backup_copy(timestamp: &str) -> (c: FileCopy)
    ensures
        c.from@ == build_config_path_spec(),
        c.to@ == backup_path_spec(timestamp@),
        c.failure@ == backup_failure_spec(timestamp@),
        c.report@ == backup_report_spec(timestamp@),
{
    let mut failure = String::from_str("Failed to backup ");
    failure.append(build_config_path().as_str());
    failure.append(" to ");
    failure.append(backup_path(timestamp).as_str());
    let mut report = String::from_str("Backed up existing configuration to: ");
    report.append(backup_path(timestamp).as_str());
    FileCopy { from: build_config_path(), to: backup_path(timestamp), failure, report }
}

/// The copy of the configuration of `board_name` over the build configuration.
fn install_copy(board_name: &str) -> (c: FileCopy)
    ensures
        c.from@ == board_config_path_spec(board_name@),
        c.to@ == build_config_path_spec(),
        c.failure@ == install_failure_spec(board_name@),
        c.report@ == install_report_spec(board_name@),
{
    let mut failure = String::from_str("Failed to copy ");
    failure.append(board_config_path(board_name).as_str());
    failure.append(" to ");
    failure.append(build_config_path().as_str());
    let mut report = String::from_str("Copied board configuration from: ");
    report.append(board_config_path(board_name).as_str());
    FileCopy { from: board_config_path(board_name), to: build_config_path(), failure, report }
}

/// Decides what `defconfig` does for `board_name`: fail when the board has
/// no configuration file; otherwise save the current build configuration
/// (when one exists) under a name with `timestamp`, then copy the board's
/// configuration over it.
pub fn plan_defconfig(
    board_name: &str,
    board_config_exists: bool,
    build_config_exists: bool,
    timestamp: &str,
) -> (r: Result<DefconfigPlan, String>)
    ensures
        r is Err <==> !board_config_exists,
        r matches Err(message) ==> message@ == missing_board_message_spec(board_name@),
        r matches Ok(plan) ==> {
            &&& plan.install.from@ == board_config_path_spec(board_name@)
            &&& plan.install.to@ == build_config_path_spec()
            &&& plan.install.failure@ == install_failure_spec(board_name@)
            &&& plan.install.report@ == install_report_spec(board_name@)
            &&& (plan.backup is Some <==> build_config_exists)
            &&& (plan.backup matches Some(b) ==> {
                &&& b.from@ == build_config_path_spec()
                &&& b.to@ == backup_path_spec(timestamp@)
                &&& b.failure@ == backup_failure_spec(timestamp@)
                &&& b.report@ == backup_report_spec(timestamp@)
            })
        },
{
    if !board_config_exists {
        return Err(missing_board_message(board_name));
    }
    let backup = if build_config_exists {
        Some(backup_copy(timestamp))
    } else {
        None
    };
    Ok(DefconfigPlan { backup, install: install_copy(board_name) })
}

/// The copies of a plan in the order they are made: the backup (when there
/// is one) before the installation of the board configuration.
pub open spec fn plan_copies(plan: DefconfigPlan) -> Seq<FileCopy> {
    match plan.backup {
        Some(b) => seq![b, plan.install],
        None => seq![plan.install],
    }
}

/// The copy to make once `completed` copies of `plan` have succeeded. When
/// the last copy failed (`last_failed`), nothing more is copied: a failed
/// backup leaves the build configuration in place. `None` once every copy is
/// made.
pub fn next_copy(plan: &DefconfigPlan, completed: usize, last_failed: bool) -> (r: Option<
    &FileCopy,
>)
    ensures
        last_failed ==> r is None,
        !last_failed && completed < plan_copies(*plan).len() ==> (r matches Some(c) && *c
            == plan_copies(*plan)[completed as int]),
        completed >= plan_copies(*plan).len() ==> r is None,
{
    if last_failed {
        return None;
    }
    match &plan.backup {
        Some(b) => {
            if completed == 0 {
                Some(b)
            } else if completed == 1 {
                Some(&plan.install)
            } else {
                None
            }
        },
        None => {
            if completed == 0 {
                Some(&plan.install)
            } else {
                None
            }
        },
    }
}

/// The configuration path of board `n` is "configs/board/", then `n`, then
/// ".toml", whatever the length of `n`: it ends in ".toml", and the name sits
/// between the directory and the extension.
pub proof fn lemma_board_config_path_shape(n: Seq<char>)
    ensures
        board_config_path_spec(n).len() == n.len() + 19,
        board_config_path_spec(n).subrange(0, 14) == "configs/board/"@,
        board_config_path_spec(n).subrange(14, 14 + n.len() as int) == n,
        board_config_path_spec(n).subrange(
            board_config_path_spec(n).len() - 5,
            board_config_path_spec(n).len() as int,
        ) == ".toml"@,
{
    reveal_strlit("configs/board/");
    reveal_strlit(".toml");
    let p = board_config_path_spec(n);
    assert(p.subrange(0, 14) =~= "configs/board/"@);
    assert(p.subrange(14, 14 + n.len() as int) =~= n);
    assert(p.subrange(p.len() - 5, p.len() as int) =~= ".toml"@);
}

/// The backup path at `timestamp` is the build configuration path, then
/// ".backup_", then the timestamp.
pub proof fn lemma_backup_path_shape(timestamp: Seq<char>)
    ensures
        backup_path_spec(timestamp).len() == timestamp.len() + 19,
        backup_path_spec(timestamp).subrange(0, 11) == ".build.toml"@,
        backup_path_spec(timestamp).subrange(11, 19) == ".backup_"@,
        backup_path_spec(timestamp).subrange(19, 19 + timestamp.len() as int) == timestamp,
{
    reveal_strlit(".build.toml");
    reveal_strlit(".backup_");
    let p = backup_path_spec(timestamp);
    assert(p.subrange(0, 11) =~= ".build.toml"@);
    assert(p.subrange(11, 19) =~= ".backup_"@);
    assert(p.subrange(19, 19 + timestamp.len() as int) =~= timestamp);
}

/// The backup never overwrites the board configuration it is about to be
/// replaced by, nor the build configuration itself: its path differs from
/// both.
pub proof fn lemma_backup_path_distinct(timestamp: Seq<char>, board_name: Seq<char>)
    ensures
        backup_path_spec(timestamp) != build_config_path_spec(),
        backup_path_spec(timestamp) != board_config_path_spec(board_name),
{
    reveal_strlit(".build.toml");
    reveal_strlit(".backup_");
    reveal_strlit("configs/board/");
    assert(backup_path_spec(timestamp).len() > build_config_path_spec().len());
    assert(backup_path_spec(timestamp)[0] == '.');
    assert(board_config_path_spec(board_name)[0] == 'c');
}

} // verus!
