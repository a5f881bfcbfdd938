use innit::{
    default_hard, ActionHandler, ActionResult, CommandRun, Context, FileDownload, FileLink,
    GitHubRepo, Location, PackageInstall, Reply, Request, Step,
};

fn ctx() -> Context {
    Context::new("linux".to_string(), "/home/alice".to_string())
}

fn at(path: &str) -> Location {
    Location { base: path.to_string(), children: vec![], suffix: String::new() }
}

fn below(path: &str, children: &[&str]) -> Location {
    Location {
        base: path.to_string(),
        children: children.iter().map(|c| c.to_string()).collect(),
        suffix: String::new(),
    }
}

fn run_request(program: &str, args: &[&str], dir: Option<Location>) -> Request {
    Request::Run {
        program: program.to_string(),
        args: args.iter().map(|a| a.to_string()).collect(),
        dir,
    }
}

fn failed(message: &str) -> Reply {
    Reply::Failed(message.to_string())
}

fn failure(reason: &str) -> ActionResult {
    ActionResult::Failure(reason.to_string())
}

/// Runs `action` against a host that gives `script`, reply by reply.
fn drive(action: &dyn ActionHandler, script: Vec<Reply>) -> (Vec<Request>, ActionResult) {
    let ctx = ctx();
    let mut requests = Vec::new();
    let mut replies = Vec::new();
    let mut script = script.into_iter();
    loop {
        match action.run(&ctx, &replies) {
            Step::Ask(request) => {
                requests.push(request);
                replies.push(script.next().expect("the action asked more than the script answers"));
            },
            Step::Finish(result) => {
                assert!(script.next().is_none(), "the action ended before the script did");
                return (requests, result);
            },
        }
    }
}

fn install() -> PackageInstall {
    PackageInstall { name: "Git".to_string(), winget_id: "Git.Git".to_string() }
}

fn query() -> Request {
    run_request("winget", &["list", "--id", "Git.Git"], None)
}

fn install_request() -> Request {
    run_request(
        "winget",
        &[
            "install",
            "--id",
            "Git.Git",
            "--exact",
            "--silent",
            "--accept-package-agreements",
            "--disable-interactivity",
        ],
        None,
    )
}

#[test]
fn install_skips_what_the_query_finds() {
    let (requests, result) = drive(&install(), vec![Reply::Exited(true)]);
    assert_eq!(requests, vec![query()]);
    assert_eq!(result, ActionResult::Skipped("already installed".to_string()));
}

#[test]
fn install_installs_what_the_query_does_not_find() {
    let (requests, result) = drive(&install(), vec![Reply::Exited(false), Reply::Exited(true)]);
    assert_eq!(requests, vec![query(), install_request()]);
    assert_eq!(result, ActionResult::Success);
}

#[test]
fn install_goes_on_where_the_query_cannot_be_made() {
    let (requests, result) = drive(&install(), vec![failed("no winget"), Reply::Exited(true)]);
    assert_eq!(requests, vec![query(), install_request()]);
    assert_eq!(result, ActionResult::Success);
}

#[test]
fn install_reports_an_unknown_error_on_a_bad_exit() {
    let (_, result) = drive(&install(), vec![Reply::Exited(false), Reply::Exited(false)]);
    assert_eq!(result, failure("unknown error"));
}

#[test]
fn install_reports_why_it_could_not_be_invoked() {
    let (_, result) = drive(&install(), vec![Reply::Exited(false), failed("program not found")]);
    assert_eq!(result, failure("program not found"));
}

#[test]
fn install_refuses_a_reply_that_answers_nothing() {
    let (_, result) = drive(&install(), vec![Reply::Done]);
    assert_eq!(result, failure("unexpected reply from the host"));
    let (_, result) = drive(&install(), vec![Reply::Exited(false), Reply::Flag(true)]);
    assert_eq!(result, failure("unexpected reply from the host"));
}

#[test]
fn install_stays_over_once_it_is_over() {
    let replies = vec![Reply::Exited(true), Reply::Exited(false), Reply::Done];
    assert_eq!(
        install().run(&ctx(), &replies),
        Step::Finish(ActionResult::Skipped("already installed".to_string()))
    );
}

fn command() -> CommandRun {
    CommandRun { command: "echo hi".to_string() }
}

#[test]
fn command_is_handed_to_the_shell() {
    let (requests, result) = drive(&command(), vec![Reply::Exited(true)]);
    assert_eq!(requests, vec![run_request("cmd", &["/C", "echo hi"], None)]);
    assert_eq!(result, ActionResult::Success);
}

#[test]
fn command_reports_a_bad_exit() {
    let (_, result) = drive(&command(), vec![Reply::Exited(false)]);
    assert_eq!(result, failure("failed to execute command for unknown reason"));
}

#[test]
fn command_reports_why_it_could_not_be_invoked() {
    let (_, result) = drive(&command(), vec![failed("No such file or directory")]);
    assert_eq!(result, failure("No such file or directory"));
}

#[test]
fn command_refuses_a_reply_that_answers_nothing() {
    let (_, result) = drive(&command(), vec![Reply::Body(vec![1, 2])]);
    assert_eq!(result, failure("unexpected reply from the host"));
}

fn download() -> FileDownload {
    FileDownload {
        url: "https://example.org/font.ttf".to_string(),
        dest: "{{ user.home }}/fonts/font.ttf".to_string(),
    }
}

fn download_dest() -> Location {
    at("/home/alice/fonts/font.ttf")
}

#[test]
fn download_refuses_an_existing_destination() {
    let (requests, result) = drive(&download(), vec![Reply::Flag(true)]);
    assert_eq!(requests, vec![Request::Exists { path: download_dest() }]);
    assert_eq!(result, failure("target file already exists"));
}

#[test]
fn download_writes_the_whole_body() {
    let body = vec![0u8, 159, 146, 150, 255];
    let (requests, result) = drive(
        &download(),
        vec![Reply::Flag(false), Reply::Body(body.clone()), Reply::Done, Reply::Done],
    );
    assert_eq!(
        requests,
        vec![
            Request::Exists { path: download_dest() },
            Request::Get { url: "https://example.org/font.ttf".to_string() },
            Request::Create { path: download_dest() },
            Request::Write { path: download_dest(), bytes: body },
        ]
    );
    assert_eq!(result, ActionResult::Success);
}

#[test]
fn download_writes_an_empty_body() {
    let (requests, result) = drive(
        &download(),
        vec![Reply::Flag(false), Reply::Body(vec![]), Reply::Done, Reply::Done],
    );
    assert_eq!(requests[3], Request::Write { path: download_dest(), bytes: vec![] });
    assert_eq!(result, ActionResult::Success);
}

#[test]
fn download_reports_a_network_failure() {
    let (requests, result) = drive(&download(), vec![Reply::Flag(false), failed("dns error")]);
    assert_eq!(requests.len(), 2);
    assert_eq!(result, failure("error downloading file"));
}

#[test]
fn download_reports_a_file_that_cannot_be_created() {
    let (requests, result) = drive(
        &download(),
        vec![Reply::Flag(false), Reply::Body(vec![1]), failed("permission denied")],
    );
    assert_eq!(requests.len(), 3);
    assert_eq!(result, failure("error creating file"));
}

#[test]
fn download_reports_a_failed_write() {
    let (requests, result) = drive(
        &download(),
        vec![Reply::Flag(false), Reply::Body(vec![1]), Reply::Done, failed("disk full")],
    );
    assert_eq!(requests.len(), 4);
    assert_eq!(result, failure("disk full"));
}

#[test]
fn download_reports_a_destination_that_cannot_be_inspected() {
    let (_, result) = drive(&download(), vec![failed("no current directory")]);
    assert_eq!(result, failure("no current directory"));
}

#[test]
fn download_refuses_a_reply_that_answers_nothing() {
    let (_, result) = drive(&download(), vec![Reply::Exited(true)]);
    assert_eq!(result, failure("unexpected reply from the host"));
    let (_, result) = drive(&download(), vec![Reply::Flag(false), Reply::Done]);
    assert_eq!(result, failure("unexpected reply from the host"));
    let (_, result) = drive(&download(), vec![Reply::Flag(false), Reply::Body(vec![]), Reply::Flag(true)]);
    assert_eq!(result, failure("unexpected reply from the host"));
}

fn link(hard: bool) -> FileLink {
    FileLink {
        src: "{{ user.home }}/dotfiles/.vimrc".to_string(),
        dest: "{{ user.home }}/.vimrc".to_string(),
        hard,
    }
}

fn link_src() -> Location {
    at("/home/alice/dotfiles/.vimrc")
}

fn link_dest() -> Location {
    at("/home/alice/.vimrc")
}

fn link_backup() -> Location {
    Location { base: "/home/alice/.vimrc".to_string(), children: vec![], suffix: ".bak".to_string() }
}

#[test]
fn links_are_symbolic_unless_told_otherwise() {
    assert!(!default_hard());
    let made = FileLink::new("a".to_string(), "b".to_string(), None);
    assert_eq!(made, FileLink { src: "a".to_string(), dest: "b".to_string(), hard: false });
    let made = FileLink::new("a".to_string(), "b".to_string(), Some(true));
    assert!(made.hard);
    let made = FileLink::new("a".to_string(), "b".to_string(), Some(false));
    assert!(!made.hard);
}

#[test]
fn link_is_created_at_a_free_destination() {
    let (requests, result) = drive(&link(false), vec![Reply::Flag(false), Reply::Done]);
    assert_eq!(
        requests,
        vec![
            Request::Exists { path: link_dest() },
            Request::Symlink { src: link_src(), dest: link_dest() },
        ]
    );
    assert_eq!(result, ActionResult::Success);
}

#[test]
fn hard_link_is_created_where_asked() {
    let (requests, result) = drive(&link(true), vec![Reply::Flag(false), Reply::Done]);
    assert_eq!(requests[1], Request::HardLink { src: link_src(), dest: link_dest() });
    assert_eq!(result, ActionResult::Success);
}

#[test]
fn link_backs_up_a_regular_file() {
    let (requests, result) = drive(
        &link(false),
        vec![Reply::Flag(true), Reply::Flag(false), Reply::Done, Reply::Done],
    );
    assert_eq!(
        requests,
        vec![
            Request::Exists { path: link_dest() },
            Request::IsSymlink { path: link_dest() },
            Request::Rename { from: link_dest(), to: link_backup() },
            Request::Symlink { src: link_src(), dest: link_dest() },
        ]
    );
    assert_eq!(result, ActionResult::Success);
}

#[test]
fn link_replaces_a_symbolic_link() {
    let (requests, result) = drive(
        &link(false),
        vec![Reply::Flag(true), Reply::Flag(true), Reply::Done, Reply::Done],
    );
    assert_eq!(
        requests,
        vec![
            Request::Exists { path: link_dest() },
            Request::IsSymlink { path: link_dest() },
            Request::Remove { path: link_dest() },
            Request::Symlink { src: link_src(), dest: link_dest() },
        ]
    );
    assert_eq!(result, ActionResult::Success);
}

#[test]
fn link_reports_filesystem_errors_as_failures() {
    let (_, result) = drive(&link(false), vec![failed("cannot stat")]);
    assert_eq!(result, failure("cannot stat"));
    let (_, result) = drive(&link(false), vec![Reply::Flag(true), failed("cannot lstat")]);
    assert_eq!(result, failure("cannot lstat"));
    let (requests, result) =
        drive(&link(false), vec![Reply::Flag(true), Reply::Flag(false), failed("read-only")]);
    assert_eq!(requests.len(), 3);
    assert_eq!(result, failure("read-only"));
    let (_, result) = drive(
        &link(false),
        vec![Reply::Flag(true), Reply::Flag(true), Reply::Done, failed("exists")],
    );
    assert_eq!(result, failure("exists"));
    let (_, result) = drive(&link(true), vec![Reply::Flag(false), failed("cross-device link")]);
    assert_eq!(result, failure("cross-device link"));
}

#[test]
fn link_refuses_a_reply_that_answers_nothing() {
    let (_, result) = drive(&link(false), vec![Reply::Done]);
    assert_eq!(result, failure("unexpected reply from the host"));
    let (_, result) = drive(&link(false), vec![Reply::Flag(true), Reply::Exited(true)]);
    assert_eq!(result, failure("unexpected reply from the host"));
    let (_, result) =
        drive(&link(false), vec![Reply::Flag(true), Reply::Flag(true), Reply::Flag(true)]);
    assert_eq!(result, failure("unexpected reply from the host"));
    let (_, result) = drive(&link(false), vec![Reply::Flag(false), Reply::Body(vec![])]);
    assert_eq!(result, failure("unexpected reply from the host"));
}

fn repo() -> GitHubRepo {
    GitHubRepo { repo: "rust-lang/rust".to_string(), dest: "{{ user.home }}/src".to_string() }
}

fn repo_base() -> Location {
    at("/home/alice/src")
}

fn repo_target() -> Location {
    below("/home/alice/src", &["rust"])
}

fn repo_marker() -> Location {
    below("/home/alice/src", &["rust", ".git"])
}

#[test]
fn repo_url_is_derived_from_the_reference() {
    assert_eq!(repo().url(), "https://github.com/rust-lang/rust.git");
}

#[test]
fn repo_is_cloned_where_the_target_is_missing() {
    let (requests, result) = drive(&repo(), vec![Reply::Flag(false), Reply::Exited(true)]);
    assert_eq!(
        requests,
        vec![
            Request::Exists { path: repo_target() },
            run_request(
                "git",
                &["clone", "https://github.com/rust-lang/rust.git"],
                Some(repo_base())
            ),
        ]
    );
    assert_eq!(result, ActionResult::Success);
}

#[test]
fn repo_is_pulled_where_the_marker_is_there() {
    let (requests, result) =
        drive(&repo(), vec![Reply::Flag(true), Reply::Flag(true), Reply::Exited(true)]);
    assert_eq!(
        requests,
        vec![
            Request::Exists { path: repo_target() },
            Request::Exists { path: repo_marker() },
            run_request("git", &["pull"], Some(repo_target())),
        ]
    );
    assert_eq!(result, ActionResult::Success);
}

#[test]
fn repo_refuses_a_directory_that_is_no_repository() {
    let (requests, result) = drive(&repo(), vec![Reply::Flag(true), Reply::Flag(false)]);
    assert_eq!(
        requests,
        vec![Request::Exists { path: repo_target() }, Request::Exists { path: repo_marker() }]
    );
    assert_eq!(result, failure("directory exists but isn't git repository"));
}

#[test]
fn repo_reports_a_bad_exit() {
    let (_, result) = drive(&repo(), vec![Reply::Flag(false), Reply::Exited(false)]);
    assert_eq!(result, failure("unknown error"));
    let (_, result) =
        drive(&repo(), vec![Reply::Flag(true), Reply::Flag(true), Reply::Exited(false)]);
    assert_eq!(result, failure("unknown error"));
}

#[test]
fn repo_reports_why_git_could_not_be_invoked() {
    let (_, result) = drive(&repo(), vec![Reply::Flag(false), failed("git: not found")]);
    assert_eq!(result, failure("git: not found"));
    let (_, result) =
        drive(&repo(), vec![Reply::Flag(true), Reply::Flag(true), failed("git: not found")]);
    assert_eq!(result, failure("git: not found"));
}

#[test]
fn repo_reports_a_target_that_cannot_be_inspected() {
    let (_, result) = drive(&repo(), vec![failed("denied")]);
    assert_eq!(result, failure("denied"));
    let (_, result) = drive(&repo(), vec![Reply::Flag(true), failed("denied")]);
    assert_eq!(result, failure("denied"));
}

#[test]
fn repo_refuses_a_reply_that_answers_nothing() {
    let (_, result) = drive(&repo(), vec![Reply::Done]);
    assert_eq!(result, failure("unexpected reply from the host"));
    let (_, result) = drive(&repo(), vec![Reply::Flag(true), Reply::Done]);
    assert_eq!(result, failure("unexpected reply from the host"));
    let (_, result) = drive(&repo(), vec![Reply::Flag(false), Reply::Flag(true)]);
    assert_eq!(result, failure("unexpected reply from the host"));
}

#[test]
fn repo_without_owner_is_kept_under_its_own_name() {
    let action = GitHubRepo { repo: "dotfiles".to_string(), dest: "/srv".to_string() };
    let (requests, _) = drive(&action, vec![Reply::Flag(false), Reply::Exited(true)]);
    assert_eq!(requests[0], Request::Exists { path: below("/srv", &["dotfiles"]) });
    assert_eq!(
        requests[1],
        run_request("git", &["clone", "https://github.com/dotfiles.git"], Some(at("/srv")))
    );
}

#[test]
fn location_is_built_step_by_step() {
    let base = Location::at("/srv".to_string());
    assert_eq!(base, at("/srv"));
    let child = base.child("a").child("b");
    assert_eq!(child, below("/srv", &["a", "b"]));
    let renamed = child.with_suffix(".bak");
    assert_eq!(
        renamed,
        Location {
            base: "/srv".to_string(),
            children: vec!["a".to_string(), "b".to_string()],
            suffix: ".bak".to_string()
        }
    );
    assert_eq!(renamed.duplicate(), renamed);
    assert_eq!(base, at("/srv"));
}

#[test]
fn outcomes_are_reported_in_one_line() {
    assert_eq!(ActionResult::Success.report(), "Success");
    assert_eq!(failure("disk full").report(), "Failure: disk full");
    assert_eq!(ActionResult::Skipped("already installed".to_string()).report(), "Skipped: already installed");
    assert!(failure("x").is_failure());
    assert!(!ActionResult::Success.is_failure());
    assert!(!ActionResult::Skipped("x".to_string()).is_failure());
    assert_eq!(ActionResult::failure("a"), failure("a"));
    assert_eq!(ActionResult::skipped("b"), ActionResult::Skipped("b".to_string()));
    assert_eq!(failure("c").duplicate(), failure("c"));
}
