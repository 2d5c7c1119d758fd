use gitop::{make_tag_name, Command, Configuration, FakeRepository, RepoError, ScriptedRepository};

fn config(command: Command, operation: &str) -> Configuration {
    Configuration {
        command,
        operation: String::from(operation),
        source_branch: String::from("master"),
        dependencies: vec![],
    }
}

#[test]
fn test_tag_command() {
    // given a fake repo
    let mut fake_repo = FakeRepository::new();
    // and a tag command
    let cli = config(Command::Tag, "test");

    // when tag using defined arguments
    let _ = Command::tag(&cli, &mut fake_repo);
    // then a new tag with op name and branch name is pushed
    let last_pushed_tag = fake_repo.get_last_pushed_tag();
    assert_eq!(&last_pushed_tag, "gitop/master/test")
}

#[test]
fn tag_returns_derived_name_and_records_it() {
    let mut fake_repo = FakeRepository::new();
    let cli = config(Command::Tag, "release");

    let result = Command::tag(&cli, &mut fake_repo);

    assert_eq!(result.unwrap(), "gitop/master/release");
    assert_eq!(fake_repo.get_last_pushed_tag(), "gitop/master/release");
    assert_eq!(fake_repo.tags, vec![String::from("gitop/master/release")]);
}

#[test]
fn tag_with_empty_operation_keeps_trailing_separator() {
    let mut repo = ScriptedRepository::new(String::from("main"));
    let cli = config(Command::Tag, "");

    let result = Command::tag(&cli, &mut repo);

    assert_eq!(result.unwrap(), "gitop/main/");
    assert_eq!(repo.published_tags, vec![String::from("gitop/main/")]);
}

#[test]
fn tag_embeds_operation_with_separators_verbatim() {
    let mut repo = ScriptedRepository::new(String::from("feat/x"));
    let cli = config(Command::Tag, "rel/1.0");

    let result = Command::tag(&cli, &mut repo);

    assert_eq!(result.unwrap(), "gitop/feat/x/rel/1.0");
}

#[test]
fn tag_name_derivation_is_plain_concatenation() {
    assert_eq!(make_tag_name("master", "release"), "gitop/master/release");
    assert_eq!(make_tag_name("main", ""), "gitop/main/");
    assert_eq!(make_tag_name("", ""), "gitop//");
    assert_eq!(make_tag_name("a/b", "c/d"), "gitop/a/b/c/d");
}

#[test]
fn tag_aborts_without_publish_attempt_when_branch_read_fails() {
    let mut repo = ScriptedRepository::new(String::from("master"));
    repo.fail_branch_read = true;
    let cli = config(Command::Tag, "release");

    let result = cli.command.run(&cli, &mut repo);

    assert_eq!(result.unwrap_err(), RepoError::RepositoryUnavailable);
    assert!(repo.attempted_tags.is_empty());
    assert!(repo.published_tags.is_empty());
}

#[test]
fn tag_propagates_publish_failure_after_exactly_one_attempt() {
    let mut repo = ScriptedRepository::new(String::from("master"));
    repo.fail_push = true;
    let cli = config(Command::Tag, "release");

    let result = cli.command.run(&cli, &mut repo);

    assert_eq!(result.unwrap_err(), RepoError::PublishFailed);
    assert_eq!(repo.attempted_tags, vec![String::from("gitop/master/release")]);
    assert!(repo.published_tags.is_empty());
}

#[test]
fn check_returns_empty_and_touches_nothing() {
    let mut repo = ScriptedRepository::new(String::from("master"));
    // even a backend scripted to fail is never asked anything
    repo.fail_branch_read = true;
    repo.fail_push = true;
    let cli = config(Command::Check, "release");

    let result = cli.command.run(&cli, &mut repo);

    assert_eq!(result.unwrap(), "");
    assert!(repo.attempted_tags.is_empty());
    assert!(repo.published_tags.is_empty());
}

#[test]
fn check_leaves_dependencies_unchanged_and_unused() {
    let mut repo = FakeRepository::new();
    let cli = Configuration {
        command: Command::Check,
        operation: String::from("release"),
        source_branch: String::from("master"),
        dependencies: vec![String::from("a"), String::from("b")],
    };

    let result = cli.command.run(&cli, &mut repo);

    assert_eq!(result.unwrap(), "");
    assert_eq!(cli.dependencies, vec![String::from("a"), String::from("b")]);
    assert_eq!(repo.get_last_pushed_tag(), "no");
}

#[test]
fn run_dispatches_tag_like_tag() {
    let mut fake_repo = FakeRepository::new();
    let cli = config(Command::Tag, "test");

    let result = Command::Tag.run(&cli, &mut fake_repo);

    assert_eq!(result.unwrap(), "gitop/master/test");
    assert_eq!(fake_repo.get_last_pushed_tag(), "gitop/master/test");
}

#[test]
fn last_pushed_tag_is_a_sentinel_before_any_push() {
    let fake_repo = FakeRepository::new();
    assert_eq!(fake_repo.get_last_pushed_tag(), "no");
}
