use delta_env::env::DeltaEnv;
use delta_env::pager::resolve_pager;
use std::path::PathBuf;

const PROGRAM: &str = "/usr/local/bin/delta";

fn s(v: &str) -> Option<String> {
    Some(v.to_string())
}

fn env_with(
    features: Option<String>,
    delta_pager: Option<String>,
    bat_pager: Option<String>,
    pager: Option<String>,
) -> DeltaEnv {
    DeltaEnv::from_values(
        None,
        None,
        Some(PathBuf::from("/home/user/project")),
        None,
        features,
        None,
        None,
        None,
        None,
        delta_pager,
        bat_pager,
        pager,
        s(PROGRAM),
    )
}

#[test]
fn test_env_parsing() {
    let feature = "Awesome Feature";
    let env = env_with(s(feature), None, None, None);
    assert_eq!(env.features, Some(feature.into()));
    assert_eq!(env.current_dir, Some(PathBuf::from("/home/user/project")));
}

#[test]
fn test_env_parsing_with_pager_set_to_bat() {
    let env = env_with(None, None, None, s("bat"));
    assert_eq!(
        env.pagers.1,
        Some("bat".into()),
        "Expected env.pagers.1 == Some(bat) but was {:?}",
        env.pagers.1
    );
}

#[test]
fn test_env_parsing_with_pager_set_to_more() {
    let env = env_with(None, None, None, s("more"));
    assert_eq!(env.pagers.1, Some("less".into()));
}

#[test]
fn test_env_parsing_with_pager_set_to_most() {
    let env = env_with(None, None, None, s("most"));
    assert_eq!(env.pagers.1, Some("less".into()));
}

#[test]
fn test_env_parsing_with_complex_shell_pager_command() {
    let env = env_with(None, None, None, s("/bin/sh -c \"head -10000 | cat\""));
    assert_eq!(
        env.pagers.1,
        Some("/bin/sh -c \"head -10000 | cat\"".into()),
        "Complex shell pager command should be preserved with arguments"
    );
}

#[test]
fn test_env_parsing_with_simple_shell_pager_command() {
    let env = env_with(None, None, None, s("/bin/sh -c \"cat\""));
    assert_eq!(
        env.pagers.1,
        Some("/bin/sh -c \"cat\"".into()),
        "Simple shell pager command should be preserved with arguments"
    );
}

#[test]
fn test_env_parsing_with_pager_arguments_preserved() {
    let env = env_with(None, None, None, s("less -R -F -X"));
    assert_eq!(
        env.pagers.1,
        Some("less -R -F -X".into()),
        "Pager arguments should be preserved"
    );
}

#[test]
fn test_env_parsing_delta_pager_takes_precedence() {
    let env = env_with(None, s("/bin/sh -c \"head -1 | cat\""), None, s("cat"));
    assert_eq!(
        env.pagers.0,
        Some("/bin/sh -c \"head -1 | cat\"".into()),
        "DELTA_PAGER should be preserved exactly as set"
    );
    assert_eq!(
        env.pagers.1,
        Some("cat".into()),
        "PAGER should also be preserved for fallback"
    );
}

#[test]
fn primary_pager_kept_even_when_malformed() {
    let env = env_with(None, s("less 'unterminated"), None, None);
    assert_eq!(env.pagers.0, s("less 'unterminated"));
    assert_eq!(env.pagers.1, s("less"));
}

#[test]
fn no_pager_variables_give_less() {
    let env = env_with(None, None, None, None);
    assert_eq!(env.pagers.0, None);
    assert_eq!(env.pagers.1, s("less"));
    assert_eq!(resolve_pager(None, None, None), "less");
}

#[test]
fn all_values_stored_as_given() {
    let env = DeltaEnv::from_values(
        s("Nord"),
        s("truecolor"),
        None,
        s("10"),
        s("side-by-side"),
        s("'core.pager=less'"),
        s("sub/"),
        s("host"),
        s("true"),
        None,
        None,
        None,
        None,
    );
    assert_eq!(env.bat_theme, s("Nord"));
    assert_eq!(env.colorterm, s("truecolor"));
    assert_eq!(env.current_dir, None);
    assert_eq!(env.experimental_max_line_distance_for_naively_paired_lines, s("10"));
    assert_eq!(env.features, s("side-by-side"));
    assert_eq!(env.git_config_parameters, s("'core.pager=less'"));
    assert_eq!(env.git_prefix, s("sub/"));
    assert_eq!(env.hostname, s("host"));
    assert_eq!(env.navigate, s("true"));
    let copy = env.clone();
    assert_eq!(copy.bat_theme, s("Nord"));
    assert_eq!(copy.pagers, env.pagers);
}
