use ohllama::config::Config;
use ohllama::listing::{format_listing, format_listing_entry, SystemEntry};
use ohllama::mode::{choose_mode, Mode};
use ohllama::paths::{
    base_dir_path, config_file_path, default_system_file_path, system_file_path, systems_dir_path,
};
use ohllama::prompt::{
    assemble_prompt, join_lines, missing_system_error, resolve_system_name, stdin_contribution,
};
use ohllama::response::{handle_response, ModelResponse};
use ohllama::setup::{default_system_prompt, setup_needed};

#[test]
fn default_config_values() {
    let c = Config::default();
    assert_eq!(c.url, "http://localhost");
    assert_eq!(c.port, 11434);
    assert_eq!(c.model, "dolphin-llama3");
}

#[test]
fn paths_are_derived_from_home() {
    assert_eq!(base_dir_path("/home/u"), "/home/u/.ohllama");
    assert_eq!(config_file_path("/home/u"), "/home/u/.ohllama/config.toml");
    assert_eq!(systems_dir_path("/home/u"), "/home/u/.ohllama/systems");
    assert_eq!(
        system_file_path("/home/u", "copywright"),
        "/home/u/.ohllama/systems/copywright.md"
    );
    assert_eq!(
        default_system_file_path("/home/u"),
        "/home/u/.ohllama/systems/default.md"
    );
}

#[test]
fn system_file_path_of_missing_system() {
    assert_eq!(
        system_file_path("/home/u", "missing"),
        "/home/u/.ohllama/systems/missing.md"
    );
}

#[test]
fn setup_needed_only_until_everything_exists() {
    assert!(!setup_needed(true, true, true));
    assert!(setup_needed(false, true, true));
    assert!(setup_needed(true, false, true));
    assert!(setup_needed(true, true, false));
    assert!(setup_needed(false, false, false));
}

#[test]
fn default_system_prompt_text() {
    let text = default_system_prompt();
    assert!(text.starts_with("You are an AI working with cli input"));
    assert!(text.ends_with("Just return the output of what you were asked to do."));
    assert_eq!(text.matches('\n').count(), 3);
}

#[test]
fn resolve_system_name_defaults() {
    assert_eq!(resolve_system_name(None), "default");
    assert_eq!(resolve_system_name(Some("pirate".to_string())), "pirate");
}

#[test]
fn missing_system_error_names_the_file() {
    let msg = missing_system_error("/home/u/.ohllama/systems/missing.md");
    assert_eq!(
        msg,
        "Missing system, no file found: /home/u/.ohllama/systems/missing.md"
    );
    assert!(msg.contains("missing"));
}

#[test]
fn join_lines_empty_and_single() {
    assert_eq!(join_lines(&vec![]), "");
    assert_eq!(join_lines(&vec!["only".to_string()]), "only");
}

#[test]
fn join_lines_two_lines() {
    let lines = vec!["line1".to_string(), "line2".to_string()];
    assert_eq!(join_lines(&lines), "line1\nline2");
}

#[test]
fn join_lines_keeps_empty_lines() {
    let lines = vec!["a".to_string(), "".to_string(), "b".to_string()];
    assert_eq!(join_lines(&lines), "a\n\nb");
}

#[test]
fn interactive_stdin_contributes_nothing() {
    let lines = vec!["ignored".to_string()];
    assert_eq!(stdin_contribution(true, &lines), "");
    assert_eq!(
        stdin_contribution(false, &vec!["line1".to_string(), "line2".to_string()]),
        "line1\nline2"
    );
}

#[test]
fn default_file_is_the_resolved_default_system() {
    let resolved = resolve_system_name(None);
    assert_eq!(
        system_file_path("/home/u", &resolved),
        default_system_file_path("/home/u")
    );
}

#[test]
fn assembled_prompt_layout() {
    let r = assemble_prompt("Be terse", "explain", "");
    assert_eq!(r, "System: Be terse.\nUser: explain");
}

#[test]
fn assembled_prompt_ends_with_user_then_piped_input() {
    let piped = join_lines(&vec!["line1".to_string(), "line2".to_string()]);
    let r = assemble_prompt("default persona", "explain", &piped);
    assert_eq!(r, "System: default persona.\nUser: explainline1\nline2");
    assert!(r.ends_with("explainline1\nline2"));
}

#[test]
fn listing_entry_block() {
    assert_eq!(
        format_listing_entry("a.md", "Alpha"),
        "System: a.md\nAlpha\n\n"
    );
}

#[test]
fn listing_two_systems_shows_names_and_contents() {
    let entries = vec![
        SystemEntry {
            name: "a.md".to_string(),
            contents: "Alpha".to_string(),
        },
        SystemEntry {
            name: "b.md".to_string(),
            contents: "Beta".to_string(),
        },
    ];
    let out = format_listing(&entries);
    assert_eq!(out, "System: a.md\nAlpha\n\nSystem: b.md\nBeta\n\n");
    assert!(out.contains("a.md"));
    assert!(out.contains("Alpha"));
    assert!(out.contains("b.md"));
    assert!(out.contains("Beta"));
}

#[test]
fn listing_of_no_systems_is_empty() {
    assert_eq!(format_listing(&vec![]), "");
}

#[test]
fn successful_response_is_printed_verbatim() {
    let r = handle_response(ModelResponse::Success("hello".to_string()));
    assert_eq!(r, Ok("hello".to_string()));
}

#[test]
fn failed_response_names_cause_and_explanation() {
    let r = handle_response(ModelResponse::Failure("connection refused".to_string()));
    let msg = r.unwrap_err();
    assert_eq!(
        msg,
        "unable to request Ollama, is Ollama running?: connection refused"
    );
    assert!(msg.contains("unable to request Ollama, is Ollama running?"));
    assert!(msg.contains("connection refused"));
}

#[test]
fn list_flag_wins_over_prompt() {
    assert!(matches!(
        choose_mode(true, Some("explain".to_string())),
        Ok(Mode::ListSystems)
    ));
    assert!(matches!(choose_mode(true, None), Ok(Mode::ListSystems)));
}

#[test]
fn generate_mode_requires_a_user_prompt() {
    match choose_mode(false, Some("explain".to_string())) {
        Ok(Mode::Generate { user_prompt }) => assert_eq!(user_prompt, "explain"),
        _ => panic!("expected generate mode"),
    }
    match choose_mode(false, None) {
        Err(e) => assert_eq!(e, "Missing User prompt!"),
        _ => panic!("expected an error"),
    }
}
