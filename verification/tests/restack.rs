use graduate_cli::handoff::preserved_text;
use graduate_cli::restack::{interactive_resume_requested, wants_interactive, RestackArgs};

fn resume_args() -> RestackArgs {
    RestackArgs {
        environment: "qa".to_owned(),
        main: None,
        remote: None,
        params: None,
        dry_run: false,
        apply: false,
        resume: Some("v1.token".to_owned()),
        abort: false,
    }
}

#[test]
fn bare_resume_from_a_terminal_reviews_interactively() {
    assert!(interactive_resume_requested(&resume_args(), true));
}

#[test]
fn resume_stays_machine_readable_without_a_terminal_or_with_apply_or_abort() {
    assert!(!interactive_resume_requested(&resume_args(), false));
    let apply = RestackArgs { apply: true, ..resume_args() };
    assert!(!interactive_resume_requested(&apply, true));
    let abort = RestackArgs { abort: true, ..resume_args() };
    assert!(!interactive_resume_requested(&abort, true));
    let fresh = RestackArgs { resume: None, ..resume_args() };
    assert!(!interactive_resume_requested(&fresh, true));
}

#[test]
fn preserved_text_names_every_way_to_finish_the_sealed_session() {
    let text = preserved_text("qa", "v1.token");
    assert!(text.starts_with("Restack of qa left unpublished; no remote refs changed."));
    assert!(text.contains("gd restack qa --resume v1.token\n"));
    assert!(text.contains("gd restack qa --resume v1.token --apply"));
    assert!(text.contains("gd restack qa --resume v1.token --abort"));
}

#[test]
fn a_plain_restack_is_interactive_but_parameters_or_dry_runs_are_not() {
    let plain = RestackArgs { resume: None, ..resume_args() };
    assert!(wants_interactive(&plain));
    let dry = RestackArgs { dry_run: true, ..plain.clone() };
    assert!(!wants_interactive(&dry));
    let params = RestackArgs { params: Some("{}".to_owned()), ..plain };
    assert!(!wants_interactive(&params));
}
