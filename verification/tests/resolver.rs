use yapm::error::CliError;
use yapm::multiplexer::{Action, Origin, StreamEvent};
use yapm::process::{ProcessExit, Subprocess};
use yapm::resolver::{
    PackageView, Resolver, DESCRIPTION_TAG, README_TAG, RESOLVE_COMMAND, TITLE_TAG, VIEW_COMMAND,
};

fn text(value: &str) -> String {
    String::from(value)
}

fn out(value: &str) -> StreamEvent {
    StreamEvent::Line(Origin::Stdout, text(value))
}

fn err(value: &str) -> StreamEvent {
    StreamEvent::Line(Origin::Stderr, text(value))
}

/// Feeds `events` and then the end of both streams; returns what was relayed.
fn drain(process: &mut Subprocess, events: Vec<StreamEvent>) -> Vec<String> {
    let mut relayed = Vec::new();
    for event in events {
        if let Action::Relay(line) = process.step(event) {
            relayed.push(line);
        }
    }
    assert_eq!(process.step(StreamEvent::Closed(Origin::Stdout)), Action::Continue);
    assert_eq!(process.step(StreamEvent::Closed(Origin::Stderr)), Action::AwaitExit);
    assert!(process.is_drained());
    relayed
}

#[test]
fn commands_and_tags_are_the_documented_words() {
    assert_eq!(RESOLVE_COMMAND, "resolve");
    assert_eq!(VIEW_COMMAND, "view");
    assert_eq!(TITLE_TAG, "title::");
    assert_eq!(DESCRIPTION_TAG, "description::");
    assert_eq!(README_TAG, "readme::");
}

#[test]
fn resolve_asks_with_resolve_and_the_id() {
    let resolver = Resolver::new(text("/usr/bin/yapm_resolver_github"));
    let process = resolver.resolve(text("left-pad"));
    assert_eq!(process.program(), "/usr/bin/yapm_resolver_github");
    assert_eq!(process.args(), &vec![text("resolve"), text("left-pad")]);
    assert!(process.is_open(Origin::Stdout));
    assert!(process.is_open(Origin::Stderr));
    assert!(!process.is_drained());
}

#[test]
fn view_asks_with_view_and_the_id() {
    let resolver = Resolver::new(text("yapm_resolver_github"));
    let process = resolver.view(text("left-pad"));
    assert_eq!(process.program(), "yapm_resolver_github");
    assert_eq!(process.args(), &vec![text("view"), text("left-pad")]);
}

#[test]
fn spawn_keeps_the_arguments_as_given() {
    let resolver = Resolver::new(text("r"));
    let process = resolver.spawn(vec![text("a"), text(""), text("c d")]);
    assert_eq!(process.program(), "r");
    assert_eq!(process.args(), &vec![text("a"), text(""), text("c d")]);
}

#[test]
fn spawn_failure_names_the_resolver() {
    let resolver = Resolver::new(text("/no/such/resolver"));
    let process = resolver.resolve(text("x"));
    assert_eq!(process.spawn_failed(), CliError::InvalidResolver(text("/no/such/resolver")));
}

#[test]
fn resolve_returns_every_candidate_in_emission_order() {
    let resolver = Resolver::new(text("r"));
    let mut process = resolver.resolve(text("pad"));
    let relayed = drain(
        &mut process,
        vec![out("yapm::zeta"), out("yapm::alpha"), out("yapm::mid"), out("yapm::beta")],
    );
    assert_eq!(relayed, Vec::<String>::new());
    assert_eq!(
        process.finish(ProcessExit::Exited(0)),
        Ok(vec![text("zeta"), text("alpha"), text("mid"), text("beta")])
    );
}

#[test]
fn resolve_keeps_repeated_candidates() {
    let resolver = Resolver::new(text("r"));
    let mut process = resolver.resolve(text("pad"));
    drain(&mut process, vec![out("yapm::a"), out("yapm::a")]);
    assert_eq!(process.finish(ProcessExit::Exited(0)), Ok(vec![text("a"), text("a")]));
}

#[test]
fn resolve_without_candidates_succeeds_with_none() {
    let resolver = Resolver::new(text("r"));
    let mut process = resolver.resolve(text("nothing-like-it"));
    let relayed = drain(&mut process, vec![err("no match")]);
    assert_eq!(relayed, vec![text("no match")]);
    assert_eq!(process.finish(ProcessExit::Exited(0)), Ok(Vec::new()));
}

#[test]
fn diagnostics_are_relayed_and_never_returned() {
    let resolver = Resolver::new(text("r"));
    let mut process = resolver.resolve(text("pad"));
    let relayed = drain(
        &mut process,
        vec![
            err("searching"),
            out("yapm::one"),
            out("plain stdout line"),
            err("yapm::two"),
            err("done"),
        ],
    );
    assert_eq!(relayed, vec![text("searching"), text("plain stdout line"), text("done")]);
    assert_eq!(process.finish(ProcessExit::Exited(0)), Ok(vec![text("one"), text("two")]));
}

#[test]
fn resolve_fails_on_exit_status_one_despite_lines() {
    let resolver = Resolver::new(text("/opt/resolvers/gh"));
    let mut process = resolver.resolve(text("pad"));
    drain(&mut process, vec![out("yapm::one"), out("yapm::two")]);
    assert_eq!(
        process.finish(ProcessExit::Exited(1)),
        Err(CliError::ResolverErrored(text("/opt/resolvers/gh")))
    );
}

#[test]
fn resolve_fails_on_any_nonzero_status() {
    for status in [-1, 2, 127, 255, i32::MAX, i32::MIN] {
        let resolver = Resolver::new(text("gh"));
        let mut process = resolver.resolve(text("pad"));
        drain(&mut process, vec![out("yapm::one")]);
        assert_eq!(
            process.finish(ProcessExit::Exited(status)),
            Err(CliError::ResolverErrored(text("gh")))
        );
    }
}

#[test]
fn resolve_fails_when_the_process_was_terminated() {
    let resolver = Resolver::new(text("gh"));
    let mut process = resolver.resolve(text("pad"));
    drain(&mut process, vec![out("yapm::one")]);
    assert_eq!(
        process.finish(ProcessExit::Terminated),
        Err(CliError::ResolverErrored(text("gh")))
    );
}

#[test]
fn failed_wait_is_reported_with_its_cause() {
    let resolver = Resolver::new(text("gh"));
    let mut process = resolver.resolve(text("pad"));
    drain(&mut process, vec![out("yapm::one")]);
    assert_eq!(
        process.finish(ProcessExit::WaitFailed(text("interrupted"))),
        Err(CliError::UnexpectedProcessFailure {
            program: text("gh"),
            message: text("interrupted"),
        })
    );
}

#[test]
fn default_view_is_empty() {
    let view = PackageView::default();
    assert_eq!(view.title, "");
    assert_eq!(view.description, "");
    assert_eq!(view.readme, "");
}

#[test]
fn view_of_four_fields() {
    let lines = vec![
        text("title::A"),
        text("description::B"),
        text("readme::C1"),
        text("readme::C2"),
    ];
    let view = PackageView::from_lines(&lines);
    assert_eq!(view.title, "A");
    assert_eq!(view.description, "B");
    assert_eq!(view.readme, "C1C2");
}

#[test]
fn view_of_four_fields_among_diagnostics() {
    let interleavings: Vec<Vec<StreamEvent>> = vec![
        vec![
            out("yapm::title::A"),
            out("yapm::description::B"),
            out("yapm::readme::C1"),
            out("yapm::readme::C2"),
        ],
        vec![
            err("starting"),
            out("yapm::title::A"),
            err("fetching"),
            out("yapm::description::B"),
            err("title::not a field"),
            out("yapm::readme::C1"),
            out("readme::not a field either"),
            out("yapm::readme::C2"),
            err("done"),
        ],
        vec![
            err("x"),
            err("y"),
            err("yapm::title::A"),
            err("yapm::description::B"),
            err("yapm::readme::C1"),
            err("yapm::readme::C2"),
        ],
    ];
    for events in interleavings {
        let resolver = Resolver::new(text("gh"));
        let mut process = resolver.view(text("pkg"));
        drain(&mut process, events);
        let view = PackageView::from_run(process, ProcessExit::Exited(0)).unwrap();
        assert_eq!(
            view,
            PackageView { title: text("A"), description: text("B"), readme: text("C1C2") }
        );
    }
}

#[test]
fn view_drops_unknown_fields() {
    let lines = vec![
        text("license::MIT"),
        text("title::A"),
        text("Title::B"),
        text("titel::C"),
        text("title:D"),
        text(""),
        text("no tag at all"),
        text("homepage::https://example.org"),
    ];
    let view = PackageView::from_lines(&lines);
    assert_eq!(view, PackageView { title: text("A"), description: text(""), readme: text("") });
}

#[test]
fn view_scalar_fields_take_the_last_value() {
    let lines = vec![
        text("title::first"),
        text("description::one"),
        text("title::second"),
        text("description::two"),
        text("title::third"),
    ];
    let view = PackageView::from_lines(&lines);
    assert_eq!(view.title, "third");
    assert_eq!(view.description, "two");
    assert_eq!(view.readme, "");
}

#[test]
fn view_scalar_field_may_be_overwritten_with_nothing() {
    let lines = vec![text("title::first"), text("title::")];
    assert_eq!(PackageView::from_lines(&lines).title, "");
}

#[test]
fn view_readme_appends_without_separator() {
    let lines = vec![
        text("readme::# Title"),
        text("readme::"),
        text("readme::body"),
        text("title::T"),
        text("readme:: end"),
    ];
    let view = PackageView::from_lines(&lines);
    assert_eq!(view.readme, "# Titlebody end");
    assert_eq!(view.title, "T");
}

#[test]
fn view_field_text_may_hold_a_tag() {
    let lines = vec![text("title::readme::x"), text("description::title::y")];
    let view = PackageView::from_lines(&lines);
    assert_eq!(view.title, "readme::x");
    assert_eq!(view.description, "title::y");
    assert_eq!(view.readme, "");
}

#[test]
fn record_takes_one_payload_at_a_time() {
    let mut view = PackageView::default();
    view.record("readme::a");
    view.record("unknown::b");
    view.record("description::c");
    view.record("readme::d");
    assert_eq!(
        view,
        PackageView { title: text(""), description: text("c"), readme: text("ad") }
    );
}

#[test]
fn view_of_no_lines_is_empty() {
    assert_eq!(PackageView::from_lines(&Vec::new()), PackageView::default());
}

#[test]
fn view_fails_on_exit_status_one_despite_fields() {
    let resolver = Resolver::new(text("/opt/resolvers/gh"));
    let mut process = resolver.view(text("pkg"));
    drain(&mut process, vec![out("yapm::title::A"), out("yapm::readme::C1")]);
    assert_eq!(
        PackageView::from_run(process, ProcessExit::Exited(1)),
        Err(CliError::ResolverErrored(text("/opt/resolvers/gh")))
    );
}

#[test]
fn view_reports_a_failed_wait() {
    let resolver = Resolver::new(text("gh"));
    let mut process = resolver.view(text("pkg"));
    drain(&mut process, vec![out("yapm::title::A")]);
    assert_eq!(
        PackageView::from_run(process, ProcessExit::WaitFailed(text("no child"))),
        Err(CliError::UnexpectedProcessFailure { program: text("gh"), message: text("no child") })
    );
}

#[test]
fn view_without_fields_succeeds_with_defaults() {
    let resolver = Resolver::new(text("gh"));
    let mut process = resolver.view(text("pkg"));
    drain(&mut process, vec![err("nothing known")]);
    assert_eq!(PackageView::from_run(process, ProcessExit::Exited(0)), Ok(PackageView::default()));
}

#[test]
fn step_leaves_the_command_line_alone() {
    let resolver = Resolver::new(text("gh"));
    let mut process = resolver.view(text("pkg"));
    process.step(out("yapm::title::A"));
    process.step(StreamEvent::Failed(Origin::Stderr));
    assert_eq!(process.program(), "gh");
    assert_eq!(process.args(), &vec![text("view"), text("pkg")]);
    assert!(process.is_open(Origin::Stdout));
    assert!(!process.is_open(Origin::Stderr));
}
