use tohum::commands::plant::{
    plant_seed, PathKind, PlantAction, PlantEvent, PlantRequest, PlantStage, PlantState,
};
use tohum::io::FileHead;
use tohum::render::{render_file, settle_render, FileOutcome, RenderFailure, TEMPLATE_NAME};
use tohum::seed::{Seed, SeedAuthor, SeedTemplateVariable, Version};
use tohum::silo::{read_silo, MarkerRead, WalkEntry};

fn plant_render_file(path: &str, text: &str, bindings: &tera::Context) -> FileOutcome {
    let head = FileHead::Bytes(text.as_bytes().to_vec());
    match render_file(path, true, &head, Ok(text.to_string()), bindings) {
        FileOutcome::Engine { template } => {
            let mut engine = tera::Tera::default();
            let answer = match engine.add_raw_template(TEMPLATE_NAME, &template) {
                Ok(()) => engine.render(TEMPLATE_NAME, bindings),
                Err(error) => Err(error),
            };
            settle_render(
                path,
                answer.map_err(|error| RenderFailure { message: error.to_string(), causes: Vec::new() }),
            )
        }
        settled => settled,
    }
}

fn plant_request(force: bool, variables: &[&str]) -> PlantRequest {
    PlantRequest {
        project_name: "demo".to_string(),
        silo_url: "https://example.org/silo.git".to_string(),
        silo_branch: "main".to_string(),
        seed_name: "web@starter".to_string(),
        path: "out".to_string(),
        force,
        variables: variables.iter().map(|v| v.to_string()).collect(),
    }
}

fn plant_starter(variables: Option<Vec<(String, SeedTemplateVariable)>>) -> Seed {
    Seed {
        name: "web@starter".to_string(),
        version: Version { major: 0, minor: 1, patch: 0, pre: String::new(), build: String::new() },
        description: None,
        tags: None,
        authors: vec![SeedAuthor { name: "Ada".to_string(), email: None, website: None }],
        variables,
        repo_path: String::new(),
    }
}

fn plant_title_schema() -> Option<Vec<(String, SeedTemplateVariable)>> {
    Some(vec![(
        "title".to_string(),
        SeedTemplateVariable {
            var_type: "string".to_string(),
            default: None,
            description: "d".to_string(),
            required: true,
        },
    )])
}

fn plant_silo(seed: Seed) -> Vec<Seed> {
    let entries = vec![WalkEntry {
        path: vec!["seeds".to_string(), "web".to_string(), ".tohumrc".to_string()],
        is_file: true,
        content: MarkerRead::Parsed(seed),
    }];
    read_silo(entries).unwrap().seeds
}

fn plant_until_copied(request: &PlantRequest, seed: Seed) -> PlantState {
    let (state, _) = plant_seed(request, PlantState::Created, PlantEvent::Started);
    let (state, _) = plant_seed(request, state, PlantEvent::Found(PathKind::Absent));
    let (state, _) = plant_seed(request, state, PlantEvent::Found(PathKind::Absent));
    let (state, _) = plant_seed(request, state, PlantEvent::Seeds(plant_silo(seed)));
    let (state, _) = plant_seed(request, state, PlantEvent::Completed);
    state
}

#[test]
fn plant_renders_the_starter_seed() {
    let request = plant_request(false, &["title=World"]);
    let (state, action) = plant_seed(&request, PlantState::Created, PlantEvent::Started);
    assert_eq!(state.current_stage(), PlantStage::ResolveDestination);
    assert!(matches!(&action, PlantAction::ProbeDestination { path } if path == "out/demo"));

    let (state, action) = plant_seed(&request, state, PlantEvent::Found(PathKind::Absent));
    assert_eq!(state.current_stage(), PlantStage::ResolveSilo);
    assert!(matches!(&action, PlantAction::ProbeSilo { path } if path == "https://example.org/silo.git"));

    let (state, action) = plant_seed(&request, state, PlantEvent::Found(PathKind::Absent));
    assert_eq!(state.current_stage(), PlantStage::ResolveSilo);
    match &action {
        PlantAction::FetchSilo { url, branch, pattern } => {
            assert_eq!(url, "https://example.org/silo.git");
            assert_eq!(branch, "main");
            assert_eq!(pattern, "**/.tohumrc");
        }
        other => panic!("unexpected action: {:?}", other),
    }

    let seeds = plant_silo(plant_starter(plant_title_schema()));
    let (state, action) = plant_seed(&request, state, PlantEvent::Seeds(seeds));
    assert_eq!(state.current_stage(), PlantStage::FetchPayload);
    match &action {
        PlantAction::FetchPayload { url, branch, pattern } => {
            assert_eq!(url, "https://example.org/silo.git");
            assert_eq!(branch, "main");
            assert_eq!(pattern, "seeds/web/*");
        }
        other => panic!("unexpected action: {:?}", other),
    }

    let (state, action) = plant_seed(&request, state, PlantEvent::Completed);
    assert_eq!(state.current_stage(), PlantStage::CopyPayload);
    assert!(matches!(
        &action,
        PlantAction::CopyPayload { repo_path, destination }
            if repo_path == "seeds/web" && destination == "out/demo"
    ));

    let (state, action) = plant_seed(&request, state, PlantEvent::Completed);
    assert_eq!(state.current_stage(), PlantStage::Render);
    let bindings = match action {
        PlantAction::Render { root, bindings } => {
            assert_eq!(root, "out/demo");
            bindings
        }
        other => panic!("unexpected action: {:?}", other),
    };
    let outcome = plant_render_file("out/demo/index.txt", "Hello {{ title }}", &bindings);
    assert!(matches!(outcome, FileOutcome::Rewrite { content } if content == "Hello World"));
    assert_eq!(bindings.get("project_name"), Some(&serde_json::Value::String("demo".to_string())));
    assert!(bindings.contains_key("authors"));

    let (state, action) = plant_seed(&request, state, PlantEvent::Completed);
    assert_eq!(state.current_stage(), PlantStage::Cleanup);
    assert!(matches!(&action, PlantAction::RemoveMarker { path } if path == "out/demo/.tohumrc"));

    let (state, action) = plant_seed(&request, state, PlantEvent::Completed);
    assert_eq!(state.current_stage(), PlantStage::Done);
    assert!(matches!(
        &action,
        PlantAction::Finish { message }
            if message == "Project demo planted at out/demo from web@starter seed!"
    ));
}

#[test]
fn plant_into_existing_destination_without_force_collides() {
    let request = plant_request(false, &[]);
    for kind in [PathKind::Dir, PathKind::File, PathKind::Other] {
        let (state, _) = plant_seed(&request, PlantState::Created, PlantEvent::Started);
        let (state, action) = plant_seed(&request, state, PlantEvent::Found(kind));
        assert_eq!(state.current_stage(), PlantStage::Failed);
        match action {
            PlantAction::Abort { stage, message } => {
                assert_eq!(stage, PlantStage::ResolveDestination);
                assert_eq!(
                    message,
                    "Target dir out/demo already exists. Either use another path, project name or \"--force\" flag to overwrite"
                );
            }
            other => panic!("unexpected action: {:?}", other),
        }
    }
}

#[test]
fn plant_with_force_replaces_the_destination() {
    let request = plant_request(true, &[]);
    let (state, _) = plant_seed(&request, PlantState::Created, PlantEvent::Started);
    let (state, action) = plant_seed(&request, state, PlantEvent::Found(PathKind::Dir));
    assert_eq!(state.current_stage(), PlantStage::ResolveDestination);
    assert!(matches!(&action, PlantAction::RemoveDir { path } if path == "out/demo"));
    let (state, action) = plant_seed(&request, state, PlantEvent::Completed);
    assert_eq!(state.current_stage(), PlantStage::ResolveSilo);
    assert!(matches!(&action, PlantAction::ProbeSilo { .. }));

    let (state, _) = plant_seed(&request, PlantState::Created, PlantEvent::Started);
    let (_, action) = plant_seed(&request, state, PlantEvent::Found(PathKind::File));
    assert!(matches!(&action, PlantAction::RemoveFile { path } if path == "out/demo"));

    let (state, _) = plant_seed(&request, PlantState::Created, PlantEvent::Started);
    let (state, action) = plant_seed(&request, state, PlantEvent::Found(PathKind::Other));
    assert_eq!(state.current_stage(), PlantStage::ResolveSilo);
    assert!(matches!(&action, PlantAction::ProbeSilo { .. }));
}

#[test]
fn plant_walks_a_local_silo() {
    let mut request = plant_request(false, &[]);
    request.silo_url = "./my-silo".to_string();
    let (state, _) = plant_seed(&request, PlantState::Created, PlantEvent::Started);
    let (state, _) = plant_seed(&request, state, PlantEvent::Found(PathKind::Absent));
    let (state, action) = plant_seed(&request, state, PlantEvent::Found(PathKind::Dir));
    assert_eq!(state.current_stage(), PlantStage::ResolveSilo);
    assert!(matches!(&action, PlantAction::WalkSilo { root } if root == "./my-silo"));
    let (_, action) = plant_seed(&request, PlantState::ProbingSilo, PlantEvent::Found(PathKind::File));
    assert!(matches!(&action, PlantAction::FetchSilo { .. }));
}

#[test]
fn plant_of_unknown_seed_fails() {
    let request = plant_request(false, &[]);
    let mut other = plant_starter(None);
    other.name = "other".to_string();
    let (state, action) = plant_seed(&request, PlantState::ReadingSilo, PlantEvent::Seeds(vec![other]));
    assert_eq!(state.current_stage(), PlantStage::Failed);
    assert!(matches!(
        &action,
        PlantAction::Abort { stage: PlantStage::LocateSeed, message }
            if message == "Seed web@starter is not found in the silo"
    ));
    let (state, _) = plant_seed(&request, PlantState::ReadingSilo, PlantEvent::Seeds(Vec::new()));
    assert_eq!(state.current_stage(), PlantStage::Failed);
}

#[test]
fn plant_takes_first_seed_of_a_name() {
    let request = plant_request(false, &[]);
    let mut first = plant_starter(None);
    first.repo_path = "one".to_string();
    let mut second = plant_starter(None);
    second.repo_path = "two/".to_string();
    let (_, action) =
        plant_seed(&request, PlantState::ReadingSilo, PlantEvent::Seeds(vec![first, second.clone()]));
    assert!(matches!(&action, PlantAction::FetchPayload { pattern, .. } if pattern == "one/*"));
    let (_, action) = plant_seed(&request, PlantState::ReadingSilo, PlantEvent::Seeds(vec![second]));
    assert!(matches!(&action, PlantAction::FetchPayload { pattern, .. } if pattern == "two/*"));
    let (_, action) =
        plant_seed(&request, PlantState::ReadingSilo, PlantEvent::Seeds(vec![plant_starter(None)]));
    assert!(matches!(&action, PlantAction::FetchPayload { pattern, .. } if pattern == "*"));
}

#[test]
fn plant_without_required_variable_fails() {
    let request = plant_request(false, &[]);
    let state = plant_until_copied(&request, plant_starter(plant_title_schema()));
    let (state, action) = plant_seed(&request, state, PlantEvent::Completed);
    assert_eq!(state.current_stage(), PlantStage::Failed);
    assert!(matches!(
        &action,
        PlantAction::Abort { stage: PlantStage::ResolveVariables, message }
            if message == "Template variable title is required but not a value given"
    ));
}

#[test]
fn plant_with_malformed_assignment_fails() {
    let request = plant_request(false, &["title"]);
    let state = plant_until_copied(&request, plant_starter(plant_title_schema()));
    let (state, action) = plant_seed(&request, state, PlantEvent::Completed);
    assert_eq!(state.current_stage(), PlantStage::Failed);
    assert!(matches!(
        &action,
        PlantAction::Abort { stage: PlantStage::ResolveVariables, message }
            if message == "Invalid variable format: title. Use 'key=value'"
    ));
}

#[test]
fn plant_of_seed_without_variables_needs_no_input() {
    let request = plant_request(false, &[]);
    let state = plant_until_copied(&request, plant_starter(None));
    let (state, action) = plant_seed(&request, state, PlantEvent::Completed);
    assert_eq!(state.current_stage(), PlantStage::Render);
    match action {
        PlantAction::Render { bindings, .. } => {
            let outcome = plant_render_file("f", "static {{ project_name }}", &bindings);
            assert!(matches!(outcome, FileOutcome::Rewrite { content } if content == "static demo"));
            let plain = plant_render_file("g", "no tags at all", &bindings);
            assert!(matches!(plain, FileOutcome::Rewrite { content } if content == "no tags at all"));
        }
        other => panic!("unexpected action: {:?}", other),
    }
}

#[test]
fn plant_gives_up_on_any_failure() {
    let request = plant_request(true, &[]);
    let states = vec![
        PlantState::Created,
        PlantState::ProbingDestination,
        PlantState::ClearingDestination,
        PlantState::ProbingSilo,
        PlantState::ReadingSilo,
        PlantState::FetchingPayload { seed: plant_starter(None) },
        PlantState::CopyingPayload { seed: plant_starter(None) },
        PlantState::Rendering,
        PlantState::CleaningUp,
    ];
    for state in states {
        let at = state.current_stage();
        let (next, action) = plant_seed(&request, state, PlantEvent::Failed("fatal: boom".to_string()));
        assert_eq!(next.current_stage(), PlantStage::Failed);
        assert!(matches!(
            &action,
            PlantAction::Abort { stage, message } if message == "fatal: boom" && *stage == at
        ));
    }
}

#[test]
fn plant_stays_ended() {
    let request = plant_request(false, &[]);
    let (next, action) = plant_seed(&request, PlantState::Done, PlantEvent::Completed);
    assert_eq!(next.current_stage(), PlantStage::Done);
    assert!(matches!(&action, PlantAction::Finish { .. }));
    let (next, action) = plant_seed(&request, PlantState::Done, PlantEvent::Failed("late".to_string()));
    assert_eq!(next.current_stage(), PlantStage::Done);
    assert!(matches!(&action, PlantAction::Finish { .. }));
    let (next, action) = plant_seed(&request, PlantState::Failed, PlantEvent::Completed);
    assert_eq!(next.current_stage(), PlantStage::Failed);
    assert!(matches!(&action, PlantAction::Abort { .. }));
}

#[test]
fn plant_refuses_answers_out_of_turn() {
    let request = plant_request(false, &[]);
    let (next, action) = plant_seed(&request, PlantState::Created, PlantEvent::Completed);
    assert_eq!(next.current_stage(), PlantStage::Failed);
    assert!(matches!(
        &action,
        PlantAction::Abort { stage: PlantStage::ResolveDestination, message }
            if message == "Unexpected answer for the stage of the run"
    ));
    let (next, _) = plant_seed(&request, PlantState::Rendering, PlantEvent::Found(PathKind::Dir));
    assert_eq!(next.current_stage(), PlantStage::Failed);
    let (next, _) = plant_seed(&request, PlantState::CleaningUp, PlantEvent::Started);
    assert_eq!(next.current_stage(), PlantStage::Failed);
}
