use mcpify::auth_profile::{AuthSchemeDescriptor, AuthSchemeKind};
use mcpify::commands::{command_outcome, decimal, exit_code_debug, failure_message, run_failure_message, spawn_failure_message, timeout_message};
use mcpify::context::GeneratorContext;
use mcpify::lifecycle::{after_step, first_directive, Directive, Step, StepWork};
use mcpify::plan::Action;
use mcpify::targets::csharp::CSharpTargetGenerator;
use mcpify::targets::rust::RustTargetGenerator;
use mcpify::targets::typescript::TypeScriptTargetGenerator;
use mcpify::text::tail;

fn ctx_with_schemes(auth_schemes: Vec<AuthSchemeDescriptor>) -> GeneratorContext {
    GeneratorContext {
        publish_registry: false,
        openapi_input: "spec.yaml".to_string(),
        output_dir: "/tmp/parent/output".to_string(),
        force: false,
        output_dir_preexisted: false,
        auth_schemes,
        normalized_operations: Vec::new(),
        api_title: "Widget API".to_string(),
        version_label: "default".to_string(),
    }
}

fn descriptor(name: &str, kind: AuthSchemeKind) -> AuthSchemeDescriptor {
    AuthSchemeDescriptor {
        name: name.to_string(),
        kind,
        location: None,
        scopes: Vec::new(),
        authorization_url: None,
        token_url: None,
    }
}

fn rendered(actions: &[Action]) -> Vec<String> {
    actions
        .iter()
        .filter_map(|a| match a {
            Action::Render { out_path, .. } => Some(out_path.clone()),
            _ => None,
        })
        .collect()
}

fn created_dirs(actions: &[Action]) -> Vec<String> {
    actions
        .iter()
        .filter_map(|a| match a {
            Action::CreateDir { path } => Some(path.clone()),
            _ => None,
        })
        .collect()
}

#[test]
fn reports_its_name() {
    assert_eq!(TypeScriptTargetGenerator.name(), "typescript");
    assert_eq!(RustTargetGenerator.name(), "rust");
}

#[test]
fn mod_reports_its_name() {
    assert_eq!(CSharpTargetGenerator.name(), "csharp");
}

#[test]
fn tail_returns_whole_string_when_shorter_than_limit() {
    assert_eq!(tail("hello", 100), "hello");
}

#[test]
fn run_tests_tail_returns_whole_string_when_shorter_than_limit() {
    assert_eq!(tail("hello", 5), "hello");
    assert_eq!(tail("", 4000), "");
}

#[test]
fn tail_truncates_to_the_last_n_chars() {
    assert_eq!(tail("abcdefgh", 3), "fgh");
}

#[test]
fn run_tests_tail_truncates_to_the_last_n_chars() {
    assert_eq!(tail("abcdefgh", 3), "fgh");
    assert_eq!(tail("abcdefgh", 0), "");
}

#[test]
fn tail_does_not_panic_on_multi_byte_characters() {
    let s = "🦀".repeat(10);
    assert_eq!(tail(&s, 3), "🦀🦀🦀");
}

#[test]
fn run_tests_tail_does_not_panic_on_multi_byte_characters() {
    let s = "🦀".repeat(10);
    assert_eq!(tail(&s, 3), "🦀🦀🦀");
    assert_eq!(tail("héllo", 4), "éllo");
}

#[test]
fn execute_stops_at_first_failing_step() {
    let first = first_directive();
    assert_eq!(first, Directive::Run(Step::BootstrapProject));
    let next = after_step(Step::BootstrapProject, false, true);
    assert_eq!(next, Directive::Finish { success: false, remove_output_dir: false });
}

#[test]
fn execute_removes_output_dir_on_failure_when_freshly_created() {
    let next = after_step(Step::BootstrapProject, false, false);
    assert_eq!(next, Directive::Finish { success: false, remove_output_dir: true });
}

#[test]
fn execute_preserves_output_dir_on_failure_when_preexisted() {
    let next = after_step(Step::GenerateMcpTools, false, true);
    assert_eq!(next, Directive::Finish { success: false, remove_output_dir: false });
}

#[test]
fn execute_runs_every_step_in_order_when_all_succeed() {
    let mut ran = Vec::new();
    let mut d = first_directive();
    while let Directive::Run(step) = d {
        ran.push(step);
        d = after_step(step, true, false);
    }
    assert_eq!(
        ran,
        vec![
            Step::BootstrapProject,
            Step::GenerateEnterpriseScaffolding,
            Step::GenerateAuthStrategies,
            Step::GenerateTransportsAndRoles,
            Step::GenerateMcpTools,
            Step::GenerateSetupWizardAndTests,
            Step::RunGeneratedTests,
        ]
    );
    assert_eq!(d, Directive::Finish { success: true, remove_output_dir: false });
}

#[test]
fn typescript_auth_basic_and_oauth2_fixture_emits_exactly_the_expected_files() {
    let ctx = ctx_with_schemes(vec![
        descriptor("basicAuth", AuthSchemeKind::Basic),
        descriptor("oauth2", AuthSchemeKind::OAuth2),
    ]);
    let plan = mcpify::targets::typescript::steps::auth::generate_auth_strategies(&ctx);
    assert_eq!(
        rendered(&plan),
        vec![
            "src/auth/auth-strategy.ts",
            "src/auth/errors.ts",
            "src/auth/strategies/stub.ts",
            "src/auth/auth-manager.ts",
            "src/auth/strategies/basic.ts",
            "src/auth/strategies/oauth2.ts",
        ]
    );
}

#[test]
fn auth_duplicate_scheme_kind_only_emits_one_strategy_file() {
    let ctx = ctx_with_schemes(vec![
        descriptor("apiKeyOne", AuthSchemeKind::ApiKey),
        descriptor("apiKeyTwo", AuthSchemeKind::ApiKey),
    ]);
    let plan = mcpify::targets::csharp::steps::auth::generate_auth_strategies(&ctx);
    let outs = rendered(&plan);
    let count = outs.iter().filter(|p| p.as_str() == "Auth/Strategies/ApiKeyAuthStrategy.cs").count();
    assert_eq!(count, 1);
    assert_eq!(outs.len(), 6);
}

#[test]
fn setup_and_tests_duplicate_scheme_kind_only_emits_one_auth_test_file() {
    let ctx = ctx_with_schemes(vec![
        descriptor("apiKeyOne", AuthSchemeKind::ApiKey),
        descriptor("apiKeyTwo", AuthSchemeKind::ApiKey),
    ]);
    let plan = mcpify::targets::python::steps::setup_and_tests::generate_setup_wizard_and_tests(&ctx);
    let outs = rendered(&plan);
    assert_eq!(outs.iter().filter(|p| p.as_str() == "tests/unit/auth/test_api_key.py").count(), 1);
    assert_eq!(outs[0], "src/output/cli/setup_wizard.py");
}

#[test]
fn no_schemes_emits_no_auth_test_files() {
    let ctx = ctx_with_schemes(Vec::new());
    let plan = mcpify::targets::go::steps::setup_and_tests::generate_setup_wizard_and_tests(&ctx);
    assert_eq!(plan.len(), 7);
    assert!(rendered(&plan).iter().all(|p| !p.starts_with("internal/auth/")));
}

#[test]
fn all_five_kinds_emit_every_test_file_and_no_others() {
    let ctx = ctx_with_schemes(vec![
        descriptor("a", AuthSchemeKind::OAuth1),
        descriptor("b", AuthSchemeKind::Basic),
        descriptor("c", AuthSchemeKind::ApiKey),
        descriptor("d", AuthSchemeKind::BearerPat),
        descriptor("e", AuthSchemeKind::OAuth2),
    ]);
    let plan = mcpify::targets::go::steps::setup_and_tests::generate_setup_wizard_and_tests(&ctx);
    let outs = rendered(&plan);
    assert_eq!(
        outs[7..].to_vec(),
        vec![
            "internal/auth/oauth1_test.go",
            "internal/auth/basic_test.go",
            "internal/auth/apikey_test.go",
            "internal/auth/pat_test.go",
            "internal/auth/oauth2_test.go",
        ]
    );
}

#[test]
fn bootstrap_creates_every_source_subdirectory() {
    let ctx = ctx_with_schemes(Vec::new());
    let plan = mcpify::targets::typescript::steps::bootstrap::bootstrap_project(&ctx);
    assert_eq!(
        created_dirs(&plan),
        vec![
            "src/auth", "src/cli", "src/core", "src/data", "src/http", "src/services", "src/tools",
            "src/validation",
        ]
    );
    assert_eq!(rendered(&plan).len(), 6);
}

#[test]
fn creates_every_source_subdirectory_with_an_init_file() {
    let ctx = ctx_with_schemes(Vec::new());
    let plan = mcpify::targets::python::steps::bootstrap::bootstrap_project(&ctx);
    assert!(matches!(&plan[0], Action::CreateDir { path } if path == "src/output/auth"));
    assert!(matches!(&plan[1], Action::WriteEmpty { path } if path == "src/output/auth/__init__.py"));
    assert!(matches!(plan.last().unwrap(), Action::Render { template, out_path }
        if template == "package_init.py.tera" && out_path == "src/output/__init__.py"));
}

#[test]
fn creates_the_cmd_binary_and_populate_embeddings_directories() {
    let ctx = ctx_with_schemes(Vec::new());
    let dirs = created_dirs(&mcpify::targets::go::steps::bootstrap::bootstrap_project(&ctx));
    assert!(dirs.contains(&"cmd/output".to_string()));
    assert!(dirs.contains(&"cmd/populate-embeddings".to_string()));
    let transports = mcpify::targets::go::steps::transports::generate_transports_and_roles(&ctx);
    assert_eq!(rendered(&transports).last().unwrap(), "cmd/output/main.go");
}

#[test]
fn writes_the_csproj_named_after_the_pascal_case_namespace() {
    let ctx = ctx_with_schemes(Vec::new());
    let plan = mcpify::targets::csharp::steps::bootstrap::bootstrap_project(&ctx, "WidgetMcp");
    assert!(rendered(&plan).contains(&"WidgetMcp.csproj".to_string()));
    let setup = mcpify::targets::csharp::steps::setup_and_tests::generate_setup_wizard_and_tests(&ctx, "WidgetMcp");
    assert!(rendered(&setup).contains(&"Tests/WidgetMcp.Tests.csproj".to_string()));
}

#[test]
fn tools_step_writes_the_schemas_asset_and_compresses_the_rust_store() {
    let ctx = ctx_with_schemes(Vec::new());
    let plan = mcpify::targets::rust::steps::tools::generate_mcp_tools(&ctx);
    let n = plan.len();
    assert!(matches!(&plan[n - 2], Action::WriteSchemas { path } if path == "src/validation/generated_schemas.json.zst"));
    assert!(matches!(&plan[n - 1], Action::CompressStore { path } if path == "mcp_store.db"));
    let py = mcpify::targets::python::steps::tools::generate_mcp_tools(&ctx);
    assert!(matches!(py.last().unwrap(), Action::WriteSchemas { path } if path == "src/output/validation/generated_schemas.json"));
}

#[test]
fn typescript_steps_follow_their_plans_and_rust_later_steps_fail() {
    let ctx = ctx_with_schemes(Vec::new());
    assert!(matches!(TypeScriptTargetGenerator.step_work(&ctx, Step::GenerateMcpTools), StepWork::Files(_)));
    match TypeScriptTargetGenerator.step_work(&ctx, Step::RunGeneratedTests) {
        StepWork::Commands { commands, timeout_secs } => {
            assert_eq!(timeout_secs, 300);
            assert_eq!(commands[0].label, "npm install");
            assert_eq!(commands.len(), 7);
        },
        _ => panic!("the test step must run the npm commands"),
    }
    assert!(matches!(TypeScriptTargetGenerator.step_work(&ctx, Step::BootstrapProject), StepWork::Files(_)));
    assert_eq!(
        RustTargetGenerator.unimplemented_step(Step::GenerateMcpTools).unwrap(),
        "rust target: generate_mcp_tools not yet implemented (Story R6)"
    );
    assert!(RustTargetGenerator.unimplemented_step(Step::GenerateEnterpriseScaffolding).is_none());
}

#[test]
fn csharp_test_step_runs_dotnet_restore_format_and_test() {
    let ctx = ctx_with_schemes(Vec::new());
    match CSharpTargetGenerator.step_work(&ctx, "WidgetMcp", Step::RunGeneratedTests) {
        StepWork::Commands { commands, timeout_secs } => {
            assert_eq!(timeout_secs, 900);
            let labels: Vec<&str> = commands.iter().map(|c| c.label.as_str()).collect();
            assert_eq!(labels, vec!["dotnet restore", "dotnet format", "dotnet test Tests"]);
            assert_eq!(commands[2].args, vec!["test", "Tests", "-p:TreatWarningsAsErrors=true", "-p:WarningsNotAsErrors=NU1903"]);
        },
        _ => panic!("expected commands"),
    }
}

#[test]
fn rust_and_python_test_commands_name_the_project() {
    let ctx = ctx_with_schemes(Vec::new());
    let rs = mcpify::targets::rust::steps::run_tests::run_generated_tests(&ctx);
    assert_eq!(rs[2].args, vec!["run", "--bin", "output-populate-embeddings"]);
    assert_eq!(rs[2].label, "cargo run --bin output-populate-embeddings");
    let py = mcpify::targets::python::steps::run_tests::run_generated_tests(&ctx);
    assert_eq!(py[3].args, vec!["run", "python", "-m", "output.services.populate_embeddings"]);
    let go = mcpify::targets::go::steps::run_tests::run_generated_tests(&ctx);
    assert_eq!(go[2].program, "golangci-lint");
    let ts = mcpify::targets::typescript::steps::run_tests::run_generated_tests(&ctx);
    assert_eq!(ts.len(), 7);
    assert_eq!(ts[6].args, vec!["pack", "--dry-run", "--json"]);
}

#[test]
fn failure_report_carries_exit_code_and_stream_tails() {
    let long = "x".repeat(4100);
    let msg = failure_message("npm test", Some(1), "out", &long);
    assert!(msg.starts_with("'npm test' failed (exit Some(1))\n--- stdout (tail) ---\nout\n--- stderr (tail) ---\n"));
    assert_eq!(msg.len(), "'npm test' failed (exit Some(1))\n--- stdout (tail) ---\nout\n--- stderr (tail) ---\n".len() + 4000);
    assert_eq!(exit_code_debug(None), "None");
    assert_eq!(exit_code_debug(Some(-2147483648)), "Some(-2147483648)");
    assert_eq!(decimal(0), "0");
    assert_eq!(decimal(18446744073709551615), "18446744073709551615");
    assert!(command_outcome("go build ./...", true, Some(0), "", "").is_ok());
    assert_eq!(command_outcome("x", false, None, "", "").unwrap_err(), "'x' failed (exit None)\n--- stdout (tail) ---\n\n--- stderr (tail) ---\n");
    assert_eq!(timeout_message("uv sync", 900), "'uv sync' timed out after 900s");
    assert_eq!(spawn_failure_message("go mod tidy", "/tmp/out"), "failed to spawn 'go mod tidy' in '/tmp/out'");
    assert_eq!(run_failure_message("cargo fmt"), "failed to run 'cargo fmt'");
}

#[test]
fn execute_runs_steps_up_to_and_including_the_first_failure() {
    let mut ran = Vec::new();
    let mut d = first_directive();
    while let Directive::Run(step) = d {
        ran.push(step);
        d = after_step(step, step != Step::GenerateAuthStrategies, false);
    }
    assert_eq!(
        ran,
        vec![Step::BootstrapProject, Step::GenerateEnterpriseScaffolding, Step::GenerateAuthStrategies]
    );
    assert_eq!(d, Directive::Finish { success: false, remove_output_dir: true });
}
