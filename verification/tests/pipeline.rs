use brpc_rs::pipeline::{
    apply_pass_outcome, bridging_pass_args, file_name_of, find_in_path, join_path, link_libs,
    native_pass_args, native_source_files, next_pass, plan_pipeline, with_extension,
};
use brpc_rs::{BuildError, PipelineConfig, PipelinePass, PipelineState};

fn sample_config() -> PipelineConfig {
    PipelineConfig {
        protos: vec!["src/echo.proto".to_string()],
        includes: vec!["src".to_string()],
        out_dir: "out".to_string(),
    }
}

#[test]
fn find_in_path_first_match_wins() {
    let dirs = vec!["/a".to_string(), "/b".to_string(), "/c".to_string()];
    let exe = "protoc-gen-brpc".to_string();
    let present = vec![false, true, true];
    let found = find_in_path(&dirs, &exe, &present);
    assert_eq!(found, Some("/b/protoc-gen-brpc".to_string()));
}

#[test]
fn find_in_path_absent_everywhere() {
    let dirs = vec!["/a".to_string(), "/b".to_string()];
    let exe = "protoc-gen-brpc".to_string();
    let present = vec![false, false];
    assert_eq!(find_in_path(&dirs, &exe, &present), None);
}

#[test]
fn join_path_inserts_separator() {
    assert_eq!(join_path(&"out".to_string(), &"echo.proto".to_string()), "out/echo.proto");
}

#[test]
fn file_name_is_suffix_after_last_separator() {
    assert_eq!(file_name_of(&"src/echo.proto".to_string()), Some("echo.proto".to_string()));
    assert_eq!(file_name_of(&"echo.proto".to_string()), Some("echo.proto".to_string()));
    assert_eq!(file_name_of(&"a/b/c.proto".to_string()), Some("c.proto".to_string()));
    assert_eq!(file_name_of(&"src/".to_string()), None);
    assert_eq!(file_name_of(&"".to_string()), None);
}

#[test]
fn extension_is_replaced_after_last_dot() {
    assert_eq!(with_extension(&"echo.proto".to_string(), "brpc.cc"), "echo.brpc.cc");
    assert_eq!(with_extension(&"echo.proto".to_string(), "pb.cc"), "echo.pb.cc");
    assert_eq!(with_extension(&"echo".to_string(), "cc"), "echo.cc");
    assert_eq!(with_extension(&"a.b.c".to_string(), "cc"), "a.b.cc");
}

#[test]
fn bridging_pass_command_line() {
    let cfg = sample_config();
    let args = bridging_pass_args(&cfg, &"/usr/bin/protoc-gen-brpc".to_string());
    assert_eq!(
        args,
        vec![
            "-I".to_string(),
            "src".to_string(),
            "src/echo.proto".to_string(),
            "--plugin=protoc-gen=brpc=/usr/bin/protoc-gen-brpc".to_string(),
            "--brpc_out".to_string(),
            "out".to_string(),
        ]
    );
}

#[test]
fn native_pass_reads_generated_copies_not_inputs() {
    let cfg = sample_config();
    let args = native_pass_args(&cfg).unwrap();
    assert_eq!(
        args,
        vec![
            "-I".to_string(),
            "out".to_string(),
            "out/echo.proto".to_string(),
            "--cpp_out".to_string(),
            "out".to_string(),
        ]
    );
}

#[test]
fn native_sources_per_schema_file() {
    let cfg = PipelineConfig {
        protos: vec!["src/echo.proto".to_string(), "src/chat.proto".to_string()],
        includes: vec!["src".to_string()],
        out_dir: "out".to_string(),
    };
    let files = native_source_files(&cfg).unwrap();
    assert_eq!(
        files,
        vec![
            "out/echo.brpc.cc".to_string(),
            "out/echo.pb.cc".to_string(),
            "out/chat.brpc.cc".to_string(),
            "out/chat.pb.cc".to_string(),
        ]
    );
}

#[test]
fn schema_path_without_file_name_is_rejected() {
    let cfg = PipelineConfig {
        protos: vec!["src/".to_string()],
        includes: vec!["src".to_string()],
        out_dir: "out".to_string(),
    };
    assert_eq!(native_pass_args(&cfg), Err(BuildError::InvalidFileName));
    assert_eq!(native_source_files(&cfg), Err(BuildError::InvalidFileName));
    let plan = plan_pipeline(&cfg, &Some("/usr/bin/protoc-gen-brpc".to_string()));
    assert!(matches!(plan, Err(BuildError::InvalidFileName)));
}

#[test]
fn absent_plugin_aborts_before_any_pass() {
    let cfg = sample_config();
    let plan = plan_pipeline(&cfg, &None);
    assert!(matches!(plan, Err(BuildError::PluginNotFound)));
}

#[test]
fn planning_twice_gives_identical_plans() {
    let plugin = Some("/usr/bin/protoc-gen-brpc".to_string());
    let first = plan_pipeline(&sample_config(), &plugin).unwrap();
    let second = plan_pipeline(&sample_config(), &plugin).unwrap();
    assert_eq!(first.plugin_path, second.plugin_path);
    assert_eq!(first.bridging_args, second.bridging_args);
    assert_eq!(first.native_args, second.native_args);
    assert_eq!(first.native_sources, second.native_sources);
}

#[test]
fn passes_run_in_fixed_order() {
    assert_eq!(next_pass(&PipelineState::Ready), Some(PipelinePass::StructuralCodegen));
    assert_eq!(next_pass(&PipelineState::StructuralDone), Some(PipelinePass::BridgingCodegen));
    assert_eq!(next_pass(&PipelineState::BridgingDone), Some(PipelinePass::NativeCompilation));
    assert_eq!(next_pass(&PipelineState::Complete), None);
}

#[test]
fn successful_passes_advance_the_run() {
    let s1 = apply_pass_outcome(&PipelineState::Ready, true, String::new()).unwrap();
    assert_eq!(s1, PipelineState::StructuralDone);
    let s2 = apply_pass_outcome(&s1, true, String::new()).unwrap();
    assert_eq!(s2, PipelineState::BridgingDone);
    let s3 = apply_pass_outcome(&s2, true, String::new()).unwrap();
    assert_eq!(s3, PipelineState::Complete);
}

#[test]
fn failing_pass_aborts_with_diagnostics() {
    let r = apply_pass_outcome(
        &PipelineState::StructuralDone,
        false,
        "echo.proto:3: message not found".to_string(),
    );
    assert_eq!(r, Err(BuildError::ProcessFailed("echo.proto:3: message not found".to_string())));
}

#[test]
fn fixed_linkage_set() {
    assert_eq!(
        link_libs(),
        vec![
            "brpc".to_string(),
            "protobuf".to_string(),
            "gflags".to_string(),
            "leveldb".to_string(),
            "ssl".to_string(),
            "crypto".to_string(),
        ]
    );
}
