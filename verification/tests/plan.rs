use ibs::plan::{build_plan, deploy_plan, resolve_scheme, setup_plan, Plan, PlanError, Step};

fn expect_create_dir(step: &Step, path: &str) {
    match step {
        Step::CreateDir { path: p } => assert_eq!(p, path),
        _ => panic!("expected a create-directory step"),
    }
}

fn expect_enter_dir(step: &Step, path: &str) {
    match step {
        Step::EnterDir { path: p } => assert_eq!(p, path),
        _ => panic!("expected an enter-directory step"),
    }
}

fn expect_write_file(step: &Step, path: &str) -> String {
    match step {
        Step::WriteFile { path: p, contents } => {
            assert_eq!(p, path);
            contents.clone()
        }
        _ => panic!("expected a write-file step"),
    }
}

fn expect_run(step: &Step, program: &str, args: &[&str]) {
    match step {
        Step::Run { cmd } => {
            assert_eq!(cmd.program, program);
            let mut got: Vec<&str> = Vec::new();
            for a in &cmd.args {
                got.push(a.as_str());
            }
            assert_eq!(got, args);
        }
        _ => panic!("expected a run step"),
    }
}

fn expect_prepare(steps: &[Step]) {
    expect_create_dir(&steps[0], "intermediate/logs");
    expect_create_dir(&steps[1], "intermediate/build");
    expect_run(
        &steps[2],
        "xattr",
        &["-w", "com.apple.xcode.CreatedByBuildSystem", "true", "intermediate/build"],
    );
}

#[test]
fn setup_plan_scaffolds_generates_and_commits() {
    let p: Plan = setup_plan("DemoApp", "ABCDE12345");
    assert!(p.failure.is_none());
    assert_eq!(p.steps.len(), 12);
    expect_create_dir(&p.steps[0], "DemoApp");
    expect_enter_dir(&p.steps[1], "DemoApp");
    let yml = expect_write_file(&p.steps[2], "project.yml");
    assert!(yml.starts_with("name: DemoApp\noptions:"));
    assert!(yml.contains("developmentTeam: ABCDE12345\n"));
    expect_create_dir(&p.steps[3], "Sources");
    let plist = expect_write_file(&p.steps[4], "Sources/Info.plist");
    assert!(plist.contains("<key>CFBundleIdentifier</key>"));
    let storyboard = expect_write_file(&p.steps[5], "Sources/LaunchScreen.storyboard");
    assert!(storyboard.contains("launchScreen=\"YES\""));
    let delegate = expect_write_file(&p.steps[6], "Sources/AppDelegate.swift");
    assert!(delegate.starts_with("import UIKit"));
    expect_run(&p.steps[7], "xcodegen", &["generate"]);
    expect_run(&p.steps[8], "git", &["init"]);
    let ignore = expect_write_file(&p.steps[9], ".gitignore");
    assert!(ignore.starts_with(".DS_Store\n"));
    expect_run(&p.steps[10], "git", &["add", "."]);
    expect_run(&p.steps[11], "git", &["commit", "-m", "Initial commit"]);
}

#[test]
fn build_plan_prepares_cleans_and_builds() {
    let p = build_plan("Debug", Some("TEAM42"), "DemoApp");
    assert!(p.failure.is_none());
    assert_eq!(p.steps.len(), 5);
    expect_prepare(&p.steps);
    expect_run(
        &p.steps[3],
        "xcodebuild",
        &[
            "clean",
            "-scheme",
            "DemoApp",
            "-configuration",
            "Debug",
            "-sdk",
            "iphoneos",
            "CONFIGURATION_BUILD_DIR=intermediate/build",
            "ONLY_ACTIVE_ARCH=NO",
        ],
    );
    expect_run(
        &p.steps[4],
        "xcodebuild",
        &[
            "build",
            "-scheme",
            "DemoApp",
            "-configuration",
            "Debug",
            "-sdk",
            "iphoneos",
            "-allowProvisioningUpdates",
            "CONFIGURATION_BUILD_DIR=intermediate/build",
            "ONLY_ACTIVE_ARCH=NO",
            "DEVELOPMENT_TEAM",
            "TEAM42",
            "CODE_SIGN_STYLE=Automatic",
        ],
    );
}

#[test]
fn deploy_plan_to_device_mounts_and_installs() {
    let p = deploy_plan("device", None, "Release", Some("TEAM42"), "DemoApp");
    assert!(p.failure.is_none());
    assert_eq!(p.steps.len(), 6);
    expect_prepare(&p.steps);
    expect_run(
        &p.steps[3],
        "xcodebuild",
        &[
            "build",
            "-scheme",
            "DemoApp",
            "-configuration",
            "Release",
            "-sdk",
            "iphoneos",
            "-allowProvisioningUpdates",
            "CONFIGURATION_BUILD_DIR=intermediate/build",
            "ONLY_ACTIVE_ARCH=NO",
            "DEVELOPMENT_TEAM=TEAM42",
            "CODE_SIGN_STYLE=Automatic",
        ],
    );
    expect_run(&p.steps[4], "xcrun", &["xcodebuild", "-runFirstLaunch"]);
    expect_run(
        &p.steps[5],
        "ios-deploy",
        &["--bundle", "intermediate/build/DemoApp.app"],
    );
}

#[test]
fn deploy_plan_to_simulator_boots_installs_and_launches() {
    let p = deploy_plan("simulator", Some("SIM-1234"), "Debug", None, "DemoApp");
    assert!(p.failure.is_none());
    assert_eq!(p.steps.len(), 7);
    expect_prepare(&p.steps);
    expect_run(
        &p.steps[3],
        "xcodebuild",
        &[
            "build",
            "-scheme",
            "DemoApp",
            "-configuration",
            "Debug",
            "-sdk",
            "iphonesimulator",
            "-destination",
            "id=SIM-1234",
            "CONFIGURATION_BUILD_DIR=intermediate/build",
        ],
    );
    expect_run(&p.steps[4], "xcrun", &["simctl", "boot", "SIM-1234"]);
    expect_run(
        &p.steps[5],
        "xcrun",
        &["simctl", "install", "SIM-1234", "intermediate/build/DemoApp.app"],
    );
    expect_run(
        &p.steps[6],
        "xcrun",
        &["simctl", "launch", "SIM-1234", "com.example.DemoApp"],
    );
}

#[test]
fn deploy_plan_to_simulator_without_id_fails_after_preparing() {
    let p = deploy_plan("simulator", None, "Debug", None, "DemoApp");
    assert_eq!(p.failure, Some(PlanError::MissingSimulatorId));
    assert_eq!(p.steps.len(), 3);
    expect_prepare(&p.steps);
}

#[test]
fn deploy_plan_to_unknown_target_fails_after_preparing() {
    let p = deploy_plan("watch", None, "Debug", None, "DemoApp");
    assert_eq!(p.failure, Some(PlanError::InvalidTarget));
    assert_eq!(p.steps.len(), 3);
    expect_prepare(&p.steps);
}

#[test]
fn resolve_scheme_prefers_the_explicit_request() {
    assert_eq!(resolve_scheme(Some("Custom"), "Found"), "Custom");
    assert_eq!(resolve_scheme(None, "Found"), "Found");
}
