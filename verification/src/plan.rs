//! The orchestrator's subcommands as verified plans.
//!
//! A plan is the complete, ordered list of effectful operations a
//! subcommand performs: directories created, files written, external
//! tools run. The plan functions here are pure — an unverified driver
//! walks the steps in order, aborting on the first operation that
//! fails — and their contracts give the whole step sequence for every
//! combination of inputs, including the two inputs the deploy
//! subcommand rejects.

use crate::invoke::{
    app_bundle_path, app_bundle_path_model, build_args, build_args_model, bundle_identifier,
    bundle_identifier_model, clean_args, clean_args_model, deploy_device_args,
    deploy_device_args_model, deploy_simulator_args, deploy_simulator_args_model, Cmd, CmdModel,
};
use crate::templates::{
    app_delegate, app_delegate_text, gitignore, gitignore_text, info_plist, info_plist_text,
    launch_screen, launch_screen_text, project_yml, project_yml_text,
};
use vstd::prelude::*;
use vstd::string::*;

verus! {

/// One effectful operation of the orchestrator.
pub enum Step {
    /// Create a directory and any missing parents.
    CreateDir { path: String },
    /// Make a directory the current working directory.
    EnterDir { path: String },
    /// Write a file, replacing any previous contents.
    WriteFile { path: String, contents: String },
    /// Run an external tool and wait for it to exit.
    Run { cmd: Cmd },
}

/// Spec-level image of a [`Step`].
#[verifier::ext_equal]
pub enum StepModel {
    CreateDir { path: Seq<char> },
    EnterDir { path: Seq<char> },
    WriteFile { path: Seq<char>, contents: Seq<char> },
    Run { cmd: CmdModel },
}

impl View for Step {
    type V = StepModel;

    open spec fn view(&self) -> StepModel {
        match self {
            Step::CreateDir { path } => StepModel::CreateDir { path: path@ },
            Step::EnterDir { path } => StepModel::EnterDir { path: path@ },
            Step::WriteFile { path, contents } => StepModel::WriteFile {
                path: path@,
                contents: contents@,
            },
            Step::Run { cmd } => StepModel::Run { cmd: cmd@ },
        }
    }
}

impl DeepView for Step {
    type V = StepModel;

    open spec fn deep_view(&self) -> StepModel {
        self.view()
    }
}

/// Why the deploy subcommand rejects its inputs.
#[derive(Clone, Copy, PartialEq, Eq, Structural, Debug)]
pub enum PlanError {
    /// The deployment target is neither `device` nor `simulator`.
    InvalidTarget,
    /// Simulator deployment was asked for without a simulator identifier.
    MissingSimulatorId,
}

/// A whole subcommand: the steps to perform, in order, and whether the
/// subcommand then fails anyway.
///
/// When `failure` is set the driver performs the steps and then reports
/// the error: the deploy subcommand checks its target only after
/// preparing the build directories, so even a rejected request leaves
/// the intermediate directories behind, and the plan keeps that order.
pub struct Plan {
    pub steps: Vec<Step>,
    pub failure: Option<PlanError>,
}

/// The step sequence of a plan, at the spec level.
pub open spec fn plan_steps(p: &Plan) -> Seq<StepModel> {
    p.steps.deep_view()
}

/// A tool invocation as a step.
pub open spec fn run_step(program: Seq<char>, args: Seq<Seq<char>>) -> StepModel {
    StepModel::Run { cmd: CmdModel { program, args } }
}

/// The steps of the setup subcommand: scaffold the project directory,
/// its configuration and sources, generate the project, and put the tree
/// under version control.
pub open spec fn setup_steps(name: Seq<char>, team: Seq<char>) -> Seq<StepModel> {
    seq![
        StepModel::CreateDir { path: name },
        StepModel::EnterDir { path: name },
        StepModel::WriteFile { path: "project.yml"@, contents: project_yml_text(name, team) },
        StepModel::CreateDir { path: "Sources"@ },
        StepModel::WriteFile { path: "Sources/Info.plist"@, contents: info_plist_text() },
        StepModel::WriteFile {
            path: "Sources/LaunchScreen.storyboard"@,
            contents: launch_screen_text(),
        },
        StepModel::WriteFile { path: "Sources/AppDelegate.swift"@, contents: app_delegate_text() },
        run_step("xcodegen"@, seq!["generate"@]),
        run_step("git"@, seq!["init"@]),
        StepModel::WriteFile { path: ".gitignore"@, contents: gitignore_text() },
        run_step("git"@, seq!["add"@, "."@]),
        run_step("git"@, seq!["commit"@, "-m"@, "Initial commit"@]),
    ]
}

/// The steps shared by building and deploying: create the intermediate
/// directories and mark the build directory as owned by the build system.
pub open spec fn prepare_steps() -> Seq<StepModel> {
    seq![
        StepModel::CreateDir { path: "intermediate/logs"@ },
        StepModel::CreateDir { path: "intermediate/build"@ },
        run_step(
            "xattr"@,
            seq!["-w"@, "com.apple.xcode.CreatedByBuildSystem"@, "true"@, "intermediate/build"@],
        ),
    ]
}

/// The steps of the build subcommand: prepare, clean, build for a device.
pub open spec fn build_steps(
    scheme: Seq<char>,
    configuration: Seq<char>,
    team: Option<Seq<char>>,
) -> Seq<StepModel> {
    prepare_steps() + seq![
        run_step("xcodebuild"@, clean_args_model(scheme, configuration)),
        run_step("xcodebuild"@, build_args_model(scheme, configuration, team)),
    ]
}

/// The steps of device deployment: prepare, build, mount the developer
/// disk image, install the bundle on the device.
pub open spec fn deploy_device_steps(
    scheme: Seq<char>,
    configuration: Seq<char>,
    team: Option<Seq<char>>,
) -> Seq<StepModel> {
    prepare_steps() + seq![
        run_step("xcodebuild"@, deploy_device_args_model(scheme, configuration, team)),
        run_step("xcrun"@, seq!["xcodebuild"@, "-runFirstLaunch"@]),
        run_step("ios-deploy"@, seq!["--bundle"@, app_bundle_path_model(scheme)]),
    ]
}

/// The steps of simulator deployment: prepare, build for the simulator,
/// boot it, install the bundle, launch the application.
pub open spec fn deploy_simulator_steps(
    scheme: Seq<char>,
    configuration: Seq<char>,
    simulator_id: Seq<char>,
    team: Option<Seq<char>>,
) -> Seq<StepModel> {
    prepare_steps() + seq![
        run_step(
            "xcodebuild"@,
            deploy_simulator_args_model(scheme, configuration, simulator_id, team),
        ),
        run_step("xcrun"@, seq!["simctl"@, "boot"@, simulator_id]),
        run_step("xcrun"@, seq!["simctl"@, "install"@, simulator_id, app_bundle_path_model(scheme)]),
        run_step(
            "xcrun"@,
            seq!["simctl"@, "launch"@, simulator_id, bundle_identifier_model(scheme)],
        ),
    ]
}

/// What the deploy subcommand does for every combination of inputs: the
/// step sequence it performs and the error, if any, it then reports.
pub open spec fn deploy_decision(
    target: Seq<char>,
    simulator_id: Option<Seq<char>>,
    scheme: Seq<char>,
    configuration: Seq<char>,
    team: Option<Seq<char>>,
) -> (Seq<StepModel>, Option<PlanError>) {
    if target == "device"@ {
        (deploy_device_steps(scheme, configuration, team), None)
    } else if target == "simulator"@ {
        match simulator_id {
            Some(sim) => (deploy_simulator_steps(scheme, configuration, sim, team), None),
            None => (prepare_steps(), Some(PlanError::MissingSimulatorId)),
        }
    } else {
        (prepare_steps(), Some(PlanError::InvalidTarget))
    }
}

/// One owned argument.
fn args1(a0: &str) -> (r: Vec<String>)
    ensures
        r.deep_view() == seq![a0@],
{
    let mut r: Vec<String> = Vec::new();
    r.push(String::from_str(a0));
    proof {
        assert(r.deep_view() =~~= seq![a0@]);
    }
    r
}

/// Two owned arguments.
fn args2(a0: &str, a1: &str) -> (r: Vec<String>)
    ensures
        r.deep_view() == seq![a0@, a1@],
{
    let mut r: Vec<String> = Vec::new();
    r.push(String::from_str(a0));
    r.push(String::from_str(a1));
    proof {
        assert(r.deep_view() =~~= seq![a0@, a1@]);
    }
    r
}

/// Three owned arguments.
fn args3(a0: &str, a1: &str, a2: &str) -> (r: Vec<String>)
    ensures
        r.deep_view() == seq![a0@, a1@, a2@],
{
    let mut r: Vec<String> = Vec::new();
    r.push(String::from_str(a0));
    r.push(String::from_str(a1));
    r.push(String::from_str(a2));
    proof {
        assert(r.deep_view() =~~= seq![a0@, a1@, a2@]);
    }
    r
}

/// Four owned arguments.
fn args4(a0: &str, a1: &str, a2: &str, a3: &str) -> (r: Vec<String>)
    ensures
        r.deep_view() == seq![a0@, a1@, a2@, a3@],
{
    let mut r: Vec<String> = Vec::new();
    r.push(String::from_str(a0));
    r.push(String::from_str(a1));
    r.push(String::from_str(a2));
    r.push(String::from_str(a3));
    proof {
        assert(r.deep_view() =~~= seq![a0@, a1@, a2@, a3@]);
    }
    r
}

/// An invocation of `program` with `args`.
fn run(program: &str, args: Vec<String>) -> (s: Step)
    ensures
        s@ == run_step(program@, args.deep_view()),
{
    Step::Run { cmd: Cmd { program: String::from_str(program), args } }
}

/// Appends the shared preparation steps.
fn push_prepare_steps(steps: &mut Vec<Step>)
    ensures
        final(steps).deep_view() == old(steps).deep_view() + prepare_steps(),
{
    steps.push(Step::CreateDir { path: String::from_str("intermediate/logs") });
    steps.push(Step::CreateDir { path: String::from_str("intermediate/build") });
    steps.push(
        run(
            "xattr",
            args4("-w", "com.apple.xcode.CreatedByBuildSystem", "true", "intermediate/build"),
        ),
    );
    proof {
        assert(steps.deep_view() =~~= old(steps).deep_view() + prepare_steps());
    }
}

/// Plans the setup subcommand for the given project name and signing
/// team. The plan scaffolds the project and never fails on its own.
pub fn setup_plan(project_name: &str, team_id: &str) -> (p: Plan)
    ensures
        plan_steps(&p) == setup_steps(project_name@, team_id@),
        p.failure is None,
{
    let mut steps: Vec<Step> = Vec::new();
    steps.push(Step::CreateDir { path: String::from_str(project_name) });
    steps.push(Step::EnterDir { path: String::from_str(project_name) });
    steps.push(
        Step::WriteFile {
            path: String::from_str("project.yml"),
            contents: project_yml(project_name, team_id),
        },
    );
    steps.push(Step::CreateDir { path: String::from_str("Sources") });
    steps.push(
        Step::WriteFile { path: String::from_str("Sources/Info.plist"), contents: info_plist() },
    );
    steps.push(
        Step::WriteFile {
            path: String::from_str("Sources/LaunchScreen.storyboard"),
            contents: launch_screen(),
        },
    );
    steps.push(
        Step::WriteFile {
            path: String::from_str("Sources/AppDelegate.swift"),
            contents: app_delegate(),
        },
    );
    steps.push(run("xcodegen", args1("generate")));
    steps.push(run("git", args1("init")));
    steps.push(Step::WriteFile { path: String::from_str(".gitignore"), contents: gitignore() });
    steps.push(run("git", args2("add", ".")));
    steps.push(run("git", args3("commit", "-m", "Initial commit")));
    proof {
        assert(steps.deep_view() =~~= setup_steps(project_name@, team_id@));
    }
    Plan { steps, failure: None }
}

/// Plans the build subcommand: prepare the intermediate directories,
/// clean, then build for a device with the given scheme, configuration
/// and optional signing team. The plan never fails on its own.
pub fn build_plan(configuration: &str, team_id: Option<&str>, scheme: &str) -> (p: Plan)
    ensures
        plan_steps(&p) == build_steps(scheme@, configuration@, team_id.deep_view()),
        p.failure is None,
{
    let mut steps: Vec<Step> = Vec::new();
    push_prepare_steps(&mut steps);
    steps.push(run("xcodebuild", clean_args(scheme, configuration)));
    steps.push(run("xcodebuild", build_args(scheme, configuration, team_id)));
    proof {
        assert(steps.deep_view() =~~= build_steps(scheme@, configuration@, team_id.deep_view()));
    }
    Plan { steps, failure: None }
}

/// Plans the deploy subcommand. For the `device` and `simulator` targets
/// the plan carries the full deployment sequence; for a missing simulator
/// identifier or an unknown target it carries the preparation steps and
/// the error the subcommand then reports, exactly as [`deploy_decision`]
/// says.
pub fn deploy_plan(
    target: &str,
    simulator_id: Option<&str>,
    configuration: &str,
    team_id: Option<&str>,
    scheme: &str,
) -> (p: Plan)
    ensures
        plan_steps(&p) == deploy_decision(
            target@,
            simulator_id.deep_view(),
            scheme@,
            configuration@,
            team_id.deep_view(),
        ).0,
        p.failure == deploy_decision(
            target@,
            simulator_id.deep_view(),
            scheme@,
            configuration@,
            team_id.deep_view(),
        ).1,
{
    let mut steps: Vec<Step> = Vec::new();
    push_prepare_steps(&mut steps);
    let t = String::from_str(target);
    if t == String::from_str("device") {
        steps.push(run("xcodebuild", deploy_device_args(scheme, configuration, team_id)));
        steps.push(run("xcrun", args2("xcodebuild", "-runFirstLaunch")));
        let bundle = app_bundle_path(scheme);
        steps.push(run("ios-deploy", args2("--bundle", bundle.as_str())));
        proof {
            assert(steps.deep_view() =~~= deploy_device_steps(
                scheme@,
                configuration@,
                team_id.deep_view(),
            ));
        }
        Plan { steps, failure: None }
    } else if t == String::from_str("simulator") {
        match simulator_id {
            Some(sim) => {
                steps.push(
                    run(
                        "xcodebuild",
                        deploy_simulator_args(scheme, configuration, sim, team_id),
                    ),
                );
                steps.push(run("xcrun", args3("simctl", "boot", sim)));
                let bundle = app_bundle_path(scheme);
                steps.push(run("xcrun", args4("simctl", "install", sim, bundle.as_str())));
                let bundle_id = bundle_identifier(scheme);
                steps.push(run("xcrun", args4("simctl", "launch", sim, bundle_id.as_str())));
                proof {
                    assert(steps.deep_view() =~~= deploy_simulator_steps(
                        scheme@,
                        configuration@,
                        sim@,
                        team_id.deep_view(),
                    ));
                }
                Plan { steps, failure: None }
            },
            None => {
                proof {
                    assert(steps.deep_view() =~~= prepare_steps());
                }
                Plan { steps, failure: Some(PlanError::MissingSimulatorId) }
            },
        }
    } else {
        proof {
            assert(steps.deep_view() =~~= prepare_steps());
        }
        Plan { steps, failure: Some(PlanError::InvalidTarget) }
    }
}

/// The scheme a build or deployment uses: the explicitly requested one,
/// or, when none was given, the name of the discovered project.
pub fn resolve_scheme(scheme: Option<&str>, default_scheme: &str) -> (r: String)
    ensures
        r@ == (match scheme {
            Some(s) => s@,
            None => default_scheme@,
        }),
{
    match scheme {
        Some(s) => String::from_str(s),
        None => String::from_str(default_scheme),
    }
}

} // verus!
