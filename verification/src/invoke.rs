//! External-tool invocations and their exact argument lists.
//!
//! The build driver is invoked four ways: to clean, to build for a device
//! (once by the build subcommand, once by device deployment — the two
//! differ in how the signing team is passed), and to build for a
//! simulator. Each builder's contract gives the whole argument list,
//! element for element, as a function of the scheme, the configuration,
//! and the optional signing team.

use vstd::prelude::*;
use vstd::string::*;

verus! {

/// One external-tool invocation: a program name and its argument list.
///
/// A non-zero exit from any invocation aborts the rest of the plan.
pub struct Cmd {
    pub program: String,
    pub args: Vec<String>,
}

/// Spec-level image of a [`Cmd`].
#[verifier::ext_equal]
pub struct CmdModel {
    pub program: Seq<char>,
    pub args: Seq<Seq<char>>,
}

impl View for Cmd {
    type V = CmdModel;

    open spec fn view(&self) -> CmdModel {
        CmdModel { program: self.program@, args: self.args.deep_view() }
    }
}

/// The extra arguments passed to the build driver when a signing team is
/// given, in the form the build subcommand uses: the variable name and its
/// value as two separate arguments.
pub open spec fn team_args_split(team: Option<Seq<char>>) -> Seq<Seq<char>> {
    match team {
        Some(t) => seq!["DEVELOPMENT_TEAM"@, t, "CODE_SIGN_STYLE=Automatic"@],
        None => Seq::empty(),
    }
}

/// The extra arguments passed to the build driver when a signing team is
/// given, in the form the deploy subcommand uses: one `name=value`
/// argument.
pub open spec fn team_args_joined(team: Option<Seq<char>>) -> Seq<Seq<char>> {
    match team {
        Some(t) => seq!["DEVELOPMENT_TEAM="@ + t, "CODE_SIGN_STYLE=Automatic"@],
        None => Seq::empty(),
    }
}

/// Argument list of the build driver's clean step.
pub open spec fn clean_args_model(scheme: Seq<char>, configuration: Seq<char>) -> Seq<Seq<char>> {
    seq![
        "clean"@,
        "-scheme"@,
        scheme,
        "-configuration"@,
        configuration,
        "-sdk"@,
        "iphoneos"@,
        "CONFIGURATION_BUILD_DIR=intermediate/build"@,
        "ONLY_ACTIVE_ARCH=NO"@,
    ]
}

/// Argument list of the device build run by the build subcommand.
pub open spec fn build_args_model(
    scheme: Seq<char>,
    configuration: Seq<char>,
    team: Option<Seq<char>>,
) -> Seq<Seq<char>> {
    seq![
        "build"@,
        "-scheme"@,
        scheme,
        "-configuration"@,
        configuration,
        "-sdk"@,
        "iphoneos"@,
        "-allowProvisioningUpdates"@,
        "CONFIGURATION_BUILD_DIR=intermediate/build"@,
        "ONLY_ACTIVE_ARCH=NO"@,
    ] + team_args_split(team)
}

/// Argument list of the device build run by the deploy subcommand.
pub open spec fn deploy_device_args_model(
    scheme: Seq<char>,
    configuration: Seq<char>,
    team: Option<Seq<char>>,
) -> Seq<Seq<char>> {
    seq![
        "build"@,
        "-scheme"@,
        scheme,
        "-configuration"@,
        configuration,
        "-sdk"@,
        "iphoneos"@,
        "-allowProvisioningUpdates"@,
        "CONFIGURATION_BUILD_DIR=intermediate/build"@,
        "ONLY_ACTIVE_ARCH=NO"@,
    ] + team_args_joined(team)
}

/// Argument list of the simulator build run by the deploy subcommand.
pub open spec fn deploy_simulator_args_model(
    scheme: Seq<char>,
    configuration: Seq<char>,
    simulator_id: Seq<char>,
    team: Option<Seq<char>>,
) -> Seq<Seq<char>> {
    seq![
        "build"@,
        "-scheme"@,
        scheme,
        "-configuration"@,
        configuration,
        "-sdk"@,
        "iphonesimulator"@,
        "-destination"@,
        "id="@ + simulator_id,
        "CONFIGURATION_BUILD_DIR=intermediate/build"@,
    ] + team_args_joined(team)
}

/// Where the built application bundle lands, relative to the project root.
pub open spec fn app_bundle_path_model(scheme: Seq<char>) -> Seq<char> {
    "intermediate/build/"@ + scheme + ".app"@
}

/// The bundle identifier the scaffolded manifest assigns to the project.
pub open spec fn bundle_identifier_model(scheme: Seq<char>) -> Seq<char> {
    "com.example."@ + scheme
}

/// Builds the clean argument list.
pub fn clean_args(scheme: &str, configuration: &str) -> (r: Vec<String>)
    ensures
        r.deep_view() == clean_args_model(scheme@, configuration@),
{
    let mut r: Vec<String> = Vec::new();
    r.push(String::from_str("clean"));
    r.push(String::from_str("-scheme"));
    r.push(String::from_str(scheme));
    r.push(String::from_str("-configuration"));
    r.push(String::from_str(configuration));
    r.push(String::from_str("-sdk"));
    r.push(String::from_str("iphoneos"));
    r.push(String::from_str("CONFIGURATION_BUILD_DIR=intermediate/build"));
    r.push(String::from_str("ONLY_ACTIVE_ARCH=NO"));
    proof {
        assert(r.deep_view() =~~= clean_args_model(scheme@, configuration@));
    }
    r
}

/// Appends the split-form team arguments when a team is given.
fn push_team_args_split(r: &mut Vec<String>, team: Option<&str>)
    ensures
        final(r).deep_view() == old(r).deep_view() + team_args_split(team.deep_view()),
{
    match team {
        Some(t) => {
            r.push(String::from_str("DEVELOPMENT_TEAM"));
            r.push(String::from_str(t));
            r.push(String::from_str("CODE_SIGN_STYLE=Automatic"));
            proof {
                assert(r.deep_view() =~~= old(r).deep_view() + team_args_split(
                    team.deep_view(),
                ));
            }
        },
        None => {
            proof {
                assert(r.deep_view() =~~= old(r).deep_view() + team_args_split(
                    team.deep_view(),
                ));
            }
        },
    }
}

/// Appends the joined-form team arguments when a team is given.
fn push_team_args_joined(r: &mut Vec<String>, team: Option<&str>)
    ensures
        final(r).deep_view() == old(r).deep_view() + team_args_joined(team.deep_view()),
{
    match team {
        Some(t) => {
            let mut joined = String::from_str("DEVELOPMENT_TEAM=");
            joined.append(t);
            r.push(joined);
            r.push(String::from_str("CODE_SIGN_STYLE=Automatic"));
            proof {
                assert(r.deep_view() =~~= old(r).deep_view() + team_args_joined(
                    team.deep_view(),
                ));
            }
        },
        None => {
            proof {
                assert(r.deep_view() =~~= old(r).deep_view() + team_args_joined(
                    team.deep_view(),
                ));
            }
        },
    }
}

/// Builds the device build argument list for the build subcommand.
pub fn build_args(scheme: &str, configuration: &str, team: Option<&str>) -> (r: Vec<String>)
    ensures
        r.deep_view() == build_args_model(scheme@, configuration@, team.deep_view()),
{
    let mut r: Vec<String> = Vec::new();
    r.push(String::from_str("build"));
    r.push(String::from_str("-scheme"));
    r.push(String::from_str(scheme));
    r.push(String::from_str("-configuration"));
    r.push(String::from_str(configuration));
    r.push(String::from_str("-sdk"));
    r.push(String::from_str("iphoneos"));
    r.push(String::from_str("-allowProvisioningUpdates"));
    r.push(String::from_str("CONFIGURATION_BUILD_DIR=intermediate/build"));
    r.push(String::from_str("ONLY_ACTIVE_ARCH=NO"));
    push_team_args_split(&mut r, team);
    proof {
        assert(r.deep_view() =~~= build_args_model(scheme@, configuration@, team.deep_view()));
    }
    r
}

/// Builds the device build argument list for the deploy subcommand.
pub fn deploy_device_args(scheme: &str, configuration: &str, team: Option<&str>) -> (r: Vec<
    String,
>)
    ensures
        r.deep_view() == deploy_device_args_model(scheme@, configuration@, team.deep_view()),
{
    let mut r: Vec<String> = Vec::new();
    r.push(String::from_str("build"));
    r.push(String::from_str("-scheme"));
    r.push(String::from_str(scheme));
    r.push(String::from_str("-configuration"));
    r.push(String::from_str(configuration));
    r.push(String::from_str("-sdk"));
    r.push(String::from_str("iphoneos"));
    r.push(String::from_str("-allowProvisioningUpdates"));
    r.push(String::from_str("CONFIGURATION_BUILD_DIR=intermediate/build"));
    r.push(String::from_str("ONLY_ACTIVE_ARCH=NO"));
    push_team_args_joined(&mut r, team);
    proof {
        assert(r.deep_view() =~~= deploy_device_args_model(
            scheme@,
            configuration@,
            team.deep_view(),
        ));
    }
    r
}

/// Builds the simulator build argument list for the deploy subcommand.
pub fn deploy_simulator_args(
    scheme: &str,
    configuration: &str,
    simulator_id: &str,
    team: Option<&str>,
) -> (r: Vec<String>)
    ensures
        r.deep_view() == deploy_simulator_args_model(
            scheme@,
            configuration@,
            simulator_id@,
            team.deep_view(),
        ),
{
    let mut r: Vec<String> = Vec::new();
    r.push(String::from_str("build"));
    r.push(String::from_str("-scheme"));
    r.push(String::from_str(scheme));
    r.push(String::from_str("-configuration"));
    r.push(String::from_str(configuration));
    r.push(String::from_str("-sdk"));
    r.push(String::from_str("iphonesimulator"));
    r.push(String::from_str("-destination"));
    let mut destination = String::from_str("id=");
    destination.append(simulator_id);
    r.push(destination);
    r.push(String::from_str("CONFIGURATION_BUILD_DIR=intermediate/build"));
    push_team_args_joined(&mut r, team);
    proof {
        assert(r.deep_view() =~~= deploy_simulator_args_model(
            scheme@,
            configuration@,
            simulator_id@,
            team.deep_view(),
        ));
    }
    r
}

/// Builds the path of the built application bundle.
pub fn app_bundle_path(scheme: &str) -> (r: String)
    ensures
        r@ == app_bundle_path_model(scheme@),
{
    let mut r = String::from_str("intermediate/build/");
    r.append(scheme);
    r.append(".app");
    proof {
        assert(r@ =~= app_bundle_path_model(scheme@));
    }
    r
}

/// Builds the bundle identifier of the scaffolded project.
pub fn bundle_identifier(scheme: &str) -> (r: String)
    ensures
        r@ == bundle_identifier_model(scheme@),
{
    let mut r = String::from_str("com.example.");
    r.append(scheme);
    r
}

} // verus!
