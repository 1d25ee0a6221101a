use ibs::invoke::{
    app_bundle_path, build_args, bundle_identifier, clean_args, deploy_device_args,
    deploy_simulator_args,
};

fn as_strs(v: &[String]) -> Vec<&str> {
    let mut r: Vec<&str> = Vec::new();
    for s in v {
        r.push(s.as_str());
    }
    r
}

#[test]
fn clean_args_exact() {
    let got = clean_args("MyApp", "Debug");
    assert_eq!(
        as_strs(&got),
        vec![
            "clean",
            "-scheme",
            "MyApp",
            "-configuration",
            "Debug",
            "-sdk",
            "iphoneos",
            "CONFIGURATION_BUILD_DIR=intermediate/build",
            "ONLY_ACTIVE_ARCH=NO",
        ]
    );
}

#[test]
fn build_args_without_team() {
    let got = build_args("MyApp", "Release", None);
    assert_eq!(
        as_strs(&got),
        vec![
            "build",
            "-scheme",
            "MyApp",
            "-configuration",
            "Release",
            "-sdk",
            "iphoneos",
            "-allowProvisioningUpdates",
            "CONFIGURATION_BUILD_DIR=intermediate/build",
            "ONLY_ACTIVE_ARCH=NO",
        ]
    );
}

#[test]
fn build_args_with_team_uses_two_arguments() {
    let got = build_args("MyApp", "Debug", Some("ABCDE12345"));
    let tail: Vec<&str> = as_strs(&got)[10..].to_vec();
    assert_eq!(
        tail,
        vec!["DEVELOPMENT_TEAM", "ABCDE12345", "CODE_SIGN_STYLE=Automatic"]
    );
    assert_eq!(got.len(), 13);
}

#[test]
fn deploy_device_args_with_team_uses_joined_argument() {
    let got = deploy_device_args("MyApp", "Debug", Some("ABCDE12345"));
    let tail: Vec<&str> = as_strs(&got)[10..].to_vec();
    assert_eq!(
        tail,
        vec!["DEVELOPMENT_TEAM=ABCDE12345", "CODE_SIGN_STYLE=Automatic"]
    );
    assert_eq!(got.len(), 12);
}

#[test]
fn deploy_device_args_without_team() {
    let got = deploy_device_args("MyApp", "Debug", None);
    assert_eq!(
        as_strs(&got),
        vec![
            "build",
            "-scheme",
            "MyApp",
            "-configuration",
            "Debug",
            "-sdk",
            "iphoneos",
            "-allowProvisioningUpdates",
            "CONFIGURATION_BUILD_DIR=intermediate/build",
            "ONLY_ACTIVE_ARCH=NO",
        ]
    );
}

#[test]
fn deploy_simulator_args_exact() {
    let got = deploy_simulator_args("MyApp", "Debug", "SIM-1234", None);
    assert_eq!(
        as_strs(&got),
        vec![
            "build",
            "-scheme",
            "MyApp",
            "-configuration",
            "Debug",
            "-sdk",
            "iphonesimulator",
            "-destination",
            "id=SIM-1234",
            "CONFIGURATION_BUILD_DIR=intermediate/build",
        ]
    );
}

#[test]
fn deploy_simulator_args_with_team() {
    let got = deploy_simulator_args("MyApp", "Release", "SIM-1234", Some("TEAM99"));
    let tail: Vec<&str> = as_strs(&got)[10..].to_vec();
    assert_eq!(tail, vec!["DEVELOPMENT_TEAM=TEAM99", "CODE_SIGN_STYLE=Automatic"]);
    assert_eq!(got.len(), 12);
}

#[test]
fn app_bundle_path_appends_scheme_and_extension() {
    assert_eq!(app_bundle_path("MyApp"), "intermediate/build/MyApp.app");
}

#[test]
fn bundle_identifier_prefixes_scheme() {
    assert_eq!(bundle_identifier("MyApp"), "com.example.MyApp");
}
