//! The files the orchestrator scaffolds into a fresh project.
//!
//! Every generated file is fixed text, except the project manifest, which
//! interpolates the project name and the signing team identifier. Each
//! renderer's contract pins the whole text down, character for character,
//! against a spec-level definition of the template.

use vstd::prelude::*;
use vstd::string::*;

verus! {

/// The project manifest handed to the project generator, as a function of
/// the project name and the signing team identifier.
pub open spec fn project_yml_text(name: Seq<char>, team: Seq<char>) -> Seq<char> {
    "name: "@ + name
        + "\noptions:\n  bundleIdPrefix: com.example\n  deploymentTarget:\n    iOS: 15.0\n  developmentTeam: "@
        + team
        + "\n  xcodeVersion: \"15.0\"\n  createIntermediateGroups: true\ntargets:\n  "@
        + name
        + ":\n    type: application\n    platform: iOS\n    sources:\n      - path: Sources\n    settings:\n      base:\n        INFOPLIST_FILE: Sources/Info.plist\n        PRODUCT_BUNDLE_IDENTIFIER: com.example."@
        + name + "\n        DEVELOPMENT_TEAM: "@ + team
        + "\n        CODE_SIGN_STYLE: Automatic\nschemes:\n  "@
        + name + ":\n    build:\n      targets:\n        "@ + name
        + ": all\n    run:\n      config: Debug\n    test:\n      config: Debug\n    profile:\n      config: Release\n    analyze:\n      config: Debug\n    archive:\n      config: Release\n"@
}

/// Renders the project manifest for the given project name and team
/// identifier.
pub fn project_yml(name: &str, team: &str) -> (r: String)
    ensures
        r@ == project_yml_text(name@, team@),
{
    let mut r = String::new();
    r.append("name: ");
    r.append(name);
    r.append(
        "\noptions:\n  bundleIdPrefix: com.example\n  deploymentTarget:\n    iOS: 15.0\n  developmentTeam: ",
    );
    r.append(team);
    r.append("\n  xcodeVersion: \"15.0\"\n  createIntermediateGroups: true\ntargets:\n  ");
    r.append(name);
    r.append(
        ":\n    type: application\n    platform: iOS\n    sources:\n      - path: Sources\n    settings:\n      base:\n        INFOPLIST_FILE: Sources/Info.plist\n        PRODUCT_BUNDLE_IDENTIFIER: com.example.",
    );
    r.append(name);
    r.append("\n        DEVELOPMENT_TEAM: ");
    r.append(team);
    r.append("\n        CODE_SIGN_STYLE: Automatic\nschemes:\n  ");
    r.append(name);
    r.append(":\n    build:\n      targets:\n        ");
    r.append(name);
    r.append(
        ": all\n    run:\n      config: Debug\n    test:\n      config: Debug\n    profile:\n      config: Release\n    analyze:\n      config: Debug\n    archive:\n      config: Release\n",
    );
    proof {
        assert(r@ =~= project_yml_text(name@, team@));
    }
    r
}

/// The property list scaffolded next to the sources; fixed text.
pub open spec fn info_plist_text() -> Seq<char> {
    r#"<?xml version="1.0" encoding="UTF-8"?>
<!DOCTYPE plist PUBLIC "-//Apple//DTD PLIST 1.0//EN" "http://www.apple.com/DTDs/PropertyList-1.0.dtd">
<plist version="1.0">
<dict>
    <key>CFBundleDevelopmentRegion</key>
    <string>$(DEVELOPMENT_LANGUAGE)</string>
    <key>CFBundleExecutable</key>
    <string>$(EXECUTABLE_NAME)</string>
    <key>CFBundleIdentifier</key>
    <string>$(PRODUCT_BUNDLE_IDENTIFIER)</string>
    <key>CFBundleInfoDictionaryVersion</key>
    <string>6.0</string>
    <key>CFBundleName</key>
    <string>$(PRODUCT_NAME)</string>
    <key>CFBundlePackageType</key>
    <string>$(PRODUCT_BUNDLE_PACKAGE_TYPE)</string>
    <key>CFBundleShortVersionString</key>
    <string>1.0</string>
    <key>CFBundleVersion</key>
    <string>1</string>
    <key>LSRequiresIPhoneOS</key>
    <true/>
    <key>UILaunchStoryboardName</key>
    <string>LaunchScreen</string>
    <key>UIRequiredDeviceCapabilities</key>
    <array>
        <string>armv7</string>
    </array>
    <key>UISupportedInterfaceOrientations</key>
    <array>
        <string>UIInterfaceOrientationPortrait</string>
        <string>UIInterfaceOrientationLandscapeLeft</string>
        <string>UIInterfaceOrientationLandscapeRight</string>
    </array>
</dict>
</plist>"#@
}

/// Renders the property list.
pub fn info_plist() -> (r: String)
    ensures
        r@ == info_plist_text(),
{
    String::from_str(
        r#"<?xml version="1.0" encoding="UTF-8"?>
<!DOCTYPE plist PUBLIC "-//Apple//DTD PLIST 1.0//EN" "http://www.apple.com/DTDs/PropertyList-1.0.dtd">
<plist version="1.0">
<dict>
    <key>CFBundleDevelopmentRegion</key>
    <string>$(DEVELOPMENT_LANGUAGE)</string>
    <key>CFBundleExecutable</key>
    <string>$(EXECUTABLE_NAME)</string>
    <key>CFBundleIdentifier</key>
    <string>$(PRODUCT_BUNDLE_IDENTIFIER)</string>
    <key>CFBundleInfoDictionaryVersion</key>
    <string>6.0</string>
    <key>CFBundleName</key>
    <string>$(PRODUCT_NAME)</string>
    <key>CFBundlePackageType</key>
    <string>$(PRODUCT_BUNDLE_PACKAGE_TYPE)</string>
    <key>CFBundleShortVersionString</key>
    <string>1.0</string>
    <key>CFBundleVersion</key>
    <string>1</string>
    <key>LSRequiresIPhoneOS</key>
    <true/>
    <key>UILaunchStoryboardName</key>
    <string>LaunchScreen</string>
    <key>UIRequiredDeviceCapabilities</key>
    <array>
        <string>armv7</string>
    </array>
    <key>UISupportedInterfaceOrientations</key>
    <array>
        <string>UIInterfaceOrientationPortrait</string>
        <string>UIInterfaceOrientationLandscapeLeft</string>
        <string>UIInterfaceOrientationLandscapeRight</string>
    </array>
</dict>
</plist>"#,
    )
}

/// The launch-screen storyboard scaffolded next to the sources; fixed text.
pub open spec fn launch_screen_text() -> Seq<char> {
    r#"<?xml version="1.0" encoding="UTF-8"?>
<document type="com.apple.InterfaceBuilder3.CocoaTouch.Storyboard.XIB" version="3.0" toolsVersion="21701" targetRuntime="iOS.CocoaTouch" propertyAccessControl="none" useAutolayout="YES" launchScreen="YES" useTraitCollections="YES" useSafeAreas="YES" colorMatched="YES" initialViewController="01J-lp-oVM">
    <device id="retina6_12" orientation="portrait" appearance="light"/>
    <dependencies>
        <plugIn identifier="com.apple.InterfaceBuilder.IBCocoaTouchPlugin" version="21701"/>
        <capability name="Safe area layout guides" minToolsVersion="9.0"/>
        <capability name="System colors in document resources" minToolsVersion="11.0"/>
        <capability name="documents saved in the Xcode 8 format" minToolsVersion="8.0"/>
    </dependencies>
    <scenes>
        <!--View Controller-->
        <scene sceneID="EHf-IW-A2E">
            <objects>
                <viewController id="01J-lp-oVM" sceneMemberID="viewController">
                    <view key="view" contentMode="scaleToFill" id="Ze5-6b-2t3">
                        <rect key="frame" x="0.0" y="0.0" width="393" height="852"/>
                        <autoresizingMask key="autoresizingMask" widthSizable="YES" heightSizable="YES"/>
                        <viewLayoutGuide key="safeArea" id="6Tk-OE-BBY"/>
                        <color key="backgroundColor" systemColor="systemBackgroundColor"/>
                    </view>
                </viewController>
                <placeholder placeholderIdentifier="IBFirstResponder" id="iYj-Kq-Ea1" userLabel="First Responder" sceneMemberID="firstResponder"/>
            </objects>
            <point key="canvasLocation" x="53" y="375"/>
        </scene>
    </scenes>
    <resources>
        <systemColor name="systemBackgroundColor">
            <color white="1" alpha="1" colorSpace="custom" customColorSpace="genericGamma22GrayColorSpace"/>
        </systemColor>
    </resources>
</document>"#@
}

/// Renders the launch-screen storyboard.
pub fn launch_screen() -> (r: String)
    ensures
        r@ == launch_screen_text(),
{
    String::from_str(
        r#"<?xml version="1.0" encoding="UTF-8"?>
<document type="com.apple.InterfaceBuilder3.CocoaTouch.Storyboard.XIB" version="3.0" toolsVersion="21701" targetRuntime="iOS.CocoaTouch" propertyAccessControl="none" useAutolayout="YES" launchScreen="YES" useTraitCollections="YES" useSafeAreas="YES" colorMatched="YES" initialViewController="01J-lp-oVM">
    <device id="retina6_12" orientation="portrait" appearance="light"/>
    <dependencies>
        <plugIn identifier="com.apple.InterfaceBuilder.IBCocoaTouchPlugin" version="21701"/>
        <capability name="Safe area layout guides" minToolsVersion="9.0"/>
        <capability name="System colors in document resources" minToolsVersion="11.0"/>
        <capability name="documents saved in the Xcode 8 format" minToolsVersion="8.0"/>
    </dependencies>
    <scenes>
        <!--View Controller-->
        <scene sceneID="EHf-IW-A2E">
            <objects>
                <viewController id="01J-lp-oVM" sceneMemberID="viewController">
                    <view key="view" contentMode="scaleToFill" id="Ze5-6b-2t3">
                        <rect key="frame" x="0.0" y="0.0" width="393" height="852"/>
                        <autoresizingMask key="autoresizingMask" widthSizable="YES" heightSizable="YES"/>
                        <viewLayoutGuide key="safeArea" id="6Tk-OE-BBY"/>
                        <color key="backgroundColor" systemColor="systemBackgroundColor"/>
                    </view>
                </viewController>
                <placeholder placeholderIdentifier="IBFirstResponder" id="iYj-Kq-Ea1" userLabel="First Responder" sceneMemberID="firstResponder"/>
            </objects>
            <point key="canvasLocation" x="53" y="375"/>
        </scene>
    </scenes>
    <resources>
        <systemColor name="systemBackgroundColor">
            <color white="1" alpha="1" colorSpace="custom" customColorSpace="genericGamma22GrayColorSpace"/>
        </systemColor>
    </resources>
</document>"#,
    )
}

/// The application entry-point source stub; fixed text.
pub open spec fn app_delegate_text() -> Seq<char> {
    r#"import UIKit

@main
class AppDelegate: UIResponder, UIApplicationDelegate {
    var window: UIWindow?

    func application(
        _ application: UIApplication,
        didFinishLaunchingWithOptions launchOptions: [UIApplication.LaunchOptionsKey: Any]?
    ) -> Bool {
        window = UIWindow(frame: UIScreen.main.bounds)
        window?.rootViewController = UIViewController()
        window?.makeKeyAndVisible()
        return true
    }

    func application(
        _ application: UIApplication,
        configurationForConnecting connectingSceneSession: UISceneSession,
        options: UIScene.ConnectionOptions
    ) -> UISceneConfiguration {
        return UISceneConfiguration(name: "Default Configuration", sessionRole: connectingSceneSession.role)
    }
}
"#@
}

/// Renders the application entry-point source stub.
pub fn app_delegate() -> (r: String)
    ensures
        r@ == app_delegate_text(),
{
    String::from_str(
        r#"import UIKit

@main
class AppDelegate: UIResponder, UIApplicationDelegate {
    var window: UIWindow?

    func application(
        _ application: UIApplication,
        didFinishLaunchingWithOptions launchOptions: [UIApplication.LaunchOptionsKey: Any]?
    ) -> Bool {
        window = UIWindow(frame: UIScreen.main.bounds)
        window?.rootViewController = UIViewController()
        window?.makeKeyAndVisible()
        return true
    }

    func application(
        _ application: UIApplication,
        configurationForConnecting connectingSceneSession: UISceneSession,
        options: UIScene.ConnectionOptions
    ) -> UISceneConfiguration {
        return UISceneConfiguration(name: "Default Configuration", sessionRole: connectingSceneSession.role)
    }
}
"#,
    )
}

/// The ignore file for the fresh version-control repository; fixed text.
pub open spec fn gitignore_text() -> Seq<char> {
    r#".DS_Store
xcuserdata/
*.xcodeproj/*
!*.xcodeproj/project.pbxproj
!*.xcodeproj/xcshareddata/
!*.xcodeproj/project.xcworkspace/
!*.xcworkspace/contents.xcworkspacedata
**/xcshareddata/WorkspaceSettings.xcsettings
DerivedData/
.swiftpm/
"#@
}

/// Renders the ignore file.
pub fn gitignore() -> (r: String)
    ensures
        r@ == gitignore_text(),
{
    String::from_str(
        r#".DS_Store
xcuserdata/
*.xcodeproj/*
!*.xcodeproj/project.pbxproj
!*.xcodeproj/xcshareddata/
!*.xcodeproj/project.xcworkspace/
!*.xcworkspace/contents.xcworkspacedata
**/xcshareddata/WorkspaceSettings.xcsettings
DerivedData/
.swiftpm/
"#,
    )
}

} // verus!
