use log_issues::rules::{
    fabric_internal, flatpak_nvidia, forge_java, intel_hd, java_option, lwjgl_2_java_9, macos_ns,
    oom, optinotfine, pre_1_12_native_transport_java_9, static_issues, wrong_java,
};

#[test]
fn fabric_internal_class_not_found() {
    let log = "Caused by: java.lang.ClassNotFoundException: net.fabricmc.fabric.impl.networking.Thing";
    let issue = fabric_internal(log).expect("should trigger");
    assert_eq!(issue.0, "Fabric Internal Access");
}

#[test]
fn fabric_internal_quilt_formatted_exception() {
    let log = "org.quiltmc.loader.impl.FormattedException: java.lang.NoSuchMethodError: boom";
    let issue = fabric_internal(log).expect("should trigger");
    assert_eq!(issue.0, "Fabric Internal Access");
}

#[test]
fn fabric_internal_silent_on_other_class() {
    let log = "Caused by: java.lang.ClassNotFoundException: com.example.Mod";
    assert!(fabric_internal(log).is_none());
}

#[test]
fn flatpak_nvidia_glx_config() {
    let log = "org.lwjgl.LWJGLException: Could not choose GLX13 config";
    let issue = flatpak_nvidia(log).expect("should trigger");
    assert_eq!(issue.0, "Outdated Nvidia Flatpak Driver");
    let log2 = "GLFW error 65545: GLX: Failed to find a suitable GLXFBConfig";
    assert!(flatpak_nvidia(log2).is_some());
    assert!(flatpak_nvidia("all fine").is_none());
}

#[test]
fn forge_java_manifest_entry_verifier() {
    let log = "java.lang.NoSuchMethodError: sun.security.util.ManifestEntryVerifier.<init>(Ljava/util/jar/Manifest;)V";
    let issue = forge_java(log).expect("should trigger");
    assert_eq!(issue.0, "Forge Java Bug");
    assert!(forge_java("nothing here").is_none());
}

#[test]
fn intel_hd_pixel_format() {
    let log = "org.lwjgl.LWJGLException: Pixel format not accelerated";
    let issue = intel_hd(log).expect("should trigger");
    assert_eq!(issue.0, "Intel HD Windows 10");
    assert!(intel_hd("nothing here").is_none());
}

#[test]
fn java_option_shenandoah_title() {
    let log = "Unrecognized VM option 'UseShenandoahGC'\nsome more text";
    let issue = java_option(log).expect("should trigger");
    assert_eq!(issue.0, "Wrong Java Arguments");
    assert_eq!(issue.1, "Remove `-XX:UseShenandoahGC` from your Java arguments");
}

#[test]
fn java_option_other_option_title() {
    let log = "Unrecognized VM option 'Foo'\nsome more text";
    let issue = java_option(log).expect("should trigger");
    assert_eq!(issue.0, "Java 8 and below don't support ShenandoahGC");
    assert_eq!(issue.1, "Remove `-XX:Foo` from your Java arguments");
}

#[test]
fn java_option_unrecognized_fallback() {
    let log = "Unrecognized option: --illegal-access=permit\nmore";
    let issue = java_option(log).expect("should trigger");
    assert_eq!(issue.0, "Wrong Java Arguments");
    assert_eq!(issue.1, "Remove `--illegal-access=permit` from your Java arguments");
}

#[test]
fn java_option_vm_option_wins_over_fallback() {
    let log = "Unrecognized VM option 'Foo'\nUnrecognized option: Bar\n";
    let issue = java_option(log).expect("should trigger");
    assert_eq!(issue.1, "Remove `-XX:Foo` from your Java arguments");
}

#[test]
fn java_option_silent_without_markers() {
    assert!(java_option("a clean log").is_none());
}

#[test]
fn lwjgl_2_java_9_assertion() {
    let log = "check_match: Assertion `version->filename == NULL || ! _dl_name_match_p (version->filename, map)' failed!";
    let issue = lwjgl_2_java_9(log).expect("should trigger");
    assert_eq!(issue.0, "Linux: crash with pre-1.13 and Java 9+");
}

#[test]
fn macos_ns_exception() {
    let log = "Terminating app due to uncaught exception 'NSInternalInconsistencyException";
    let issue = macos_ns(log).expect("should trigger");
    assert_eq!(issue.0, "MacOS NSInternalInconsistencyException");
}

#[test]
fn oom_both_markers() {
    let issue = oom("java.lang.OutOfMemoryError: Java heap space").expect("should trigger");
    assert_eq!(issue.0, "Out of Memory");
    assert_eq!(issue.1, "Allocating more RAM to your instance could help prevent this crash.");
    assert!(oom("exit code -805306369").is_some());
    assert!(oom("plenty of memory").is_none());
}

#[test]
fn optinotfine_markers() {
    let issue = optinotfine("[\u{2714}] OptiFine_1.8.9_HD_U_M5").expect("should trigger");
    assert_eq!(issue.0, "Potential OptiFine Incompatibilities");
    assert!(optinotfine("[\u{2714}] optifabric-1.13.2").is_some());
    assert!(optinotfine("[\u{2714}] sodium-0.4").is_none());
}

#[test]
fn pre_1_12_native_transport_marker() {
    let log = "java.lang.RuntimeException: Unable to access address of buffer\n\tat io.netty.channel.epoll.Native";
    let issue = pre_1_12_native_transport_java_9(log).expect("should trigger");
    assert_eq!(issue.0, "Linux: broken multiplayer with 1.8-1.11 and Java 9+");
}

#[test]
fn wrong_java_switch_banner() {
    let log = "Please switch to one of the following Java versions for this instance:\nJava version 17.0.3\n";
    let issue = wrong_java(log).expect("should trigger");
    assert_eq!(issue.0, "Wrong Java Version");
    assert_eq!(
        issue.1,
        "Please switch to one of the following: `Java version 17.0.3`\nFor more information, type `/tag java`"
    );
}

#[test]
fn wrong_java_compat_check_skipped() {
    let log = "Java major version is incompatible. Things might break.";
    let issue = wrong_java(log).expect("should trigger");
    assert_eq!(issue.0, "Java compatibility check skipped");
    assert!(wrong_java("all good").is_none());
}

#[test]
fn single_marker_yields_single_issue() {
    let log = "java.lang.OutOfMemoryError: Java heap space";
    let issues = static_issues(log);
    assert_eq!(issues.len(), 1);
    assert_eq!(issues[0].0, "Out of Memory");
}

#[test]
fn two_markers_yield_two_issues_in_declaration_order() {
    let log = "[\u{2714}] OptiFine_1.8.9\njava.lang.OutOfMemoryError: heap";
    let issues = static_issues(log);
    assert_eq!(issues.len(), 2);
    assert_eq!(issues[0].0, "Out of Memory");
    assert_eq!(issues[1].0, "Potential OptiFine Incompatibilities");
}

#[test]
fn clean_log_yields_no_issues() {
    let issues = static_issues("a perfectly healthy session");
    assert!(issues.is_empty());
    assert!(static_issues("").is_empty());
}
