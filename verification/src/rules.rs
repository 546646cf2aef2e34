//! The static rule set: a fixed, ordered list of independent detectors, each
//! scanning the raw log text for one known problem signature and returning at
//! most one issue. Rules never fail; a log that matches no signature simply
//! produces no issue. More than one rule may match the same log, and every
//! rule is always evaluated: the aggregated list holds one entry per
//! triggering rule, in declaration order, with no deduplication.
use vstd::prelude::*;

use crate::capture::{
    capture_switch_version, capture_unrecognized_option, capture_vm_option,
    switch_version_capture, unrecognized_option_capture, vm_option_capture,
};
use crate::text::{contains_str, find_sub, join_lines, spec_join_lines};

verus! {

/// A detected problem: a title paired with a remedy description — or nothing.
pub type Issue = Option<(String, String)>;

/// The mathematical shape of one optional issue.
pub type SpecIssue = (Seq<char>, Seq<char>);

pub open spec fn spec_fabric_internal(log: Seq<char>) -> Option<SpecIssue> {
    if contains_str(log, "Caused by: java.lang.ClassNotFoundException: net.fabricmc.fabric.impl"@)
        || contains_str(
        log,
        "Caused by: java.lang.ClassNotFoundException: net.fabricmc.fabric.mixin"@,
    ) || contains_str(
        log,
        "Caused by: java.lang.ClassNotFoundException: net.fabricmc.fabric.loader.impl"@,
    ) || contains_str(
        log,
        "Caused by: java.lang.ClassNotFoundException: net.fabricmc.fabric.loader.mixin"@,
    ) || contains_str(
        log,
        "org.quiltmc.loader.impl.FormattedException: java.lang.NoSuchMethodError:"@,
    ) {
        Some(
            (
                "Fabric Internal Access"@,
                "The mod you are using is using fabric internals that are not meant to be used by anything but the loader itself.\n        Those mods break both on Quilt and with fabric updates.\n        If you're using fabric, downgrade your fabric loader could work, on Quilt you can try updating to the latest beta version, but there's nothing much to do unless the mod author stops using them."@,
            ),
        )
    } else {
        None
    }
}

pub fn fabric_internal(log: &str) -> (r: Issue)
    ensures
        r.deep_view() == spec_fabric_internal(log@),
{
    let found = find_sub(
        log,
        "Caused by: java.lang.ClassNotFoundException: net.fabricmc.fabric.impl",
    ) || find_sub(log, "Caused by: java.lang.ClassNotFoundException: net.fabricmc.fabric.mixin")
        || find_sub(
        log,
        "Caused by: java.lang.ClassNotFoundException: net.fabricmc.fabric.loader.impl",
    ) || find_sub(
        log,
        "Caused by: java.lang.ClassNotFoundException: net.fabricmc.fabric.loader.mixin",
    ) || find_sub(log, "org.quiltmc.loader.impl.FormattedException: java.lang.NoSuchMethodError:");
    if found {
        Some(
            (
                String::from_str("Fabric Internal Access"),
                String::from_str(
                    "The mod you are using is using fabric internals that are not meant to be used by anything but the loader itself.\n        Those mods break both on Quilt and with fabric updates.\n        If you're using fabric, downgrade your fabric loader could work, on Quilt you can try updating to the latest beta version, but there's nothing much to do unless the mod author stops using them.",
                ),
            ),
        )
    } else {
        None
    }
}

pub open spec fn spec_flatpak_nvidia(log: Seq<char>) -> Option<SpecIssue> {
    if contains_str(log, "org.lwjgl.LWJGLException: Could not choose GLX13 config"@)
        || contains_str(log, "GLFW error 65545: GLX: Failed to find a suitable GLXFBConfig"@) {
        Some(
            (
                "Outdated Nvidia Flatpak Driver"@,
                "The Nvidia driver for flatpak is outdated.\n        Please run `flatpak update` to fix this issue. If that does not solve it, please wait until the driver is added to Flathub and run it again."@,
            ),
        )
    } else {
        None
    }
}

pub fn flatpak_nvidia(log: &str) -> (r: Issue)
    ensures
        r.deep_view() == spec_flatpak_nvidia(log@),
{
    let found = find_sub(log, "org.lwjgl.LWJGLException: Could not choose GLX13 config")
        || find_sub(log, "GLFW error 65545: GLX: Failed to find a suitable GLXFBConfig");
    if found {
        Some(
            (
                String::from_str("Outdated Nvidia Flatpak Driver"),
                String::from_str(
                    "The Nvidia driver for flatpak is outdated.\n        Please run `flatpak update` to fix this issue. If that does not solve it, please wait until the driver is added to Flathub and run it again.",
                ),
            ),
        )
    } else {
        None
    }
}

pub open spec fn spec_forge_java(log: Seq<char>) -> Option<SpecIssue> {
    if contains_str(
        log,
        "java.lang.NoSuchMethodError: sun.security.util.ManifestEntryVerifier.<init>(Ljava/util/jar/Manifest;)V"@,
    ) {
        Some(
            (
                "Forge Java Bug"@,
                "Old versions of Forge crash with Java 8u321+.\n            To fix this, update forge to the latest version via the Versions tab\n            (right click on Forge, click Change Version, and choose the latest one)\n            Alternatively, you can download 8u312 or lower. See [archive](https://github.com/adoptium/temurin8-binaries/releases/tag/jdk8u312-b07)"@,
            ),
        )
    } else {
        None
    }
}

pub fn forge_java(log: &str) -> (r: Issue)
    ensures
        r.deep_view() == spec_forge_java(log@),
{
    let found = find_sub(
        log,
        "java.lang.NoSuchMethodError: sun.security.util.ManifestEntryVerifier.<init>(Ljava/util/jar/Manifest;)V",
    );
    if found {
        Some(
            (
                String::from_str("Forge Java Bug"),
                String::from_str(
                    "Old versions of Forge crash with Java 8u321+.\n            To fix this, update forge to the latest version via the Versions tab\n            (right click on Forge, click Change Version, and choose the latest one)\n            Alternatively, you can download 8u312 or lower. See [archive](https://github.com/adoptium/temurin8-binaries/releases/tag/jdk8u312-b07)",
                ),
            ),
        )
    } else {
        None
    }
}

pub open spec fn spec_intel_hd(log: Seq<char>) -> Option<SpecIssue> {
    if contains_str(log, "org.lwjgl.LWJGLException: Pixel format not accelerated"@) {
        Some(
            (
                "Intel HD Windows 10"@,
                "Your drivers don't support windows 10 officially\n        See https://prismlauncher.org/wiki/getting-started/installing-java/#a-note-about-intel-hd-20003000-on-windows-10 for more info"@,
            ),
        )
    } else {
        None
    }
}

pub fn intel_hd(log: &str) -> (r: Issue)
    ensures
        r.deep_view() == spec_intel_hd(log@),
{
    if find_sub(log, "org.lwjgl.LWJGLException: Pixel format not accelerated") {
        Some(
            (
                String::from_str("Intel HD Windows 10"),
                String::from_str(
                    "Your drivers don't support windows 10 officially\n        See https://prismlauncher.org/wiki/getting-started/installing-java/#a-note-about-intel-hd-20003000-on-windows-10 for more info",
                ),
            ),
        )
    } else {
        None
    }
}

/// The two titles the VM-option branch can produce: the captured option name
/// selects between them, a deliberate special case.
pub open spec fn spec_java_option(log: Seq<char>) -> Option<SpecIssue> {
    match vm_option_capture(log) {
        Some(opt) => Some(
            (
                if opt == "UseShenandoahGC"@ {
                    "Wrong Java Arguments"@
                } else {
                    "Java 8 and below don't support ShenandoahGC"@
                },
                "Remove `-XX:"@ + opt + "` from your Java arguments"@,
            ),
        ),
        None => match unrecognized_option_capture(log) {
            Some(opt) => Some(
                ("Wrong Java Arguments"@, "Remove `"@ + opt + "` from your Java arguments"@),
            ),
            None => None,
        },
    }
}

/// Tries the VM-option pattern first and falls back to the generic
/// unrecognized-option pattern; at most one of the two fires.
pub fn java_option(log: &str) -> (r: Issue)
    ensures
        r.deep_view() == spec_java_option(log@),
{
    if let Some(opt) = capture_vm_option(log) {
        let shenandoah = String::from_str("UseShenandoahGC");
        let title = if opt == shenandoah {
            "Wrong Java Arguments"
        } else {
            "Java 8 and below don't support ShenandoahGC"
        };
        let mut desc = String::from_str("Remove `-XX:");
        desc.append(opt.as_str());
        desc.append("` from your Java arguments");
        return Some((String::from_str(title), desc));
    }
    if let Some(opt) = capture_unrecognized_option(log) {
        let mut desc = String::from_str("Remove `");
        desc.append(opt.as_str());
        desc.append("` from your Java arguments");
        return Some((String::from_str("Wrong Java Arguments"), desc));
    }
    None
}

pub open spec fn spec_lwjgl_2_java_9(log: Seq<char>) -> Option<SpecIssue> {
    if contains_str(
        log,
        "check_match: Assertion `version->filename == NULL || ! _dl_name_match_p (version->filename, map)' failed!"@,
    ) {
        Some(
            (
                "Linux: crash with pre-1.13 and Java 9+"@,
                "Using pre-1.13 (which uses LWJGL 2) with Java 9 or later usually causes a crash. Switching to Java 8 or below will fix your issue.\n        Alternatively, you can use [Temurin](https://adoptium.net/temurin/releases). However, multiplayer will not work in versions from 1.8 to 1.11.\n        For more information, type `/tag java`."@,
            ),
        )
    } else {
        None
    }
}

pub fn lwjgl_2_java_9(log: &str) -> (r: Issue)
    ensures
        r.deep_view() == spec_lwjgl_2_java_9(log@),
{
    let found = find_sub(
        log,
        "check_match: Assertion `version->filename == NULL || ! _dl_name_match_p (version->filename, map)' failed!",
    );
    if found {
        Some(
            (
                String::from_str("Linux: crash with pre-1.13 and Java 9+"),
                String::from_str(
                    "Using pre-1.13 (which uses LWJGL 2) with Java 9 or later usually causes a crash. Switching to Java 8 or below will fix your issue.\n        Alternatively, you can use [Temurin](https://adoptium.net/temurin/releases). However, multiplayer will not work in versions from 1.8 to 1.11.\n        For more information, type `/tag java`.",
                ),
            ),
        )
    } else {
        None
    }
}

pub open spec fn spec_macos_ns(log: Seq<char>) -> Option<SpecIssue> {
    if contains_str(
        log,
        "Terminating app due to uncaught exception 'NSInternalInconsistencyException"@,
    ) {
        Some(
            (
                "MacOS NSInternalInconsistencyException"@,
                "You need to downgrade your Java 8 version. See https://prismlauncher.org/wiki/getting-started/installing-java/#older-minecraft-on-macos"@,
            ),
        )
    } else {
        None
    }
}

pub fn macos_ns(log: &str) -> (r: Issue)
    ensures
        r.deep_view() == spec_macos_ns(log@),
{
    if find_sub(log, "Terminating app due to uncaught exception 'NSInternalInconsistencyException") {
        Some(
            (
                String::from_str("MacOS NSInternalInconsistencyException"),
                String::from_str(
                    "You need to downgrade your Java 8 version. See https://prismlauncher.org/wiki/getting-started/installing-java/#older-minecraft-on-macos",
                ),
            ),
        )
    } else {
        None
    }
}

pub open spec fn spec_oom(log: Seq<char>) -> Option<SpecIssue> {
    if contains_str(log, "java.lang.OutOfMemoryError"@) || contains_str(log, "-805306369"@) {
        Some(
            (
                "Out of Memory"@,
                "Allocating more RAM to your instance could help prevent this crash."@,
            ),
        )
    } else {
        None
    }
}

pub fn oom(log: &str) -> (r: Issue)
    ensures
        r.deep_view() == spec_oom(log@),
{
    if find_sub(log, "java.lang.OutOfMemoryError") || find_sub(log, "-805306369") {
        Some(
            (
                String::from_str("Out of Memory"),
                String::from_str("Allocating more RAM to your instance could help prevent this crash."),
            ),
        )
    } else {
        None
    }
}

pub open spec fn spec_optinotfine(log: Seq<char>) -> Option<SpecIssue> {
    if contains_str(log, "[\u{2714}] OptiFine_"@) || contains_str(log, "[\u{2714}] optifabric-"@) {
        Some(
            (
                "Potential OptiFine Incompatibilities"@,
                "OptiFine is known to cause problems when paired with other mods. Try to disable OptiFine and see if the issue persists.\n        Check `/tag optifine` for more info & some typically more compatible alternatives you can use."@,
            ),
        )
    } else {
        None
    }
}

pub fn optinotfine(log: &str) -> (r: Issue)
    ensures
        r.deep_view() == spec_optinotfine(log@),
{
    if find_sub(log, "[\u{2714}] OptiFine_") || find_sub(log, "[\u{2714}] optifabric-") {
        Some(
            (
                String::from_str("Potential OptiFine Incompatibilities"),
                String::from_str(
                    "OptiFine is known to cause problems when paired with other mods. Try to disable OptiFine and see if the issue persists.\n        Check `/tag optifine` for more info & some typically more compatible alternatives you can use.",
                ),
            ),
        )
    } else {
        None
    }
}

pub open spec fn spec_pre_1_12_native_transport_java_9(log: Seq<char>) -> Option<SpecIssue> {
    if contains_str(
        log,
        "java.lang.RuntimeException: Unable to access address of buffer\n\tat io.netty.channel.epoll"@,
    ) {
        Some(
            (
                "Linux: broken multiplayer with 1.8-1.11 and Java 9+"@,
                "These versions of Minecraft use an outdated version of Netty which does not properly support Java 9.\n\nSwitching to Java 8 or below will fix this issue. For more information, type `/tag java`.\n\nIf you must use a newer version, do the following:\n- Open `options.txt` (in the main window Edit -> Open .minecraft) and change.\n- Find `useNativeTransport:true` and change it to `useNativeTransport:false`.\nNote: whilst Netty was introduced in 1.7, this option did not exist which is why the issue was not present."@,
            ),
        )
    } else {
        None
    }
}

pub fn pre_1_12_native_transport_java_9(log: &str) -> (r: Issue)
    ensures
        r.deep_view() == spec_pre_1_12_native_transport_java_9(log@),
{
    let found = find_sub(
        log,
        "java.lang.RuntimeException: Unable to access address of buffer\n\tat io.netty.channel.epoll",
    );
    if found {
        Some(
            (
                String::from_str("Linux: broken multiplayer with 1.8-1.11 and Java 9+"),
                String::from_str(
                    "These versions of Minecraft use an outdated version of Netty which does not properly support Java 9.\n\nSwitching to Java 8 or below will fix this issue. For more information, type `/tag java`.\n\nIf you must use a newer version, do the following:\n- Open `options.txt` (in the main window Edit -> Open .minecraft) and change.\n- Find `useNativeTransport:true` and change it to `useNativeTransport:false`.\nNote: whilst Netty was introduced in 1.7, this option did not exist which is why the issue was not present.",
                ),
            ),
        )
    } else {
        None
    }
}

/// The banner branch and the substring branch are mutually exclusive: the
/// substring check runs only when the banner pattern does not match.
pub open spec fn spec_wrong_java(log: Seq<char>) -> Option<SpecIssue> {
    match switch_version_capture(log) {
        Some(cap) => Some(
            (
                "Wrong Java Version"@,
                "Please switch to one of the following: `"@ + spec_join_lines(cap)
                    + "`\nFor more information, type `/tag java`"@,
            ),
        ),
        None => if contains_str(log, "Java major version is incompatible. Things might break."@) {
            Some(
                (
                    "Java compatibility check skipped"@,
                    "The Java major version may not work with your Minecraft instance. Please switch to a compatible version"@,
                ),
            )
        } else {
            None
        },
    }
}

pub fn wrong_java(log: &str) -> (r: Issue)
    ensures
        r.deep_view() == spec_wrong_java(log@),
{
    if let Some(cap) = capture_switch_version(log) {
        let versions = join_lines(cap.as_str());
        let mut desc = String::from_str("Please switch to one of the following: `");
        desc.append(versions.as_str());
        desc.append("`\nFor more information, type `/tag java`");
        return Some((String::from_str("Wrong Java Version"), desc));
    }
    if find_sub(log, "Java major version is incompatible. Things might break.") {
        Some(
            (
                String::from_str("Java compatibility check skipped"),
                String::from_str(
                    "The Java major version may not work with your Minecraft instance. Please switch to a compatible version",
                ),
            ),
        )
    } else {
        None
    }
}

/// The rules in declaration order: each entry is what that rule returns.
pub open spec fn rule_results(log: Seq<char>) -> Seq<Option<SpecIssue>> {
    seq![
        spec_fabric_internal(log),
        spec_flatpak_nvidia(log),
        spec_forge_java(log),
        spec_intel_hd(log),
        spec_java_option(log),
        spec_lwjgl_2_java_9(log),
        spec_macos_ns(log),
        spec_oom(log),
        spec_optinotfine(log),
        spec_pre_1_12_native_transport_java_9(log),
        spec_wrong_java(log),
    ]
}

pub open spec fn opt_issue_seq(o: Option<SpecIssue>) -> Seq<SpecIssue> {
    match o {
        Some(i) => seq![i],
        None => Seq::<SpecIssue>::empty(),
    }
}

/// The issues the given rule outcomes aggregate to, in order, triggering
/// rules contributing one entry each and silent rules none.
pub open spec fn issues_of(rs: Seq<Option<SpecIssue>>) -> Seq<SpecIssue>
    decreases rs.len(),
{
    if rs.len() == 0 {
        Seq::<SpecIssue>::empty()
    } else {
        issues_of(rs.drop_last()) + opt_issue_seq(rs.last())
    }
}

/// What the static rule set as a whole reports for a log.
pub open spec fn spec_static_issues(log: Seq<char>) -> Seq<SpecIssue> {
    issues_of(rule_results(log))
}

/// Appends an optional issue to the accumulated list.
pub(crate) fn push_issue(acc: &mut Vec<(String, String)>, issue: Issue)
    ensures
        final(acc).deep_view() == old(acc).deep_view() + opt_issue_seq(issue.deep_view()),
{
    match issue {
        Some(i) => {
            let ghost before = acc.deep_view();
            let ghost item = i.deep_view();
            acc.push(i);
            proof {
                assert(acc.deep_view() =~= before + seq![item]) by {
                    assert(acc@.len() == before.len() + 1);
                    assert(forall|j: int|
                        0 <= j < before.len() ==> acc@[j].deep_view() == before[j]);
                }
            }
        },
        None => {
            assert(acc.deep_view() =~= acc.deep_view() + Seq::<SpecIssue>::empty());
        },
    }
}

/// Runs every static rule, in declaration order, with no short-circuit, and
/// collects the triggered issues.
pub fn static_issues(log: &str) -> (r: Vec<(String, String)>)
    ensures
        r.deep_view() == spec_static_issues(log@),
{
    let ghost rs = rule_results(log@);
    let mut acc: Vec<(String, String)> = Vec::new();
    assert(acc.deep_view() =~= issues_of(rs.take(0)));
    push_issue(&mut acc, fabric_internal(log));
    proof {
        lemma_issues_take_step(rs, 0);
    }
    push_issue(&mut acc, flatpak_nvidia(log));
    proof {
        lemma_issues_take_step(rs, 1);
    }
    push_issue(&mut acc, forge_java(log));
    proof {
        lemma_issues_take_step(rs, 2);
    }
    push_issue(&mut acc, intel_hd(log));
    proof {
        lemma_issues_take_step(rs, 3);
    }
    push_issue(&mut acc, java_option(log));
    proof {
        lemma_issues_take_step(rs, 4);
    }
    push_issue(&mut acc, lwjgl_2_java_9(log));
    proof {
        lemma_issues_take_step(rs, 5);
    }
    push_issue(&mut acc, macos_ns(log));
    proof {
        lemma_issues_take_step(rs, 6);
    }
    push_issue(&mut acc, oom(log));
    proof {
        lemma_issues_take_step(rs, 7);
    }
    push_issue(&mut acc, optinotfine(log));
    proof {
        lemma_issues_take_step(rs, 8);
    }
    push_issue(&mut acc, pre_1_12_native_transport_java_9(log));
    proof {
        lemma_issues_take_step(rs, 9);
    }
    push_issue(&mut acc, wrong_java(log));
    proof {
        lemma_issues_take_step(rs, 10);
        assert(rs.take(11) =~= rs);
    }
    acc
}

/// Extending the considered prefix of rule outcomes by one appends that
/// rule's contribution.
proof fn lemma_issues_take_step(rs: Seq<Option<SpecIssue>>, k: int)
    requires
        0 <= k < rs.len(),
    ensures
        issues_of(rs.take(k + 1)) == issues_of(rs.take(k)) + opt_issue_seq(rs[k]),
{
    assert(rs.take(k + 1).drop_last() =~= rs.take(k));
    assert(rs.take(k + 1).last() == rs[k]);
}

/// One entry per triggering rule: the aggregated list is exactly as long as
/// the number of rules that returned an issue.
pub open spec fn count_triggered(rs: Seq<Option<SpecIssue>>) -> int
    decreases rs.len(),
{
    if rs.len() == 0 {
        0
    } else {
        count_triggered(rs.drop_last()) + if rs.last() is Some {
            1int
        } else {
            0int
        }
    }
}

/// Aggregation deduplicates nothing and skips nothing: the issue list is
/// exactly one entry long per triggering rule.
pub proof fn lemma_one_issue_per_triggering_rule(rs: Seq<Option<SpecIssue>>)
    ensures
        issues_of(rs).len() == count_triggered(rs),
    decreases rs.len(),
{
    if rs.len() > 0 {
        lemma_one_issue_per_triggering_rule(rs.drop_last());
    }
}

proof fn lemma_no_rule_no_issue(rs: Seq<Option<SpecIssue>>)
    requires
        forall|j: int| 0 <= j < rs.len() ==> rs[j] is None,
    ensures
        issues_of(rs) == Seq::<SpecIssue>::empty(),
    decreases rs.len(),
{
    if rs.len() > 0 {
        lemma_no_rule_no_issue(rs.drop_last());
        assert(issues_of(rs) =~= Seq::<SpecIssue>::empty());
    }
}

/// When exactly one rule triggers, the aggregated list is exactly that
/// rule's single issue.
pub proof fn lemma_single_triggering_rule(rs: Seq<Option<SpecIssue>>, k: int)
    requires
        0 <= k < rs.len(),
        rs[k] is Some,
        forall|j: int| 0 <= j < rs.len() && j != k ==> rs[j] is None,
    ensures
        issues_of(rs) == seq![rs[k]->Some_0],
    decreases rs.len(),
{
    if k == rs.len() - 1 {
        lemma_no_rule_no_issue(rs.drop_last());
        assert(issues_of(rs) =~= seq![rs[k]->Some_0]);
    } else {
        lemma_single_triggering_rule(rs.drop_last(), k);
        assert(rs.last() is None);
        assert(issues_of(rs) =~= seq![rs[k]->Some_0]);
    }
}

} // verus!
