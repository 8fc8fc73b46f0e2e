use overlayfs_csi::{
    join_path, marker_text, marker_valid, name_selector, pod_running, stamp_valid, umount_args,
    Base, DirEntryInfo, MountPlan, OverlayFlags, Overlays, Registry, NANOS_PER_SECOND,
};

const S: i128 = NANOS_PER_SECOND;

fn flags(max_age_s: i64) -> OverlayFlags {
    OverlayFlags {
        name: "overlay.csi".to_string(),
        node: "node-1".to_string(),
        namespace: "storage".to_string(),
        bases: "/bases".to_string(),
        pods: "/var/lib/kubelet/pods".to_string(),
        max_age_s,
        size_limit: "1Gi".to_string(),
    }
}

fn overlays(max_age_s: i64) -> Overlays {
    Overlays::from_flags(flags(max_age_s), "plugin-uid")
}

fn base(path: &str) -> Base {
    Base(path.to_string())
}

fn strings(v: &[&str]) -> Vec<String> {
    v.iter().map(|s| s.to_string()).collect()
}

#[test]
fn join_adds_one_separator() {
    assert_eq!(join_path("a", "b"), "a/b");
    assert_eq!(join_path("a/", "b"), "a/b");
    assert_eq!(join_path("", "b"), "b");
}

#[test]
fn join_with_absolute_part_replaces() {
    assert_eq!(join_path("/a/b", "/c"), "/c");
}

#[test]
fn marker_file_name_and_path() {
    assert_eq!(Base::as_base_filename(), ".as_base");
    assert_eq!(base("/bases/vol-A").as_base_file(), "/bases/vol-A/.as_base");
}

#[test]
fn stamp_just_inside_limit_is_valid() {
    let now = 1_000 * S;
    assert!(stamp_valid(Some(now - 600 * S + 1), now, 600));
    assert!(stamp_valid(Some(now), now, 600));
    assert!(stamp_valid(Some(now - 60 * S), now, 600));
}

#[test]
fn stamp_at_exact_limit_is_invalid() {
    let now = 1_000 * S;
    assert!(!stamp_valid(Some(now - 600 * S), now, 600));
    assert!(!stamp_valid(Some(now - 700 * S), now, 600));
}

#[test]
fn stamp_in_future_is_invalid() {
    let now = 1_000 * S;
    assert!(!stamp_valid(Some(now + 1), now, 600));
}

#[test]
fn missing_stamp_is_invalid() {
    assert!(!stamp_valid(None, 0, 600));
    assert!(!stamp_valid(Some(0), 0, 0));
}

#[test]
fn extreme_stamps_do_not_overflow() {
    assert!(!stamp_valid(Some(i128::MIN), i128::MAX, i64::MAX));
    assert!(stamp_valid(Some(i128::MAX), i128::MAX, 1));
}

#[test]
fn marker_text_parses_to_instant() {
    assert!(marker_valid(Some("1970-01-01T00:00:00Z"), 60 * S, 600));
    assert!(!marker_valid(Some("1970-01-01T00:00:00Z"), 600 * S, 600));
    assert!(marker_valid(Some("1970-01-01T00:10:00Z"), 700 * S, 600));
}

#[test]
fn future_dated_marker_is_invalid() {
    assert!(!marker_valid(Some("9999-01-01T00:00:00Z"), 60 * S, 600));
}

#[test]
fn unparsable_or_missing_marker_is_invalid() {
    assert!(!marker_valid(Some("yesterday"), 60 * S, 600));
    assert!(!marker_valid(Some(""), 60 * S, 600));
    assert!(!marker_valid(None, 60 * S, 600));
}

#[test]
fn marker_text_is_rfc3339() {
    assert_eq!(marker_text(0), Some("1970-01-01T00:00:00Z".to_string()));
    assert_eq!(marker_text(60 * S), Some("1970-01-01T00:01:00Z".to_string()));
    assert_eq!(marker_text(i128::MAX), None);
}

#[test]
fn written_marker_reads_back_valid() {
    let now = 1_700_000_000 * S;
    let text = marker_text(now).unwrap();
    assert!(marker_valid(Some(&text), now + 60 * S, 600));
}

#[test]
fn registry_records_and_forgets() {
    let mut reg = Registry::new();
    let a = base("/bases/vol-A");
    assert!(!reg.in_use("vol-B"));
    assert!(reg.unreferenced(&a));
    reg.associate(&a, "vol-B");
    reg.associate(&a, "vol-C");
    assert!(reg.in_use("vol-B"));
    assert!(!reg.unreferenced(&a));
    reg.dissociate("vol-B");
    assert!(!reg.in_use("vol-B"));
    assert!(reg.in_use("vol-C"));
    reg.dissociate("vol-C");
    assert!(reg.unreferenced(&a));
}

#[test]
fn registry_keeps_one_base_per_volume() {
    let mut reg = Registry::new();
    let a = base("/bases/a");
    let b = base("/bases/b");
    reg.associate(&a, "v");
    reg.associate(&b, "v");
    assert!(reg.unreferenced(&a));
    assert!(!reg.unreferenced(&b));
    reg.dissociate("v");
    assert!(!reg.in_use("v"));
    assert!(reg.unreferenced(&b));
}

#[test]
fn host_paths_of_volumes() {
    let o = overlays(600);
    assert_eq!(
        o.volume_dir("uid-1"),
        "/var/lib/kubelet/pods/uid-1/volumes/kubernetes.io~empty-dir/volume"
    );
    assert_eq!(
        o.empty_dir("uid-2", "data"),
        "/var/lib/kubelet/pods/uid-2/volumes/kubernetes.io~empty-dir/data"
    );
    assert_eq!(
        o.base_host("vol-A").0,
        "/var/lib/kubelet/pods/plugin-uid/volumes/kubernetes.io~empty-dir/bases/vol-A"
    );
    assert_eq!(o.flags().max_age_s, 600);
}

#[test]
fn listing_keeps_readable_directories() {
    let o = overlays(600);
    let entries = vec![
        Some(DirEntryInfo { path: "/bases/a".to_string(), is_dir: true }),
        None,
        Some(DirEntryInfo { path: "/bases/file".to_string(), is_dir: false }),
        Some(DirEntryInfo { path: "/bases/b".to_string(), is_dir: true }),
    ];
    let bases: Vec<String> = o.bases(&entries).into_iter().map(|b| b.0).collect();
    assert_eq!(bases, strings(&["/bases/a", "/bases/b"]));
}

#[test]
fn empty_bases_root_has_no_valid_base() {
    let o = overlays(600);
    assert_eq!(o.find_valid_base(&Vec::new(), 0), None);
}

#[test]
fn first_valid_base_is_chosen() {
    let o = overlays(600);
    let markers = vec![
        None,
        Some("9999-01-01T00:00:00Z".to_string()),
        Some("1970-01-01T00:00:00Z".to_string()),
        Some("1970-01-01T00:01:00Z".to_string()),
    ];
    assert_eq!(o.find_valid_base(&markers, 60 * S), Some(2));
    assert_eq!(o.find_valid_base(&markers, 630 * S), Some(3));
    assert_eq!(o.find_valid_base(&markers, 700 * S), None);
}

#[test]
fn overlay_mount_arguments() {
    let o = overlays(600);
    let lower = base("/bases/vol-A");
    let plan = o.plan_mount("/scratch/B", Some(&lower));
    assert_eq!(
        plan.mount_args("vol-B", "/mnt/B"),
        strings(&[
            "-t",
            "overlay",
            "vol-B",
            "-o",
            "lowerdir=/bases/vol-A,upperdir=/scratch/B/upper,workdir=/scratch/B/workdir",
            "/mnt/B",
        ])
    );
    match plan {
        MountPlan::Overlay { upper, workdir, .. } => {
            assert_eq!(upper, "/scratch/B/upper");
            assert_eq!(workdir, "/scratch/B/workdir");
        }
        MountPlan::Bind { .. } => panic!("expected an overlay"),
    }
}

#[test]
fn bind_mount_arguments() {
    let o = overlays(600);
    let plan = o.plan_mount("/scratch/A", None);
    assert_eq!(plan.mount_args("vol-A", "/mnt/A"), strings(&["--bind", "/scratch/A", "/mnt/A"]));
}

#[test]
fn umount_is_forced() {
    assert_eq!(umount_args("/mnt/A"), strings(&["-f", "/mnt/A"]));
}

#[test]
fn watch_selects_pod_by_name() {
    assert_eq!(name_selector("vol-A"), "metadata.name=vol-A");
}

#[test]
fn only_modified_running_pod_is_ready() {
    assert!(pod_running(true, Some("Running")));
    assert!(!pod_running(false, Some("Running")));
    assert!(!pod_running(true, Some("Pending")));
    assert!(!pod_running(true, None));
}

#[test]
fn cold_start_then_warm_reuse() {
    let mut o = overlays(600);
    // No base yet: bind mount, nothing recorded.
    assert_eq!(o.find_valid_base(&Vec::new(), 0), None);
    let plan = o.plan_mount("/scratch/A", None);
    o.mount("vol-A", &plan);
    assert!(!o.in_use("vol-A"));
    // Unmount at t=0: promoted.
    assert!(o.promote_on_unmount("vol-A", Some(None)));
    o.unmount("vol-A");
    let promoted = o.base_host("vol-A");
    let stamp = marker_text(0).unwrap();
    // Mount at t=60: overlay on the promoted base.
    let markers = vec![Some(stamp)];
    assert_eq!(o.find_valid_base(&markers, 60 * S), Some(0));
    let plan = o.plan_mount("/scratch/B", Some(&promoted));
    o.mount("vol-B", &plan);
    assert!(o.in_use("vol-B"));
    assert!(!o.unreferenced(&promoted));
}

#[test]
fn expired_base_in_use_survives_reap() {
    let mut o = overlays(600);
    let a = base("/bases/vol-A");
    let plan = o.plan_mount("/scratch/B", Some(&a));
    o.mount("vol-B", &plan);
    let bases = vec![base("/bases/vol-A")];
    let markers = vec![Some("1970-01-01T00:00:00Z".to_string())];
    assert_eq!(o.cleanup(&bases, &markers, 700 * S), vec![false]);
    // Unmounting the overlay does not promote it.
    assert!(!o.promote_on_unmount("vol-B", Some(None)));
    o.unmount("vol-B");
    assert!(o.unreferenced(&a));
    assert_eq!(o.cleanup(&bases, &markers, 780 * S), vec![true]);
}

#[test]
fn promotion_skipped_while_base_valid() {
    let mut o = overlays(600);
    let x = base("/bases/base-X");
    let plan = o.plan_mount("/scratch/C", Some(&x));
    o.mount("vol-C", &plan);
    assert!(!o.promote_on_unmount("vol-C", Some(Some(0))));
    o.unmount("vol-C");
    let markers = vec![Some("1970-01-01T00:00:00Z".to_string())];
    assert_eq!(o.cleanup(&vec![x], &markers, 60 * S), vec![false]);
}

#[test]
fn bind_volume_promoted_only_without_valid_base() {
    let mut o = overlays(600);
    let plan = o.plan_mount("/scratch/D", None);
    o.mount("vol-D", &plan);
    assert!(o.promote_on_unmount("vol-D", Some(None)));
    assert!(o.promote_on_unmount("vol-D", None));
    assert!(!o.promote_on_unmount("vol-D", Some(Some(1))));
}

#[test]
fn future_dated_base_is_reaped_when_unused() {
    let o = overlays(600);
    let bases = vec![base("/bases/f")];
    let markers = vec![Some("9999-01-01T00:00:00Z".to_string())];
    assert_eq!(o.find_valid_base(&markers, 60 * S), None);
    assert_eq!(o.cleanup(&bases, &markers, 60 * S), vec![true]);
}

#[test]
fn mount_then_unmount_forgets_volume() {
    let mut o = overlays(600);
    let a = base("/bases/a");
    let plan = o.plan_mount("/scratch/v", Some(&a));
    o.mount("v", &plan);
    assert!(o.in_use("v"));
    o.unmount("v");
    assert!(!o.in_use("v"));
    assert!(o.unreferenced(&a));
}

#[test]
fn reap_twice_removes_nothing_more() {
    let o = overlays(600);
    let bases = vec![base("/bases/old"), base("/bases/new"), base("/bases/none")];
    let markers = vec![
        Some("1970-01-01T00:00:00Z".to_string()),
        Some("1970-01-01T00:10:00Z".to_string()),
        None,
    ];
    let now = 700 * S;
    let first = o.cleanup(&bases, &markers, now);
    assert_eq!(first, vec![true, false, true]);
    let left = vec![base("/bases/new")];
    let left_markers = vec![markers[1].clone()];
    assert_eq!(o.cleanup(&left, &left_markers, now), vec![false]);
}
