use vstd::prelude::*;

use crate::marker::{marker_ok, marker_valid, Base};
use crate::paths::{join_path, path_join};
use crate::registry::{users, Registry};

verus! {

/// Configuration of the plugin, fixed at startup.
pub struct OverlayFlags {
    /// Name under which the plugin registers.
    pub name: String,
    /// Identifier of the node the plugin runs on.
    pub node: String,
    /// Namespace of the helper pods.
    pub namespace: String,
    /// Directory holding the bases, as the plugin sees it.
    pub bases: String,
    /// Root of the kubelet's pod directories on the host.
    pub pods: String,
    /// Age, in seconds, from which a base is no longer used.
    pub max_age_s: i64,
    /// Size limit of each volume.
    pub size_limit: String,
}

/// One entry of a directory listing; `None` in a listing stands for an entry
/// that could not be read.
pub struct DirEntryInfo {
    pub path: String,
    pub is_dir: bool,
}

/// How a volume is mounted at its target.
pub enum MountPlan {
    /// An overlay layered on `lower`, writing to `upper` with `workdir`.
    Overlay { lower: Base, upper: String, workdir: String },
    /// A plain bind mount of the scratch directory.
    Bind { source: String },
}

/// The text view of a marker read off disk.
pub open spec fn text_of(contents: Option<String>) -> Option<Seq<char>> {
    match contents {
        Some(s) => Some(s@),
        None => None,
    }
}

/// The directories of a listing, in listing order.
pub open spec fn dir_paths(entries: Seq<Option<DirEntryInfo>>) -> Seq<Seq<char>>
    decreases entries.len(),
{
    if entries.len() == 0 {
        Seq::empty()
    } else {
        let rest = dir_paths(entries.drop_last());
        match entries.last() {
            Some(e) => if e.is_dir {
                rest.push(e.path@)
            } else {
                rest
            },
            None => rest,
        }
    }
}

/// Host path of the empty-dir volume `volume` of the pod `pod_uid`.
pub open spec fn empty_dir_path(pods: Seq<char>, pod_uid: Seq<char>, volume: Seq<char>) -> Seq<char> {
    path_join(
        path_join(path_join(path_join(pods, pod_uid), "volumes"@), "kubernetes.io~empty-dir"@),
        volume,
    )
}

/// The base a mount plan layers on, if any.
pub open spec fn plan_lower(plan: MountPlan) -> Option<Seq<char>> {
    match plan {
        MountPlan::Overlay { lower, .. } => Some(lower@),
        MountPlan::Bind { .. } => None,
    }
}

/// The registry after a mount layered on `lower` (`None`: a bind mount).
pub open spec fn after_mount(
    reg: Map<Seq<char>, Seq<char>>,
    volume: Seq<char>,
    lower: Option<Seq<char>>,
) -> Map<Seq<char>, Seq<char>> {
    match lower {
        Some(b) => reg.insert(volume, b),
        None => reg,
    }
}

/// The mount options of an overlay.
pub open spec fn overlay_options(lower: Seq<char>, upper: Seq<char>, workdir: Seq<char>) -> Seq<char> {
    "lowerdir="@ + lower + ",upperdir="@ + upper + ",workdir="@ + workdir
}

/// The reaper removes a base whose marker does not make it valid and which no
/// live volume uses.
pub open spec fn reaped(
    reg: Map<Seq<char>, Seq<char>>,
    base: Seq<char>,
    marker: Option<Seq<char>>,
    now: i128,
    max_age_s: i64,
) -> bool {
    !marker_ok(marker, now, max_age_s) && users(reg, base).is_empty()
}

/// The bases of a listing (each with its marker) that a reap leaves in place.
pub open spec fn after_reap(
    reg: Map<Seq<char>, Seq<char>>,
    listing: Seq<(Seq<char>, Option<Seq<char>>)>,
    now: i128,
    max_age_s: i64,
) -> Seq<(Seq<char>, Option<Seq<char>>)>
    decreases listing.len(),
{
    if listing.len() == 0 {
        listing
    } else {
        let rest = after_reap(reg, listing.drop_last(), now, max_age_s);
        let e = listing.last();
        if reaped(reg, e.0, e.1, now, max_age_s) {
            rest
        } else {
            rest.push(e)
        }
    }
}

/// The base lifecycle: configuration, where bases live on the host, and the
/// registry of live overlays.
pub struct Overlays {
    flags: OverlayFlags,
    bases_host: String,
    registry: Registry,
}

impl Overlays {
    pub closed spec fn wf(&self) -> bool {
        self.registry.wf()
    }

    /// Which base each live overlay volume is layered on.
    pub closed spec fn links(&self) -> Map<Seq<char>, Seq<char>> {
        self.registry@
    }

    /// The configuration the lifecycle was set up with.
    pub closed spec fn settings(&self) -> OverlayFlags {
        self.flags
    }

    pub open spec fn max_age(&self) -> i64 {
        self.settings().max_age_s
    }

    pub open spec fn pods_root(&self) -> Seq<char> {
        self.settings().pods@
    }

    /// Host path of the plugin's own `bases` volume.
    pub closed spec fn bases_host_path(&self) -> Seq<char> {
        self.bases_host@
    }

    /// Sets up the lifecycle for the plugin running in the pod `pod_id`; the
    /// bases live in that pod's `bases` volume, so that promotions stay on
    /// one device.
    pub fn from_flags(flags: OverlayFlags, pod_id: &str) -> (r: Overlays)
        ensures
            r.wf(),
            r.links() == Map::<Seq<char>, Seq<char>>::empty(),
            r.settings() == flags,
            r.bases_host_path() == empty_dir_path(flags.pods@, pod_id@, "bases"@),
    {
        let bases_host = empty_dir_at(flags.pods.as_str(), pod_id, "bases");
        Overlays { flags, bases_host, registry: Registry::new() }
    }

    /// The configuration.
    pub fn flags(&self) -> (r: &OverlayFlags)
        ensures
            *r == self.settings(),
    {
        &self.flags
    }

    /// Host path of the empty-dir volume `volume` of the pod `pod_uid`.
    pub fn empty_dir(&self, pod_uid: &str, volume: &str) -> (r: String)
        ensures
            r@ == empty_dir_path(self.pods_root(), pod_uid@, volume@),
    {
        empty_dir_at(self.flags.pods.as_str(), pod_uid, volume)
    }

    /// Host path of the scratch directory of the helper pod `pod_uid`.
    pub fn volume_dir(&self, pod_uid: &str) -> (r: String)
        ensures
            r@ == empty_dir_path(self.pods_root(), pod_uid@, "volume"@),
    {
        self.empty_dir(pod_uid, "volume")
    }

    /// The base that the volume `id` becomes when promoted.
    pub fn base_host(&self, id: &str) -> (r: Base)
        ensures
            r@ == path_join(self.bases_host_path(), id@),
    {
        Base(join_path(self.bases_host.as_str(), id))
    }

    /// The bases of a listing of the bases root: its directories, in order;
    /// entries that could not be read are skipped.
    pub fn bases(&self, entries: &Vec<Option<DirEntryInfo>>) -> (r: Vec<Base>)
        ensures
            r@.map_values(|b: Base| b@) == dir_paths(entries@),
    {
        let mut r: Vec<Base> = Vec::new();
        let mut i: usize = 0;
        while i < entries.len()
            invariant
                i <= entries@.len(),
                r@.map_values(|b: Base| b@) == dir_paths(entries@.subrange(0, i as int)),
            decreases entries@.len() - i,
        {
            let ghost before = r@;
            assert(entries@.subrange(0, i + 1).drop_last() =~= entries@.subrange(0, i as int));
            match &entries[i] {
                Some(e) => {
                    if e.is_dir {
                        r.push(Base(e.path.clone()));
                        assert(r@.map_values(|b: Base| b@) =~= before.map_values(|b: Base| b@).push(
                            e.path@,
                        ));
                    }
                },
                None => {},
            }
            i = i + 1;
        }
        assert(entries@.subrange(0, entries@.len() as int) =~= entries@);
        r
    }

    /// The first base of a listing whose marker (read into `markers`, in
    /// listing order) makes it valid at `now`.
    pub fn find_valid_base(&self, markers: &Vec<Option<String>>, now: i128) -> (r: Option<usize>)
        ensures
            r matches Some(k) ==> k < markers@.len() && marker_ok(
                text_of(markers@[k as int]),
                now,
                self.max_age(),
            ) && forall|j: int|
                0 <= j < k ==> !marker_ok(#[trigger] text_of(markers@[j]), now, self.max_age()),
            r is None ==> forall|j: int|
                0 <= j < markers@.len() ==> !marker_ok(
                    #[trigger] text_of(markers@[j]),
                    now,
                    self.max_age(),
                ),
    {
        let mut i: usize = 0;
        while i < markers.len()
            invariant
                i <= markers@.len(),
                forall|j: int|
                    0 <= j < i ==> !marker_ok(#[trigger] text_of(markers@[j]), now, self.max_age()),
            decreases markers@.len() - i,
        {
            if marker_at(markers, i, now, self.flags.max_age_s) {
                return Some(i);
            }
            i = i + 1;
        }
        None
    }

    /// How to mount a volume whose scratch directory is `volume_dir`: as an
    /// overlay on `lower` where a valid base was found, else as a bind mount.
    pub fn plan_mount(&self, volume_dir: &str, lower: Option<&Base>) -> (r: MountPlan)
        ensures
            match lower {
                Some(b) => r matches MountPlan::Overlay { lower: l, upper, workdir } && l@ == b@
                    && upper@ == path_join(volume_dir@, "upper"@) && workdir@ == path_join(
                    volume_dir@,
                    "workdir"@,
                ),
                None => r matches MountPlan::Bind { source } && source@ == volume_dir@,
            },
    {
        match lower {
            Some(b) => MountPlan::Overlay {
                lower: b.duplicate(),
                upper: join_path(volume_dir, "upper"),
                workdir: join_path(volume_dir, "workdir"),
            },
            None => MountPlan::Bind { source: String::from_str(volume_dir) },
        }
    }

    /// Records a mount that succeeded: an overlay volume now uses its base;
    /// a bind mount uses none.
    pub fn mount(&mut self, id: &str, plan: &MountPlan)
        requires
            old(self).wf(),
        ensures
            final(self).wf(),
            final(self).links() == after_mount(old(self).links(), id@, plan_lower(*plan)),
            final(self).settings() == old(self).settings(),
            final(self).bases_host_path() == old(self).bases_host_path(),
    {
        match plan {
            MountPlan::Overlay { lower, .. } => self.registry.associate(lower, id),
            MountPlan::Bind { .. } => {},
        }
    }

    /// Whether the volume `id` is recorded as an overlay on some base.
    pub fn in_use(&self, id: &str) -> (r: bool)
        requires
            self.wf(),
        ensures
            r == self.links().contains_key(id@),
    {
        self.registry.in_use(id)
    }

    /// Whether no live volume is recorded under `base`.
    pub fn unreferenced(&self, base: &Base) -> (r: bool)
        requires
            self.wf(),
        ensures
            r == users(self.links(), base@).is_empty(),
    {
        self.registry.unreferenced(base)
    }

    /// Whether unmounting the volume `id` promotes its scratch directory into
    /// a base: only a volume that used no base, and only while the bases
    /// root holds no valid base. `lookup` is the outcome of
    /// `find_valid_base` (`None`: the bases root could not be listed).
    pub fn promote_on_unmount(&self, id: &str, lookup: Option<Option<usize>>) -> (r: bool)
        requires
            self.wf(),
        ensures
            r == (!self.links().contains_key(id@) && !(lookup matches Some(Some(_)))),
    {
        let is_overlay = self.registry.in_use(id);
        let no_valid_base = match lookup {
            Some(Some(_)) => false,
            _ => true,
        };
        !is_overlay && no_valid_base
    }

    /// Records that the volume `id` was unmounted: it uses no base any more.
    pub fn unmount(&mut self, id: &str)
        requires
            old(self).wf(),
        ensures
            final(self).wf(),
            final(self).links() == old(self).links().remove(id@),
            !final(self).links().contains_key(id@),
            final(self).settings() == old(self).settings(),
            final(self).bases_host_path() == old(self).bases_host_path(),
    {
        self.registry.dissociate(id);
    }

    /// Which bases of a listing (with their markers, in listing order) the
    /// reaper removes at `now`: those that are not valid and that no live
    /// volume uses.
    pub fn cleanup(&self, bases: &Vec<Base>, markers: &Vec<Option<String>>, now: i128) -> (r: Vec<
        bool,
    >)
        requires
            self.wf(),
            bases@.len() == markers@.len(),
        ensures
            r@.len() == bases@.len(),
            forall|i: int|
                0 <= i < r@.len() ==> #[trigger] r@[i] == reaped(
                    self.links(),
                    bases@[i]@,
                    text_of(markers@[i]),
                    now,
                    self.max_age(),
                ),
    {
        let mut r: Vec<bool> = Vec::new();
        let mut i: usize = 0;
        while i < bases.len()
            invariant
                self.wf(),
                bases@.len() == markers@.len(),
                i <= bases@.len(),
                r@.len() == i,
                forall|k: int|
                    0 <= k < i ==> #[trigger] r@[k] == reaped(
                        self.links(),
                        bases@[k]@,
                        text_of(markers@[k]),
                        now,
                        self.max_age(),
                    ),
            decreases bases@.len() - i,
        {
            let remove = !marker_at(markers, i, now, self.flags.max_age_s)
                && self.registry.unreferenced(&bases[i]);
            r.push(remove);
            i = i + 1;
        }
        r
    }
}

/// The arguments of the `mount` program that carries out `plan` for the
/// volume `id` at `target`.
pub open spec fn mount_argv(plan: MountPlan, id: Seq<char>, target: Seq<char>) -> Seq<Seq<char>> {
    match plan {
        MountPlan::Overlay { lower, upper, workdir } => seq![
            "-t"@,
            "overlay"@,
            id,
            "-o"@,
            overlay_options(lower@, upper@, workdir@),
            target,
        ],
        MountPlan::Bind { source } => seq!["--bind"@, source@, target],
    }
}

impl MountPlan {
    /// The arguments of the `mount` program that carries out this plan for
    /// the volume `id` at `target`.
    pub fn mount_args(&self, id: &str, target: &str) -> (r: Vec<String>)
        ensures
            r@.map_values(|s: String| s@) == mount_argv(*self, id@, target@),
    {
        let r = match self {
            MountPlan::Overlay { lower, upper, workdir } => {
                let mut options = String::from_str("lowerdir=");
                options.append(lower.0.as_str());
                options.append(",upperdir=");
                options.append(upper.as_str());
                options.append(",workdir=");
                options.append(workdir.as_str());
                assert(options@ =~= overlay_options(lower@, upper@, workdir@));
                vec![
                    String::from_str("-t"),
                    String::from_str("overlay"),
                    String::from_str(id),
                    String::from_str("-o"),
                    options,
                    String::from_str(target),
                ]
            },
            MountPlan::Bind { source } => vec![
                String::from_str("--bind"),
                source.clone(),
                String::from_str(target),
            ],
        };
        assert(r@.map_values(|s: String| s@) =~= mount_argv(*self, id@, target@));
        r
    }
}

/// The arguments of the `umount` program that force-unmounts `target`.
pub fn umount_args(target: &str) -> (r: Vec<String>)
    ensures
        r@.map_values(|s: String| s@) == seq!["-f"@, target@],
{
    let r = vec![String::from_str("-f"), String::from_str(target)];
    assert(r@.map_values(|s: String| s@) =~= seq!["-f"@, target@]);
    r
}

/// The field selector that restricts a pod watch to the pod named `id`.
pub fn name_selector(id: &str) -> (r: String)
    ensures
        r@ == "metadata.name="@ + id@,
{
    String::from_str("metadata.name=").concat(id)
}

/// Whether a watch event reports the helper pod as ready: a modification
/// whose phase is `Running`. Every other event is ignored.
pub fn pod_running(modified: bool, phase: Option<&str>) -> (r: bool)
    ensures
        r == (modified && match phase {
            Some(p) => p@ == "Running"@,
            None => false,
        }),
{
    match phase {
        Some(p) => modified && String::from_str(p) == String::from_str("Running"),
        None => false,
    }
}

/// Whether the marker at `i` of `markers` makes its base valid at `now`.
fn marker_at(markers: &Vec<Option<String>>, i: usize, now: i128, max_age_s: i64) -> (r: bool)
    requires
        i < markers@.len(),
    ensures
        r == marker_ok(text_of(markers@[i as int]), now, max_age_s),
{
    match &markers[i] {
        Some(text) => marker_valid(Some(text.as_str()), now, max_age_s),
        None => false,
    }
}

/// Host path of the empty-dir volume `volume` of the pod `pod_uid`, under
/// the pods root `pods`.
fn empty_dir_at(pods: &str, pod_uid: &str, volume: &str) -> (r: String)
    ensures
        r@ == empty_dir_path(pods@, pod_uid@, volume@),
{
    let p = join_path(pods, pod_uid);
    let p = join_path(p.as_str(), "volumes");
    let p = join_path(p.as_str(), "kubernetes.io~empty-dir");
    join_path(p.as_str(), volume)
}

} // verus!
