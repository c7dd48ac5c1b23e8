//! Where the vendor SDK lies: the decisions of the search.
//!
//! The search itself asks the disk, which this module never does. It is a
//! machine instead: `start` and `advance` hand out a state that names one
//! path to probe, and take back whether that path exists. `resolve_spec` says
//! what the whole search comes to on a given disk, and
//! `law_machine_resolves` ties the machine to it.

use crate::text::same_text;
use vstd::prelude::*;
use vstd::string::*;

verus! {

/// How many directories a search looks into at most: the build root and its
/// nearest ancestors.
pub const MAX_LOOKUPS: u8 = 9;

/// A hardware family the bindings can be built for.
#[derive(Clone, Copy, Debug, PartialEq, Eq, Structural)]
pub enum SdkTarget {
    Hi3516Ev200,
    Hi3516Ev300,
    Hi3518Ev200,
    Hi3518Ev300,
    Hi3519Av100,
    Hi3531V100,
    Hi3559Av100,
}

/// The two resolved directories.
#[derive(Clone, Debug, PartialEq, Eq)]
pub struct SdkLocation {
    pub sdk_root: String,
    pub system_include_root: String,
}

/// Why no SDK was located.
#[derive(Clone, Debug, PartialEq, Eq)]
pub enum LocateError {
    /// The build triple, carried here, is one the SDK cannot be built for.
    UnsupportedTarget(String),
    /// No hardware family is selected.
    NoTargetSelected,
    /// More than one hardware family is selected; carries how many.
    AmbiguousTarget(usize),
    /// The subpath, carried here, lies under none of the directories searched.
    NotFound(String),
    /// The SDK root, carried here, does not exist.
    NotExists(String),
}

/// Paths that the environment sets in place of the defaults.
#[derive(Clone, Debug, PartialEq, Eq)]
pub struct EnvOverrides {
    pub sdk_root: Option<String>,
    pub include_root: Option<String>,
}

/// Everything a search depends on but the disk, gathered once.
#[derive(Clone, Debug, PartialEq, Eq)]
pub struct LocateRequest {
    /// The hardware families that are selected; one is expected.
    pub targets: Vec<SdkTarget>,
    /// The triple that is built for, if it is known.
    pub build_triple: Option<String>,
    /// The directory at which the search starts.
    pub build_root: String,
    pub overrides: EnvOverrides,
}

/// A search under way: `lookups` directories have been looked into, `base` being the last.
#[derive(Clone, Debug, PartialEq, Eq)]
pub struct Search {
    pub base: String,
    pub subpath: String,
    pub lookups: u8,
    pub include_root: String,
}

/// What the machine waits for.
#[derive(Clone, Debug, PartialEq, Eq)]
pub enum LocateState {
    /// Whether the subpath exists under the base of the search.
    Searching(Search),
    /// Whether the resolved SDK root exists.
    Confirming(SdkLocation),
}

/// What the machine asks for next.
#[derive(Debug, PartialEq, Eq)]
pub enum LocateStep {
    /// Probe the state's path and call `advance` with the answer.
    Probe(LocateState),
    /// The search is over.
    Done(Result<SdkLocation, LocateError>),
}

/// An `SdkLocation` as two texts.
pub struct LocationModel {
    pub sdk_root: Seq<char>,
    pub system_include_root: Seq<char>,
}

/// A `LocateError`, with texts for strings and a `nat` for the count.
pub enum ErrorModel {
    UnsupportedTarget(Seq<char>),
    NoTargetSelected,
    AmbiguousTarget(nat),
    NotFound(Seq<char>),
    NotExists(Seq<char>),
}

/// A `LocateRequest` with its overrides side by side, strings as texts.
pub struct RequestModel {
    pub targets: Seq<SdkTarget>,
    pub build_triple: Option<Seq<char>>,
    pub build_root: Seq<char>,
    pub sdk_root: Option<Seq<char>>,
    pub include_root: Option<Seq<char>>,
}

/// A `Search`, with texts for strings and a `nat` for the count.
pub struct SearchModel {
    pub base: Seq<char>,
    pub subpath: Seq<char>,
    pub lookups: nat,
    pub include_root: Seq<char>,
}

/// A `LocateState` over the models of what it holds.
pub enum StateModel {
    Searching(SearchModel),
    Confirming(LocationModel),
}

/// A `LocateStep` over the models of what it holds.
pub enum StepModel {
    Probe(StateModel),
    Done(Result<LocationModel, ErrorModel>),
}

/// The characters of a string that may be absent.
pub open spec fn text_of(text: Option<String>) -> Option<Seq<char>> {
    match text {
        Some(t) => Some(t@),
        None => None,
    }
}

/// The characters of a string slice that may be absent.
pub open spec fn slice_text_of(text: Option<&str>) -> Option<Seq<char>> {
    match text {
        Some(t) => Some(t@),
        None => None,
    }
}

/// The model of how a search ended.
pub open spec fn outcome_of(outcome: Result<SdkLocation, LocateError>) -> Result<
    LocationModel,
    ErrorModel,
> {
    match outcome {
        Ok(location) => Ok(location@),
        Err(error) => Err(error@),
    }
}

impl View for SdkLocation {
    type V = LocationModel;

    open spec fn view(&self) -> LocationModel {
        LocationModel {
            sdk_root: self.sdk_root@,
            system_include_root: self.system_include_root@,
        }
    }
}

impl View for LocateError {
    type V = ErrorModel;

    open spec fn view(&self) -> ErrorModel {
        match *self {
            LocateError::UnsupportedTarget(triple) => ErrorModel::UnsupportedTarget(triple@),
            LocateError::NoTargetSelected => ErrorModel::NoTargetSelected,
            LocateError::AmbiguousTarget(count) => ErrorModel::AmbiguousTarget(count as nat),
            LocateError::NotFound(subpath) => ErrorModel::NotFound(subpath@),
            LocateError::NotExists(path) => ErrorModel::NotExists(path@),
        }
    }
}

impl View for LocateRequest {
    type V = RequestModel;

    open spec fn view(&self) -> RequestModel {
        RequestModel {
            targets: self.targets@,
            build_triple: text_of(self.build_triple),
            build_root: self.build_root@,
            sdk_root: text_of(self.overrides.sdk_root),
            include_root: text_of(self.overrides.include_root),
        }
    }
}

impl View for Search {
    type V = SearchModel;

    open spec fn view(&self) -> SearchModel {
        SearchModel {
            base: self.base@,
            subpath: self.subpath@,
            lookups: self.lookups as nat,
            include_root: self.include_root@,
        }
    }
}

impl View for LocateState {
    type V = StateModel;

    open spec fn view(&self) -> StateModel {
        match *self {
            LocateState::Searching(search) => StateModel::Searching(search@),
            LocateState::Confirming(location) => StateModel::Confirming(location@),
        }
    }
}

impl View for LocateStep {
    type V = StepModel;

    open spec fn view(&self) -> StepModel {
        match *self {
            LocateStep::Probe(state) => StepModel::Probe(state@),
            LocateStep::Done(outcome) => StepModel::Done(outcome_of(outcome)),
        }
    }
}

/// The build triple for which the SDK cannot be built.
pub open spec fn unsupported_triple() -> Seq<char> {
    "x86_64-unknown-linux-gnu"@
}

impl SdkTarget {
    /// Where the family's SDK lies below the directory that holds it. One
    /// family has no such place: its SDK root is always set from outside.
    pub open spec fn sdk_subpath_spec(self) -> Option<Seq<char>> {
        match self {
            SdkTarget::Hi3516Ev200 | SdkTarget::Hi3516Ev300 | SdkTarget::Hi3518Ev200
            | SdkTarget::Hi3518Ev300 => Some("vendor/mpp-lib-Hi3516EV200_V1.0.1.0"@),
            SdkTarget::Hi3531V100 => Some("vendor/mpp-lib-Hi3531V100_V1.0.D.0"@),
            SdkTarget::Hi3559Av100 => Some("vendor/mpp-lib-Hi3559AV100_V2.0.2.0"@),
            SdkTarget::Hi3519Av100 => None,
        }
    }

    /// Where the family's toolchain keeps the system headers, by default.
    pub open spec fn system_include_spec(self) -> Option<Seq<char>> {
        match self {
            SdkTarget::Hi3516Ev200 | SdkTarget::Hi3516Ev300 | SdkTarget::Hi3518Ev200
            | SdkTarget::Hi3518Ev300 => Some(
                "/opt/hisi-linux/x86-arm/arm-himix100-linux/target/usr/include"@,
            ),
            SdkTarget::Hi3531V100 => Some(
                "/opt/hisi-linux-nptl/arm-hisiv100-linux/target/usr/include"@,
            ),
            SdkTarget::Hi3559Av100 => Some(
                "/opt/hisi-linux/x86-arm/aarch64-himix100-linux/aarch64-linux-gnu/sys-include"@,
            ),
            SdkTarget::Hi3519Av100 => None,
        }
    }

    /// Where the family's SDK lies below the directory that holds it.
    pub fn sdk_subpath(self) -> (r: Option<&'static str>)
        ensures
            slice_text_of(r) == self.sdk_subpath_spec(),
    {
        match self {
            SdkTarget::Hi3516Ev200 | SdkTarget::Hi3516Ev300 | SdkTarget::Hi3518Ev200
            | SdkTarget::Hi3518Ev300 => Some("vendor/mpp-lib-Hi3516EV200_V1.0.1.0"),
            SdkTarget::Hi3531V100 => Some("vendor/mpp-lib-Hi3531V100_V1.0.D.0"),
            SdkTarget::Hi3559Av100 => Some("vendor/mpp-lib-Hi3559AV100_V2.0.2.0"),
            SdkTarget::Hi3519Av100 => None,
        }
    }

    /// Where the family's toolchain keeps the system headers, by default.
    pub fn default_system_include(self) -> (r: Option<&'static str>)
        ensures
            slice_text_of(r) == self.system_include_spec(),
    {
        match self {
            SdkTarget::Hi3516Ev200 | SdkTarget::Hi3516Ev300 | SdkTarget::Hi3518Ev200
            | SdkTarget::Hi3518Ev300 => Some(
                "/opt/hisi-linux/x86-arm/arm-himix100-linux/target/usr/include",
            ),
            SdkTarget::Hi3531V100 => Some(
                "/opt/hisi-linux-nptl/arm-hisiv100-linux/target/usr/include",
            ),
            SdkTarget::Hi3559Av100 => Some(
                "/opt/hisi-linux/x86-arm/aarch64-himix100-linux/aarch64-linux-gnu/sys-include",
            ),
            SdkTarget::Hi3519Av100 => None,
        }
    }
}

/// What `std::path::Path::join` makes of a directory and a path below it,
/// on the platform that the library is built for.
pub uninterp spec fn joined_path(base: Seq<char>, subpath: Seq<char>) -> Seq<char>;

/// What `std::path::Path::parent` gives for a path, on the platform that the
/// library is built for: the directory above it, if there is one.
pub uninterp spec fn parent_path(path: Seq<char>) -> Option<Seq<char>>;

/// Calls `std::path::Path::join` on `base` with `subpath`. The contract only
/// names the result: the joined path is a function of the two texts.
#[verifier::external_body]
fn join_path(base: &str, subpath: &str) -> (r: String)
    ensures
        r@ == joined_path(base@, subpath@),
{
    std::path::Path::new(base).join(subpath).to_string_lossy().into_owned()
}

/// Calls `std::path::Path::parent` on `path`. The contract only names the
/// result: whether there is a parent, and which, is a function of the text.
#[verifier::external_body]
fn parent_of(path: &str) -> (r: Option<String>)
    ensures
        text_of(r) == parent_path(path@),
{
    match std::path::Path::new(path).parent() {
        Some(parent) => Some(parent.to_string_lossy().into_owned()),
        None => None,
    }
}

impl RequestModel {
    /// The selection and the build triple pass the checks made before any search.
    pub open spec fn admitted(self) -> bool {
        self.targets.len() == 1 && self.build_triple != Some(unsupported_triple())
    }

    /// Each of the two directories is set from outside or has a default.
    /// A request that is not admitted needs neither.
    pub open spec fn served(self) -> bool {
        self.admitted() ==> {
            &&& self.sdk_root is Some || self.targets[0].sdk_subpath_spec() is Some
            &&& self.include_root is Some || self.targets[0].system_include_spec() is Some
        }
    }

    /// The system include root of an admitted request.
    pub open spec fn include_dir(self) -> Seq<char> {
        match self.include_root {
            Some(path) => path,
            None => self.targets[0].system_include_spec().unwrap(),
        }
    }

    /// The subpath that an admitted request without an SDK root searches for.
    pub open spec fn subpath(self) -> Seq<char> {
        self.targets[0].sdk_subpath_spec().unwrap()
    }

    /// Why a request is not admitted, if it is not: the selection is judged
    /// first, then the build triple.
    pub open spec fn refusal(self) -> Option<ErrorModel> {
        if self.targets.len() == 0 {
            Some(ErrorModel::NoTargetSelected)
        } else if self.targets.len() > 1 {
            Some(ErrorModel::AmbiguousTarget(self.targets.len()))
        } else if self.build_triple == Some(unsupported_triple()) {
            Some(ErrorModel::UnsupportedTarget(unsupported_triple()))
        } else {
            None
        }
    }
}

/// The first step of the machine.
pub open spec fn start_spec(request: RequestModel) -> StepModel {
    match request.refusal() {
        Some(error) => StepModel::Done(Err(error)),
        None => match request.sdk_root {
            Some(root) => StepModel::Probe(
                StateModel::Confirming(
                    LocationModel { sdk_root: root, system_include_root: request.include_dir() },
                ),
            ),
            None => StepModel::Probe(
                StateModel::Searching(
                    SearchModel {
                        base: request.build_root,
                        subpath: request.subpath(),
                        lookups: 1,
                        include_root: request.include_dir(),
                    },
                ),
            ),
        },
    }
}

/// The path that a state wants probed.
pub open spec fn probe_path(state: StateModel) -> Seq<char> {
    match state {
        StateModel::Searching(search) => joined_path(search.base, search.subpath),
        StateModel::Confirming(location) => location.sdk_root,
    }
}

/// The step after a lookup that found nothing, `parent` being the directory
/// above the one looked into.
pub open spec fn climb_spec(search: SearchModel, parent: Option<Seq<char>>) -> StepModel {
    if search.lookups >= MAX_LOOKUPS {
        StepModel::Done(Err(ErrorModel::NotFound(search.subpath)))
    } else {
        match parent {
            Some(above) => StepModel::Probe(
                StateModel::Searching(
                    SearchModel {
                        base: above,
                        subpath: search.subpath,
                        lookups: search.lookups + 1,
                        include_root: search.include_root,
                    },
                ),
            ),
            None => StepModel::Done(Err(ErrorModel::NotFound(search.subpath))),
        }
    }
}

/// The step after a probe, `exists` being its answer.
pub open spec fn advance_spec(state: StateModel, exists: bool) -> StepModel {
    match state {
        StateModel::Searching(search) => if exists {
            StepModel::Probe(
                StateModel::Confirming(
                    LocationModel {
                        sdk_root: joined_path(search.base, search.subpath),
                        system_include_root: search.include_root,
                    },
                ),
            )
        } else {
            climb_spec(search, parent_path(search.base))
        },
        StateModel::Confirming(location) => if exists {
            StepModel::Done(Ok(location))
        } else {
            StepModel::Done(Err(ErrorModel::NotExists(location.sdk_root)))
        },
    }
}

/// The directory `depth` levels above `base`, if there is one.
pub open spec fn ancestor(base: Seq<char>, depth: nat) -> Option<Seq<char>>
    decreases depth,
{
    if depth == 0 {
        Some(base)
    } else {
        match parent_path(base) {
            Some(above) => ancestor(above, (depth - 1) as nat),
            None => None,
        }
    }
}

/// The first path found on `disk` by a search that is about to make its
/// lookup number `lookups` in `base`: the subpath under `base` if it exists,
/// else what the search finds from the directory above, as long as there is
/// one and lookups are left.
pub open spec fn search_from(
    base: Seq<char>,
    subpath: Seq<char>,
    lookups: nat,
    disk: Set<Seq<char>>,
) -> Option<Seq<char>>
    decreases MAX_LOOKUPS - lookups,
{
    let candidate = joined_path(base, subpath);
    if disk.contains(candidate) {
        Some(candidate)
    } else if lookups >= MAX_LOOKUPS {
        None
    } else {
        match parent_path(base) {
            Some(above) => search_from(above, subpath, lookups + 1, disk),
            None => None,
        }
    }
}

/// The outcome for an SDK root that was set or found: it has to exist.
pub open spec fn confirm(root: Seq<char>, include_root: Seq<char>, disk: Set<Seq<char>>) -> Result<
    LocationModel,
    ErrorModel,
> {
    if disk.contains(root) {
        Ok(LocationModel { sdk_root: root, system_include_root: include_root })
    } else {
        Err(ErrorModel::NotExists(root))
    }
}

/// The outcome of a search for `subpath` that found `root`, or nothing.
pub open spec fn conclude(
    root: Option<Seq<char>>,
    subpath: Seq<char>,
    include_root: Seq<char>,
    disk: Set<Seq<char>>,
) -> Result<LocationModel, ErrorModel> {
    match root {
        Some(found) => confirm(found, include_root, disk),
        None => Err(ErrorModel::NotFound(subpath)),
    }
}

/// What resolving `request` comes to where exactly the paths in `disk` exist.
pub open spec fn resolve_spec(request: RequestModel, disk: Set<Seq<char>>) -> Result<
    LocationModel,
    ErrorModel,
> {
    match request.refusal() {
        Some(error) => Err(error),
        None => match request.sdk_root {
            Some(root) => confirm(root, request.include_dir(), disk),
            None => conclude(
                search_from(request.build_root, request.subpath(), 1, disk),
                request.subpath(),
                request.include_dir(),
                disk,
            ),
        },
    }
}

/// Where the machine ends from `step` if every probe is answered from
/// `disk`, or `None` if it asks for more than `fuel` probes.
pub open spec fn run(step: StepModel, disk: Set<Seq<char>>, fuel: nat) -> Option<
    Result<LocationModel, ErrorModel>,
>
    decreases fuel,
{
    match step {
        StepModel::Done(outcome) => Some(outcome),
        StepModel::Probe(state) => if fuel == 0 {
            None
        } else {
            run(advance_spec(state, disk.contains(probe_path(state))), disk, (fuel - 1) as nat)
        },
    }
}

/// The paths that a list names.
pub open spec fn paths_of(existing: Seq<String>) -> Set<Seq<char>> {
    Set::new(|path: Seq<char>| exists|i: int| 0 <= i < existing.len() && existing[i]@ == path)
}

impl StateModel {
    /// A search in this state has made between one and `MAX_LOOKUPS` lookups,
    /// the one it asks for counted.
    pub open spec fn within_bound(self) -> bool {
        match self {
            StateModel::Searching(search) => 1 <= search.lookups <= MAX_LOOKUPS,
            StateModel::Confirming(_) => true,
        }
    }
}

/// A search under way ends as `search_from` says, within the probes that are
/// left to it: its remaining lookups and one to confirm.
proof fn lemma_search_runs(search: SearchModel, disk: Set<Seq<char>>, fuel: nat)
    requires
        1 <= search.lookups <= MAX_LOOKUPS,
        fuel >= MAX_LOOKUPS + 2 - search.lookups,
    ensures
        run(StepModel::Probe(StateModel::Searching(search)), disk, fuel) == Some(
            conclude(
                search_from(search.base, search.subpath, search.lookups, disk),
                search.subpath,
                search.include_root,
                disk,
            ),
        ),
    decreases MAX_LOOKUPS - search.lookups,
{
    reveal_with_fuel(run, 3);
    let candidate = joined_path(search.base, search.subpath);
    if !disk.contains(candidate) && search.lookups < MAX_LOOKUPS {
        match parent_path(search.base) {
            Some(above) => {
                let next = SearchModel {
                    base: above,
                    subpath: search.subpath,
                    lookups: search.lookups + 1,
                    include_root: search.include_root,
                };
                lemma_search_runs(next, disk, (fuel - 1) as nat);
            },
            None => {},
        }
    }
}

/// The machine does what `resolve_spec` says: begun on a request and
/// answered from a disk, it ends there after at most `MAX_LOOKUPS` lookups
/// and one probe to confirm.
pub proof fn law_machine_resolves(request: RequestModel, disk: Set<Seq<char>>)
    ensures
        run(start_spec(request), disk, MAX_LOOKUPS as nat + 1) == Some(
            resolve_spec(request, disk),
        ),
{
    reveal_with_fuel(run, 3);
    if request.refusal() is None && request.sdk_root is None {
        let search = SearchModel {
            base: request.build_root,
            subpath: request.subpath(),
            lookups: 1,
            include_root: request.include_dir(),
        };
        lemma_search_runs(search, disk, MAX_LOOKUPS as nat + 1);
    }
}

/// No search makes more than `MAX_LOOKUPS` lookups: the first state counts
/// one, each step of a search counts one more, and none goes past the bound.
pub proof fn law_lookups_bounded(request: RequestModel, state: StateModel, exists: bool)
    requires
        state.within_bound(),
    ensures
        start_spec(request) matches StepModel::Probe(first) ==> first.within_bound(),
        advance_spec(state, exists) matches StepModel::Probe(next) ==> next.within_bound(),
        state matches StateModel::Searching(before) ==> (advance_spec(
            state,
            exists,
        ) matches StepModel::Probe(StateModel::Searching(after)) ==> after.lookups
            == before.lookups + 1),
{
}

/// A selection of no hardware family, or of several, ends the search at its
/// start, whatever is on disk: no path is ever probed.
pub proof fn law_selection_judged_first(request: RequestModel, disk: Set<Seq<char>>)
    requires
        request.targets.len() != 1,
    ensures
        request.targets.len() == 0 ==> start_spec(request) == StepModel::Done(
            Err(ErrorModel::NoTargetSelected),
        ),
        request.targets.len() > 1 ==> start_spec(request) == StepModel::Done(
            Err(ErrorModel::AmbiguousTarget(request.targets.len())),
        ),
        resolve_spec(request, disk) is Err,
        start_spec(request) == StepModel::Done(resolve_spec(request, disk)),
{
}

/// The unsupported build triple ends the search at its start, whatever is on disk.
pub proof fn law_triple_judged_first(request: RequestModel, disk: Set<Seq<char>>)
    requires
        request.targets.len() == 1,
        request.build_triple == Some(unsupported_triple()),
    ensures
        start_spec(request) == StepModel::Done(
            Err(ErrorModel::UnsupportedTarget(unsupported_triple())),
        ),
        resolve_spec(request, disk) == Err::<LocationModel, ErrorModel>(
            ErrorModel::UnsupportedTarget(unsupported_triple()),
        ),
{
}

/// An SDK root set from outside that does not exist is an error that names
/// it. Nothing is searched in its place: the machine goes straight to
/// confirming the root that was set.
pub proof fn law_missing_override(request: RequestModel, disk: Set<Seq<char>>, root: Seq<char>)
    requires
        request.admitted(),
        request.sdk_root == Some(root),
    ensures
        start_spec(request) == StepModel::Probe(
            StateModel::Confirming(
                LocationModel { sdk_root: root, system_include_root: request.include_dir() },
            ),
        ),
        !disk.contains(root) ==> resolve_spec(request, disk) == Err::<LocationModel, ErrorModel>(
            ErrorModel::NotExists(root),
        ),
        disk.contains(root) ==> resolve_spec(request, disk) == Ok::<LocationModel, ErrorModel>(
            LocationModel { sdk_root: root, system_include_root: request.include_dir() },
        ),
{
}

/// A search finds nothing where the subpath exists under none of the
/// directories it may look into.
proof fn lemma_nothing_found(
    base: Seq<char>,
    subpath: Seq<char>,
    lookups: nat,
    disk: Set<Seq<char>>,
)
    requires
        1 <= lookups <= MAX_LOOKUPS,
        forall|depth: nat|
            depth + lookups <= MAX_LOOKUPS && (#[trigger] ancestor(base, depth)) is Some
                ==> !disk.contains(joined_path(ancestor(base, depth).unwrap(), subpath)),
    ensures
        search_from(base, subpath, lookups, disk) is None,
    decreases MAX_LOOKUPS - lookups,
{
    assert(ancestor(base, 0) == Some(base));
    if lookups < MAX_LOOKUPS {
        match parent_path(base) {
            Some(above) => {
                assert forall|depth: nat|
                    depth + (lookups + 1) <= MAX_LOOKUPS && (#[trigger] ancestor(
                        above,
                        depth,
                    )) is Some implies !disk.contains(
                    joined_path(ancestor(above, depth).unwrap(), subpath),
                ) by {
                    assert(ancestor(base, depth + 1) == ancestor(above, depth));
                }
                lemma_nothing_found(above, subpath, lookups + 1, disk);
            },
            None => {},
        }
    }
}

/// A search finds the subpath under the nearest directory that holds it.
proof fn lemma_nearest_found(
    base: Seq<char>,
    subpath: Seq<char>,
    lookups: nat,
    depth: nat,
    disk: Set<Seq<char>>,
)
    requires
        1 <= lookups,
        lookups + depth <= MAX_LOOKUPS,
        ancestor(base, depth) is Some,
        disk.contains(joined_path(ancestor(base, depth).unwrap(), subpath)),
        forall|nearer: nat|
            nearer < depth ==> !disk.contains(
                joined_path((#[trigger] ancestor(base, nearer)).unwrap(), subpath),
            ),
    ensures
        search_from(base, subpath, lookups, disk) == Some(
            joined_path(ancestor(base, depth).unwrap(), subpath),
        ),
    decreases depth,
{
    if depth > 0 {
        assert(ancestor(base, 0) == Some(base));
        let above = parent_path(base).unwrap();
        assert(ancestor(base, depth) == ancestor(above, (depth - 1) as nat));
        assert forall|nearer: nat| nearer < depth - 1 implies !disk.contains(
            joined_path((#[trigger] ancestor(above, nearer)).unwrap(), subpath),
        ) by {
            assert(ancestor(base, nearer + 1) == ancestor(above, nearer));
        }
        lemma_nearest_found(above, subpath, lookups + 1, (depth - 1) as nat, disk);
    }
}

/// Without an SDK root set from outside, and with the subpath under none of
/// the build root and its eight nearest ancestors, the search fails and names
/// the subpath.
pub proof fn law_not_found(request: RequestModel, disk: Set<Seq<char>>)
    requires
        request.admitted(),
        request.sdk_root is None,
        forall|depth: nat|
            depth < MAX_LOOKUPS && (#[trigger] ancestor(request.build_root, depth)) is Some
                ==> !disk.contains(
                joined_path(ancestor(request.build_root, depth).unwrap(), request.subpath()),
            ),
    ensures
        resolve_spec(request, disk) == Err::<LocationModel, ErrorModel>(
            ErrorModel::NotFound(request.subpath()),
        ),
{
    lemma_nothing_found(request.build_root, request.subpath(), 1, disk);
}

/// Without an SDK root set from outside, the search returns the subpath
/// under the nearest of the build root and its eight nearest ancestors that
/// holds it, whatever lies under the directories further up.
pub proof fn law_nearest_wins(request: RequestModel, disk: Set<Seq<char>>, depth: nat)
    requires
        request.admitted(),
        request.sdk_root is None,
        depth < MAX_LOOKUPS,
        ancestor(request.build_root, depth) is Some,
        disk.contains(
            joined_path(ancestor(request.build_root, depth).unwrap(), request.subpath()),
        ),
        forall|nearer: nat|
            nearer < depth ==> !disk.contains(
                joined_path(
                    (#[trigger] ancestor(request.build_root, nearer)).unwrap(),
                    request.subpath(),
                ),
            ),
    ensures
        resolve_spec(request, disk) == Ok::<LocationModel, ErrorModel>(
            LocationModel {
                sdk_root: joined_path(
                    ancestor(request.build_root, depth).unwrap(),
                    request.subpath(),
                ),
                system_include_root: request.include_dir(),
            },
        ),
{
    lemma_nearest_found(request.build_root, request.subpath(), 1, depth, disk);
}

/// Begins a search. A request that is not admitted ends it at once, before
/// any path is probed.
pub fn start(request: LocateRequest) -> (step: LocateStep)
    requires
        request@.served(),
    ensures
        step@ == start_spec(request@),
{
    let LocateRequest { targets, build_triple, build_root, overrides } = request;
    let EnvOverrides { sdk_root, include_root } = overrides;
    if targets.len() == 0 {
        return LocateStep::Done(Err(LocateError::NoTargetSelected));
    }
    if targets.len() > 1 {
        return LocateStep::Done(Err(LocateError::AmbiguousTarget(targets.len())));
    }
    if let Some(triple) = build_triple {
        if same_text(triple.as_str(), "x86_64-unknown-linux-gnu") {
            return LocateStep::Done(Err(LocateError::UnsupportedTarget(triple)));
        }
    }
    let target: SdkTarget = targets[0];
    let system_include_root: String = match include_root {
        Some(path) => path,
        None => String::from_str(target.default_system_include().unwrap()),
    };
    match sdk_root {
        Some(root) => LocateStep::Probe(
            LocateState::Confirming(SdkLocation { sdk_root: root, system_include_root }),
        ),
        None => LocateStep::Probe(
            LocateState::Searching(
                Search {
                    base: build_root,
                    subpath: String::from_str(target.sdk_subpath().unwrap()),
                    lookups: 1,
                    include_root: system_include_root,
                },
            ),
        ),
    }
}

impl LocateState {
    /// The path to probe in this state.
    pub fn path(&self) -> (r: String)
        ensures
            r@ == probe_path(self@),
    {
        match self {
            LocateState::Searching(search) => join_path(
                search.base.as_str(),
                search.subpath.as_str(),
            ),
            LocateState::Confirming(location) => location.sdk_root.clone(),
        }
    }
}

/// Goes on after a lookup that found nothing: to the directory above, which
/// the caller hands in, unless there is none or `MAX_LOOKUPS` directories
/// have been looked into.
pub fn climb(search: Search, parent: Option<String>) -> (step: LocateStep)
    ensures
        step@ == climb_spec(search@, text_of(parent)),
{
    let Search { base: _, subpath, lookups, include_root } = search;
    if lookups >= MAX_LOOKUPS {
        return LocateStep::Done(Err(LocateError::NotFound(subpath)));
    }
    match parent {
        Some(above) => LocateStep::Probe(
            LocateState::Searching(
                Search { base: above, subpath, lookups: lookups + 1, include_root },
            ),
        ),
        None => LocateStep::Done(Err(LocateError::NotFound(subpath))),
    }
}

/// Takes the answer to the probe of `state` and says what comes next.
pub fn advance(state: LocateState, exists: bool) -> (step: LocateStep)
    ensures
        step@ == advance_spec(state@, exists),
{
    match state {
        LocateState::Confirming(location) => {
            if exists {
                LocateStep::Done(Ok(location))
            } else {
                LocateStep::Done(Err(LocateError::NotExists(location.sdk_root)))
            }
        },
        LocateState::Searching(search) => {
            if exists {
                let sdk_root: String = join_path(search.base.as_str(), search.subpath.as_str());
                LocateStep::Probe(
                    LocateState::Confirming(
                        SdkLocation { sdk_root, system_include_root: search.include_root },
                    ),
                )
            } else {
                let parent: Option<String> = parent_of(search.base.as_str());
                climb(search, parent)
            }
        },
    }
}

/// The search-path argument for a directory: `-I` and the directory.
pub open spec fn search_arg(directory: Seq<char>) -> Seq<char> {
    seq!['-', 'I'] + directory
}

/// The directory `include` of the SDK root.
pub open spec fn sdk_headers(sdk_root: Seq<char>) -> Seq<char> {
    sdk_root + seq!['/', 'i', 'n', 'c', 'l', 'u', 'd', 'e']
}

/// The directory `lib` of the SDK root.
pub open spec fn sdk_libraries(sdk_root: Seq<char>) -> Seq<char> {
    sdk_root + seq!['/', 'l', 'i', 'b']
}

impl SdkLocation {
    /// The two search-path arguments for the header parser: the SDK's own
    /// headers first, the system headers second.
    pub fn search_args(&self) -> (args: Vec<String>)
        ensures
            args@.len() == 2,
            args@[0]@ == search_arg(sdk_headers(self.sdk_root@)),
            args@[1]@ == search_arg(self.system_include_root@),
    {
        proof {
            reveal_strlit("-I");
            reveal_strlit("/include");
        }
        let mut sdk: String = String::from_str("-I");
        sdk.append(self.sdk_root.as_str());
        sdk.append("/include");
        let mut system: String = String::from_str("-I");
        system.append(self.system_include_root.as_str());
        assert(sdk@ =~= search_arg(sdk_headers(self.sdk_root@)));
        assert(system@ =~= search_arg(self.system_include_root@));
        let mut args: Vec<String> = Vec::new();
        args.push(sdk);
        args.push(system);
        args
    }

    /// The directory in which the linker finds the SDK's libraries.
    pub fn library_dir(&self) -> (dir: String)
        ensures
            dir@ == sdk_libraries(self.sdk_root@),
    {
        proof {
            reveal_strlit("/lib");
        }
        let mut dir: String = self.sdk_root.clone();
        dir.append("/lib");
        assert(dir@ =~= sdk_libraries(self.sdk_root@));
        dir
    }
}

/// Whether `existing` names `path`.
fn listed(existing: &Vec<String>, path: &str) -> (r: bool)
    ensures
        r == paths_of(existing@).contains(path@),
{
    let mut i: usize = 0;
    while i < existing.len()
        invariant
            i <= existing.len(),
            forall|j: int| 0 <= j < i ==> existing[j]@ != path@,
        decreases existing.len() - i,
    {
        if same_text(existing[i].as_str(), path) {
            return true;
        }
        i += 1;
    }
    false
}

/// Resolves `request` where exactly the paths that `existing` names exist:
/// runs the machine and answers each probe from the list.
pub fn resolve_on(request: LocateRequest, existing: &Vec<String>) -> (r: Result<
    SdkLocation,
    LocateError,
>)
    requires
        request@.served(),
    ensures
        outcome_of(r) == resolve_spec(request@, paths_of(existing@)),
{
    let ghost disk = paths_of(existing@);
    let ghost goal = resolve_spec(request@, disk);
    proof {
        law_machine_resolves(request@, disk);
    }
    let mut step: LocateStep = start(request);
    let mut fuel: u8 = MAX_LOOKUPS + 1;
    loop
        invariant
            disk == paths_of(existing@),
            goal == resolve_spec(request@, disk),
            run(step@, disk, fuel as nat) == Some(goal),
        decreases fuel,
    {
        match step {
            LocateStep::Done(outcome) => {
                return outcome;
            },
            LocateStep::Probe(state) => {
                let path: String = state.path();
                let exists: bool = listed(existing, path.as_str());
                step = advance(state, exists);
                fuel = fuel - 1;
            },
        }
    }
}

} // verus!
